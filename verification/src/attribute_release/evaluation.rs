//! What the mapping engine is given and what it gives back.
use crate::attribute_release::diagnostics::{
    issue_diagnostics, issue_paths, issues_text, kind_of, predicate_type_text, MappingIssue,
};
use crate::attribute_release::document::FIELD_NAME;
use crate::attribute_release::error::{AttributeReleaseError, AttributeReleaseErrorView};
use crate::json::{Json, JsonView};
use vstd::prelude::*;

verus! {

/// What the engine evaluates a mapping over.
#[derive(Debug)]
pub struct EvaluationInput {
    /// The subject's record.
    pub source: Json,
    /// Further values that an expression can refer to.
    pub context: Json,
}

/// The mathematical value of an [`EvaluationInput`].
pub struct EvaluationInputView {
    pub source: JsonView,
    pub context: JsonView,
}

impl View for EvaluationInput {
    type V = EvaluationInputView;

    open spec fn view(&self) -> EvaluationInputView {
        EvaluationInputView { source: self.source@, context: self.context@ }
    }
}

/// The records that an evaluation gave under one name.
#[derive(Debug)]
pub struct RecordGroup {
    pub name: String,
    pub records: Vec<Json>,
}

impl View for RecordGroup {
    type V = Seq<JsonView>;

    open spec fn view(&self) -> Seq<JsonView> {
        self.records@.map_values(|record: Json| record@)
    }
}

/// What an evaluation gave: the problems that the engine met, and the records by their names.
#[derive(Debug)]
pub struct EvaluationOutput {
    pub errors: Vec<MappingIssue>,
    pub records: Vec<RecordGroup>,
}

/// The mathematical value of an [`EvaluationOutput`]: the places of the problems, and all records
/// in order.
pub struct EvaluationOutputView {
    pub errors: Seq<Option<Seq<char>>>,
    pub records: Seq<JsonView>,
}

/// All records of a list of groups, in order.
pub open spec fn all_records(groups: Seq<RecordGroup>) -> Seq<JsonView> {
    groups.map_values(|group: RecordGroup| group@).flatten()
}

impl View for EvaluationOutput {
    type V = EvaluationOutputView;

    open spec fn view(&self) -> EvaluationOutputView {
        EvaluationOutputView {
            errors: issue_paths(self.errors@),
            records: all_records(self.records@),
        }
    }
}

/// The value of a result.
pub open spec fn result_view<T: View>(r: Result<T, AttributeReleaseError>) -> Result<
    T::V,
    AttributeReleaseErrorView,
> {
    match r {
        Ok(value) => Ok(value@),
        Err(error) => Err(error@),
    }
}

/// The value of the only field of the only record.
pub open spec fn only_field(records: Seq<JsonView>) -> Result<JsonView, AttributeReleaseErrorView> {
    if records.len() == 0 {
        Err(AttributeReleaseErrorView::MissingField("field=value kind=no_record"@))
    } else if records.len() > 1 {
        Err(AttributeReleaseErrorView::Eval("kind=multiple_records"@))
    } else {
        match records[0] {
            JsonView::Object(fields) => if fields.contains_key(FIELD_NAME@) {
                Ok(fields[FIELD_NAME@])
            } else {
                Err(AttributeReleaseErrorView::MissingField("field=value kind=absent"@))
            },
            _ => Err(
                AttributeReleaseErrorView::TypeMismatch("field=value kind=non_object_record"@),
            ),
        }
    }
}

/// What an evaluation says of the field: nothing where the engine met a problem.
pub open spec fn evaluated_field(output: EvaluationOutputView) -> Result<
    JsonView,
    AttributeReleaseErrorView,
> {
    if output.errors.len() > 0 {
        Err(AttributeReleaseErrorView::Eval(issues_text(output.errors)))
    } else {
        only_field(output.records)
    }
}

/// What a predicate decides: only a boolean decides.
pub open spec fn predicate_of(field: Result<JsonView, AttributeReleaseErrorView>) -> Result<
    bool,
    AttributeReleaseErrorView,
> {
    match field {
        Ok(JsonView::Bool(b)) => Ok(b),
        Ok(value) => Err(
            AttributeReleaseErrorView::TypeMismatch(predicate_type_text(kind_of(value))),
        ),
        Err(error) => Err(error),
    }
}

/// What a computed claim is: null is no claim.
pub open spec fn scalar_of(field: Result<JsonView, AttributeReleaseErrorView>) -> Result<
    JsonView,
    AttributeReleaseErrorView,
> {
    match field {
        Ok(JsonView::Null) => Err(
            AttributeReleaseErrorView::MissingField("field=value kind=null"@),
        ),
        Ok(value) => Ok(value),
        Err(error) => Err(error),
    }
}

proof fn lemma_all_records_pop(groups: Seq<RecordGroup>)
    requires
        groups.len() > 0,
    ensures
        all_records(groups) == all_records(groups.drop_last()) + groups.last()@,
{
    let views = groups.map_values(|group: RecordGroup| group@);
    assert(groups.drop_last().map_values(|group: RecordGroup| group@) =~= views.drop_last());
    assert(views =~= views.drop_last().push(views.last()));
    views.drop_last().lemma_flatten_push(views.last());
}

/// Reads the only field of the only record back.
pub fn read_single_field(groups: Vec<RecordGroup>) -> (r: Result<Json, AttributeReleaseError>)
    ensures
        result_view(r) == only_field(all_records(groups@)),
{
    let ghost all = all_records(groups@);
    let mut rest: Vec<RecordGroup> = groups;
    let mut found: Option<Json> = None;
    while rest.len() > 0
        invariant
            all == all_records(groups@),
            all == all_records(rest@) + match found {
                Some(record) => seq![record@],
                None => Seq::<JsonView>::empty(),
            },
        decreases rest@.len(),
    {
        proof {
            lemma_all_records_pop(rest@);
        }
        let ghost before = rest@;
        if let Some(group) = rest.pop() {
            assert(rest@ =~= before.drop_last());
            let mut records: Vec<Json> = group.records;
            while records.len() > 0
                invariant
                    all == all_records(groups@),
                    all == all_records(rest@) + records@.map_values(|record: Json| record@)
                        + match found {
                        Some(record) => seq![record@],
                        None => Seq::<JsonView>::empty(),
                    },
                decreases records@.len(),
            {
                let ghost before = records@;
                if let Some(record) = records.pop() {
                    proof {
                        assert(before.map_values(|record: Json| record@)
                            =~= records@.map_values(|record: Json| record@).push(record@));
                    }
                    if found.is_some() {
                        return Err(AttributeReleaseError::Eval("kind=multiple_records".to_owned()));
                    }
                    found = Some(record);
                    assert(all =~= all_records(rest@) + records@.map_values(
                        |record: Json| record@,
                    ) + seq![record@]);
                }
            }
            assert(all =~= all_records(rest@) + match found {
                Some(record) => seq![record@],
                None => Seq::<JsonView>::empty(),
            });
        }
    }
    assert(all_records(rest@) =~= Seq::<JsonView>::empty());
    match found {
        None => Err(AttributeReleaseError::MissingField("field=value kind=no_record".to_owned())),
        Some(Json::Object(mut fields)) => match fields.remove(FIELD_NAME) {
            Some(value) => Ok(value),
            None => Err(AttributeReleaseError::MissingField("field=value kind=absent".to_owned())),
        },
        Some(_) => Err(
            AttributeReleaseError::TypeMismatch("field=value kind=non_object_record".to_owned()),
        ),
    }
}

/// Reads what an evaluation says of the field. Where the engine met a problem, nothing else of the
/// output counts.
pub fn read_output(output: EvaluationOutput) -> (r: Result<Json, AttributeReleaseError>)
    ensures
        result_view(r) == evaluated_field(output@),
{
    if output.errors.len() > 0 {
        return Err(AttributeReleaseError::Eval(issue_diagnostics(output.errors.as_slice())));
    }
    read_single_field(output.records)
}

/// A group's records are those that it holds, in order, whatever its name is.
pub proof fn law_records_of_one_group(group: RecordGroup, i: int)
    requires
        0 <= i < group.records@.len(),
    ensures
        all_records(seq![group]).len() == group.records@.len(),
        all_records(seq![group])[i] == group.records@[i]@,
{
    let views = seq![group].map_values(|group: RecordGroup| group@);
    assert(views =~= seq![group@]);
    views.lemma_flatten_one_element();
    assert(views.first() == group@);
}

/// No record is lost or moved: the records of two lists of groups in a row are those of the first
/// list followed by those of the second, and no group has no record.
pub proof fn law_records_compose(a: Seq<RecordGroup>, b: Seq<RecordGroup>)
    ensures
        all_records(a + b) == all_records(a) + all_records(b),
        all_records(Seq::empty()) == Seq::<JsonView>::empty(),
    decreases b.len(),
{
    let none = Seq::<RecordGroup>::empty().map_values(|group: RecordGroup| group@);
    assert(none =~= Seq::<Seq<JsonView>>::empty());
    assert(none.flatten() =~= Seq::<JsonView>::empty());
    if b.len() == 0 {
        assert(b =~= Seq::<RecordGroup>::empty());
        assert(a + b =~= a);
        assert(all_records(a) + all_records(b) =~= all_records(a));
    } else {
        law_records_compose(a, b.drop_last());
        assert((a + b).drop_last() =~= a + b.drop_last());
        assert((a + b).last() == b.last());
        lemma_all_records_pop(a + b);
        lemma_all_records_pop(b);
        assert(all_records(a + b) =~= all_records(a) + all_records(b));
    }
}

/// Reading the output of an evaluation looks at all problems and all records that it holds, and an
/// input is the record and the context that it holds.
pub proof fn law_engine_views_are_faithful(input: EvaluationInput, output: EvaluationOutput)
    ensures
        input@.source == input.source@,
        input@.context == input.context@,
        output@.errors == issue_paths(output.errors@),
        output@.records == all_records(output.records@),
{
}

/// Where the engine reports a problem, the outcome is the description of the problems, whatever
/// records it gave as well.
pub proof fn law_problems_come_first(output: EvaluationOutputView)
    requires
        output.errors.len() > 0,
    ensures
        evaluated_field(output) == Err::<JsonView, AttributeReleaseErrorView>(
            AttributeReleaseErrorView::Eval(issues_text(output.errors)),
        ),
{
}

/// Where the engine reports no problem, each way in which the records can hold no single field is
/// told by an error of its own.
pub proof fn law_unusable_records_are_told_apart(output: EvaluationOutputView)
    requires
        output.errors.len() == 0,
    ensures
        evaluated_field(output) == Err::<JsonView, AttributeReleaseErrorView>(
            AttributeReleaseErrorView::MissingField("field=value kind=no_record"@),
        ) <==> output.records.len() == 0,
        evaluated_field(output) == Err::<JsonView, AttributeReleaseErrorView>(
            AttributeReleaseErrorView::Eval("kind=multiple_records"@),
        ) <==> output.records.len() > 1,
        evaluated_field(output) == Err::<JsonView, AttributeReleaseErrorView>(
            AttributeReleaseErrorView::TypeMismatch("field=value kind=non_object_record"@),
        ) <==> output.records.len() == 1 && !(output.records[0] is Object),
        evaluated_field(output) == Err::<JsonView, AttributeReleaseErrorView>(
            AttributeReleaseErrorView::MissingField("field=value kind=absent"@),
        ) <==> output.records.len() == 1 && output.records[0] is Object
            && !output.records[0]->Object_0.contains_key(FIELD_NAME@),
        evaluated_field(output) is Ok <==> output.records.len() == 1 && output.records[0] is Object
            && output.records[0]->Object_0.contains_key(FIELD_NAME@),
        evaluated_field(output) is Ok ==> evaluated_field(output)->Ok_0
            == output.records[0]->Object_0[FIELD_NAME@],
{
    reveal_strlit("field=value kind=no_record");
    reveal_strlit("field=value kind=absent");
    assert("field=value kind=no_record"@.len() != "field=value kind=absent"@.len());
}

/// A predicate and a claim pass an error on as it is.
pub proof fn law_errors_are_passed_on(error: AttributeReleaseErrorView)
    ensures
        predicate_of(Err(error)) == Err::<bool, AttributeReleaseErrorView>(error),
        scalar_of(Err(error)) == Err::<JsonView, AttributeReleaseErrorView>(error),
{
}

/// A predicate that gives a boolean decides by it. One that gives another value is told by the type
/// of the value.
pub proof fn law_only_booleans_decide(value: JsonView)
    ensures
        value is Bool ==> predicate_of(Ok(value)) == Ok::<bool, AttributeReleaseErrorView>(
            value->Bool_0,
        ),
        !(value is Bool) ==> predicate_of(Ok(value)) == Err::<bool, AttributeReleaseErrorView>(
            AttributeReleaseErrorView::TypeMismatch(predicate_type_text(kind_of(value))),
        ),
{
}

/// A claim is the value of the field as it is, whatever its type; null alone is told as missing.
pub proof fn law_only_null_is_no_claim(value: JsonView)
    ensures
        !(value is Null) ==> scalar_of(Ok(value)) == Ok::<JsonView, AttributeReleaseErrorView>(
            value,
        ),
        value is Null ==> scalar_of(Ok(value)) == Err::<JsonView, AttributeReleaseErrorView>(
            AttributeReleaseErrorView::MissingField("field=value kind=null"@),
        ),
{
}

/// The value of a result is the value of what it holds.
pub proof fn law_result_view_is_faithful<T: View>(r: Result<T, AttributeReleaseError>)
    ensures
        r is Ok <==> result_view(r) is Ok,
        r is Ok ==> result_view(r)->Ok_0 == r->Ok_0@,
        r is Err ==> result_view(r)->Err_0 == r->Err_0@,
{
}

} // verus!
