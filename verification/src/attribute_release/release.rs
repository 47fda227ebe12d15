//! Releasing a subject's attributes: the steps of an evaluation.
//!
//! The mapping engine compiles documents and evaluates mappings; the functions here decide what
//! it is asked and what its answers mean. Each takes what the caller has just learned, an event,
//! and says what to do next, a step, until the step is [`CompileStep::Done`],
//! [`MappingStep::Done`] or [`ReleaseStep::Done`].
use crate::attribute_release::diagnostics::predicate_type_diagnostic;
use crate::attribute_release::document::{document, synthesize_document};
use crate::attribute_release::error::{AttributeReleaseError, AttributeReleaseErrorView};
use crate::attribute_release::evaluation::{
    evaluated_field, predicate_of, read_output, result_view, scalar_of, EvaluationInput,
    EvaluationInputView, EvaluationOutput, EvaluationOutputView,
};
use crate::attribute_release::laws::is_only_field;
use crate::json::{Json, JsonObject, JsonView};
use std::sync::Arc;
use vstd::prelude::*;

verus! {

/// What is known while an expression is compiled.
pub enum CompileEvent<M> {
    /// Nothing yet.
    Begin,
    /// The engine compiled the document to this mapping.
    Compiled(M),
    /// The engine refused the document.
    Failed,
}

/// What to do next while an expression is compiled.
pub enum CompileStep<T> {
    /// Have the engine compile this document.
    Compile(String),
    /// Nothing: this is the outcome.
    Done(Result<T, AttributeReleaseError>),
}

/// The mathematical value of a [`CompileStep`].
pub enum CompileStepView<T> {
    Compile(Seq<char>),
    Done(Result<T, AttributeReleaseErrorView>),
}

impl<T> CompileStep<T> {
    /// The value that `self` stands for.
    pub open spec fn model(self) -> CompileStepView<T> {
        match self {
            CompileStep::Compile(text) => CompileStepView::Compile(text@),
            CompileStep::Done(Ok(value)) => CompileStepView::Done(Ok(value)),
            CompileStep::Done(Err(error)) => CompileStepView::Done(Err(error@)),
        }
    }
}

/// The steps of compiling the expression `cel`.
pub open spec fn compile_step<M>(cel: Seq<char>, event: CompileEvent<M>) -> CompileStepView<M> {
    match event {
        CompileEvent::Begin => CompileStepView::Compile(document(cel)),
        CompileEvent::Compiled(mapping) => CompileStepView::Done(Ok(mapping)),
        CompileEvent::Failed => CompileStepView::Done(
            Err(AttributeReleaseErrorView::Compile("kind=compile"@)),
        ),
    }
}

/// The steps of validating the expression `cel`: those of compiling it, the mapping left out.
pub open spec fn validation_step<M>(cel: Seq<char>, event: CompileEvent<M>) -> CompileStepView<()> {
    match compile_step(cel, event) {
        CompileStepView::Compile(text) => CompileStepView::Compile(text),
        CompileStepView::Done(Ok(_)) => CompileStepView::Done(Ok(())),
        CompileStepView::Done(Err(error)) => CompileStepView::Done(Err(error)),
    }
}

/// Compiles the expression `cel`. Of a refusal it keeps nothing that the engine said.
pub fn compile<M>(cel: &str, event: CompileEvent<M>) -> (r: CompileStep<M>)
    ensures
        r.model() == compile_step(cel@, event),
        event is Begin ==> (r matches CompileStep::Compile(text) && text@ == document(cel@)),
        event matches CompileEvent::Compiled(made) ==> (r matches CompileStep::Done(Ok(mapping))
            && mapping == made),
        event is Failed ==> (r matches CompileStep::Done(Err(AttributeReleaseError::Compile(detail)))
            && detail@ == "kind=compile"@),
{
    match event {
        CompileEvent::Begin => CompileStep::Compile(synthesize_document(cel)),
        CompileEvent::Compiled(mapping) => CompileStep::Done(Ok(mapping)),
        CompileEvent::Failed => CompileStep::Done(
            Err(AttributeReleaseError::Compile("kind=compile".to_owned())),
        ),
    }
}

/// Validates the expression `cel`: an expression that does not compile is rejected before any
/// request is served with it.
pub fn validate_release_expression<M>(cel: &str, event: CompileEvent<M>) -> (r: CompileStep<()>)
    ensures
        r.model() == validation_step(cel@, event),
        event is Begin ==> (r matches CompileStep::Compile(text) && text@ == document(cel@)),
        event is Compiled ==> r matches CompileStep::Done(Ok(_)),
        event is Failed ==> (r matches CompileStep::Done(Err(AttributeReleaseError::Compile(detail)))
            && detail@ == "kind=compile"@),
{
    match compile(cel, event) {
        CompileStep::Compile(text) => CompileStep::Compile(text),
        CompileStep::Done(Ok(_)) => CompileStep::Done(Ok(())),
        CompileStep::Done(Err(error)) => CompileStep::Done(Err(error)),
    }
}

/// What is known while the mapping of an expression is sought.
pub enum MappingEvent<M> {
    /// Nothing yet.
    Begin,
    /// The cache was asked and holds this.
    LookedUp(Option<Arc<M>>),
    /// The expression was compiled with this outcome.
    Compiled(Result<M, AttributeReleaseError>),
    /// The cache was offered a mapping and holds this one.
    Stored(Arc<M>),
}

/// The mathematical value of a [`MappingEvent`].
pub enum MappingEventView<M> {
    Begin,
    LookedUp(Option<M>),
    Compiled(Result<M, AttributeReleaseErrorView>),
    Stored(M),
}

impl<M> View for MappingEvent<M> {
    type V = MappingEventView<M>;

    open spec fn view(&self) -> MappingEventView<M> {
        match self {
            MappingEvent::Begin => MappingEventView::Begin,
            MappingEvent::LookedUp(Some(mapping)) => MappingEventView::LookedUp(Some(**mapping)),
            MappingEvent::LookedUp(None) => MappingEventView::LookedUp(None),
            MappingEvent::Compiled(Ok(mapping)) => MappingEventView::Compiled(Ok(*mapping)),
            MappingEvent::Compiled(Err(error)) => MappingEventView::Compiled(Err(error@)),
            MappingEvent::Stored(mapping) => MappingEventView::Stored(**mapping),
        }
    }
}

/// What to do next while the mapping of an expression is sought.
pub enum MappingStep<M> {
    /// Look this expression up in the cache.
    Lookup(String),
    /// Compile this expression.
    Compile(String),
    /// Store the mapping for this expression in the cache, unless it holds one.
    Store(String, Arc<M>),
    /// Nothing: this is the outcome.
    Done(Result<Arc<M>, AttributeReleaseError>),
}

/// The mathematical value of a [`MappingStep`].
pub enum MappingStepView<M> {
    Lookup(Seq<char>),
    Compile(Seq<char>),
    Store(Seq<char>, M),
    Done(Result<M, AttributeReleaseErrorView>),
}

impl<M> View for MappingStep<M> {
    type V = MappingStepView<M>;

    open spec fn view(&self) -> MappingStepView<M> {
        match self {
            MappingStep::Lookup(cel) => MappingStepView::Lookup(cel@),
            MappingStep::Compile(cel) => MappingStepView::Compile(cel@),
            MappingStep::Store(cel, mapping) => MappingStepView::Store(cel@, **mapping),
            MappingStep::Done(Ok(mapping)) => MappingStepView::Done(Ok(**mapping)),
            MappingStep::Done(Err(error)) => MappingStepView::Done(Err(error@)),
        }
    }
}

/// The steps of finding the mapping of the expression `cel`: it is compiled only where the cache
/// holds none, and what the cache holds in the end is what counts.
pub open spec fn mapping_step<M>(cel: Seq<char>, event: MappingEventView<M>) -> MappingStepView<M> {
    match event {
        MappingEventView::Begin => MappingStepView::Lookup(cel),
        MappingEventView::LookedUp(Some(mapping)) => MappingStepView::Done(Ok(mapping)),
        MappingEventView::LookedUp(None) => MappingStepView::Compile(cel),
        MappingEventView::Compiled(Ok(mapping)) => MappingStepView::Store(cel, mapping),
        MappingEventView::Compiled(Err(error)) => MappingStepView::Done(Err(error)),
        MappingEventView::Stored(mapping) => MappingStepView::Done(Ok(mapping)),
    }
}

/// Finds the mapping of the expression `cel`, from the cache or by compiling it once.
pub fn compiled_mapping<M>(cel: &str, event: MappingEvent<M>) -> (r: MappingStep<M>)
    ensures
        r@ == mapping_step(cel@, event@),
        event is Begin ==> (r matches MappingStep::Lookup(text) && text@ == cel@),
        event matches MappingEvent::LookedUp(Some(held)) ==> (r matches MappingStep::Done(
            Ok(mapping),
        ) && mapping == held),
        event matches MappingEvent::LookedUp(None) ==> (r matches MappingStep::Compile(text)
            && text@ == cel@),
        event matches MappingEvent::Compiled(Ok(made)) ==> (r matches MappingStep::Store(
            text,
            mapping,
        ) && text@ == cel@ && *mapping == made),
        event matches MappingEvent::Compiled(Err(error)) ==> (r matches MappingStep::Done(
            Err(reported),
        ) && reported == error),
        event matches MappingEvent::Stored(held) ==> (r matches MappingStep::Done(Ok(mapping))
            && mapping == held),
{
    match event {
        MappingEvent::Begin => MappingStep::Lookup(cel.to_owned()),
        MappingEvent::LookedUp(Some(mapping)) => MappingStep::Done(Ok(mapping)),
        MappingEvent::LookedUp(None) => MappingStep::Compile(cel.to_owned()),
        MappingEvent::Compiled(Ok(mapping)) => MappingStep::Store(
            cel.to_owned(),
            Arc::new(mapping),
        ),
        MappingEvent::Compiled(Err(error)) => MappingStep::Done(Err(error)),
        MappingEvent::Stored(mapping) => MappingStep::Done(Ok(mapping)),
    }
}

/// What is known while an expression is evaluated.
pub enum ReleaseEvent<M> {
    /// Nothing yet.
    Begin,
    /// The mapping of the expression was sought with this outcome.
    Mapped(Result<Arc<M>, AttributeReleaseError>),
    /// The engine evaluated the mapping and gave this.
    Evaluated(EvaluationOutput),
}

/// The mathematical value of a [`ReleaseEvent`].
pub enum ReleaseEventView<M> {
    Begin,
    Mapped(Result<M, AttributeReleaseErrorView>),
    Evaluated(EvaluationOutputView),
}

impl<M> View for ReleaseEvent<M> {
    type V = ReleaseEventView<M>;

    open spec fn view(&self) -> ReleaseEventView<M> {
        match self {
            ReleaseEvent::Begin => ReleaseEventView::Begin,
            ReleaseEvent::Mapped(Ok(mapping)) => ReleaseEventView::Mapped(Ok(**mapping)),
            ReleaseEvent::Mapped(Err(error)) => ReleaseEventView::Mapped(Err(error@)),
            ReleaseEvent::Evaluated(output) => ReleaseEventView::Evaluated(output@),
        }
    }
}

/// What to do next while an expression is evaluated.
pub enum ReleaseStep<M, T> {
    /// Find the mapping of this expression.
    FindMapping(String),
    /// Have the engine evaluate the mapping over the input.
    Evaluate(Arc<M>, EvaluationInput),
    /// Nothing: this is the outcome.
    Done(Result<T, AttributeReleaseError>),
}

/// The mathematical value of a [`ReleaseStep`].
pub enum ReleaseStepView<M, V> {
    FindMapping(Seq<char>),
    Evaluate(M, EvaluationInputView),
    Done(Result<V, AttributeReleaseErrorView>),
}

impl<M, T: View> View for ReleaseStep<M, T> {
    type V = ReleaseStepView<M, T::V>;

    open spec fn view(&self) -> ReleaseStepView<M, T::V> {
        match self {
            ReleaseStep::FindMapping(cel) => ReleaseStepView::FindMapping(cel@),
            ReleaseStep::Evaluate(mapping, input) => ReleaseStepView::Evaluate(**mapping, input@),
            ReleaseStep::Done(outcome) => ReleaseStepView::Done(result_view(*outcome)),
        }
    }
}

/// The steps of evaluating the expression `cel` over `record`: the engine sees the record and an
/// empty context.
pub open spec fn field_step<M>(
    cel: Seq<char>,
    record: JsonView,
    event: ReleaseEventView<M>,
) -> ReleaseStepView<M, JsonView> {
    match event {
        ReleaseEventView::Begin => ReleaseStepView::FindMapping(cel),
        ReleaseEventView::Mapped(Ok(mapping)) => ReleaseStepView::Evaluate(
            mapping,
            EvaluationInputView { source: record, context: JsonView::Object(Map::empty()) },
        ),
        ReleaseEventView::Mapped(Err(error)) => ReleaseStepView::Done(Err(error)),
        ReleaseEventView::Evaluated(output) => ReleaseStepView::Done(evaluated_field(output)),
    }
}

/// The steps of evaluating the predicate `cel` over `record`.
pub open spec fn predicate_step<M>(
    cel: Seq<char>,
    record: JsonView,
    event: ReleaseEventView<M>,
) -> ReleaseStepView<M, bool> {
    match field_step(cel, record, event) {
        ReleaseStepView::FindMapping(cel) => ReleaseStepView::FindMapping(cel),
        ReleaseStepView::Evaluate(mapping, input) => ReleaseStepView::Evaluate(mapping, input),
        ReleaseStepView::Done(field) => ReleaseStepView::Done(predicate_of(field)),
    }
}

/// The steps of computing the claim `cel` over `record`.
pub open spec fn scalar_step<M>(
    cel: Seq<char>,
    record: JsonView,
    event: ReleaseEventView<M>,
) -> ReleaseStepView<M, JsonView> {
    match field_step(cel, record, event) {
        ReleaseStepView::FindMapping(cel) => ReleaseStepView::FindMapping(cel),
        ReleaseStepView::Evaluate(mapping, input) => ReleaseStepView::Evaluate(mapping, input),
        ReleaseStepView::Done(field) => ReleaseStepView::Done(scalar_of(field)),
    }
}

/// Evaluates the expression `cel` over `record` and reads the only field back.
pub fn evaluate_single_field<M>(cel: &str, record: &Json, event: ReleaseEvent<M>) -> (r:
    ReleaseStep<M, Json>)
    ensures
        r@ == field_step(cel@, record@, event@),
        event is Begin ==> (r matches ReleaseStep::FindMapping(text) && text@ == cel@),
        event matches ReleaseEvent::Mapped(Ok(found)) ==> (r matches ReleaseStep::Evaluate(
            mapping,
            input,
        ) && mapping == found && input.source@ == record@ && input.context@ == JsonView::Object(
            Map::empty(),
        )),
        event matches ReleaseEvent::Mapped(Err(error)) ==> (r matches ReleaseStep::Done(
            Err(reported),
        ) && reported == error),
        event matches ReleaseEvent::Evaluated(output) ==> (r matches ReleaseStep::Done(outcome)
            && result_view(outcome) == evaluated_field(output@)),
{
    match event {
        ReleaseEvent::Begin => ReleaseStep::FindMapping(cel.to_owned()),
        ReleaseEvent::Mapped(Ok(mapping)) => ReleaseStep::Evaluate(
            mapping,
            EvaluationInput { source: record.clone(), context: Json::Object(JsonObject::new()) },
        ),
        ReleaseEvent::Mapped(Err(error)) => ReleaseStep::Done(Err(error)),
        ReleaseEvent::Evaluated(output) => ReleaseStep::Done(read_output(output)),
    }
}

/// Evaluates the release predicate `cel` over `record`. It fails closed: whatever keeps the
/// expression from giving a boolean is an error, never a permission.
pub fn evaluate_release_predicate<M>(cel: &str, record: &Json, event: ReleaseEvent<M>) -> (r:
    ReleaseStep<M, bool>)
    ensures
        r@ == predicate_step(cel@, record@, event@),
        event is Begin ==> (r matches ReleaseStep::FindMapping(text) && text@ == cel@),
        event matches ReleaseEvent::Mapped(Ok(found)) ==> (r matches ReleaseStep::Evaluate(
            mapping,
            input,
        ) && mapping == found && input.source@ == record@ && input.context@ == JsonView::Object(
            Map::empty(),
        )),
        event matches ReleaseEvent::Mapped(Err(error)) ==> (r matches ReleaseStep::Done(
            Err(reported),
        ) && reported == error),
        event matches ReleaseEvent::Evaluated(output) ==> (r matches ReleaseStep::Done(outcome)
            && result_view(outcome) == predicate_of(evaluated_field(output@)) && (outcome is Ok <==> is_only_field(output@, JsonView::Bool(true)) || is_only_field(output@, JsonView::Bool(false))) && (outcome matches Ok(b) ==> is_only_field(output@, JsonView::Bool(b)))),
{
    match evaluate_single_field(cel, record, event) {
        ReleaseStep::FindMapping(cel) => ReleaseStep::FindMapping(cel),
        ReleaseStep::Evaluate(mapping, input) => ReleaseStep::Evaluate(mapping, input),
        ReleaseStep::Done(Ok(Json::Bool(b))) => ReleaseStep::Done(Ok(b)),
        ReleaseStep::Done(Ok(value)) => ReleaseStep::Done(
            Err(AttributeReleaseError::TypeMismatch(predicate_type_diagnostic(&value))),
        ),
        ReleaseStep::Done(Err(error)) => ReleaseStep::Done(Err(error)),
    }
}

/// Computes the claim `cel` over `record`. It fails closed: an expression that gives null or
/// nothing is an error, never a claim that is left out or null.
pub fn evaluate_release_scalar<M>(cel: &str, record: &Json, event: ReleaseEvent<M>) -> (r:
    ReleaseStep<M, Json>)
    ensures
        r@ == scalar_step(cel@, record@, event@),
        event is Begin ==> (r matches ReleaseStep::FindMapping(text) && text@ == cel@),
        event matches ReleaseEvent::Mapped(Ok(found)) ==> (r matches ReleaseStep::Evaluate(
            mapping,
            input,
        ) && mapping == found && input.source@ == record@ && input.context@ == JsonView::Object(
            Map::empty(),
        )),
        event matches ReleaseEvent::Mapped(Err(error)) ==> (r matches ReleaseStep::Done(
            Err(reported),
        ) && reported == error),
        event matches ReleaseEvent::Evaluated(output) ==> (r matches ReleaseStep::Done(outcome)
            && result_view(outcome) == scalar_of(evaluated_field(output@)) && (outcome matches Ok(value) ==> is_only_field(output@, value@) && !(value@ is Null))),
{
    match evaluate_single_field(cel, record, event) {
        ReleaseStep::FindMapping(cel) => ReleaseStep::FindMapping(cel),
        ReleaseStep::Evaluate(mapping, input) => ReleaseStep::Evaluate(mapping, input),
        ReleaseStep::Done(Ok(Json::Null)) => ReleaseStep::Done(
            Err(AttributeReleaseError::MissingField("field=value kind=null".to_owned())),
        ),
        ReleaseStep::Done(Ok(value)) => ReleaseStep::Done(Ok(value)),
        ReleaseStep::Done(Err(error)) => ReleaseStep::Done(Err(error)),
    }
}

} // verus!
