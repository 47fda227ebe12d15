//! What holds of attribute release as a whole.
use crate::attribute_release::cache::with_stored;
use crate::attribute_release::diagnostics::{issues_text, kind_of, JsonKind};
use crate::attribute_release::document::{document, FIELD_NAME};
use crate::attribute_release::error::AttributeReleaseErrorView;
use crate::attribute_release::evaluation::{
    evaluated_field, predicate_of, scalar_of, EvaluationInputView, EvaluationOutputView,
};
use crate::attribute_release::release::{
    compile_step, field_step, mapping_step, predicate_step, scalar_step, validation_step,
    CompileEvent, CompileStepView, MappingEventView, MappingStepView, ReleaseEventView,
    ReleaseStepView,
};
use crate::json::JsonView;
use vstd::prelude::*;

verus! {

/// The mapping engine as a function: what it compiles a document to, if it accepts it, and what
/// the evaluation of a mapping gives.
#[verifier::reject_recursive_types(M)]
pub struct Engine<M> {
    pub compile: spec_fn(Seq<char>) -> Option<M>,
    pub evaluate: spec_fn(M, EvaluationInputView) -> EvaluationOutputView,
}

/// The record is the only one and an object, and its field has the value `value`.
pub open spec fn is_only_field(output: EvaluationOutputView, value: JsonView) -> bool {
    &&& output.errors.len() == 0
    &&& output.records.len() == 1
    &&& output.records[0] is Object
    &&& output.records[0]->Object_0.contains_key(FIELD_NAME@)
    &&& output.records[0]->Object_0[FIELD_NAME@] == value
}

/// A predicate permits a release if and only if the engine met no problem and gave exactly one
/// record, an object whose field is `true`. It denies one if and only if that field is `false`.
/// Everything else is an error.
pub proof fn law_predicate_fails_closed(output: EvaluationOutputView, b: bool)
    ensures
        predicate_of(evaluated_field(output)) == Ok::<bool, AttributeReleaseErrorView>(b)
            <==> is_only_field(output, JsonView::Bool(b)),
{
}

/// A claim is released with the value `value` if and only if the engine met no problem and gave
/// exactly one record, an object whose field has that value, and the value is not null.
pub proof fn law_scalar_fails_closed(output: EvaluationOutputView, value: JsonView)
    ensures
        scalar_of(evaluated_field(output)) == Ok::<JsonView, AttributeReleaseErrorView>(value)
            <==> is_only_field(output, value) && !(value is Null),
{
}

/// What an error may show of a record: whether it is an object, whether it has the field, and
/// the type of the field.
pub open spec fn record_shape(record: JsonView) -> Option<Option<JsonKind>> {
    match record {
        JsonView::Object(fields) => if fields.contains_key(FIELD_NAME@) {
            Some(Some(kind_of(fields[FIELD_NAME@])))
        } else {
            Some(None)
        },
        _ => None,
    }
}

/// Errors carry no value of a subject: two evaluations that agree in the places of their problems
/// and in the shapes of their records fail alike, whatever values the records hold.
pub proof fn law_errors_show_shapes_only(a: EvaluationOutputView, b: EvaluationOutputView)
    requires
        a.errors == b.errors,
        a.records.map_values(|record: JsonView| record_shape(record)) == b.records.map_values(
            |record: JsonView| record_shape(record),
        ),
    ensures
        predicate_of(evaluated_field(a)) is Err ==> predicate_of(evaluated_field(a))
            == predicate_of(evaluated_field(b)),
        scalar_of(evaluated_field(a)) is Err ==> scalar_of(evaluated_field(a)) == scalar_of(
            evaluated_field(b),
        ),
{
    let shapes_a = a.records.map_values(|record: JsonView| record_shape(record));
    let shapes_b = b.records.map_values(|record: JsonView| record_shape(record));
    assert(shapes_a.len() == a.records.len() && shapes_b.len() == b.records.len());
    if a.records.len() == 1 {
        assert(shapes_a[0] == record_shape(a.records[0]));
        assert(shapes_b[0] == record_shape(b.records[0]));
    }
}

/// Errors carry no text of an expression: the refusal of one expression reads like the refusal of
/// any other.
pub proof fn law_refusals_hide_the_expression<M>(a: Seq<char>, b: Seq<char>)
    ensures
        compile_step::<M>(a, CompileEvent::Failed) == compile_step::<M>(b, CompileEvent::Failed),
        validation_step::<M>(a, CompileEvent::Failed) == validation_step::<M>(
            b,
            CompileEvent::Failed,
        ),
{
}

/// Following the steps of a compilation with the engine.
pub open spec fn run_compile<M, T>(
    engine: Engine<M>,
    step: spec_fn(CompileEvent<M>) -> CompileStepView<T>,
    event: CompileEvent<M>,
    steps: nat,
) -> Option<Result<T, AttributeReleaseErrorView>>
    decreases steps,
{
    if steps == 0 {
        None
    } else {
        match step(event) {
            CompileStepView::Compile(text) => {
                let answer = match (engine.compile)(text) {
                    Some(mapping) => CompileEvent::Compiled(mapping),
                    None => CompileEvent::Failed,
                };
                run_compile(engine, step, answer, (steps - 1) as nat)
            },
            CompileStepView::Done(outcome) => Some(outcome),
        }
    }
}

/// What comes of compiling `cel`: what the engine makes of its document.
pub open spec fn compile_outcome<M>(engine: Engine<M>, cel: Seq<char>) -> Result<
    M,
    AttributeReleaseErrorView,
> {
    match (engine.compile)(document(cel)) {
        Some(mapping) => Ok(mapping),
        None => Err(AttributeReleaseErrorView::Compile("kind=compile"@)),
    }
}

/// Compiling an expression takes one question to the engine and ends. An expression is valid if
/// and only if it compiles, and a refusal is reported alike.
pub proof fn law_compile_run<M>(engine: Engine<M>, cel: Seq<char>)
    ensures
        run_compile(
            engine,
            |event: CompileEvent<M>| compile_step(cel, event),
            CompileEvent::Begin,
            2,
        ) == Some(compile_outcome(engine, cel)),
        run_compile(
            engine,
            |event: CompileEvent<M>| validation_step(cel, event),
            CompileEvent::Begin,
            2,
        ) == Some(
            match compile_outcome(engine, cel) {
                Ok(_) => Ok(()),
                Err(error) => Err(error),
            },
        ),
{
    reveal_with_fuel(run_compile, 3);
}

/// Finding the mapping of `cel` with the engine and with a cache that nobody else uses meanwhile:
/// the cache in the end, and the outcome.
pub open spec fn run_mapping<M>(
    engine: Engine<M>,
    cache: Map<Seq<char>, M>,
    cel: Seq<char>,
    event: MappingEventView<M>,
    steps: nat,
) -> (Map<Seq<char>, M>, Option<Result<M, AttributeReleaseErrorView>>)
    decreases steps,
{
    if steps == 0 {
        (cache, None)
    } else {
        match mapping_step(cel, event) {
            MappingStepView::Lookup(key) => {
                let found = if cache.contains_key(key) {
                    Some(cache[key])
                } else {
                    None
                };
                run_mapping(
                    engine,
                    cache,
                    cel,
                    MappingEventView::LookedUp(found),
                    (steps - 1) as nat,
                )
            },
            MappingStepView::Compile(text) => run_mapping(
                engine,
                cache,
                cel,
                MappingEventView::Compiled(compile_outcome(engine, text)),
                (steps - 1) as nat,
            ),
            MappingStepView::Store(key, mapping) => {
                let stored = with_stored(cache, key, mapping);
                run_mapping(
                    engine,
                    stored,
                    cel,
                    MappingEventView::Stored(stored[key]),
                    (steps - 1) as nat,
                )
            },
            MappingStepView::Done(outcome) => (cache, Some(outcome)),
        }
    }
}

/// What comes of seeking the mapping of `cel`: the cached one, or else what it compiles to.
pub open spec fn mapping_outcome<M>(
    engine: Engine<M>,
    cache: Map<Seq<char>, M>,
    cel: Seq<char>,
) -> Result<M, AttributeReleaseErrorView> {
    if cache.contains_key(cel) {
        Ok(cache[cel])
    } else {
        compile_outcome(engine, cel)
    }
}

/// The cache after the mapping of `cel` was sought: it holds the mapping if there is one.
pub open spec fn cache_after<M>(
    engine: Engine<M>,
    cache: Map<Seq<char>, M>,
    cel: Seq<char>,
) -> Map<Seq<char>, M> {
    match mapping_outcome(engine, cache, cel) {
        Ok(mapping) => cache.insert(cel, mapping),
        Err(_) => cache,
    }
}

/// Seeking a mapping ends after at most four steps; it gives the cached mapping or else what the
/// expression compiles to, and leaves it in the cache. A failure to compile leaves the cache as
/// it is.
pub proof fn law_mapping_run<M>(engine: Engine<M>, cache: Map<Seq<char>, M>, cel: Seq<char>)
    ensures
        run_mapping(engine, cache, cel, MappingEventView::Begin, 4) == (
            cache_after(engine, cache, cel),
            Some(mapping_outcome(engine, cache, cel)),
        ),
{
    reveal_with_fuel(run_mapping, 5);
    if cache.contains_key(cel) {
        assert(cache.insert(cel, cache[cel]) =~= cache);
    }
}

/// An expression is compiled once: after its mapping was found, another search finds the same
/// mapping, whatever the engine would now make of the expression. The mappings of other
/// expressions are not touched.
pub proof fn law_mapping_is_shared<M>(
    first: Engine<M>,
    later: Engine<M>,
    cache: Map<Seq<char>, M>,
    cel: Seq<char>,
    other: Seq<char>,
)
    requires
        mapping_outcome(first, cache, cel) is Ok,
        other != cel,
    ensures
        mapping_outcome(later, cache_after(first, cache, cel), cel) == mapping_outcome(
            first,
            cache,
            cel,
        ),
        mapping_outcome(later, cache_after(first, cache, cel), other) == mapping_outcome(
            later,
            cache,
            other,
        ),
{
}

/// The cache holds no more than the expressions that were asked for: where they all come from the
/// configuration, its size is bounded by the configuration.
pub proof fn law_cache_is_bounded_by_the_configuration<M>(
    engine: Engine<M>,
    cache: Map<Seq<char>, M>,
    cel: Seq<char>,
    configured: Set<Seq<char>>,
)
    requires
        cache.dom().subset_of(configured),
        configured.contains(cel),
    ensures
        cache_after(engine, cache, cel).dom().subset_of(configured),
{
}

/// Two searches for one expression that both compiled it end with the same mapping: the one that
/// reached the cache first.
pub proof fn law_concurrent_compilations_collapse<M>(
    cache: Map<Seq<char>, M>,
    cel: Seq<char>,
    first: M,
    second: M,
)
    ensures
        with_stored(with_stored(cache, cel, first), cel, second) == with_stored(cache, cel, first),
        mapping_step(
            cel,
            MappingEventView::Stored(
                with_stored(with_stored(cache, cel, first), cel, second)[cel],
            ),
        ) == mapping_step(cel, MappingEventView::Stored(with_stored(cache, cel, first)[cel])),
{
}

/// Following the steps of an evaluation with the engine and the cache: the cache in the end, and
/// the outcome.
pub open spec fn run_release<M, V>(
    engine: Engine<M>,
    cache: Map<Seq<char>, M>,
    step: spec_fn(ReleaseEventView<M>) -> ReleaseStepView<M, V>,
    event: ReleaseEventView<M>,
    steps: nat,
) -> (Map<Seq<char>, M>, Option<Result<V, AttributeReleaseErrorView>>)
    decreases steps,
{
    if steps == 0 {
        (cache, None)
    } else {
        match step(event) {
            ReleaseStepView::FindMapping(text) => run_release(
                engine,
                cache_after(engine, cache, text),
                step,
                ReleaseEventView::Mapped(mapping_outcome(engine, cache, text)),
                (steps - 1) as nat,
            ),
            ReleaseStepView::Evaluate(mapping, input) => run_release(
                engine,
                cache,
                step,
                ReleaseEventView::Evaluated((engine.evaluate)(mapping, input)),
                (steps - 1) as nat,
            ),
            ReleaseStepView::Done(outcome) => (cache, Some(outcome)),
        }
    }
}

/// What comes of evaluating `cel` over `record`, up to the field.
pub open spec fn field_outcome<M>(
    engine: Engine<M>,
    cache: Map<Seq<char>, M>,
    cel: Seq<char>,
    record: JsonView,
) -> Result<JsonView, AttributeReleaseErrorView> {
    match mapping_outcome(engine, cache, cel) {
        Ok(mapping) => evaluated_field(
            (engine.evaluate)(
                mapping,
                EvaluationInputView { source: record, context: JsonView::Object(Map::empty()) },
            ),
        ),
        Err(error) => Err(error),
    }
}

/// An evaluation ends after at most three steps. The engine sees the expression's mapping, the
/// record, and an empty context; the outcome is what its answer says of the field. A predicate and
/// a computed claim differ only in what they make of the field.
pub proof fn law_release_run<M>(
    engine: Engine<M>,
    cache: Map<Seq<char>, M>,
    cel: Seq<char>,
    record: JsonView,
)
    ensures
        run_release(
            engine,
            cache,
            |event: ReleaseEventView<M>| field_step(cel, record, event),
            ReleaseEventView::Begin,
            3,
        ) == (
            cache_after(engine, cache, cel),
            Some(field_outcome(engine, cache, cel, record)),
        ),
        run_release(
            engine,
            cache,
            |event: ReleaseEventView<M>| predicate_step(cel, record, event),
            ReleaseEventView::Begin,
            3,
        ) == (
            cache_after(engine, cache, cel),
            Some(predicate_of(field_outcome(engine, cache, cel, record))),
        ),
        run_release(
            engine,
            cache,
            |event: ReleaseEventView<M>| scalar_step(cel, record, event),
            ReleaseEventView::Begin,
            3,
        ) == (
            cache_after(engine, cache, cel),
            Some(scalar_of(field_outcome(engine, cache, cel, record))),
        ),
{
    reveal_with_fuel(run_release, 4);
}

/// While an expression is compiled or validated, the engine is asked for its own document and for
/// nothing else, and only at the beginning. A compilation ends with the mapping that the engine
/// made; a validation succeeds if and only if the engine made one; a refusal is the same for both.
pub proof fn law_compilation_asks_for_its_document<M>(cel: Seq<char>, event: CompileEvent<M>)
    ensures
        match compile_step(cel, event) {
            CompileStepView::Compile(text) => event is Begin && text == document(cel),
            CompileStepView::Done(Ok(mapping)) => event == CompileEvent::Compiled(mapping),
            CompileStepView::Done(Err(error)) => event is Failed && error
                == AttributeReleaseErrorView::Compile("kind=compile"@),
        },
        match validation_step(cel, event) {
            CompileStepView::Compile(text) => event is Begin && text == document(cel),
            CompileStepView::Done(Ok(_)) => event is Compiled,
            CompileStepView::Done(Err(error)) => event is Failed && error
                == AttributeReleaseErrorView::Compile("kind=compile"@),
        },
{
}

/// While the mapping of an expression is sought, the cache and the compiler are asked about this
/// very expression; what is stored is what it was compiled to; and what comes out is what the cache
/// said it holds, or the error that the compiler gave.
pub proof fn law_search_stays_with_the_expression<M>(cel: Seq<char>, event: MappingEventView<M>)
    ensures
        match mapping_step(cel, event) {
            MappingStepView::Lookup(text) => event is Begin && text == cel,
            MappingStepView::Compile(text) => event == MappingEventView::<M>::LookedUp(None) && text
                == cel,
            MappingStepView::Store(text, mapping) => event == MappingEventView::Compiled(
                Ok(mapping),
            ) && text == cel,
            MappingStepView::Done(Ok(mapping)) => event == MappingEventView::LookedUp(Some(mapping))
                || event == MappingEventView::Stored(mapping),
            MappingStepView::Done(Err(error)) => event == MappingEventView::<M>::Compiled(
                Err(error),
            ),
        },
{
}

/// While an expression is evaluated, the mapping of this very expression is sought; the engine gets
/// the mapping that was found, the record as it is, and an empty context; and an error in the
/// search is the outcome. This holds of predicates and claims alike.
pub proof fn law_evaluation_hands_on_its_inputs<M>(
    cel: Seq<char>,
    record: JsonView,
    event: ReleaseEventView<M>,
)
    ensures
        match field_step(cel, record, event) {
            ReleaseStepView::FindMapping(text) => event is Begin && text == cel,
            ReleaseStepView::Evaluate(mapping, input) => event == ReleaseEventView::Mapped(
                Ok(mapping),
            ) && input.source == record && input.context == JsonView::Object(Map::empty()),
            ReleaseStepView::Done(outcome) => event is Evaluated || (outcome is Err && event
                == ReleaseEventView::<M>::Mapped(Err(outcome->Err_0))),
        },
        match predicate_step(cel, record, event) {
            ReleaseStepView::FindMapping(text) => event is Begin && text == cel,
            ReleaseStepView::Evaluate(mapping, input) => event == ReleaseEventView::Mapped(
                Ok(mapping),
            ) && input.source == record && input.context == JsonView::Object(Map::empty()),
            ReleaseStepView::Done(outcome) => event is Evaluated || (outcome is Err && event
                == ReleaseEventView::<M>::Mapped(Err(outcome->Err_0))),
        },
        match scalar_step(cel, record, event) {
            ReleaseStepView::FindMapping(text) => event is Begin && text == cel,
            ReleaseStepView::Evaluate(mapping, input) => event == ReleaseEventView::Mapped(
                Ok(mapping),
            ) && input.source == record && input.context == JsonView::Object(Map::empty()),
            ReleaseStepView::Done(outcome) => event is Evaluated || (outcome is Err && event
                == ReleaseEventView::<M>::Mapped(Err(outcome->Err_0))),
        },
{
}

/// Once the engine has evaluated, the outcome depends on its output alone: a predicate gives a
/// boolean if and only if that boolean is the only field, a claim gives a value if and only if that
/// value is the only field and not null, and where the engine met a problem the outcome of both
/// names the problems.
pub proof fn law_output_settles_the_outcome<M>(
    cel: Seq<char>,
    record: JsonView,
    output: EvaluationOutputView,
    b: bool,
    value: JsonView,
)
    ensures
        ({
            let event = ReleaseEventView::<M>::Evaluated(output);
            &&& predicate_step(cel, record, event) == ReleaseStepView::<M, bool>::Done(Ok(b))
                <==> is_only_field(output, JsonView::Bool(b))
            &&& scalar_step(cel, record, event) == ReleaseStepView::<M, JsonView>::Done(Ok(value))
                <==> is_only_field(output, value) && !(value is Null)
            &&& output.errors.len() > 0 ==> predicate_step(cel, record, event)
                == ReleaseStepView::<M, bool>::Done(
                Err(AttributeReleaseErrorView::Eval(issues_text(output.errors))),
            )
            &&& output.errors.len() > 0 ==> scalar_step(cel, record, event)
                == ReleaseStepView::<M, JsonView>::Done(
                Err(AttributeReleaseErrorView::Eval(issues_text(output.errors))),
            )
            &&& predicate_step(cel, record, event) is Done
            &&& scalar_step(cel, record, event) is Done
        }),
{
}

} // verus!
