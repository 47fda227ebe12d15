use std::sync::Arc;

use registry_relay::attribute_release::cache::MappingCache;
use registry_relay::attribute_release::diagnostics::MappingIssue;
use registry_relay::attribute_release::evaluation::{
    EvaluationInput, EvaluationOutput, RecordGroup,
};
use registry_relay::attribute_release::release::{
    compile, compiled_mapping, CompileEvent, CompileStep, MappingEvent, MappingStep, ReleaseEvent,
    ReleaseStep,
};
use registry_relay::attribute_release::{
    evaluate_release_predicate, evaluate_release_scalar, validate_release_expression,
    AttributeReleaseError,
};
use registry_relay::json::{Json, JsonNumber, JsonObject};

/// An engine that knows a handful of expressions. A mapping is the expression it was made from.
struct Engine {
    compilations: usize,
}

impl Engine {
    fn new() -> Engine {
        Engine { compilations: 0 }
    }

    fn compile_mapping(&mut self, document: &str) -> Option<String> {
        self.compilations += 1;
        let (_, literal) = document.split_once("      value: ").expect("a field");
        let expression: String = serde_json::from_str(literal.trim_end()).expect("a JSON string");
        if expression.ends_with('+') {
            None
        } else {
            Some(expression)
        }
    }

    fn evaluate(&self, mapping: &str, input: &EvaluationInput) -> EvaluationOutput {
        match mapping {
            "source.deceased == false" => match source_field(input, "deceased") {
                Some(Json::Bool(b)) => one_value(Json::Bool(!b)),
                _ => problem(Some("release.value")),
            },
            "source.given_name + ' ' + source.surname" => {
                match (source_field(input, "given_name"), source_field(input, "surname")) {
                    (Some(Json::Text(a)), Some(Json::Text(b))) => {
                        one_value(Json::Text(format!("{a} {b}")))
                    }
                    _ => problem(Some("release.value")),
                }
            }
            "source.national_id" => match source_field(input, "national_id") {
                Some(value) => one_value(value.clone()),
                None => problem(None),
            },
            "source.surname" => match source_field(input, "surname") {
                Some(value) => one_value(value.clone()),
                None => one_value(Json::Null),
            },
            "null" => one_value(Json::Null),
            _ => problem(None),
        }
    }
}

fn source_field<'a>(input: &'a EvaluationInput, key: &str) -> Option<&'a Json> {
    match &input.source {
        Json::Object(fields) => fields.get(key),
        _ => None,
    }
}

fn object(fields: Vec<(&str, Json)>) -> Json {
    let mut object = JsonObject::new();
    for (key, value) in fields {
        object.insert(key.to_string(), value);
    }
    Json::Object(object)
}

fn text(s: &str) -> Json {
    Json::Text(s.to_string())
}

fn records(records: Vec<Json>) -> EvaluationOutput {
    EvaluationOutput {
        errors: vec![],
        records: vec![RecordGroup { name: "release".to_string(), records }],
    }
}

fn one_value(value: Json) -> EvaluationOutput {
    records(vec![object(vec![("value", value)])])
}

fn problem(path: Option<&str>) -> EvaluationOutput {
    EvaluationOutput {
        errors: vec![MappingIssue { path: path.map(|p| p.to_string()) }],
        records: vec![],
    }
}

fn run_compile(engine: &mut Engine, cel: &str) -> Result<String, AttributeReleaseError> {
    let mut event = CompileEvent::Begin;
    loop {
        match compile(cel, event) {
            CompileStep::Compile(document) => {
                event = match engine.compile_mapping(&document) {
                    Some(mapping) => CompileEvent::Compiled(mapping),
                    None => CompileEvent::Failed,
                };
            }
            CompileStep::Done(outcome) => return outcome,
        }
    }
}

fn run_validate(engine: &mut Engine, cel: &str) -> Result<(), AttributeReleaseError> {
    let mut event = CompileEvent::Begin;
    loop {
        match validate_release_expression(cel, event) {
            CompileStep::Compile(document) => {
                event = match engine.compile_mapping(&document) {
                    Some(mapping) => CompileEvent::Compiled(mapping),
                    None => CompileEvent::Failed,
                };
            }
            CompileStep::Done(outcome) => return outcome,
        }
    }
}

fn run_mapping(
    engine: &mut Engine,
    cache: &mut MappingCache<String>,
    cel: &str,
) -> Result<Arc<String>, AttributeReleaseError> {
    let mut event = MappingEvent::Begin;
    loop {
        match compiled_mapping(cel, event) {
            MappingStep::Lookup(key) => event = MappingEvent::LookedUp(cache.get(&key)),
            MappingStep::Compile(cel) => {
                event = MappingEvent::Compiled(run_compile(engine, &cel));
            }
            MappingStep::Store(key, mapping) => {
                event = MappingEvent::Stored(cache.get_or_insert(&key, mapping));
            }
            MappingStep::Done(outcome) => return outcome,
        }
    }
}

fn run_predicate(cel: &str, record: &Json) -> Result<bool, AttributeReleaseError> {
    let mut engine = Engine::new();
    let mut cache = MappingCache::new();
    let mut event = ReleaseEvent::Begin;
    loop {
        match evaluate_release_predicate(cel, record, event) {
            ReleaseStep::FindMapping(cel) => {
                event = ReleaseEvent::Mapped(run_mapping(&mut engine, &mut cache, &cel));
            }
            ReleaseStep::Evaluate(mapping, input) => {
                event = ReleaseEvent::Evaluated(engine.evaluate(&mapping, &input));
            }
            ReleaseStep::Done(outcome) => return outcome,
        }
    }
}

fn run_scalar(cel: &str, record: &Json) -> Result<Json, AttributeReleaseError> {
    let mut engine = Engine::new();
    let mut cache = MappingCache::new();
    let mut event = ReleaseEvent::Begin;
    loop {
        match evaluate_release_scalar(cel, record, event) {
            ReleaseStep::FindMapping(cel) => {
                event = ReleaseEvent::Mapped(run_mapping(&mut engine, &mut cache, &cel));
            }
            ReleaseStep::Evaluate(mapping, input) => {
                event = ReleaseEvent::Evaluated(engine.evaluate(&mapping, &input));
            }
            ReleaseStep::Done(outcome) => return outcome,
        }
    }
}

fn predicate_for(output: EvaluationOutput) -> Result<bool, AttributeReleaseError> {
    let event: ReleaseEvent<String> = ReleaseEvent::Evaluated(output);
    match evaluate_release_predicate("x", &Json::Null, event) {
        ReleaseStep::Done(outcome) => outcome,
        _ => panic!("an output settles the outcome"),
    }
}

fn scalar_for(output: EvaluationOutput) -> Result<Json, AttributeReleaseError> {
    let event: ReleaseEvent<String> = ReleaseEvent::Evaluated(output);
    match evaluate_release_scalar("x", &Json::Null, event) {
        ReleaseStep::Done(outcome) => outcome,
        _ => panic!("an output settles the outcome"),
    }
}

fn detail<T>(outcome: Result<T, AttributeReleaseError>) -> (&'static str, String) {
    match outcome {
        Ok(_) => panic!("an error was expected"),
        Err(AttributeReleaseError::Compile(s)) => ("compile", s),
        Err(AttributeReleaseError::Eval(s)) => ("eval", s),
        Err(AttributeReleaseError::MissingField(s)) => ("missing", s),
        Err(AttributeReleaseError::TypeMismatch(s)) => ("mismatch", s),
        Err(_) => panic!("an unknown error"),
    }
}

fn named(kind: &'static str, text: &str) -> (&'static str, String) {
    (kind, text.to_string())
}

#[test]
fn predicate_true() {
    let record = object(vec![("deceased", Json::Bool(false))]);
    let allowed = run_predicate("source.deceased == false", &record).expect("predicate evaluates");
    assert!(allowed);
}

#[test]
fn predicate_false() {
    let record = object(vec![("deceased", Json::Bool(true))]);
    let allowed = run_predicate("source.deceased == false", &record).expect("predicate evaluates");
    assert!(!allowed);
}

#[test]
fn scalar_concat() {
    let record = object(vec![("given_name", text("Ada")), ("surname", text("Lovelace"))]);
    let value = run_scalar("source.given_name + ' ' + source.surname", &record)
        .expect("scalar evaluates");
    assert!(value.same(&text("Ada Lovelace")));
}

#[test]
fn invalid_cel_rejected_at_compile() {
    let err = run_validate(&mut Engine::new(), "source.given_name +")
        .expect_err("invalid CEL must be rejected");
    assert!(matches!(err, AttributeReleaseError::Compile(_)));
    // The message carries no text of the expression.
    assert!(!err.to_string().contains("given_name"));
}

#[test]
fn compiled_mapping_is_cached_and_reused() {
    let mut engine = Engine::new();
    let mut cache = MappingCache::new();
    let a = run_mapping(&mut engine, &mut cache, "source.deceased == false").expect("compiles");
    let b = run_mapping(&mut engine, &mut cache, "source.deceased == false").expect("compiles");
    assert!(
        Arc::ptr_eq(&a, &b),
        "identical expressions must share one cached compiled mapping"
    );
    assert_eq!(engine.compilations, 1);
    let c = run_mapping(&mut engine, &mut cache, "source.given_name").expect("compiles");
    assert!(!Arc::ptr_eq(&a, &c), "distinct expressions must not alias");
    assert_eq!(engine.compilations, 2);
}

#[test]
fn missing_field_fails_closed_for_predicate() {
    let record = object(vec![("given_name", text("Ada"))]);
    let result = run_predicate("source.deceased == false", &record);
    assert!(result.is_err(), "missing source field must fail closed, got {result:?}");
}

#[test]
fn missing_field_fails_closed_for_scalar() {
    let record = object(vec![("given_name", text("Ada"))]);
    let result = run_scalar("source.surname", &record);
    assert!(result.is_err(), "missing source field must fail closed, got {result:?}");
}

#[test]
fn diagnostics_are_pii_free() {
    let record = object(vec![
        ("deceased", Json::Bool(true)),
        ("national_id", text("SECRET-451123")),
    ]);
    let result = run_predicate("source.national_id", &record);
    let err = result.expect_err("string is not a boolean predicate");
    assert!(matches!(err, AttributeReleaseError::TypeMismatch(_)));
    assert!(!err.to_string().contains("SECRET-451123"));
    let shown = format!("{err:?}");
    assert!(!shown.contains("SECRET-451123"));
}

#[test]
fn valid_expression_is_accepted() {
    assert!(run_validate(&mut Engine::new(), "source.deceased == false").is_ok());
}

#[test]
fn refused_expressions_fail_alike() {
    let refused = named("compile", "kind=compile");
    assert_eq!(detail(run_compile(&mut Engine::new(), "a +")), refused);
    assert_eq!(detail(run_compile(&mut Engine::new(), "b +")), refused);
    assert_eq!(detail(run_validate(&mut Engine::new(), "a +")), refused);
    assert_eq!(detail(run_predicate("a +", &Json::Null)), refused);
    assert_eq!(detail(run_scalar("a +", &Json::Null)), refused);
}

#[test]
fn refused_expression_is_not_cached() {
    let mut engine = Engine::new();
    let mut cache = MappingCache::new();
    assert!(run_mapping(&mut engine, &mut cache, "a +").is_err());
    assert!(cache.get("a +").is_none());
    assert!(run_mapping(&mut engine, &mut cache, "a +").is_err());
    assert_eq!(engine.compilations, 2);
}

#[test]
fn concurrent_compilations_collapse() {
    // Both searches miss before either stores.
    let mut cache: MappingCache<String> = MappingCache::new();
    let first = match compiled_mapping("e", MappingEvent::Compiled(Ok("one".to_string()))) {
        MappingStep::Store(key, mapping) => cache.get_or_insert(&key, mapping),
        _ => panic!("a compiled mapping is stored"),
    };
    let second = match compiled_mapping("e", MappingEvent::Compiled(Ok("two".to_string()))) {
        MappingStep::Store(key, mapping) => cache.get_or_insert(&key, mapping),
        _ => panic!("a compiled mapping is stored"),
    };
    assert!(Arc::ptr_eq(&first, &second));
    assert_eq!(second.as_str(), "one");
    match compiled_mapping("e", MappingEvent::Stored(second)) {
        MappingStep::Done(Ok(mapping)) => assert!(Arc::ptr_eq(&first, &mapping)),
        _ => panic!("a stored mapping is the outcome"),
    }
}

#[test]
fn engine_sees_record_and_empty_context() {
    let record = object(vec![("deceased", Json::Bool(true))]);
    let event = ReleaseEvent::Mapped(Ok(Arc::new("m".to_string())));
    match evaluate_release_scalar("e", &record, event) {
        ReleaseStep::Evaluate(mapping, input) => {
            assert_eq!(mapping.as_str(), "m");
            assert!(input.source.same(&record));
            assert!(input.context.same(&object(vec![])));
        }
        _ => panic!("a mapping is evaluated"),
    }
}

#[test]
fn reported_problems_are_named_by_their_places() {
    let output = EvaluationOutput {
        errors: vec![
            MappingIssue { path: Some("release.value".to_string()) },
            MappingIssue { path: None },
            MappingIssue { path: Some("x".to_string()) },
        ],
        records: vec![RecordGroup {
            name: "release".to_string(),
            records: vec![object(vec![("value", Json::Bool(true))])],
        }],
    };
    assert_eq!(
        detail(predicate_for(output)),
        named("eval", "path=release.value kind=error; path=$ kind=error; path=x kind=error")
    );
    assert_eq!(detail(scalar_for(problem(None))), named("eval", "path=$ kind=error"));
}

#[test]
fn unusable_outputs_fail_closed() {
    let none = EvaluationOutput { errors: vec![], records: vec![] };
    assert_eq!(detail(predicate_for(none)), named("missing", "field=value kind=no_record"));
    assert_eq!(
        detail(predicate_for(records(vec![]))),
        named("missing", "field=value kind=no_record")
    );
    let both = records(vec![
        object(vec![("value", Json::Bool(true))]),
        object(vec![("value", Json::Bool(true))]),
    ]);
    assert_eq!(detail(predicate_for(both)), named("eval", "kind=multiple_records"));
    let spread = EvaluationOutput {
        errors: vec![],
        records: vec![
            RecordGroup { name: "a".to_string(), records: vec![Json::Null] },
            RecordGroup { name: "b".to_string(), records: vec![] },
            RecordGroup { name: "c".to_string(), records: vec![Json::Null] },
        ],
    };
    assert_eq!(detail(scalar_for(spread)), named("eval", "kind=multiple_records"));
    assert_eq!(
        detail(predicate_for(records(vec![object(vec![("other", Json::Bool(true))])]))),
        named("missing", "field=value kind=absent")
    );
    assert_eq!(
        detail(predicate_for(records(vec![Json::Bool(true)]))),
        named("mismatch", "field=value kind=non_object_record")
    );
    assert_eq!(
        detail(scalar_for(one_value(Json::Null))),
        named("missing", "field=value kind=null")
    );
    assert_eq!(detail(run_scalar("null", &Json::Null)), named("missing", "field=value kind=null"));
}

#[test]
fn only_record_is_found_in_any_group() {
    let output = EvaluationOutput {
        errors: vec![],
        records: vec![
            RecordGroup { name: "a".to_string(), records: vec![] },
            RecordGroup {
                name: "b".to_string(),
                records: vec![object(vec![
                    ("first", Json::Null),
                    ("value", Json::Bool(true)),
                    ("last", Json::Null),
                ])],
            },
            RecordGroup { name: "c".to_string(), records: vec![] },
        ],
    };
    assert!(predicate_for(output).expect("a boolean"));
}

#[test]
fn predicate_names_the_type_of_its_value() {
    let cases = vec![
        (Json::Null, "null"),
        (Json::Number(JsonNumber::PosInt(1)), "number"),
        (text("true"), "string"),
        (Json::Array(vec![Json::Bool(true)]), "array"),
        (object(vec![]), "object"),
    ];
    for (value, kind) in cases {
        assert_eq!(
            detail(predicate_for(one_value(value))),
            ("mismatch", format!("field=value expected=bool kind={kind}"))
        );
    }
}

#[test]
fn scalar_is_handed_out_as_it_is() {
    let value = Json::Array(vec![Json::Bool(false), Json::Number(JsonNumber::NegInt(-1))]);
    let out = scalar_for(one_value(value.clone())).expect("a claim");
    assert!(out.same(&value));
}

#[test]
fn errors_of_one_shape_are_the_same() {
    assert_eq!(
        detail(predicate_for(one_value(text("Ada")))),
        detail(predicate_for(one_value(text("Grace"))))
    );
}

#[test]
fn messages_tell_the_kind_only() {
    let with = |s: &str| s.to_string();
    assert_eq!(
        AttributeReleaseError::Compile(with("a")).to_string(),
        "attribute-release expression failed to compile"
    );
    assert_eq!(
        AttributeReleaseError::Eval(with("b")).to_string(),
        "attribute-release expression evaluation failed"
    );
    assert_eq!(
        AttributeReleaseError::MissingField(with("c")).to_string(),
        "attribute-release expression produced no value"
    );
    assert_eq!(
        AttributeReleaseError::TypeMismatch(with("d")).to_string(),
        "attribute-release expression produced a value of the wrong type"
    );
}
