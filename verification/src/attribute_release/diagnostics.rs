//! What an error tells of the evaluation that failed: locators and kinds, never values.
use crate::json::{Json, JsonView};
use vstd::prelude::*;

verus! {

/// A problem that the mapping engine reports. Of all that the engine says about it, only the
/// place is kept.
#[derive(Debug)]
pub struct MappingIssue {
    /// Where in the mapping the problem is, if the engine says so.
    pub path: Option<String>,
}

impl View for MappingIssue {
    type V = Option<Seq<char>>;

    open spec fn view(&self) -> Option<Seq<char>> {
        match self.path {
            Some(path) => Some(path@),
            None => None,
        }
    }
}

/// The types that a JSON value can have.
pub enum JsonKind {
    Null,
    Bool,
    Number,
    Text,
    Array,
    Object,
}

/// The type of a value.
pub open spec fn kind_of(value: JsonView) -> JsonKind {
    match value {
        JsonView::Null => JsonKind::Null,
        JsonView::Bool(_) => JsonKind::Bool,
        JsonView::Number(_) => JsonKind::Number,
        JsonView::Text(_) => JsonKind::Text,
        JsonView::Array(_) => JsonKind::Array,
        JsonView::Object(_) => JsonKind::Object,
    }
}

/// The name of a type.
pub open spec fn kind_name(kind: JsonKind) -> Seq<char> {
    match kind {
        JsonKind::Null => "null"@,
        JsonKind::Bool => "bool"@,
        JsonKind::Number => "number"@,
        JsonKind::Text => "string"@,
        JsonKind::Array => "array"@,
        JsonKind::Object => "object"@,
    }
}

/// What is said of one issue: its place, or `$` for the whole mapping.
pub open spec fn issue_text(path: Option<Seq<char>>) -> Seq<char> {
    let place = match path {
        Some(path) => path,
        None => "$"@,
    };
    "path="@ + place + " kind=error"@
}

/// What is said of a list of issues: each in turn, with `; ` between them.
pub open spec fn issues_text(paths: Seq<Option<Seq<char>>>) -> Seq<char>
    decreases paths.len(),
{
    if paths.len() == 0 {
        Seq::empty()
    } else if paths.len() == 1 {
        issue_text(paths[0])
    } else {
        issues_text(paths.drop_last()) + "; "@ + issue_text(paths.last())
    }
}

/// What is said of a predicate whose value is not a boolean.
pub open spec fn predicate_type_text(kind: JsonKind) -> Seq<char> {
    "field=value expected=bool kind="@ + kind_name(kind)
}

/// The places of a list of issues.
pub open spec fn issue_paths(issues: Seq<MappingIssue>) -> Seq<Option<Seq<char>>> {
    issues.map_values(|issue: MappingIssue| issue@)
}

/// Describes the issues by their places.
pub fn issue_diagnostics(issues: &[MappingIssue]) -> (r: String)
    ensures
        r@ == issues_text(issue_paths(issues@)),
{
    let ghost paths = issue_paths(issues@);
    let mut r: String = String::new();
    for i in 0..issues.len()
        invariant
            paths == issue_paths(issues@),
            r@ == issues_text(paths.take(i as int)),
    {
        let ghost before = r@;
        if i > 0 {
            r.append("; ");
        }
        r.append("path=");
        match &issues[i].path {
            Some(path) => r.append(path.as_str()),
            None => r.append("$"),
        }
        r.append(" kind=error");
        proof {
            let next = paths.take(i as int + 1);
            assert(next.drop_last() =~= paths.take(i as int));
            assert(next.last() == issues@[i as int]@);
            if i == 0 {
                assert(before =~= Seq::empty());
                assert(r@ =~= issue_text(next.last()));
            } else {
                assert(r@ =~= before + "; "@ + issue_text(next.last()));
            }
        }
    }
    assert(paths.take(issues.len() as int) =~= paths);
    r
}

/// Describes a predicate's value by its type.
pub fn predicate_type_diagnostic(value: &Json) -> (r: String)
    ensures
        r@ == predicate_type_text(kind_of(value@)),
{
    let kind: &str = match value {
        Json::Null => "null",
        Json::Bool(_) => "bool",
        Json::Number(_) => "number",
        Json::Text(_) => "string",
        Json::Array(_) => "array",
        Json::Object(_) => "object",
    };
    let mut r: String = "field=value expected=bool kind=".to_owned();
    r.append(kind);
    r
}

/// The place of an issue is the path that the engine gave, or none where it gave none.
pub proof fn law_issue_places(issues: Seq<MappingIssue>, i: int)
    requires
        0 <= i < issues.len(),
    ensures
        issue_paths(issues).len() == issues.len(),
        issues[i].path is Some ==> issue_paths(issues)[i] == Some(issues[i].path->0@),
        issues[i].path is None ==> issue_paths(issues)[i] is None,
{
}

/// One issue is described by its place alone, or by `$` where it has none.
pub proof fn law_issue_is_described_by_its_place(path: Seq<char>)
    ensures
        issues_text(seq![Some(path)]) == "path="@ + path + " kind=error"@,
        issues_text(seq![None::<Seq<char>>]) == "path="@ + "$"@ + " kind=error"@,
        issues_text(Seq::empty()) == Seq::<char>::empty(),
{
    assert(seq![Some(path)][0] == Some(path));
    assert(seq![None::<Seq<char>>][0] is None);
}

/// How issues are described does not depend on the issues around them: the description of two
/// lists in a row is that of the first, `; `, and that of the second.
pub proof fn law_issue_descriptions_compose(
    a: Seq<Option<Seq<char>>>,
    b: Seq<Option<Seq<char>>>,
)
    requires
        a.len() > 0,
        b.len() > 0,
    ensures
        issues_text(a + b) == issues_text(a) + "; "@ + issues_text(b),
    decreases b.len(),
{
    assert((a + b).last() == b.last());
    assert((a + b).drop_last() =~= a + b.drop_last());
    if b.len() == 1 {
        assert(a + b.drop_last() =~= a);
        assert(b.last() == b[0]);
    } else {
        law_issue_descriptions_compose(a, b.drop_last());
        assert(issues_text(a + b) =~= issues_text(a) + "; "@ + issues_text(b));
    }
}

/// A predicate's value is described by its JSON type, whatever it holds.
pub proof fn law_predicate_value_is_described_by_its_type(value: JsonView)
    ensures
        predicate_type_text(kind_of(value)) == "field=value expected=bool kind="@ + (match value {
            JsonView::Null => "null"@,
            JsonView::Bool(_) => "bool"@,
            JsonView::Number(_) => "number"@,
            JsonView::Text(_) => "string"@,
            JsonView::Array(_) => "array"@,
            JsonView::Object(_) => "object"@,
        }),
{
}

/// The type of a value is that of its mathematical value, and tells the six types apart.
pub proof fn law_types_are_told_apart(a: JsonView, b: JsonView)
    requires
        kind_of(a) == kind_of(b),
    ensures
        a is Null <==> b is Null,
        a is Bool <==> b is Bool,
        a is Number <==> b is Number,
        a is Text <==> b is Text,
        a is Array <==> b is Array,
        a is Object <==> b is Object,
{
}

} // verus!
