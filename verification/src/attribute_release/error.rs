//! How an attribute-release evaluation can fail.
use vstd::prelude::*;

verus! {

/// Why an expression was refused or gave no usable value.
///
/// The text that a variant carries holds structural locators only: no value of a subject and no
/// text of an expression.
#[derive(Debug)]
#[non_exhaustive]
pub enum AttributeReleaseError {
    /// The expression does not compile.
    Compile(String),
    /// The evaluation failed, or its result is ambiguous.
    Eval(String),
    /// The evaluation gave no value.
    MissingField(String),
    /// The evaluation gave a value of the wrong type.
    TypeMismatch(String),
}

/// The mathematical value of an [`AttributeReleaseError`].
pub enum AttributeReleaseErrorView {
    Compile(Seq<char>),
    Eval(Seq<char>),
    MissingField(Seq<char>),
    TypeMismatch(Seq<char>),
}

impl View for AttributeReleaseError {
    type V = AttributeReleaseErrorView;

    open spec fn view(&self) -> AttributeReleaseErrorView {
        match self {
            AttributeReleaseError::Compile(detail) => AttributeReleaseErrorView::Compile(detail@),
            AttributeReleaseError::Eval(detail) => AttributeReleaseErrorView::Eval(detail@),
            AttributeReleaseError::MissingField(detail) => AttributeReleaseErrorView::MissingField(
                detail@,
            ),
            AttributeReleaseError::TypeMismatch(detail) => AttributeReleaseErrorView::TypeMismatch(
                detail@,
            ),
        }
    }
}

/// The message that stands for an error where operators and clients read it.
pub open spec fn error_message(error: AttributeReleaseErrorView) -> Seq<char> {
    match error {
        AttributeReleaseErrorView::Compile(_) => "attribute-release expression failed to compile"@,
        AttributeReleaseErrorView::Eval(_) => "attribute-release expression evaluation failed"@,
        AttributeReleaseErrorView::MissingField(_) =>
            "attribute-release expression produced no value"@,
        AttributeReleaseErrorView::TypeMismatch(_) =>
            "attribute-release expression produced a value of the wrong type"@,
    }
}

impl AttributeReleaseError {
    /// The message of the error.
    pub fn to_string(&self) -> (r: String)
        ensures
            r@ == error_message(self@),
    {
        match self {
            AttributeReleaseError::Compile(_) => "attribute-release expression failed to compile".to_owned(),
            AttributeReleaseError::Eval(_) => "attribute-release expression evaluation failed".to_owned(),
            AttributeReleaseError::MissingField(_) => "attribute-release expression produced no value".to_owned(),
            AttributeReleaseError::TypeMismatch(_) => "attribute-release expression produced a value of the wrong type".to_owned(),
        }
    }
}

/// The message of an error tells which kind of error it is and nothing of the detail it carries:
/// the messages of two errors of one kind are the same.
pub proof fn law_message_hides_detail(a: AttributeReleaseErrorView, b: AttributeReleaseErrorView)
    requires
        a is Compile <==> b is Compile,
        a is Eval <==> b is Eval,
        a is MissingField <==> b is MissingField,
    ensures
        error_message(a) == error_message(b),
{
}

/// An error's mathematical value is of the same kind and carries the same text.
pub proof fn law_error_view_is_faithful(error: AttributeReleaseError)
    ensures
        error is Compile <==> error@ is Compile,
        error is Eval <==> error@ is Eval,
        error is MissingField <==> error@ is MissingField,
        error is TypeMismatch <==> error@ is TypeMismatch,
        error is Compile ==> error@->Compile_0 == error->Compile_0@,
        error is Eval ==> error@->Eval_0 == error->Eval_0@,
        error is MissingField ==> error@->MissingField_0 == error->MissingField_0@,
        error is TypeMismatch ==> error@->TypeMismatch_0 == error->TypeMismatch_0@,
{
}

/// The messages of errors of different kinds differ.
pub proof fn law_messages_tell_kinds_apart(
    a: AttributeReleaseErrorView,
    b: AttributeReleaseErrorView,
)
    requires
        error_message(a) == error_message(b),
    ensures
        a is Compile <==> b is Compile,
        a is Eval <==> b is Eval,
        a is MissingField <==> b is MissingField,
        a is TypeMismatch <==> b is TypeMismatch,
{
    reveal_strlit("attribute-release expression failed to compile");
    reveal_strlit("attribute-release expression evaluation failed");
    reveal_strlit("attribute-release expression produced no value");
    reveal_strlit("attribute-release expression produced a value of the wrong type");
    assert("attribute-release expression failed to compile"@[29] == 'f');
    assert("attribute-release expression evaluation failed"@[29] == 'e');
    assert("attribute-release expression produced no value"@[29] == 'p');
    assert("attribute-release expression produced no value"@[38] == 'n');
    assert("attribute-release expression produced a value of the wrong type"@[29] == 'p');
    assert("attribute-release expression produced a value of the wrong type"@[38] == 'a');
}

} // verus!
