//! The mapping document that carries one expression to the mapping engine.
use vstd::prelude::*;

verus! {

/// The name of the only record of the document.
pub const RECORD_NAME: &'static str = "release";

/// The name of the only field of the record.
pub const FIELD_NAME: &'static str = "value";

/// The lower-case hexadecimal digit of `n`, for `n` below sixteen.
pub open spec fn hex_digit(n: int) -> char {
    if n < 10 {
        ('0' as int + n) as char
    } else {
        ('a' as int + n - 10) as char
    }
}

/// What stands for `c` inside a JSON string: a quote, a backslash and the control characters are
/// escaped, every other character stands for itself.
pub open spec fn escaped_char(c: char) -> Seq<char> {
    if c == '"' || c == '\\' {
        seq!['\\', c]
    } else if c == '\u{8}' {
        seq!['\\', 'b']
    } else if c == '\t' {
        seq!['\\', 't']
    } else if c == '\n' {
        seq!['\\', 'n']
    } else if c == '\u{c}' {
        seq!['\\', 'f']
    } else if c == '\r' {
        seq!['\\', 'r']
    } else if (c as int) < 0x20 {
        seq!['\\', 'u', '0', '0', hex_digit(c as int / 16), hex_digit(c as int % 16)]
    } else {
        seq![c]
    }
}

/// What stands for `text` between the quotes of a JSON string.
pub open spec fn escaped_text(text: Seq<char>) -> Seq<char>
    decreases text.len(),
{
    if text.len() == 0 {
        Seq::empty()
    } else {
        escaped_char(text.first()) + escaped_text(text.drop_first())
    }
}

/// The JSON string that stands for `text`.
pub open spec fn string_literal(text: Seq<char>) -> Seq<char> {
    seq!['"'] + escaped_text(text) + seq!['"']
}

/// What the document holds ahead of the expression: its identity, the record, the guard that
/// always emits the record, and the name of the field.
pub open spec fn document_head() -> Seq<char> {
    "version: \"0.1\"\n"@ + "name: registry_relay_attribute_release\n"@
        + "source_system: registry-relay.attribute_release\n"@
        + "target_model: registry-relay.attribute_release\n"@ + "records:\n"@ + "  "@ + RECORD_NAME@
        + ":\n"@ + "    emit: \"true\"\n"@ + "    fields:\n"@ + "      "@ + FIELD_NAME@ + ": "@
}

/// The document for the expression `cel`.
pub open spec fn document(cel: Seq<char>) -> Seq<char> {
    document_head() + string_literal(cel) + "\n"@
}

/// Renders `text` as a JSON string with `serde_json::Value`'s `Display`, through `to_string`.
///
/// What is claimed of it: the text stands between two quotes; a quote and a backslash get a
/// backslash ahead of them, the control characters below U+0020 become `\b`, `\t`, `\n`, `\f`,
/// `\r` or `\u00` and two lower-case hexadecimal digits, and every other character is left as it
/// is.
#[verifier::external_body]
fn json_string_literal(text: &str) -> (r: String)
    ensures
        r@ == string_literal(text@),
{
    serde_json::Value::String(text.to_string()).to_string()
}

/// Builds the document that carries `cel` as the expression of its only field.
pub fn synthesize_document(cel: &str) -> (r: String)
    ensures
        r@ == document(cel@),
{
    let expr: String = json_string_literal(cel);
    let mut doc: String = String::new();
    doc.append("version: \"0.1\"\n");
    doc.append("name: registry_relay_attribute_release\n");
    doc.append("source_system: registry-relay.attribute_release\n");
    doc.append("target_model: registry-relay.attribute_release\n");
    doc.append("records:\n");
    doc.append("  ");
    doc.append(RECORD_NAME);
    doc.append(":\n");
    doc.append("    emit: \"true\"\n");
    doc.append("    fields:\n");
    doc.append("      ");
    doc.append(FIELD_NAME);
    doc.append(": ");
    assert(doc@ =~= document_head());
    doc.append(expr.as_str());
    doc.append("\n");
    doc
}

/// Where a double-quoted scalar that is read from position `from` of `text` ends: at the first
/// quote that no backslash escapes, or at the end of the text where there is none.
pub open spec fn scalar_end(text: Seq<char>, from: int) -> int
    decreases text.len() + 1 - from,
{
    if from < 0 || from >= text.len() {
        text.len() as int
    } else if text[from] == '"' {
        from
    } else if text[from] == '\\' {
        scalar_end(text, from + 2)
    } else {
        scalar_end(text, from + 1)
    }
}

/// The number that a hexadecimal digit stands for.
pub open spec fn hex_value(c: char) -> int {
    if '0' <= c <= '9' {
        c as int - '0' as int
    } else if 'a' <= c <= 'f' {
        c as int - 'a' as int + 10
    } else {
        c as int - 'A' as int + 10
    }
}

/// The character that a backslash and `c` stand for.
pub open spec fn escape_meaning(c: char) -> char {
    if c == 'b' {
        '\u{8}'
    } else if c == 't' {
        '\t'
    } else if c == 'n' {
        '\n'
    } else if c == 'f' {
        '\u{c}'
    } else if c == 'r' {
        '\r'
    } else {
        c
    }
}

/// What a reader makes of a double-quoted scalar that it reads from position `from` of `text`.
pub open spec fn scalar_meaning(text: Seq<char>, from: int) -> Seq<char>
    decreases text.len() + 1 - from,
{
    if from < 0 || from >= text.len() || text[from] == '"' {
        Seq::empty()
    } else if text[from] == '\\' && from + 5 < text.len() && text[from + 1] == 'u' {
        let code = hex_value(text[from + 2]) * 4096 + hex_value(text[from + 3]) * 256 + hex_value(
            text[from + 4],
        ) * 16 + hex_value(text[from + 5]);
        seq![code as char] + scalar_meaning(text, from + 6)
    } else if text[from] == '\\' && from + 1 < text.len() {
        seq![escape_meaning(text[from + 1])] + scalar_meaning(text, from + 2)
    } else {
        seq![text[from]] + scalar_meaning(text, from + 1)
    }
}

/// The escape of a character holds no control character. A plain character is no quote and no
/// backslash; an escape is a backslash, one character, and no further quote or backslash.
proof fn lemma_escaped_char(c: char)
    ensures
        escaped_char(c).len() == 1 || escaped_char(c).len() == 2 || escaped_char(c).len() == 6,
        forall|i: int| 0 <= i < escaped_char(c).len() ==> #[trigger] escaped_char(c)[i] as int >= 0x20,
        escaped_char(c).len() == 1 ==> escaped_char(c)[0] != '"' && escaped_char(c)[0] != '\\',
        escaped_char(c).len() > 1 ==> escaped_char(c)[0] == '\\',
        forall|i: int|
            2 <= i < escaped_char(c).len() ==> #[trigger] escaped_char(c)[i] != '"'
                && escaped_char(c)[i] != '\\',
        escaped_char(c).len() == 6 ==> (c as int) < 0x20,
{
    let e = escaped_char(c);
    if e.len() == 6 {
        let high: int = c as int / 16;
        let low: int = c as int % 16;
        assert(0 <= high < 2 && 0 <= low < 16);
        assert(e[4] == hex_digit(high) && e[5] == hex_digit(low));
        assert(hex_digit(high) as int == 0x30 + high);
        assert(hex_digit(low) as int == if low < 10 { 0x30 + low } else { 0x61 + low - 10 });
        assert forall|i: int| 0 <= i < e.len() implies #[trigger] e[i] as int >= 0x20 && (i >= 2
            ==> e[i] != '"' && e[i] != '\\') by {
            assert(i == 0 || i == 1 || i == 2 || i == 3 || i == 4 || i == 5);
        }
    } else if e.len() == 2 {
        assert forall|i: int| 0 <= i < e.len() implies #[trigger] e[i] as int >= 0x20 by {
            assert(i == 0 || i == 1);
        }
    }
}

proof fn lemma_escaped_text_is_printable(text: Seq<char>)
    ensures
        forall|i: int|
            0 <= i < escaped_text(text).len() ==> #[trigger] escaped_text(text)[i] as int >= 0x20,
    decreases text.len(),
{
    if text.len() > 0 {
        lemma_escaped_text_is_printable(text.drop_first());
        let head = escaped_char(text.first());
        let rest = escaped_text(text.drop_first());
        lemma_escaped_char(text.first());
        assert forall|i: int| 0 <= i < escaped_text(text).len() implies #[trigger] escaped_text(
            text,
        )[i] as int >= 0x20 by {
            if i < head.len() {
                assert(escaped_text(text)[i] == head[i]);
            } else {
                assert(escaped_text(text)[i] == rest[i - head.len()]);
            }
        }
    }
}

/// A scalar that starts with an escaped text ends where the text does and a quote follows.
proof fn lemma_scalar_end(whole: Seq<char>, from: int, text: Seq<char>)
    requires
        0 <= from,
        from + escaped_text(text).len() < whole.len(),
        whole.subrange(from, from + escaped_text(text).len()) == escaped_text(text),
        whole[from + escaped_text(text).len()] == '"',
    ensures
        scalar_end(whole, from) == from + escaped_text(text).len(),
    decreases text.len(),
{
    if text.len() > 0 {
        let head = escaped_char(text.first());
        let rest = escaped_text(text.drop_first());
        let all = escaped_text(text);
        assert forall|i: int| 0 <= i < head.len() implies whole[from + i] == head[i] by {
            assert(whole.subrange(from, from + all.len())[i] == all[i]);
        }
        assert(whole.subrange(from + head.len(), from + head.len() + rest.len()) =~= rest) by {
            assert forall|i: int| 0 <= i < rest.len() implies whole[from + head.len() + i]
                == rest[i] by {
                assert(whole.subrange(from, from + all.len())[head.len() + i] == all[head.len() + i]);
            }
        }
        lemma_scalar_end(whole, from + head.len(), text.drop_first());
        lemma_escaped_char(text.first());
        assert(whole[from + 0] == head[0]);
        if head.len() == 6 {
            assert(whole[from + 2] == head[2]);
            assert(whole[from + 3] == head[3]);
            assert(whole[from + 4] == head[4]);
            assert(whole[from + 5] == head[5]);
            assert(scalar_end(whole, from) == scalar_end(whole, from + 2));
            assert(scalar_end(whole, from + 2) == scalar_end(whole, from + 3));
            assert(scalar_end(whole, from + 3) == scalar_end(whole, from + 4));
            assert(scalar_end(whole, from + 4) == scalar_end(whole, from + 5));
            assert(scalar_end(whole, from + 5) == scalar_end(whole, from + 6));
        }
    }
}

/// The two digits of a control character give its code back.
proof fn lemma_hex_digits(c: char)
    requires
        (c as int) < 0x20,
    ensures
        hex_value(hex_digit(c as int / 16)) * 16 + hex_value(hex_digit(c as int % 16)) == c as int,
        is_hex_digit(hex_digit(c as int / 16)),
        is_hex_digit(hex_digit(c as int % 16)),
{
    let high: int = c as int / 16;
    let low: int = c as int % 16;
    assert(0 <= high < 2 && 0 <= low < 16);
    assert(hex_digit(high) as int == 0x30 + high);
    assert(hex_digit(low) as int == if low < 10 { 0x30 + low } else { 0x61 + low - 10 });
}

/// A scalar that starts with an escaped text, and whose closing quote follows, means the text.
proof fn lemma_scalar_meaning(whole: Seq<char>, from: int, text: Seq<char>)
    requires
        0 <= from,
        from + escaped_text(text).len() < whole.len(),
        whole.subrange(from, from + escaped_text(text).len()) == escaped_text(text),
        whole[from + escaped_text(text).len()] == '"',
    ensures
        scalar_meaning(whole, from) == text,
    decreases text.len(),
{
    if text.len() > 0 {
        let c = text.first();
        let head = escaped_char(c);
        let rest = escaped_text(text.drop_first());
        let all = escaped_text(text);
        lemma_escaped_char(c);
        assert forall|i: int| 0 <= i < head.len() implies whole[from + i] == head[i] by {
            assert(whole.subrange(from, from + all.len())[i] == all[i]);
        }
        assert(whole.subrange(from + head.len(), from + head.len() + rest.len()) =~= rest) by {
            assert forall|i: int| 0 <= i < rest.len() implies whole[from + head.len() + i]
                == rest[i] by {
                assert(whole.subrange(from, from + all.len())[head.len() + i] == all[head.len()
                    + i]);
            }
        }
        lemma_scalar_meaning(whole, from + head.len(), text.drop_first());
        assert(whole[from + 0] == head[0]);
        if head.len() > 1 {
            assert(whole[from + 1] == head[1]);
        }
        if head.len() == 6 {
            assert(whole[from + 2] == head[2]);
            assert(whole[from + 3] == head[3]);
            assert(whole[from + 4] == head[4]);
            assert(whole[from + 5] == head[5]);
            lemma_hex_digits(c);
        }
        assert(scalar_meaning(whole, from) =~= seq![c] + scalar_meaning(whole, from + head.len()));
        assert(text =~= seq![c] + text.drop_first());
    } else {
        assert(text =~= Seq::empty());
    }
}

/// The expression is carried verbatim: a reader of the document's only scalar reads exactly the
/// expression.
pub proof fn law_document_carries_the_expression(cel: Seq<char>)
    ensures
        scalar_meaning(document(cel), document_head().len() as int + 1) == cel,
{
    let start: int = document_head().len() as int + 1;
    let body = escaped_text(cel);
    assert(document(cel).subrange(start, start + body.len()) =~= body);
    assert(document(cel)[start + body.len()] == '"');
    lemma_scalar_meaning(document(cel), start, cel);
}

/// No expression can break out of its place in the document.
///
/// Whatever the expression is, the document starts with the same head and ends with one line
/// feed; between them stands one double-quoted scalar on one line, without control characters,
/// that is closed by its last character and by no earlier one.
pub proof fn law_expression_stays_in_its_scalar(cel: Seq<char>)
    ensures
        document_head().is_prefix_of(document(cel)),
        document(cel).len() >= document_head().len() + 3,
        document(cel)[document_head().len() as int] == '"',
        scalar_end(document(cel), document_head().len() as int + 1) == document(cel).len() - 2,
        document(cel).last() == '\n',
        forall|i: int|
            document_head().len() <= i < document(cel).len() - 1 ==> #[trigger] document(cel)[i]
                as int >= 0x20,
{
    let head = document_head();
    let doc = document(cel);
    let body = escaped_text(cel);
    let start: int = head.len() as int + 1;
    reveal_strlit("\n");
    assert(doc.take(head.len() as int) =~= head);
    assert(doc.subrange(start, start + body.len()) =~= body);
    assert(doc[start + body.len()] == '"');
    lemma_scalar_end(doc, start, cel);
    lemma_escaped_text_is_printable(cel);
    assert forall|i: int| head.len() <= i < doc.len() - 1 implies #[trigger] doc[i] as int
        >= 0x20 by {
        if head.len() < i < doc.len() - 2 {
            assert(doc[i] == body[i - start]);
        }
    }
}

/// Two expressions have the same document only if they are the same expression.
pub proof fn law_documents_tell_expressions_apart(a: Seq<char>, b: Seq<char>)
    requires
        document(a) == document(b),
    ensures
        a == b,
{
    law_document_carries_the_expression(a);
    law_document_carries_the_expression(b);
}

proof fn lemma_escaped_text_concat(a: Seq<char>, b: Seq<char>)
    ensures
        escaped_text(a + b) == escaped_text(a) + escaped_text(b),
    decreases a.len(),
{
    if a.len() == 0 {
        assert(a + b =~= b);
        assert(escaped_text(a) + escaped_text(b) =~= escaped_text(b));
    } else {
        lemma_escaped_text_concat(a.drop_first(), b);
        assert((a + b).first() == a.first());
        assert((a + b).drop_first() =~= a.drop_first() + b);
        assert(escaped_text(a + b) =~= escaped_text(a) + escaped_text(b));
    }
}

proof fn lemma_document_of_char(c: char)
    ensures
        document(seq![c]) == document_head() + seq!['"'] + escaped_char(c) + seq!['"', '\n'],
{
    reveal_strlit("\n");
    assert(seq![c].drop_first() =~= Seq::<char>::empty());
    assert(escaped_text(seq![c].drop_first()) =~= Seq::<char>::empty());
    assert(seq![c].first() == c);
    assert(escaped_text(seq![c]) =~= escaped_char(c));
    assert(document(seq![c]) =~= document_head() + seq!['"'] + escaped_char(c) + seq!['"', '\n']);
}

/// The document puts the expression under the field that is read back: nothing but the field's
/// name, a colon and spaces stands ahead of it on its line.
pub proof fn law_expression_stands_under_the_field_that_is_read()
    ensures
        exists|above: Seq<char>|
            document_head() == (#[trigger] (above + "    fields:\n"@)) + "      "@ + FIELD_NAME@
                + ": "@,
{
    let above = "version: \"0.1\"\n"@ + "name: registry_relay_attribute_release\n"@
        + "source_system: registry-relay.attribute_release\n"@
        + "target_model: registry-relay.attribute_release\n"@ + "records:\n"@ + "  "@ + RECORD_NAME@
        + ":\n"@ + "    emit: \"true\"\n"@;
    assert(document_head() =~= (above + "    fields:\n"@) + "      "@ + FIELD_NAME@ + ": "@);
}

/// The empty expression is carried as an empty scalar.
pub proof fn law_document_of_nothing()
    ensures
        document(Seq::empty()) == document_head() + seq!['"', '"', '\n'],
{
    reveal_strlit("\n");
    assert(document(Seq::empty()) =~= document_head() + seq!['"', '"', '\n']);
}

/// How a part of an expression is carried does not depend on what stands around it: the document
/// of two expressions in a row is the document of the first, up to its closing quote, followed by
/// what the document of the second holds past its opening quote.
pub proof fn law_documents_compose(a: Seq<char>, b: Seq<char>)
    ensures
        document(a + b) == document(a).take(document(a).len() - 2) + document(b).skip(
            document_head().len() as int + 1,
        ),
{
    reveal_strlit("\n");
    lemma_escaped_text_concat(a, b);
    assert(document(a + b) =~= document(a).take(document(a).len() - 2) + document(b).skip(
        document_head().len() as int + 1,
    ));
}

/// A character other than a quote, a backslash and a control character stands for itself.
pub proof fn law_plain_characters_stand_unescaped(c: char)
    requires
        c != '"',
        c != '\\',
        c as int >= 0x20,
    ensures
        document(seq![c]) == document_head() + seq!['"', c, '"', '\n'],
{
    lemma_document_of_char(c);
    assert(document(seq![c]) =~= document_head() + seq!['"', c, '"', '\n']);
}

/// An expression without quotes, backslashes and control characters stands between the quotes as
/// it is.
pub proof fn law_plain_expressions_stand_unescaped(cel: Seq<char>)
    requires
        forall|i: int|
            0 <= i < cel.len() ==> (#[trigger] cel[i]) != '"' && cel[i] != '\\' && cel[i] as int
                >= 0x20,
    ensures
        document(cel) == document_head() + seq!['"'] + cel + seq!['"', '\n'],
{
    reveal_strlit("\n");
    lemma_plain_text(cel);
    assert(document(cel) =~= document_head() + seq!['"'] + cel + seq!['"', '\n']);
}

proof fn lemma_plain_text(text: Seq<char>)
    requires
        forall|i: int|
            0 <= i < text.len() ==> (#[trigger] text[i]) != '"' && text[i] != '\\' && text[i] as int
                >= 0x20,
    ensures
        escaped_text(text) == text,
    decreases text.len(),
{
    if text.len() > 0 {
        assert(text.first() == text[0]);
        assert forall|i: int| 0 <= i < text.drop_first().len() implies (#[trigger] text.drop_first()[i])
            != '"' && text.drop_first()[i] != '\\' && text.drop_first()[i] as int >= 0x20 by {
            assert(text.drop_first()[i] == text[i + 1]);
        }
        lemma_plain_text(text.drop_first());
        assert(escaped_text(text) =~= text);
    } else {
        assert(escaped_text(text) =~= text);
    }
}

/// A quote, a backslash and the control characters with a short escape are carried by it.
pub proof fn law_short_escapes()
    ensures
        document(seq!['"']) == document_head() + seq!['"', '\\', '"', '"', '\n'],
        document(seq!['\\']) == document_head() + seq!['"', '\\', '\\', '"', '\n'],
        document(seq!['\u{8}']) == document_head() + seq!['"', '\\', 'b', '"', '\n'],
        document(seq!['\t']) == document_head() + seq!['"', '\\', 't', '"', '\n'],
        document(seq!['\n']) == document_head() + seq!['"', '\\', 'n', '"', '\n'],
        document(seq!['\u{c}']) == document_head() + seq!['"', '\\', 'f', '"', '\n'],
        document(seq!['\r']) == document_head() + seq!['"', '\\', 'r', '"', '\n'],
{
    lemma_document_of_char('"');
    lemma_document_of_char('\\');
    lemma_document_of_char('\u{8}');
    lemma_document_of_char('\t');
    lemma_document_of_char('\n');
    lemma_document_of_char('\u{c}');
    lemma_document_of_char('\r');
    assert(document(seq!['"']) =~= document_head() + seq!['"', '\\', '"', '"', '\n']);
    assert(document(seq!['\\']) =~= document_head() + seq!['"', '\\', '\\', '"', '\n']);
    assert(document(seq!['\u{8}']) =~= document_head() + seq!['"', '\\', 'b', '"', '\n']);
    assert(document(seq!['\t']) =~= document_head() + seq!['"', '\\', 't', '"', '\n']);
    assert(document(seq!['\n']) =~= document_head() + seq!['"', '\\', 'n', '"', '\n']);
    assert(document(seq!['\u{c}']) =~= document_head() + seq!['"', '\\', 'f', '"', '\n']);
    assert(document(seq!['\r']) =~= document_head() + seq!['"', '\\', 'r', '"', '\n']);
}

/// Every other control character is carried as `\u00` and its two hexadecimal digits.
pub proof fn law_control_characters_are_numbered(c: char)
    requires
        (c as int) < 0x20,
        c != '\u{8}',
        c != '\t',
        c != '\n',
        c != '\u{c}',
        c != '\r',
    ensures
        exists|high: char, low: char|
            {
                &&& high == '0' || high == '1'
                &&& '0' <= low <= '9' || 'a' <= low <= 'f'
                &&& (if high == '1' {
                    16int
                } else {
                    0int
                }) + (if low <= '9' {
                    low as int - '0' as int
                } else {
                    low as int - 'a' as int + 10
                }) == c as int
                &&& document(seq![c]) == document_head() + #[trigger] seq![
                    '"',
                    '\\',
                    'u',
                    '0',
                    '0',
                    high,
                    low,
                    '"',
                    '\n',
                ]
            },
{
    lemma_document_of_char(c);
    let high = hex_digit(c as int / 16);
    let low = hex_digit(c as int % 16);
    assert(0 <= c as int / 16 < 2 && 0 <= c as int % 16 < 16);
    assert(high as int == 0x30 + c as int / 16);
    assert(low as int == if (c as int % 16) < 10 {
        0x30 + c as int % 16
    } else {
        0x61 + c as int % 16 - 10
    });
    assert(document(seq![c]) =~= document_head() + seq![
        '"',
        '\\',
        'u',
        '0',
        '0',
        high,
        low,
        '"',
        '\n',
    ]);
}

/// Whether `c` is a hexadecimal digit.
pub open spec fn is_hex_digit(c: char) -> bool {
    '0' <= c <= '9' || 'a' <= c <= 'f' || 'A' <= c <= 'F'
}

/// The character that JSON's escape of a backslash and `c` stands for, if it is one.
pub open spec fn json_escape(c: char) -> Option<char> {
    if c == '"' || c == '\\' || c == '/' {
        Some(c)
    } else if c == 'b' || c == 'f' || c == 'n' || c == 'r' || c == 't' {
        Some(escape_meaning(c))
    } else {
        None
    }
}

/// What a strict reader of JSON makes of a string that it reads from position `from` of `text`, up
/// to its closing quote. It refuses a string without a closing quote, a control character, and a
/// backslash that starts no escape of JSON. A numbered escape it takes for one character, and
/// refuses one half of a surrogate pair.
pub open spec fn json_string_meaning(text: Seq<char>, from: int) -> Option<Seq<char>>
    decreases text.len() + 1 - from,
{
    if from < 0 || from >= text.len() {
        None
    } else if text[from] == '"' {
        Some(Seq::empty())
    } else if (text[from] as int) < 0x20 {
        None
    } else if text[from] != '\\' {
        match json_string_meaning(text, from + 1) {
            Some(rest) => Some(seq![text[from]] + rest),
            None => None,
        }
    } else if from + 1 >= text.len() {
        None
    } else if text[from + 1] != 'u' {
        match (json_escape(text[from + 1]), json_string_meaning(text, from + 2)) {
            (Some(c), Some(rest)) => Some(seq![c] + rest),
            _ => None,
        }
    } else if from + 5 >= text.len() || !is_hex_digit(text[from + 2]) || !is_hex_digit(
        text[from + 3],
    ) || !is_hex_digit(text[from + 4]) || !is_hex_digit(text[from + 5]) {
        None
    } else {
        let code = hex_value(text[from + 2]) * 4096 + hex_value(text[from + 3]) * 256 + hex_value(
            text[from + 4],
        ) * 16 + hex_value(text[from + 5]);
        if 0xd800 <= code < 0xe000 {
            None
        } else {
            match json_string_meaning(text, from + 6) {
                Some(rest) => Some(seq![code as char] + rest),
                None => None,
            }
        }
    }
}

proof fn lemma_json_string_meaning(whole: Seq<char>, from: int, text: Seq<char>)
    requires
        0 <= from,
        from + escaped_text(text).len() < whole.len(),
        whole.subrange(from, from + escaped_text(text).len()) == escaped_text(text),
        whole[from + escaped_text(text).len()] == '"',
    ensures
        json_string_meaning(whole, from) == Some(text),
    decreases text.len(),
{
    if text.len() > 0 {
        let c = text.first();
        let head = escaped_char(c);
        let rest = escaped_text(text.drop_first());
        let all = escaped_text(text);
        lemma_escaped_char(c);
        assert forall|i: int| 0 <= i < head.len() implies whole[from + i] == head[i] by {
            assert(whole.subrange(from, from + all.len())[i] == all[i]);
        }
        assert(whole.subrange(from + head.len(), from + head.len() + rest.len()) =~= rest) by {
            assert forall|i: int| 0 <= i < rest.len() implies whole[from + head.len() + i]
                == rest[i] by {
                assert(whole.subrange(from, from + all.len())[head.len() + i] == all[head.len()
                    + i]);
            }
        }
        lemma_json_string_meaning(whole, from + head.len(), text.drop_first());
        assert(whole[from + 0] == head[0]);
        if head.len() > 1 {
            assert(whole[from + 1] == head[1]);
        }
        if head.len() == 6 {
            assert(whole[from + 2] == head[2]);
            assert(whole[from + 3] == head[3]);
            assert(whole[from + 4] == head[4]);
            assert(whole[from + 5] == head[5]);
            lemma_hex_digits(c);
        }
        assert(json_string_meaning(whole, from) == Some(seq![c] + text.drop_first()));
        assert(text =~= seq![c] + text.drop_first());
    } else {
        assert(text =~= Seq::empty());
    }
}

/// The scalar is a correctly escaped JSON string: a strict reader of JSON accepts it and reads
/// exactly the expression.
pub proof fn law_document_carries_a_json_string(cel: Seq<char>)
    ensures
        json_string_meaning(document(cel), document_head().len() as int + 1) == Some(cel),
{
    let start: int = document_head().len() as int + 1;
    let body = escaped_text(cel);
    assert(document(cel).subrange(start, start + body.len()) =~= body);
    assert(document(cel)[start + body.len()] == '"');
    lemma_json_string_meaning(document(cel), start, cel);
}

} // verus!
