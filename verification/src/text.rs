use vstd::prelude::*;

verus! {

/// `String::push` appends one character at the end of the string.
pub assume_specification[ String::push ](text: &mut String, c: char)
    ensures
        final(text)@ == old(text)@.push(c),
;

/// Whether two string slices hold the same characters.
pub(crate) fn str_eq(a: &str, b: &str) -> (same: bool)
    ensures
        same == (a@ == b@),
{
    let left = a.to_owned();
    let right = b.to_owned();
    left == right
}

/// How one character is written inside a string literal that is used as a
/// format string: a backslash before `"` and `\`, the usual letters for line
/// feed, carriage return and tab, braces doubled, anything else as it is.
pub open spec fn escaped_char(c: char) -> Seq<char> {
    if c == '"' {
        seq!['\\', '"']
    } else if c == '\\' {
        seq!['\\', '\\']
    } else if c == '\n' {
        seq!['\\', 'n']
    } else if c == '\r' {
        seq!['\\', 'r']
    } else if c == '\t' {
        seq!['\\', 't']
    } else if c == '{' {
        seq!['{', '{']
    } else if c == '}' {
        seq!['}', '}']
    } else {
        seq![c]
    }
}

/// The characters of `text`, each written as `escaped_char` says.
pub open spec fn escaped(text: Seq<char>) -> Seq<char>
    decreases text.len(),
{
    if text.len() == 0 {
        Seq::empty()
    } else {
        escaped(text.drop_last()) + escaped_char(text.last())
    }
}

/// `text` as a string literal: escaped, between double quotes.
pub open spec fn string_literal(text: Seq<char>) -> Seq<char> {
    seq!['"'] + escaped(text) + seq!['"']
}

/// Appends one character to `out`, written as `escaped_char` says.
fn push_escaped(out: &mut String, c: char)
    ensures
        final(out)@ == old(out)@ + escaped_char(c),
{
    if c == '"' {
        out.push('\\');
        out.push('"');
    } else if c == '\\' {
        out.push('\\');
        out.push('\\');
    } else if c == '\n' {
        out.push('\\');
        out.push('n');
    } else if c == '\r' {
        out.push('\\');
        out.push('r');
    } else if c == '\t' {
        out.push('\\');
        out.push('t');
    } else if c == '{' {
        out.push('{');
        out.push('{');
    } else if c == '}' {
        out.push('}');
        out.push('}');
    } else {
        out.push(c);
    }
    assert(out@ =~= old(out)@ + escaped_char(c));
}

/// Writes `text` as a string literal.
pub fn quote_string(text: &str) -> (literal: String)
    ensures
        literal@ == string_literal(text@),
{
    let mut body = String::new();
    for c in it: text.chars()
        invariant
            it.seq() == text@,
            body@ == escaped(text@.take(it.index())),
    {
        proof {
            let after = text@.take(it.index() + 1);
            assert(after.last() == c);
            assert(after.drop_last() =~= text@.take(it.index()));
        }
        push_escaped(&mut body, c);
    }
    proof {
        assert(text@.take(text@.len() as int) =~= text@);
    }
    let mut out = String::new();
    out.push('"');
    out.append(body.as_str());
    out.push('"');
    assert(out@ =~= string_literal(text@));
    out
}

} // verus!
