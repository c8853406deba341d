//! Text building blocks: escaping for generated string literals, escaping
//! for the envelope's wire form, decimal rendering, and comma joins.

use vstd::prelude::*;

verus! {

/// Relies on `str`'s `PartialEq`: two string slices are equal exactly when
/// their character sequences are equal.
#[verifier::external_body]
pub(crate) fn str_eq(a: &str, b: &str) -> (r: bool)
    ensures
        r == (a@ == b@),
{
    a == b
}

/// Relies on `String::push`: appends exactly the one character.
#[verifier::external_body]
pub(crate) fn push_char(out: &mut String, c: char)
    ensures
        final(out)@ == old(out)@.push(c),
{
    out.push(c);
}

/// The hexadecimal digit for a value below sixteen, in lower case.
pub open spec fn hex_digit(n: int) -> char {
    if n < 10 {
        ((48 + n) as u8) as char
    } else {
        ((87 + n) as u8) as char
    }
}

/// The decimal digit character for a value below ten.
pub open spec fn dec_digit(n: int) -> char {
    ((48 + n) as u8) as char
}

/// The decimal rendering of a natural number, most significant digit
/// first, with no leading zeros (a single `'0'` for zero).
pub open spec fn dec_digits(n: nat) -> Seq<char>
    decreases n,
{
    if n < 10 {
        seq![dec_digit(n as int)]
    } else {
        dec_digits(n / 10).push(dec_digit((n % 10) as int))
    }
}

/// How one character appears inside a generated Rust string literal.
pub open spec fn rust_escape_char(c: char) -> Seq<char> {
    if c == '"' {
        seq!['\\', '"']
    } else if c == '\\' {
        seq!['\\', '\\']
    } else if c == '\n' {
        seq!['\\', 'n']
    } else if c == '\r' {
        seq!['\\', 'r']
    } else if c == '\t' {
        seq!['\\', 't']
    } else if (c as u32) < 32 {
        seq!['\\', 'u', '{'] + hex_seq_u32(c as u32) + seq!['}']
    } else {
        seq![c]
    }
}

/// At most two lower-case hex digits for a value below 256.
pub open spec fn hex_seq_u32(v: u32) -> Seq<char> {
    if v < 16 {
        seq![hex_digit(v as int)]
    } else {
        seq![hex_digit(v as int / 16), hex_digit(v as int % 16)]
    }
}

/// A string's contents escaped for a generated Rust string literal.
pub open spec fn rust_escaped(s: Seq<char>) -> Seq<char>
    decreases s.len(),
{
    if s.len() == 0 {
        Seq::empty()
    } else {
        rust_escaped(s.drop_last()) + rust_escape_char(s.last())
    }
}

/// A generated Rust string literal: quotes around the escaped contents.
pub open spec fn rust_str_lit(s: Seq<char>) -> Seq<char> {
    seq!['"'] + rust_escaped(s) + seq!['"']
}

/// How one character appears inside a serialized envelope string.
pub open spec fn json_escape_char(c: char) -> Seq<char> {
    if c == '"' {
        seq!['\\', '"']
    } else if c == '\\' {
        seq!['\\', '\\']
    } else if c == '\n' {
        seq!['\\', 'n']
    } else if c == '\r' {
        seq!['\\', 'r']
    } else if c == '\t' {
        seq!['\\', 't']
    } else if (c as u32) < 32 {
        seq!['\\', 'u', '0', '0', hex_digit(c as u32 as int / 16), hex_digit(c as u32 as int % 16)]
    } else {
        seq![c]
    }
}

/// A string's contents escaped for the serialized envelope.
pub open spec fn json_escaped(s: Seq<char>) -> Seq<char>
    decreases s.len(),
{
    if s.len() == 0 {
        Seq::empty()
    } else {
        json_escaped(s.drop_last()) + json_escape_char(s.last())
    }
}

/// The character sequences of a sequence of strings.
pub open spec fn views_of(items: Seq<String>) -> Seq<Seq<char>> {
    items.map_values(|s: String| s@)
}

/// The items joined with `", "` between neighbours.
pub open spec fn join_comma(items: Seq<Seq<char>>) -> Seq<char>
    decreases items.len(),
{
    if items.len() == 0 {
        Seq::empty()
    } else if items.len() == 1 {
        items[0]
    } else {
        join_comma(items.drop_last()) + ", "@ + items.last()
    }
}

/// Appends the hex rendering of a value below 32.
fn push_hex_u32(out: &mut String, v: u32)
    requires
        v < 32,
    ensures
        final(out)@ == old(out)@ + hex_seq_u32(v),
{
    if v < 16 {
        let d: u8 = if v < 10 { 48 + (v as u8) } else { 87 + (v as u8) };
        push_char(out, d as char);
        assert(out@ =~= old(out)@ + hex_seq_u32(v));
    } else {
        push_char(out, '1');
        let lo: u32 = v % 16;
        let d: u8 = if lo < 10 { 48 + (lo as u8) } else { 87 + (lo as u8) };
        push_char(out, d as char);
        assert(hex_digit(v as int / 16) == '1');
        assert(out@ =~= old(out)@ + hex_seq_u32(v));
    }
}

/// Appends one character in its generated-literal escaped form.
fn push_rust_escape_char(out: &mut String, c: char)
    ensures
        final(out)@ == old(out)@ + rust_escape_char(c),
{
    if c == '"' {
        proof { reveal_strlit("\\\""); }
        out.append("\\\"");
        assert(out@ =~= old(out)@ + rust_escape_char(c));
    } else if c == '\\' {
        proof { reveal_strlit("\\\\"); }
        out.append("\\\\");
        assert(out@ =~= old(out)@ + rust_escape_char(c));
    } else if c == '\n' {
        proof { reveal_strlit("\\n"); }
        out.append("\\n");
        assert(out@ =~= old(out)@ + rust_escape_char(c));
    } else if c == '\r' {
        proof { reveal_strlit("\\r"); }
        out.append("\\r");
        assert(out@ =~= old(out)@ + rust_escape_char(c));
    } else if c == '\t' {
        proof { reveal_strlit("\\t"); }
        out.append("\\t");
        assert(out@ =~= old(out)@ + rust_escape_char(c));
    } else if (c as u32) < 32 {
        proof { reveal_strlit("\\u{"); }
        out.append("\\u{");
        push_hex_u32(out, c as u32);
        push_char(out, '}');
        assert(out@ =~= old(out)@ + rust_escape_char(c));
    } else {
        push_char(out, c);
        assert(out@ =~= old(out)@ + rust_escape_char(c));
    }
}

/// Appends a string's contents escaped for a generated string literal.
pub(crate) fn push_rust_escaped(out: &mut String, s: &str)
    ensures
        final(out)@ == old(out)@ + rust_escaped(s@),
{
    let len = s.unicode_len();
    let mut i: usize = 0;
    while i < len
        invariant
            len == s@.len(),
            i <= len,
            out@ == old(out)@ + rust_escaped(s@.take(i as int)),
        decreases len - i,
    {
        let c = s.get_char(i);
        push_rust_escape_char(out, c);
        proof {
            let t = s@.take(i + 1);
            assert(t.drop_last() =~= s@.take(i as int));
            assert(t.last() == s@[i as int]);
        }
        i = i + 1;
    }
    proof {
        assert(s@.take(len as int) =~= s@);
    }
}

/// Appends a generated Rust string literal holding the given contents.
pub(crate) fn push_rust_str_lit(out: &mut String, s: &str)
    ensures
        final(out)@ == old(out)@ + rust_str_lit(s@),
{
    push_char(out, '"');
    push_rust_escaped(out, s);
    push_char(out, '"');
    assert(out@ =~= old(out)@ + rust_str_lit(s@));
}

/// Appends one character in its serialized-envelope escaped form.
fn push_json_escape_char(out: &mut String, c: char)
    ensures
        final(out)@ == old(out)@ + json_escape_char(c),
{
    if c == '"' {
        proof { reveal_strlit("\\\""); }
        out.append("\\\"");
        assert(out@ =~= old(out)@ + json_escape_char(c));
    } else if c == '\\' {
        proof { reveal_strlit("\\\\"); }
        out.append("\\\\");
        assert(out@ =~= old(out)@ + json_escape_char(c));
    } else if c == '\n' {
        proof { reveal_strlit("\\n"); }
        out.append("\\n");
        assert(out@ =~= old(out)@ + json_escape_char(c));
    } else if c == '\r' {
        proof { reveal_strlit("\\r"); }
        out.append("\\r");
        assert(out@ =~= old(out)@ + json_escape_char(c));
    } else if c == '\t' {
        proof { reveal_strlit("\\t"); }
        out.append("\\t");
        assert(out@ =~= old(out)@ + json_escape_char(c));
    } else if (c as u32) < 32 {
        proof { reveal_strlit("\\u00"); }
        out.append("\\u00");
        let v: u32 = c as u32;
        let hi: u32 = v / 16;
        let lo: u32 = v % 16;
        let dh: u8 = if hi < 10 { 48 + (hi as u8) } else { 87 + (hi as u8) };
        let dl: u8 = if lo < 10 { 48 + (lo as u8) } else { 87 + (lo as u8) };
        push_char(out, dh as char);
        push_char(out, dl as char);
        assert(out@ =~= old(out)@ + json_escape_char(c));
    } else {
        push_char(out, c);
        assert(out@ =~= old(out)@ + json_escape_char(c));
    }
}

/// Appends a string's contents escaped for the serialized envelope.
pub(crate) fn push_json_escaped(out: &mut String, s: &str)
    ensures
        final(out)@ == old(out)@ + json_escaped(s@),
{
    let len = s.unicode_len();
    let mut i: usize = 0;
    while i < len
        invariant
            len == s@.len(),
            i <= len,
            out@ == old(out)@ + json_escaped(s@.take(i as int)),
        decreases len - i,
    {
        let c = s.get_char(i);
        push_json_escape_char(out, c);
        proof {
            let t = s@.take(i + 1);
            assert(t.drop_last() =~= s@.take(i as int));
            assert(t.last() == s@[i as int]);
        }
        i = i + 1;
    }
    proof {
        assert(s@.take(len as int) =~= s@);
    }
}

/// Appends the decimal rendering of a sixteen-bit number.
pub(crate) fn push_u16_dec(out: &mut String, n: u16)
    ensures
        final(out)@ == old(out)@ + dec_digits(n as nat),
    decreases n,
{
    if n < 10 {
        push_char(out, (48 + (n as u8)) as char);
        assert(out@ =~= old(out)@ + dec_digits(n as nat));
    } else {
        push_u16_dec(out, n / 10);
        push_char(out, (48 + ((n % 10) as u8)) as char);
        assert(out@ =~= old(out)@ + dec_digits(n as nat));
    }
}

/// Appends the items joined with `", "` between neighbours.
pub(crate) fn push_join_comma(out: &mut String, items: &Vec<String>)
    ensures
        final(out)@ == old(out)@ + join_comma(views_of(items@)),
{
    let mut i: usize = 0;
    while i < items.len()
        invariant
            i <= items@.len(),
            out@ == old(out)@ + join_comma(views_of(items@.take(i as int))),
        decreases items@.len() - i,
    {
        if i > 0 {
            out.append(", ");
        }
        out.append(items[i].as_str());
        proof {
            let full = views_of(items@.take(i + 1));
            assert(full.drop_last() =~= views_of(items@.take(i as int)));
            assert(full.last() == items@[i as int]@);
            if i == 0 {
                assert(out@ =~= old(out)@ + join_comma(full));
            } else {
                assert(out@ =~= old(out)@ + join_comma(full));
            }
        }
        i = i + 1;
    }
    proof {
        assert(views_of(items@.take(items@.len() as int)) =~= views_of(items@));
    }
}

} // verus!
