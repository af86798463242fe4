//! JSON text of string-to-string objects, written as `serde_json` writes them:
//! no whitespace, strings escaped as `serde_json` escapes them.
use vstd::prelude::*;
use crate::codec::hex_digit;

verus! {

/// The JSON text of one character inside a string literal.
pub open spec fn escape_char(c: char) -> Seq<char> {
    if c == '"' {
        seq!['\\', '"']
    } else if c == '\\' {
        seq!['\\', '\\']
    } else if c == '\u{8}' {
        seq!['\\', 'b']
    } else if c == '\u{c}' {
        seq!['\\', 'f']
    } else if c == '\n' {
        seq!['\\', 'n']
    } else if c == '\r' {
        seq!['\\', 'r']
    } else if c == '\t' {
        seq!['\\', 't']
    } else if (c as u32) < 0x20 {
        seq!['\\', 'u', '0', '0', hex_digit((c as u32) as int / 16), hex_digit((c as u32) as int % 16)]
    } else {
        seq![c]
    }
}

/// The escaped characters of `s`, without the enclosing quotes.
pub open spec fn escaped(s: Seq<char>) -> Seq<char>
    decreases s.len(),
{
    if s.len() == 0 {
        Seq::empty()
    } else {
        escaped(s.drop_last()) + escape_char(s.last())
    }
}

/// The JSON string literal of `s`.
pub open spec fn json_string(s: Seq<char>) -> Seq<char> {
    seq!['"'] + escaped(s) + seq!['"']
}

/// One member `"key":"value"` of a JSON object.
pub open spec fn json_member(entry: (Seq<char>, Seq<char>)) -> Seq<char> {
    json_string(entry.0) + seq![':'] + json_string(entry.1)
}

/// The members of a JSON object, separated by commas.
pub open spec fn json_members(entries: Seq<(Seq<char>, Seq<char>)>) -> Seq<char>
    decreases entries.len(),
{
    if entries.len() == 0 {
        Seq::empty()
    } else if entries.len() == 1 {
        json_member(entries[0])
    } else {
        json_members(entries.drop_last()) + seq![','] + json_member(entries.last())
    }
}

/// The JSON object of `entries`, in their order.
pub open spec fn json_object(entries: Seq<(Seq<char>, Seq<char>)>) -> Seq<char> {
    seq!['{'] + json_members(entries) + seq!['}']
}

/// The character of a hexadecimal digit below 16.
fn hex_char(n: u32) -> (c: char)
    requires
        n < 16,
    ensures
        c == hex_digit(n as int),
{
    if n < 10 {
        proof {
            assert(('0' as int) + n <= 0x39);
        }
        char_of_ascii(48 + n)
    } else {
        char_of_ascii(87 + n)
    }
}

/// The ASCII character with code `code`.
fn char_of_ascii(code: u32) -> (c: char)
    requires
        code < 128,
    ensures
        c as u32 == code,
{
    (code as u8) as char
}

/// Appends the escaped text of `c` to `out`.
fn push_escaped_char(out: &mut String, c: char)
    ensures
        final(out)@ == old(out)@ + escape_char(c),
{
    if c == '"' {
        out.push('\\');
        out.push('"');
    } else if c == '\\' {
        out.push('\\');
        out.push('\\');
    } else if c == '\u{8}' {
        out.push('\\');
        out.push('b');
    } else if c == '\u{c}' {
        out.push('\\');
        out.push('f');
    } else if c == '\n' {
        out.push('\\');
        out.push('n');
    } else if c == '\r' {
        out.push('\\');
        out.push('r');
    } else if c == '\t' {
        out.push('\\');
        out.push('t');
    } else if (c as u32) < 0x20 {
        let code = c as u32;
        out.push('\\');
        out.push('u');
        out.push('0');
        out.push('0');
        out.push(hex_char(code / 16));
        out.push(hex_char(code % 16));
    } else {
        out.push(c);
    }
    assert(final(out)@ =~= old(out)@ + escape_char(c));
}

/// Appends the JSON string literal of `s` to `out`.
pub fn push_json_string(out: &mut String, s: &str)
    ensures
        final(out)@ == old(out)@ + json_string(s@),
{
    let cs = crate::text::chars_of(s);
    let ghost start = out@;
    out.push('"');
    let mut i: usize = 0;
    while i < cs.len()
        invariant
            i <= cs@.len(),
            cs@ == s@,
            out@ == start + seq!['"'] + escaped(cs@.subrange(0, i as int)),
        decreases cs@.len() - i,
    {
        let ghost before = out@;
        push_escaped_char(out, cs[i]);
        proof {
            let next = cs@.subrange(0, i + 1);
            assert(next.drop_last() =~= cs@.subrange(0, i as int));
            assert(next.last() == cs@[i as int]);
            assert(out@ =~= start + seq!['"'] + escaped(next));
        }
        i = i + 1;
    }
    out.push('"');
    proof {
        assert(cs@.subrange(0, cs@.len() as int) =~= s@);
        assert(out@ =~= start + json_string(s@));
    }
}

/// The views of string pairs.
pub open spec fn pair_views(entries: Seq<(String, String)>) -> Seq<(Seq<char>, Seq<char>)> {
    entries.map_values(|e: (String, String)| (e.0@, e.1@))
}

/// The JSON object of string pairs, keys and values as JSON strings, in order.
pub fn write_object(entries: &Vec<(String, String)>) -> (res: String)
    ensures
        res@ == json_object(pair_views(entries@)),
{
    let mut out = String::new();
    out.push('{');
    let mut i: usize = 0;
    while i < entries.len()
        invariant
            i <= entries@.len(),
            out@ == seq!['{'] + json_members(pair_views(entries@).subrange(0, i as int)),
        decreases entries@.len() - i,
    {
        let ghost before = out@;
        if i > 0 {
            out.push(',');
        }
        push_json_string(&mut out, entries[i].0.as_str());
        out.push(':');
        push_json_string(&mut out, entries[i].1.as_str());
        proof {
            let pv = pair_views(entries@);
            let next = pv.subrange(0, i + 1);
            assert(next.drop_last() =~= pv.subrange(0, i as int));
            assert(next.last() == pv[i as int]);
            if i == 0 {
                assert(next.len() == 1);
                assert(out@ =~= seq!['{'] + json_members(next));
            } else {
                assert(out@ =~= seq!['{'] + json_members(next));
            }
        }
        i = i + 1;
    }
    out.push('}');
    proof {
        assert(pair_views(entries@).subrange(0, entries@.len() as int) =~= pair_views(entries@));
        assert(out@ =~= json_object(pair_views(entries@)));
    }
    out
}

} // verus!
