//! The JSON text of profile ledger lines: compact objects whose strings are
//! escaped as JSON requires (quote, backslash, and control characters).
use vstd::prelude::*;

use crate::text;

verus! {

pub open spec fn hex_digit(d: int) -> char {
    if d < 10 {
        (('0' as int) + d) as char
    } else {
        (('a' as int) + d - 10) as char
    }
}

/// The escape of one character inside a JSON string.
pub open spec fn escape_char(c: char) -> Seq<char> {
    if c == '"' {
        seq!['\\', '"']
    } else if c == '\\' {
        seq!['\\', '\\']
    } else if c == '\u{8}' {
        seq!['\\', 'b']
    } else if c == '\u{c}' {
        seq!['\\', 'f']
    } else if c == '\n' {
        seq!['\\', 'n']
    } else if c == '\r' {
        seq!['\\', 'r']
    } else if c == '\t' {
        seq!['\\', 't']
    } else if (c as int) < 0x20 {
        seq!['\\', 'u', '0', '0', hex_digit((c as int) / 16), hex_digit((c as int) % 16)]
    } else {
        seq![c]
    }
}

/// The escaped contents of a JSON string.
pub open spec fn escape(s: Seq<char>) -> Seq<char>
    decreases s.len(),
{
    if s.len() == 0 {
        Seq::empty()
    } else {
        escape(s.drop_last()) + escape_char(s.last())
    }
}

/// A JSON string literal.
pub open spec fn json_str(s: Seq<char>) -> Seq<char> {
    seq!['"'] + escape(s) + seq!['"']
}

/// A JSON boolean.
pub open spec fn json_bool(b: bool) -> Seq<char> {
    if b {
        "true"@
    } else {
        "false"@
    }
}

/// A JSON string or `null`.
pub open spec fn json_opt_str(s: Option<Seq<char>>) -> Seq<char> {
    match s {
        Some(v) => json_str(v),
        None => "null"@,
    }
}

/// One `"name":value` member.
pub open spec fn member(name: Seq<char>, value: Seq<char>) -> Seq<char> {
    json_str(name) + seq![':'] + value
}

/// Members separated by commas.
pub open spec fn join_members(ms: Seq<Seq<char>>) -> Seq<char>
    decreases ms.len(),
{
    if ms.len() == 0 {
        Seq::empty()
    } else if ms.len() == 1 {
        ms[0]
    } else {
        join_members(ms.drop_last()) + seq![','] + ms.last()
    }
}

/// A JSON object with these members, in order.
pub open spec fn object(ms: Seq<Seq<char>>) -> Seq<char> {
    seq!['{'] + join_members(ms) + seq!['}']
}

fn hex_str(d: u32) -> (r: &'static str)
    requires
        d < 16,
    ensures
        r@ == seq![hex_digit(d as int)],
{
    proof {
        reveal_strlit("0");
        reveal_strlit("1");
        reveal_strlit("2");
        reveal_strlit("3");
        reveal_strlit("4");
        reveal_strlit("5");
        reveal_strlit("6");
        reveal_strlit("7");
        reveal_strlit("8");
        reveal_strlit("9");
        reveal_strlit("a");
        reveal_strlit("b");
        reveal_strlit("c");
        reveal_strlit("d");
        reveal_strlit("e");
        reveal_strlit("f");
    }
    let r = if d == 0 {
        "0"
    } else if d == 1 {
        "1"
    } else if d == 2 {
        "2"
    } else if d == 3 {
        "3"
    } else if d == 4 {
        "4"
    } else if d == 5 {
        "5"
    } else if d == 6 {
        "6"
    } else if d == 7 {
        "7"
    } else if d == 8 {
        "8"
    } else if d == 9 {
        "9"
    } else if d == 10 {
        "a"
    } else if d == 11 {
        "b"
    } else if d == 12 {
        "c"
    } else if d == 13 {
        "d"
    } else if d == 14 {
        "e"
    } else {
        "f"
    };
    assert(r@ =~= seq![hex_digit(d as int)]);
    r
}

/// Appends the escape of `s[i]` to `out`.
fn push_escaped_char(out: &mut String, s: &str, c: char, i: usize)
    requires
        i < s@.len(),
        s@.len() <= usize::MAX,
        s@[i as int] == c,
    ensures
        final(out)@ == old(out)@ + escape_char(c),
{
    proof {
        reveal_strlit("\\\"");
        reveal_strlit("\\\\");
        reveal_strlit("\\b");
        reveal_strlit("\\f");
        reveal_strlit("\\n");
        reveal_strlit("\\r");
        reveal_strlit("\\t");
        reveal_strlit("\\u00");
    }
    if c == '"' {
        out.append("\\\"");
    } else if c == '\\' {
        out.append("\\\\");
    } else if c == '\u{8}' {
        out.append("\\b");
    } else if c == '\u{c}' {
        out.append("\\f");
    } else if c == '\n' {
        out.append("\\n");
    } else if c == '\r' {
        out.append("\\r");
    } else if c == '\t' {
        out.append("\\t");
    } else if (c as u32) < 0x20 {
        let code = c as u32;
        out.append("\\u00");
        out.append(hex_str(code / 16));
        out.append(hex_str(code % 16));
        assert(out@ =~= old(out)@ + escape_char(c));
    } else {
        let one = s.substring_char(i, i + 1);
        out.append(one);
        assert(out@ =~= old(out)@ + escape_char(c));
    }
}

/// The JSON string literal of `s`.
pub fn json_string(s: &str) -> (r: String)
    ensures
        r@ == json_str(s@),
{
    proof {
        reveal_strlit("\"");
    }
    let v = text::chars_of(s);
    let mut out = "\"".to_owned();
    let mut i: usize = 0;
    while i < v.len()
        invariant
            v@ == s@,
            i <= v@.len(),
            out@ == seq!['"'] + escape(s@.take(i as int)),
        decreases v@.len() - i,
    {
        assert(v@.len() <= usize::MAX);
        push_escaped_char(&mut out, s, v[i], i);
        assert(s@.take(i + 1).drop_last() =~= s@.take(i as int));
        assert(s@.take(i + 1).last() == s@[i as int]);
        i = i + 1;
    }
    assert(s@.take(v@.len() as int) =~= s@);
    out.append("\"");
    out
}

/// One `"name":value` member, `value` being JSON text.
pub fn json_member(name: &str, value: &str) -> (r: String)
    ensures
        r@ == member(name@, value@),
{
    proof {
        reveal_strlit(":");
    }
    let mut m = json_string(name);
    m.append(":");
    m.append(value);
    m
}

/// A member whose value is a JSON string.
pub fn string_member(name: &str, value: &str) -> (r: String)
    ensures
        r@ == member(name@, json_str(value@)),
{
    let v = json_string(value);
    json_member(name, v.as_str())
}

/// A JSON boolean.
pub fn bool_text(b: bool) -> (r: &'static str)
    ensures
        r@ == json_bool(b),
{
    if b {
        "true"
    } else {
        "false"
    }
}

/// A JSON object of `members`, in order.
pub fn json_object(members: &Vec<String>) -> (r: String)
    ensures
        r@ == object(members.deep_view()),
{
    proof {
        reveal_strlit("{");
        reveal_strlit("}");
        reveal_strlit(",");
    }
    let mut out = "{".to_owned();
    let mut i: usize = 0;
    let ghost mv = members.deep_view();
    while i < members.len()
        invariant
            mv == members.deep_view(),
            i <= mv.len(),
            out@ == seq!['{'] + join_members(mv.take(i as int)),
        decreases mv.len() - i,
    {
        let ghost before = out@;
        if i > 0 {
            proof {
                reveal_strlit(",");
                assert(","@ =~= seq![',']);
            }
            out.append(",");
            assert(out@ =~= before + seq![',']);
        }
        let m = members[i].as_str();
        assert(m@ == mv[i as int]);
        out.append(m);
        proof {
            if i > 0 {
                assert(out@ =~= before + seq![','] + mv[i as int]);
            } else {
                assert(out@ =~= before + mv[i as int]);
            }
            assert(mv.take(i + 1).drop_last() =~= mv.take(i as int));
            assert(mv.take(i + 1).last() == mv[i as int]);
            if i > 0 {
                assert(join_members(mv.take(i + 1)) == join_members(mv.take(i + 1).drop_last())
                    + seq![','] + mv.take(i + 1).last());
            }
            if i == 0 {
                assert(mv.take(1).len() == 1);
                assert(join_members(mv.take(1)) == mv[0]);
                assert(join_members(mv.take(0)) =~= Seq::<char>::empty());
            }
            assert(out@ =~= seq!['{'] + join_members(mv.take(i + 1)));
        }
        i = i + 1;
    }
    assert(mv.take(mv.len() as int) =~= mv);
    out.append("}");
    out
}

} // verus!
