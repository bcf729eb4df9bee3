use vstd::prelude::*;

verus! {

/// A JSON-like tree for request bodies.
#[derive(Debug)]
pub enum JsonValue {
    Null,
    Bool(bool),
    Int(i64),
    Str(String),
    Array(Vec<JsonValue>),
    Object(Vec<(String, JsonValue)>),
}

/// The decimal digit of a value below ten.
pub open spec fn decimal_digit(d: nat) -> char {
    "0123456789"@[d as int]
}

/// The lower-case hexadecimal digit of a value below sixteen.
pub open spec fn lower_hex_digit(d: nat) -> char {
    "0123456789abcdef"@[d as int]
}

/// The decimal digits of a natural number, without leading zeros.
pub open spec fn nat_text(n: nat) -> Seq<char>
    decreases n,
{
    if n < 10 {
        seq![decimal_digit(n)]
    } else {
        nat_text(n / 10) + seq![decimal_digit(n % 10)]
    }
}

pub open spec fn int_text(i: int) -> Seq<char> {
    if i < 0 {
        seq!['-'] + nat_text((-i) as nat)
    } else {
        nat_text(i as nat)
    }
}

/// How one character is written inside a JSON string.
pub open spec fn escape_char(c: char) -> Seq<char> {
    if c == '"' {
        seq!['\\', '"']
    } else if c == '\\' {
        seq!['\\', '\\']
    } else if c == '\n' {
        seq!['\\', 'n']
    } else if c == '\r' {
        seq!['\\', 'r']
    } else if c == '\t' {
        seq!['\\', 't']
    } else if (c as u32) < 0x20 {
        seq!['\\', 'u', '0', '0', lower_hex_digit((c as u32 / 16) as nat), lower_hex_digit((c as u32 % 16) as nat)]
    } else {
        seq![c]
    }
}

pub open spec fn escaped(s: Seq<char>) -> Seq<char>
    decreases s.len(),
{
    if s.len() == 0 {
        Seq::empty()
    } else {
        escaped(s.drop_last()) + escape_char(s.last())
    }
}

/// A JSON string literal.
pub open spec fn json_string_text(s: Seq<char>) -> Seq<char> {
    seq!['"'] + escaped(s) + seq!['"']
}

/// The JSON text of a value: `, ` between items and `: ` after keys.
pub open spec fn json_text(v: JsonValue) -> Seq<char>
    decreases v, 0int,
{
    match v {
        JsonValue::Null => "null"@,
        JsonValue::Bool(b) => if b { "true"@ } else { "false"@ },
        JsonValue::Int(i) => int_text(i as int),
        JsonValue::Str(s) => json_string_text(s@),
        JsonValue::Array(items) => seq!['['] + json_items_text(items@, items@.len() as int) + seq![']'],
        JsonValue::Object(members) => seq!['{'] + json_members_text(members@, members@.len() as int)
            + seq!['}'],
    }
}

/// The first `n` items, separated.
pub open spec fn json_items_text(items: Seq<JsonValue>, n: int) -> Seq<char>
    decreases items, n,
{
    if n <= 0 || n > items.len() {
        Seq::empty()
    } else if n == 1 {
        json_text(items[0])
    } else {
        json_items_text(items, n - 1) + seq![',', ' '] + json_text(items[n - 1])
    }
}

/// One object member: the key as a string, then the value.
pub open spec fn json_member_text(m: (String, JsonValue)) -> Seq<char>
    decreases m, 0int,
{
    json_string_text(m.0@) + seq![':', ' '] + json_text(m.1)
}

/// The first `n` members, separated.
pub open spec fn json_members_text(members: Seq<(String, JsonValue)>, n: int) -> Seq<char>
    decreases members, n,
{
    if n <= 0 || n > members.len() {
        Seq::empty()
    } else if n == 1 {
        json_member_text(members[0])
    } else {
        json_members_text(members, n - 1) + seq![',', ' '] + json_member_text(members[n - 1])
    }
}

/// One decimal digit as a string.
fn digit_str(d: u64) -> (r: &'static str)
    requires
        d < 10,
    ensures
        r@ == seq![decimal_digit(d as nat)],
{
    let digits = "0123456789";
    proof {
        reveal_strlit("0123456789");
    }
    let r = digits.substring_char(d as usize, d as usize + 1);
    assert(r@ =~= seq![decimal_digit(d as nat)]);
    r
}

/// One lower-case hexadecimal digit as a string.
fn hex_str(d: u32) -> (r: &'static str)
    requires
        d < 16,
    ensures
        r@ == seq![lower_hex_digit(d as nat)],
{
    let digits = "0123456789abcdef";
    proof {
        reveal_strlit("0123456789abcdef");
    }
    let r = digits.substring_char(d as usize, d as usize + 1);
    assert(r@ =~= seq![lower_hex_digit(d as nat)]);
    r
}

/// Appends the decimal digits of `n`.
fn push_nat(n: u64, out: &mut String)
    ensures
        final(out)@ == old(out)@ + nat_text(n as nat),
    decreases n,
{
    if n >= 10 {
        push_nat(n / 10, out);
    }
    out.append(digit_str(n % 10));
    assert(final(out)@ =~= old(out)@ + nat_text(n as nat));
}

/// Appends the decimal text of `i`, with a sign when negative.
fn push_int(i: i64, out: &mut String)
    ensures
        final(out)@ == old(out)@ + int_text(i as int),
{
    if i < 0 {
        out.append("-");
        proof {
            reveal_strlit("-");
        }
        let magnitude: u64 = (0i128 - i as i128) as u64;
        push_nat(magnitude, out);
        assert(final(out)@ =~= old(out)@ + int_text(i as int));
    } else {
        push_nat(i as u64, out);
    }
}

/// Appends `s` with the characters that JSON strings escape escaped.
fn push_escaped(s: &str, out: &mut String)
    ensures
        final(out)@ == old(out)@ + escaped(s@),
{
    let n = s.unicode_len();
    let mut i: usize = 0;
    while i < n
        invariant
            n == s@.len(),
            i <= n,
            out@ == old(out)@ + escaped(s@.subrange(0, i as int)),
        decreases n - i,
    {
        let c = s.get_char(i);
        let ghost before = out@;
        proof {
            reveal_strlit("\\\"");
            reveal_strlit("\\\\");
            reveal_strlit("\\n");
            reveal_strlit("\\r");
            reveal_strlit("\\t");
            reveal_strlit("\\u00");
        }
        if c == '"' {
            out.append("\\\"");
        } else if c == '\\' {
            out.append("\\\\");
        } else if c == '\n' {
            out.append("\\n");
        } else if c == '\r' {
            out.append("\\r");
        } else if c == '\t' {
            out.append("\\t");
        } else if (c as u32) < 0x20 {
            out.append("\\u00");
            out.append(hex_str(c as u32 / 16));
            out.append(hex_str(c as u32 % 16));
        } else {
            out.append(s.substring_char(i, i + 1));
        }
        assert(out@ =~= before + escape_char(c));
        assert(s@.subrange(0, i + 1).drop_last() =~= s@.subrange(0, i as int));
        i = i + 1;
    }
    assert(s@.subrange(0, n as int) =~= s@);
}

/// Appends `s` as a JSON string literal.
fn push_json_string(s: &str, out: &mut String)
    ensures
        final(out)@ == old(out)@ + json_string_text(s@),
{
    proof {
        reveal_strlit("\"");
    }
    out.append("\"");
    push_escaped(s, out);
    out.append("\"");
    assert(final(out)@ =~= old(out)@ + json_string_text(s@));
}

/// Appends the JSON text of `v`.
fn push_json(v: &JsonValue, out: &mut String)
    ensures
        final(out)@ == old(out)@ + json_text(*v),
    decreases v,
{
    proof {
        reveal_strlit("null");
        reveal_strlit("true");
        reveal_strlit("false");
        reveal_strlit("[");
        reveal_strlit("]");
        reveal_strlit("{");
        reveal_strlit("}");
        reveal_strlit(", ");
        reveal_strlit(": ");
    }
    match v {
        JsonValue::Null => out.append("null"),
        JsonValue::Bool(b) => {
            if *b {
                out.append("true");
            } else {
                out.append("false");
            }
        },
        JsonValue::Int(i) => push_int(*i, out),
        JsonValue::Str(s) => push_json_string(s.as_str(), out),
        JsonValue::Array(items) => {
            out.append("[");
            let ghost start = out@;
            let mut j: usize = 0;
            while j < items.len()
                invariant
                    j <= items@.len(),
                    *v is Array && (*v)->Array_0 == *items,
                    out@ == start + json_items_text(items@, j as int),
                decreases items@.len() - j,
            {
                proof {
                    reveal_strlit(", ");
                }
                if j > 0 {
                    out.append(", ");
                }
                proof {
                    assert(decreases_to!(*v => (*v)->Array_0));
                    assert(decreases_to!(*items => items@));
                    assert(decreases_to!(items@ => items@[j as int]));
                }
                push_json(&items[j], out);
                j = j + 1;
            }
            out.append("]");
            assert(final(out)@ =~= old(out)@ + json_text(*v));
        },
        JsonValue::Object(members) => {
            out.append("{");
            let ghost start = out@;
            let mut j: usize = 0;
            while j < members.len()
                invariant
                    j <= members@.len(),
                    *v is Object && (*v)->Object_0 == *members,
                    out@ == start + json_members_text(members@, j as int),
                decreases members@.len() - j,
            {
                proof {
                    reveal_strlit(", ");
                    reveal_strlit(": ");
                }
                if j > 0 {
                    out.append(", ");
                }
                let ghost joined = out@;
                push_json_string(members[j].0.as_str(), out);
                out.append(": ");
                proof {
                    assert(decreases_to!(*v => (*v)->Object_0));
                    assert(decreases_to!(*members => members@));
                    assert(decreases_to!(members@ => members@[j as int]));
                    assert(decreases_to!(members@[j as int] => members@[j as int].1));
                }
                push_json(&members[j].1, out);
                assert(out@ =~= joined + json_member_text(members@[j as int]));
                j = j + 1;
            }
            out.append("}");
            assert(final(out)@ =~= old(out)@ + json_text(*v));
        },
    }
}

impl JsonValue {
    /// The JSON text of the value.
    pub fn to_json(&self) -> (r: String)
        ensures
            r@ == json_text(*self),
    {
        let mut out = String::new();
        push_json(self, &mut out);
        assert(out@ =~= json_text(*self));
        out
    }
}

} // verus!
