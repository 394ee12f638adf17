//! JSON values for JSON-RPC request bodies, and their compact text.
use vstd::prelude::*;

use crate::text::push_char;

verus! {

/// A JSON value as request bodies hold it.
pub enum JsonValue {
    Null,
    Bool(bool),
    Number(u64),
    String(String),
    Array(Vec<JsonValue>),
    Object(Vec<(String, JsonValue)>),
}

/// The mathematical value of a `JsonValue`.
pub enum Json {
    Null,
    Bool(bool),
    Number(u64),
    Str(Seq<char>),
    Array(Seq<Json>),
    Object(Seq<(Seq<char>, Json)>),
}

/// The mathematical value of a `JsonValue`.
pub open spec fn json_view(v: JsonValue) -> Json
    decreases v,
{
    match v {
        JsonValue::Null => Json::Null,
        JsonValue::Bool(b) => Json::Bool(b),
        JsonValue::Number(n) => Json::Number(n),
        JsonValue::String(s) => Json::Str(s@),
        JsonValue::Array(items) => Json::Array(
            Seq::new(
                items@.len(),
                |i: int|
                    if 0 <= i < items@.len() {
                        proof {
                            assert(decreases_to!(items => items@));
                            assert(decreases_to!(items@ => items@[i]));
                        }
                        json_view(items@[i])
                    } else {
                        Json::Null
                    },
            ),
        ),
        JsonValue::Object(members) => Json::Object(
            Seq::new(
                members@.len(),
                |i: int|
                    if 0 <= i < members@.len() {
                        proof {
                            assert(decreases_to!(members => members@));
                            assert(decreases_to!(members@ => members@[i]));
                            assert(decreases_to!(members@[i] => members@[i].1));
                        }
                        (members@[i].0@, json_view(members@[i].1))
                    } else {
                        (Seq::empty(), Json::Null)
                    },
            ),
        ),
    }
}

impl View for JsonValue {
    type V = Json;

    open spec fn view(&self) -> Json {
        json_view(*self)
    }
}

/// A lower-case hexadecimal digit of a value below sixteen.
pub open spec fn hex_digit_lower(d: nat) -> char {
    if d < 10 {
        ((d + 48) as u32) as char
    } else {
        ((d + 87) as u32) as char
    }
}

/// How `jzon` writes one character inside a JSON string: `"` and `\` behind a
/// backslash, backspace, tab, line feed, form feed and carriage return as `\b`,
/// `\t`, `\n`, `\f`, `\r`, the other characters below U+0020 as `\u00xx` in
/// lower-case hexadecimal, and every other character as it is.
pub open spec fn json_escape_char(c: char) -> Seq<char> {
    if c == '"' {
        seq!['\\', '"']
    } else if c == '\\' {
        seq!['\\', '\\']
    } else if c == '\u{8}' {
        seq!['\\', 'b']
    } else if c == '\t' {
        seq!['\\', 't']
    } else if c == '\n' {
        seq!['\\', 'n']
    } else if c == '\u{c}' {
        seq!['\\', 'f']
    } else if c == '\r' {
        seq!['\\', 'r']
    } else if (c as u32) < 0x20 {
        seq!['\\', 'u', '0', '0', hex_digit_lower((c as u32 / 16) as nat), hex_digit_lower((c as u32 % 16) as nat)]
    } else {
        seq![c]
    }
}

/// The characters of a string, each written as `json_escape_char` writes it.
pub open spec fn json_escaped(s: Seq<char>) -> Seq<char>
    decreases s.len(),
{
    if s.len() == 0 {
        Seq::empty()
    } else {
        json_escaped(s.drop_last()) + json_escape_char(s.last())
    }
}

/// The quoted and escaped JSON text of a string, as `jzon` writes it.
pub open spec fn json_string_literal(s: Seq<char>) -> Seq<char> {
    seq!['"'] + json_escaped(s) + seq!['"']
}

/// `jzon::stringify` of a string: its quoted and escaped JSON text, as
/// `json_string_literal` states it.
#[verifier::external_body]
pub(crate) fn json_quote(s: &str) -> (text: String)
    ensures
        text@ == json_string_literal(s@),
{
    jzon::stringify(s)
}

/// The decimal digit of a value below ten.
pub open spec fn decimal_digit(d: nat) -> char {
    ((d + 48) as u32) as char
}

/// The decimal text of a natural number, without leading zeros.
pub open spec fn decimal(n: nat) -> Seq<char>
    decreases n,
{
    if n < 10 {
        seq![decimal_digit(n)]
    } else {
        decimal(n / 10).push(decimal_digit(n % 10))
    }
}

/// Compact JSON text: no white space, members in order.
pub open spec fn json_text(j: Json) -> Seq<char>
    decreases j,
{
    match j {
        Json::Null => seq!['n', 'u', 'l', 'l'],
        Json::Bool(b) => if b {
            seq!['t', 'r', 'u', 'e']
        } else {
            seq!['f', 'a', 'l', 's', 'e']
        },
        Json::Number(n) => decimal(n as nat),
        Json::Str(s) => json_string_literal(s),
        Json::Array(items) => seq!['['] + items_text(items) + seq![']'],
        Json::Object(members) => seq!['{'] + members_text(members) + seq!['}'],
    }
}

/// The texts of array items separated by commas.
pub open spec fn items_text(items: Seq<Json>) -> Seq<char>
    decreases items,
{
    if items.len() == 0 {
        Seq::empty()
    } else if items.len() == 1 {
        json_text(items[0])
    } else {
        items_text(items.drop_last()) + seq![','] + json_text(items.last())
    }
}

/// The text of one object member: quoted key, colon, value.
pub open spec fn member_text(m: (Seq<char>, Json)) -> Seq<char>
    decreases m,
{
    json_string_literal(m.0) + seq![':'] + json_text(m.1)
}

/// The texts of object members separated by commas.
pub open spec fn members_text(members: Seq<(Seq<char>, Json)>) -> Seq<char>
    decreases members,
{
    if members.len() == 0 {
        Seq::empty()
    } else if members.len() == 1 {
        member_text(members[0])
    } else {
        members_text(members.drop_last()) + seq![','] + member_text(members.last())
    }
}

/// Appends the decimal text of `n`.
fn write_decimal(out: &mut String, n: u64)
    ensures
        final(out)@ == old(out)@ + decimal(n as nat),
    decreases n,
{
    if n >= 10 {
        write_decimal(out, n / 10);
    }
    let digit: u8 = (n % 10) as u8;
    let c = (digit + 48) as char;
    assert(c == decimal_digit((n % 10) as nat));
    push_char(out, c);
}

/// Appends the characters of `text`.
fn write_str(out: &mut String, text: &str)
    ensures
        final(out)@ == old(out)@ + text@,
{
    out.append(text);
}

/// Appends the compact JSON text of `v`.
fn write_json(out: &mut String, v: &JsonValue)
    ensures
        final(out)@ == old(out)@ + json_text(v@),
    decreases v,
{
    let ghost start = out@;
    match v {
        JsonValue::Null => {
            push_char(out, 'n');
            push_char(out, 'u');
            push_char(out, 'l');
            push_char(out, 'l');
            assert(out@ =~= start + json_text(v@));
        },
        JsonValue::Bool(b) => {
            if *b {
                push_char(out, 't');
                push_char(out, 'r');
                push_char(out, 'u');
                push_char(out, 'e');
            } else {
                push_char(out, 'f');
                push_char(out, 'a');
                push_char(out, 'l');
                push_char(out, 's');
                push_char(out, 'e');
            }
            assert(out@ =~= start + json_text(v@));
        },
        JsonValue::Number(n) => {
            write_decimal(out, *n);
        },
        JsonValue::String(s) => {
            let quoted = json_quote(s.as_str());
            write_str(out, quoted.as_str());
        },
        JsonValue::Array(items) => {
            let ghost js = v@->Array_0;
            assert(js.len() == items@.len());
            assert(forall|k: int| 0 <= k < items@.len() ==> js[k] == json_view(#[trigger] items@[k]));
            assert forall|k: int| 0 <= k < items@.len() implies decreases_to!(*v => #[trigger] items@[k]) by {
                assert(decreases_to!(*v => *items));
                assert(decreases_to!(*items => items@));
                assert(decreases_to!(items@ => items@[k]));
            }
            push_char(out, '[');
            let mut i: usize = 0;
            while i < items.len()
                invariant
                    i <= items@.len(),
                    js.len() == items@.len(),
                    forall|k: int| 0 <= k < items@.len() ==> js[k] == json_view(#[trigger] items@[k]),
                    forall|k: int| 0 <= k < items@.len() ==> decreases_to!(*v => #[trigger] items@[k]),
                    out@ == start + seq!['['] + items_text(js.take(i as int)),
                decreases items@.len() - i,
            {
                let ghost before = out@;
                if i > 0 {
                    push_char(out, ',');
                }
                write_json(out, &items[i]);
                assert(js.take(i + 1).drop_last() =~= js.take(i as int));
                assert(js.take(i + 1).last() == js[i as int]);
                if i == 0 {
                    assert(js.take(1) =~= seq![js[0]]);
                }
                i = i + 1;
                assert(out@ =~= start + seq!['['] + items_text(js.take(i as int)));
            }
            assert(js.take(items@.len() as int) =~= js);
            push_char(out, ']');
            assert(out@ =~= start + json_text(v@));
        },
        JsonValue::Object(members) => {
            let ghost ms = v@->Object_0;
            assert(ms.len() == members@.len());
            assert(forall|k: int|
                0 <= k < members@.len() ==> ms[k].0 == (#[trigger] members@[k]).0@ && ms[k].1
                    == json_view(members@[k].1));
            assert forall|k: int| 0 <= k < members@.len() implies decreases_to!(*v => (#[trigger] members@[k]).1) by {
                assert(decreases_to!(*v => *members));
                assert(decreases_to!(*members => members@));
                assert(decreases_to!(members@ => members@[k]));
                assert(decreases_to!(members@[k] => members@[k].1));
            }
            push_char(out, '{');
            let mut i: usize = 0;
            while i < members.len()
                invariant
                    i <= members@.len(),
                    ms.len() == members@.len(),
                    forall|k: int|
                        0 <= k < members@.len() ==> ms[k].0 == (#[trigger] members@[k]).0@
                            && ms[k].1 == json_view(members@[k].1),
                    forall|k: int| 0 <= k < members@.len() ==> decreases_to!(*v => (#[trigger] members@[k]).1),
                    out@ == start + seq!['{'] + members_text(ms.take(i as int)),
                decreases members@.len() - i,
            {
                if i > 0 {
                    push_char(out, ',');
                }
                let quoted = json_quote(members[i].0.as_str());
                write_str(out, quoted.as_str());
                push_char(out, ':');
                let ghost mid = out@;
                write_json(out, &members[i].1);
                assert(out@ == mid + json_text(json_view(members@[i as int].1)));
                assert(member_text(ms[i as int]) == json_string_literal(ms[i as int].0) + seq![':']
                    + json_text(ms[i as int].1));
                assert(ms.take(i + 1).drop_last() =~= ms.take(i as int));
                assert(ms.take(i + 1).last() == ms[i as int]);
                if i == 0 {
                    assert(ms.take(1) =~= seq![ms[0]]);
                }
                i = i + 1;
                assert(out@ =~= start + seq!['{'] + members_text(ms.take(i as int)));
            }
            assert(ms.take(members@.len() as int) =~= ms);
            push_char(out, '}');
            assert(out@ =~= start + json_text(v@));
        },
    }
}

impl JsonValue {
    /// The compact JSON text of the value.
    pub fn dump(&self) -> (text: String)
        ensures
            text@ == json_text(self@),
    {
        let mut out = String::new();
        write_json(&mut out, self);
        assert(out@ =~= json_text(self@));
        out
    }
}

/// One more array item is written after the others with exactly one comma
/// before it, and a single item is written alone.
pub proof fn lemma_items_text_push(items: Seq<Json>, x: Json)
    ensures
        items.len() == 0 ==> items_text(items.push(x)) == json_text(x),
        items.len() > 0 ==> items_text(items.push(x)) == items_text(items) + seq![','] + json_text(x),
{
    assert(items.push(x).drop_last() =~= items);
    if items.len() == 0 {
        assert(items.push(x)[0] == x);
    }
}

/// Two runs of array items are written as the first run's text, one comma, and
/// the second run's text: the items of an array are separated by exactly one
/// comma each, however many there are.
pub proof fn lemma_items_text_append(first: Seq<Json>, second: Seq<Json>)
    requires
        first.len() > 0,
        second.len() > 0,
    ensures
        items_text(first + second) == items_text(first) + seq![','] + items_text(second),
    decreases second.len(),
{
    let all = first + second;
    if second.len() == 1 {
        assert(all.drop_last() =~= first);
        assert(all.last() == second[0]);
    } else {
        let rest = second.drop_last();
        lemma_items_text_append(first, rest);
        assert(all.drop_last() =~= first + rest);
        assert(all.last() == second.last());
        assert(items_text(all) =~= items_text(first) + seq![','] + (items_text(rest) + seq![','] + json_text(
            second.last(),
        )));
    }
}

/// Two runs of object members are written as the first run's text, one comma,
/// and the second run's text.
pub proof fn lemma_members_text_append(first: Seq<(Seq<char>, Json)>, second: Seq<(Seq<char>, Json)>)
    requires
        first.len() > 0,
        second.len() > 0,
    ensures
        members_text(first + second) == members_text(first) + seq![','] + members_text(second),
    decreases second.len(),
{
    let all = first + second;
    if second.len() == 1 {
        assert(all.drop_last() =~= first);
        assert(all.last() == second[0]);
    } else {
        let rest = second.drop_last();
        lemma_members_text_append(first, rest);
        assert(all.drop_last() =~= first + rest);
        assert(all.last() == second.last());
        assert(members_text(all) =~= members_text(first) + seq![','] + (members_text(rest) + seq![',']
            + member_text(second.last())));
    }
}

} // verus!
