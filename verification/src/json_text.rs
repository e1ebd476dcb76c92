//! Compact JSON rendering of a [`JSONValue`], for embedding values in error
//! messages and requests.
//!
//! Strings are quoted with the usual JSON escapes: quote, backslash, and
//! the named control escapes, with the remaining control characters written
//! as `\u00XX`; all other characters pass through unchanged.

use vstd::prelude::*;
use crate::json_value::JSONValue;
use crate::strings::{int_text, i64_to_string, push_char};

verus! {

/// The lower-case hexadecimal digit character for a value below sixteen.
pub open spec fn hex_char(d: int) -> char {
    if d < 10 {
        crate::strings::digit_char(d)
    } else if d == 10 {
        'a'
    } else if d == 11 {
        'b'
    } else if d == 12 {
        'c'
    } else if d == 13 {
        'd'
    } else if d == 14 {
        'e'
    } else {
        'f'
    }
}

/// How one character is written inside a JSON string literal.
pub open spec fn escape_char(c: char) -> Seq<char> {
    if c == '"' {
        seq!['\\', '"']
    } else if c == '\\' {
        seq!['\\', '\\']
    } else if c == '\n' {
        seq!['\\', 'n']
    } else if c == '\r' {
        seq!['\\', 'r']
    } else if c == '\t' {
        seq!['\\', 't']
    } else if (c as int) == 8 {
        seq!['\\', 'b']
    } else if (c as int) == 12 {
        seq!['\\', 'f']
    } else if (c as int) < 32 {
        seq!['\\', 'u', '0', '0', hex_char((c as int) / 16), hex_char((c as int) % 16)]
    } else {
        seq![c]
    }
}

/// The escaped body of a JSON string literal.
pub open spec fn escaped(s: Seq<char>) -> Seq<char>
    decreases s.len(),
{
    if s.len() == 0 {
        Seq::empty()
    } else {
        escaped(s.drop_last()) + escape_char(s.last())
    }
}

/// A JSON string literal: the escaped body between double quotes.
pub open spec fn json_string_text(s: Seq<char>) -> Seq<char> {
    seq!['"'] + escaped(s) + seq!['"']
}

/// The compact JSON text of a value. An undefined value renders as `null`.
pub open spec fn json_text(v: JSONValue) -> Seq<char>
    decreases v, 0int,
{
    match v {
        JSONValue::Null => "null"@,
        JSONValue::Bool(b) => if b {
            "true"@
        } else {
            "false"@
        },
        JSONValue::Number(n) => int_text(n as int),
        JSONValue::String(s) => json_string_text(s@),
        JSONValue::JSONArray(items) => {
            proof {
                assert(decreases_to!(v => items));
            }
            seq!['['] + array_items_text(items, 0) + seq![']']
        },
        JSONValue::JSONObject(entries) => {
            proof {
                assert(decreases_to!(v => entries));
            }
            seq!['{'] + object_items_text(entries, 0) + seq!['}']
        },
        JSONValue::Undefined => "null"@,
    }
}

/// The comma-separated JSON texts of the array items from index `i` on.
pub open spec fn array_items_text(items: Vec<JSONValue>, i: int) -> Seq<char>
    decreases items, items.len() - i,
{
    if i < 0 || i >= items.len() {
        Seq::empty()
    } else {
        let item_text = {
            proof {
                vstd::std_specs::vec::axiom_vec_index_decreases(items, i);
            }
            json_text(items[i])
        };
        if i == items.len() - 1 {
            item_text
        } else {
            item_text + seq![','] + array_items_text(items, i + 1)
        }
    }
}

/// The comma-separated JSON renderings of the object members from index
/// `i` on, each a quoted key, a colon, and the value's JSON text.
pub open spec fn object_items_text(entries: Vec<(String, JSONValue)>, i: int) -> Seq<char>
    decreases entries, entries.len() - i,
{
    if i < 0 || i >= entries.len() {
        Seq::empty()
    } else {
        let member_text = json_string_text(entries[i].0@) + seq![':'] + {
            proof {
                vstd::std_specs::vec::axiom_vec_index_decreases(entries, i);
            }
            json_text(entries[i].1)
        };
        if i == entries.len() - 1 {
            member_text
        } else {
            member_text + seq![','] + object_items_text(entries, i + 1)
        }
    }
}

fn hex_char_exec(d: u32) -> (c: char)
    requires
        d < 16,
    ensures
        c == hex_char(d as int),
{
    match d {
        0 => '0',
        1 => '1',
        2 => '2',
        3 => '3',
        4 => '4',
        5 => '5',
        6 => '6',
        7 => '7',
        8 => '8',
        9 => '9',
        10 => 'a',
        11 => 'b',
        12 => 'c',
        13 => 'd',
        14 => 'e',
        _ => 'f',
    }
}

/// Appends one character's JSON-escaped form.
fn append_escaped_char(out: &mut String, c: char)
    ensures
        final(out)@ == old(out)@ + escape_char(c),
{
    let ghost entry = out@;
    if c == '"' {
        push_char(out, '\\');
        push_char(out, '"');
    } else if c == '\\' {
        push_char(out, '\\');
        push_char(out, '\\');
    } else if c == '\n' {
        push_char(out, '\\');
        push_char(out, 'n');
    } else if c == '\r' {
        push_char(out, '\\');
        push_char(out, 'r');
    } else if c == '\t' {
        push_char(out, '\\');
        push_char(out, 't');
    } else if c as u32 == 8 {
        push_char(out, '\\');
        push_char(out, 'b');
    } else if c as u32 == 12 {
        push_char(out, '\\');
        push_char(out, 'f');
    } else if (c as u32) < 32 {
        push_char(out, '\\');
        push_char(out, 'u');
        push_char(out, '0');
        push_char(out, '0');
        push_char(out, hex_char_exec((c as u32) / 16));
        push_char(out, hex_char_exec((c as u32) % 16));
    } else {
        push_char(out, c);
    }
    proof {
        assert(out@ =~= entry + escape_char(c));
    }
}

/// Appends a JSON string literal for this string.
#[verifier::loop_isolation(false)]
fn append_json_string(out: &mut String, s: &str)
    ensures
        final(out)@ == old(out)@ + json_string_text(s@),
{
    let ghost entry = out@;
    push_char(out, '"');
    let len = s.unicode_len();
    let mut i: usize = 0;
    proof {
        assert(escaped(s@.take(0)) =~= Seq::<char>::empty());
        assert(out@ =~= entry + seq!['"'] + escaped(s@.take(0)));
    }
    while i < len
        invariant
            i <= len,
            len == s@.len(),
            out@ == entry + seq!['"'] + escaped(s@.take(i as int)),
        decreases len - i,
    {
        let c = s.get_char(i);
        append_escaped_char(out, c);
        proof {
            assert(s@.take(i as int + 1).drop_last() =~= s@.take(i as int));
            assert(s@.take(i as int + 1).last() == s@[i as int]);
            assert((entry + seq!['"'] + escaped(s@.take(i as int))) + escape_char(s@[i as int])
                =~= entry + seq!['"'] + escaped(s@.take(i as int + 1)));
        }
        i = i + 1;
    }
    push_char(out, '"');
    proof {
        assert(s@.take(s@.len() as int) =~= s@);
        assert(out@ =~= entry + json_string_text(s@));
    }
}

/// Appends the compact JSON text of a value.
#[verifier::loop_isolation(false)]
pub fn append_json_value(out: &mut String, v: &JSONValue)
    ensures
        final(out)@ == old(out)@ + json_text(*v),
    decreases v,
{
    let ghost entry = out@;
    match v {
        JSONValue::Null => {
            out.append("null");
        },
        JSONValue::Bool(b) => {
            if *b {
                out.append("true");
            } else {
                out.append("false");
            }
        },
        JSONValue::Number(n) => {
            let t = i64_to_string(*n);
            out.append(t.as_str());
        },
        JSONValue::String(s) => {
            append_json_string(out, s.as_str());
        },
        JSONValue::JSONArray(items) => {
            push_char(out, '[');
            let mut i: usize = 0;
            while i < items.len()
                invariant
                    i <= items.len(),
                    entry + json_text(*v) == out@ + array_items_text(*items, i as int) + seq![']'],
                decreases items.len() - i,
            {
                proof {
                    vstd::std_specs::vec::axiom_vec_index_decreases(*items, i as int);
                    assert(decreases_to!(*v => *items));
                }
                let ghost before = out@;
                append_json_value(out, &items[i]);
                if i + 1 < items.len() {
                    push_char(out, ',');
                    proof {
                        assert(before + (json_text(items@[i as int]) + seq![','] + array_items_text(
                            *items,
                            i as int + 1,
                        )) + seq![']'] =~= out@ + array_items_text(*items, i as int + 1) + seq![
                            ']',
                        ]);
                    }
                } else {
                    proof {
                        assert(array_items_text(*items, i as int + 1) =~= Seq::<char>::empty());
                        assert(before + json_text(items@[i as int]) + seq![']'] =~= out@
                            + array_items_text(*items, i as int + 1) + seq![']']);
                    }
                }
                i = i + 1;
            }
            push_char(out, ']');
            proof {
                assert(array_items_text(*items, items@.len() as int) =~= Seq::<char>::empty());
                assert(out@ =~= entry + json_text(*v));
            }
        },
        JSONValue::JSONObject(entries) => {
            push_char(out, '{');
            let mut i: usize = 0;
            while i < entries.len()
                invariant
                    i <= entries.len(),
                    entry + json_text(*v) == out@ + object_items_text(*entries, i as int) + seq![
                        '}',
                    ],
                decreases entries.len() - i,
            {
                proof {
                    vstd::std_specs::vec::axiom_vec_index_decreases(*entries, i as int);
                    assert(decreases_to!(*v => *entries));
                }
                let ghost before = out@;
                append_json_string(out, entries[i].0.as_str());
                push_char(out, ':');
                append_json_value(out, &entries[i].1);
                if i + 1 < entries.len() {
                    push_char(out, ',');
                    proof {
                        assert(before + (json_string_text(entries@[i as int].0@) + seq![':']
                            + json_text(entries@[i as int].1) + seq![','] + object_items_text(
                            *entries,
                            i as int + 1,
                        )) + seq!['}'] =~= out@ + object_items_text(*entries, i as int + 1) + seq![
                            '}',
                        ]);
                    }
                } else {
                    proof {
                        assert(object_items_text(*entries, i as int + 1) =~= Seq::<char>::empty());
                        assert(before + (json_string_text(entries@[i as int].0@) + seq![':']
                            + json_text(entries@[i as int].1)) + seq!['}'] =~= out@
                            + object_items_text(*entries, i as int + 1) + seq!['}']);
                    }
                }
                i = i + 1;
            }
            push_char(out, '}');
            proof {
                assert(object_items_text(*entries, entries@.len() as int) =~= Seq::<char>::empty());
                assert(out@ =~= entry + json_text(*v));
            }
        },
        JSONValue::Undefined => {
            out.append("null");
        },
    }
    proof {
        assert(out@ =~= entry + json_text(*v));
    }
}

/// The compact JSON text of a value, as a fresh string.
pub fn to_json_string(v: &JSONValue) -> (r: String)
    ensures
        r@ == json_text(*v),
{
    let mut out = String::new();
    append_json_value(&mut out, v);
    proof {
        assert(Seq::<char>::empty() + json_text(*v) =~= json_text(*v));
    }
    out
}

} // verus!
