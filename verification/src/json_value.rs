//! A dynamically typed, JSON-like value container.
//!
//! Tool inputs, tool outputs and execution contexts vary per tool, so the
//! library moves them around as values of this type without interpreting
//! them (beyond reading a structural discriminant here and there).

use vstd::prelude::*;

verus! {

/// A JSON-like value. Numbers are held as signed 64-bit integers.
#[derive(Debug, PartialEq, Eq)]
pub enum JSONValue {
    Null,
    Bool(bool),
    Number(i64),
    String(String),
    JSONArray(Vec<JSONValue>),
    JSONObject(Vec<(String, JSONValue)>),
    Undefined,
}

/// One key/value member of a JSON object, as seen by specifications.
#[verifier::ext_equal]
pub ghost struct JSONMemberView {
    pub key: Seq<char>,
    pub value: JSONValueView,
}

/// The mathematical shape of a [`JSONValue`].
#[verifier::ext_equal]
pub enum JSONValueView {
    Null,
    Bool(bool),
    Number(int),
    String(Seq<char>),
    JSONArray(Seq<JSONValueView>),
    JSONObject(Seq<JSONMemberView>),
    Undefined,
}

impl DeepView for JSONValue {
    type V = JSONValueView;

    open spec fn deep_view(&self) -> JSONValueView
        decreases self,
    {
        match self {
            JSONValue::Null => JSONValueView::Null,
            JSONValue::Bool(b) => JSONValueView::Bool(*b),
            JSONValue::Number(n) => JSONValueView::Number(*n as int),
            JSONValue::String(s) => JSONValueView::String(s@),
            JSONValue::JSONArray(items) => JSONValueView::JSONArray(
                Seq::new(
                    items.len() as nat,
                    |i: int|
                        if 0 <= i < items.len() {
                            proof {
                                vstd::std_specs::vec::axiom_vec_index_decreases(*items, i);
                                assert(decreases_to!(*self => *items));
                            }
                            items[i].deep_view()
                        } else {
                            JSONValueView::Null
                        },
                ),
            ),
            JSONValue::JSONObject(entries) => JSONValueView::JSONObject(
                Seq::new(
                    entries.len() as nat,
                    |i: int|
                        if 0 <= i < entries.len() {
                            proof {
                                vstd::std_specs::vec::axiom_vec_index_decreases(*entries, i);
                                assert(decreases_to!(*self => *entries));
                            }
                            JSONMemberView { key: entries[i].0@, value: entries[i].1.deep_view() }
                        } else {
                            JSONMemberView { key: Seq::empty(), value: JSONValueView::Null }
                        },
                ),
            ),
            JSONValue::Undefined => JSONValueView::Undefined,
        }
    }
}

impl Clone for JSONValue {
    /// Cloning a value preserves its shape exactly.
    #[verifier::loop_isolation(false)]
    fn clone(&self) -> (res: JSONValue)
        ensures
            res.deep_view() == self.deep_view(),
        decreases self,
    {
        match self {
            JSONValue::Null => JSONValue::Null,
            JSONValue::Bool(b) => JSONValue::Bool(*b),
            JSONValue::Number(n) => JSONValue::Number(*n),
            JSONValue::String(s) => JSONValue::String(s.clone()),
            JSONValue::JSONArray(items) => {
                let mut out: Vec<JSONValue> = Vec::new();
                let mut i: usize = 0;
                while i < items.len()
                    invariant
                        i <= items.len(),
                        out.len() == i,
                        forall|j: int|
                            0 <= j < i ==> out[j].deep_view() == #[trigger] items[j].deep_view(),
                    decreases items.len() - i,
                {
                    proof {
                        vstd::std_specs::vec::axiom_vec_index_decreases(*items, i as int);
                        assert(decreases_to!(*self => *items));
                    }
                    out.push(items[i].clone());
                    i += 1;
                }
                let result = JSONValue::JSONArray(out);
                proof {
                    assert forall|j: int| 0 <= j < items.len() implies result.deep_view()->JSONArray_0[j]
                        == self.deep_view()->JSONArray_0[j] by {
                        assert(out[j].deep_view() == items[j].deep_view());
                    }
                    assert(result.deep_view()->JSONArray_0 =~= self.deep_view()->JSONArray_0);
                    assert(result.deep_view() == self.deep_view());
                }
                result
            },
            JSONValue::JSONObject(entries) => {
                let mut out: Vec<(String, JSONValue)> = Vec::new();
                let mut i: usize = 0;
                while i < entries.len()
                    invariant
                        i <= entries.len(),
                        out.len() == i,
                        forall|j: int| 0 <= j < i ==> (#[trigger] out[j].0)@ == entries[j].0@,
                        forall|j: int|
                            0 <= j < i ==> (#[trigger] out[j].1).deep_view()
                                == entries[j].1.deep_view(),
                    decreases entries.len() - i,
                {
                    proof {
                        vstd::std_specs::vec::axiom_vec_index_decreases(*entries, i as int);
                        assert(decreases_to!(*self => *entries));
                    }
                    let key = entries[i].0.clone();
                    let value = entries[i].1.clone();
                    out.push((key, value));
                    i += 1;
                }
                let result = JSONValue::JSONObject(out);
                proof {
                    assert forall|j: int| 0 <= j < entries.len() implies result.deep_view()->JSONObject_0[j]
                        == self.deep_view()->JSONObject_0[j] by {
                        assert((out[j].0)@ == entries[j].0@);
                        assert((out[j].1).deep_view() == entries[j].1.deep_view());
                    }
                    assert(result.deep_view()->JSONObject_0 =~= self.deep_view()->JSONObject_0);
                    assert(result.deep_view() == self.deep_view());
                }
                result
            },
            JSONValue::Undefined => JSONValue::Undefined,
        }
    }
}

/// Every value of this type is a JSON value; arrays and objects are JSON
/// values when all of their elements are, which always holds here.
pub fn is_json_value(value: &JSONValue) -> (r: bool)
    ensures
        r == true,
{
    match value {
        JSONValue::Null => true,
        JSONValue::Bool(_) => true,
        JSONValue::Number(_) => true,
        JSONValue::String(_) => true,
        JSONValue::JSONArray(_) => true,
        JSONValue::JSONObject(_) => true,
        JSONValue::Undefined => true,
    }
}

pub fn is_json_array(value: &JSONValue) -> (r: bool)
    ensures
        r == (value.deep_view() matches JSONValueView::JSONArray(_)),
{
    matches!(value, JSONValue::JSONArray(_))
}

pub fn is_json_object(value: &JSONValue) -> (r: bool)
    ensures
        r == (value.deep_view() matches JSONValueView::JSONObject(_)),
{
    matches!(value, JSONValue::JSONObject(_))
}

/// The member of a JSON object under this key, the last occurrence winning;
/// nothing for a value that is not an object or has no such member.
pub open spec fn member_lookup(v: JSONValue, key: Seq<char>) -> Option<JSONValue> {
    match v {
        JSONValue::JSONObject(entries) => member_in_entries(entries@, key),
        _ => None,
    }
}

/// The last entry under this key among an object's entries.
pub open spec fn member_in_entries(entries: Seq<(String, JSONValue)>, key: Seq<char>) -> Option<
    JSONValue,
>
    decreases entries.len(),
{
    if entries.len() == 0 {
        None
    } else if entries.last().0@ == key {
        Some(entries.last().1)
    } else {
        member_in_entries(entries.drop_last(), key)
    }
}

/// Looks a member up in a JSON object by key, the last occurrence winning.
#[verifier::loop_isolation(false)]
pub fn get_member<'a>(v: &'a JSONValue, key: &String) -> (r: Option<&'a JSONValue>)
    ensures
        match r {
            Some(m) => member_lookup(*v, key@) == Some(*m),
            None => member_lookup(*v, key@) is None,
        },
{
    let entries = match v {
        JSONValue::JSONObject(entries) => entries,
        _ => {
            return None;
        },
    };
    let mut i: usize = entries.len();
    proof {
        assert(entries@.take(entries@.len() as int) =~= entries@);
    }
    while i > 0
        invariant
            i <= entries.len(),
            member_in_entries(entries@, key@) == member_in_entries(entries@.take(i as int), key@),
        decreases i,
    {
        i = i - 1;
        proof {
            assert(entries@.take(i as int + 1).last() == entries@[i as int]);
            assert(entries@.take(i as int + 1).drop_last() =~= entries@.take(i as int));
        }
        if entries[i].0 == *key {
            return Some(&entries[i].1);
        }
    }
    None
}

} // verus!
