//! The tagged tool-call union: a call to a statically known tool, or to one
//! resolved only at runtime. Call sites hold the single union type so they
//! need not know which variant they carry.

use vstd::prelude::*;
use crate::json_value::{JSONMemberView, JSONValue, JSONValueView};

verus! {

/// A call to a tool that is known at registration time.
#[derive(Debug)]
pub struct StaticToolCall {
    pub tool_call_id: String,
    pub tool_name: String,
    pub input: JSONValue,
    pub dynamic: Option<bool>,
    pub invalid: Option<bool>,
    pub title: Option<String>,
}

/// The mathematical shape of a [`StaticToolCall`].
#[verifier::ext_equal]
pub ghost struct StaticToolCallView {
    pub tool_call_id: Seq<char>,
    pub tool_name: Seq<char>,
    pub input: JSONValueView,
    pub dynamic: Option<bool>,
    pub invalid: Option<bool>,
    pub title: Option<Seq<char>>,
}

impl DeepView for StaticToolCall {
    type V = StaticToolCallView;

    open spec fn deep_view(&self) -> StaticToolCallView {
        StaticToolCallView {
            tool_call_id: self.tool_call_id@,
            tool_name: self.tool_name@,
            input: self.input.deep_view(),
            dynamic: self.dynamic,
            invalid: self.invalid,
            title: match self.title {
                Some(t) => Some(t@),
                None => None,
            },
        }
    }
}

impl Clone for StaticToolCall {
    /// Cloning keeps every field.
    fn clone(&self) -> (res: StaticToolCall)
        ensures
            res.deep_view() == self.deep_view(),
    {
        StaticToolCall {
            tool_call_id: self.tool_call_id.clone(),
            tool_name: self.tool_name.clone(),
            input: self.input.clone(),
            dynamic: self.dynamic,
            invalid: self.invalid,
            title: match &self.title {
                Some(t) => Some(t.clone()),
                None => None,
            },
        }
    }
}


/// The serialized shape of a static tool call: the two names and the input
/// under their interop names, each optional member present only when set.
pub open spec fn static_tool_call_json(c: StaticToolCallView) -> JSONValueView {
    JSONValueView::JSONObject(static_tool_call_members(c))
}

/// The members of a static tool call's serialized shape, in order.
pub open spec fn static_tool_call_members(c: StaticToolCallView) -> Seq<JSONMemberView> {
    seq![
        JSONMemberView { key: "toolCallId"@, value: JSONValueView::String(c.tool_call_id) },
        JSONMemberView { key: "toolName"@, value: JSONValueView::String(c.tool_name) },
        JSONMemberView { key: "input"@, value: c.input },
    ] + (match c.dynamic {
        Some(b) => seq![JSONMemberView { key: "dynamic"@, value: JSONValueView::Bool(b) }],
        None => Seq::empty(),
    }) + (match c.invalid {
        Some(b) => seq![JSONMemberView { key: "invalid"@, value: JSONValueView::Bool(b) }],
        None => Seq::empty(),
    }) + (match c.title {
        Some(t) => seq![JSONMemberView { key: "title"@, value: JSONValueView::String(t) }],
        None => Seq::empty(),
    })
}

impl StaticToolCall {
    /// The call as a JSON object in its serialized shape.
    pub fn to_json(&self) -> (r: JSONValue)
        ensures
            r.deep_view() == static_tool_call_json(self.deep_view()),
    {
        let mut entries: Vec<(String, JSONValue)> = Vec::new();
        entries.push(("toolCallId".to_owned(), JSONValue::String(self.tool_call_id.clone())));
        entries.push(("toolName".to_owned(), JSONValue::String(self.tool_name.clone())));
        entries.push(("input".to_owned(), self.input.clone()));
        if let Some(b) = self.dynamic {
            entries.push(("dynamic".to_owned(), JSONValue::Bool(b)));
        }
        if let Some(b) = self.invalid {
            entries.push(("invalid".to_owned(), JSONValue::Bool(b)));
        }
        if let Some(t) = &self.title {
            entries.push(("title".to_owned(), JSONValue::String(t.clone())));
        }
        let r = JSONValue::JSONObject(entries);
        proof {
            let m = r.deep_view()->JSONObject_0;
            let expected = static_tool_call_members(self.deep_view());
            assert(m.len() == expected.len());
            assert forall|j: int| 0 <= j < m.len() implies m[j] == expected[j] by {
                assert(m[j].key == entries@[j].0@ && m[j].value == entries@[j].1.deep_view());
            }
            assert(m =~= expected);
        }
        r
    }
}

/// A call to a tool resolved only at runtime.
#[derive(Debug)]
pub struct DynamicToolCall {
    pub tool_call_id: String,
    pub tool_name: String,
    pub input: JSONValue,
    pub dynamic: bool,
    pub invalid: Option<bool>,
    pub error: Option<JSONValue>,
    pub title: Option<String>,
}

/// The mathematical shape of a [`DynamicToolCall`].
#[verifier::ext_equal]
pub ghost struct DynamicToolCallView {
    pub tool_call_id: Seq<char>,
    pub tool_name: Seq<char>,
    pub input: JSONValueView,
    pub dynamic: bool,
    pub invalid: Option<bool>,
    pub error: Option<JSONValueView>,
    pub title: Option<Seq<char>>,
}

impl DeepView for DynamicToolCall {
    type V = DynamicToolCallView;

    open spec fn deep_view(&self) -> DynamicToolCallView {
        DynamicToolCallView {
            tool_call_id: self.tool_call_id@,
            tool_name: self.tool_name@,
            input: self.input.deep_view(),
            dynamic: self.dynamic,
            invalid: self.invalid,
            error: match self.error {
                Some(e) => Some(e.deep_view()),
                None => None,
            },
            title: match self.title {
                Some(t) => Some(t@),
                None => None,
            },
        }
    }
}

impl Clone for DynamicToolCall {
    /// Cloning keeps every field.
    fn clone(&self) -> (res: DynamicToolCall)
        ensures
            res.deep_view() == self.deep_view(),
    {
        DynamicToolCall {
            tool_call_id: self.tool_call_id.clone(),
            tool_name: self.tool_name.clone(),
            input: self.input.clone(),
            dynamic: self.dynamic,
            invalid: self.invalid,
            error: match &self.error {
                Some(e) => Some(e.clone()),
                None => None,
            },
            title: match &self.title {
                Some(t) => Some(t.clone()),
                None => None,
            },
        }
    }
}

/// The tagged union over static and dynamic tool calls.
#[derive(Debug)]
pub enum TypedToolCall {
    Static(StaticToolCall),
    Dynamic(DynamicToolCall),
}

/// The mathematical shape of a [`TypedToolCall`].
#[verifier::ext_equal]
pub enum TypedToolCallView {
    Static(StaticToolCallView),
    Dynamic(DynamicToolCallView),
}

impl DeepView for TypedToolCall {
    type V = TypedToolCallView;

    open spec fn deep_view(&self) -> TypedToolCallView {
        match self {
            TypedToolCall::Static(c) => TypedToolCallView::Static(c.deep_view()),
            TypedToolCall::Dynamic(c) => TypedToolCallView::Dynamic(c.deep_view()),
        }
    }
}

impl Clone for TypedToolCall {
    /// Cloning keeps the variant and every field.
    fn clone(&self) -> (res: TypedToolCall)
        ensures
            res.deep_view() == self.deep_view(),
    {
        match self {
            TypedToolCall::Static(c) => TypedToolCall::Static(c.clone()),
            TypedToolCall::Dynamic(c) => TypedToolCall::Dynamic(c.clone()),
        }
    }
}

impl TypedToolCall {
    /// The tool name, whichever variant holds it.
    pub fn tool_name(&self) -> (r: &String)
        ensures
            r@ == self.spec_tool_name(),
    {
        match self {
            TypedToolCall::Static(c) => &c.tool_name,
            TypedToolCall::Dynamic(c) => &c.tool_name,
        }
    }

    pub open spec fn spec_tool_name(&self) -> Seq<char> {
        match self {
            TypedToolCall::Static(c) => c.tool_name@,
            TypedToolCall::Dynamic(c) => c.tool_name@,
        }
    }

    /// The call identifier, whichever variant holds it.
    pub fn tool_call_id(&self) -> (r: &String)
        ensures
            r@ == self.spec_tool_call_id(),
    {
        match self {
            TypedToolCall::Static(c) => &c.tool_call_id,
            TypedToolCall::Dynamic(c) => &c.tool_call_id,
        }
    }

    pub open spec fn spec_tool_call_id(&self) -> Seq<char> {
        match self {
            TypedToolCall::Static(c) => c.tool_call_id@,
            TypedToolCall::Dynamic(c) => c.tool_call_id@,
        }
    }

    /// The opaque input, whichever variant holds it.
    pub fn input(&self) -> (r: &JSONValue)
        ensures
            r.deep_view() == self.spec_input(),
    {
        match self {
            TypedToolCall::Static(c) => &c.input,
            TypedToolCall::Dynamic(c) => &c.input,
        }
    }

    pub open spec fn spec_input(&self) -> JSONValueView {
        match self {
            TypedToolCall::Static(c) => c.input.deep_view(),
            TypedToolCall::Dynamic(c) => c.input.deep_view(),
        }
    }

    /// Whether the call is to a dynamically resolved tool.
    pub fn is_dynamic(&self) -> (r: bool)
        ensures
            r == self.spec_is_dynamic(),
    {
        matches!(self, TypedToolCall::Dynamic(_))
    }

    pub open spec fn spec_is_dynamic(&self) -> bool {
        self matches TypedToolCall::Dynamic(_)
    }
}

} // verus!
