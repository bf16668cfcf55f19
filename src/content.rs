//! Turns of a conversation: who spoke, and the ordered parts they carry.

use vstd::prelude::*;

verus! {

/// Who produced a turn.
#[derive(Debug, Clone, Copy, PartialEq, Eq, Structural)]
pub enum AgentRole {
    User,
    Model,
}

/// A call that the model asks the orchestrator to dispatch to a tool.
/// `args` is opaque here: only the matching tool reads it.
#[derive(Debug)]
pub struct FunctionCall {
    pub name: String,
    pub args: serde_json::Value,
}

impl Clone for FunctionCall {
    fn clone(&self) -> (r: Self)
        ensures
            r == *self,
    {
        FunctionCall { name: self.name.clone(), args: self.args.clone() }
    }
}


/// One payload of a turn: a text, a function call, or (rarely) neither.
#[derive(Debug)]
pub struct Part {
    pub text: Option<String>,
    pub function_call: Option<FunctionCall>,
}

/// What a part says: its text as characters, and its call as it is.
pub struct PartView {
    pub text: Option<Seq<char>>,
    pub call: Option<FunctionCall>,
}

impl View for Part {
    type V = PartView;

    open spec fn view(&self) -> PartView {
        PartView {
            text: match self.text {
                Some(t) => Some(t@),
                None => None,
            },
            call: self.function_call,
        }
    }
}

impl Clone for Part {
    fn clone(&self) -> (r: Self)
        ensures
            r == *self,
    {
        let text = match &self.text {
            Some(t) => Some(t.clone()),
            None => None,
        };
        let function_call = match &self.function_call {
            Some(c) => Some(c.clone()),
            None => None,
        };
        Part { text, function_call }
    }
}

impl Part {
    /// A text-only part.
    pub fn new(text: &str) -> (r: Part)
        ensures
            r@ == text_part(text@),
    {
        Part { text: Some(text.to_string()), function_call: None }
    }

    /// A text-only part that takes ownership of its text.
    pub fn from_text(text: String) -> (r: Part)
        ensures
            r@ == text_part(text@),
    {
        Part { text: Some(text), function_call: None }
    }

    /// A part that carries a single function call.
    pub fn from_call(call: FunctionCall) -> (r: Part)
        ensures
            r@ == call_part(call),
    {
        Part { text: None, function_call: Some(call) }
    }
}

/// One turn of the conversation.
#[derive(Debug)]
pub struct Content {
    pub parts: Vec<Part>,
    pub role: AgentRole,
}

/// What a turn says: its role and the views of its parts, in order.
pub struct ContentView {
    pub role: AgentRole,
    pub parts: Seq<PartView>,
}

impl View for Content {
    type V = ContentView;

    open spec fn view(&self) -> ContentView {
        ContentView { role: self.role, parts: parts_view(self.parts@) }
    }
}

pub open spec fn parts_view(parts: Seq<Part>) -> Seq<PartView> {
    parts.map_values(|p: Part| p@)
}

/// The views of a sequence of turns.
pub open spec fn contents_view(contents: Seq<Content>) -> Seq<ContentView> {
    contents.map_values(|c: Content| c@)
}

pub open spec fn text_part(text: Seq<char>) -> PartView {
    PartView { text: Some(text), call: None }
}

pub open spec fn call_part(call: FunctionCall) -> PartView {
    PartView { text: None, call: Some(call) }
}

/// A turn made of a single text part.
pub open spec fn text_turn(role: AgentRole, text: Seq<char>) -> ContentView {
    ContentView { role, parts: seq![text_part(text)] }
}

impl Clone for Content {
    fn clone(&self) -> (r: Self)
        ensures
            r@ == self@,
    {
        let parts = self.parts.clone();
        assert(parts@ =~= self.parts@);
        Content { parts, role: self.role }
    }
}

impl Content {
    pub fn new(parts: Vec<Part>, role: AgentRole) -> (r: Content)
        ensures
            r@ == (ContentView { role, parts: parts_view(parts@) }),
    {
        Content { parts, role }
    }

    /// A turn holding the single text `text`.
    pub fn from_text(text: String, role: AgentRole) -> (r: Content)
        ensures
            r@ == text_turn(role, text@),
    {
        let mut parts: Vec<Part> = Vec::new();
        parts.push(Part::from_text(text));
        let r = Content { parts, role };
        assert(r@.parts =~= seq![text_part(text@)]);
        r
    }
}

} // verus!
