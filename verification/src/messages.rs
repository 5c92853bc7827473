use vstd::prelude::*;
use vstd::string::StringExecFns;

verus! {

/// Who authored a message of the conversation history.
#[derive(Clone, Copy, Debug, PartialEq, Eq, Structural)]
pub enum Role {
    System,
    User,
    Assistant,
}

/// One entry of a conversation history: a role together with its text.
#[derive(Clone, Debug)]
pub struct APIMessage {
    pub role: Role,
    pub content: String,
}

/// Mathematical model of a message: its role and its character sequence.
pub struct MessageView {
    pub role: Role,
    pub content: Seq<char>,
}

impl View for APIMessage {
    type V = MessageView;

    open spec fn view(&self) -> MessageView {
        MessageView { role: self.role, content: self.content@ }
    }
}

/// The model identifier together with the message history that one
/// completion request carries.
#[derive(Clone, Debug)]
pub struct Options {
    pub model: String,
    pub messages: Vec<APIMessage>,
}

/// The history that a vector of messages stands for.
pub open spec fn history_view(ms: Seq<APIMessage>) -> Seq<MessageView> {
    ms.map(|i: int, m: APIMessage| m@)
}

impl APIMessage {
    /// An equal copy of the message.
    pub fn duplicate(&self) -> (r: APIMessage)
        ensures
            r@ == self@,
    {
        APIMessage { role: self.role, content: String::from_str(self.content.as_str()) }
    }
}

/// An equal copy of a history vector, entry by entry.
pub fn copy_history(ms: &Vec<APIMessage>) -> (r: Vec<APIMessage>)
    ensures
        r@.len() == ms@.len(),
        history_view(r@) == history_view(ms@),
{
    let mut out: Vec<APIMessage> = Vec::new();
    let mut i: usize = 0;
    while i < ms.len()
        invariant
            i <= ms@.len(),
            out@.len() == i,
            forall|j: int| 0 <= j < i ==> out@[j]@ == ms@[j]@,
        decreases ms@.len() - i,
    {
        out.push(ms[i].duplicate());
        i += 1;
    }
    proof {
        assert(history_view(out@) =~= history_view(ms@));
    }
    out
}

} // verus!
