//! The conversation state machine.
//!
//! A conversation begins in `Start`; the first inbound message moves it to
//! `Prompt`, which it never leaves. Each transition is a pure function from
//! state and event to the next state and the effects to perform, so the
//! transport around the library only delivers text and reports back what the
//! completion service answered.

use vstd::prelude::*;
use vstd::string::StringExecFns;

use crate::completion::CompletionError;
use crate::messages::{APIMessage, MessageView, Options, Role, copy_history, history_view};
use crate::sanitize::{sanitize, spec_sanitize};

verus! {

/// The per-conversation state: fresh, or holding the model identifier and
/// the history gathered so far.
#[derive(Clone, Debug)]
pub enum State {
    Start,
    Prompt { model: String, messages: Vec<APIMessage> },
}

impl Default for State {
    /// A fresh conversation starts in `Start`.
    fn default() -> (r: Self)
        ensures
            r is Start,
    {
        State::Start
    }
}

/// The inbound event carried no text to forward; the event is dropped
/// without any state change or outbound call.
#[derive(Clone, Copy, Debug, PartialEq, Eq, Structural)]
pub struct EmptyInputError;

/// What a completed request/response attempt asks the caller to do: try the
/// request once more, or deliver the sanitized reply and keep the new state.
#[derive(Clone, Debug)]
pub enum CycleOutcome {
    Retry,
    Deliver { reply: String, state: State },
}

/// A well-formed history: it opens with exactly one `system` message.
pub open spec fn history_wf(h: Seq<MessageView>) -> bool {
    &&& h.len() >= 1
    &&& h[0].role == Role::System
    &&& forall|i: int| 1 <= i < h.len() ==> h[i].role != Role::System
}

/// A well-formed state: `Prompt` always holds a well-formed history.
pub open spec fn state_wf(s: State) -> bool {
    match s {
        State::Start => true,
        State::Prompt { model: _, messages } => history_wf(history_view(messages@)),
    }
}

/// The greeting a new conversation is answered with.
pub open spec fn spec_greeting() -> Seq<char> {
    "Hi, I'm Zac. What can I help you with?"@
}

/// The persona text seeded as the one `system` message of every history.
pub open spec fn spec_persona() -> Seq<char> {
    "Your name is Zachary Tan and you are a computer science student tasked with answering programming-related questions. You answer questions in a very rude tone."@
}

/// The fixed identifier of the completion model.
pub open spec fn spec_model_id() -> Seq<char> {
    "gpt-3.5-turbo"@
}

/// The seeded history: the one `system` message carrying the persona.
pub open spec fn initial_history() -> Seq<MessageView> {
    seq![MessageView { role: Role::System, content: spec_persona() }]
}

/// A history extended by one `user` message with the given text.
pub open spec fn with_user(h: Seq<MessageView>, t: Seq<char>) -> Seq<MessageView> {
    h.push(MessageView { role: Role::User, content: t })
}

/// A history extended by one `assistant` message with the given text.
pub open spec fn with_assistant(h: Seq<MessageView>, c: Seq<char>) -> Seq<MessageView> {
    h.push(MessageView { role: Role::Assistant, content: c })
}

pub fn greeting() -> (r: &'static str)
    ensures
        r@ == spec_greeting(),
{
    "Hi, I'm Zac. What can I help you with?"
}

pub fn persona() -> (r: &'static str)
    ensures
        r@ == spec_persona(),
{
    "Your name is Zachary Tan and you are a computer science student tasked with answering programming-related questions. You answer questions in a very rude tone."
}

pub fn model_id() -> (r: &'static str)
    ensures
        r@ == spec_model_id(),
{
    "gpt-3.5-turbo"
}

/// The `Start` transition: any inbound message moves the conversation to
/// `Prompt` with the seeded one-message history, and the greeting is handed
/// back to be sent exactly once.
pub fn start() -> (r: (State, String))
    ensures
        r.0 matches State::Prompt { model, messages } && model@ == spec_model_id()
            && history_view(messages@) == initial_history(),
        state_wf(r.0),
        r.1@ == spec_greeting(),
{
    let mut messages: Vec<APIMessage> = Vec::new();
    messages.push(APIMessage { role: Role::System, content: String::from_str(persona()) });
    proof {
        assert(history_view(messages@) =~= initial_history());
    }
    (
        State::Prompt { model: String::from_str(model_id()), messages },
        String::from_str(greeting()),
    )
}

/// The first half of a `Prompt` transition: reject an event with no text,
/// else build the completion request from a working copy of the history with
/// the user's message appended once.
pub fn begin_prompt(model: &str, messages: &Vec<APIMessage>, text: Option<&str>) -> (r: Result<
    Options,
    EmptyInputError,
>)
    ensures
        r is Ok <==> text is Some,
        text is None ==> r == Err::<Options, _>(EmptyInputError),
        r matches Ok(o) ==> o.model@ == model@ && history_view(o.messages@) == with_user(
            history_view(messages@),
            text.unwrap()@,
        ),
        history_wf(history_view(messages@)) ==> (r matches Ok(o) ==> history_wf(
            history_view(o.messages@),
        )),
{
    match text {
        None => Err(EmptyInputError),
        Some(t) => {
            let mut working = copy_history(messages);
            working.push(APIMessage { role: Role::User, content: String::from_str(t) });
            proof {
                assert(history_view(working@) =~= with_user(history_view(messages@), t@));
            }
            Ok(Options { model: String::from_str(model), messages: working })
        },
    }
}

/// The second half of a `Prompt` transition: a failed completion asks for a
/// retry with the same request, so no message is ever appended twice; a
/// successful one yields the sanitized reply for delivery and the new
/// `Prompt` state, whose history ends with the unsanitized reply as the one
/// new `assistant` message.
pub fn finish_prompt(options: Options, result: Result<String, CompletionError>) -> (r:
    CycleOutcome)
    ensures
        result is Err ==> r is Retry,
        result matches Ok(c) ==> (r matches CycleOutcome::Deliver { reply, state }
            && reply@ == spec_sanitize(c@) && (state matches State::Prompt { model, messages }
            && model@ == options.model@ && history_view(messages@) == with_assistant(
            history_view(options.messages@),
            c@,
        ))),
        history_wf(history_view(options.messages@)) ==> (r matches CycleOutcome::Deliver {
            reply: _,
            state,
        } ==> state_wf(state)),
{
    match result {
        Err(_) => CycleOutcome::Retry,
        Ok(c) => {
            let reply = sanitize(c.as_str());
            let Options { model, mut messages } = options;
            messages.push(APIMessage { role: Role::Assistant, content: c });
            proof {
                assert(history_view(messages@) =~= with_assistant(
                    history_view(options.messages@),
                    c@,
                ));
            }
            CycleOutcome::Deliver { reply, state: State::Prompt { model, messages } }
        },
    }
}

/// Law: one successful completion cycle grows a history by exactly two
/// entries — a `user` message with the inbound text, then an `assistant`
/// message with the reply, in that order — and keeps every earlier entry
/// unchanged.
pub proof fn lemma_cycle_appends_two(h: Seq<MessageView>, t: Seq<char>, c: Seq<char>)
    ensures
        with_assistant(with_user(h, t), c).len() == h.len() + 2,
        with_assistant(with_user(h, t), c)[h.len() as int] == (MessageView {
            role: Role::User,
            content: t,
        }),
        with_assistant(with_user(h, t), c)[h.len() as int + 1] == (MessageView {
            role: Role::Assistant,
            content: c,
        }),
        with_assistant(with_user(h, t), c).take(h.len() as int) == h,
{
    assert(with_assistant(with_user(h, t), c).take(h.len() as int) =~= h);
}

} // verus!
