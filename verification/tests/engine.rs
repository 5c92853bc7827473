use dialogue_bot::completion::CompletionError;
use dialogue_bot::engine::{begin_prompt, finish_prompt, start, CycleOutcome, State};
use dialogue_bot::messages::{APIMessage, Role};

const PERSONA: &str = "Your name is Zachary Tan and you are a computer science student tasked with answering programming-related questions. You answer questions in a very rude tone.";

#[test]
fn fresh_conversation_starts_in_start() {
    let state = State::default();
    assert!(matches!(state, State::Start));
}

#[test]
fn start_seeds_history_and_greets_once() {
    let (state, greeting) = start();
    assert_eq!(greeting, "Hi, I'm Zac. What can I help you with?");
    match state {
        State::Prompt { model, messages } => {
            assert_eq!(model, "gpt-3.5-turbo");
            assert_eq!(messages.len(), 1);
            assert_eq!(messages[0].role, Role::System);
            assert_eq!(messages[0].content, PERSONA);
        }
        State::Start => panic!("expected the Prompt state"),
    }
}

#[test]
fn successful_cycle_appends_user_then_assistant() {
    let (state, _greeting) = start();
    let (model, messages) = match state {
        State::Prompt { model, messages } => (model, messages),
        State::Start => panic!("expected the Prompt state"),
    };
    let options = begin_prompt(&model, &messages, Some("What is Rust?")).unwrap();
    assert_eq!(options.model, "gpt-3.5-turbo");
    assert_eq!(options.messages.len(), 2);
    assert_eq!(options.messages[0].role, Role::System);
    assert_eq!(options.messages[1].role, Role::User);
    assert_eq!(options.messages[1].content, "What is Rust?");

    match finish_prompt(options, Ok(String::from("Rust is a language."))) {
        CycleOutcome::Deliver { reply, state } => {
            assert_eq!(reply, "Rust is a language\\.");
            match state {
                State::Prompt { model, messages } => {
                    assert_eq!(model, "gpt-3.5-turbo");
                    assert_eq!(messages.len(), 3);
                    assert_eq!(messages[1].role, Role::User);
                    assert_eq!(messages[1].content, "What is Rust?");
                    assert_eq!(messages[2].role, Role::Assistant);
                    assert_eq!(messages[2].content, "Rust is a language.");
                }
                State::Start => panic!("expected the Prompt state"),
            }
        }
        CycleOutcome::Retry => panic!("expected delivery"),
    }
}

#[test]
fn two_failures_then_success_retries_twice_and_appends_user_once() {
    let (state, _greeting) = start();
    let (model, messages) = match state {
        State::Prompt { model, messages } => (model, messages),
        State::Start => panic!("expected the Prompt state"),
    };
    let options = begin_prompt(&model, &messages, Some("hello")).unwrap();

    let mut attempts: usize = 0;
    let mut retries: usize = 0;
    let delivered = loop {
        let result = if attempts < 2 {
            Err(CompletionError::Network)
        } else {
            Ok(String::from("done"))
        };
        attempts += 1;
        match finish_prompt(options.clone(), result) {
            CycleOutcome::Retry => {
                retries += 1;
                continue;
            }
            CycleOutcome::Deliver { reply, state } => break (reply, state),
        }
    };
    assert_eq!(retries, 2);
    assert_eq!(attempts, 3);
    assert_eq!(delivered.0, "done");
    match delivered.1 {
        State::Prompt { model: _, messages } => {
            assert_eq!(messages.len(), 3);
            let user_count = messages.iter().filter(|m| m.role == Role::User).count();
            assert_eq!(user_count, 1);
            assert_eq!(messages[2].content, "done");
        }
        State::Start => panic!("expected the Prompt state"),
    }
}

#[test]
fn remote_and_malformed_failures_also_ask_for_retry() {
    let (state, _greeting) = start();
    let (model, messages) = match state {
        State::Prompt { model, messages } => (model, messages),
        State::Start => panic!("expected the Prompt state"),
    };
    let options = begin_prompt(&model, &messages, Some("hello")).unwrap();
    let remote = finish_prompt(
        options.clone(),
        Err(CompletionError::Remote(String::from("rate limited"))),
    );
    assert!(matches!(remote, CycleOutcome::Retry));
    let malformed = finish_prompt(options, Err(CompletionError::MalformedResponse));
    assert!(matches!(malformed, CycleOutcome::Retry));
}

#[test]
fn empty_input_is_rejected_without_state_change() {
    let messages = vec![APIMessage { role: Role::System, content: String::from(PERSONA) }];
    let r = begin_prompt("gpt-3.5-turbo", &messages, None);
    assert!(r.is_err());
    assert_eq!(messages.len(), 1);
    assert_eq!(messages[0].role, Role::System);
    assert_eq!(messages[0].content, PERSONA);
}
