use termline::{
    assemble, classify_input, classify_trimmed, ChatRequest, ConversationStore, ErrorKind,
    InputAction, ReplLoop, ReplState, Role, Step, StreamEvent, TurnOutcome,
};

fn delta(t: &str) -> StreamEvent {
    StreamEvent::Delta(t.to_string())
}

fn completed_text(o: &TurnOutcome) -> String {
    match o {
        TurnOutcome::Completed(m) => {
            assert_eq!(m.role, Role::Assistant);
            m.content.clone()
        }
        TurnOutcome::Failed { .. } => panic!("turn failed"),
    }
}

fn increment(s: Step) -> String {
    match s {
        Step::Increment(t) => t,
        Step::Done(_) => panic!("stream stopped"),
    }
}

#[test]
fn deltas_then_end_concatenate_in_order() {
    let events = vec![delta("con"), delta("cat"), delta(""), delta("enation"), StreamEvent::End];
    let a = assemble(&events);
    assert_eq!(completed_text(&a.outcome), "concatenation");
    assert_eq!(a.increments, vec!["con", "cat", "", "enation"]);
}

#[test]
fn end_alone_completes_with_empty_text() {
    let a = assemble(&vec![StreamEvent::End]);
    assert_eq!(completed_text(&a.outcome), "");
    assert!(a.increments.is_empty());
}

#[test]
fn events_after_end_are_not_read() {
    let events = vec![delta("a"), StreamEvent::End, delta("b")];
    let a = assemble(&events);
    assert_eq!(completed_text(&a.outcome), "a");
    assert_eq!(a.increments.len(), 1);
}

#[test]
fn stream_without_terminator_fails_as_transport() {
    let a = assemble(&vec![delta("half")]);
    match a.outcome {
        TurnOutcome::Failed { kind, partial, .. } => {
            assert_eq!(kind, ErrorKind::Transport);
            assert_eq!(partial, "half");
        }
        TurnOutcome::Completed(_) => panic!("should fail"),
    }
}

#[test]
fn error_turn_adds_only_the_user_message() {
    let mut store = ConversationStore::new("sys".to_string());
    let before = store.len();
    let events = vec![delta("a"), delta("b"), StreamEvent::Error(ErrorKind::Transport, "reset".to_string())];
    let a = store.record_turn("q".to_string(), &events);
    assert_eq!(store.len(), before + 1);
    assert_eq!(store.get(before).role, Role::User);
    assert_eq!(store.get(before).content, "q");
    assert!(!a.outcome.is_completed());
}

#[test]
fn completed_turn_adds_user_and_assistant() {
    let mut store = ConversationStore::new("sys".to_string());
    let events = vec![delta("Hi"), delta(" there"), StreamEvent::End];
    let a = store.record_turn("hello".to_string(), &events);
    assert_eq!(store.len(), 3);
    assert_eq!(store.get(2).role, Role::Assistant);
    assert_eq!(store.get(2).content, "Hi there");
    assert_eq!(a.increments, vec!["Hi", " there"]);
}

#[test]
fn exit_commands_end_the_session() {
    for line in ["exit", ":q", "  :q  "] {
        assert!(matches!(classify_input(line), InputAction::Exit), "{line:?}");
    }
    match classify_input("Exit") {
        InputAction::Send(t) => assert_eq!(t, "Exit"),
        other => panic!("unexpected {other:?}"),
    }
    let mut repl = ReplLoop::new("m".to_string(), "sys".to_string());
    assert!(matches!(repl.on_input("  :q  "), InputAction::Exit));
    assert_eq!(repl.state(), ReplState::Exited);
    assert_eq!(repl.store().len(), 1);
}

#[test]
fn wrong_case_exit_is_sent() {
    let mut repl = ReplLoop::new("m".to_string(), "sys".to_string());
    assert!(matches!(repl.on_input("Exit"), InputAction::Send(_)));
    assert_eq!(repl.state(), ReplState::Sending);
    assert_eq!(repl.store().len(), 2);
}

#[test]
fn empty_input_reprompts() {
    let mut repl = ReplLoop::new("m".to_string(), "sys".to_string());
    assert!(matches!(repl.on_input(""), InputAction::Reprompt));
    assert!(matches!(repl.on_input(" \t "), InputAction::Reprompt));
    assert_eq!(repl.state(), ReplState::AwaitingInput);
    assert_eq!(repl.store().len(), 1);
}

#[test]
fn input_is_sent_trimmed() {
    match classify_input("  hello world \n") {
        InputAction::Send(t) => assert_eq!(t, "hello world"),
        other => panic!("unexpected {other:?}"),
    }
    assert!(matches!(classify_trimmed(""), InputAction::Reprompt));
    assert!(matches!(classify_trimmed("exit"), InputAction::Exit));
    match classify_trimmed(" exit") {
        InputAction::Send(t) => assert_eq!(t, " exit"),
        other => panic!("unexpected {other:?}"),
    }
}

#[test]
fn hello_turn_renders_and_records_reply() {
    let mut repl = ReplLoop::new("gpt-5".to_string(), "sys".to_string());
    assert!(matches!(repl.on_input("hello"), InputAction::Send(_)));
    let req = repl.begin_request();
    assert_eq!(req.messages.len(), 2);
    assert_eq!(req.messages[1].content, "hello");
    assert_eq!(repl.state(), ReplState::Streaming);
    let shown = vec![increment(repl.on_event(delta("Hi"))), increment(repl.on_event(delta(" there")))];
    assert_eq!(shown, vec!["Hi", " there"]);
    match repl.on_event(StreamEvent::End) {
        Step::Done(o) => assert_eq!(completed_text(&o), "Hi there"),
        Step::Increment(_) => panic!("expected the end"),
    }
    assert_eq!(repl.state(), ReplState::Appending);
    let store = repl.store();
    assert_eq!(store.len(), 3);
    assert_eq!(store.get(1).role, Role::User);
    assert_eq!(store.get(1).content, "hello");
    assert_eq!(store.get(2).role, Role::Assistant);
    assert_eq!(store.get(2).content, "Hi there");
    repl.resume();
    assert_eq!(repl.state(), ReplState::AwaitingInput);
}

#[test]
fn protocol_error_discards_partial_reply() {
    let mut repl = ReplLoop::new("gpt-5".to_string(), "sys".to_string());
    repl.on_input("hi");
    repl.begin_request();
    assert_eq!(increment(repl.on_event(delta("Par"))), "Par");
    let step = repl.on_event(StreamEvent::Error(ErrorKind::Protocol, "{bad".to_string()));
    match step {
        Step::Done(TurnOutcome::Failed { kind, detail, partial }) => {
            assert_eq!(kind, ErrorKind::Protocol);
            assert_eq!(detail, "{bad");
            assert_eq!(partial, "Par");
        }
        other => panic!("unexpected {other:?}"),
    }
    assert_eq!(repl.state(), ReplState::Reporting);
    let store = repl.store();
    assert_eq!(store.len(), 2);
    assert_eq!(store.get(1).role, Role::User);
    assert_eq!(store.get(1).content, "hi");
}

#[test]
fn cancel_discards_partial_reply() {
    let mut repl = ReplLoop::new("gpt-5".to_string(), "sys".to_string());
    repl.on_input("question");
    repl.begin_request();
    repl.on_event(delta("some"));
    match repl.cancel() {
        Step::Done(TurnOutcome::Failed { kind, partial, .. }) => {
            assert_eq!(kind, ErrorKind::Cancelled);
            assert_eq!(partial, "some");
        }
        other => panic!("unexpected {other:?}"),
    }
    assert_eq!(repl.state(), ReplState::Reporting);
    assert_eq!(repl.store().len(), 2);
    repl.resume();
    assert!(matches!(repl.on_input("again"), InputAction::Send(_)));
    let req = repl.begin_request();
    assert_eq!(req.messages.len(), 3);
    assert_eq!(req.messages[2].content, "again");
}

#[test]
fn second_turn_starts_with_empty_text() {
    let mut repl = ReplLoop::new("m".to_string(), "sys".to_string());
    repl.on_input("one");
    repl.begin_request();
    repl.on_event(delta("first"));
    repl.on_event(StreamEvent::End);
    repl.resume();
    repl.on_input("two");
    let req = repl.begin_request();
    assert_eq!(req.messages.len(), 4);
    repl.on_event(delta("second"));
    match repl.on_event(StreamEvent::End) {
        Step::Done(o) => assert_eq!(completed_text(&o), "second"),
        Step::Increment(_) => panic!("expected the end"),
    }
    assert_eq!(repl.store().get(4).content, "second");
}

#[test]
fn request_bodies_from_unchanged_store_are_identical() {
    let mut store = ConversationStore::new("sys".to_string());
    store.push_turn(Role::User, "hello".to_string());
    let model = "gpt-5".to_string();
    let first = ChatRequest::from_store(&model, &store).to_body();
    let second = ChatRequest::from_store(&model, &store).to_body();
    assert_eq!(first, second);
}
