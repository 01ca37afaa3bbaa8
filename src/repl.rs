use vstd::prelude::*;
use crate::message::Role;
use crate::request::{request_of, ChatRequest};
use crate::store::ConversationStore;
use crate::stream::{AssemblyState, ErrorKind, EventView, OutcomeView, Step, StreamEvent};

verus! {

/// A text without its leading and trailing white space, as `str::trim` gives it.
pub uninterp spec fn trim_of(s: Seq<char>) -> Seq<char>;

/// Relies on str::trim: the text without leading and trailing white space.
/// An empty text stays empty.
#[verifier::external_body]
fn trimmed(s: &str) -> (r: &str)
    ensures
        r@ == trim_of(s@),
        s@.len() == 0 ==> r@.len() == 0,
{
    s.trim()
}

/// The commands that end the session, matched exactly and case by case.
pub open spec fn is_exit_command(t: Seq<char>) -> bool {
    t == "exit"@ || t == ":q"@
}

/// What a line of user input asks for.
#[derive(Debug)]
pub enum InputAction {
    /// Leave the session.
    Exit,
    /// Nothing was typed: ask again.
    Reprompt,
    /// Send this text as the user's message.
    Send(String),
}

pub enum InputView {
    Exit,
    Reprompt,
    Send(Seq<char>),
}

impl View for InputAction {
    type V = InputView;

    open spec fn view(&self) -> InputView {
        match self {
            InputAction::Exit => InputView::Exit,
            InputAction::Reprompt => InputView::Reprompt,
            InputAction::Send(t) => InputView::Send(t@),
        }
    }
}

/// The action for an already trimmed line.
pub open spec fn input_action_of(t: Seq<char>) -> InputView {
    if is_exit_command(t) {
        InputView::Exit
    } else if t.len() == 0 {
        InputView::Reprompt
    } else {
        InputView::Send(t)
    }
}

/// The action for a line whose surrounding white space is already removed.
pub fn classify_trimmed(t: &str) -> (r: InputAction)
    ensures
        r@ == input_action_of(t@),
{
    proof {
        reveal_strlit("exit");
        reveal_strlit(":q");
    }
    let owned = t.to_owned();
    if owned == "exit".to_owned() || owned == ":q".to_owned() {
        InputAction::Exit
    } else if t.is_empty() {
        InputAction::Reprompt
    } else {
        InputAction::Send(owned)
    }
}

/// The action for a line as typed: exit commands and emptiness are judged
/// after trimming, and the trimmed text is what is sent.
pub fn classify_input(line: &str) -> (r: InputAction)
    ensures
        r@ == input_action_of(trim_of(line@)),
{
    classify_trimmed(trimmed(line))
}

/// Where the session stands.
#[derive(Clone, Copy, Debug, PartialEq, Eq, Structural)]
pub enum ReplState {
    AwaitingInput,
    Sending,
    Streaming,
    /// The assistant's message was recorded.
    Appending,
    /// The turn failed or was cancelled; nothing of the assistant was recorded.
    Reporting,
    Exited,
}

/// The session: the history it owns, the model it asks, where it stands, and
/// the text of the turn in progress.
pub struct ReplLoop {
    store: ConversationStore,
    model: String,
    state: ReplState,
    assembly: AssemblyState,
}

impl ReplLoop {
    pub closed spec fn history(&self) -> Seq<(Role, Seq<char>)> {
        self.store@
    }

    pub closed spec fn model_spec(&self) -> Seq<char> {
        self.model@
    }

    pub closed spec fn state_spec(&self) -> ReplState {
        self.state
    }

    /// The text of the turn in progress.
    pub closed spec fn partial(&self) -> Seq<char> {
        self.assembly@.0
    }

    pub closed spec fn wf(&self) -> bool {
        &&& self.store.wf()
        &&& self.state == ReplState::Streaming ==> !self.assembly@.1
    }

    pub fn new(model: String, system_prompt: String) -> (r: ReplLoop)
        ensures
            r.wf(),
            r.history() == seq![(Role::System, system_prompt@)],
            r.model_spec() == model@,
            r.state_spec() == ReplState::AwaitingInput,
    {
        ReplLoop {
            store: ConversationStore::new(system_prompt),
            model,
            state: ReplState::AwaitingInput,
            assembly: AssemblyState::new(),
        }
    }

    pub fn state(&self) -> (r: ReplState)
        ensures
            r == self.state_spec(),
    {
        self.state
    }

    pub fn store(&self) -> (r: &ConversationStore)
        ensures
            r@ == self.history(),
            self.wf() ==> r.wf(),
    {
        &self.store
    }

    pub fn model(&self) -> (r: &String)
        ensures
            r@ == self.model_spec(),
    {
        &self.model
    }

    /// Takes one line of input. An exit command ends the session; an empty
    /// line changes nothing; any other line is appended as the user's message
    /// and the turn moves on to sending.
    pub fn on_input(&mut self, line: &str) -> (r: InputAction)
        requires
            old(self).wf(),
            old(self).state_spec() == ReplState::AwaitingInput,
            old(self).history().len() + 2 < usize::MAX,
        ensures
            final(self).wf(),
            r@ == input_action_of(trim_of(line@)),
            final(self).model_spec() == old(self).model_spec(),
            match r@ {
                InputView::Exit => {
                    &&& final(self).state_spec() == ReplState::Exited
                    &&& final(self).history() == old(self).history()
                },
                InputView::Reprompt => {
                    &&& final(self).state_spec() == ReplState::AwaitingInput
                    &&& final(self).history() == old(self).history()
                },
                InputView::Send(t) => {
                    &&& final(self).state_spec() == ReplState::Sending
                    &&& final(self).history() == old(self).history().push((Role::User, t))
                },
            },
    {
        let action = classify_input(line);
        match &action {
            InputAction::Exit => {
                self.state = ReplState::Exited;
            },
            InputAction::Reprompt => {},
            InputAction::Send(t) => {
                self.store.push_turn(Role::User, t.clone());
                self.state = ReplState::Sending;
            },
        }
        action
    }

    /// Builds the turn's request from the whole history and starts streaming,
    /// with no text received yet.
    pub fn begin_request(&mut self) -> (r: ChatRequest)
        requires
            old(self).wf(),
            old(self).state_spec() == ReplState::Sending,
        ensures
            final(self).wf(),
            r@ == request_of(old(self).model_spec(), old(self).history()),
            final(self).state_spec() == ReplState::Streaming,
            final(self).history() == old(self).history(),
            final(self).model_spec() == old(self).model_spec(),
            final(self).partial() == Seq::<char>::empty(),
    {
        let r = ChatRequest::from_store(&self.model, &self.store);
        self.assembly = AssemblyState::new();
        self.state = ReplState::Streaming;
        r
    }

    /// Takes one event of the stream. A delta is shown and kept; an end
    /// records the assistant's message; an error records nothing and hands
    /// the text so far back only as partial text.
    pub fn on_event(&mut self, ev: StreamEvent) -> (r: Step)
        requires
            old(self).wf(),
            old(self).state_spec() == ReplState::Streaming,
            old(self).history().len() + 1 < usize::MAX,
        ensures
            final(self).wf(),
            final(self).model_spec() == old(self).model_spec(),
            match ev@ {
                EventView::Delta(t) => {
                    &&& r matches Step::Increment(f) && f@ == t
                    &&& final(self).state_spec() == ReplState::Streaming
                    &&& final(self).partial() == old(self).partial() + t
                    &&& final(self).history() == old(self).history()
                },
                EventView::End => {
                    &&& r matches Step::Done(o)
                    &&& o@ == OutcomeView::Completed(Role::Assistant, old(self).partial())
                    &&& final(self).state_spec() == ReplState::Appending
                    &&& final(self).history() == old(self).history().push(
                        (Role::Assistant, old(self).partial()),
                    )
                },
                EventView::Error(k, d) => {
                    &&& r matches Step::Done(o)
                    &&& o@ == OutcomeView::Failed(k, d, old(self).partial())
                    &&& final(self).state_spec() == ReplState::Reporting
                    &&& final(self).history() == old(self).history()
                },
            },
    {
        let step = self.assembly.feed(ev);
        match &step {
            Step::Increment(_) => {},
            Step::Done(o) => {
                if o.is_completed() {
                    let content = self.assembly.accumulated().clone();
                    self.store.push_turn(Role::Assistant, content);
                    self.state = ReplState::Appending;
                } else {
                    self.state = ReplState::Reporting;
                }
            },
        }
        step
    }

    /// The user interrupted the turn: it fails as cancelled, and the text so
    /// far is discarded from the history.
    pub fn cancel(&mut self) -> (r: Step)
        requires
            old(self).wf(),
            old(self).state_spec() == ReplState::Streaming,
            old(self).history().len() + 1 < usize::MAX,
        ensures
            final(self).wf(),
            r matches Step::Done(o),
            r->Done_0@ == OutcomeView::Failed(ErrorKind::Cancelled, Seq::empty(), old(self).partial()),
            final(self).state_spec() == ReplState::Reporting,
            final(self).history() == old(self).history(),
            final(self).model_spec() == old(self).model_spec(),
    {
        self.on_event(StreamEvent::Error(ErrorKind::Cancelled, String::new()))
    }

    /// After a recorded or reported turn, waits for input again.
    pub fn resume(&mut self)
        requires
            old(self).wf(),
            old(self).state_spec() == ReplState::Appending || old(self).state_spec()
                == ReplState::Reporting,
        ensures
            final(self).wf(),
            final(self).state_spec() == ReplState::AwaitingInput,
            final(self).history() == old(self).history(),
            final(self).model_spec() == old(self).model_spec(),
    {
        self.state = ReplState::AwaitingInput;
    }
}

} // verus!
