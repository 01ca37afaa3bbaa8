use vstd::prelude::*;
use crate::message::{Message, Role};
use crate::stream::{
    assemble, assembled, events_view, is_delta, lemma_error_fails_turn,
    stop_index, delta_text, Assembly, EventView, OutcomeView, StreamEvent, TurnOutcome,
};

verus! {

/// The ordered history of a conversation. Its first message is the system
/// prompt, fixed once; every later message is a user or assistant turn.
pub struct ConversationStore {
    messages: Vec<Message>,
}

/// A history whose first entry, and only that one, is the system prompt.
pub open spec fn history_wf(h: Seq<(Role, Seq<char>)>) -> bool {
    &&& h.len() >= 1
    &&& h[0].0 == Role::System
    &&& forall|i: int| 1 <= i < h.len() ==> h[i].0 != Role::System
}

/// The history after one turn: the user's message, then the assistant's
/// message only when the stream completed it.
pub open spec fn after_turn(
    h: Seq<(Role, Seq<char>)>,
    user: Seq<char>,
    evs: Seq<EventView>,
) -> Seq<(Role, Seq<char>)> {
    let with_user = h.push((Role::User, user));
    match assembled(evs) {
        OutcomeView::Completed(role, text) => with_user.push((role, text)),
        OutcomeView::Failed(..) => with_user,
    }
}

/// A turn whose stream ends in an error after some deltas adds the user's
/// message to the history and nothing else.
pub proof fn lemma_error_turn_adds_user_only(
    h: Seq<(Role, Seq<char>)>,
    user: Seq<char>,
    evs: Seq<EventView>,
)
    requires
        evs.len() >= 1,
        forall|j: int| 0 <= j < evs.len() - 1 ==> is_delta(#[trigger] evs[j]),
        evs.last() is Error,
    ensures
        after_turn(h, user, evs) == h.push((Role::User, user)),
        after_turn(h, user, evs).len() == h.len() + 1,
{
    lemma_error_fails_turn(evs);
}

impl View for ConversationStore {
    type V = Seq<(Role, Seq<char>)>;

    closed spec fn view(&self) -> Seq<(Role, Seq<char>)> {
        self.messages@.map_values(|m: Message| m@)
    }
}

impl ConversationStore {
    pub open spec fn wf(&self) -> bool {
        history_wf(self@)
    }

    /// A history that holds the system prompt alone.
    pub fn new(system_prompt: String) -> (r: ConversationStore)
        ensures
            r.wf(),
            r@ == seq![(Role::System, system_prompt@)],
    {
        let mut messages: Vec<Message> = Vec::new();
        messages.push(Message::new(Role::System, system_prompt));
        let r = ConversationStore { messages };
        assert(r@ =~= seq![(Role::System, system_prompt@)]);
        r
    }

    pub fn len(&self) -> (r: usize)
        ensures
            r == self@.len(),
    {
        self.messages.len()
    }

    pub fn get(&self, i: usize) -> (r: &Message)
        requires
            i < self@.len(),
        ensures
            r@ == self@[i as int],
    {
        &self.messages[i]
    }

    /// Appends a turn of the user or of the assistant at the end.
    pub fn push_turn(&mut self, role: Role, content: String)
        requires
            old(self).wf(),
            role != Role::System,
            old(self)@.len() < usize::MAX,
        ensures
            final(self).wf(),
            final(self)@ == old(self)@.push((role, content@)),
    {
        self.messages.push(Message::new(role, content));
        assert(self@ =~= old(self)@.push((role, content@)));
    }

    /// One turn: appends the user's message, reads the stream, and appends
    /// the assistant's message only when the stream completed it.
    pub fn record_turn(&mut self, user: String, events: &Vec<StreamEvent>) -> (r: Assembly)
        requires
            old(self).wf(),
            old(self)@.len() + 2 < usize::MAX,
        ensures
            final(self).wf(),
            final(self)@ == after_turn(old(self)@, user@, events_view(events@)),
            r.outcome@ == assembled(events_view(events@)),
            r.increments@.len() == stop_index(events_view(events@)),
            forall|j: int|
                0 <= j < r.increments@.len() ==> #[trigger] r.increments@[j]@ == delta_text(
                    events_view(events@)[j],
                ),
    {
        self.push_turn(Role::User, user);
        let a = assemble(events);
        match &a.outcome {
            TurnOutcome::Completed(m) => {
                self.push_turn(m.role, m.content.clone());
            },
            TurnOutcome::Failed { .. } => {},
        }
        a
    }

    /// A copy of every message, in conversation order.
    pub fn snapshot(&self) -> (r: Vec<Message>)
        ensures
            r@.map_values(|m: Message| m@) == self@,
    {
        let mut out: Vec<Message> = Vec::new();
        let n = self.messages.len();
        for i in 0..n
            invariant
                n == self.messages@.len(),
                out@.len() == i,
                forall|j: int| 0 <= j < i ==> out@[j]@ == self.messages@[j]@,
        {
            out.push(self.messages[i].cloned());
        }
        assert(out@.map_values(|m: Message| m@) =~= self@);
        out
    }
}

} // verus!
