use vstd::prelude::*;
use crate::message::{Message, Role};

verus! {

/// Why a turn's stream stopped short of its end.
#[derive(Clone, Copy, Debug, PartialEq, Eq, Structural)]
pub enum ErrorKind {
    /// Connection, name resolution or TLS failure.
    Transport,
    /// The credential was rejected.
    Auth,
    /// A frame of the stream could not be read.
    Protocol,
    /// The user interrupted the turn.
    Cancelled,
}

/// One unit of a response stream.
#[derive(Clone, Debug)]
pub enum StreamEvent {
    Delta(String),
    End,
    Error(ErrorKind, String),
}

/// What a stream event stands for, with its text as a sequence.
pub enum EventView {
    Delta(Seq<char>),
    End,
    Error(ErrorKind, Seq<char>),
}

impl View for StreamEvent {
    type V = EventView;

    open spec fn view(&self) -> EventView {
        match self {
            StreamEvent::Delta(t) => EventView::Delta(t@),
            StreamEvent::End => EventView::End,
            StreamEvent::Error(k, d) => EventView::Error(*k, d@),
        }
    }
}

/// The detail given when a stream closes with neither an end nor an error.
pub open spec fn closed_early_detail() -> Seq<char> {
    "stream closed before its end"@
}

/// How one turn's stream came out: a finished assistant message, or an error
/// with the text that had arrived before it, which is never recorded.
#[derive(Clone, Debug)]
pub enum TurnOutcome {
    Completed(Message),
    Failed { kind: ErrorKind, detail: String, partial: String },
}

pub enum OutcomeView {
    Completed(Role, Seq<char>),
    Failed(ErrorKind, Seq<char>, Seq<char>),
}

impl View for TurnOutcome {
    type V = OutcomeView;

    open spec fn view(&self) -> OutcomeView {
        match self {
            TurnOutcome::Completed(m) => OutcomeView::Completed(m.role, m.content@),
            TurnOutcome::Failed { kind, detail, partial } => OutcomeView::Failed(
                *kind,
                detail@,
                partial@,
            ),
        }
    }
}

impl StreamEvent {
    /// A copy of this event.
    pub fn cloned(&self) -> (r: StreamEvent)
        ensures
            r@ == self@,
    {
        match self {
            StreamEvent::Delta(t) => StreamEvent::Delta(t.clone()),
            StreamEvent::End => StreamEvent::End,
            StreamEvent::Error(k, d) => StreamEvent::Error(*k, d.clone()),
        }
    }
}

/// The view of each event of a sequence.
pub open spec fn events_view(evs: Seq<StreamEvent>) -> Seq<EventView> {
    evs.map_values(|e: StreamEvent| e@)
}

impl TurnOutcome {
    pub fn is_completed(&self) -> (r: bool)
        ensures
            r == (self@ is Completed),
    {
        match self {
            TurnOutcome::Completed(_) => true,
            TurnOutcome::Failed { .. } => false,
        }
    }
}

pub open spec fn is_delta(e: EventView) -> bool {
    e is Delta
}

/// The text an event adds to the message: a delta's text, else nothing.
pub open spec fn delta_text(e: EventView) -> Seq<char> {
    match e {
        EventView::Delta(t) => t,
        _ => Seq::empty(),
    }
}

/// The texts of the first `n` events, joined in order.
pub open spec fn text_before(evs: Seq<EventView>, n: int) -> Seq<char>
    decreases n,
{
    if n <= 0 {
        Seq::empty()
    } else {
        text_before(evs, n - 1) + delta_text(evs[n - 1])
    }
}

/// The texts of all delta events, joined in order.
pub open spec fn delta_concat(evs: Seq<EventView>) -> Seq<char> {
    text_before(evs, evs.len() as int)
}

/// Where a stream stops being read: at its first event that is not a delta,
/// or at its length when there is none.
pub open spec fn stop_index(evs: Seq<EventView>) -> int
    decreases evs.len(),
{
    if evs.len() == 0 {
        0
    } else if !is_delta(evs[0]) {
        0
    } else {
        1 + stop_index(evs.drop_first())
    }
}

/// The outcome of a turn whose stream delivers `evs`: the deltas up to the first
/// other event are joined; an end completes the assistant message with them, an
/// error fails the turn, and a stream that runs out fails it as a transport error.
pub open spec fn assembled(evs: Seq<EventView>) -> OutcomeView {
    let s = stop_index(evs);
    let text = text_before(evs, s);
    if s < evs.len() {
        match evs[s] {
            EventView::Error(k, d) => OutcomeView::Failed(k, d, text),
            _ => OutcomeView::Completed(Role::Assistant, text),
        }
    } else {
        OutcomeView::Failed(ErrorKind::Transport, closed_early_detail(), text)
    }
}

pub proof fn lemma_stop_index_bounds(evs: Seq<EventView>)
    ensures
        0 <= stop_index(evs) <= evs.len(),
        forall|j: int| 0 <= j < stop_index(evs) ==> is_delta(#[trigger] evs[j]),
        stop_index(evs) < evs.len() ==> !is_delta(evs[stop_index(evs)]),
    decreases evs.len(),
{
    if evs.len() > 0 && is_delta(evs[0]) {
        let rest = evs.drop_first();
        lemma_stop_index_bounds(rest);
        assert forall|j: int| 0 <= j < stop_index(evs) implies is_delta(#[trigger] evs[j]) by {
            if j > 0 {
                assert(evs[j] == rest[j - 1]);
            }
        }
        if stop_index(evs) < evs.len() {
            assert(evs[stop_index(evs)] == rest[stop_index(rest)]);
        }
    }
}

/// The stop index is the first non-delta event: any index below which all
/// events are deltas, and at which there is none, is it.
pub proof fn lemma_stop_index_is(evs: Seq<EventView>, i: int)
    requires
        0 <= i <= evs.len(),
        forall|j: int| 0 <= j < i ==> is_delta(#[trigger] evs[j]),
        i < evs.len() ==> !is_delta(evs[i]),
    ensures
        stop_index(evs) == i,
    decreases evs.len(),
{
    if i > 0 {
        let rest = evs.drop_first();
        assert(is_delta(evs[0]));
        assert forall|j: int| 0 <= j < i - 1 implies is_delta(#[trigger] rest[j]) by {
            assert(rest[j] == evs[j + 1]);
        }
        if i - 1 < rest.len() {
            assert(rest[i - 1] == evs[i]);
        }
        lemma_stop_index_is(rest, i - 1);
    }
}

/// For deltas followed by an end, the assistant message is the deltas'
/// texts joined in order.
pub proof fn lemma_concatenation(evs: Seq<EventView>)
    requires
        evs.len() >= 1,
        forall|j: int| 0 <= j < evs.len() - 1 ==> is_delta(#[trigger] evs[j]),
        evs.last() is End,
    ensures
        assembled(evs) == OutcomeView::Completed(Role::Assistant, delta_concat(evs)),
{
    lemma_stop_index_is(evs, evs.len() - 1);
    assert(delta_text(evs.last()) =~= Seq::<char>::empty());
    assert(text_before(evs, evs.len() as int) =~= text_before(evs, evs.len() - 1));
}

/// For deltas followed by an error, the turn fails with that error, and the
/// text that arrived is kept only as the failure's partial text.
pub proof fn lemma_error_fails_turn(evs: Seq<EventView>)
    requires
        evs.len() >= 1,
        forall|j: int| 0 <= j < evs.len() - 1 ==> is_delta(#[trigger] evs[j]),
        evs.last() is Error,
    ensures
        assembled(evs) == OutcomeView::Failed(
            evs.last()->Error_0,
            evs.last()->Error_1,
            delta_concat(evs),
        ),
{
    lemma_stop_index_is(evs, evs.len() - 1);
    assert(text_before(evs, evs.len() as int) =~= text_before(evs, evs.len() - 1));
}

/// The text of one turn as it arrives, and whether its stream has stopped.
pub struct AssemblyState {
    accumulated: String,
    finished: bool,
}

impl View for AssemblyState {
    type V = (Seq<char>, bool);

    closed spec fn view(&self) -> (Seq<char>, bool) {
        (self.accumulated@, self.finished)
    }
}

/// What one event asks of the caller: show a fragment, or take the outcome.
#[derive(Debug)]
pub enum Step {
    Increment(String),
    Done(TurnOutcome),
}

impl AssemblyState {
    pub fn new() -> (r: AssemblyState)
        ensures
            r@ == (Seq::<char>::empty(), false),
    {
        AssemblyState { accumulated: String::new(), finished: false }
    }

    /// The text that has arrived so far.
    pub fn accumulated(&self) -> (r: &String)
        ensures
            r@ == self@.0,
    {
        &self.accumulated
    }

    pub fn is_finished(&self) -> (r: bool)
        ensures
            r == self@.1,
    {
        self.finished
    }

    /// Takes in one event. A delta is appended and handed back for display;
    /// an end completes the assistant message with the text so far; an error
    /// fails the turn and hands the text so far back as partial text only.
    pub fn feed(&mut self, ev: StreamEvent) -> (r: Step)
        requires
            !old(self)@.1,
        ensures
            match ev@ {
                EventView::Delta(t) => {
                    &&& final(self)@ == (old(self)@.0 + t, false)
                    &&& r matches Step::Increment(f) && f@ == t
                },
                EventView::End => {
                    &&& final(self)@ == (old(self)@.0, true)
                    &&& r matches Step::Done(o)
                    &&& o@ == OutcomeView::Completed(Role::Assistant, old(self)@.0)
                },
                EventView::Error(k, d) => {
                    &&& final(self)@ == (old(self)@.0, true)
                    &&& r matches Step::Done(o)
                    &&& o@ == OutcomeView::Failed(k, d, old(self)@.0)
                },
            },
    {
        match ev {
            StreamEvent::Delta(t) => {
                self.accumulated.append(t.as_str());
                Step::Increment(t)
            },
            StreamEvent::End => {
                self.finished = true;
                let content = self.accumulated.clone();
                Step::Done(TurnOutcome::Completed(Message::new(Role::Assistant, content)))
            },
            StreamEvent::Error(kind, detail) => {
                self.finished = true;
                let partial = self.accumulated.clone();
                Step::Done(TurnOutcome::Failed { kind, detail, partial })
            },
        }
    }
}

/// A whole turn's stream, read: the fragments shown, in order, and the outcome.
#[derive(Debug)]
pub struct Assembly {
    pub increments: Vec<String>,
    pub outcome: TurnOutcome,
}

/// Reads `events` up to the first end or error, as one turn. The fragments
/// are the texts of the deltas before that point, in order, and the outcome
/// is `assembled` of the events.
pub fn assemble(events: &Vec<StreamEvent>) -> (r: Assembly)
    ensures
        r.increments@.len() == stop_index(events_view(events@)),
        forall|j: int|
            0 <= j < r.increments@.len() ==> #[trigger] r.increments@[j]@ == delta_text(
                events_view(events@)[j],
            ),
        r.outcome@ == assembled(events_view(events@)),
{
    let ghost evs = events_view(events@);
    proof {
        lemma_stop_index_bounds(evs);
    }
    let mut state = AssemblyState::new();
    let mut increments: Vec<String> = Vec::new();
    let n = events.len();
    let mut i: usize = 0;
    while i < n
        invariant
            n == events@.len(),
            evs == events_view(events@),
            0 <= i <= stop_index(evs),
            stop_index(evs) <= n,
            forall|j: int| 0 <= j < stop_index(evs) ==> is_delta(#[trigger] evs[j]),
            stop_index(evs) < n ==> !is_delta(evs[stop_index(evs)]),
            state@ == (text_before(evs, i as int), false),
            increments@.len() == i,
            forall|j: int| 0 <= j < i ==> #[trigger] increments@[j]@ == delta_text(evs[j]),
        decreases n - i,
    {
        let ev = events[i].cloned();
        assert(evs[i as int] == events@[i as int]@);
        match state.feed(ev) {
            Step::Increment(f) => {
                increments.push(f);
                i = i + 1;
            },
            Step::Done(outcome) => {
                assert(i as int == stop_index(evs));
                return Assembly { increments, outcome };
            },
        }
    }
    assert(i as int == stop_index(evs));
    let partial = state.accumulated().clone();
    proof { reveal_strlit("stream closed before its end"); }
    let detail = String::from_str("stream closed before its end");
    Assembly {
        increments,
        outcome: TurnOutcome::Failed { kind: ErrorKind::Transport, detail, partial },
    }
}

} // verus!
