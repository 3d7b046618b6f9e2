//! What a subscriber of the live feed is sent: first the snapshot taken when
//! it subscribed, then what is published, in the order in which it arrives.

use vstd::prelude::*;
use crate::dispatch::{CommandView, RemoteCommand};
use crate::store::{AppStateSync, BroadcastState, StateView};

verus! {

/// The mathematical value of a [`FeedEvent`].
pub enum EventView {
    State(StateView),
    Command(CommandView),
}

/// An event of the live feed: a snapshot of the state, or a command as it
/// arrived.
#[derive(Debug, PartialEq, Eq)]
pub enum FeedEvent {
    State(BroadcastState),
    Command(RemoteCommand),
}

impl View for FeedEvent {
    type V = EventView;

    open spec fn view(&self) -> EventView {
        match self {
            FeedEvent::State(state) => EventView::State(state@),
            FeedEvent::Command(command) => EventView::Command(command@),
        }
    }
}

/// The values of a list of events.
pub open spec fn events_view(items: Seq<FeedEvent>) -> Seq<EventView> {
    Seq::new(items.len(), |i: int| items[i]@)
}

/// The mathematical value of a [`FeedInput`].
pub enum InputView {
    State(StateView),
    Command(CommandView),
    Lagged(u64),
}

/// What a subscriber's channels hand over: a published snapshot, a published
/// command, or the news that the subscriber was too slow and missed so many.
#[derive(Debug, PartialEq, Eq)]
pub enum FeedInput {
    State(BroadcastState),
    Command(RemoteCommand),
    Lagged(u64),
}

impl View for FeedInput {
    type V = InputView;

    open spec fn view(&self) -> InputView {
        match self {
            FeedInput::State(state) => InputView::State(state@),
            FeedInput::Command(command) => InputView::Command(command@),
            FeedInput::Lagged(missed) => InputView::Lagged(*missed),
        }
    }
}

/// The mathematical value of a [`Subscriber`].
pub struct SubscriberView {
    pub pending: Option<StateView>,
    pub missed: u64,
}

/// One subscriber of the live feed.
#[derive(Debug, PartialEq, Eq)]
pub struct Subscriber {
    /// The snapshot taken at subscription, until it is sent.
    pub pending: Option<BroadcastState>,
    /// How many published events the subscriber missed by being slow.
    pub missed: u64,
}

impl View for Subscriber {
    type V = SubscriberView;

    open spec fn view(&self) -> SubscriberView {
        SubscriberView {
            pending: match self.pending {
                Some(state) => Some(state@),
                None => None,
            },
            missed: self.missed,
        }
    }
}

/// A subscriber that has been sent nothing yet.
pub open spec fn subscribed(snapshot: StateView) -> SubscriberView {
    SubscriberView { pending: Some(snapshot), missed: 0 }
}

/// The events that are sent for what is still pending.
pub open spec fn flushed(s: SubscriberView) -> Seq<EventView> {
    match s.pending {
        Some(snapshot) => seq![EventView::State(snapshot)],
        None => Seq::empty(),
    }
}

/// The events that an input is passed on as: a snapshot or a command is
/// itself, missed events are nothing.
pub open spec fn passed(input: InputView) -> Seq<EventView> {
    match input {
        InputView::State(state) => seq![EventView::State(state)],
        InputView::Command(command) => seq![EventView::Command(command)],
        InputView::Lagged(_) => Seq::empty(),
    }
}

/// A count of missed events after more were missed; it stops at the largest
/// count.
pub open spec fn missed_more(missed: u64, more: u64) -> u64 {
    if missed + more <= u64::MAX {
        (missed + more) as u64
    } else {
        u64::MAX
    }
}

/// The subscriber after an input.
pub open spec fn accepted(s: SubscriberView, input: InputView) -> SubscriberView {
    SubscriberView {
        pending: None,
        missed: match input {
            InputView::Lagged(more) => missed_more(s.missed, more),
            _ => s.missed,
        },
    }
}

/// The events that are sent on an input: what is pending first, then the
/// input.
pub open spec fn sent(s: SubscriberView, input: InputView) -> Seq<EventView> {
    flushed(s) + passed(input)
}

/// The subscriber after a run of inputs.
pub open spec fn accepted_all(s: SubscriberView, inputs: Seq<InputView>) -> SubscriberView
    decreases inputs.len(),
{
    if inputs.len() == 0 {
        s
    } else {
        accepted(accepted_all(s, inputs.drop_last()), inputs.last())
    }
}

/// All the events that are sent on a run of inputs.
pub open spec fn sent_all(s: SubscriberView, inputs: Seq<InputView>) -> Seq<EventView>
    decreases inputs.len(),
{
    if inputs.len() == 0 {
        Seq::empty()
    } else {
        sent_all(s, inputs.drop_last()) + sent(
            accepted_all(s, inputs.drop_last()),
            inputs.last(),
        )
    }
}

/// The events that a run of inputs is passed on as.
pub open spec fn passed_all(inputs: Seq<InputView>) -> Seq<EventView>
    decreases inputs.len(),
{
    if inputs.len() == 0 {
        Seq::empty()
    } else {
        passed_all(inputs.drop_last()) + passed(inputs.last())
    }
}

/// After the first input nothing is pending.
pub proof fn lemma_nothing_pending(s: SubscriberView, inputs: Seq<InputView>)
    requires
        inputs.len() >= 1,
    ensures
        accepted_all(s, inputs).pending is None,
{
}

/// A new subscriber is sent the snapshot taken at subscription before
/// anything that is published afterwards, and then what is published, in
/// order, except what it missed.
pub proof fn lemma_snapshot_first(snapshot: StateView, inputs: Seq<InputView>)
    requires
        inputs.len() >= 1,
    ensures
        sent_all(subscribed(snapshot), inputs) == seq![EventView::State(snapshot)] + passed_all(
            inputs,
        ),
        sent_all(subscribed(snapshot), inputs).len() >= 1,
        sent_all(subscribed(snapshot), inputs)[0] == EventView::State(snapshot),
    decreases inputs.len(),
{
    let s = subscribed(snapshot);
    let front = inputs.drop_last();
    let head = seq![EventView::State(snapshot)];
    if front.len() == 0 {
        assert(sent_all(s, front) =~= Seq::empty());
        assert(passed_all(front) =~= Seq::empty());
        assert(sent_all(s, inputs) =~= head + passed_all(inputs));
    } else {
        lemma_snapshot_first(snapshot, front);
        lemma_nothing_pending(s, front);
        assert(sent(accepted_all(s, front), inputs.last()) =~= passed(inputs.last()));
        assert(sent_all(s, inputs) =~= head + passed_all(inputs));
    }
}

impl Subscriber {
    /// Subscribes to the feed of a state: the snapshot is taken now.
    pub fn subscribe(store: &AppStateSync) -> (subscriber: Subscriber)
        ensures
            subscriber@ == subscribed(store@.snapshot()),
    {
        Subscriber { pending: Some(store.get_state()), missed: 0 }
    }

    /// The events to send before anything has arrived: the snapshot taken
    /// at subscription, unless it was sent already.
    pub fn start(&mut self) -> (events: Vec<FeedEvent>)
        ensures
            events_view(events@) == flushed(old(self)@),
            final(self)@ == (SubscriberView { pending: None, ..old(self)@ }),
    {
        let mut events: Vec<FeedEvent> = Vec::new();
        let mut pending: Option<BroadcastState> = None;
        std::mem::swap(&mut self.pending, &mut pending);
        match pending {
            Some(state) => {
                events.push(FeedEvent::State(state));
            },
            None => {},
        }
        events
    }

    /// The events to send on an input: see [`sent`].
    pub fn accept(&mut self, input: FeedInput) -> (events: Vec<FeedEvent>)
        ensures
            events_view(events@) == sent(old(self)@, input@),
            final(self)@ == accepted(old(self)@, input@),
    {
        let mut events = self.start();
        match input {
            FeedInput::State(state) => {
                events.push(FeedEvent::State(state));
            },
            FeedInput::Command(command) => {
                events.push(FeedEvent::Command(command));
            },
            FeedInput::Lagged(more) => {
                self.missed = if more <= u64::MAX - self.missed {
                    self.missed + more
                } else {
                    u64::MAX
                };
            },
        }
        events
    }
}

} // verus!
