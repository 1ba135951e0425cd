//! The two queues of the player, and the bridge between them. The playback
//! engine fills the first from its own thread; a background thread moves
//! each event to the second, which the user-interface loop drains.
//!
//! Both queues are unbounded. A sender never waits, so neither the engine
//! nor the bridge is ever held up; the price is that a loop which drains
//! slowly lets its queue grow without limit. That risk is accepted: events
//! are small and the loop takes one per wake-up.

use crate::event::{PlaybackEvent, PlaybackEventView, UIAction, UIActionView};
use crossbeam_channel::{Receiver, Sender, TryRecvError, TrySendError};
use vstd::prelude::*;

verus! {

/// The sending end of a queue of `crossbeam_channel`.
#[verifier::external_type_specification]
#[verifier::external_body]
#[verifier::reject_recursive_types(T)]
pub struct ExSender<T>(Sender<T>);

/// The receiving end of a queue of `crossbeam_channel`.
#[verifier::external_type_specification]
#[verifier::external_body]
#[verifier::reject_recursive_types(T)]
pub struct ExReceiver<T>(Receiver<T>);

/// What one look at a queue found.
#[derive(Debug, PartialEq, Eq)]
pub enum Polled<T> {
    Item(T),
    /// Nothing is waiting, but a sender is still there.
    Empty,
    /// Nothing is waiting and every sender is gone.
    Disconnected,
}

/// How long the bridge waits between two looks at the engine's queue, in
/// milliseconds.
pub const POLL_INTERVAL_MS: u64 = 50;

/// `crossbeam_channel::unbounded`: a new queue without a capacity limit, as
/// its two ends. Nothing is claimed of them.
#[verifier::external_body]
pub(crate) fn open_channel<T>() -> (ends: (Sender<T>, Receiver<T>)) {
    crossbeam_channel::unbounded()
}

/// `Receiver::try_recv`: takes the first waiting item without blocking. What
/// it finds depends on what other threads have sent, so nothing is claimed.
#[verifier::external_body]
pub(crate) fn try_receive<T>(receiver: &Receiver<T>) -> (polled: Polled<T>) {
    match receiver.try_recv() {
        Ok(item) => Polled::Item(item),
        Err(TryRecvError::Empty) => Polled::Empty,
        Err(TryRecvError::Disconnected) => Polled::Disconnected,
    }
}

/// `Sender::try_send`: queues the item if that can be done at once, and
/// never waits. Where the item is not queued, because every receiver is gone
/// or because a queue with a limit is full, the very same item comes back.
#[verifier::external_body]
pub(crate) fn send<T>(sender: &Sender<T>, item: T) -> (returned: Option<T>)
    ensures
        returned matches Some(back) ==> back == item,
{
    match sender.try_send(item) {
        Ok(()) => None,
        Err(TrySendError::Full(back)) => Some(back),
        Err(TrySendError::Disconnected(back)) => Some(back),
    }
}

/// `Sender::clone`: one more sending end of the same queue. The twin holds
/// the very reference to the queue that the given end holds, so the two are
/// one and the same end: what is sent through either arrives in that queue.
#[verifier::external_body]
pub(crate) fn clone_sender<T>(sender: &Sender<T>) -> (twin: Sender<T>)
    ensures
        twin == *sender,
{
    sender.clone()
}

/// `Receiver::clone`: one more receiving end of the same queue. The twin
/// holds the very reference to the queue that the given end holds, so the two
/// are one and the same end: either takes what was sent into that queue.
#[verifier::external_body]
pub(crate) fn clone_receiver<T>(receiver: &Receiver<T>) -> (twin: Receiver<T>)
    ensures
        twin == *receiver,
{
    receiver.clone()
}

/// What a look at the engine's queue found, as plain values.
pub open spec fn polled_view(polled: Polled<PlaybackEvent>) -> Polled<PlaybackEventView> {
    match polled {
        Polled::Item(event) => Polled::Item(event.deep_view()),
        Polled::Empty => Polled::Empty,
        Polled::Disconnected => Polled::Disconnected,
    }
}

/// What the bridge does after one look at the engine's queue.
#[derive(Debug, PartialEq, Eq)]
pub struct BridgeStep {
    /// What to queue for the user-interface loop, which is then woken once.
    pub message: Option<UIAction>,
    /// Whether the bridge goes on polling afterwards.
    pub proceed: bool,
}

/// What a [`BridgeStep`] holds, as plain values.
pub struct BridgeStepView {
    pub message: Option<UIActionView>,
    pub proceed: bool,
}

impl DeepView for BridgeStep {
    type V = BridgeStepView;

    open spec fn deep_view(&self) -> BridgeStepView {
        BridgeStepView { message: self.message.deep_view(), proceed: self.proceed }
    }
}

/// The bridge's rule. An event is forwarded as it is. An empty queue asks for
/// nothing. A queue that lost its engine is fatal: the loop is told to quit,
/// and the bridge ends.
pub open spec fn bridge_step_spec(polled: Polled<PlaybackEventView>) -> BridgeStepView {
    match polled {
        Polled::Item(event) => BridgeStepView {
            message: Some(UIActionView::ForwardedEvent(event)),
            proceed: true,
        },
        Polled::Empty => BridgeStepView { message: None, proceed: true },
        Polled::Disconnected => BridgeStepView { message: Some(UIActionView::Quit), proceed: false },
    }
}

/// Decides what the bridge does with what it found.
pub fn bridge_step(polled: Polled<PlaybackEvent>) -> (step: BridgeStep)
    ensures
        step.deep_view() == bridge_step_spec(polled_view(polled)),
{
    match polled {
        Polled::Item(event) => BridgeStep {
            message: Some(UIAction::ForwardedEvent(event)),
            proceed: true,
        },
        Polled::Empty => BridgeStep { message: None, proceed: true },
        Polled::Disconnected => BridgeStep { message: Some(UIAction::Quit), proceed: false },
    }
}

/// Everything that the bridge queues for the user-interface loop, in order,
/// while it goes through a run of looks at the engine's queue. It ends with
/// the look that finds the engine gone.
pub open spec fn forwarded(polls: Seq<Polled<PlaybackEventView>>) -> Seq<UIActionView>
    decreases polls.len(),
{
    if polls.len() == 0 {
        Seq::empty()
    } else {
        let step = bridge_step_spec(polls.first());
        let sent = match step.message {
            Some(message) => seq![message],
            None => Seq::empty(),
        };
        if step.proceed {
            sent + forwarded(polls.drop_first())
        } else {
            sent
        }
    }
}

/// The events among a run of looks, in the order in which they were found.
pub open spec fn events_found(polls: Seq<Polled<PlaybackEventView>>) -> Seq<PlaybackEventView>
    decreases polls.len(),
{
    if polls.len() == 0 {
        Seq::empty()
    } else {
        let found = match polls.first() {
            Polled::Item(event) => seq![event],
            _ => Seq::empty(),
        };
        found + events_found(polls.drop_first())
    }
}

/// Whether the engine is still there at every look of a run.
pub open spec fn engine_connected(polls: Seq<Polled<PlaybackEventView>>) -> bool {
    forall|k: int| 0 <= k < polls.len() ==> !(#[trigger] polls[k] is Disconnected)
}

/// While the engine is there, every event that the bridge finds is forwarded
/// exactly once and in the order found, however many empty looks lie between:
/// what is queued for the loop is the found events, one for one.
pub proof fn lemma_forwards_each_event_once_in_order(polls: Seq<Polled<PlaybackEventView>>)
    requires
        engine_connected(polls),
    ensures
        forwarded(polls) == events_found(polls).map_values(
            |event: PlaybackEventView| UIActionView::ForwardedEvent(event),
        ),
        forwarded(polls).len() == events_found(polls).len(),
    decreases polls.len(),
{
    let wrap = |event: PlaybackEventView| UIActionView::ForwardedEvent(event);
    if polls.len() == 0 {
        assert(forwarded(polls) =~= events_found(polls).map_values(wrap));
    } else {
        let rest = polls.drop_first();
        assert(engine_connected(rest)) by {
            assert forall|k: int| 0 <= k < rest.len() implies !(#[trigger] rest[k]
                is Disconnected) by {
                assert(rest[k] == polls[k + 1]);
            }
        }
        lemma_forwards_each_event_once_in_order(rest);
        assert(!(polls[0] is Disconnected));
        assert(forwarded(polls) =~= events_found(polls).map_values(wrap));
    }
}

/// A run of `n` events with no empty look between them is forwarded as those
/// `n` events, in their order.
pub proof fn lemma_forwards_all_events(events: Seq<PlaybackEventView>)
    ensures
        forwarded(events.map_values(|event: PlaybackEventView| Polled::Item(event)))
            == events.map_values(|event: PlaybackEventView| UIActionView::ForwardedEvent(event)),
    decreases events.len(),
{
    let look = |event: PlaybackEventView| Polled::Item(event);
    let wrap = |event: PlaybackEventView| UIActionView::ForwardedEvent(event);
    let polls = events.map_values(look);
    if events.len() == 0 {
        assert(forwarded(polls) =~= events.map_values(wrap));
    } else {
        lemma_forwards_all_events(events.drop_first());
        assert(polls.drop_first() =~= events.drop_first().map_values(look));
        assert(forwarded(polls) =~= events.map_values(wrap));
    }
}

/// After the look that finds the engine gone, the bridge queues the request
/// to quit and nothing more.
pub proof fn lemma_disconnection_ends_with_quit(
    before: Seq<Polled<PlaybackEventView>>,
    after: Seq<Polled<PlaybackEventView>>,
)
    requires
        engine_connected(before),
    ensures
        forwarded(before + seq![Polled::Disconnected] + after) == forwarded(before).push(
            UIActionView::Quit,
        ),
    decreases before.len(),
{
    let polls = before + seq![Polled::Disconnected] + after;
    if before.len() == 0 {
        assert(polls[0] is Disconnected);
        assert(forwarded(polls) =~= forwarded(before).push(UIActionView::Quit));
    } else {
        let rest = before.drop_first();
        assert(engine_connected(rest)) by {
            assert forall|k: int| 0 <= k < rest.len() implies !(#[trigger] rest[k]
                is Disconnected) by {
                assert(rest[k] == before[k + 1]);
            }
        }
        lemma_disconnection_ends_with_quit(rest, after);
        assert(polls.drop_first() =~= rest + seq![Polled::Disconnected] + after);
        assert(polls[0] == before[0]);
        assert(!(before[0] is Disconnected));
        assert(forwarded(polls) =~= forwarded(before).push(UIActionView::Quit));
    }
}

/// What one turn of the bridge found.
#[derive(Clone, Copy, Debug, PartialEq, Eq)]
pub enum Found {
    Event,
    Nothing,
    Disconnection,
}

/// How one turn of the bridge ended.
#[derive(Clone, Copy, Debug, PartialEq, Eq)]
pub struct BridgeTurn {
    pub found: Found,
    /// Whether a message was queued for the user-interface loop.
    pub delivered: bool,
    /// Whether the loop is to be woken once.
    pub wake: bool,
    /// Whether the bridge sleeps for its interval and then takes another turn.
    pub proceed: bool,
}

/// How a turn ends: the loop is woken once for each message that reached its
/// queue, and the bridge goes on unless the engine is gone or a message
/// could not be put into the loop's queue.
pub open spec fn turn_outcome(found: Found, delivered: bool) -> BridgeTurn {
    BridgeTurn {
        found,
        delivered,
        wake: delivered,
        proceed: match found {
            Found::Event => delivered,
            Found::Nothing => true,
            Found::Disconnection => false,
        },
    }
}

/// What kind of thing a look at the engine's queue found.
pub open spec fn found_in(polled: Polled<PlaybackEventView>) -> Found {
    match polled {
        Polled::Item(_) => Found::Event,
        Polled::Empty => Found::Nothing,
        Polled::Disconnected => Found::Disconnection,
    }
}

/// Tells what kind of thing a look at the engine's queue found.
pub fn classify(polled: &Polled<PlaybackEvent>) -> (found: Found)
    ensures
        found == found_in(polled_view(*polled)),
{
    match polled {
        Polled::Item(_) => Found::Event,
        Polled::Empty => Found::Nothing,
        Polled::Disconnected => Found::Disconnection,
    }
}

/// Ends a turn in which `found` was found and the message, if there was one,
/// reached the loop's queue or did not.
pub fn conclude_turn(found: Found, delivered: bool) -> (turn: BridgeTurn)
    ensures
        turn == turn_outcome(found, delivered),
{
    let proceed = match found {
        Found::Event => delivered,
        Found::Nothing => true,
        Found::Disconnection => false,
    };
    BridgeTurn { found, delivered, wake: delivered, proceed }
}

/// What the user-interface loop takes up after one look at its own queue: the
/// item that was waiting, or nothing.
pub open spec fn pending(polled: Polled<UIActionView>) -> Option<UIActionView> {
    match polled {
        Polled::Item(action) => Some(action),
        _ => None,
    }
}

/// What a look at the loop's queue found, as plain values.
pub open spec fn polled_action_view(polled: Polled<UIAction>) -> Polled<UIActionView> {
    match polled {
        Polled::Item(action) => Polled::Item(action.deep_view()),
        Polled::Empty => Polled::Empty,
        Polled::Disconnected => Polled::Disconnected,
    }
}

/// Hands on the item that a look at the loop's queue found.
pub fn pending_action(polled: Polled<UIAction>) -> (action: Option<UIAction>)
    ensures
        action.deep_view() == pending(polled_action_view(polled)),
{
    match polled {
        Polled::Item(action) => Some(action),
        Polled::Empty => None,
        Polled::Disconnected => None,
    }
}

/// The background end of the player: it reads the engine's events and writes
/// the loop's queue.
pub struct EventBridge {
    events: Receiver<PlaybackEvent>,
    actions: Sender<UIAction>,
}

impl EventBridge {
    /// The end from which the bridge takes the engine's events.
    pub closed spec fn events_end(&self) -> Receiver<PlaybackEvent> {
        self.events
    }

    /// The end into which the bridge puts what it forwards.
    pub closed spec fn actions_end(&self) -> Sender<UIAction> {
        self.actions
    }

    /// A bridge from `events` to `actions`. A turn never waits on either.
    /// The player's own queues have no limit; where `actions` belongs to a
    /// queue with a limit and that queue is full, a message cannot be put
    /// into it, and the bridge ends as for a loop that is gone.
    pub fn new(events: Receiver<PlaybackEvent>, actions: Sender<UIAction>) -> (bridge: EventBridge)
        ensures
            bridge.events_end() == events,
            bridge.actions_end() == actions,
    {
        EventBridge { events, actions }
    }

    /// One turn: a look at the engine's queue, and the delivery of what the
    /// rule asks for. What is found and whether it can be delivered lies with
    /// the other threads; the turn ends as the rule says for what happened.
    pub fn turn(&self) -> (turn: BridgeTurn)
        ensures
            turn == turn_outcome(turn.found, turn.delivered),
            turn.found is Nothing ==> !turn.delivered,
    {
        let polled = try_receive(&self.events);
        let found = classify(&polled);
        let step = bridge_step(polled);
        let delivered = match step.message {
            Some(message) => send(&self.actions, message).is_none(),
            None => false,
        };
        conclude_turn(found, delivered)
    }
}

} // verus!
