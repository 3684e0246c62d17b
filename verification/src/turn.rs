//! The order of the relay's turns.
//!
//! The session with the server process is strictly request/reply: the peer
//! sends nothing new until it has seen the reply to its last message.  So a
//! turn must answer each message once and only once, whatever the message
//! holds and whatever becomes of its publication.  [`relay_step`] gives,
//! from the state of the bridge and the event that ended the last action,
//! the next state and the next action; the caller performs the action,
//! reports the event and repeats.
//!
//! A message is classified within the step that takes it in: the bridge
//! passes through `Classifying` on its way from `Receiving` to
//! `Republishing` or `Replying` and never rests there.

use crate::relay::{acknowledgement, publication, spec_publication, Publication, PublicationView};
use vstd::prelude::*;

verus! {

/// Where the bridge stands.
#[derive(Clone, Copy, Debug, PartialEq, Eq, Structural)]
pub enum RelayState {
    /// The session is not in use yet.
    Idle,
    /// The bridge waits for the next message.
    Receiving,
    /// The bridge holds a message and decides what becomes of it.
    Classifying,
    /// The bridge waits for the publication of the message to end.
    Republishing,
    /// The bridge waits for its reply to be sent.
    Replying,
    /// The session broke; the bridge has stopped.
    Stopped,
}

/// How the action that the bridge waited for ended.
#[derive(Clone, Debug, PartialEq, Eq)]
pub enum RelayEvent {
    /// A message arrived.
    Received(Vec<u8>),
    /// The action succeeded.
    Completed,
    /// The event could not be delivered to the subscribers.
    DeliveryFailed,
    /// Receiving or replying failed on the session itself.
    TransportFailed,
}

/// What the caller does next for the bridge.
#[derive(Clone, Debug, PartialEq, Eq)]
pub enum RelayAction {
    /// Wait for one message.
    Receive,
    /// Publish the event to all subscribers, without waiting for them.
    Publish(Publication),
    /// Send the reply.
    Reply { text: &'static str },
    /// Give the broken session up to whoever supervises the bridge.
    Stop,
}

/// What an action holds.
pub enum RelayActionView {
    /// Wait for one message.
    Receive,
    /// Publish the event.
    Publish(PublicationView),
    /// Send the reply.
    Reply { text: Seq<char> },
    /// Give the session up.
    Stop,
}

impl View for RelayAction {
    type V = RelayActionView;

    open spec fn view(&self) -> RelayActionView {
        match self {
            RelayAction::Receive => RelayActionView::Receive,
            RelayAction::Publish(p) => RelayActionView::Publish(p@),
            RelayAction::Reply { text } => RelayActionView::Reply { text: text@ },
            RelayAction::Stop => RelayActionView::Stop,
        }
    }
}

/// The action that sends the acknowledgement.
pub open spec fn reply_action() -> RelayActionView {
    RelayActionView::Reply { text: acknowledgement() }
}

/// The state and the first action of a new bridge.
pub open spec fn spec_relay_start() -> (RelayState, RelayActionView) {
    (RelayState::Receiving, RelayActionView::Receive)
}

/// What the bridge decides of a message while it classifies: a message
/// with a category is published first, any other is answered at once.
pub open spec fn spec_decide(message: Seq<u8>) -> (RelayState, RelayActionView) {
    match spec_publication(message) {
        Some(p) => (RelayState::Republishing, RelayActionView::Publish(p)),
        None => (RelayState::Replying, reply_action()),
    }
}

/// The state and the action that follow `state` on `event`.
///
/// A message is published if it has a category and is answered in any
/// case; the answer follows the publication whether or not the event was
/// delivered.  The next message is awaited once the answer is sent.  The
/// bridge stops when receiving or replying fails, and stays stopped.  A
/// bridge that is taken up while it classifies decides on the message that
/// the event brings.
pub open spec fn spec_relay_step(state: RelayState, event: RelayEvent) -> (
    RelayState,
    RelayActionView,
) {
    match state {
        RelayState::Idle => spec_relay_start(),
        RelayState::Receiving | RelayState::Classifying => match event {
            RelayEvent::Received(message) => spec_decide(message@),
            _ => (RelayState::Stopped, RelayActionView::Stop),
        },
        RelayState::Republishing => (RelayState::Replying, reply_action()),
        RelayState::Replying => match event {
            RelayEvent::Completed => (RelayState::Receiving, RelayActionView::Receive),
            _ => (RelayState::Stopped, RelayActionView::Stop),
        },
        RelayState::Stopped => (RelayState::Stopped, RelayActionView::Stop),
    }
}

/// Starts the bridge: gives its first state and the first action.
pub fn relay_start() -> (r: (RelayState, RelayAction))
    ensures
        r.0 == spec_relay_start().0,
        r.1@ == spec_relay_start().1,
{
    (RelayState::Receiving, RelayAction::Receive)
}

/// Advances the bridge: takes the event that ended the action the bridge
/// waited for in `state`, and gives the next state and the next action.
pub fn relay_step(state: RelayState, event: &RelayEvent) -> (r: (RelayState, RelayAction))
    ensures
        r.0 == spec_relay_step(state, *event).0,
        r.1@ == spec_relay_step(state, *event).1,
{
    match state {
        RelayState::Idle => (RelayState::Receiving, RelayAction::Receive),
        RelayState::Receiving | RelayState::Classifying => match event {
            RelayEvent::Received(message) => match publication(message.as_slice()) {
                Some(p) => (RelayState::Republishing, RelayAction::Publish(p)),
                None => (RelayState::Replying, RelayAction::Reply { text: "OK" }),
            },
            _ => (RelayState::Stopped, RelayAction::Stop),
        },
        RelayState::Republishing => (RelayState::Replying, RelayAction::Reply { text: "OK" }),
        RelayState::Replying => match event {
            RelayEvent::Completed => (RelayState::Receiving, RelayAction::Receive),
            _ => (RelayState::Stopped, RelayAction::Stop),
        },
        RelayState::Stopped => (RelayState::Stopped, RelayAction::Stop),
    }
}

/// The actions that the bridge asks for, from `state`, while the events of
/// `events` are reported one after the other.
pub open spec fn spec_relay_actions(state: RelayState, events: Seq<RelayEvent>) -> Seq<
    RelayActionView,
>
    decreases events.len(),
{
    if events.len() == 0 {
        seq![]
    } else {
        let next = spec_relay_step(state, events[0]);
        seq![next.1] + spec_relay_actions(next.0, events.drop_first())
    }
}

/// The number of replies among `actions`.
pub open spec fn count_replies(actions: Seq<RelayActionView>) -> int
    decreases actions.len(),
{
    if actions.len() == 0 {
        0
    } else {
        (if actions[0] is Reply { 1int } else { 0int }) + count_replies(actions.drop_first())
    }
}

/// The number of receives among `actions`.
pub open spec fn count_receives(actions: Seq<RelayActionView>) -> int
    decreases actions.len(),
{
    if actions.len() == 0 {
        0
    } else {
        (if actions[0] is Receive { 1int } else { 0int }) + count_receives(actions.drop_first())
    }
}

/// The number of publications among `actions`.
pub open spec fn count_publications(actions: Seq<RelayActionView>) -> int
    decreases actions.len(),
{
    if actions.len() == 0 {
        0
    } else {
        (if actions[0] is Publish { 1int } else { 0int }) + count_publications(
            actions.drop_first(),
        )
    }
}

/// The number of replies that the bridge owes in `state` before it may
/// receive again.
pub open spec fn replies_owed(state: RelayState) -> int {
    match state {
        RelayState::Replying => 0,
        RelayState::Idle => 0,
        _ => 1,
    }
}

/// Replies and receives take turns.  However a bridge that waits for a
/// message is driven, at every moment it has sent as many replies as it has
/// asked for further messages, or one more: no message goes unanswered
/// before the next is awaited, and none is answered twice.
pub proof fn lemma_one_reply_per_message(events: Seq<RelayEvent>)
    ensures
        ({
            let actions = spec_relay_actions(RelayState::Receiving, events);
            0 <= count_replies(actions) - count_receives(actions) <= 1
        }),
{
    lemma_reply_balance(RelayState::Receiving, events);
}

/// From any state, the replies sent exceed the messages awaited by no more
/// than the bridge owes, and fall short of them by no more than one less.
pub proof fn lemma_reply_balance(state: RelayState, events: Seq<RelayEvent>)
    ensures
        ({
            let actions = spec_relay_actions(state, events);
            replies_owed(state) - 1 <= count_replies(actions) - count_receives(actions)
                <= replies_owed(state)
        }),
    decreases events.len(),
{
    if events.len() > 0 {
        let next = spec_relay_step(state, events[0]);
        let rest = spec_relay_actions(next.0, events.drop_first());
        let actions = spec_relay_actions(state, events);
        lemma_reply_balance(next.0, events.drop_first());
        assert(actions.drop_first() =~= rest);
        if state == RelayState::Stopped || next.0 == RelayState::Stopped {
            lemma_stopped_is_silent(events.drop_first());
        }
    }
}

/// A stopped bridge neither receives, replies nor publishes.
pub proof fn lemma_stopped_is_silent(events: Seq<RelayEvent>)
    ensures
        ({
            let actions = spec_relay_actions(RelayState::Stopped, events);
            &&& count_replies(actions) == 0
            &&& count_receives(actions) == 0
            &&& count_publications(actions) == 0
        }),
    decreases events.len(),
{
    if events.len() > 0 {
        let actions = spec_relay_actions(RelayState::Stopped, events);
        lemma_stopped_is_silent(events.drop_first());
        assert(actions.drop_first() =~= spec_relay_actions(
            RelayState::Stopped,
            events.drop_first(),
        ));
    }
}

/// The number of events that the bridge may publish in `state` before it
/// sends a reply: none while a publication is under way or the bridge has
/// stopped, one otherwise.
pub open spec fn publications_due(state: RelayState) -> int {
    match state {
        RelayState::Republishing => 0,
        RelayState::Stopped => 0,
        _ => 1,
    }
}

/// No message is published twice: at every moment the bridge has published
/// at most one event more than it has sent replies, and none more while a
/// publication awaits its reply.
pub proof fn lemma_one_publication_per_reply(state: RelayState, events: Seq<RelayEvent>)
    ensures
        ({
            let actions = spec_relay_actions(state, events);
            count_publications(actions) - count_replies(actions) <= publications_due(state)
        }),
    decreases events.len(),
{
    if events.len() > 0 {
        let next = spec_relay_step(state, events[0]);
        let actions = spec_relay_actions(state, events);
        lemma_one_publication_per_reply(next.0, events.drop_first());
        assert(actions.drop_first() =~= spec_relay_actions(next.0, events.drop_first()));
    }
}

/// The turn of a message that has a category: the message is published
/// once, under the event name of its category and with its own text as
/// payload; then the acknowledgement is sent once, whether or not the event
/// was delivered; only then is the next message awaited.
pub proof fn lemma_turn_of_recognized_message(message: Vec<u8>, delivery: RelayEvent)
    requires
        spec_publication(message@) is Some,
    ensures
        spec_relay_actions(
            RelayState::Receiving,
            seq![RelayEvent::Received(message), delivery, RelayEvent::Completed],
        ) == seq![
            RelayActionView::Publish(spec_publication(message@)->0),
            reply_action(),
            RelayActionView::Receive,
        ],
{
    let e0 = seq![RelayEvent::Received(message), delivery, RelayEvent::Completed];
    let e1 = e0.drop_first();
    let e2 = e1.drop_first();
    let e3 = e2.drop_first();
    assert(e3.len() == 0);
    assert(e0[0] == RelayEvent::Received(message));
    assert(e2[0] == RelayEvent::Completed);
    reveal_with_fuel(spec_relay_actions, 4);
    assert(spec_relay_actions(RelayState::Receiving, e0) =~= seq![
        RelayActionView::Publish(spec_publication(message@)->0),
        reply_action(),
        RelayActionView::Receive,
    ]);
}

/// The turn of a message that has no category: nothing is published, the
/// acknowledgement is sent once, and then the next message is awaited.
pub proof fn lemma_turn_of_unrecognized_message(message: Vec<u8>)
    requires
        spec_publication(message@) is None,
    ensures
        spec_relay_actions(
            RelayState::Receiving,
            seq![RelayEvent::Received(message), RelayEvent::Completed],
        ) == seq![reply_action(), RelayActionView::Receive],
{
    let e0 = seq![RelayEvent::Received(message), RelayEvent::Completed];
    let e1 = e0.drop_first();
    let e2 = e1.drop_first();
    assert(e2.len() == 0);
    assert(e0[0] == RelayEvent::Received(message));
    assert(e1[0] == RelayEvent::Completed);
    reveal_with_fuel(spec_relay_actions, 3);
    assert(spec_relay_actions(RelayState::Receiving, e0) =~= seq![
        reply_action(),
        RelayActionView::Receive,
    ]);
}

} // verus!
