//! The actor's control decisions: its lifecycle states, the events its
//! event loop races (next mailbox item, subprocess exit, caller
//! abandonment, protocol completion or failure), and the transition
//! function that says what each event means in each state. The event loop
//! around the subprocess performs the returned action.

use vstd::prelude::*;

verus! {

/// The actor's lifecycle states.
#[derive(Clone, Copy, Debug, PartialEq, Eq, Structural)]
pub enum ActorState {
    /// No subprocess spawned yet.
    Idle,
    /// Subprocess spawned; one-time configuration being applied while the
    /// first order waits.
    Initializing,
    /// Subprocess alive, awaiting the next order.
    Ready,
    /// Exactly one order in flight.
    Busy,
    /// The loop exited; the subprocess is killed.
    Terminated,
}

/// What the event loop observed at one of its suspension points.
#[derive(Clone, Copy, Debug, PartialEq, Eq, Structural)]
pub enum Event {
    /// An order arrived from the mailbox.
    OrderReceived,
    /// The mailbox closed with no pending order.
    MailboxClosed,
    /// The subprocess exited; `clean` tells whether its status was
    /// success.
    ProcessExited { clean: bool },
    /// The readiness confirmation arrived during initialization.
    ReadyConfirmed,
    /// The order in flight was fully processed.
    OrderCompleted,
    /// The caller abandoned its wait before a reply arrived.
    CallerAbandoned,
    /// A transport or protocol error ended the exchange.
    EngineErrored,
}

/// What the event loop must do next.
#[derive(Clone, Copy, Debug, PartialEq, Eq, Structural)]
pub enum Action {
    /// Spawn the subprocess and apply the one-time configuration.
    SpawnAndInit,
    /// Start processing the pending order.
    BeginOrder,
    /// Deliver the response on the caller's reply channel.
    Reply,
    /// Resolve the one affected request as a failure and keep serving.
    FailCaller,
    /// Log the subprocess exit at the severity its status calls for.
    LogExit { clean: bool },
    /// Exit the loop, killing the subprocess.
    Shutdown,
    /// Leave the event where it is; it is acted on once the state allows.
    Defer,
    /// Nothing to do.
    Ignore,
}

/// The transition table. A subprocess exit terminates the actor from any
/// live state; Terminated absorbs everything; an order that arrives while
/// one is in flight stays queued (the mailbox holds at most one); a caller
/// abandoning its wait fails only that request.
pub open spec fn spec_step(s: ActorState, e: Event) -> (ActorState, Action) {
    match (s, e) {
        (ActorState::Terminated, _) => (ActorState::Terminated, Action::Ignore),
        (_, Event::ProcessExited { clean }) => (
            ActorState::Terminated,
            Action::LogExit { clean },
        ),
        (ActorState::Idle, Event::OrderReceived) => (
            ActorState::Initializing,
            Action::SpawnAndInit,
        ),
        (ActorState::Idle, Event::MailboxClosed) => (ActorState::Terminated, Action::Shutdown),
        (ActorState::Initializing, Event::ReadyConfirmed) => (
            ActorState::Busy,
            Action::BeginOrder,
        ),
        (ActorState::Initializing, Event::OrderReceived) => (
            ActorState::Initializing,
            Action::Defer,
        ),
        (ActorState::Initializing, Event::EngineErrored) => (
            ActorState::Terminated,
            Action::Shutdown,
        ),
        (ActorState::Ready, Event::OrderReceived) => (ActorState::Busy, Action::BeginOrder),
        (ActorState::Ready, Event::MailboxClosed) => (ActorState::Terminated, Action::Shutdown),
        (ActorState::Busy, Event::OrderCompleted) => (ActorState::Ready, Action::Reply),
        (ActorState::Busy, Event::CallerAbandoned) => (ActorState::Ready, Action::FailCaller),
        (ActorState::Busy, Event::EngineErrored) => (ActorState::Terminated, Action::Shutdown),
        (ActorState::Busy, Event::OrderReceived) => (ActorState::Busy, Action::Defer),
        (_, _) => (s, Action::Ignore),
    }
}

/// Decide the next state and the action for one observed event.
pub fn step(s: ActorState, e: Event) -> (r: (ActorState, Action))
    ensures
        r == spec_step(s, e),
{
    match (s, e) {
        (ActorState::Terminated, _) => (ActorState::Terminated, Action::Ignore),
        (_, Event::ProcessExited { clean }) => (
            ActorState::Terminated,
            Action::LogExit { clean },
        ),
        (ActorState::Idle, Event::OrderReceived) => (
            ActorState::Initializing,
            Action::SpawnAndInit,
        ),
        (ActorState::Idle, Event::MailboxClosed) => (ActorState::Terminated, Action::Shutdown),
        (ActorState::Initializing, Event::ReadyConfirmed) => (
            ActorState::Busy,
            Action::BeginOrder,
        ),
        (ActorState::Initializing, Event::OrderReceived) => (
            ActorState::Initializing,
            Action::Defer,
        ),
        (ActorState::Initializing, Event::EngineErrored) => (
            ActorState::Terminated,
            Action::Shutdown,
        ),
        (ActorState::Ready, Event::OrderReceived) => (ActorState::Busy, Action::BeginOrder),
        (ActorState::Ready, Event::MailboxClosed) => (ActorState::Terminated, Action::Shutdown),
        (ActorState::Busy, Event::OrderCompleted) => (ActorState::Ready, Action::Reply),
        (ActorState::Busy, Event::CallerAbandoned) => (ActorState::Ready, Action::FailCaller),
        (ActorState::Busy, Event::EngineErrored) => (ActorState::Terminated, Action::Shutdown),
        (ActorState::Busy, Event::OrderReceived) => (ActorState::Busy, Action::Defer),
        (_, _) => (s, Action::Ignore),
    }
}

/// Law: a detected subprocess exit moves every live state to Terminated,
/// and Terminated absorbs every further event without ever beginning an
/// order again: after an unexpected exit, nothing is served any more.
pub proof fn lemma_exit_is_final(s: ActorState, e: Event, clean: bool)
    ensures
        spec_step(s, Event::ProcessExited { clean }).0 == ActorState::Terminated,
        spec_step(ActorState::Terminated, e).0 == ActorState::Terminated,
        spec_step(ActorState::Terminated, e).1 != Action::BeginOrder,
        spec_step(ActorState::Terminated, e).1 != Action::Reply,
{
}

/// Law: orders are strictly serialized. An order is only ever begun from
/// Ready or from Initializing (the first order, once readiness is
/// confirmed), never while one is in flight; one that arrives while the
/// actor is busy stays queued.
pub proof fn lemma_orders_serialized(s: ActorState, e: Event)
    ensures
        spec_step(s, e).1 == Action::BeginOrder ==> (s == ActorState::Initializing || s
            == ActorState::Ready) && spec_step(s, e).0 == ActorState::Busy,
        spec_step(ActorState::Busy, Event::OrderReceived) == (ActorState::Busy, Action::Defer),
{
}

/// Law: a caller abandoning its wait is not fatal: the actor fails that
/// one request and returns to Ready, available for the next order.
pub proof fn lemma_abandon_not_fatal()
    ensures
        spec_step(ActorState::Busy, Event::CallerAbandoned) == (
            ActorState::Ready,
            Action::FailCaller,
        ),
{
}

} // verus!
