use stockfish_actor::actor::{step, Action, ActorState, Event};

#[test]
fn first_order_spawns_then_initializes_then_runs() {
    assert_eq!(
        step(ActorState::Idle, Event::OrderReceived),
        (ActorState::Initializing, Action::SpawnAndInit)
    );
    assert_eq!(
        step(ActorState::Initializing, Event::ReadyConfirmed),
        (ActorState::Busy, Action::BeginOrder)
    );
    assert_eq!(
        step(ActorState::Busy, Event::OrderCompleted),
        (ActorState::Ready, Action::Reply)
    );
}

#[test]
fn second_order_waits_until_reply_is_delivered() {
    // An order that arrives while one is in flight is deferred, never begun.
    assert_eq!(
        step(ActorState::Busy, Event::OrderReceived),
        (ActorState::Busy, Action::Defer)
    );
    // Only after the reply is the next order begun.
    assert_eq!(
        step(ActorState::Busy, Event::OrderCompleted),
        (ActorState::Ready, Action::Reply)
    );
    assert_eq!(
        step(ActorState::Ready, Event::OrderReceived),
        (ActorState::Busy, Action::BeginOrder)
    );
}

#[test]
fn abandoned_caller_is_not_fatal() {
    assert_eq!(
        step(ActorState::Busy, Event::CallerAbandoned),
        (ActorState::Ready, Action::FailCaller)
    );
    // The actor keeps serving afterwards.
    assert_eq!(
        step(ActorState::Ready, Event::OrderReceived),
        (ActorState::Busy, Action::BeginOrder)
    );
}

#[test]
fn process_exit_terminates_and_absorbs() {
    assert_eq!(
        step(ActorState::Ready, Event::ProcessExited { clean: false }),
        (ActorState::Terminated, Action::LogExit { clean: false })
    );
    assert_eq!(
        step(ActorState::Idle, Event::ProcessExited { clean: true }),
        (ActorState::Terminated, Action::LogExit { clean: true })
    );
    assert_eq!(
        step(ActorState::Busy, Event::ProcessExited { clean: false }),
        (ActorState::Terminated, Action::LogExit { clean: false })
    );
    // A submission against a terminated actor is never served.
    assert_eq!(
        step(ActorState::Terminated, Event::OrderReceived),
        (ActorState::Terminated, Action::Ignore)
    );
}

#[test]
fn closed_mailbox_shuts_down_cleanly() {
    assert_eq!(
        step(ActorState::Idle, Event::MailboxClosed),
        (ActorState::Terminated, Action::Shutdown)
    );
    assert_eq!(
        step(ActorState::Ready, Event::MailboxClosed),
        (ActorState::Terminated, Action::Shutdown)
    );
}

#[test]
fn engine_errors_are_fatal() {
    assert_eq!(
        step(ActorState::Busy, Event::EngineErrored),
        (ActorState::Terminated, Action::Shutdown)
    );
    assert_eq!(
        step(ActorState::Initializing, Event::EngineErrored),
        (ActorState::Terminated, Action::Shutdown)
    );
}
