use actor_system::ask_outcome;
use actor_system::runner_step;
use actor_system::tell_outcome;
use actor_system::ActorError;
use actor_system::LoopAction;

#[test]
fn tell_succeeds_exactly_when_enqueued() {
    assert_eq!(tell_outcome(true), Ok(()));
    assert_eq!(tell_outcome(false), Err(ActorError::SendFailure));
}

#[test]
fn ask_distinguishes_send_failure_from_missing_reply() {
    assert_eq!(ask_outcome(true, Some(5u32)), Ok(5u32));
    assert_eq!(ask_outcome::<u32>(true, None), Err(ActorError::AskFailure));
    assert_eq!(ask_outcome(false, Some(5u32)), Err(ActorError::SendFailure));
    assert_eq!(ask_outcome::<u32>(false, None), Err(ActorError::SendFailure));
}

#[test]
fn runner_applies_delivered_envelopes_and_exits_on_closure() {
    assert_eq!(runner_step(Some(7u32)), LoopAction::Apply(7u32));
    assert_eq!(runner_step::<u32>(None), LoopAction::Exit);
}
