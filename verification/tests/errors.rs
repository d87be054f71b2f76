use minicoroutine::error::error_to_str;
use minicoroutine::error::EngineResult;
use minicoroutine::result::CoroutineResult;
use minicoroutine::slot::ExchangeSlot;
use minicoroutine::slot::ResumeStep;
use minicoroutine::status::CoroutineStatus;

#[test]
fn every_code_has_its_message() {
    assert_eq!(error_to_str(EngineResult::Success), "No error");
    assert_eq!(error_to_str(EngineResult::GenericError), "Generic error");
    assert_eq!(error_to_str(EngineResult::InvalidArguments), "Invalid arguments");
    assert_eq!(error_to_str(EngineResult::InvalidCoroutine), "Invalid coroutine");
    assert_eq!(error_to_str(EngineResult::InvalidOperation), "Invalid operation");
    assert_eq!(error_to_str(EngineResult::InvalidPointer), "Invalid pointer");
    assert_eq!(error_to_str(EngineResult::MakeContextError), "Make context error");
    assert_eq!(error_to_str(EngineResult::NotEnoughSpace), "Not enough space");
    assert_eq!(error_to_str(EngineResult::NotRunning), "Not running");
    assert_eq!(error_to_str(EngineResult::NotSuspended), "Not suspended");
    assert_eq!(error_to_str(EngineResult::OutOfMemory), "Out of Memory");
    assert_eq!(error_to_str(EngineResult::StackOverflow), "Stack overflow");
    assert_eq!(error_to_str(EngineResult::SwitchContextError), "Switch context error");
}

#[test]
fn every_failed_switch_is_reported_under_its_message() {
    let failures = [
        (EngineResult::GenericError, "Generic error"),
        (EngineResult::InvalidArguments, "Invalid arguments"),
        (EngineResult::InvalidCoroutine, "Invalid coroutine"),
        (EngineResult::InvalidOperation, "Invalid operation"),
        (EngineResult::InvalidPointer, "Invalid pointer"),
        (EngineResult::MakeContextError, "Make context error"),
        (EngineResult::NotEnoughSpace, "Not enough space"),
        (EngineResult::NotRunning, "Not running"),
        (EngineResult::NotSuspended, "Not suspended"),
        (EngineResult::OutOfMemory, "Out of Memory"),
        (EngineResult::StackOverflow, "Stack overflow"),
        (EngineResult::SwitchContextError, "Switch context error"),
    ];
    for (outcome, message) in failures {
        let mut slot: ExchangeSlot<u8, u8, u8, ()> = ExchangeSlot::new(());
        assert!(matches!(
            slot.begin_resume(CoroutineStatus::Suspended, 1),
            ResumeStep::SwitchIn
        ));
        assert_eq!(
            slot.finish_resume(outcome),
            Some(CoroutineResult::Error(message))
        );
        assert!(!slot.is_completed());
    }
}

#[test]
fn engine_results_compare_by_variant() {
    assert_eq!(EngineResult::Success, EngineResult::Success);
    assert_ne!(EngineResult::Success, EngineResult::GenericError);
    assert_ne!(EngineResult::NotRunning, EngineResult::NotSuspended);
    let copy = EngineResult::OutOfMemory;
    assert_eq!(copy.clone(), EngineResult::OutOfMemory);
}

#[test]
fn statuses_compare_by_variant() {
    assert_eq!(CoroutineStatus::Dead, CoroutineStatus::Dead);
    assert_ne!(CoroutineStatus::Dead, CoroutineStatus::Suspended);
    assert_ne!(CoroutineStatus::Running, CoroutineStatus::Normal);
}

#[test]
fn only_success_is_ok() {
    assert_eq!(EngineResult::Success.into_result(), Ok(()));
    assert_eq!(EngineResult::GenericError.into_result(), Err("Generic error"));
    assert_eq!(EngineResult::OutOfMemory.into_result(), Err("Out of Memory"));
    assert_eq!(EngineResult::MakeContextError.into_result(), Err("Make context error"));
    assert_eq!(EngineResult::NotEnoughSpace.into_result(), Err("Not enough space"));
    assert_eq!(EngineResult::InvalidArguments.into_result(), Err("Invalid arguments"));
}
