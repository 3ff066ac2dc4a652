use shuttle_datadog_logs::error::BootstrapError;
use shuttle_datadog_logs::supervise::{supervised_result, TaskOutcome, LOGGER_PANIC_FALLBACK};

#[test]
fn finished_ok_passes_value() {
    let r = supervised_result::<u32>(TaskOutcome::Finished(Ok(7)), "x");
    assert_eq!(r.ok(), Some(7));
}

#[test]
fn panic_with_message() {
    match supervised_result::<u32>(TaskOutcome::Panicked(Some("boom".to_string())), LOGGER_PANIC_FALLBACK) {
        Err(BootstrapError::TaskPanicked(m)) => assert_eq!(m, "boom"),
        _ => panic!("expected TaskPanicked"),
    }
}

#[test]
fn panic_without_message_uses_fallback() {
    match supervised_result::<u32>(TaskOutcome::Panicked(None), LOGGER_PANIC_FALLBACK) {
        Err(BootstrapError::TaskPanicked(m)) => assert_eq!(m, "panicked setting logger"),
        _ => panic!("expected TaskPanicked"),
    }
}

#[test]
fn returned_error_is_task_failed() {
    match supervised_result::<u32>(TaskOutcome::Finished(Err("db down".to_string())), "x") {
        Err(BootstrapError::TaskFailed(m)) => assert_eq!(m, "db down"),
        _ => panic!("expected TaskFailed"),
    }
}

#[test]
fn cancelled_task_is_task_failed() {
    match supervised_result::<u32>(TaskOutcome::Cancelled("task was cancelled".to_string()), "x") {
        Err(BootstrapError::TaskFailed(m)) => assert_eq!(m, "task was cancelled"),
        _ => panic!("expected TaskFailed"),
    }
}
