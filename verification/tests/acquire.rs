use screensnip::acquire::AcquireCommand;
use screensnip::acquire::AcquireEvent;
use screensnip::acquire::Acquisition;
use screensnip::acquire::MAX_REINITS;

#[test]
fn scenario_access_lost_then_success() {
    let mut q = Acquisition::new();
    // First attempt: the duplication interface is lost, so it must be
    // re-established once.
    assert_eq!(q.step(AcquireEvent::AccessLost), AcquireCommand::Reinitialise);
    // Second attempt succeeds and the frame is accepted; exactly one
    // re-initialisation happened.
    assert_eq!(q.step(AcquireEvent::Frame { present_time: 7 }), AcquireCommand::Accept);
    assert_eq!(q.reinits, 1);
}

#[test]
fn timeout_is_counted_and_retried() {
    let mut q = Acquisition::new();
    assert_eq!(q.step(AcquireEvent::Timeout), AcquireCommand::AwaitNext);
    assert_eq!(q.step(AcquireEvent::Timeout), AcquireCommand::AwaitNext);
    assert_eq!(q.timeouts, 2);
    assert_eq!(q.reinits, 0);
}

#[test]
fn frame_without_present_time_is_not_accepted() {
    let mut q = Acquisition::new();
    assert_eq!(q.step(AcquireEvent::Frame { present_time: 0 }), AcquireCommand::AwaitNext);
    assert_eq!(q.step(AcquireEvent::Frame { present_time: 1 }), AcquireCommand::Accept);
}

#[test]
fn transient_failure_is_retried_without_counting() {
    let mut q = Acquisition::new();
    assert_eq!(q.step(AcquireEvent::Failure), AcquireCommand::AwaitNext);
    assert_eq!(q.timeouts, 0);
    assert_eq!(q.reinits, 0);
}

#[test]
fn repeated_access_loss_is_bounded() {
    let mut q = Acquisition::new();
    for i in 0..MAX_REINITS {
        assert_eq!(q.step(AcquireEvent::AccessLost), AcquireCommand::Reinitialise);
        assert_eq!(q.reinits, i + 1);
    }
    // The budget is spent: one more loss aborts the acquisition.
    assert_eq!(q.step(AcquireEvent::AccessLost), AcquireCommand::Abort);
    assert_eq!(q.reinits, MAX_REINITS);
}
