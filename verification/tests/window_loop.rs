use airs_window::error::Error;
use airs_window::window_loop::{ControlFlow, LoopRunner, ResumeAction, WaitPlan, WindowLoop};

#[test]
fn window_loop_new_and_default() {
    let _a = WindowLoop::new();
    let _b: WindowLoop = Default::default();
}

#[test]
fn loop_without_window_waits() {
    let mut r = LoopRunner::new();
    assert!(r.can_wait(5));
    assert_eq!(
        r.on_about_to_wait(5),
        WaitPlan { update_windows: false, control_flow: ControlFlow::Wait }
    );
    assert!(r.finish().is_ok());
}

#[test]
fn window_is_requested_once() {
    let mut r = LoopRunner::new();
    assert_eq!(r.on_resumed(), ResumeAction::CreateWindow);
    assert_eq!(r.on_resumed(), ResumeAction::Ignore);
    r.on_window_created(10, 100);
    assert_eq!(r.on_resumed(), ResumeAction::Ignore);
}

#[test]
fn frames_are_paced() {
    let mut r = LoopRunner::new();
    assert_eq!(r.on_resumed(), ResumeAction::CreateWindow);
    r.on_window_created(10, 100);
    // before the first deadline: sleep until it, no update
    assert_eq!(
        r.on_about_to_wait(105),
        WaitPlan { update_windows: false, control_flow: ControlFlow::WaitUntil(110) }
    );
    // at the deadline: update, next frame one interval later
    assert_eq!(
        r.on_about_to_wait(110),
        WaitPlan { update_windows: true, control_flow: ControlFlow::WaitUntil(120) }
    );
    // late by several frames: update once, stay on the grid
    assert_eq!(
        r.on_about_to_wait(157),
        WaitPlan { update_windows: true, control_flow: ControlFlow::WaitUntil(160) }
    );
    assert!(r.finish().is_ok());
}

#[test]
fn failed_window_is_reported() {
    let mut r = LoopRunner::new();
    assert_eq!(r.on_resumed(), ResumeAction::CreateWindow);
    r.on_window_failed(Error::InvalidFrameRate);
    assert_eq!(r.on_resumed(), ResumeAction::Ignore);
    assert_eq!(
        r.on_about_to_wait(1),
        WaitPlan { update_windows: false, control_flow: ControlFlow::Wait }
    );
    assert!(matches!(r.finish(), Err(Error::InvalidFrameRate)));
}

#[test]
fn wait_that_would_overflow_is_refused() {
    let mut r = LoopRunner::new();
    r.on_resumed();
    r.on_window_created(10, u64::MAX - 20);
    // deadline u64::MAX - 10; the next one after u64::MAX - 5 would be u64::MAX
    assert!(r.can_wait(u64::MAX - 5));
    assert!(r.can_wait(u64::MAX - 11));
    assert!(r.can_wait(u64::MAX - 1));
    // after u64::MAX itself it would be u64::MAX + 10
    assert!(!r.can_wait(u64::MAX));
    assert_eq!(
        r.on_about_to_wait(u64::MAX - 5),
        WaitPlan { update_windows: true, control_flow: ControlFlow::WaitUntil(u64::MAX) }
    );
}
