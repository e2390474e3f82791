use airs_window::error::Error;
use airs_window::wgpu_window::{
    finish_frame, instance_backends, plan_frame, respond_to_event, Backends, Cursor, FramePlan,
    SurfaceExtent, SurfaceStatus, UpdatePlan, WindowEventKind, WindowResponse, WindowState,
};

#[test]
fn zero_frame_rate_is_refused() {
    assert!(matches!(WindowState::new(0), Err(Error::InvalidFrameRate)));
}

#[test]
fn new_window_state_keeps_rate_and_default_cursor() {
    let s = WindowState::new(60).unwrap();
    assert_eq!(s.max_frame_rate(), 60);
    assert_eq!(s.cursor(), Cursor::Default);
}

#[test]
fn cursor_is_set_only_when_it_changes() {
    let mut s = WindowState::new(30).unwrap();
    assert!(!s.update_cursor(Cursor::Default));
    assert!(s.update_cursor(Cursor::Pointer));
    assert_eq!(s.cursor(), Cursor::Pointer);
    assert!(!s.update_cursor(Cursor::Pointer));
    assert!(s.update_cursor(Cursor::Default));
}

#[test]
fn update_plan_follows_handler() {
    let mut s = WindowState::new(30).unwrap();
    assert_eq!(
        s.after_update(true, Cursor::Text),
        UpdatePlan { set_cursor: true, request_redraw: true }
    );
    assert_eq!(
        s.after_update(false, Cursor::Text),
        UpdatePlan { set_cursor: false, request_redraw: false }
    );
    assert_eq!(s.cursor(), Cursor::Text);
    assert_eq!(s.max_frame_rate(), 30);
}

#[test]
fn surface_extent_never_zero() {
    let e = SurfaceExtent::for_window(0, 0);
    assert_eq!((e.width(), e.height()), (1, 1));
    let e = SurfaceExtent::for_window(800, 0);
    assert_eq!((e.width(), e.height()), (800, 1));
    let e = SurfaceExtent::for_window(640, 480);
    assert_eq!((e.width(), e.height()), (640, 480));
}

#[test]
fn resize_ignores_zero_sides() {
    let mut e = SurfaceExtent::for_window(640, 480);
    assert!(!e.resize(0, 100));
    assert!(!e.resize(100, 0));
    assert!(!e.resize(0, 0));
    assert_eq!((e.width(), e.height()), (640, 480));
    assert!(e.resize(1024, 768));
    assert_eq!((e.width(), e.height()), (1024, 768));
    assert!(e.resize(1024, 768));
    assert_eq!((e.width(), e.height()), (1024, 768));
}

#[test]
fn frame_plans() {
    assert!(matches!(plan_frame(SurfaceStatus::Success), FramePlan::Draw));
    assert!(matches!(plan_frame(SurfaceStatus::Suboptimal), FramePlan::Draw));
    assert!(matches!(plan_frame(SurfaceStatus::Timeout), FramePlan::Skip));
    assert!(matches!(plan_frame(SurfaceStatus::Occluded), FramePlan::Skip));
    assert!(matches!(plan_frame(SurfaceStatus::Outdated), FramePlan::Reconfigure));
    assert!(matches!(plan_frame(SurfaceStatus::Lost), FramePlan::Fail(Error::SurfaceLost)));
    assert!(matches!(
        plan_frame(SurfaceStatus::Validation),
        FramePlan::Fail(Error::SurfaceValidation)
    ));
}

#[test]
fn handler_failure_becomes_user_error() {
    assert!(finish_frame(Ok(())).is_ok());
    match finish_frame(Err("shader broke".to_string())) {
        Err(Error::User(m)) => assert_eq!(m, "shader broke"),
        other => panic!("unexpected {:?}", other),
    }
}

#[test]
fn window_event_responses() {
    assert_eq!(respond_to_event(WindowEventKind::CloseRequested), WindowResponse::Close);
    assert_eq!(
        respond_to_event(WindowEventKind::Resized { width: 3, height: 0 }),
        WindowResponse::Resize { width: 3, height: 0 }
    );
    assert_eq!(respond_to_event(WindowEventKind::ScaleFactorChanged), WindowResponse::Rescale);
    assert_eq!(respond_to_event(WindowEventKind::RedrawRequested), WindowResponse::Render);
    assert_eq!(respond_to_event(WindowEventKind::Other), WindowResponse::Forward);
}

#[test]
fn backends_per_platform() {
    assert_eq!(instance_backends(true), Backends::Dx12);
    assert_eq!(instance_backends(false), Backends::All);
}
