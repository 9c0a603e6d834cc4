use flowcontrol::edge_detection::EdgeDetectionImpl;
use flowcontrol::input::{
    button_event_type, button_flags, hook_message_kind, move_event_type, tap_decision, wheel_rotation, CapturedKind,
    InputError, TapDecision,
};
use flowcontrol::screen_layout::{Edge, ScreenDimensions};

#[test]
fn unconfigured_detector_never_fires() {
    let mut ed = EdgeDetectionImpl::new();
    assert!(!ed.observe(true));
}

#[test]
fn detector_fires_on_arrival_only_once() {
    let mut ed = EdgeDetectionImpl::new();
    ed.configure(Edge::Right, ScreenDimensions { width: 1920, height: 1080 });
    assert!(!ed.observe(false));
    assert!(ed.observe(true));
    assert!(!ed.observe(true));
    assert!(!ed.observe(false));
    assert!(ed.observe(true));
}

#[test]
fn reset_rearms_detector() {
    let mut ed = EdgeDetectionImpl::new();
    ed.configure(Edge::Left, ScreenDimensions { width: 10, height: 10 });
    assert!(ed.observe(true));
    ed.reset();
    assert!(ed.observe(true));
    assert_eq!(ed.edge, Edge::Left);
}

#[test]
fn tap_grace_period_swallows_silently() {
    assert_eq!(
        tap_decision(5, false, 3),
        TapDecision { report: CapturedKind::Nothing, swallow: true, grace_frames_after: 2 }
    );
}

#[test]
fn tap_reports_position_or_delta() {
    assert_eq!(tap_decision(5, false, 0).report, CapturedKind::Position);
    assert!(!tap_decision(5, false, 0).swallow);
    assert_eq!(tap_decision(5, true, 0).report, CapturedKind::Delta { button: None });
    assert_eq!(tap_decision(6, true, 0).report, CapturedKind::Delta { button: Some(0) });
    assert_eq!(tap_decision(7, true, 0).report, CapturedKind::Delta { button: Some(1) });
    assert!(tap_decision(7, true, 0).swallow);
    assert_eq!(tap_decision(1, false, 0).report, CapturedKind::Button { button: 0, pressed: true });
    assert_eq!(tap_decision(4, false, 0).report, CapturedKind::Button { button: 1, pressed: false });
    assert_eq!(tap_decision(22, true, 0).report, CapturedKind::Wheel);
    assert_eq!(tap_decision(99, false, 0).report, CapturedKind::Nothing);
}

#[test]
fn injected_event_types() {
    assert_eq!(move_event_type(None), (5, 0));
    assert_eq!(move_event_type(Some(0)), (6, 0));
    assert_eq!(move_event_type(Some(1)), (7, 1));
    assert_eq!(move_event_type(Some(2)), (5, 0));
    assert_eq!(button_event_type(0, true), Some((1, 0)));
    assert_eq!(button_event_type(1, false), Some((4, 1)));
    assert_eq!(button_event_type(2, true), None);
}

#[test]
fn windows_hook_and_flags() {
    assert_eq!(hook_message_kind(-1, 0x0200), CapturedKind::Nothing);
    assert_eq!(hook_message_kind(0, 0x0200), CapturedKind::Position);
    assert_eq!(hook_message_kind(0, 0x0204), CapturedKind::Button { button: 1, pressed: true });
    assert_eq!(hook_message_kind(0, 0x020A), CapturedKind::Wheel);
    assert_eq!(wheel_rotation(0x0078_0000), 120);
    assert_eq!(wheel_rotation(0xFF88_0000), -120);
    assert_eq!(button_flags(0, true), Some(0x0002));
    assert_eq!(button_flags(1, false), Some(0x0010));
    assert_eq!(button_flags(3, false), None);
}

#[test]
fn input_error_messages() {
    assert_eq!(InputError::PermissionDenied.message(), "accessibility permission denied");
    assert_eq!(InputError::EventTapFailed("null".to_string()).message(), "failed to create event tap: null");
    assert_eq!(InputError::Platform("x".to_string()).message(), "platform error: x");
}
