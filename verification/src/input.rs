//! Input vocabulary and the platform-independent decisions of the input
//! layer: how raw OS mouse events are classified, when the capture hook
//! swallows an event, and which OS event codes injection uses.
use vstd::prelude::*;

verus! {

#[derive(Debug, Clone, Copy, PartialEq, Eq, Structural)]
pub enum PermissionStatus {
    Granted,
    Denied,
    NotDetermined,
}

#[derive(Debug)]
pub enum InputError {
    PermissionDenied,
    EventTapFailed(String),
    Platform(String),
}

pub open spec fn spec_input_error_text(e: InputError) -> Seq<char> {
    match e {
        InputError::PermissionDenied => "accessibility permission denied"@,
        InputError::EventTapFailed(s) => "failed to create event tap: "@ + s@,
        InputError::Platform(s) => "platform error: "@ + s@,
    }
}

impl InputError {
    /// The error's message, as shown to the user.
    pub fn message(&self) -> (text: String)
        ensures
            text@ == spec_input_error_text(*self),
    {
        match self {
            InputError::PermissionDenied => String::from_str("accessibility permission denied"),
            InputError::EventTapFailed(s) => String::from_str("failed to create event tap: ").concat(s.as_str()),
            InputError::Platform(s) => String::from_str("platform error: ").concat(s.as_str()),
        }
    }
}

// Quartz event type codes (CGEventType).
pub const K_CG_EVENT_LEFT_MOUSE_DOWN: u32 = 1;
pub const K_CG_EVENT_LEFT_MOUSE_UP: u32 = 2;
pub const K_CG_EVENT_RIGHT_MOUSE_DOWN: u32 = 3;
pub const K_CG_EVENT_RIGHT_MOUSE_UP: u32 = 4;
pub const K_CG_EVENT_MOUSE_MOVED: u32 = 5;
pub const K_CG_EVENT_LEFT_MOUSE_DRAGGED: u32 = 6;
pub const K_CG_EVENT_RIGHT_MOUSE_DRAGGED: u32 = 7;
pub const K_CG_EVENT_SCROLL_WHEEL: u32 = 22;

/// What a captured OS mouse event is reported as.
#[derive(Debug, Clone, Copy, PartialEq, Eq, Structural)]
pub enum CapturedKind {
    /// Report the absolute cursor position.
    Position,
    /// Report the hardware delta; `button` carries the drag state.
    Delta { button: Option<u8> },
    Button { button: u8, pressed: bool },
    /// Report the wheel deltas.
    Wheel,
    /// Not reported.
    Nothing,
}

/// What the capture hook does with one event.
#[derive(Debug, Clone, Copy, PartialEq, Eq, Structural)]
pub struct TapDecision {
    pub report: CapturedKind,
    /// Consume the event so the local cursor does not see it.
    pub swallow: bool,
    pub grace_frames_after: u8,
}

/// The Quartz tap's decision for an event of type `event_type`. During the
/// grace period after the cursor came back, events are swallowed unreported.
/// Otherwise moves and drags report a delta while local input is suppressed
/// and a position when it is not; clicks and the wheel are reported as such;
/// and every event is swallowed exactly while suppressing.
pub open spec fn spec_tap_decision(event_type: u32, suppressing: bool, grace_frames: u8) -> TapDecision {
    if grace_frames > 0 {
        TapDecision { report: CapturedKind::Nothing, swallow: true, grace_frames_after: (grace_frames - 1) as u8 }
    } else {
        let report = if event_type == K_CG_EVENT_MOUSE_MOVED || event_type == K_CG_EVENT_LEFT_MOUSE_DRAGGED
            || event_type == K_CG_EVENT_RIGHT_MOUSE_DRAGGED {
            if suppressing {
                CapturedKind::Delta {
                    button: if event_type == K_CG_EVENT_LEFT_MOUSE_DRAGGED {
                        Some(0u8)
                    } else if event_type == K_CG_EVENT_RIGHT_MOUSE_DRAGGED {
                        Some(1u8)
                    } else {
                        None
                    },
                }
            } else {
                CapturedKind::Position
            }
        } else if event_type == K_CG_EVENT_LEFT_MOUSE_DOWN {
            CapturedKind::Button { button: 0, pressed: true }
        } else if event_type == K_CG_EVENT_LEFT_MOUSE_UP {
            CapturedKind::Button { button: 0, pressed: false }
        } else if event_type == K_CG_EVENT_RIGHT_MOUSE_DOWN {
            CapturedKind::Button { button: 1, pressed: true }
        } else if event_type == K_CG_EVENT_RIGHT_MOUSE_UP {
            CapturedKind::Button { button: 1, pressed: false }
        } else if event_type == K_CG_EVENT_SCROLL_WHEEL {
            CapturedKind::Wheel
        } else {
            CapturedKind::Nothing
        };
        TapDecision { report, swallow: suppressing, grace_frames_after: 0 }
    }
}

/// Decides what the Quartz event tap does with one event.
pub fn tap_decision(event_type: u32, suppressing: bool, grace_frames: u8) -> (d: TapDecision)
    ensures
        d == spec_tap_decision(event_type, suppressing, grace_frames),
{
    if grace_frames > 0 {
        return TapDecision { report: CapturedKind::Nothing, swallow: true, grace_frames_after: grace_frames - 1 };
    }
    let report = match event_type {
        K_CG_EVENT_MOUSE_MOVED | K_CG_EVENT_LEFT_MOUSE_DRAGGED | K_CG_EVENT_RIGHT_MOUSE_DRAGGED => {
            if suppressing {
                let button = match event_type {
                    K_CG_EVENT_LEFT_MOUSE_DRAGGED => Some(0u8),
                    K_CG_EVENT_RIGHT_MOUSE_DRAGGED => Some(1u8),
                    _ => None,
                };
                CapturedKind::Delta { button }
            } else {
                CapturedKind::Position
            }
        },
        K_CG_EVENT_LEFT_MOUSE_DOWN => CapturedKind::Button { button: 0, pressed: true },
        K_CG_EVENT_LEFT_MOUSE_UP => CapturedKind::Button { button: 0, pressed: false },
        K_CG_EVENT_RIGHT_MOUSE_DOWN => CapturedKind::Button { button: 1, pressed: true },
        K_CG_EVENT_RIGHT_MOUSE_UP => CapturedKind::Button { button: 1, pressed: false },
        K_CG_EVENT_SCROLL_WHEEL => CapturedKind::Wheel,
        _ => CapturedKind::Nothing,
    };
    TapDecision { report, swallow: suppressing, grace_frames_after: 0 }
}

/// Outside the grace period every click is reported with its own button
/// and direction, whether or not local input is suppressed: left down and up
/// as button 0 pressed and released, right down and up as button 1 pressed
/// and released. A release is never reported as a press, nor a press as a
/// release.
pub proof fn lemma_tap_reports_clicks_faithfully(suppressing: bool)
    ensures
        spec_tap_decision(K_CG_EVENT_LEFT_MOUSE_DOWN, suppressing, 0).report == (CapturedKind::Button { button: 0, pressed: true }),
        spec_tap_decision(K_CG_EVENT_LEFT_MOUSE_UP, suppressing, 0).report == (CapturedKind::Button { button: 0, pressed: false }),
        spec_tap_decision(K_CG_EVENT_RIGHT_MOUSE_DOWN, suppressing, 0).report == (CapturedKind::Button { button: 1, pressed: true }),
        spec_tap_decision(K_CG_EVENT_RIGHT_MOUSE_UP, suppressing, 0).report == (CapturedKind::Button { button: 1, pressed: false }),
{
}

/// A click injected on one machine is captured as the same click: the
/// Quartz event chosen for injecting button `button` (left or right) in
/// direction `pressed` is reported by the tap, outside the grace period, as
/// that button in that direction, and is swallowed exactly while
/// suppressing.
pub proof fn lemma_injected_click_is_captured_back(button: u8, pressed: bool, suppressing: bool)
    requires
        button == 0 || button == 1,
    ensures
        spec_button_event_type(button, pressed) is Some,
        ({
            let (event_type, _) = spec_button_event_type(button, pressed).unwrap();
            spec_tap_decision(event_type, suppressing, 0) == (TapDecision {
                report: CapturedKind::Button { button, pressed },
                swallow: suppressing,
                grace_frames_after: 0,
            })
        }),
{
}

/// The Quartz event type and button number for an injected move: a drag
/// while a button is held, a plain move otherwise.
pub open spec fn spec_move_event_type(button: Option<u8>) -> (u32, u32) {
    match button {
        Some(b) => if b == 0 {
            (K_CG_EVENT_LEFT_MOUSE_DRAGGED, 0u32)
        } else if b == 1 {
            (K_CG_EVENT_RIGHT_MOUSE_DRAGGED, 1u32)
        } else {
            (K_CG_EVENT_MOUSE_MOVED, 0u32)
        },
        None => (K_CG_EVENT_MOUSE_MOVED, 0u32),
    }
}

pub fn move_event_type(button: Option<u8>) -> (t: (u32, u32))
    ensures
        t == spec_move_event_type(button),
{
    match button {
        Some(0) => (K_CG_EVENT_LEFT_MOUSE_DRAGGED, 0u32),
        Some(1) => (K_CG_EVENT_RIGHT_MOUSE_DRAGGED, 1u32),
        _ => (K_CG_EVENT_MOUSE_MOVED, 0u32),
    }
}

/// The Quartz event type and button number for an injected click of the
/// left (0) or right (1) button; other buttons are not injected.
pub open spec fn spec_button_event_type(button: u8, pressed: bool) -> Option<(u32, u32)> {
    if button == 0 {
        Some((if pressed { K_CG_EVENT_LEFT_MOUSE_DOWN } else { K_CG_EVENT_LEFT_MOUSE_UP }, 0u32))
    } else if button == 1 {
        Some((if pressed { K_CG_EVENT_RIGHT_MOUSE_DOWN } else { K_CG_EVENT_RIGHT_MOUSE_UP }, 1u32))
    } else {
        None
    }
}

pub fn button_event_type(button: u8, pressed: bool) -> (t: Option<(u32, u32)>)
    ensures
        t == spec_button_event_type(button, pressed),
{
    let (down_type, up_type, cg_button) = match button {
        0 => (K_CG_EVENT_LEFT_MOUSE_DOWN, K_CG_EVENT_LEFT_MOUSE_UP, 0u32),
        1 => (K_CG_EVENT_RIGHT_MOUSE_DOWN, K_CG_EVENT_RIGHT_MOUSE_UP, 1u32),
        _ => return None,
    };
    Some((if pressed { down_type } else { up_type }, cg_button))
}

// Win32 mouse message identifiers (WM_*).
pub const WM_MOUSEMOVE: u32 = 0x0200;
pub const WM_LBUTTONDOWN: u32 = 0x0201;
pub const WM_LBUTTONUP: u32 = 0x0202;
pub const WM_RBUTTONDOWN: u32 = 0x0204;
pub const WM_RBUTTONUP: u32 = 0x0205;
pub const WM_MOUSEWHEEL: u32 = 0x020A;

/// What the Win32 low-level mouse hook reports for message `msg` received
/// with hook code `code`: nothing for a negative code, otherwise moves,
/// left/right clicks and the wheel.
pub open spec fn spec_hook_message_kind(code: i32, msg: u32) -> CapturedKind {
    if code < 0 {
        CapturedKind::Nothing
    } else if msg == WM_MOUSEMOVE {
        CapturedKind::Position
    } else if msg == WM_LBUTTONDOWN {
        CapturedKind::Button { button: 0, pressed: true }
    } else if msg == WM_LBUTTONUP {
        CapturedKind::Button { button: 0, pressed: false }
    } else if msg == WM_RBUTTONDOWN {
        CapturedKind::Button { button: 1, pressed: true }
    } else if msg == WM_RBUTTONUP {
        CapturedKind::Button { button: 1, pressed: false }
    } else if msg == WM_MOUSEWHEEL {
        CapturedKind::Wheel
    } else {
        CapturedKind::Nothing
    }
}

pub fn hook_message_kind(code: i32, msg: u32) -> (k: CapturedKind)
    ensures
        k == spec_hook_message_kind(code, msg),
{
    if code < 0 {
        return CapturedKind::Nothing;
    }
    match msg {
        WM_MOUSEMOVE => CapturedKind::Position,
        WM_LBUTTONDOWN => CapturedKind::Button { button: 0, pressed: true },
        WM_LBUTTONUP => CapturedKind::Button { button: 0, pressed: false },
        WM_RBUTTONDOWN => CapturedKind::Button { button: 1, pressed: true },
        WM_RBUTTONUP => CapturedKind::Button { button: 1, pressed: false },
        WM_MOUSEWHEEL => CapturedKind::Wheel,
        _ => CapturedKind::Nothing,
    }
}

/// The wheel rotation carried in the high word of a hook's `mouseData`, as a
/// signed count (multiples of the wheel delta, 120 per notch).
pub open spec fn spec_wheel_rotation(mouse_data: u32) -> int {
    let hi = mouse_data / 0x1_0000;
    if hi >= 0x8000 { hi - 0x1_0000 } else { hi as int }
}

pub fn wheel_rotation(mouse_data: u32) -> (r: i16)
    ensures
        r == spec_wheel_rotation(mouse_data),
{
    let hi: u32 = mouse_data / 0x1_0000;
    if hi >= 0x8000 {
        (hi as i32 - 0x1_0000i32) as i16
    } else {
        hi as i16
    }
}

/// For a non-negative hook code, every click message is reported with its
/// own button and direction: left down and up as button 0 pressed and
/// released, right down and up as button 1 pressed and released.
pub proof fn lemma_hook_reports_clicks_faithfully(code: i32)
    requires
        code >= 0,
    ensures
        spec_hook_message_kind(code, WM_LBUTTONDOWN) == (CapturedKind::Button { button: 0, pressed: true }),
        spec_hook_message_kind(code, WM_LBUTTONUP) == (CapturedKind::Button { button: 0, pressed: false }),
        spec_hook_message_kind(code, WM_RBUTTONDOWN) == (CapturedKind::Button { button: 1, pressed: true }),
        spec_hook_message_kind(code, WM_RBUTTONUP) == (CapturedKind::Button { button: 1, pressed: false }),
{
}

/// The rotation read back from `mouseData` is the signed 16-bit value stored
/// in its high word, whatever the low word holds: a negative rotation (the
/// wheel turned toward the user) stays negative.
pub proof fn lemma_wheel_rotation_reads_high_word(rotation: i16, low: u32)
    requires
        low < 0x1_0000,
    ensures
        spec_wheel_rotation(
            ((if rotation < 0 { rotation + 0x1_0000 } else { rotation as int }) * 0x1_0000 + low) as u32,
        ) == rotation,
{
    let hi: int = if rotation < 0 { rotation + 0x1_0000 } else { rotation as int };
    assert(0 <= hi < 0x1_0000);
    let data: int = hi * 0x1_0000 + low;
    assert(0 <= data < 0x1_0000_0000) by (nonlinear_arith)
        requires
            0 <= hi < 0x1_0000,
            0 <= low < 0x1_0000,
            data == hi * 0x1_0000 + low,
    ;
    assert(data / 0x1_0000 == hi) by (nonlinear_arith)
        requires
            0 <= hi,
            0 <= low < 0x1_0000,
            data == hi * 0x1_0000 + low,
    ;
}

// Win32 SendInput mouse flags (MOUSEEVENTF_*).
pub const MOUSEEVENTF_LEFTDOWN: u32 = 0x0002;
pub const MOUSEEVENTF_LEFTUP: u32 = 0x0004;
pub const MOUSEEVENTF_RIGHTDOWN: u32 = 0x0008;
pub const MOUSEEVENTF_RIGHTUP: u32 = 0x0010;

/// The SendInput flag for a click of the left (0) or right (1) button;
/// other buttons are not injected.
pub open spec fn spec_button_flags(button: u8, pressed: bool) -> Option<u32> {
    if button == 0 {
        Some(if pressed { MOUSEEVENTF_LEFTDOWN } else { MOUSEEVENTF_LEFTUP })
    } else if button == 1 {
        Some(if pressed { MOUSEEVENTF_RIGHTDOWN } else { MOUSEEVENTF_RIGHTUP })
    } else {
        None
    }
}

pub fn button_flags(button: u8, pressed: bool) -> (f: Option<u32>)
    ensures
        f == spec_button_flags(button, pressed),
{
    match (button, pressed) {
        (0, true) => Some(MOUSEEVENTF_LEFTDOWN),
        (0, false) => Some(MOUSEEVENTF_LEFTUP),
        (1, true) => Some(MOUSEEVENTF_RIGHTDOWN),
        (1, false) => Some(MOUSEEVENTF_RIGHTUP),
        _ => None,
    }
}

} // verus!
