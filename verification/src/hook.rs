use vstd::prelude::*;

use crate::ime::{spec_key_input, ImeMode, EXTRA_INFO_MAGIC};

verus! {

/// Virtual-key code of either Ctrl key (Win32 `VK_CONTROL`).
pub const VK_CONTROL: u16 = 0x11;

/// Virtual-key code of the left Ctrl key (Win32 `VK_LCONTROL`).
pub const VK_LCONTROL: u16 = 0xA2;

/// Virtual-key code of the right Ctrl key (Win32 `VK_RCONTROL`).
pub const VK_RCONTROL: u16 = 0xA3;

/// Low-level keyboard hook flag: the key is an extended key (Win32 `LLKHF_EXTENDED`).
pub const LLKHF_EXTENDED: u32 = 0x01;

/// Whether the hook flags mark an extended key.
pub open spec fn is_extended(flags: u32) -> bool {
    flags & LLKHF_EXTENDED != 0
}

/// The key reported as `vk` with hook flags `flags` is the left Ctrl key:
/// `VK_LCONTROL`, or the generic `VK_CONTROL` without the extended flag.
pub open spec fn spec_is_left_ctrl(vk: u32, flags: u32) -> bool {
    vk == VK_LCONTROL as u32 || (vk == VK_CONTROL as u32 && !is_extended(flags))
}

/// The key reported as `vk` with hook flags `flags` is the right Ctrl key:
/// `VK_RCONTROL`, or the generic `VK_CONTROL` with the extended flag.
pub open spec fn spec_is_right_ctrl(vk: u32, flags: u32) -> bool {
    vk == VK_RCONTROL as u32 || (vk == VK_CONTROL as u32 && is_extended(flags))
}

/// Tells whether a key event comes from the left Ctrl key.
pub fn is_left_ctrl(vk: u32, flags: u32) -> (r: bool)
    ensures
        r == spec_is_left_ctrl(vk, flags),
        vk == VK_LCONTROL as u32 ==> r,
        vk != VK_LCONTROL as u32 && vk != VK_CONTROL as u32 ==> !r,
        vk == VK_CONTROL as u32 ==> (r <==> flags % 2 == 0),
{
    proof {
        assert(flags & 1 != 0 <==> flags % 2 == 1) by (bit_vector);
    }
    vk == VK_LCONTROL as u32 || (vk == VK_CONTROL as u32 && (flags & LLKHF_EXTENDED == 0))
}

/// Tells whether a key event comes from the right Ctrl key.
pub fn is_right_ctrl(vk: u32, flags: u32) -> (r: bool)
    ensures
        r == spec_is_right_ctrl(vk, flags),
        vk == VK_RCONTROL as u32 ==> r,
        vk != VK_RCONTROL as u32 && vk != VK_CONTROL as u32 ==> !r,
        vk == VK_CONTROL as u32 ==> (r <==> flags % 2 == 1),
{
    proof {
        assert(flags & 1 != 0 <==> flags % 2 == 1) by (bit_vector);
    }
    vk == VK_RCONTROL as u32 || (vk == VK_CONTROL as u32 && (flags & LLKHF_EXTENDED != 0))
}

/// No key event is both the left and the right Ctrl key.
pub proof fn lemma_ctrl_sides_exclusive(vk: u32, flags: u32)
    ensures
        !(spec_is_left_ctrl(vk, flags) && spec_is_right_ctrl(vk, flags)),
{
}


/// Default tap timeout in milliseconds.
/// If Ctrl is held longer than this, releasing it does not toggle the IME.
pub const DEFAULT_TIMEOUT_MS: u32 = 1000;

/// What a key release amounts to.
#[derive(Debug, Clone, Copy, PartialEq, Eq, Structural)]
pub enum TapResult {
    /// The release completes no tap.
    NoTap,
    LeftCtrlTap,
    RightCtrlTap,
}

/// The Ctrl key that is held down and may still become a tap, with the time
/// (in milliseconds, as the hook reports it) at which it was first pressed.
#[derive(Debug, Clone, Copy, PartialEq, Eq, Structural)]
pub enum PendingCtrl {
    /// No Ctrl key is pending.
    Idle,
    Left { pressed_time: u32 },
    Right { pressed_time: u32 },
}

/// Milliseconds from `pressed` to `now` on the hook's 32-bit clock, which
/// wraps around: a press just before the wrap and a release just after it
/// are close together.
pub open spec fn elapsed_ms(now: u32, pressed: u32) -> int {
    if now >= pressed {
        now - pressed
    } else {
        now + 0x1_0000_0000 - pressed
    }
}

/// The pending Ctrl key after a key-down event.
/// A repeated press of the held Ctrl key keeps the first press time; a press of
/// the other Ctrl key starts over with that key; any other key cancels the tap.
pub open spec fn pending_after_key_down(p: PendingCtrl, vk: u32, flags: u32, time: u32) -> PendingCtrl {
    if spec_is_left_ctrl(vk, flags) {
        if p is Left { p } else { PendingCtrl::Left { pressed_time: time } }
    } else if spec_is_right_ctrl(vk, flags) {
        if p is Right { p } else { PendingCtrl::Right { pressed_time: time } }
    } else {
        PendingCtrl::Idle
    }
}

/// What releasing a key amounts to: a tap of that Ctrl key when the same Ctrl
/// key is pending and was pressed no more than `timeout_ms` ago.
pub open spec fn tap_after_key_up(p: PendingCtrl, vk: u32, flags: u32, time: u32, timeout_ms: u32) -> TapResult {
    if spec_is_left_ctrl(vk, flags) {
        match p {
            PendingCtrl::Left { pressed_time } =>
                if elapsed_ms(time, pressed_time) <= timeout_ms { TapResult::LeftCtrlTap } else { TapResult::NoTap },
            _ => TapResult::NoTap,
        }
    } else if spec_is_right_ctrl(vk, flags) {
        match p {
            PendingCtrl::Right { pressed_time } =>
                if elapsed_ms(time, pressed_time) <= timeout_ms { TapResult::RightCtrlTap } else { TapResult::NoTap },
            _ => TapResult::NoTap,
        }
    } else {
        TapResult::NoTap
    }
}

/// The pending Ctrl key after a key-up event: releasing either Ctrl key ends
/// any pending tap; releasing another key changes nothing.
pub open spec fn pending_after_key_up(p: PendingCtrl, vk: u32, flags: u32) -> PendingCtrl {
    if spec_is_left_ctrl(vk, flags) || spec_is_right_ctrl(vk, flags) {
        PendingCtrl::Idle
    } else {
        p
    }
}

/// Recognises short taps of the left and right Ctrl keys.
#[derive(Debug)]
pub struct CtrlTapTracker {
    pending: PendingCtrl,
    pub timeout_ms: u32,
}

impl CtrlTapTracker {
    /// The Ctrl key that is currently pending, if any.
    pub closed spec fn pending(self) -> PendingCtrl {
        self.pending
    }

    /// The tap timeout in milliseconds (the field `timeout_ms`).
    pub closed spec fn timeout(self) -> u32 {
        self.timeout_ms
    }

    /// A tracker with nothing pending and the given tap timeout.
    pub fn new(timeout_ms: u32) -> (r: CtrlTapTracker)
        ensures
            r.pending() == PendingCtrl::Idle,
            r.timeout() == timeout_ms,
    {
        CtrlTapTracker { pending: PendingCtrl::Idle, timeout_ms }
    }

    /// Forgets any pending Ctrl press.
    pub fn reset(&mut self)
        ensures
            final(self).pending() == PendingCtrl::Idle,
            final(self).timeout() == old(self).timeout(),
    {
        self.pending = PendingCtrl::Idle;
    }

    /// Records a key-down event.
    pub fn on_key_down(&mut self, vk_code: u32, flags: u32, time: u32)
        ensures
            final(self).pending() == pending_after_key_down(old(self).pending(), vk_code, flags, time),
            final(self).timeout() == old(self).timeout(),
    {
        let left = is_left_ctrl(vk_code, flags);
        let right = is_right_ctrl(vk_code, flags);

        if left {
            match self.pending {
                PendingCtrl::Left { .. } => {
                    // a repeated press keeps the first press time
                },
                _ => {
                    self.pending = PendingCtrl::Left { pressed_time: time };
                },
            }
        } else if right {
            match self.pending {
                PendingCtrl::Right { .. } => {},
                _ => {
                    self.pending = PendingCtrl::Right { pressed_time: time };
                },
            }
        } else {
            // any other key pressed while Ctrl is held (Ctrl + C, ...) cancels the tap
            self.pending = PendingCtrl::Idle;
        }
    }

    /// Records a key-up event and tells whether it completes a Ctrl tap.
    pub fn on_key_up(&mut self, vk_code: u32, flags: u32, time: u32) -> (r: TapResult)
        ensures
            r == tap_after_key_up(old(self).pending(), vk_code, flags, time, old(self).timeout()),
            final(self).pending() == pending_after_key_up(old(self).pending(), vk_code, flags),
            final(self).timeout() == old(self).timeout(),
    {
        let left = is_left_ctrl(vk_code, flags);
        let right = is_right_ctrl(vk_code, flags);

        let mut result = TapResult::NoTap;

        if left {
            if let PendingCtrl::Left { pressed_time } = self.pending {
                let elapsed = time.wrapping_sub(pressed_time);
                if elapsed <= self.timeout_ms {
                    result = TapResult::LeftCtrlTap;
                }
            }
            self.pending = PendingCtrl::Idle;
        } else if right {
            if let PendingCtrl::Right { pressed_time } = self.pending {
                let elapsed = time.wrapping_sub(pressed_time);
                if elapsed <= self.timeout_ms {
                    result = TapResult::RightCtrlTap;
                }
            }
            self.pending = PendingCtrl::Idle;
        }
        result
    }
}


/// Pressing a Ctrl key that is not already pending and releasing it again
/// is a tap of that key exactly when the release comes no later than the
/// timeout after the press (on the wrapping 32-bit clock).
pub proof fn lemma_press_release_is_tap(p: PendingCtrl, vk: u32, flags: u32, t_down: u32, t_up: u32, timeout_ms: u32)
    requires
        spec_is_left_ctrl(vk, flags) ==> !(p is Left),
        spec_is_right_ctrl(vk, flags) ==> !(p is Right),
    ensures
        spec_is_left_ctrl(vk, flags) ==> tap_after_key_up(pending_after_key_down(p, vk, flags, t_down), vk, flags, t_up, timeout_ms)
            == (if elapsed_ms(t_up, t_down) <= timeout_ms { TapResult::LeftCtrlTap } else { TapResult::NoTap }),
        spec_is_right_ctrl(vk, flags) ==> tap_after_key_up(pending_after_key_down(p, vk, flags, t_down), vk, flags, t_up, timeout_ms)
            == (if elapsed_ms(t_up, t_down) <= timeout_ms { TapResult::RightCtrlTap } else { TapResult::NoTap }),
{
    lemma_ctrl_sides_exclusive(vk, flags);
}

/// A tap is reported only for the Ctrl key that is released, and only when
/// that same Ctrl key is pending.
pub proof fn lemma_tap_matches_released_key(p: PendingCtrl, vk: u32, flags: u32, time: u32, timeout_ms: u32)
    ensures
        tap_after_key_up(p, vk, flags, time, timeout_ms) == TapResult::LeftCtrlTap
            ==> spec_is_left_ctrl(vk, flags) && p is Left,
        tap_after_key_up(p, vk, flags, time, timeout_ms) == TapResult::RightCtrlTap
            ==> spec_is_right_ctrl(vk, flags) && p is Right,
{
    lemma_ctrl_sides_exclusive(vk, flags);
}

/// Pressing any key other than Ctrl cancels a pending tap: no release that
/// follows it is a tap.
pub proof fn lemma_other_key_cancels_tap(
    p: PendingCtrl,
    vk: u32,
    flags: u32,
    time: u32,
    up_vk: u32,
    up_flags: u32,
    up_time: u32,
    timeout_ms: u32,
)
    requires
        !spec_is_left_ctrl(vk, flags),
        !spec_is_right_ctrl(vk, flags),
    ensures
        pending_after_key_down(p, vk, flags, time) == PendingCtrl::Idle,
        tap_after_key_up(pending_after_key_down(p, vk, flags, time), up_vk, up_flags, up_time, timeout_ms)
            == TapResult::NoTap,
{
}

/// Auto-repeat of a held Ctrl key keeps the time of the first press.
pub proof fn lemma_repeat_keeps_first_press(p: PendingCtrl, vk: u32, flags: u32, t_first: u32, t_repeat: u32)
    requires
        spec_is_left_ctrl(vk, flags) || spec_is_right_ctrl(vk, flags),
    ensures
        pending_after_key_down(pending_after_key_down(p, vk, flags, t_first), vk, flags, t_repeat)
            == pending_after_key_down(p, vk, flags, t_first),
{
    lemma_ctrl_sides_exclusive(vk, flags);
}

/// Releasing a Ctrl key always ends the pending tap; releasing any other key
/// changes nothing and is no tap.
pub proof fn lemma_release_effects(p: PendingCtrl, vk: u32, flags: u32, time: u32, timeout_ms: u32)
    ensures
        spec_is_left_ctrl(vk, flags) || spec_is_right_ctrl(vk, flags)
            ==> pending_after_key_up(p, vk, flags) == PendingCtrl::Idle,
        !spec_is_left_ctrl(vk, flags) && !spec_is_right_ctrl(vk, flags)
            ==> pending_after_key_up(p, vk, flags) == p
                && tap_after_key_up(p, vk, flags, time, timeout_ms) == TapResult::NoTap,
{
}

/// With nothing pending (a new or reset tracker), no release is a tap.
pub proof fn lemma_idle_release_is_no_tap(vk: u32, flags: u32, time: u32, timeout_ms: u32)
    ensures
        tap_after_key_up(PendingCtrl::Idle, vk, flags, time, timeout_ms) == TapResult::NoTap,
{
}

/// A longer timeout accepts every tap that a shorter one accepts.
pub proof fn lemma_longer_timeout_keeps_taps(p: PendingCtrl, vk: u32, flags: u32, time: u32, shorter: u32, longer: u32)
    requires
        shorter <= longer,
        tap_after_key_up(p, vk, flags, time, shorter) != TapResult::NoTap,
    ensures
        tap_after_key_up(p, vk, flags, time, longer) == tap_after_key_up(p, vk, flags, time, shorter),
{
}


/// Window message of a key press (`WM_KEYDOWN`).
pub const WM_KEYDOWN: u32 = 0x0100;

/// Window message of a key release (`WM_KEYUP`).
pub const WM_KEYUP: u32 = 0x0101;

/// Window message of a key press with Alt or F10 (`WM_SYSKEYDOWN`).
pub const WM_SYSKEYDOWN: u32 = 0x0104;

/// Window message of a key release with Alt or F10 (`WM_SYSKEYUP`).
pub const WM_SYSKEYUP: u32 = 0x0105;

/// The message of a low-level keyboard event is a key press.
pub open spec fn is_key_down_message(msg: u32) -> bool {
    msg == WM_KEYDOWN || msg == WM_SYSKEYDOWN
}

/// The message of a low-level keyboard event is a key release.
pub open spec fn is_key_up_message(msg: u32) -> bool {
    msg == WM_KEYUP || msg == WM_SYSKEYUP
}

/// A request to switch the IME: on (`true`) or off, in the given mode.
#[derive(Debug, Clone, Copy, PartialEq, Eq, Structural)]
pub struct ImeRequest {
    pub on: bool,
    pub mode: ImeMode,
}

/// What a completed tap asks for: a left tap turns the IME off, a right tap
/// turns it on, in the current mode.
pub open spec fn request_for_tap(tap: TapResult, mode: ImeMode) -> Option<ImeRequest> {
    match tap {
        TapResult::LeftCtrlTap => Some(ImeRequest { on: false, mode }),
        TapResult::RightCtrlTap => Some(ImeRequest { on: true, mode }),
        TapResult::NoTap => None,
    }
}

/// The state that the keyboard hook and the tray menu share: the tap
/// tracker, the IME switching mode, and whether tap detection is enabled.
#[derive(Debug)]
pub struct HookGlobalState {
    tracker: CtrlTapTracker,
    mode: ImeMode,
    enabled: bool,
}

impl HookGlobalState {
    /// The Ctrl key that is currently pending, if any.
    pub closed spec fn pending(self) -> PendingCtrl {
        self.tracker.pending()
    }

    /// The tap timeout in milliseconds.
    pub closed spec fn timeout(self) -> u32 {
        self.tracker.timeout()
    }

    /// The IME switching mode.
    pub closed spec fn mode(self) -> ImeMode {
        self.mode
    }

    /// Whether tap detection is enabled.
    pub closed spec fn enabled(self) -> bool {
        self.enabled
    }

    /// The state at start-up: enabled, nothing pending, the default timeout,
    /// and the `ImeKey` mode.
    pub fn new() -> (r: HookGlobalState)
        ensures
            r.enabled(),
            r.pending() == PendingCtrl::Idle,
            r.timeout() == DEFAULT_TIMEOUT_MS,
            r.mode() == ImeMode::ImeKey,
    {
        HookGlobalState {
            tracker: CtrlTapTracker::new(DEFAULT_TIMEOUT_MS),
            mode: ImeMode::ImeKey,
            enabled: true,
        }
    }
}

/// Enables or pauses tap detection. Pausing also forgets any pending press.
pub fn set_enabled(state: &mut HookGlobalState, enabled: bool)
    ensures
        final(state).enabled() == enabled,
        final(state).pending() == (if enabled { old(state).pending() } else { PendingCtrl::Idle }),
        final(state).timeout() == old(state).timeout(),
        final(state).mode() == old(state).mode(),
{
    state.enabled = enabled;
    if !enabled {
        state.tracker.reset();
    }
}

/// Whether tap detection is enabled.
pub fn is_enabled(state: &HookGlobalState) -> (r: bool)
    ensures
        r == state.enabled(),
{
    state.enabled
}

/// Sets the IME switching mode.
pub fn set_ime_mode(state: &mut HookGlobalState, mode: ImeMode)
    ensures
        final(state).mode() == mode,
        final(state).enabled() == old(state).enabled(),
        final(state).pending() == old(state).pending(),
        final(state).timeout() == old(state).timeout(),
{
    state.mode = mode;
}

/// The IME switching mode.
pub fn get_ime_mode(state: &HookGlobalState) -> (r: ImeMode)
    ensures
        r == state.mode(),
{
    state.mode
}

/// Sets the tap timeout in milliseconds.
pub fn set_timeout_ms(state: &mut HookGlobalState, ms: u32)
    ensures
        final(state).timeout() == ms,
        final(state).enabled() == old(state).enabled(),
        final(state).pending() == old(state).pending(),
        final(state).mode() == old(state).mode(),
{
    state.tracker.timeout_ms = ms;
}

/// A low-level keyboard event is looked at: the hook code allows processing,
/// the event was not injected by this tool, and tap detection is enabled.
pub open spec fn event_is_watched(enabled: bool, n_code: i32, extra_info: usize) -> bool {
    n_code >= 0 && extra_info != EXTRA_INFO_MAGIC && enabled
}

/// Handles one event of the low-level keyboard hook: `n_code` as the hook
/// receives it, `msg` the window message (the hook's `wParam`), and the key
/// code, flags, time and extra information of the event. Returns the IME
/// switch that the event asks for, if any.
pub fn process_key_event(
    state: &mut HookGlobalState,
    n_code: i32,
    msg: u32,
    vk_code: u32,
    flags: u32,
    time: u32,
    extra_info: usize,
) -> (r: Option<ImeRequest>)
    ensures
        final(state).enabled() == old(state).enabled(),
        final(state).mode() == old(state).mode(),
        final(state).timeout() == old(state).timeout(),
        !old(state).enabled() || n_code < 0 || extra_info == EXTRA_INFO_MAGIC ==> {
            &&& final(state).pending() == old(state).pending()
            &&& r is None
        },
        !event_is_watched(old(state).enabled(), n_code, extra_info) ==> {
            &&& final(state).pending() == old(state).pending()
            &&& r is None
        },
        event_is_watched(old(state).enabled(), n_code, extra_info) && is_key_down_message(msg) ==> {
            &&& final(state).pending() == pending_after_key_down(old(state).pending(), vk_code, flags, time)
            &&& r is None
        },
        event_is_watched(old(state).enabled(), n_code, extra_info) && is_key_up_message(msg) ==> {
            &&& final(state).pending() == pending_after_key_up(old(state).pending(), vk_code, flags)
            &&& r == request_for_tap(
                tap_after_key_up(old(state).pending(), vk_code, flags, time, old(state).timeout()),
                old(state).mode(),
            )
        },
        !is_key_down_message(msg) && !is_key_up_message(msg) ==> {
            &&& final(state).pending() == old(state).pending()
            &&& r is None
        },
{
    if n_code < 0 || extra_info == EXTRA_INFO_MAGIC || !state.enabled {
        return None;
    }
    let is_down = msg == WM_KEYDOWN || msg == WM_SYSKEYDOWN;
    let is_up = msg == WM_KEYUP || msg == WM_SYSKEYUP;
    if is_down {
        state.tracker.on_key_down(vk_code, flags, time);
        None
    } else if is_up {
        let res = state.tracker.on_key_up(vk_code, flags, time);
        match res {
            TapResult::LeftCtrlTap => Some(ImeRequest { on: false, mode: state.mode }),
            TapResult::RightCtrlTap => Some(ImeRequest { on: true, mode: state.mode }),
            TapResult::NoTap => None,
        }
    } else {
        None
    }
}


/// A quick tap of the left Ctrl key turns the IME off and a quick tap of the
/// right Ctrl key turns it on, in the current mode: pressing a Ctrl key that
/// is not already pending and releasing it within the timeout asks for that
/// switch.
pub proof fn lemma_tap_switches_ime(
    p: PendingCtrl,
    vk: u32,
    flags: u32,
    t_down: u32,
    t_up: u32,
    timeout_ms: u32,
    mode: ImeMode,
)
    requires
        spec_is_left_ctrl(vk, flags) ==> !(p is Left),
        spec_is_right_ctrl(vk, flags) ==> !(p is Right),
        elapsed_ms(t_up, t_down) <= timeout_ms,
    ensures
        spec_is_left_ctrl(vk, flags) ==> request_for_tap(
            tap_after_key_up(pending_after_key_down(p, vk, flags, t_down), vk, flags, t_up, timeout_ms),
            mode,
        ) == Some(ImeRequest { on: false, mode }),
        spec_is_right_ctrl(vk, flags) ==> request_for_tap(
            tap_after_key_up(pending_after_key_down(p, vk, flags, t_down), vk, flags, t_up, timeout_ms),
            mode,
        ) == Some(ImeRequest { on: true, mode }),
{
    lemma_press_release_is_tap(p, vk, flags, t_down, t_up, timeout_ms);
}

/// The key inputs that the tool injects itself are never looked at by its
/// keyboard hook, so they cannot start or complete a tap.
pub proof fn lemma_injected_input_ignored(vk: u16, scan: u16, key_up: bool, enabled: bool, n_code: i32)
    ensures
        !event_is_watched(enabled, n_code, spec_key_input(vk, scan, key_up).extra_info),
{
}


/// Which Ctrl key an event comes from: `VK_LCONTROL` is the left key and
/// `VK_RCONTROL` the right key whatever the flags (Windows sets other flag
/// bits, such as the key-up bit, on their events); only for the generic
/// `VK_CONTROL` does the extended bit (the lowest flag bit) tell the right key
/// from the left; every other key code is neither Ctrl key.
pub proof fn lemma_ctrl_side_by_code(vk: u32, flags: u32)
    ensures
        spec_is_left_ctrl(VK_LCONTROL as u32, flags),
        spec_is_right_ctrl(VK_RCONTROL as u32, flags),
        !spec_is_right_ctrl(VK_LCONTROL as u32, flags),
        !spec_is_left_ctrl(VK_RCONTROL as u32, flags),
        spec_is_left_ctrl(VK_CONTROL as u32, flags) <==> flags % 2 == 0,
        spec_is_right_ctrl(VK_CONTROL as u32, flags) <==> flags % 2 == 1,
        vk != VK_LCONTROL as u32 && vk != VK_RCONTROL as u32 && vk != VK_CONTROL as u32 ==> {
            &&& !spec_is_left_ctrl(vk, flags)
            &&& !spec_is_right_ctrl(vk, flags)
        },
{
    assert(flags & 1 != 0 <==> flags % 2 == 1) by (bit_vector);
}

/// A left Ctrl press and release is a left tap within the timeout whatever
/// flags the two events carry, and likewise for the right Ctrl key.
pub proof fn lemma_tap_whatever_flags(
    p: PendingCtrl,
    down_flags: u32,
    up_flags: u32,
    t_down: u32,
    t_up: u32,
    timeout_ms: u32,
)
    ensures
        !(p is Left) ==> tap_after_key_up(
            pending_after_key_down(p, VK_LCONTROL as u32, down_flags, t_down),
            VK_LCONTROL as u32, up_flags, t_up, timeout_ms,
        ) == (if elapsed_ms(t_up, t_down) <= timeout_ms { TapResult::LeftCtrlTap } else { TapResult::NoTap }),
        !(p is Right) ==> tap_after_key_up(
            pending_after_key_down(p, VK_RCONTROL as u32, down_flags, t_down),
            VK_RCONTROL as u32, up_flags, t_up, timeout_ms,
        ) == (if elapsed_ms(t_up, t_down) <= timeout_ms { TapResult::RightCtrlTap } else { TapResult::NoTap }),
{
    lemma_ctrl_side_by_code(0, down_flags);
    lemma_ctrl_side_by_code(0, up_flags);
}

/// The elapsed time is the unique number of milliseconds, below 2^32, that
/// takes the 32-bit clock from the press time to the release time.
pub proof fn lemma_elapsed_is_clock_distance(now: u32, pressed: u32)
    ensures
        0 <= elapsed_ms(now, pressed) < 0x1_0000_0000,
        (pressed + elapsed_ms(now, pressed)) % 0x1_0000_0000 == now,
{
}

/// While tap detection is paused, the keyboard hook looks at no event at all;
/// events with a negative hook code and events the tool injected itself are
/// never looked at either.
pub proof fn lemma_paused_hook_watches_nothing(enabled: bool, n_code: i32, extra_info: usize)
    ensures
        !enabled ==> !event_is_watched(enabled, n_code, extra_info),
        n_code < 0 ==> !event_is_watched(enabled, n_code, extra_info),
        !event_is_watched(enabled, n_code, EXTRA_INFO_MAGIC),
        enabled && n_code >= 0 && extra_info != EXTRA_INFO_MAGIC ==> event_is_watched(enabled, n_code, extra_info),
{
}

} // verus!
