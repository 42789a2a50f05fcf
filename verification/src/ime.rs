use vstd::prelude::*;

verus! {

/// Marker placed in `dwExtraInfo` of the key events this tool injects, so that
/// its own keyboard hook recognises and ignores them ('CIME').
pub const EXTRA_INFO_MAGIC: usize = 0x43494D45;

/// `WM_IME_CONTROL` command that asks for the IME open status.
pub const IMC_GETOPENSTATUS: u32 = 0x0005;

/// `WM_IME_CONTROL` command that sets the IME open status.
pub const IMC_SETOPENSTATUS: u32 = 0x0006;

/// How the IME is switched on or off.
#[derive(Debug, Clone, Copy, PartialEq, Eq, Structural)]
pub enum ImeMode {
    /// Control the IME directly with the IMM32 `WM_IME_CONTROL` window message.
    /// Reliable, and it does not trigger an unwanted reconversion.
    ImmMessage,
    /// Send `VK_IME_ON` / `VK_IME_OFF`.
    ImeKey,
    /// Send `VK_CONVERT` (Henkan) / `VK_NONCONVERT` (Muhenkan).
    ConvertKey,
    /// Send both `VK_IME_ON` / `VK_IME_OFF` and Henkan / Muhenkan.
    Hybrid,
}

impl Default for ImeMode {
    /// The default mode is [`ImeMode::ImmMessage`].
    fn default() -> (r: ImeMode)
        ensures
            r == ImeMode::ImmMessage,
    {
        ImeMode::ImmMessage
    }
}

impl ImeMode {
    /// The human-readable name of the mode.
    pub open spec fn spec_name(self) -> Seq<char> {
        match self {
            ImeMode::ImmMessage => "IMM API Message (alt-ime-ahk method, Recommended)"@,
            ImeMode::ImeKey => "VK_IME_ON / VK_IME_OFF"@,
            ImeMode::ConvertKey => "変換 / 無変換 (Henkan / Muhenkan)"@,
            ImeMode::Hybrid => "Hybrid (Virtual Keys)"@,
        }
    }

    /// Returns the human-readable name of the mode.
    pub fn name(&self) -> (r: &'static str)
        ensures
            r@ == self.spec_name(),
    {
        match self {
            ImeMode::ImmMessage => "IMM API Message (alt-ime-ahk method, Recommended)",
            ImeMode::ImeKey => "VK_IME_ON / VK_IME_OFF",
            ImeMode::ConvertKey => "変換 / 無変換 (Henkan / Muhenkan)",
            ImeMode::Hybrid => "Hybrid (Virtual Keys)",
        }
    }
}


/// Virtual-key code that turns the IME on (`VK_IME_ON`).
pub const VK_IME_ON: u16 = 0x16;

/// Virtual-key code that turns the IME off (`VK_IME_OFF`).
pub const VK_IME_OFF: u16 = 0x1A;

/// Virtual-key code of the Kanji key, which toggles the IME (`VK_KANJI`).
pub const VK_KANJI: u16 = 0x19;

/// Virtual-key code of the Henkan key (`VK_CONVERT`).
pub const VK_CONVERT: u16 = 0x1C;

/// Virtual-key code of the Muhenkan key (`VK_NONCONVERT`).
pub const VK_NONCONVERT: u16 = 0x1D;

/// Hardware scan code of the Henkan key.
pub const SCAN_CONVERT: u16 = 0x79;

/// Hardware scan code of the Muhenkan key.
pub const SCAN_NONCONVERT: u16 = 0x7B;

/// Keyboard input flag of a key release (`KEYEVENTF_KEYUP`).
pub const KEYEVENTF_KEYUP: u32 = 0x0002;

/// A key to press and release: virtual-key code and scan code.
#[derive(Debug, Clone, Copy, PartialEq, Eq, Structural)]
pub struct KeyStroke {
    pub vk: u16,
    pub scan: u16,
}

/// One synthetic keyboard input, as `SendInput` takes it in a `KEYBDINPUT`.
#[derive(Debug, Clone, Copy, PartialEq, Eq, Structural)]
pub struct KeyInput {
    pub vk: u16,
    pub scan: u16,
    pub flags: u32,
    pub extra_info: usize,
}

/// The keyboard input that presses (`key_up == false`) or releases a key,
/// marked with [`EXTRA_INFO_MAGIC`] so the tool's own hook ignores it.
pub open spec fn spec_key_input(vk: u16, scan: u16, key_up: bool) -> KeyInput {
    KeyInput { vk, scan, flags: if key_up { KEYEVENTF_KEYUP } else { 0 }, extra_info: EXTRA_INFO_MAGIC }
}

/// Builds the keyboard input that presses or releases a key.
pub fn create_key_input(vk: u16, scan: u16, key_up: bool) -> (r: KeyInput)
    ensures
        r == spec_key_input(vk, scan, key_up),
{
    let mut flags: u32 = 0;
    if key_up {
        assert(0u32 | 2u32 == 2u32) by (bit_vector);
        flags = flags | KEYEVENTF_KEYUP;
    }
    KeyInput { vk, scan, flags, extra_info: EXTRA_INFO_MAGIC }
}

/// Builds the two inputs of a key stroke: the press, then the release.
pub fn key_stroke_inputs(stroke: KeyStroke) -> (r: Vec<KeyInput>)
    ensures
        r@ == seq![spec_key_input(stroke.vk, stroke.scan, false), spec_key_input(stroke.vk, stroke.scan, true)],
{
    let mut inputs: Vec<KeyInput> = Vec::new();
    inputs.push(create_key_input(stroke.vk, stroke.scan, false));
    inputs.push(create_key_input(stroke.vk, stroke.scan, true));
    inputs
}

/// The `VK_IME_ON` / `VK_IME_OFF` stroke.
pub open spec fn ime_key_stroke(on: bool) -> KeyStroke {
    KeyStroke { vk: if on { VK_IME_ON } else { VK_IME_OFF }, scan: 0 }
}

/// The Henkan / Muhenkan stroke.
pub open spec fn convert_key_stroke(on: bool) -> KeyStroke {
    if on {
        KeyStroke { vk: VK_CONVERT, scan: SCAN_CONVERT }
    } else {
        KeyStroke { vk: VK_NONCONVERT, scan: SCAN_NONCONVERT }
    }
}

/// How the IME is switched on or off in a mode.
#[derive(Debug)]
pub enum ImeSwitchPlan {
    /// Talk to the IME window with `WM_IME_CONTROL` (see [`ImmSwitch`]).
    ImmProtocol,
    /// Send these key strokes, in order.
    KeyStrokes(Vec<KeyStroke>),
}

/// The key strokes that a key-sending mode uses to switch the IME.
pub open spec fn spec_key_strokes(on: bool, mode: ImeMode) -> Seq<KeyStroke> {
    match mode {
        ImeMode::ImmMessage => seq![],
        ImeMode::ImeKey => seq![ime_key_stroke(on)],
        ImeMode::ConvertKey => seq![convert_key_stroke(on)],
        ImeMode::Hybrid => seq![ime_key_stroke(on), convert_key_stroke(on)],
    }
}

/// Chooses how to switch the IME on (`on == true`) or off in the given mode.
pub fn ime_switch_plan(on: bool, mode: ImeMode) -> (r: ImeSwitchPlan)
    ensures
        mode == ImeMode::ImmMessage <==> r is ImmProtocol,
        r matches ImeSwitchPlan::KeyStrokes(strokes) ==> strokes@ == spec_key_strokes(on, mode),
{
    let ime_key = KeyStroke { vk: if on { VK_IME_ON } else { VK_IME_OFF }, scan: 0 };
    let convert_key = if on {
        KeyStroke { vk: VK_CONVERT, scan: SCAN_CONVERT }
    } else {
        KeyStroke { vk: VK_NONCONVERT, scan: SCAN_NONCONVERT }
    };
    match mode {
        ImeMode::ImmMessage => ImeSwitchPlan::ImmProtocol,
        ImeMode::ImeKey => {
            let mut strokes: Vec<KeyStroke> = Vec::new();
            strokes.push(ime_key);
            ImeSwitchPlan::KeyStrokes(strokes)
        },
        ImeMode::ConvertKey => {
            let mut strokes: Vec<KeyStroke> = Vec::new();
            strokes.push(convert_key);
            ImeSwitchPlan::KeyStrokes(strokes)
        },
        ImeMode::Hybrid => {
            let mut strokes: Vec<KeyStroke> = Vec::new();
            strokes.push(ime_key);
            strokes.push(convert_key);
            ImeSwitchPlan::KeyStrokes(strokes)
        },
    }
}


/// Where the IMM message switch stands.
#[derive(Debug, Clone, Copy, PartialEq, Eq, Structural)]
pub enum ImmPhase {
    /// Waiting for the IME open status before anything is changed.
    AwaitStatusBefore,
    /// Waiting to hear whether the `IMC_SETOPENSTATUS` message was delivered.
    AwaitDelivery,
    /// Waiting for the IME open status after the message.
    AwaitStatusAfter { delivered: bool },
    /// Finished.
    Done,
}

/// What the program around the switch reports back.
#[derive(Debug, Clone, Copy, PartialEq, Eq, Structural)]
pub enum ImmEvent {
    /// The IME open status of the target window, if it could be read.
    Status(Option<bool>),
    /// Whether the `IMC_SETOPENSTATUS` message was delivered.
    Delivered(bool),
}

/// What the program around the switch is asked to do next.
#[derive(Debug, Clone, Copy, PartialEq, Eq, Structural)]
pub enum ImmCommand {
    /// Read the IME open status of the target window.
    QueryStatus,
    /// Send `IMC_SETOPENSTATUS` with this open status to the IME window.
    SetOpenStatus(bool),
    /// Toggle the IME with a Kanji key stroke, then stop.
    ToggleWithKanjiKey,
    /// Stop.
    Finish,
}

/// Switching the IME on or off through IMM32 messages to the IME window of
/// the focused window. The status is read first and nothing is sent when the
/// IME already is as wanted (this avoids an unwanted reconversion); after the
/// message, the status is read again, and a Kanji key stroke is the fallback
/// when the status did not change, or could not be read and the message was
/// not delivered.
#[derive(Debug, Clone, Copy, PartialEq, Eq, Structural)]
pub struct ImmSwitch {
    pub on: bool,
    pub phase: ImmPhase,
}

/// The command that a switch in this state waits on.
pub open spec fn pending_command(s: ImmSwitch) -> ImmCommand {
    match s.phase {
        ImmPhase::AwaitStatusBefore => ImmCommand::QueryStatus,
        ImmPhase::AwaitDelivery => ImmCommand::SetOpenStatus(s.on),
        ImmPhase::AwaitStatusAfter { .. } => ImmCommand::QueryStatus,
        ImmPhase::Done => ImmCommand::Finish,
    }
}

/// The Kanji-key fallback is needed after the message: the status read
/// afterwards differs from the wanted one, or it could not be read and the
/// message was not delivered either.
pub open spec fn needs_kanji_fallback(on: bool, delivered: bool, after: Option<bool>) -> bool {
    match after {
        Some(status) => status != on,
        None => !delivered,
    }
}

/// One step of the switch. An event that does not answer the pending command
/// changes nothing, and the pending command is asked again.
pub open spec fn spec_imm_step(s: ImmSwitch, e: ImmEvent) -> (ImmSwitch, ImmCommand) {
    match (s.phase, e) {
        (ImmPhase::AwaitStatusBefore, ImmEvent::Status(current)) =>
            if current == Some(s.on) {
                (ImmSwitch { on: s.on, phase: ImmPhase::Done }, ImmCommand::Finish)
            } else {
                (ImmSwitch { on: s.on, phase: ImmPhase::AwaitDelivery }, ImmCommand::SetOpenStatus(s.on))
            },
        (ImmPhase::AwaitDelivery, ImmEvent::Delivered(delivered)) =>
            (ImmSwitch { on: s.on, phase: ImmPhase::AwaitStatusAfter { delivered } }, ImmCommand::QueryStatus),
        (ImmPhase::AwaitStatusAfter { delivered }, ImmEvent::Status(after)) =>
            if needs_kanji_fallback(s.on, delivered, after) {
                (ImmSwitch { on: s.on, phase: ImmPhase::Done }, ImmCommand::ToggleWithKanjiKey)
            } else {
                (ImmSwitch { on: s.on, phase: ImmPhase::Done }, ImmCommand::Finish)
            },
        _ => (s, pending_command(s)),
    }
}

/// The event answers the command that the switch waits on.
pub open spec fn answers(s: ImmSwitch, e: ImmEvent) -> bool {
    match (s.phase, e) {
        (ImmPhase::AwaitStatusBefore, ImmEvent::Status(_)) => true,
        (ImmPhase::AwaitDelivery, ImmEvent::Delivered(_)) => true,
        (ImmPhase::AwaitStatusAfter { .. }, ImmEvent::Status(_)) => true,
        _ => false,
    }
}

/// How many answers the switch still needs at most.
pub open spec fn steps_left(s: ImmSwitch) -> nat {
    match s.phase {
        ImmPhase::AwaitStatusBefore => 3,
        ImmPhase::AwaitDelivery => 2,
        ImmPhase::AwaitStatusAfter { .. } => 1,
        ImmPhase::Done => 0,
    }
}

impl ImmSwitch {
    /// Starts switching the IME on (`on == true`) or off: the first command
    /// reads the current status.
    pub fn start(on: bool) -> (r: (ImmSwitch, ImmCommand))
        ensures
            r == (ImmSwitch { on, phase: ImmPhase::AwaitStatusBefore }, ImmCommand::QueryStatus),
    {
        (ImmSwitch { on, phase: ImmPhase::AwaitStatusBefore }, ImmCommand::QueryStatus)
    }

    /// Takes the answer to the last command and gives the next state and command.
    pub fn step(self, event: ImmEvent) -> (r: (ImmSwitch, ImmCommand))
        ensures
            r == spec_imm_step(self, event),
            r.0.on == self.on,
            event == ImmEvent::Status(Some(self.on)) ==> r.1 == ImmCommand::Finish || r.1 == ImmCommand::QueryStatus
                || r.1 == ImmCommand::SetOpenStatus(self.on),
            event == ImmEvent::Status(Some(self.on)) && !(self.phase is AwaitDelivery) ==> r == (
                ImmSwitch { on: self.on, phase: ImmPhase::Done },
                ImmCommand::Finish,
            ),
            r.1 is ToggleWithKanjiKey ==> self.phase is AwaitStatusAfter && event != ImmEvent::Status(Some(self.on)),
    {
        match (self.phase, event) {
            (ImmPhase::AwaitStatusBefore, ImmEvent::Status(current)) => {
                let already = match current {
                    Some(status) => status == self.on,
                    None => false,
                };
                if already {
                    (ImmSwitch { on: self.on, phase: ImmPhase::Done }, ImmCommand::Finish)
                } else {
                    (ImmSwitch { on: self.on, phase: ImmPhase::AwaitDelivery }, ImmCommand::SetOpenStatus(self.on))
                }
            },
            (ImmPhase::AwaitDelivery, ImmEvent::Delivered(delivered)) => {
                (ImmSwitch { on: self.on, phase: ImmPhase::AwaitStatusAfter { delivered } }, ImmCommand::QueryStatus)
            },
            (ImmPhase::AwaitStatusAfter { delivered }, ImmEvent::Status(after)) => {
                let fallback = match after {
                    Some(status) => status != self.on,
                    None => !delivered,
                };
                if fallback {
                    (ImmSwitch { on: self.on, phase: ImmPhase::Done }, ImmCommand::ToggleWithKanjiKey)
                } else {
                    (ImmSwitch { on: self.on, phase: ImmPhase::Done }, ImmCommand::Finish)
                }
            },
            _ => {
                let command = match self.phase {
                    ImmPhase::AwaitStatusBefore => ImmCommand::QueryStatus,
                    ImmPhase::AwaitDelivery => ImmCommand::SetOpenStatus(self.on),
                    ImmPhase::AwaitStatusAfter { .. } => ImmCommand::QueryStatus,
                    ImmPhase::Done => ImmCommand::Finish,
                };
                (self, command)
            },
        }
    }
}

/// Every answer brings the switch closer to its end: it is done after at
/// most three answers, and a switch that is done stays done and asks to stop.
pub proof fn lemma_imm_switch_progress(s: ImmSwitch, e: ImmEvent)
    ensures
        answers(s, e) ==> steps_left(spec_imm_step(s, e).0) < steps_left(s),
        spec_imm_step(s, e).0.on == s.on,
        s.phase == ImmPhase::Done ==> spec_imm_step(s, e) == (s, ImmCommand::Finish),
        spec_imm_step(s, e).0.phase == ImmPhase::Done <==> (spec_imm_step(s, e).1 is Finish
            || spec_imm_step(s, e).1 is ToggleWithKanjiKey),
{
}

/// When the IME already is as wanted, the switch stops without sending
/// anything.
pub proof fn lemma_imm_no_message_when_already_set(on: bool)
    ensures
        spec_imm_step(ImmSwitch { on, phase: ImmPhase::AwaitStatusBefore }, ImmEvent::Status(Some(on)))
            == (ImmSwitch { on, phase: ImmPhase::Done }, ImmCommand::Finish),
{
}

/// The message only ever asks for the wanted status.
pub proof fn lemma_imm_sets_wanted_status(s: ImmSwitch, e: ImmEvent, status: bool)
    requires
        spec_imm_step(s, e).1 == ImmCommand::SetOpenStatus(status),
    ensures
        status == s.on,
{
}

/// The `lParam` of `IMC_SETOPENSTATUS`: 1 opens the IME, 0 closes it.
pub fn open_status_lparam(on: bool) -> (r: isize)
    ensures
        r == (if on { 1isize } else { 0isize }),
{
    if on { 1 } else { 0 }
}

/// The IME open status from the reply to `IMC_GETOPENSTATUS`: unknown when the
/// message was not delivered, otherwise open exactly when the result is not 0.
pub fn open_status_from_reply(delivered: bool, result: usize) -> (r: Option<bool>)
    ensures
        r == (if delivered { Some(result != 0) } else { None::<bool> }),
{
    if delivered { Some(result != 0) } else { None }
}

/// The window whose IME is switched.
#[derive(Debug, Clone, Copy, PartialEq, Eq, Structural)]
pub enum TargetWindow {
    /// The window with keyboard focus in the foreground thread.
    Focus,
    /// The active window of the foreground thread.
    Active,
    /// The foreground window.
    Foreground,
}

/// Chooses the target window: the focus window of the foreground thread when
/// its GUI thread information could be read and names one, else its active
/// window when named, else the foreground window.
pub fn choose_target_window(info_read: bool, has_focus: bool, has_active: bool) -> (r: TargetWindow)
    ensures
        r == (if info_read && has_focus {
            TargetWindow::Focus
        } else if info_read && has_active {
            TargetWindow::Active
        } else {
            TargetWindow::Foreground
        }),
{
    if info_read {
        if has_focus {
            return TargetWindow::Focus;
        }
        if has_active {
            return TargetWindow::Active;
        }
    }
    TargetWindow::Foreground
}


/// The whole exchange, answer by answer. Reading the status first: the wanted
/// status ends the switch, anything else (the other status, or unknown) sends
/// the message for the wanted status. Delivery is followed by a second read.
/// After that read: the wanted status ends the switch with nothing more sent;
/// the other status asks for the Kanji-key toggle; an unknown status asks for
/// it only when the message was not delivered.
pub proof fn lemma_imm_exchange(on: bool, delivered: bool)
    ensures
        spec_imm_step(ImmSwitch { on, phase: ImmPhase::AwaitStatusBefore }, ImmEvent::Status(Some(on)))
            == (ImmSwitch { on, phase: ImmPhase::Done }, ImmCommand::Finish),
        spec_imm_step(ImmSwitch { on, phase: ImmPhase::AwaitStatusBefore }, ImmEvent::Status(Some(!on)))
            == (ImmSwitch { on, phase: ImmPhase::AwaitDelivery }, ImmCommand::SetOpenStatus(on)),
        spec_imm_step(ImmSwitch { on, phase: ImmPhase::AwaitStatusBefore }, ImmEvent::Status(None))
            == (ImmSwitch { on, phase: ImmPhase::AwaitDelivery }, ImmCommand::SetOpenStatus(on)),
        spec_imm_step(ImmSwitch { on, phase: ImmPhase::AwaitDelivery }, ImmEvent::Delivered(delivered))
            == (ImmSwitch { on, phase: ImmPhase::AwaitStatusAfter { delivered } }, ImmCommand::QueryStatus),
        spec_imm_step(ImmSwitch { on, phase: ImmPhase::AwaitStatusAfter { delivered } }, ImmEvent::Status(Some(on)))
            == (ImmSwitch { on, phase: ImmPhase::Done }, ImmCommand::Finish),
        spec_imm_step(ImmSwitch { on, phase: ImmPhase::AwaitStatusAfter { delivered } }, ImmEvent::Status(Some(!on)))
            == (ImmSwitch { on, phase: ImmPhase::Done }, ImmCommand::ToggleWithKanjiKey),
        spec_imm_step(ImmSwitch { on, phase: ImmPhase::AwaitStatusAfter { delivered } }, ImmEvent::Status(None))
            == (ImmSwitch { on, phase: ImmPhase::Done },
                if delivered { ImmCommand::Finish } else { ImmCommand::ToggleWithKanjiKey }),
{
}

/// The Kanji-key toggle is asked for only after the message, and never when
/// the status read afterwards already is the wanted one.
pub proof fn lemma_kanji_only_when_unchanged(s: ImmSwitch, e: ImmEvent)
    ensures
        spec_imm_step(s, e).1 is ToggleWithKanjiKey ==> {
            &&& s.phase is AwaitStatusAfter
            &&& e != ImmEvent::Status(Some(s.on))
        },
{
}

} // verus!
