use vstd::prelude::*;

use crate::hook::{is_enabled, set_enabled, set_ime_mode, HookGlobalState, PendingCtrl};
use crate::ime::ImeMode;
use crate::wide::{to_wide_null, utf16};

verus! {

/// First message number free for an application's own messages (`WM_USER`).
pub const WM_USER: u32 = 0x0400;

/// The message that the tray icon sends to its helper window.
pub const WM_TRAYICON: u32 = WM_USER + 100;

/// Message of a chosen menu command (`WM_COMMAND`).
pub const WM_COMMAND: u32 = 0x0111;

/// Mouse message: the left button was released (`WM_LBUTTONUP`).
pub const WM_LBUTTONUP: u32 = 0x0202;

/// Mouse message: the right button was released (`WM_RBUTTONUP`).
pub const WM_RBUTTONUP: u32 = 0x0205;

/// Menu item identifiers.
pub const IDM_HEADER: usize = 1000;
pub const IDM_TOGGLE_ENABLED: usize = 1001;
pub const IDM_MODE_IMM: usize = 1002;
pub const IDM_MODE_IME_KEY: usize = 1003;
pub const IDM_MODE_CONVERT_KEY: usize = 1004;
pub const IDM_MODE_HYBRID: usize = 1005;
pub const IDM_EXIT: usize = 1006;

/// Menu item flags (`MENU_ITEM_FLAGS`).
pub const MF_STRING: u32 = 0x0000;
pub const MF_GRAYED: u32 = 0x0001;
pub const MF_DISABLED: u32 = 0x0002;
pub const MF_UNCHECKED: u32 = 0x0000;
pub const MF_CHECKED: u32 = 0x0008;
pub const MF_SEPARATOR: u32 = 0x0800;

/// What a message to the tray helper window asks for.
#[derive(Debug, Clone, Copy, PartialEq, Eq, Structural)]
pub enum TrayAction {
    /// Show the context menu.
    ShowMenu,
    /// Toggle tap detection on or off.
    ToggleEnabled,
    /// Switch to this IME mode.
    SelectMode(ImeMode),
    /// Quit the program.
    Exit,
    /// The message is handled and asks for nothing (the window procedure returns 0).
    Nothing,
    /// The message is not the tray's: pass it to the default window procedure.
    PassOn,
}

/// The action of a menu command identifier.
pub open spec fn command_for_id(id: usize) -> TrayAction {
    if id == IDM_TOGGLE_ENABLED {
        TrayAction::ToggleEnabled
    } else if id == IDM_MODE_IMM {
        TrayAction::SelectMode(ImeMode::ImmMessage)
    } else if id == IDM_MODE_IME_KEY {
        TrayAction::SelectMode(ImeMode::ImeKey)
    } else if id == IDM_MODE_CONVERT_KEY {
        TrayAction::SelectMode(ImeMode::ConvertKey)
    } else if id == IDM_MODE_HYBRID {
        TrayAction::SelectMode(ImeMode::Hybrid)
    } else if id == IDM_EXIT {
        TrayAction::Exit
    } else {
        TrayAction::Nothing
    }
}

/// What a message to the tray helper window asks for: on the tray icon's
/// message, a release of the left or right mouse button (the low 32 bits of
/// `l_param`) shows the menu; a command is told by the low 16 bits of
/// `w_param`; every other message goes to the default window procedure.
pub open spec fn spec_tray_action(msg: u32, w_param: usize, l_param: isize) -> TrayAction {
    if msg == WM_TRAYICON {
        if l_param as u32 == WM_RBUTTONUP || l_param as u32 == WM_LBUTTONUP {
            TrayAction::ShowMenu
        } else {
            TrayAction::Nothing
        }
    } else if msg == WM_COMMAND {
        command_for_id(w_param & 0xFFFF)
    } else {
        TrayAction::PassOn
    }
}

/// Decides what a message to the tray helper window asks for.
pub fn tray_message_action(msg: u32, w_param: usize, l_param: isize) -> (r: TrayAction)
    ensures
        r == spec_tray_action(msg, w_param, l_param),
{
    if msg == WM_TRAYICON {
        let event = l_param as u32;
        if event == WM_RBUTTONUP || event == WM_LBUTTONUP {
            TrayAction::ShowMenu
        } else {
            TrayAction::Nothing
        }
    } else if msg == WM_COMMAND {
        let cmd_id = w_param & 0xFFFF;
        if cmd_id == IDM_TOGGLE_ENABLED {
            TrayAction::ToggleEnabled
        } else if cmd_id == IDM_MODE_IMM {
            TrayAction::SelectMode(ImeMode::ImmMessage)
        } else if cmd_id == IDM_MODE_IME_KEY {
            TrayAction::SelectMode(ImeMode::ImeKey)
        } else if cmd_id == IDM_MODE_CONVERT_KEY {
            TrayAction::SelectMode(ImeMode::ConvertKey)
        } else if cmd_id == IDM_MODE_HYBRID {
            TrayAction::SelectMode(ImeMode::Hybrid)
        } else if cmd_id == IDM_EXIT {
            TrayAction::Exit
        } else {
            TrayAction::Nothing
        }
    } else {
        TrayAction::PassOn
    }
}

/// Whether tap detection is enabled after a tray action.
pub open spec fn enabled_after(action: TrayAction, enabled: bool) -> bool {
    if action is ToggleEnabled { !enabled } else { enabled }
}

/// The IME mode after a tray action.
pub open spec fn mode_after(action: TrayAction, mode: ImeMode) -> ImeMode {
    match action {
        TrayAction::SelectMode(m) => m,
        _ => mode,
    }
}

/// Applies the part of a tray action that changes the shared state: toggling
/// tap detection (pausing also forgets a pending press), or selecting a mode.
/// Other actions leave the state alone.
pub fn apply_tray_action(state: &mut HookGlobalState, action: TrayAction)
    ensures
        final(state).enabled() == enabled_after(action, old(state).enabled()),
        action is ToggleEnabled ==> final(state).enabled() == !old(state).enabled(),
        !(action is ToggleEnabled) ==> final(state).enabled() == old(state).enabled(),
        action matches TrayAction::SelectMode(m) ==> final(state).mode() == m,
        !(action is SelectMode) ==> final(state).mode() == old(state).mode(),
        final(state).mode() == mode_after(action, old(state).mode()),
        final(state).pending() == (if action is ToggleEnabled && old(state).enabled() {
            PendingCtrl::Idle
        } else {
            old(state).pending()
        }),
        final(state).timeout() == old(state).timeout(),
{
    match action {
        TrayAction::ToggleEnabled => {
            let enabled = is_enabled(state);
            set_enabled(state, !enabled);
        },
        TrayAction::SelectMode(mode) => {
            set_ime_mode(state, mode);
        },
        _ => {},
    }
}


/// One item of the tray icon's context menu: its flags, its command
/// identifier, and its text (none for a separator).
#[derive(Debug, Clone, Copy, PartialEq, Eq)]
pub struct MenuEntry {
    pub flags: u32,
    pub id: usize,
    pub text: Option<&'static str>,
}

/// A menu entry seen as flags, identifier and the characters of its text.
pub open spec fn entry_view(e: MenuEntry) -> (u32, usize, Option<Seq<char>>) {
    (e.flags, e.id, match e.text {
        Some(t) => Some(t@),
        None => None,
    })
}

/// The menu flags of an item that shows a check mark when `checked`.
pub open spec fn check_flags(checked: bool) -> u32 {
    MF_STRING | (if checked { MF_CHECKED } else { MF_UNCHECKED })
}

/// A separator line.
pub open spec fn separator_view() -> (u32, usize, Option<Seq<char>>) {
    (MF_SEPARATOR, 0, None)
}

/// Position of the entry of a mode in the context menu.
pub open spec fn mode_entry_index(m: ImeMode) -> int {
    match m {
        ImeMode::ImmMessage => 4,
        ImeMode::ImeKey => 5,
        ImeMode::ConvertKey => 6,
        ImeMode::Hybrid => 7,
    }
}

/// The context menu: a greyed title, the enable switch (checked while
/// enabled), one entry per mode (the current one checked) and Exit, with
/// separators between the groups.
pub open spec fn spec_context_menu(enabled: bool, mode: ImeMode) -> Seq<(u32, usize, Option<Seq<char>>)> {
    seq![
        (MF_STRING | MF_GRAYED | MF_DISABLED, IDM_HEADER, Some("ctrl-ime-key (US Keyboard IME Toggle)"@)),
        separator_view(),
        (check_flags(enabled), IDM_TOGGLE_ENABLED,
            Some(if enabled { "Enabled (有効)"@ } else { "Disabled (一時停止中)"@ })),
        separator_view(),
        (check_flags(mode == ImeMode::ImmMessage), IDM_MODE_IMM, Some("Mode: IMM Message (alt-ime-ahk互換, 推奨)"@)),
        (check_flags(mode == ImeMode::ImeKey), IDM_MODE_IME_KEY, Some("Mode: VK_IME_ON / OFF (Windows 10/11)"@)),
        (check_flags(mode == ImeMode::ConvertKey), IDM_MODE_CONVERT_KEY, Some("Mode: 変換 / 無変換 (Henkan / Muhenkan)"@)),
        (check_flags(mode == ImeMode::Hybrid), IDM_MODE_HYBRID, Some("Mode: Hybrid (両方送信)"@)),
        separator_view(),
        (MF_STRING, IDM_EXIT, Some("Exit (終了)"@)),
    ]
}

fn check_item_flags(checked: bool) -> (r: u32)
    ensures
        r == check_flags(checked),
{
    MF_STRING | if checked { MF_CHECKED } else { MF_UNCHECKED }
}

/// Builds the context menu for the current state, in display order.
pub fn context_menu(enabled: bool, mode: ImeMode) -> (r: Vec<MenuEntry>)
    ensures
        r@.map_values(|e: MenuEntry| entry_view(e)) == spec_context_menu(enabled, mode),
{
    let mut menu: Vec<MenuEntry> = Vec::new();
    menu.push(MenuEntry {
        flags: MF_STRING | MF_GRAYED | MF_DISABLED,
        id: IDM_HEADER,
        text: Some("ctrl-ime-key (US Keyboard IME Toggle)"),
    });
    menu.push(MenuEntry { flags: MF_SEPARATOR, id: 0, text: None });
    menu.push(MenuEntry {
        flags: check_item_flags(enabled),
        id: IDM_TOGGLE_ENABLED,
        text: Some(if enabled { "Enabled (有効)" } else { "Disabled (一時停止中)" }),
    });
    menu.push(MenuEntry { flags: MF_SEPARATOR, id: 0, text: None });
    menu.push(MenuEntry {
        flags: check_item_flags(mode == ImeMode::ImmMessage),
        id: IDM_MODE_IMM,
        text: Some("Mode: IMM Message (alt-ime-ahk互換, 推奨)"),
    });
    menu.push(MenuEntry {
        flags: check_item_flags(mode == ImeMode::ImeKey),
        id: IDM_MODE_IME_KEY,
        text: Some("Mode: VK_IME_ON / OFF (Windows 10/11)"),
    });
    menu.push(MenuEntry {
        flags: check_item_flags(mode == ImeMode::ConvertKey),
        id: IDM_MODE_CONVERT_KEY,
        text: Some("Mode: 変換 / 無変換 (Henkan / Muhenkan)"),
    });
    menu.push(MenuEntry {
        flags: check_item_flags(mode == ImeMode::Hybrid),
        id: IDM_MODE_HYBRID,
        text: Some("Mode: Hybrid (両方送信)"),
    });
    menu.push(MenuEntry { flags: MF_SEPARATOR, id: 0, text: None });
    menu.push(MenuEntry { flags: MF_STRING, id: IDM_EXIT, text: Some("Exit (終了)") });
    proof {
        assert(menu@.map_values(|e: MenuEntry| entry_view(e)) =~= spec_context_menu(enabled, mode));
    }
    menu
}

/// The menu and its commands agree: the entry of each mode carries the command
/// that selects that mode and is checked exactly when it is the current mode;
/// the enable entry toggles tap detection and is checked exactly while it is
/// enabled; the last entry quits.
pub proof fn lemma_menu_matches_commands(enabled: bool, mode: ImeMode, m: ImeMode)
    ensures
        command_for_id(spec_context_menu(enabled, mode)[mode_entry_index(m)].1) == TrayAction::SelectMode(m),
        spec_context_menu(enabled, mode)[mode_entry_index(m)].0 == check_flags(m == mode),
        command_for_id(spec_context_menu(enabled, mode)[2].1) == TrayAction::ToggleEnabled,
        spec_context_menu(enabled, mode)[2].0 == check_flags(enabled),
        command_for_id(spec_context_menu(enabled, mode)[9].1) == TrayAction::Exit,
        check_flags(true) & MF_CHECKED != 0,
        check_flags(false) & MF_CHECKED == 0,
{
    assert(MF_STRING | MF_CHECKED == MF_CHECKED) by (bit_vector);
    assert(MF_STRING | MF_UNCHECKED == 0u32) by (bit_vector);
    assert(MF_CHECKED & MF_CHECKED != 0u32) by (bit_vector);
    assert(0u32 & MF_CHECKED == 0u32) by (bit_vector);
}


/// The tray icon's tooltip: the tool's name, whether it is active or paused,
/// and what the two taps do.
pub open spec fn spec_tooltip(enabled: bool) -> Seq<char> {
    "ctrl-ime-key ["@ + (if enabled { "Active"@ } else { "Paused"@ }) + "]\nL-Ctrl: IME OFF | R-Ctrl: IME ON"@
}

/// Returns the tray icon's tooltip.
pub fn tooltip_text(enabled: bool) -> (r: &'static str)
    ensures
        r@ == spec_tooltip(enabled),
{
    proof {
        reveal_strlit("ctrl-ime-key [");
        reveal_strlit("Active");
        reveal_strlit("Paused");
        reveal_strlit("]\nL-Ctrl: IME OFF | R-Ctrl: IME ON");
        reveal_strlit("ctrl-ime-key [Active]\nL-Ctrl: IME OFF | R-Ctrl: IME ON");
        reveal_strlit("ctrl-ime-key [Paused]\nL-Ctrl: IME OFF | R-Ctrl: IME ON");
    }
    let r = if enabled {
        "ctrl-ime-key [Active]\nL-Ctrl: IME OFF | R-Ctrl: IME ON"
    } else {
        "ctrl-ime-key [Paused]\nL-Ctrl: IME OFF | R-Ctrl: IME ON"
    };
    assert(r@ =~= spec_tooltip(enabled));
    r
}

/// The number of tooltip units copied into a buffer of `capacity` units:
/// as many as fit before the terminating NUL.
pub open spec fn tip_copy_len(units: Seq<u16>, capacity: int) -> int {
    if units.len() < capacity - 1 { units.len() as int } else { capacity - 1 }
}

/// Writes the tooltip for the given state into the tooltip buffer of the tray
/// icon data, as NUL-terminated UTF-16 cut to the buffer: the first units of
/// the tooltip, then a NUL. The units after the NUL are left as they were.
pub fn update_tip(tip: &mut Vec<u16>, enabled: bool)
    requires
        old(tip).len() >= 1,
    ensures
        final(tip).len() == old(tip).len(),
        ({
            let units = utf16(spec_tooltip(enabled)).push(0u16);
            let n = tip_copy_len(units, old(tip).len() as int);
            &&& forall|i: int| 0 <= i < n ==> final(tip)[i] == units[i]
            &&& final(tip)[n] == 0u16
            &&& forall|i: int| n < i < old(tip).len() ==> final(tip)[i] == old(tip)[i]
        }),
{
    let wide = to_wide_null(tooltip_text(enabled));
    let cap = tip.len() - 1;
    let len = if wide.len() < cap { wide.len() } else { cap };
    let mut i: usize = 0;
    while i < len
        invariant
            0 <= i <= len,
            len <= wide.len(),
            len < tip.len(),
            tip.len() == old(tip).len(),
            forall|j: int| 0 <= j < i ==> tip[j] == wide[j],
            forall|j: int| i <= j < tip.len() ==> tip[j] == old(tip)[j],
        decreases len - i,
    {
        tip.set(i, wide[i]);
        i = i + 1;
    }
    tip.set(len, 0);
}


/// Toggling tap detection twice from the tray menu restores it, and selecting
/// a mode twice is the same as selecting it once.
pub proof fn lemma_tray_actions_idempotence(enabled: bool, mode: ImeMode, m: ImeMode)
    ensures
        enabled_after(TrayAction::ToggleEnabled, enabled_after(TrayAction::ToggleEnabled, enabled)) == enabled,
        mode_after(TrayAction::SelectMode(m), mode_after(TrayAction::SelectMode(m), mode))
            == mode_after(TrayAction::SelectMode(m), mode),
{
}


/// Only the enable entry changes whether tap detection is enabled (it flips
/// it), and only a mode entry changes the mode (to that mode); selecting a
/// mode leaves a paused tool paused.
pub proof fn lemma_tray_action_effects(action: TrayAction, enabled: bool, mode: ImeMode)
    ensures
        enabled_after(TrayAction::ToggleEnabled, enabled) == !enabled,
        !(action is ToggleEnabled) ==> enabled_after(action, enabled) == enabled,
        action matches TrayAction::SelectMode(m) ==> mode_after(action, mode) == m,
        !(action is SelectMode) ==> mode_after(action, mode) == mode,
        forall|m: ImeMode| !enabled_after(TrayAction::SelectMode(m), false),
{
}

} // verus!
