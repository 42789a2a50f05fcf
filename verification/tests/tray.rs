use ctrl_ime_key::hook::{is_enabled, get_ime_mode, process_key_event, HookGlobalState, WM_KEYDOWN, WM_KEYUP};
use ctrl_ime_key::ime::ImeMode;
use ctrl_ime_key::tray::{
    apply_tray_action, context_menu, tooltip_text, tray_message_action, update_tip, MenuEntry,
    TrayAction, IDM_EXIT, IDM_HEADER, IDM_MODE_CONVERT_KEY, IDM_MODE_HYBRID, IDM_MODE_IME_KEY,
    IDM_MODE_IMM, IDM_TOGGLE_ENABLED, MF_CHECKED, MF_SEPARATOR, WM_COMMAND, WM_TRAYICON,
};
use ctrl_ime_key::wide::to_wide_null;
use windows_sys::Win32::UI::WindowsAndMessaging as wm;

#[test]
fn tray_constants_match_win32() {
    assert_eq!(WM_TRAYICON, wm::WM_USER + 100);
    assert_eq!(WM_COMMAND, wm::WM_COMMAND);
    assert_eq!(ctrl_ime_key::tray::WM_LBUTTONUP, wm::WM_LBUTTONUP);
    assert_eq!(ctrl_ime_key::tray::WM_RBUTTONUP, wm::WM_RBUTTONUP);
    assert_eq!(ctrl_ime_key::tray::MF_STRING, wm::MF_STRING);
    assert_eq!(ctrl_ime_key::tray::MF_GRAYED, wm::MF_GRAYED);
    assert_eq!(ctrl_ime_key::tray::MF_DISABLED, wm::MF_DISABLED);
    assert_eq!(ctrl_ime_key::tray::MF_UNCHECKED, wm::MF_UNCHECKED);
    assert_eq!(MF_CHECKED, wm::MF_CHECKED);
    assert_eq!(MF_SEPARATOR, wm::MF_SEPARATOR);
}

#[test]
fn tray_messages() {
    assert_eq!(tray_message_action(WM_TRAYICON, 0, wm::WM_RBUTTONUP as isize), TrayAction::ShowMenu);
    assert_eq!(tray_message_action(WM_TRAYICON, 0, wm::WM_LBUTTONUP as isize), TrayAction::ShowMenu);
    assert_eq!(tray_message_action(WM_TRAYICON, 0, 0x0200), TrayAction::Nothing);
    // only the low 32 bits of lParam name the mouse event
    assert_eq!(tray_message_action(WM_TRAYICON, 0, 0x1_0000_0205), TrayAction::ShowMenu);
    assert_eq!(tray_message_action(WM_COMMAND, IDM_TOGGLE_ENABLED, 0), TrayAction::ToggleEnabled);
    assert_eq!(tray_message_action(WM_COMMAND, IDM_MODE_IMM, 0), TrayAction::SelectMode(ImeMode::ImmMessage));
    assert_eq!(tray_message_action(WM_COMMAND, IDM_MODE_IME_KEY, 0), TrayAction::SelectMode(ImeMode::ImeKey));
    assert_eq!(tray_message_action(WM_COMMAND, IDM_MODE_CONVERT_KEY, 0), TrayAction::SelectMode(ImeMode::ConvertKey));
    assert_eq!(tray_message_action(WM_COMMAND, IDM_MODE_HYBRID, 0), TrayAction::SelectMode(ImeMode::Hybrid));
    assert_eq!(tray_message_action(WM_COMMAND, IDM_EXIT, 0), TrayAction::Exit);
    // the high word of wParam (the notification code) is ignored
    assert_eq!(tray_message_action(WM_COMMAND, 0x0001_0000 | IDM_EXIT, 0), TrayAction::Exit);
    assert_eq!(tray_message_action(WM_COMMAND, IDM_HEADER, 0), TrayAction::Nothing);
    assert_eq!(tray_message_action(wm::WM_NULL, 0, 0), TrayAction::PassOn);
}

#[test]
fn tray_actions_change_state() {
    let mut state = HookGlobalState::new();
    apply_tray_action(&mut state, TrayAction::SelectMode(ImeMode::Hybrid));
    assert_eq!(get_ime_mode(&state), ImeMode::Hybrid);
    process_key_event(&mut state, 0, WM_KEYDOWN, 0xA2, 0, 1, 0);
    apply_tray_action(&mut state, TrayAction::ToggleEnabled);
    assert!(!is_enabled(&state));
    apply_tray_action(&mut state, TrayAction::ToggleEnabled);
    assert!(is_enabled(&state));
    // the press made before the pause is gone
    assert_eq!(process_key_event(&mut state, 0, WM_KEYUP, 0xA2, 0, 2, 0), None);
    apply_tray_action(&mut state, TrayAction::Exit);
    assert!(is_enabled(&state));
    assert_eq!(get_ime_mode(&state), ImeMode::Hybrid);
}

fn entry(flags: u32, id: usize, text: Option<&'static str>) -> MenuEntry {
    MenuEntry { flags, id, text }
}

#[test]
fn context_menu_layout() {
    let menu = context_menu(true, ImeMode::ConvertKey);
    let sep = entry(MF_SEPARATOR, 0, None);
    assert_eq!(
        menu,
        vec![
            entry(3, IDM_HEADER, Some("ctrl-ime-key (US Keyboard IME Toggle)")),
            sep,
            entry(MF_CHECKED, IDM_TOGGLE_ENABLED, Some("Enabled (有効)")),
            sep,
            entry(0, IDM_MODE_IMM, Some("Mode: IMM Message (alt-ime-ahk互換, 推奨)")),
            entry(0, IDM_MODE_IME_KEY, Some("Mode: VK_IME_ON / OFF (Windows 10/11)")),
            entry(MF_CHECKED, IDM_MODE_CONVERT_KEY, Some("Mode: 変換 / 無変換 (Henkan / Muhenkan)")),
            entry(0, IDM_MODE_HYBRID, Some("Mode: Hybrid (両方送信)")),
            sep,
            entry(0, IDM_EXIT, Some("Exit (終了)")),
        ]
    );
    let paused = context_menu(false, ImeMode::ImmMessage);
    assert_eq!(paused[2], entry(0, IDM_TOGGLE_ENABLED, Some("Disabled (一時停止中)")));
    assert_eq!(paused[4].flags, MF_CHECKED);
    assert_eq!(paused[6].flags, 0);
}

#[test]
fn every_mode_entry_selects_its_mode() {
    for mode in [ImeMode::ImmMessage, ImeMode::ImeKey, ImeMode::ConvertKey, ImeMode::Hybrid] {
        let menu = context_menu(true, mode);
        let checked: Vec<&MenuEntry> = menu[4..8].iter().filter(|e| e.flags & MF_CHECKED != 0).collect();
        assert_eq!(checked.len(), 1);
        assert_eq!(tray_message_action(WM_COMMAND, checked[0].id, 0), TrayAction::SelectMode(mode));
    }
}

#[test]
fn tooltips() {
    assert_eq!(tooltip_text(true), "ctrl-ime-key [Active]\nL-Ctrl: IME OFF | R-Ctrl: IME ON");
    assert_eq!(tooltip_text(false), "ctrl-ime-key [Paused]\nL-Ctrl: IME OFF | R-Ctrl: IME ON");
}

#[test]
fn tooltip_fits_the_buffer() {
    let mut tip = vec![0xFFFFu16; 128];
    update_tip(&mut tip, true);
    let wide = to_wide_null(tooltip_text(true));
    assert_eq!(&tip[..wide.len()], &wide[..]);
    assert_eq!(tip[wide.len()], 0);
    assert_eq!(tip[wide.len() + 1], 0xFFFF);

    // a buffer that is too short keeps the start and ends with a NUL
    let mut small = vec![7u16; 6];
    update_tip(&mut small, false);
    assert_eq!(small, vec![b'c' as u16, b't' as u16, b'r' as u16, b'l' as u16, b'-' as u16, 0]);

    let mut one = vec![9u16; 1];
    update_tip(&mut one, false);
    assert_eq!(one, vec![0]);
}
