use ctrl_ime_key::ime::{
    choose_target_window, create_key_input, ime_switch_plan, key_stroke_inputs,
    open_status_from_reply, open_status_lparam, ImeMode, ImeSwitchPlan, ImmCommand, ImmEvent,
    ImmPhase, ImmSwitch, KeyInput, KeyStroke, TargetWindow, EXTRA_INFO_MAGIC, IMC_GETOPENSTATUS,
};
use windows_sys::Win32::UI::Input::Ime::IMC_SETOPENSTATUS;
use windows_sys::Win32::UI::Input::KeyboardAndMouse as kb;

#[test]
fn mode_names() {
    assert_eq!(ImeMode::ImmMessage.name(), "IMM API Message (alt-ime-ahk method, Recommended)");
    assert_eq!(ImeMode::ImeKey.name(), "VK_IME_ON / VK_IME_OFF");
    assert_eq!(ImeMode::ConvertKey.name(), "変換 / 無変換 (Henkan / Muhenkan)");
    assert_eq!(ImeMode::Hybrid.name(), "Hybrid (Virtual Keys)");
    assert_eq!(ImeMode::default(), ImeMode::ImmMessage);
}

#[test]
fn ime_constants_match_win32() {
    assert_eq!(ctrl_ime_key::ime::VK_IME_ON, kb::VK_IME_ON);
    assert_eq!(ctrl_ime_key::ime::VK_IME_OFF, kb::VK_IME_OFF);
    assert_eq!(ctrl_ime_key::ime::VK_KANJI, kb::VK_KANJI);
    assert_eq!(ctrl_ime_key::ime::VK_CONVERT, kb::VK_CONVERT);
    assert_eq!(ctrl_ime_key::ime::VK_NONCONVERT, kb::VK_NONCONVERT);
    assert_eq!(ctrl_ime_key::ime::KEYEVENTF_KEYUP, kb::KEYEVENTF_KEYUP);
    assert_eq!(ctrl_ime_key::ime::IMC_SETOPENSTATUS, IMC_SETOPENSTATUS);
    assert_eq!(IMC_GETOPENSTATUS, 5);
    assert_eq!(EXTRA_INFO_MAGIC, 0x43494D45);
}

#[test]
fn key_inputs_are_marked_and_flagged() {
    let down = create_key_input(0x16, 0, false);
    assert_eq!(down, KeyInput { vk: 0x16, scan: 0, flags: 0, extra_info: EXTRA_INFO_MAGIC });
    let up = create_key_input(0x1C, 0x79, true);
    assert_eq!(up, KeyInput { vk: 0x1C, scan: 0x79, flags: kb::KEYEVENTF_KEYUP, extra_info: EXTRA_INFO_MAGIC });
    let stroke = key_stroke_inputs(KeyStroke { vk: 0x19, scan: 0 });
    assert_eq!(stroke, vec![create_key_input(0x19, 0, false), create_key_input(0x19, 0, true)]);
}

fn strokes(on: bool, mode: ImeMode) -> Vec<KeyStroke> {
    match ime_switch_plan(on, mode) {
        ImeSwitchPlan::KeyStrokes(s) => s,
        ImeSwitchPlan::ImmProtocol => panic!("expected key strokes"),
    }
}

#[test]
fn switch_plans_per_mode() {
    assert!(matches!(ime_switch_plan(true, ImeMode::ImmMessage), ImeSwitchPlan::ImmProtocol));
    assert!(matches!(ime_switch_plan(false, ImeMode::ImmMessage), ImeSwitchPlan::ImmProtocol));
    assert_eq!(strokes(true, ImeMode::ImeKey), vec![KeyStroke { vk: kb::VK_IME_ON, scan: 0 }]);
    assert_eq!(strokes(false, ImeMode::ImeKey), vec![KeyStroke { vk: kb::VK_IME_OFF, scan: 0 }]);
    assert_eq!(strokes(true, ImeMode::ConvertKey), vec![KeyStroke { vk: kb::VK_CONVERT, scan: 0x79 }]);
    assert_eq!(strokes(false, ImeMode::ConvertKey), vec![KeyStroke { vk: kb::VK_NONCONVERT, scan: 0x7B }]);
    assert_eq!(
        strokes(true, ImeMode::Hybrid),
        vec![KeyStroke { vk: kb::VK_IME_ON, scan: 0 }, KeyStroke { vk: kb::VK_CONVERT, scan: 0x79 }]
    );
    assert_eq!(
        strokes(false, ImeMode::Hybrid),
        vec![KeyStroke { vk: kb::VK_IME_OFF, scan: 0 }, KeyStroke { vk: kb::VK_NONCONVERT, scan: 0x7B }]
    );
}

#[test]
fn imm_switch_skips_when_already_set() {
    let (s, c) = ImmSwitch::start(true);
    assert_eq!(c, ImmCommand::QueryStatus);
    let (s, c) = s.step(ImmEvent::Status(Some(true)));
    assert_eq!(c, ImmCommand::Finish);
    assert_eq!(s.phase, ImmPhase::Done);
}

#[test]
fn imm_switch_message_succeeds() {
    let (s, _) = ImmSwitch::start(false);
    let (s, c) = s.step(ImmEvent::Status(Some(true)));
    assert_eq!(c, ImmCommand::SetOpenStatus(false));
    let (s, c) = s.step(ImmEvent::Delivered(true));
    assert_eq!(c, ImmCommand::QueryStatus);
    let (s, c) = s.step(ImmEvent::Status(Some(false)));
    assert_eq!(c, ImmCommand::Finish);
    assert_eq!(s.phase, ImmPhase::Done);
}

#[test]
fn imm_switch_falls_back_to_kanji() {
    // status did not change
    let (s, _) = ImmSwitch::start(true);
    let (s, _) = s.step(ImmEvent::Status(Some(false)));
    let (s, _) = s.step(ImmEvent::Delivered(true));
    let (_, c) = s.step(ImmEvent::Status(Some(false)));
    assert_eq!(c, ImmCommand::ToggleWithKanjiKey);
    // status unknown and message not delivered
    let (s, _) = ImmSwitch::start(true);
    let (s, c) = s.step(ImmEvent::Status(None));
    assert_eq!(c, ImmCommand::SetOpenStatus(true));
    let (s, _) = s.step(ImmEvent::Delivered(false));
    let (_, c) = s.step(ImmEvent::Status(None));
    assert_eq!(c, ImmCommand::ToggleWithKanjiKey);
    // status unknown but message delivered: no fallback
    let (s, _) = ImmSwitch::start(true);
    let (s, _) = s.step(ImmEvent::Status(None));
    let (s, _) = s.step(ImmEvent::Delivered(true));
    let (_, c) = s.step(ImmEvent::Status(None));
    assert_eq!(c, ImmCommand::Finish);
}

#[test]
fn imm_switch_repeats_unanswered_command() {
    let (s, _) = ImmSwitch::start(true);
    let (s2, c) = s.step(ImmEvent::Delivered(true));
    assert_eq!(s2, s);
    assert_eq!(c, ImmCommand::QueryStatus);
    let done = ImmSwitch { on: true, phase: ImmPhase::Done };
    assert_eq!(done.step(ImmEvent::Status(Some(false))), (done, ImmCommand::Finish));
}

#[test]
fn replies_and_parameters() {
    assert_eq!(open_status_lparam(true), 1);
    assert_eq!(open_status_lparam(false), 0);
    assert_eq!(open_status_from_reply(true, 0), Some(false));
    assert_eq!(open_status_from_reply(true, 7), Some(true));
    assert_eq!(open_status_from_reply(false, 1), None);
}

#[test]
fn target_window_choice() {
    assert_eq!(choose_target_window(true, true, true), TargetWindow::Focus);
    assert_eq!(choose_target_window(true, false, true), TargetWindow::Active);
    assert_eq!(choose_target_window(true, false, false), TargetWindow::Foreground);
    assert_eq!(choose_target_window(false, true, true), TargetWindow::Foreground);
}
