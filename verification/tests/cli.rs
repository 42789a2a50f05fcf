use ctrl_ime_key::cli::{mode_from_name, parse_args, parse_u32, CliOptions, CliOutcome};
use ctrl_ime_key::ime::ImeMode;

fn args(list: &[&str]) -> Vec<String> {
    let mut v = vec!["ctrl-ime-key.exe".to_string()];
    v.extend(list.iter().map(|s| s.to_string()));
    v
}

fn run(console: bool, mode: ImeMode, timeout_ms: u32) -> CliOptions {
    CliOptions { console, mode, timeout_ms, outcome: CliOutcome::Run }
}

#[test]
fn no_arguments() {
    assert_eq!(parse_args(&args(&[])), run(false, ImeMode::ImmMessage, 1000));
    assert_eq!(parse_args(&vec![]), run(false, ImeMode::ImmMessage, 1000));
}

#[test]
fn modes_and_timeout() {
    assert_eq!(parse_args(&args(&["--mode", "ime"])), run(false, ImeMode::ImeKey, 1000));
    assert_eq!(parse_args(&args(&["--mode", "CONVERT", "--timeout", "250"])), run(false, ImeMode::ConvertKey, 250));
    assert_eq!(parse_args(&args(&["--console", "--mode", "Hybrid"])), run(true, ImeMode::Hybrid, 1000));
    assert_eq!(parse_args(&args(&["--mode", "ime", "--mode", "imm"])), run(false, ImeMode::ImmMessage, 1000));
}

#[test]
fn ignored_arguments() {
    // an unreadable timeout is ignored, and so is its value
    assert_eq!(parse_args(&args(&["--timeout", "soon", "--console"])), run(true, ImeMode::ImmMessage, 1000));
    // a trailing option without its value is ignored
    assert_eq!(parse_args(&args(&["--timeout"])), run(false, ImeMode::ImmMessage, 1000));
    assert_eq!(parse_args(&args(&["--mode"])), run(false, ImeMode::ImmMessage, 1000));
    assert_eq!(parse_args(&args(&["extra", "--timeout", "+7"])), run(false, ImeMode::ImmMessage, 7));
}

#[test]
fn help_and_unknown_mode_stop() {
    assert_eq!(
        parse_args(&args(&["--timeout", "5", "-h", "--mode", "nope"])),
        CliOptions { console: true, mode: ImeMode::ImmMessage, timeout_ms: 5, outcome: CliOutcome::ShowHelp }
    );
    assert_eq!(parse_args(&args(&["--help"])).outcome, CliOutcome::ShowHelp);
    assert_eq!(
        parse_args(&args(&["--mode", "Fast", "--help"])),
        CliOptions {
            console: true,
            mode: ImeMode::ImmMessage,
            timeout_ms: 1000,
            outcome: CliOutcome::UnknownMode("fast".to_string()),
        }
    );
}

#[test]
fn command_line_mode_names() {
    assert_eq!(mode_from_name("imm"), Some(ImeMode::ImmMessage));
    assert_eq!(mode_from_name("ime"), Some(ImeMode::ImeKey));
    assert_eq!(mode_from_name("convert"), Some(ImeMode::ConvertKey));
    assert_eq!(mode_from_name("hybrid"), Some(ImeMode::Hybrid));
    assert_eq!(mode_from_name("IMM"), None);
    assert_eq!(mode_from_name(""), None);
}

#[test]
fn u32_parsing_matches_std() {
    for s in ["0", "42", "+7", "007", "4294967295", "4294967296", "99999999999999", "-1", "+", "", " 1", "1a", "+-1", "١"] {
        assert_eq!(parse_u32(s), s.parse::<u32>().ok(), "{s:?}");
    }
    assert_eq!(parse_u32("1000"), Some(1000));
    assert_eq!(parse_u32("4294967296"), None);
}
