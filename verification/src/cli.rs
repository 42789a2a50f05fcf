use vstd::prelude::*;

use crate::hook::DEFAULT_TIMEOUT_MS;
use crate::ime::ImeMode;

verus! {

/// The character is an ASCII decimal digit.
pub open spec fn is_decimal_digit(c: char) -> bool {
    '0' <= c && c <= '9'
}

/// The number that a sequence of decimal digits writes.
pub open spec fn decimal_value(digits: Seq<char>) -> nat
    decreases digits.len(),
{
    if digits.len() == 0 {
        0
    } else {
        decimal_value(digits.drop_last()) * 10 + (digits.last() as nat - '0' as nat) as nat
    }
}

/// The digits of an unsigned number: the text without an optional leading `+`.
pub open spec fn unsigned_digits(s: Seq<char>) -> Seq<char> {
    if s.len() > 0 && s[0] == '+' { s.drop_first() } else { s }
}

/// A `u32` read from text as `str::parse::<u32>` reads it: an optional `+`,
/// then one or more ASCII decimal digits, whose value fits in 32 bits.
pub open spec fn spec_parse_u32(s: Seq<char>) -> Option<u32> {
    let digits = unsigned_digits(s);
    if digits.len() > 0 && (forall|i: int| 0 <= i < digits.len() ==> is_decimal_digit(#[trigger] digits[i]))
        && decimal_value(digits) <= u32::MAX {
        Some(decimal_value(digits) as u32)
    } else {
        None
    }
}

proof fn lemma_decimal_value_grows(digits: Seq<char>, c: char)
    requires
        is_decimal_digit(c),
    ensures
        decimal_value(digits.push(c)) == decimal_value(digits) * 10 + (c as nat - '0' as nat),
        decimal_value(digits.push(c)) >= decimal_value(digits),
{
    assert(digits.push(c).drop_last() =~= digits);
}

/// Reads a `u32` written in decimal, as `str::parse::<u32>` does.
pub fn parse_u32(s: &str) -> (r: Option<u32>)
    ensures
        r == spec_parse_u32(s@),
{
    broadcast use vstd::string::axiom_spec_iter;
    let ghost text = s@;
    let ghost start: int = if text.len() > 0 && text[0] == '+' { 1 } else { 0 };
    let mut value: u32 = 0;
    let mut overflow = false;
    let mut first = true;
    let mut any_digit = false;
    proof {
        assert(text.subrange(start, start) =~= Seq::<char>::empty());
    }
    for c in it: s.chars()
        invariant
            it.seq() == text,
            text == s@,
            0 <= start <= 1,
            start == (if text.len() > 0 && text[0] == '+' { 1int } else { 0int }),
            first <==> it.index() == 0,
            any_digit <==> it.index() > start,
            it.index() <= start ==> !overflow && value == 0,
            it.index() >= start ==> forall|i: int| start <= i < it.index() ==> is_decimal_digit(#[trigger] text[i]),
            it.index() >= start && !overflow ==> value == decimal_value(text.subrange(start, it.index())),
            it.index() >= start && overflow ==> decimal_value(text.subrange(start, it.index())) > u32::MAX,
    {
        let ghost pos = it.index();
        proof {
            assert(c == text[pos]);
            assert(text.subrange(start, start) =~= Seq::<char>::empty());
        }
        if !(first && c == '+') {
            assert(pos >= start);
            if !('0' <= c && c <= '9') {
                proof {
                    let digits = unsigned_digits(text);
                    assert(digits[pos - start] == text[pos]);
                    assert(!is_decimal_digit(digits[pos - start]));
                    assert(!(forall|i: int| 0 <= i < digits.len() ==> is_decimal_digit(#[trigger] digits[i])));
                }
                return None;
            }
            proof {
                assert(text.subrange(start, pos + 1) =~= text.subrange(start, pos).push(c));
                lemma_decimal_value_grows(text.subrange(start, pos), c);
            }
            let d: u32 = (c as u32) - ('0' as u32);
            if !overflow {
                match value.checked_mul(10) {
                    Some(v10) => match v10.checked_add(d) {
                        Some(v) => { value = v; },
                        None => { overflow = true; },
                    },
                    None => { overflow = true; },
                }
            }
            any_digit = true;
        }
        first = false;
    }
    proof {
        let digits = unsigned_digits(text);
        assert(digits =~= text.subrange(start, text.len() as int));
    }
    if !any_digit || overflow {
        None
    } else {
        Some(value)
    }
}


/// The text compares equal to `lit`, character for character.
fn text_is(s: &str, lit: &str) -> (r: bool)
    ensures
        r == (s@ == lit@),
{
    String::from_str(s) == String::from_str(lit)
}

/// Names the result of `str::to_lowercase`: the text with every character
/// replaced by its Unicode lowercase mapping.
pub uninterp spec fn lowercase(s: Seq<char>) -> Seq<char>;

/// Calls `str::to_lowercase`. Claims only that the result is [`lowercase`] of
/// the argument, a function of the argument's characters alone; what that
/// mapping is (Unicode's case tables) is not stated.
#[verifier::external_body]
fn to_lowercase(s: &str) -> (r: String)
    ensures
        r@ == lowercase(s@),
{
    s.to_lowercase()
}

/// The mode that a (lowercase) name on the command line selects.
pub open spec fn spec_mode_from_name(name: Seq<char>) -> Option<ImeMode> {
    if name == "imm"@ {
        Some(ImeMode::ImmMessage)
    } else if name == "ime"@ {
        Some(ImeMode::ImeKey)
    } else if name == "convert"@ {
        Some(ImeMode::ConvertKey)
    } else if name == "hybrid"@ {
        Some(ImeMode::Hybrid)
    } else {
        None
    }
}

/// The mode that a lowercase name selects: `imm`, `ime`, `convert` or `hybrid`.
pub fn mode_from_name(name: &str) -> (r: Option<ImeMode>)
    ensures
        r == spec_mode_from_name(name@),
{
    if text_is(name, "imm") {
        Some(ImeMode::ImmMessage)
    } else if text_is(name, "ime") {
        Some(ImeMode::ImeKey)
    } else if text_is(name, "convert") {
        Some(ImeMode::ConvertKey)
    } else if text_is(name, "hybrid") {
        Some(ImeMode::Hybrid)
    } else {
        None
    }
}

/// How the command line ends.
#[derive(Debug, Clone, PartialEq, Eq)]
pub enum CliOutcome {
    /// Start the tool.
    Run,
    /// Print the usage and stop.
    ShowHelp,
    /// Report this (lowercased) unknown mode name and stop.
    UnknownMode(String),
}

/// What the command line asks for.
#[derive(Debug, Clone, PartialEq, Eq)]
pub struct CliOptions {
    /// Attach or allocate a console for the log.
    pub console: bool,
    /// The IME switching mode to start with.
    pub mode: ImeMode,
    /// The tap timeout in milliseconds.
    pub timeout_ms: u32,
    pub outcome: CliOutcome,
}

/// [`CliOutcome`] with the unknown mode name as characters.
pub enum CliOutcomeModel {
    Run,
    ShowHelp,
    UnknownMode(Seq<char>),
}

/// [`CliOptions`] with the unknown mode name as characters.
pub struct CliModel {
    pub console: bool,
    pub mode: ImeMode,
    pub timeout_ms: u32,
    pub outcome: CliOutcomeModel,
}

impl CliOptions {
    pub open spec fn model(self) -> CliModel {
        CliModel {
            console: self.console,
            mode: self.mode,
            timeout_ms: self.timeout_ms,
            outcome: match self.outcome {
                CliOutcome::Run => CliOutcomeModel::Run,
                CliOutcome::ShowHelp => CliOutcomeModel::ShowHelp,
                CliOutcome::UnknownMode(name) => CliOutcomeModel::UnknownMode(name@),
            },
        }
    }
}

/// The options before any argument is read: no console, the IMM message mode,
/// the default timeout, and run.
pub open spec fn initial_cli_model() -> CliModel {
    CliModel {
        console: false,
        mode: ImeMode::ImmMessage,
        timeout_ms: DEFAULT_TIMEOUT_MS,
        outcome: CliOutcomeModel::Run,
    }
}

/// Reads the arguments from position `i` on, starting from `acc`:
/// `--console` asks for a console; `-h` or `--help` asks for a console and the
/// usage and stops; `--mode NAME` selects the mode that the lowercased name
/// gives, or stops with that name as unknown (asking for a console to report
/// it); `--timeout MS` sets the timeout when `MS` reads as a `u32` and is
/// otherwise ignored; a `--mode` or `--timeout` in last place, and any other
/// argument, is ignored.
pub open spec fn parse_from(args: Seq<Seq<char>>, i: int, acc: CliModel) -> CliModel
    decreases args.len() - i,
{
    if i < 0 || i >= args.len() {
        acc
    } else {
        let a = args[i];
        if a == "--console"@ {
            parse_from(args, i + 1, CliModel { console: true, ..acc })
        } else if a == "-h"@ || a == "--help"@ {
            CliModel { console: true, outcome: CliOutcomeModel::ShowHelp, ..acc }
        } else if a == "--mode"@ && i + 1 < args.len() {
            let name = lowercase(args[i + 1]);
            match spec_mode_from_name(name) {
                Some(m) => parse_from(args, i + 2, CliModel { mode: m, ..acc }),
                None => CliModel { console: true, outcome: CliOutcomeModel::UnknownMode(name), ..acc },
            }
        } else if a == "--timeout"@ && i + 1 < args.len() {
            let timeout_ms = match spec_parse_u32(args[i + 1]) {
                Some(t) => t,
                None => acc.timeout_ms,
            };
            parse_from(args, i + 2, CliModel { timeout_ms, ..acc })
        } else {
            parse_from(args, i + 1, acc)
        }
    }
}

/// What the whole command line asks for; the first argument is the program's
/// own name and is skipped.
pub open spec fn spec_parse_args(args: Seq<Seq<char>>) -> CliModel {
    parse_from(args, 1, initial_cli_model())
}

/// Reads the command line (the program's name first).
pub fn parse_args(args: &Vec<String>) -> (r: CliOptions)
    ensures
        r.model() == spec_parse_args(args.deep_view()),
{
    let ghost view = args.deep_view();
    let mut console = false;
    let mut mode = ImeMode::ImmMessage;
    let mut timeout_ms: u32 = DEFAULT_TIMEOUT_MS;
    let mut i: usize = 1;
    while i < args.len()
        invariant
            view == args.deep_view(),
            1 <= i,
            spec_parse_args(view) == parse_from(view, i as int,
                CliModel { console, mode, timeout_ms, outcome: CliOutcomeModel::Run }),
        decreases args.len() - i,
    {
        let a = args[i].as_str();
        if text_is(a, "--console") {
            console = true;
            i = i + 1;
        } else if text_is(a, "-h") || text_is(a, "--help") {
            return CliOptions { console: true, mode, timeout_ms, outcome: CliOutcome::ShowHelp };
        } else if text_is(a, "--mode") && i + 1 < args.len() {
            let name = to_lowercase(args[i + 1].as_str());
            match mode_from_name(name.as_str()) {
                Some(m) => {
                    mode = m;
                },
                None => {
                    return CliOptions { console: true, mode, timeout_ms, outcome: CliOutcome::UnknownMode(name) };
                },
            }
            i = i + 2;
        } else if text_is(a, "--timeout") && i + 1 < args.len() {
            match parse_u32(args[i + 1].as_str()) {
                Some(t) => {
                    timeout_ms = t;
                },
                None => {},
            }
            i = i + 2;
        } else {
            i = i + 1;
        }
    }
    CliOptions { console, mode, timeout_ms, outcome: CliOutcome::Run }
}


proof fn lemma_option_names_differ()
    ensures
        "--mode"@ != "--console"@,
        "--mode"@ != "-h"@,
        "--mode"@ != "--help"@,
        "--timeout"@ != "--console"@,
        "--timeout"@ != "-h"@,
        "--timeout"@ != "--help"@,
        "--timeout"@ != "--mode"@,
{
    reveal_strlit("--mode");
    reveal_strlit("--console");
    reveal_strlit("-h");
    reveal_strlit("--help");
    reveal_strlit("--timeout");
    assert("--mode"@[2] != "--console"@[2]);
    assert("--mode"@.len() != "-h"@.len());
    assert("--mode"@[2] != "--help"@[2]);
    assert("--timeout"@[2] != "--console"@[2]);
    assert("--timeout"@.len() != "-h"@.len());
    assert("--timeout"@.len() != "--help"@.len());
    assert("--timeout"@.len() != "--mode"@.len());
}

/// The timeout that the command line gives does not depend on the mode or the
/// console request read before: those settings never feed into it.
pub proof fn lemma_timeout_ignores_other_settings(args: Seq<Seq<char>>, i: int, acc: CliModel, mode: ImeMode, console: bool)
    ensures
        parse_from(args, i, acc).timeout_ms
            == parse_from(args, i, CliModel { mode, console, timeout_ms: acc.timeout_ms, outcome: acc.outcome }).timeout_ms,
    decreases args.len() - i,
{
    let other = CliModel { mode, console, timeout_ms: acc.timeout_ms, outcome: acc.outcome };
    if 0 <= i < args.len() {
        let a = args[i];
        if a == "--console"@ {
            lemma_timeout_ignores_other_settings(args, i + 1, CliModel { console: true, ..acc }, mode, true);
        } else if a == "-h"@ || a == "--help"@ {
        } else if a == "--mode"@ && i + 1 < args.len() {
            match spec_mode_from_name(lowercase(args[i + 1])) {
                Some(m) => {
                    lemma_timeout_ignores_other_settings(args, i + 2, CliModel { mode: m, ..acc }, m, console);
                },
                None => {},
            }
        } else if a == "--timeout"@ && i + 1 < args.len() {
            let t = match spec_parse_u32(args[i + 1]) {
                Some(t) => t,
                None => acc.timeout_ms,
            };
            lemma_timeout_ignores_other_settings(args, i + 2, CliModel { timeout_ms: t, ..acc }, mode, console);
        } else {
            lemma_timeout_ignores_other_settings(args, i + 1, acc, mode, console);
        }
    }
}

/// A `--mode NAME` pair with a known name sets the mode and leaves the
/// timeout to the other arguments: the timeout read from the rest of the
/// command line is the same as if the pair were not there.
pub proof fn lemma_mode_pair_keeps_timeout(args: Seq<Seq<char>>, i: int, acc: CliModel)
    requires
        0 <= i,
        i + 1 < args.len(),
        args[i] == "--mode"@,
        spec_mode_from_name(lowercase(args[i + 1])) is Some,
    ensures
        parse_from(args, i, acc).timeout_ms == parse_from(args, i + 2, acc).timeout_ms,
{
    lemma_option_names_differ();
    let m = spec_mode_from_name(lowercase(args[i + 1]))->0;
    lemma_timeout_ignores_other_settings(args, i + 2, CliModel { mode: m, ..acc }, acc.mode, acc.console);
}

/// Without any `--timeout` argument the timeout stays what it was.
pub proof fn lemma_no_timeout_argument(args: Seq<Seq<char>>, i: int, acc: CliModel)
    requires
        forall|j: int| i <= j < args.len() ==> args[j] != "--timeout"@,
    ensures
        parse_from(args, i, acc).timeout_ms == acc.timeout_ms,
    decreases args.len() - i,
{
    if 0 <= i < args.len() {
        let a = args[i];
        if a == "--console"@ {
            lemma_no_timeout_argument(args, i + 1, CliModel { console: true, ..acc });
        } else if a == "-h"@ || a == "--help"@ {
        } else if a == "--mode"@ && i + 1 < args.len() {
            match spec_mode_from_name(lowercase(args[i + 1])) {
                Some(m) => {
                    lemma_no_timeout_argument(args, i + 2, CliModel { mode: m, ..acc });
                },
                None => {},
            }
        } else {
            assert(a != "--timeout"@);
            lemma_no_timeout_argument(args, i + 1, acc);
        }
    }
}

/// `--timeout MS --mode NAME`: the readable timeout is kept and the mode is set,
/// whatever order the two options come in.
pub proof fn lemma_timeout_then_mode(exe: Seq<char>, t: Seq<char>, name: Seq<char>)
    requires
        spec_parse_u32(t) is Some,
        spec_mode_from_name(lowercase(name)) is Some,
    ensures
        ({
            let r = spec_parse_args(seq![exe, "--timeout"@, t, "--mode"@, name]);
            &&& r.timeout_ms == spec_parse_u32(t)->0
            &&& r.mode == spec_mode_from_name(lowercase(name))->0
            &&& r.outcome is Run
            &&& !r.console
        }),
        ({
            let r = spec_parse_args(seq![exe, "--mode"@, name, "--timeout"@, t]);
            &&& r.timeout_ms == spec_parse_u32(t)->0
            &&& r.mode == spec_mode_from_name(lowercase(name))->0
            &&& r.outcome is Run
            &&& !r.console
        }),
{
    lemma_option_names_differ();
    let a = seq![exe, "--timeout"@, t, "--mode"@, name];
    let b = seq![exe, "--mode"@, name, "--timeout"@, t];
    assert(a[1] == "--timeout"@ && a[2] == t && a[3] == "--mode"@ && a[4] == name);
    assert(b[1] == "--mode"@ && b[2] == name && b[3] == "--timeout"@ && b[4] == t);
    reveal_with_fuel(parse_from, 4);
}

} // verus!
