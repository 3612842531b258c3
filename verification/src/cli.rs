//! Command-line types and the interactive command parser.
//!
//! The interactive shell reads a line and parses it into a `Command`; the
//! grammar is fixed here, down to the default countdown and the accepted
//! flags, and the parser is specified against it token by token.

use crate::hash::bytes_eq;
use crate::timer::TimerState;
use vstd::prelude::*;
use vstd::string::StringSliceAdditionalSpecFns;

verus! {

/// A command the interactive shell understands.
#[derive(Debug, Clone, Copy, PartialEq, Eq, Structural)]
pub enum Command {
    /// Start the monitoring service.
    Start {
        /// The destruct countdown, in seconds.
        timer: u64,
        /// Whether to run in the background.
        daemon: bool,
    },
    /// Destroy all clipboard data at once.
    Nuke {
        /// Whether to skip the confirmation.
        force: bool,
    },
    /// Show the service status.
    Status,
    /// Stop the service.
    Stop,
    /// Show or reset the configuration.
    Config {
        /// Whether to reset to the defaults.
        reset: bool,
    },
    /// Leave the shell.
    Exit,
}

/// Why a command line was rejected.
#[derive(Debug, Clone, Copy, PartialEq, Eq, Structural)]
pub enum ParseError {
    /// The line held no token.
    Empty,
    /// The first token is no known command.
    UnknownCommand,
    /// A flag that needs a value stood last.
    MissingValue,
    /// A value that must be a number is not one, or does not fit.
    InvalidNumber,
    /// A token is no flag of this command.
    UnknownArgument,
}

impl ParseError {
    /// A short description of the failure.
    pub fn message(&self) -> (r: &'static str)
        ensures
            r@.len() > 0,
    {
        let r = match self {
            ParseError::Empty => "the command is empty",
            ParseError::UnknownCommand => "unknown command",
            ParseError::MissingValue => "the flag needs a value",
            ParseError::InvalidNumber => "the value must be a number",
            ParseError::UnknownArgument => "unknown argument",
        };
        proof {
            reveal_strlit("the command is empty");
            reveal_strlit("unknown command");
            reveal_strlit("the flag needs a value");
            reveal_strlit("the value must be a number");
            reveal_strlit("unknown argument");
        }
        r
    }
}

/// What an external driver reads of the running service.
#[derive(Debug)]
pub struct ServiceStatus {
    /// Whether the service runs.
    pub is_running: bool,
    /// When it started, in milliseconds, while it runs.
    pub start_time_ms: Option<u64>,
    /// The destruct timer's phase.
    pub timer_state: TimerState,
    /// Time left on the countdown, in milliseconds, while one runs.
    pub remaining_time_ms: Option<u64>,
    /// How many events the service has handled.
    pub total_events: u64,
    /// The length of the sealed content now held, in bytes.
    pub encrypted_content_length: usize,
}

/// Why a driver-level operation failed.
#[derive(Debug)]
pub enum CliError {
    /// A clipboard operation failed.
    ClipboardError(String),
    /// A timer operation failed.
    TimerError(String),
    /// A configuration operation failed.
    ConfigError(String),
    /// Registering a hotkey failed.
    HotkeyError(String),
    /// The service is not running.
    ServiceNotRunning,
    /// The user declined the operation.
    OperationCancelled,
}

impl CliError {
    /// A short description of the failure.
    pub fn message(&self) -> (r: &'static str)
        ensures
            r@.len() > 0,
    {
        let r = match self {
            CliError::ClipboardError(_) => "clipboard operation failed",
            CliError::TimerError(_) => "timer operation failed",
            CliError::ConfigError(_) => "configuration operation failed",
            CliError::HotkeyError(_) => "hotkey registration failed",
            CliError::ServiceNotRunning => "the service is not running",
            CliError::OperationCancelled => "the operation was cancelled",
        };
        proof {
            reveal_strlit("clipboard operation failed");
            reveal_strlit("timer operation failed");
            reveal_strlit("configuration operation failed");
            reveal_strlit("hotkey registration failed");
            reveal_strlit("the service is not running");
            reveal_strlit("the operation was cancelled");
        }
        r
    }
}

/// Whether a byte is ASCII whitespace, as the tokenizer sees it.
pub open spec fn is_space(b: u8) -> bool {
    b == 32 || b == 9 || b == 10 || b == 13
}

/// The length of the token at the front of the text: the bytes up to the
/// first whitespace.
pub open spec fn token_len(s: Seq<u8>) -> nat
    decreases s.len(),
{
    if s.len() == 0 || is_space(s[0]) {
        0
    } else {
        1 + token_len(s.skip(1))
    }
}

/// A token never runs past the end of the text.
proof fn lemma_token_len_le(s: Seq<u8>)
    ensures
        token_len(s) <= s.len(),
    decreases s.len(),
{
    if s.len() > 0 && !is_space(s[0]) {
        lemma_token_len_le(s.skip(1));
    }
}

/// The whitespace-separated tokens of the text, in order.
pub open spec fn spec_tokens(s: Seq<u8>) -> Seq<Seq<u8>>
    decreases s.len(),
        via spec_tokens_decreases
{
    if s.len() == 0 {
        Seq::empty()
    } else if is_space(s[0]) {
        spec_tokens(s.skip(1))
    } else {
        seq![s.take(token_len(s) as int)] + spec_tokens(s.skip(token_len(s) as int))
    }
}

#[via_fn]
proof fn spec_tokens_decreases(s: Seq<u8>) {
    if s.len() > 0 && !is_space(s[0]) {
        lemma_token_len_le(s);
    }
}

/// Whether a byte is an ASCII digit.
pub open spec fn is_digit(b: u8) -> bool {
    48 <= b <= 57
}

/// Whether every byte of a token is a digit.
pub open spec fn all_digits(t: Seq<u8>) -> bool {
    forall|i: int| 0 <= i < t.len() ==> is_digit(#[trigger] t[i])
}

/// The number a digit string denotes.
pub open spec fn digits_value(t: Seq<u8>) -> int
    decreases t.len(),
{
    if t.len() == 0 {
        0
    } else {
        digits_value(t.drop_last()) * 10 + (t.last() - 48)
    }
}

/// The number a token denotes, if it is a non-empty digit string whose
/// value fits in 64 bits.
pub open spec fn spec_parse_u64(t: Seq<u8>) -> Option<u64> {
    if t.len() > 0 && all_digits(t) && digits_value(t) <= u64::MAX {
        Some(digits_value(t) as u64)
    } else {
        None
    }
}

/// The meaning of the tokens after `start`, given the settings collected so
/// far; the countdown defaults to thirty seconds.
pub open spec fn spec_start_args(
    toks: Seq<Seq<u8>>,
    i: int,
    timer: u64,
    daemon: bool,
) -> Result<Command, ParseError>
    decreases toks.len() - i,
{
    if i >= toks.len() {
        Ok(Command::Start { timer, daemon })
    } else if toks[i] == "--timer".spec_bytes() || toks[i] == "-t".spec_bytes() {
        if i + 1 >= toks.len() {
            Err(ParseError::MissingValue)
        } else {
            match spec_parse_u64(toks[i + 1]) {
                Option::Some(v) => spec_start_args(toks, i + 2, v, daemon),
                Option::None => Err(ParseError::InvalidNumber),
            }
        }
    } else if toks[i] == "--daemon".spec_bytes() || toks[i] == "-d".spec_bytes() {
        spec_start_args(toks, i + 1, timer, true)
    } else {
        Err(ParseError::UnknownArgument)
    }
}

/// The meaning of a token list as a command.
pub open spec fn spec_parse(toks: Seq<Seq<u8>>) -> Result<Command, ParseError> {
    if toks.len() == 0 {
        Err(ParseError::Empty)
    } else if toks[0] == "start".spec_bytes() {
        spec_start_args(toks, 1, 30, false)
    } else if toks[0] == "nuke".spec_bytes() {
        Ok(
            Command::Nuke {
                force: toks.len() > 1 && (toks[1] == "--force".spec_bytes() || toks[1]
                    == "-f".spec_bytes()),
            },
        )
    } else if toks[0] == "status".spec_bytes() {
        Ok(Command::Status)
    } else if toks[0] == "stop".spec_bytes() {
        Ok(Command::Stop)
    } else if toks[0] == "config".spec_bytes() {
        Ok(Command::Config { reset: toks.len() > 1 && toks[1] == "--reset".spec_bytes() })
    } else if toks[0] == "exit".spec_bytes() {
        Ok(Command::Exit)
    } else {
        Err(ParseError::UnknownCommand)
    }
}

/// Whether a byte is ASCII whitespace.
fn is_space_byte(b: u8) -> (r: bool)
    ensures
        r == is_space(b),
{
    b == 32 || b == 9 || b == 10 || b == 13
}

/// Split a line into its whitespace-separated tokens.
fn tokenize(input: &str) -> (r: Vec<Vec<u8>>)
    ensures
        r.deep_view() == spec_tokens(input.spec_bytes()),
{
    let bytes = input.as_bytes();
    let n = bytes.len();
    let mut toks: Vec<Vec<u8>> = Vec::new();
    let mut i: usize = 0;
    proof {
        assert(bytes@.skip(0) =~= bytes@);
    }
    while i < n
        invariant
            i <= n,
            n == bytes@.len(),
            bytes@ == input.spec_bytes(),
            spec_tokens(input.spec_bytes()) == toks.deep_view() + spec_tokens(
                bytes@.skip(i as int),
            ),
        decreases n - i,
    {
        let b = bytes[i];
        if b == 32 || b == 9 || b == 10 || b == 13 {
            proof {
                assert(bytes@.skip(i as int).skip(1) =~= bytes@.skip(i + 1));
            }
            i = i + 1;
        } else {
            let start = i;
            let mut j = i;
            while j < n && !is_space_byte(bytes[j])
                invariant
                    start <= j <= n,
                    n == bytes@.len(),
                    token_len(bytes@.skip(start as int)) == (j - start) + token_len(
                        bytes@.skip(j as int),
                    ),
                decreases n - j,
            {
                proof {
                    assert(bytes@.skip(j as int)[0] == bytes@[j as int]);
                    assert(bytes@.skip(j as int).skip(1) =~= bytes@.skip(j + 1));
                }
                j = j + 1;
            }
            proof {
                if j < n {
                    assert(bytes@.skip(j as int)[0] == bytes@[j as int]);
                }
                assert(token_len(bytes@.skip(j as int)) == 0);
                assert(token_len(bytes@.skip(start as int)) == j - start);
            }
            let mut tok: Vec<u8> = Vec::new();
            let mut k = start;
            while k < j
                invariant
                    start <= k <= j <= n,
                    n == bytes@.len(),
                    tok@ =~= bytes@.subrange(start as int, k as int),
                decreases j - k,
            {
                tok.push(bytes[k]);
                k = k + 1;
            }
            proof {
                assert(tok@ =~= bytes@.skip(start as int).take(
                    token_len(bytes@.skip(start as int)) as int,
                ));
                assert(bytes@.skip(start as int).skip(j - start) =~= bytes@.skip(j as int));
                assert(spec_tokens(bytes@.skip(start as int)) == seq![tok@] + spec_tokens(
                    bytes@.skip(j as int),
                ));
            }
            proof {
                assert(tok.deep_view() =~= tok@);
            }
            let ghost tokv = tok@;
            let ghost before = toks.deep_view();
            toks.push(tok);
            proof {
                assert(toks.deep_view() =~= before + seq![tokv]);
                assert((before + seq![tokv]) + spec_tokens(bytes@.skip(j as int)) =~= before + (
                seq![tokv] + spec_tokens(bytes@.skip(j as int))));
            }
            i = j;
        }
    }
    proof {
        assert(bytes@.skip(n as int) =~= Seq::<u8>::empty());
        assert(toks.deep_view() + Seq::<Seq<u8>>::empty() =~= toks.deep_view());
    }
    toks
}

/// Parse a token as a 64-bit number; rejects exactly what
/// `spec_parse_u64` rejects.
fn parse_u64_token(t: &[u8]) -> (r: Option<u64>)
    ensures
        r == spec_parse_u64(t@),
{
    if t.len() == 0 {
        return None;
    }
    let mut acc: u64 = 0;
    let mut i: usize = 0;
    proof {
        assert(t@.take(0) =~= Seq::<u8>::empty());
    }
    while i < t.len()
        invariant
            i <= t@.len(),
            all_digits(t@.take(i as int)),
            acc == digits_value(t@.take(i as int)),
        decreases t@.len() - i,
    {
        let b = t[i];
        if !(48 <= b && b <= 57) {
            proof {
                assert(!is_digit(t@[i as int]));
                assert(!all_digits(t@));
            }
            return None;
        }
        let d = (b - 48) as u64;
        if acc > (u64::MAX - d) / 10 {
            proof {
                if all_digits(t@) {
                    lemma_digits_value_nonneg(t@.take(i as int));
                    assert(digits_value(t@.take(i + 1)) > u64::MAX) by {
                        assert(t@.take(i + 1).drop_last() =~= t@.take(i as int));
                        assert(t@.take(i + 1).last() == t@[i as int]);
                        assert(acc * 10 + d > u64::MAX) by (nonlinear_arith)
                            requires
                                acc > (u64::MAX - d) / 10,
                                d <= 9,
                        ;
                    }
                    lemma_digits_value_grows(t@, i + 1);
                    assert(!(digits_value(t@) <= u64::MAX));
                }
            }
            return None;
        }
        proof {
            lemma_digits_value_nonneg(t@.take(i as int));
            assert(acc * 10 + d <= u64::MAX) by (nonlinear_arith)
                requires
                    acc <= (u64::MAX - d) / 10,
                    d <= 9,
            ;
            assert(t@.take(i + 1).drop_last() =~= t@.take(i as int));
            assert(t@.take(i + 1).last() == t@[i as int]);
        }
        acc = acc * 10 + d;
        i = i + 1;
    }
    proof {
        assert(t@.take(t@.len() as int) =~= t@);
    }
    Some(acc)
}

/// A digit string denotes a number that is not negative.
proof fn lemma_digits_value_nonneg(t: Seq<u8>)
    requires
        all_digits(t),
    ensures
        digits_value(t) >= 0,
    decreases t.len(),
{
    if t.len() > 0 {
        assert(all_digits(t.drop_last()));
        lemma_digits_value_nonneg(t.drop_last());
    }
}

/// Extending a digit string never shrinks its value.
proof fn lemma_digits_value_grows(t: Seq<u8>, i: int)
    requires
        all_digits(t),
        0 <= i <= t.len(),
    ensures
        digits_value(t.take(i)) <= digits_value(t),
    decreases t.len() - i,
{
    if i < t.len() {
        lemma_digits_value_grows(t, i + 1);
        assert(all_digits(t.take(i)));
        lemma_digits_value_nonneg(t.take(i));
        assert(t.take(i + 1).drop_last() =~= t.take(i));
        assert(digits_value(t.take(i + 1)) == digits_value(t.take(i)) * 10 + (t[i] - 48));
        assert(digits_value(t.take(i)) * 10 >= digits_value(t.take(i))) by (nonlinear_arith)
            requires
                digits_value(t.take(i)) >= 0,
        ;
    } else {
        assert(t.take(i) =~= t);
    }
}

/// Parse one interactive command line; accepts and refuses exactly what
/// `spec_parse` says of the line's tokens.
pub fn parse_interactive_command(input: &str) -> (r: Result<Command, ParseError>)
    ensures
        r == spec_parse(spec_tokens(input.spec_bytes())),
{
    let toks = tokenize(input);
    let ghost tv = spec_tokens(input.spec_bytes());
    if toks.len() == 0 {
        return Err(ParseError::Empty);
    }
    proof {
        assert(tv[0] =~= toks@[0]@);
    }
    if bytes_eq(toks[0].as_slice(), "start".as_bytes()) {
        let mut timer: u64 = 30;
        let mut daemon = false;
        let mut i: usize = 1;
        while i < toks.len()
            invariant
                1 <= i <= toks@.len(),
                tv == spec_tokens(input.spec_bytes()),
                tv == toks.deep_view(),
                tv.len() == toks@.len(),
                spec_parse(tv) == spec_start_args(tv, 1, 30, false),
                spec_start_args(tv, 1, 30, false) == spec_start_args(tv, i as int, timer, daemon),
            decreases toks@.len() - i,
        {
            proof {
                assert(tv[i as int] =~= toks@[i as int]@);
                if i + 1 < toks@.len() {
                    assert(tv[i + 1] =~= toks@[i + 1]@);
                }
            }
            if bytes_eq(toks[i].as_slice(), "--timer".as_bytes()) || bytes_eq(
                toks[i].as_slice(),
                "-t".as_bytes(),
            ) {
                if i + 1 >= toks.len() {
                    proof {
                        assert(spec_start_args(tv, i as int, timer, daemon) == Err::<
                            Command,
                            ParseError,
                        >(ParseError::MissingValue));
                    }
                    return Err(ParseError::MissingValue);
                }
                match parse_u64_token(toks[i + 1].as_slice()) {
                    Some(v) => {
                        proof {
                            assert(spec_parse_u64(tv[i + 1]) == Some(v));
                            assert(spec_start_args(tv, i as int, timer, daemon)
                                == spec_start_args(tv, i + 2, v, daemon));
                        }
                        timer = v;
                        i = i + 2;
                    },
                    None => {
                        proof {
                            assert(spec_parse_u64(tv[i + 1]) is None);
                            assert(spec_start_args(tv, i as int, timer, daemon) == Err::<
                                Command,
                                ParseError,
                            >(ParseError::InvalidNumber));
                        }
                        return Err(ParseError::InvalidNumber);
                    },
                }
            } else if bytes_eq(toks[i].as_slice(), "--daemon".as_bytes()) || bytes_eq(
                toks[i].as_slice(),
                "-d".as_bytes(),
            ) {
                daemon = true;
                i = i + 1;
            } else {
                proof {
                    assert(spec_start_args(tv, i as int, timer, daemon) == Err::<
                        Command,
                        ParseError,
                    >(ParseError::UnknownArgument));
                }
                return Err(ParseError::UnknownArgument);
            }
        }
        Ok(Command::Start { timer, daemon })
    } else if bytes_eq(toks[0].as_slice(), "nuke".as_bytes()) {
        let force = toks.len() > 1 && (bytes_eq(toks[1].as_slice(), "--force".as_bytes())
            || bytes_eq(toks[1].as_slice(), "-f".as_bytes()));
        proof {
            if tv.len() > 1 {
                assert(tv[1] =~= toks@[1]@);
            }
        }
        Ok(Command::Nuke { force })
    } else if bytes_eq(toks[0].as_slice(), "status".as_bytes()) {
        Ok(Command::Status)
    } else if bytes_eq(toks[0].as_slice(), "stop".as_bytes()) {
        Ok(Command::Stop)
    } else if bytes_eq(toks[0].as_slice(), "config".as_bytes()) {
        let reset = toks.len() > 1 && bytes_eq(toks[1].as_slice(), "--reset".as_bytes());
        proof {
            if tv.len() > 1 {
                assert(tv[1] =~= toks@[1]@);
            }
        }
        Ok(Command::Config { reset })
    } else if bytes_eq(toks[0].as_slice(), "exit".as_bytes()) {
        Ok(Command::Exit)
    } else {
        Err(ParseError::UnknownCommand)
    }
}

} // verus!
