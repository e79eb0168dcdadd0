//! The options of the command line: which flags there are, how their values
//! are read from the argument list, and what holds where a flag is absent.

use crate::config::{
    DEFAULT_CONCURRENCY, DEFAULT_FIRST_PORT, DEFAULT_LAST_PORT, DEFAULT_TIMEOUT_MS,
};
use vstd::prelude::*;

verus! {

/// An option that takes a number.
#[derive(Clone, Copy, Debug, PartialEq, Eq, Structural)]
pub enum Flag {
    /// `-min` or `--minport`: first port of the range.
    FirstPort,
    /// `-max` or `--maxport`: last port of the range.
    LastPort,
    /// `-t` or `--threads`: the concurrency limit.
    Concurrency,
    /// `-T` or `--timeout`: the per-attempt timeout in milliseconds.
    Timeout,
}

/// Why the argument list could not be read.
#[derive(Clone, Copy, Debug, PartialEq, Eq, Structural)]
pub enum OptionsError {
    /// The flag is the last argument: no value follows it.
    MissingValue(Flag),
    /// The argument after the flag is no number that the option can hold.
    NotANumber(Flag),
}

/// The options as read from the argument list, defaults filled in.
#[derive(Clone, Copy, Debug, PartialEq, Eq, Structural)]
pub struct Options {
    /// First port of the range.
    pub first_port: u16,
    /// Last port of the range.
    pub last_port: u16,
    /// The concurrency limit.
    pub concurrency: usize,
    /// The per-attempt timeout in milliseconds.
    pub timeout_ms: u64,
    /// Whether banners are captured.
    pub capture_banner: bool,
}

/// The short spelling of `flag`.
pub open spec fn short_name(flag: Flag) -> Seq<char> {
    match flag {
        Flag::FirstPort => "-min"@,
        Flag::LastPort => "-max"@,
        Flag::Concurrency => "-t"@,
        Flag::Timeout => "-T"@,
    }
}

/// The long spelling of `flag`.
pub open spec fn long_name(flag: Flag) -> Seq<char> {
    match flag {
        Flag::FirstPort => "--minport"@,
        Flag::LastPort => "--maxport"@,
        Flag::Concurrency => "--threads"@,
        Flag::Timeout => "--timeout"@,
    }
}

/// The hint shown where the value of `flag` is no number.
pub open spec fn spec_usage(flag: Flag) -> Seq<char> {
    match flag {
        Flag::FirstPort => "-min <port>"@,
        Flag::LastPort => "-max <port>"@,
        Flag::Concurrency => "-t <threads>"@,
        Flag::Timeout => "-T <timeout in ms>"@,
    }
}

/// The largest value that the option of `flag` can hold.
pub open spec fn largest(flag: Flag) -> nat {
    match flag {
        Flag::FirstPort => u16::MAX as nat,
        Flag::LastPort => u16::MAX as nat,
        Flag::Concurrency => usize::MAX as nat,
        Flag::Timeout => u64::MAX as nat,
    }
}

/// The value that the option of `flag` has where the flag is absent.
pub open spec fn default_of(flag: Flag) -> nat {
    match flag {
        Flag::FirstPort => 1,
        Flag::LastPort => 65535,
        Flag::Concurrency => 200,
        Flag::Timeout => 1000,
    }
}

/// Whether `arg` is one of the two spellings of `flag`.
pub open spec fn names(arg: Seq<char>, flag: Flag) -> bool {
    arg == short_name(flag) || arg == long_name(flag)
}

/// The first place at or after `from` where `flag` stands among `args`.
pub open spec fn flag_position(args: Seq<String>, flag: Flag, from: int) -> Option<int>
    decreases args.len() - from,
{
    if from < 0 || from >= args.len() {
        None
    } else if names(args[from]@, flag) {
        Some(from)
    } else {
        flag_position(args, flag, from + 1)
    }
}

/// Whether `c` is one of the digits `0` to `9`.
pub open spec fn is_digit(c: char) -> bool {
    '0' <= c <= '9'
}

/// The number that a string of decimal digits stands for.
pub open spec fn digits_value(digits: Seq<char>) -> nat
    decreases digits.len(),
{
    if digits.len() == 0 {
        0
    } else {
        digits_value(digits.drop_last()) * 10 + ((digits.last() as u32) - 0x30) as nat
    }
}

/// The number that `text` stands for: an optional `+`, then one or more
/// decimal digits and nothing else. Other text stands for no number.
pub open spec fn number_of(text: Seq<char>) -> Option<nat> {
    let digits = if text.len() > 0 && text[0] == '+' {
        text.skip(1)
    } else {
        text
    };
    if digits.len() > 0 && (forall|i: int| 0 <= i < digits.len() ==> is_digit(#[trigger] digits[i])) {
        Some(digits_value(digits))
    } else {
        None
    }
}

/// Whether `needle` stands somewhere in `text`.
pub open spec fn occurs_in(needle: Seq<char>, text: Seq<char>) -> bool {
    exists|at: int|
        0 <= at && at + needle.len() <= text.len() && #[trigger] text.subrange(
            at,
            at + needle.len(),
        ) == needle
}

/// Whether `arg` switches banner capture off: it holds `-n` or `--nobanner`
/// anywhere in it.
pub open spec fn disables_banner(arg: Seq<char>) -> bool {
    occurs_in("-n"@, arg) || occurs_in("--nobanner"@, arg)
}

/// Whether any of `args` from `from` on switches banner capture off.
pub open spec fn banner_disabled(args: Seq<String>, from: int) -> bool
    decreases args.len() - from,
{
    if from < 0 || from >= args.len() {
        false
    } else {
        disables_banner(args[from]@) || banner_disabled(args, from + 1)
    }
}

/// The value of the option of `flag` as `args` give it: none where the flag
/// is absent; else the number that the argument after its first occurrence
/// stands for, or the reason why there is none.
pub open spec fn option_value(args: Seq<String>, flag: Flag) -> Result<Option<nat>, OptionsError> {
    match flag_position(args, flag, 0) {
        None => Ok(None),
        Some(at) => if at + 1 >= args.len() {
            Err(OptionsError::MissingValue(flag))
        } else {
            match number_of(args[at + 1]@) {
                Some(value) => if value <= largest(flag) {
                    Ok(Some(value))
                } else {
                    Err(OptionsError::NotANumber(flag))
                },
                None => Err(OptionsError::NotANumber(flag)),
            }
        },
    }
}

/// The value of the option of `flag`, its default where the flag is absent.
pub open spec fn setting(args: Seq<String>, flag: Flag) -> Result<nat, OptionsError> {
    match option_value(args, flag) {
        Ok(Some(value)) => Ok(value),
        Ok(None) => Ok(default_of(flag)),
        Err(e) => Err(e),
    }
}

/// What `parse_options` answers for `args`. The flags are read in the order
/// first port, last port, concurrency, timeout, and the first that cannot be
/// read decides the error.
pub open spec fn options_of(args: Seq<String>) -> Result<Options, OptionsError> {
    match setting(args, Flag::FirstPort) {
        Err(e) => Err(e),
        Ok(first) => match setting(args, Flag::LastPort) {
            Err(e) => Err(e),
            Ok(last) => match setting(args, Flag::Concurrency) {
                Err(e) => Err(e),
                Ok(limit) => match setting(args, Flag::Timeout) {
                    Err(e) => Err(e),
                    Ok(timeout) => Ok(
                        Options {
                            first_port: first as u16,
                            last_port: last as u16,
                            concurrency: limit as usize,
                            timeout_ms: timeout as u64,
                            capture_banner: !banner_disabled(args, 0),
                        },
                    ),
                },
            },
        },
    }
}

/// Calls `str::parse` for `u64`. Believed of it: it accepts an optional `+`
/// followed by one or more decimal digits and nothing else, and returns the
/// number they stand for where it fits in 64 bits; any other text, and any
/// larger number, is an error.
#[verifier::external_body]
fn parse_decimal(text: &str) -> (value: Option<u64>)
    ensures
        value == match number_of(text@) {
            Some(n) => if n <= u64::MAX {
                Some(n as u64)
            } else {
                None
            },
            None => None,
        },
{
    text.parse::<u64>().ok()
}

/// Calls `str::contains` with a string as the pattern. Believed of it: it
/// says whether `needle` stands somewhere in `text`.
#[verifier::external_body]
fn holds(text: &str, needle: &str) -> (found: bool)
    ensures
        found == occurs_in(needle@, text@),
{
    text.contains(needle)
}

impl Flag {
    /// The short spelling of the flag.
    pub fn short(self) -> (name: String)
        ensures
            name@ == short_name(self),
    {
        match self {
            Flag::FirstPort => "-min".to_owned(),
            Flag::LastPort => "-max".to_owned(),
            Flag::Concurrency => "-t".to_owned(),
            Flag::Timeout => "-T".to_owned(),
        }
    }

    /// The long spelling of the flag.
    pub fn long(self) -> (name: String)
        ensures
            name@ == long_name(self),
    {
        match self {
            Flag::FirstPort => "--minport".to_owned(),
            Flag::LastPort => "--maxport".to_owned(),
            Flag::Concurrency => "--threads".to_owned(),
            Flag::Timeout => "--timeout".to_owned(),
        }
    }

    /// The hint shown where the flag's value is no number.
    pub fn usage(self) -> (hint: String)
        ensures
            hint@ == spec_usage(self),
    {
        match self {
            Flag::FirstPort => "-min <port>".to_owned(),
            Flag::LastPort => "-max <port>".to_owned(),
            Flag::Concurrency => "-t <threads>".to_owned(),
            Flag::Timeout => "-T <timeout in ms>".to_owned(),
        }
    }

    /// The largest value that the flag's option can hold.
    pub fn max_value(self) -> (max: u64)
        ensures
            max == largest(self),
    {
        match self {
            Flag::FirstPort => 65535,
            Flag::LastPort => 65535,
            Flag::Concurrency => usize::MAX as u64,
            Flag::Timeout => u64::MAX,
        }
    }

    /// The value that the flag's option has where the flag is absent.
    pub fn default_value(self) -> (value: u64)
        ensures
            value == default_of(self),
            value <= largest(self),
    {
        match self {
            Flag::FirstPort => DEFAULT_FIRST_PORT as u64,
            Flag::LastPort => DEFAULT_LAST_PORT as u64,
            Flag::Concurrency => DEFAULT_CONCURRENCY as u64,
            Flag::Timeout => DEFAULT_TIMEOUT_MS,
        }
    }
}

/// The first place where `flag` stands among `args`, in either spelling.
pub fn find_flag(args: &Vec<String>, flag: Flag) -> (found: Option<usize>)
    ensures
        match found {
            Some(at) => flag_position(args@, flag, 0) == Some(at as int),
            None => flag_position(args@, flag, 0) is None,
        },
{
    let short = flag.short();
    let long = flag.long();
    let mut at: usize = 0;
    while at < args.len()
        invariant
            at <= args@.len(),
            short@ == short_name(flag),
            long@ == long_name(flag),
            flag_position(args@, flag, 0) == flag_position(args@, flag, at as int),
        decreases args@.len() - at,
    {
        if args[at] == short || args[at] == long {
            return Some(at);
        }
        at = at + 1;
    }
    None
}

/// Reads the value of one option from the full argument list. An absent
/// flag gives no value. Where the flag is given, the argument after its
/// first occurrence has to be a number that the option can hold.
pub fn read_option(args: &Vec<String>, flag: Flag) -> (value: Result<Option<u64>, OptionsError>)
    ensures
        match value {
            Ok(Some(n)) => option_value(args@, flag) == Ok::<Option<nat>, OptionsError>(
                Some(n as nat),
            ),
            Ok(None) => option_value(args@, flag) == Ok::<Option<nat>, OptionsError>(None),
            Err(e) => option_value(args@, flag) == Err::<Option<nat>, OptionsError>(e),
        },
{
    match find_flag(args, flag) {
        None => Ok(None),
        Some(at) => {
            if at >= args.len() - 1 {
                Err(OptionsError::MissingValue(flag))
            } else {
                match parse_decimal(args[at + 1].as_str()) {
                    Some(n) => if n <= flag.max_value() {
                        Ok(Some(n))
                    } else {
                        Err(OptionsError::NotANumber(flag))
                    },
                    None => Err(OptionsError::NotANumber(flag)),
                }
            }
        },
    }
}

/// Reads one option and fills in its default where the flag is absent.
fn read_setting(args: &Vec<String>, flag: Flag) -> (value: Result<u64, OptionsError>)
    ensures
        match value {
            Ok(n) => setting(args@, flag) == Ok::<nat, OptionsError>(n as nat) && n <= largest(
                flag,
            ),
            Err(e) => setting(args@, flag) == Err::<nat, OptionsError>(e),
        },
{
    match read_option(args, flag) {
        Ok(Some(n)) => Ok(n),
        Ok(None) => Ok(flag.default_value()),
        Err(e) => Err(e),
    }
}

/// Whether banner capture is switched off: some argument, the program's
/// name and the host among them, holds `-n` or `--nobanner`.
pub fn banner_switched_off(args: &Vec<String>) -> (off: bool)
    ensures
        off == banner_disabled(args@, 0),
{
    let mut at: usize = args.len();
    let mut off = false;
    while at > 0
        invariant
            at <= args@.len(),
            off == banner_disabled(args@, at as int),
        decreases at,
    {
        at = at - 1;
        let arg = args[at].as_str();
        if holds(arg, "-n") || holds(arg, "--nobanner") {
            off = true;
        }
    }
    off
}

/// Reads the options from the full argument list. Flags that are absent
/// leave their defaults: ports 1 to 65535, 200 slots, 1000 ms, banners
/// captured.
pub fn parse_options(args: &Vec<String>) -> (options: Result<Options, OptionsError>)
    ensures
        options == options_of(args@),
{
    let first = match read_setting(args, Flag::FirstPort) {
        Ok(n) => n,
        Err(e) => {
            return Err(e);
        },
    };
    let last = match read_setting(args, Flag::LastPort) {
        Ok(n) => n,
        Err(e) => {
            return Err(e);
        },
    };
    let limit = match read_setting(args, Flag::Concurrency) {
        Ok(n) => n,
        Err(e) => {
            return Err(e);
        },
    };
    let timeout = match read_setting(args, Flag::Timeout) {
        Ok(n) => n,
        Err(e) => {
            return Err(e);
        },
    };
    let off = banner_switched_off(args);
    Ok(
        Options {
            first_port: first as u16,
            last_port: last as u16,
            concurrency: limit as usize,
            timeout_ms: timeout,
            capture_banner: !off,
        },
    )
}

} // verus!
