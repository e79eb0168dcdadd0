//! Rendering: the text that is shown for a result, and the progress caption
//! of a port that is being probed.

use crate::outcome::{PortResult, PortStatus};
use colored::Colorize;
use vstd::prelude::*;
use vstd::string::StringExecFns;

verus! {

/// The character of the decimal digit `d`.
pub open spec fn digit(d: nat) -> char
    recommends
        d < 10,
{
    ((0x30 + d) as u8) as char
}

/// The decimal numeral of `n`, without leading zeros.
pub open spec fn decimal(n: nat) -> Seq<char>
    decreases n,
{
    if n < 10 {
        seq![digit(n)]
    } else {
        decimal(n / 10).push(digit(n % 10))
    }
}

/// The escape sequence that switches the terminal to bright green.
pub open spec fn highlight_on() -> Seq<char> {
    seq!['\x1b', '[', '9', '2', 'm']
}

/// The escape sequence that switches the terminal's colours back.
pub open spec fn highlight_off() -> Seq<char> {
    seq!['\x1b', '[', '0', 'm']
}

/// `text` between the two escape sequences.
pub open spec fn highlighted(text: Seq<char>) -> Seq<char> {
    highlight_on() + text + highlight_off()
}

/// The line that reports an open port. `shown_port` is the port's numeral as
/// it is shown, plain or highlighted.
pub open spec fn open_line(shown_port: Seq<char>, banner: Option<Seq<char>>) -> Seq<char> {
    match banner {
        None => "Port "@ + shown_port + " is open\n"@,
        Some(text) => "Port "@ + shown_port + " is open, banner:\n\n\r"@ + text + "\n"@,
    }
}

/// The caption shown while `port` is probed.
pub open spec fn spec_progress_title(port: u16) -> Seq<char> {
    "Probing port "@ + decimal(port as nat)
}

/// The terminal control sequence that sets the window title to `title`.
pub open spec fn spec_title_sequence(title: Seq<char>) -> Seq<char> {
    "\x1b]2;"@ + title + "\x07"@
}

/// A numeral holds decimal digits only, and so no escape character.
pub proof fn lemma_decimal_is_digits(n: nat)
    ensures
        decimal(n).len() >= 1,
        forall|i: int|
            0 <= i < decimal(n).len() ==> '0' <= #[trigger] decimal(n)[i] <= '9',
    decreases n,
{
    if n >= 10 {
        lemma_decimal_is_digits(n / 10);
    }
}

/// Calls `to_string` on a `u16`. Believed of it: it returns the number's
/// decimal numeral without leading zeros.
#[verifier::external_body]
fn numeral(n: u16) -> (text: String)
    ensures
        text@ == decimal(n as nat),
{
    n.to_string()
}

/// Calls `Colorize::bright_green` of the crate colored on `text` and renders
/// the coloured string with its `Display`. Believed of it, for text without
/// an escape character: where colouring is off (the crate decides that from
/// the environment, the terminal and a process-wide switch) the text comes
/// back as it is; where it is on, the text comes back between the bright
/// green escape sequence and the reset sequence. The crate reads the switch
/// once before it writes anything and once more for the leading sequence:
/// where another thread turns colouring off in between, the text comes back
/// followed by the reset sequence alone.
#[verifier::external_body]
fn highlight(text: &str) -> (shown: String)
    requires
        forall|i: int| 0 <= i < text@.len() ==> text@[i] != '\x1b',
    ensures
        shown@ == text@ || shown@ == highlighted(text@) || shown@ == text@ + highlight_off(),
{
    text.bright_green().to_string()
}

/// The line that reports an open port whose numeral is shown as
/// `shown_port`, without a final line break of its own: `Port N is open`,
/// followed, where there is a banner, by the banner.
pub fn report_line(shown_port: &str, banner: Option<&String>) -> (line: String)
    ensures
        line@ == open_line(
            shown_port@,
            match banner {
                Some(text) => Some(text@),
                None => None,
            },
        ),
{
    let mut line = "Port ".to_owned();
    line.append(shown_port);
    match banner {
        None => {
            line.append(" is open\n");
        },
        Some(text) => {
            line.append(" is open, banner:\n\n\r");
            line.append(text.as_str());
            line.append("\n");
        },
    }
    line
}

/// The line that reports `result`, as `report_line` builds it. Closed ports
/// are not reported: they give no line. The port's numeral is plain where
/// colouring is off and highlighted where it is on; where colouring is
/// turned off while the line is made, the numeral may be followed by the
/// reset sequence alone.
pub fn render(result: &PortResult) -> (line: Option<String>)
    ensures
        match line {
            None => result.spec_status() == PortStatus::Closed,
            Some(text) => {
                &&& result.spec_status() == PortStatus::Open
                &&& (text@ == open_line(decimal(result.spec_port() as nat), result.spec_banner())
                    || text@ == open_line(
                    highlighted(decimal(result.spec_port() as nat)),
                    result.spec_banner(),
                ) || text@ == open_line(
                    decimal(result.spec_port() as nat) + highlight_off(),
                    result.spec_banner(),
                ))
            },
        },
{
    if !result.is_open() {
        return None;
    }
    let plain = numeral(result.port());
    proof {
        lemma_decimal_is_digits(result.spec_port() as nat);
    }
    let shown = highlight(plain.as_str());
    Some(report_line(shown.as_str(), result.banner()))
}

/// The caption shown while `port` is probed.
pub fn progress_title(port: u16) -> (title: String)
    ensures
        title@ == spec_progress_title(port),
{
    let mut title = "Probing port ".to_owned();
    let shown = numeral(port);
    title.append(shown.as_str());
    title
}

/// The terminal control sequence that sets the window title to `title`.
pub fn title_sequence(title: &str) -> (sequence: String)
    ensures
        sequence@ == spec_title_sequence(title@),
{
    let mut sequence = "\x1b]2;".to_owned();
    sequence.append(title);
    sequence.append("\x07");
    sequence
}

} // verus!
