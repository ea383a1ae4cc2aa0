//! What the operator sees: step headers and outcome blocks, styled with
//! ANSI escape sequences.
use owo_colors::OwoColorize;
use vstd::prelude::*;

use crate::steps::{OutcomeModel, StepOutcome, NO_CHANGES};
use crate::text::{is_blank, is_blank_str};

verus! {

/// The escape sequence `ESC [ code m`.
pub open spec fn sgr(code: Seq<char>) -> Seq<char> {
    seq!['\x1b', '['] + code + seq!['m']
}

/// `s` set in bold.
pub open spec fn bold_of(s: Seq<char>) -> Seq<char> {
    sgr(seq!['1']) + s + sgr(seq!['0'])
}

/// `s` set in italics.
pub open spec fn italic_of(s: Seq<char>) -> Seq<char> {
    sgr(seq!['3']) + s + sgr(seq!['0'])
}

/// `s` in the foreground colour with the given code, then the default colour.
pub open spec fn fg_of(code: Seq<char>, s: Seq<char>) -> Seq<char> {
    sgr(code) + s + sgr(seq!['3', '9'])
}

/// `s` in red.
pub open spec fn red_of(s: Seq<char>) -> Seq<char> {
    fg_of(seq!['3', '1'], s)
}

/// `s` in yellow.
pub open spec fn yellow_of(s: Seq<char>) -> Seq<char> {
    fg_of(seq!['3', '3'], s)
}

/// `s` in bright cyan.
pub open spec fn bright_cyan_of(s: Seq<char>) -> Seq<char> {
    fg_of(seq!['9', '6'], s)
}

/// The decimal digit `d`.
pub open spec fn digit_of(d: nat) -> char
    recommends
        d < 10,
{
    seq!['0', '1', '2', '3', '4', '5', '6', '7', '8', '9'][d as int]
}

/// `n` written in decimal, without leading zeros.
pub open spec fn decimal_of(n: nat) -> Seq<char>
    decreases n,
{
    if n < 10 {
        seq![digit_of(n)]
    } else {
        decimal_of(n / 10).push(digit_of(n % 10))
    }
}

/// Relies on owo_colors' `bold`: its `Display` writes `ESC[1m`, the text, `ESC[0m`.
#[verifier::external_body]
fn bold(s: &str) -> (r: String)
    ensures
        r@ == bold_of(s@),
{
    s.bold().to_string()
}

/// Relies on owo_colors' `italic`: its `Display` writes `ESC[3m`, the text, `ESC[0m`.
#[verifier::external_body]
fn italic(s: &str) -> (r: String)
    ensures
        r@ == italic_of(s@),
{
    s.italic().to_string()
}

/// Relies on owo_colors' `red`: its `Display` writes `ESC[31m`, the text, `ESC[39m`.
#[verifier::external_body]
fn red(s: &str) -> (r: String)
    ensures
        r@ == red_of(s@),
{
    s.red().to_string()
}

/// Relies on owo_colors' `yellow`: its `Display` writes `ESC[33m`, the text, `ESC[39m`.
#[verifier::external_body]
fn yellow(s: &str) -> (r: String)
    ensures
        r@ == yellow_of(s@),
{
    s.yellow().to_string()
}

/// Relies on owo_colors' `bright_cyan`: its `Display` writes `ESC[96m`, the text, `ESC[39m`.
#[verifier::external_body]
fn bright_cyan(s: &str) -> (r: String)
    ensures
        r@ == bright_cyan_of(s@),
{
    s.bright_cyan().to_string()
}

/// Relies on `usize`'s `to_string`: its decimal digits, without leading zeros.
#[verifier::external_body]
fn decimal(n: usize) -> (r: String)
    ensures
        r@ == decimal_of(n as nat),
{
    n.to_string()
}

/// The counter `[index/total]`.
pub open spec fn counter_of(index: nat, total: nat) -> Seq<char> {
    seq!['['] + decimal_of(index) + seq!['/'] + decimal_of(total) + seq![']']
}

/// The header line of a step: the counter in bold bright cyan, a space,
/// and the label in bold.
pub open spec fn header_of(index: nat, total: nat, label: Seq<char>) -> Seq<char> {
    bold_of(bright_cyan_of(counter_of(index, total))) + seq![' '] + bold_of(label)
}

/// The line that stands for "No changes.": indented, yellow, in italics.
pub open spec fn no_changes_line_of() -> Seq<char> {
    seq![' ', ' ', ' ', ' '] + italic_of(yellow_of(NO_CHANGES@))
}

/// What an outcome prints on standard output and on standard error; a
/// stream with nothing to print gets `None`.
pub open spec fn rendering_of(o: OutcomeModel) -> (Option<Seq<char>>, Option<Seq<char>>) {
    match o {
        OutcomeModel::NoChanges => (Some(no_changes_line_of()), None),
        OutcomeModel::Changes { stdout, stderr } => (
            if is_blank(stdout) {
                None
            } else {
                Some(stdout)
            },
            if is_blank(stderr) {
                None
            } else {
                Some(red_of(stderr))
            },
        ),
    }
}

/// The text that an optional string holds.
pub open spec fn opt_view(o: Option<String>) -> Option<Seq<char>> {
    match o {
        Some(s) => Some(s@),
        None => None,
    }
}

/// The header line of the step at position `index` out of `total`.
pub fn step_header(index: usize, total: usize, label: &str) -> (r: String)
    ensures
        r@ == header_of(index as nat, total as nat, label@),
{
    let mut counter = String::from_str("[");
    counter.append(decimal(index).as_str());
    counter.append("/");
    counter.append(decimal(total).as_str());
    counter.append("]");
    proof {
        reveal_strlit("[");
        reveal_strlit("/");
        reveal_strlit("]");
    }
    let mut line = bold(bright_cyan(counter.as_str()).as_str());
    line.append(" ");
    proof {
        reveal_strlit(" ");
    }
    line.append(bold(label).as_str());
    assert(counter@ =~= counter_of(index as nat, total as nat));
    assert(line@ =~= header_of(index as nat, total as nat, label@));
    line
}

/// The line that stands for "No changes.".
pub fn no_changes_line() -> (r: String)
    ensures
        r@ == no_changes_line_of(),
{
    let mut line = String::from_str("    ");
    proof {
        reveal_strlit("    ");
    }
    line.append(italic(yellow(NO_CHANGES).as_str()).as_str());
    assert(line@ =~= no_changes_line_of());
    line
}

/// What `o` prints on standard output and on standard error: "No changes."
/// on standard output, or each block that is not blank, the standard
/// error one in red.
pub fn render(o: &StepOutcome) -> (r: (Option<String>, Option<String>))
    ensures
        opt_view(r.0) == rendering_of(o@).0,
        opt_view(r.1) == rendering_of(o@).1,
{
    match o {
        StepOutcome::NoChanges => (Some(no_changes_line()), None),
        StepOutcome::Changes { stdout, stderr } => {
            let out = if is_blank_str(stdout.as_str()) {
                None
            } else {
                Some(String::from_str(stdout.as_str()))
            };
            let err = if is_blank_str(stderr.as_str()) {
                None
            } else {
                Some(red(stderr.as_str()))
            };
            (out, err)
        },
    }
}

} // verus!
