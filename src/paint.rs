use owo_colors::OwoColorize;
use vstd::prelude::*;

verus! {

/// An ANSI escape sequence `ESC [ code m`.
pub open spec fn ansi(code: Seq<char>) -> Seq<char> {
    seq!['\x1b', '['] + code + seq!['m']
}

/// `s` in a foreground color, followed by the reset of the foreground color.
pub open spec fn fg(code: Seq<char>, s: Seq<char>) -> Seq<char> {
    ansi(code) + s + ansi(seq!['3', '9'])
}

pub open spec fn blue_of(s: Seq<char>) -> Seq<char> {
    fg(seq!['3', '4'], s)
}

pub open spec fn green_of(s: Seq<char>) -> Seq<char> {
    fg(seq!['3', '2'], s)
}

pub open spec fn yellow_of(s: Seq<char>) -> Seq<char> {
    fg(seq!['3', '3'], s)
}

pub open spec fn red_of(s: Seq<char>) -> Seq<char> {
    fg(seq!['3', '1'], s)
}

/// `s` in bold, followed by the reset of all attributes.
pub open spec fn bold_of(s: Seq<char>) -> Seq<char> {
    ansi(seq!['1']) + s + ansi(seq!['0'])
}

/// Relies on owo_colors' `blue`: writes `ESC[34m`, the text, `ESC[39m`.
#[verifier::external_body]
pub(crate) fn blue(s: &str) -> (r: String)
    ensures
        r@ == blue_of(s@),
{
    s.blue().to_string()
}

/// Relies on owo_colors' `green`: writes `ESC[32m`, the text, `ESC[39m`.
#[verifier::external_body]
pub(crate) fn green(s: &str) -> (r: String)
    ensures
        r@ == green_of(s@),
{
    s.green().to_string()
}

/// Relies on owo_colors' `yellow`: writes `ESC[33m`, the text, `ESC[39m`.
#[verifier::external_body]
pub(crate) fn yellow(s: &str) -> (r: String)
    ensures
        r@ == yellow_of(s@),
{
    s.yellow().to_string()
}

/// Relies on owo_colors' `red`: writes `ESC[31m`, the text, `ESC[39m`.
#[verifier::external_body]
pub(crate) fn red(s: &str) -> (r: String)
    ensures
        r@ == red_of(s@),
{
    s.red().to_string()
}

/// Relies on owo_colors' `bold`: writes `ESC[1m`, the text, `ESC[0m`.
#[verifier::external_body]
pub(crate) fn bold(s: &str) -> (r: String)
    ensures
        r@ == bold_of(s@),
{
    s.bold().to_string()
}

/// The text that readable's `Uptime` gives a number of seconds
/// (such as `1h, 2m, 3s`).
pub uninterp spec fn uptime_text(secs: u64) -> Seq<char>;

/// Relies on `readable::up::Uptime::from(u64)` and its `Display`: the text
/// depends on the number of seconds alone.
#[verifier::external_body]
pub(crate) fn uptime(secs: u64) -> (r: String)
    ensures
        r@ == uptime_text(secs),
{
    readable::up::Uptime::from(secs).to_string()
}

/// The decimal digit `d`.
pub open spec fn digit_of(d: nat) -> char {
    if d == 0 { '0' }
    else if d == 1 { '1' }
    else if d == 2 { '2' }
    else if d == 3 { '3' }
    else if d == 4 { '4' }
    else if d == 5 { '5' }
    else if d == 6 { '6' }
    else if d == 7 { '7' }
    else if d == 8 { '8' }
    else { '9' }
}

/// The decimal notation of `n`, without leading zeros.
pub open spec fn decimal_text(n: nat) -> Seq<char>
    decreases n,
{
    if n < 10 {
        seq![digit_of(n)]
    } else {
        decimal_text(n / 10).push(digit_of(n % 10))
    }
}

/// Relies on std's `Display` for `u64`: plain decimal notation.
#[verifier::external_body]
pub(crate) fn decimal(n: u64) -> (r: String)
    ensures
        r@ == decimal_text(n as nat),
{
    n.to_string()
}

} // verus!
