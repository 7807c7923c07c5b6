use vstd::prelude::*;
use colored::Colorize;

verus! {

/// The escape sequence that ends every painted text: `ESC [ 0 m`.
pub open spec fn ansi_reset() -> Seq<char> {
    seq!['\x1b', '[', '0', 'm']
}

/// The escape sequence that starts text in the colour numbered `code`.
pub open spec fn ansi_style(code: Seq<char>) -> Seq<char> {
    seq!['\x1b', '['] + code + seq!['m']
}

/// `s` with `style` written again after each reset sequence inside it, so
/// that nested painted text keeps the outer colour.
pub open spec fn restyle_after_resets(s: Seq<char>, style: Seq<char>) -> Seq<char>
    decreases s.len(),
{
    if s.len() == 0 {
        s
    } else if s.len() >= 4 && s.take(4) == ansi_reset() {
        ansi_reset() + style + restyle_after_resets(s.skip(4), style)
    } else {
        seq![s[0]] + restyle_after_resets(s.skip(1), style)
    }
}

/// `s` painted in the colour numbered `code` on a terminal.
pub open spec fn painted(s: Seq<char>, code: Seq<char>) -> Seq<char> {
    ansi_style(code) + restyle_after_resets(s, ansi_style(code)) + ansi_reset()
}

/// Whether `t` is what painting `s` in colour `code` can give: the text as it
/// is when colours are off, or painted when they are on.
pub open spec fn is_painting(t: Seq<char>, s: Seq<char>, code: Seq<char>) -> bool {
    t == s || t == painted(s, code)
}

pub open spec fn red_code() -> Seq<char> {
    seq!['3', '1']
}

pub open spec fn yellow_code() -> Seq<char> {
    seq!['3', '3']
}

pub open spec fn blue_code() -> Seq<char> {
    seq!['3', '4']
}

/// `s` in red, as `colored`'s `Colorize::red` formats it.
///
/// Whether `colored` paints at all is read once per process from the
/// environment (`CLICOLOR_FORCE`, `NO_COLOR`, `CLICOLOR`) and from whether
/// standard output is a terminal; so the contract claims only that the result
/// is one of the two texts its `Display` writes: `s` unchanged, or
/// `ESC[31m`, `s` with the style repeated after each inner reset, `ESC[0m`.
#[verifier::external_body]
pub(crate) fn paint_red(s: &str) -> (r: String)
    ensures
        is_painting(r@, s@, red_code()),
{
    format!("{}", s.red())
}

/// `s` in yellow, as `colored`'s `Colorize::yellow` formats it; the contract
/// claims what `paint_red` claims, with colour number 33.
#[verifier::external_body]
pub(crate) fn paint_yellow(s: &str) -> (r: String)
    ensures
        is_painting(r@, s@, yellow_code()),
{
    format!("{}", s.yellow())
}

/// `s` in blue, as `colored`'s `Colorize::blue` formats it; the contract
/// claims what `paint_red` claims, with colour number 34.
#[verifier::external_body]
pub(crate) fn paint_blue(s: &str) -> (r: String)
    ensures
        is_painting(r@, s@, blue_code()),
{
    format!("{}", s.blue())
}

} // verus!
