//! Terminal styling of log text through the `colored` crate. Whether the
//! styling escape codes are emitted depends on the environment (a terminal,
//! the color override), so each wrapper promises only what holds of every
//! outcome: text free of escape characters is kept verbatim inside the
//! styled result, because `colored` only wraps its input and rewrites
//! nothing but inner reset sequences.

use colored::Colorize;
use vstd::prelude::*;

use crate::strings::{spec_contains_seq, spec_no_esc};

verus! {

/// Relies on colored's `on_blue` and `bold` and on `ColoredString`'s
/// `Display`.
#[verifier::external_body]
pub fn paint_on_blue_bold(s: &str) -> (r: String)
    ensures
        spec_no_esc(s@) ==> spec_contains_seq(r@, s@),
{
    s.on_blue().bold().to_string()
}

/// Relies on colored's `white` and `italic` and on `ColoredString`'s
/// `Display`.
#[verifier::external_body]
pub fn paint_white_italic(s: &str) -> (r: String)
    ensures
        spec_no_esc(s@) ==> spec_contains_seq(r@, s@),
{
    s.white().italic().to_string()
}

/// Relies on colored's `white`, `on_bright_yellow` and `bold` and on
/// `ColoredString`'s `Display`.
#[verifier::external_body]
pub fn paint_white_on_bright_yellow_bold(s: &str) -> (r: String)
    ensures
        spec_no_esc(s@) ==> spec_contains_seq(r@, s@),
{
    s.white().on_bright_yellow().bold().to_string()
}

/// Relies on colored's `yellow` and `bold` and on `ColoredString`'s
/// `Display`.
#[verifier::external_body]
pub fn paint_yellow_bold(s: &str) -> (r: String)
    ensures
        spec_no_esc(s@) ==> spec_contains_seq(r@, s@),
{
    s.yellow().bold().to_string()
}

/// Relies on colored's `on_green` and `bold` and on `ColoredString`'s
/// `Display`.
#[verifier::external_body]
pub fn paint_on_green_bold(s: &str) -> (r: String)
    ensures
        spec_no_esc(s@) ==> spec_contains_seq(r@, s@),
{
    s.on_green().bold().to_string()
}

/// Relies on colored's `underline` and `bright_green` and on
/// `ColoredString`'s `Display`.
#[verifier::external_body]
pub fn paint_underline_bright_green(s: &str) -> (r: String)
    ensures
        spec_no_esc(s@) ==> spec_contains_seq(r@, s@),
{
    s.underline().bright_green().to_string()
}

/// Relies on colored's `on_red`, `white` and `bold` and on `ColoredString`'s
/// `Display`.
#[verifier::external_body]
pub fn paint_on_red_white_bold(s: &str) -> (r: String)
    ensures
        spec_no_esc(s@) ==> spec_contains_seq(r@, s@),
{
    s.on_red().white().bold().to_string()
}

/// Relies on colored's `yellow`, `bold` and `underline` and on
/// `ColoredString`'s `Display`.
#[verifier::external_body]
pub fn paint_yellow_bold_underline(s: &str) -> (r: String)
    ensures
        spec_no_esc(s@) ==> spec_contains_seq(r@, s@),
{
    s.yellow().bold().underline().to_string()
}

/// Relies on colored's `white`, `on_blue` and `bold` and on
/// `ColoredString`'s `Display`.
#[verifier::external_body]
pub fn paint_white_on_blue_bold(s: &str) -> (r: String)
    ensures
        spec_no_esc(s@) ==> spec_contains_seq(r@, s@),
{
    s.white().on_blue().bold().to_string()
}

/// Relies on colored's `white` and `bold` and on `ColoredString`'s
/// `Display`.
#[verifier::external_body]
pub fn paint_white_bold(s: &str) -> (r: String)
    ensures
        spec_no_esc(s@) ==> spec_contains_seq(r@, s@),
{
    s.white().bold().to_string()
}

/// Relies on colored's `bright_black` and on `ColoredString`'s `Display`.
#[verifier::external_body]
pub fn paint_bright_black(s: &str) -> (r: String)
    ensures
        spec_no_esc(s@) ==> spec_contains_seq(r@, s@),
{
    s.bright_black().to_string()
}

/// Relies on colored's `white` and on `ColoredString`'s `Display`.
#[verifier::external_body]
pub fn paint_white(s: &str) -> (r: String)
    ensures
        spec_no_esc(s@) ==> spec_contains_seq(r@, s@),
{
    s.white().to_string()
}

} // verus!
