//! Loose text helpers: a second padding trait that also offers the
//! single-space shorthand, and the rendering of an explained reason.

use vstd::prelude::*;

use crate::strings::{repeat_str, spec_contains_seq, spec_no_esc, spec_repeat};
use crate::style::{paint_bright_black, paint_white, paint_white_bold, paint_white_on_blue_bold};
use crate::text_padding::spec_pad1;

verus! {

/// The rendered explanation: some info tag and the styled reason on one
/// line, then the styled explanation between two separator lines. The
/// styled pieces keep their text verbatim wherever it is free of escape
/// characters.
pub open spec fn spec_explained(reason: Seq<char>, explanation: Seq<char>, r: Seq<char>) -> bool {
    exists|tag: Seq<char>, why: Seq<char>, sep_a: Seq<char>, what: Seq<char>, sep_b: Seq<char>|
        #![auto]
        {
            &&& r == tag + " "@ + why + "\n"@ + sep_a + "\n"@ + what + "\n"@ + sep_b
            &&& (spec_no_esc(reason) ==> spec_contains_seq(why, reason))
            &&& (spec_no_esc(explanation) ==> spec_contains_seq(what, explanation))
        }
}

/// Renders a reason with its longer explanation, an info tag in front and a
/// separator line around the explanation.
pub fn explain_something(reason: &str, explanation: &str) -> (r: String)
    ensures
        spec_explained(reason@, explanation@, r@),
{
    let tag = paint_white_on_blue_bold("* Info *".p().as_str());
    let why = paint_white_bold(reason);
    let sep_a = paint_bright_black(repeat_str("\u{2058}", 30).as_str());
    let what = paint_white(explanation);
    let sep_b = paint_bright_black(repeat_str("\u{2058}", 30).as_str());
    let ghost tag0 = tag@;
    let mut r = tag;
    r.append(" ");
    r.append(why.as_str());
    r.append("\n");
    r.append(sep_a.as_str());
    r.append("\n");
    r.append(what.as_str());
    r.append("\n");
    r.append(sep_b.as_str());
    proof {
        assert(r@ =~= tag0 + " "@ + why@ + "\n"@ + sep_a@ + "\n"@ + what@ + "\n"@ + sep_b@);
    }
    r
}

/// Pads a piece of text with a repeated padding string, with a shorthand
/// for the single-space padding the log styling uses.
pub trait TextPadding {
    /// The characters of the text being padded.
    spec fn text(&self) -> Seq<char>;

    /// The text with `p` repeated `c` times in front.
    fn pad_left(&self, p: &str, c: usize) -> (r: String)
        ensures
            r@ == spec_repeat(p@, c as nat) + self.text(),
    ;

    /// The text with `p` repeated `c` times behind.
    fn pad_right(&self, p: &str, c: usize) -> (r: String)
        ensures
            r@ == self.text() + spec_repeat(p@, c as nat),
    ;

    /// The text with `p` repeated `c` times on each side.
    fn pad(&self, p: &str, c: usize) -> (r: String)
        ensures
            r@ == spec_repeat(p@, c as nat) + self.text() + spec_repeat(p@, c as nat),
    ;

    /// The text with a single space on each side.
    fn p(&self) -> (r: String)
        ensures
            r@ == spec_pad1(self.text()),
    ;
}

impl TextPadding for &str {
    open spec fn text(&self) -> Seq<char> {
        self@
    }

    fn pad_left(&self, p: &str, c: usize) -> (r: String) {
        let mut r = repeat_str(p, c);
        r.append(self);
        r
    }

    fn pad_right(&self, p: &str, c: usize) -> (r: String) {
        let pad = repeat_str(p, c);
        let mut r = (*self).to_owned();
        r.append(pad.as_str());
        r
    }

    fn pad(&self, p: &str, c: usize) -> (r: String) {
        let pad = repeat_str(p, c);
        let mut r = repeat_str(p, c);
        r.append(self);
        r.append(pad.as_str());
        r
    }

    fn p(&self) -> (r: String) {
        let mut r = String::from_str(" ");
        r.append(self);
        r.append(" ");
        proof {
            reveal_strlit(" ");
            assert(" "@ =~= seq![' ']);
            assert(" "@ + self@ + " "@ =~= spec_pad1(self@));
        }
        r
    }
}

impl TextPadding for String {
    open spec fn text(&self) -> Seq<char> {
        self@
    }

    fn pad_left(&self, p: &str, c: usize) -> (r: String) {
        let mut r = repeat_str(p, c);
        r.append(self.as_str());
        r
    }

    fn pad_right(&self, p: &str, c: usize) -> (r: String) {
        let pad = repeat_str(p, c);
        let mut r = self.clone();
        r.append(pad.as_str());
        r
    }

    fn pad(&self, p: &str, c: usize) -> (r: String) {
        let pad = repeat_str(p, c);
        let mut r = repeat_str(p, c);
        r.append(self.as_str());
        r.append(pad.as_str());
        r
    }

    fn p(&self) -> (r: String) {
        let mut r = String::from_str(" ");
        r.append(self.as_str());
        r.append(" ");
        proof {
            reveal_strlit(" ");
            assert(" "@ =~= seq![' ']);
            assert(" "@ + self@ + " "@ =~= spec_pad1(self@));
        }
        r
    }
}

} // verus!
