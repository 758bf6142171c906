//! Padding of text with a repeated padding string, on the left, the right or
//! both sides.

use vstd::prelude::*;

use crate::strings::{repeat_str, spec_repeat};

verus! {

/// `s` with a single space on each side, the shape the log styling uses.
pub open spec fn spec_pad1(s: Seq<char>) -> Seq<char> {
    seq![' '] + s + seq![' ']
}

/// Law: padding with one space on each side is the single-space case of the
/// general padding shape.
pub proof fn lemma_pad_single_space(s: Seq<char>)
    ensures
        spec_repeat(" "@, 1) + s + spec_repeat(" "@, 1) == spec_pad1(s),
{
    reveal_strlit(" ");
    assert(spec_repeat(" "@, 0) =~= Seq::empty());
    assert(spec_repeat(" "@, 1) =~= seq![' ']);
    assert(spec_repeat(" "@, 1) + s + spec_repeat(" "@, 1) =~= spec_pad1(s));
}

/// Pads a piece of text with a repeated padding string.
pub trait TextPadding {
    /// The characters of the text being padded.
    spec fn text(&self) -> Seq<char>;

    /// The text with `p` repeated `c` times in front.
    fn pad_left(&self, p: &str, c: usize) -> (r: String)
        ensures
            r@ == spec_repeat(p@, c as nat) + self.text(),
    ;

    /// The text with `p` repeated `c` times behind.
    fn pad_right(&self, p: &str, c: usize) -> (r: String)
        ensures
            r@ == self.text() + spec_repeat(p@, c as nat),
    ;

    /// The text with `p` repeated `c` times on each side.
    fn pad(&self, p: &str, c: usize) -> (r: String)
        ensures
            r@ == spec_repeat(p@, c as nat) + self.text() + spec_repeat(p@, c as nat),
    ;
}

impl TextPadding for &str {
    open spec fn text(&self) -> Seq<char> {
        self@
    }

    fn pad_left(&self, p: &str, c: usize) -> (r: String) {
        let mut r = repeat_str(p, c);
        r.append(self);
        r
    }

    fn pad_right(&self, p: &str, c: usize) -> (r: String) {
        let pad = repeat_str(p, c);
        let mut r = (*self).to_owned();
        r.append(pad.as_str());
        r
    }

    fn pad(&self, p: &str, c: usize) -> (r: String) {
        let pad = repeat_str(p, c);
        let mut r = repeat_str(p, c);
        r.append(self);
        r.append(pad.as_str());
        r
    }
}

impl TextPadding for String {
    open spec fn text(&self) -> Seq<char> {
        self@
    }

    fn pad_left(&self, p: &str, c: usize) -> (r: String) {
        let mut r = repeat_str(p, c);
        r.append(self.as_str());
        r
    }

    fn pad_right(&self, p: &str, c: usize) -> (r: String) {
        let pad = repeat_str(p, c);
        let mut r = self.clone();
        r.append(pad.as_str());
        r
    }

    fn pad(&self, p: &str, c: usize) -> (r: String) {
        let pad = repeat_str(p, c);
        let mut r = repeat_str(p, c);
        r.append(self.as_str());
        r.append(pad.as_str());
        r
    }
}

} // verus!
