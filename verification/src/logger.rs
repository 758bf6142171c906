//! A small logger: a log is a pair of a tittle and a message which, after a
//! log type is applied (statement, warn, success, fail), is built into the
//! final line, ready to be printed.

use std::io::Write;
use vstd::prelude::*;

use crate::strings::{
    i32_to_string, replace_all, spec_contains_seq, spec_no_esc, spec_replace_all,
};
use crate::style::{
    paint_on_blue_bold, paint_on_green_bold, paint_on_red_white_bold, paint_underline_bright_green,
    paint_white_italic, paint_white_on_bright_yellow_bold, paint_yellow_bold,
    paint_yellow_bold_underline,
};
use crate::text_padding::{lemma_pad_single_space, spec_pad1, TextPadding};

verus! {

/// The pattern that marks slot `k` in a log template.
pub open spec fn spec_marker(k: int) -> Seq<char> {
    "#$"@ + crate::strings::spec_int_str(k) + "#"@
}

/// The template with each pair's marker replaced by its value, pair by pair
/// in order.
pub open spec fn spec_template_fold(templ: Seq<char>, pairs: Seq<(i32, Seq<char>)>) -> Seq<char>
    decreases pairs.len(),
{
    if pairs.len() == 0 {
        templ
    } else {
        spec_template_fold(
            spec_replace_all(templ, spec_marker(pairs[0].0 as int), pairs[0].1),
            pairs.drop_first(),
        )
    }
}

/// The log line built from a styled tittle and a styled message: the two
/// styled pieces put into the log template, each keeping its space-padded
/// text verbatim where that text is free of escape characters.
pub open spec fn spec_styled_log(tittle: Seq<char>, message: Seq<char>, log: Seq<char>) -> bool {
    exists|t: Seq<char>, m: Seq<char>|
        #![auto]
        {
            &&& log == spec_template_fold("#$1# #$2#"@, seq![(1i32, t), (2i32, m)])
            &&& (spec_no_esc(spec_pad1(tittle)) ==> spec_contains_seq(t, spec_pad1(tittle)))
            &&& (spec_no_esc(spec_pad1(message)) ==> spec_contains_seq(m, spec_pad1(message)))
        }
}

/// A log is represented to the user as a pair made of a tittle and a
/// message; after a log type (statement, warn, success, fail) is applied,
/// the pair is built into the final log line, ready to be printed.
#[derive(Debug, PartialEq, Hash)]
pub struct InfoLogger {
    pub tittle: &'static str,
    pub message: &'static str,
    pub log: String,
}

impl Clone for InfoLogger {
    fn clone(&self) -> (r: Self)
        ensures
            r == *self,
    {
        InfoLogger { tittle: self.tittle, message: self.message, log: self.log.clone() }
    }
}

impl InfoLogger {
    /// A logger with an empty tittle, message and log.
    pub fn new_default() -> (r: Self)
        ensures
            r.tittle@ == Seq::<char>::empty(),
            r.message@ == Seq::<char>::empty(),
            r.log@ == Seq::<char>::empty(),
    {
        proof {
            reveal_strlit("");
            assert(""@ =~= Seq::<char>::empty());
        }
        Self { tittle: "", message: "", log: String::new() }
    }

    /// A logger holding this tittle and message, with no log built yet.
    pub fn new(tittle: &'static str, message: &'static str) -> (r: Self)
        ensures
            r.tittle == tittle,
            r.message == message,
            r.log@ == Seq::<char>::empty(),
    {
        Self { tittle, message, log: String::new() }
    }

    /// Replaces each `#$<index>#` marker in the template with the value the
    /// pair with that index carries, pair by pair in order.
    pub fn template_replace(templ: &str, pairs: Vec<(i32, String)>) -> (r: String)
        ensures
            r@ == spec_template_fold(
                templ@,
                pairs@.map_values(|p: (i32, String)| (p.0, p.1@)),
            ),
    {
        let ghost gpairs = pairs@.map_values(|p: (i32, String)| (p.0, p.1@));
        let mut builder = templ.to_owned();
        let mut idx: usize = 0;
        proof {
            assert(gpairs.skip(0) =~= gpairs);
        }
        while idx < pairs.len()
            invariant
                idx <= pairs@.len(),
                gpairs == pairs@.map_values(|p: (i32, String)| (p.0, p.1@)),
                spec_template_fold(templ@, gpairs) == spec_template_fold(
                    builder@,
                    gpairs.skip(idx as int),
                ),
            decreases pairs@.len() - idx,
        {
            let k = pairs[idx].0;
            let mut marker = String::from_str("#$");
            let num = i32_to_string(k);
            marker.append(num.as_str());
            marker.append("#");
            proof {
                reveal_strlit("#$");
                assert(marker@ =~= spec_marker(k as int));
                assert(gpairs.skip(idx as int)[0] == gpairs[idx as int]);
                assert(gpairs.skip(idx as int).drop_first() =~= gpairs.skip(idx + 1));
            }
            let replaced = replace_all(builder.as_str(), marker.as_str(), pairs[idx].1.as_str());
            builder = replaced;
            idx += 1;
        }
        proof {
            assert(gpairs.skip(gpairs.len() as int) =~= Seq::<(i32, Seq<char>)>::empty());
        }
        builder
    }

    /// Restates the tittle and message used for each log message; the built
    /// log stays as it was.
    pub fn restate_log(&mut self, tittle: &'static str, message: &'static str) -> (r:
        &mut InfoLogger)
        ensures
            (*r).tittle == tittle,
            (*r).message == message,
            (*r).log == old(self).log,
            *final(self) == *final(r),
    {
        self.message = message;
        self.tittle = tittle;
        self
    }

    /// Builds a plain statement log from the tittle and message.
    pub fn statement(&mut self) -> (r: &mut InfoLogger)
        ensures
            (*r).tittle == old(self).tittle,
            (*r).message == old(self).message,
            spec_styled_log(old(self).tittle@, old(self).message@, (*r).log@),
            *final(self) == *final(r),
    {
        let t = paint_on_blue_bold(self.tittle.pad(" ", 1).as_str());
        let m = paint_white_italic(self.message.pad(" ", 1).as_str());
        proof {
            lemma_pad_single_space(self.tittle@);
            lemma_pad_single_space(self.message@);
        }
        self.set_styled_log(t, m);
        self
    }

    /// Builds a warning log from the tittle and message.
    pub fn warn(&mut self) -> (r: &mut InfoLogger)
        ensures
            (*r).tittle == old(self).tittle,
            (*r).message == old(self).message,
            spec_styled_log(old(self).tittle@, old(self).message@, (*r).log@),
            *final(self) == *final(r),
    {
        let t = paint_white_on_bright_yellow_bold(self.tittle.pad(" ", 1).as_str());
        let m = paint_yellow_bold(self.message.pad(" ", 1).as_str());
        proof {
            lemma_pad_single_space(self.tittle@);
            lemma_pad_single_space(self.message@);
        }
        self.set_styled_log(t, m);
        self
    }

    /// Builds a success log from the tittle and message.
    pub fn success(&mut self) -> (r: &mut InfoLogger)
        ensures
            (*r).tittle == old(self).tittle,
            (*r).message == old(self).message,
            spec_styled_log(old(self).tittle@, old(self).message@, (*r).log@),
            *final(self) == *final(r),
    {
        let t = paint_on_green_bold(self.tittle.pad(" ", 1).as_str());
        let m = paint_underline_bright_green(self.message.pad(" ", 1).as_str());
        proof {
            lemma_pad_single_space(self.tittle@);
            lemma_pad_single_space(self.message@);
        }
        self.set_styled_log(t, m);
        self
    }

    /// Builds a failure log from the tittle and message.
    pub fn fail(&mut self) -> (r: &mut InfoLogger)
        ensures
            (*r).tittle == old(self).tittle,
            (*r).message == old(self).message,
            spec_styled_log(old(self).tittle@, old(self).message@, (*r).log@),
            *final(self) == *final(r),
    {
        let t = paint_on_red_white_bold(self.tittle.pad(" ", 1).as_str());
        let m = paint_yellow_bold_underline(self.message.pad(" ", 1).as_str());
        proof {
            lemma_pad_single_space(self.tittle@);
            lemma_pad_single_space(self.message@);
        }
        self.set_styled_log(t, m);
        self
    }

    /// Puts the two styled pieces into the log template and stores the
    /// result as the built log.
    fn set_styled_log(&mut self, t: String, m: String)
        requires
            spec_no_esc(spec_pad1(old(self).tittle@)) ==> spec_contains_seq(
                t@,
                spec_pad1(old(self).tittle@),
            ),
            spec_no_esc(spec_pad1(old(self).message@)) ==> spec_contains_seq(
                m@,
                spec_pad1(old(self).message@),
            ),
        ensures
            final(self).tittle == old(self).tittle,
            final(self).message == old(self).message,
            spec_styled_log(old(self).tittle@, old(self).message@, final(self).log@),
    {
        let ghost gt = t@;
        let ghost gm = m@;
        let mut pairs: Vec<(i32, String)> = Vec::new();
        pairs.push((1, t));
        pairs.push((2, m));
        let ghost gpairs = pairs@;
        self.log = InfoLogger::template_replace("#$1# #$2#", pairs);
        proof {
            assert(gpairs.map_values(|p: (i32, String)| (p.0, p.1@)) =~= seq![
                (1i32, gt),
                (2i32, gm),
            ]);
            assert(self.log@ == spec_template_fold("#$1# #$2#"@, seq![(1i32, gt), (2i32, gm)]));
        }
    }

    /// Relies on std's `writeln` to standard output: prints the built log
    /// line, leaving the logger as it was.
    #[verifier::external_body]
    pub fn log(&mut self)
        ensures
            *final(self) == *old(self),
    {
        let _ = writeln!(std::io::stdout(), "{}", self.log);
    }

    /// Clones the log's contents and returns that cloned `String`.
    pub fn clone_log(&self) -> (r: String)
        ensures
            r == self.log,
    {
        self.log.clone()
    }
}

impl Default for InfoLogger {
    /// The default logger is the empty one.
    fn default() -> (r: Self)
        ensures
            r.tittle@ == Seq::<char>::empty(),
            r.message@ == Seq::<char>::empty(),
            r.log@ == Seq::<char>::empty(),
    {
        InfoLogger::new_default()
    }
}

} // verus!
