//! The text-case transform command: its modes, their meaning, and the
//! argument handling around them.

use vstd::prelude::*;

use crate::command::{ActionResult, BotCommandError};
use crate::text::{
    eq_ignore_ascii_case, join_spaces, spec_eq_ignore_ascii_case, spec_join_spaces,
};

verus! {

/// The uppercase mapping of one character; what it holds is determined by the
/// character alone.
pub uninterp spec fn spec_char_upper(c: char) -> Seq<char>;

/// The lowercase mapping of one character; what it holds is determined by the
/// character alone.
pub uninterp spec fn spec_char_lower(c: char) -> Seq<char>;

/// Whether one character is uppercase; determined by the character alone.
pub uninterp spec fn spec_char_is_upper(c: char) -> bool;

/// Whether one character is lowercase; determined by the character alone.
pub uninterp spec fn spec_char_is_lower(c: char) -> bool;

/// The uppercase mapping of a whole string; determined by its characters.
pub uninterp spec fn spec_str_upper(s: Seq<char>) -> Seq<char>;

/// The lowercase mapping of a whole string; determined by its characters.
pub uninterp spec fn spec_str_lower(s: Seq<char>) -> Seq<char>;

/// Relies on char::to_uppercase, rendered through its display form: the
/// uppercase mapping of one character, which depends on the character alone.
#[verifier::external_body]
fn char_upper(c: char) -> (r: String)
    ensures
        r@ == spec_char_upper(c),
{
    c.to_uppercase().to_string()
}

/// Relies on char::to_lowercase, rendered through its display form: the
/// lowercase mapping of one character, which depends on the character alone.
#[verifier::external_body]
fn char_lower(c: char) -> (r: String)
    ensures
        r@ == spec_char_lower(c),
{
    c.to_lowercase().to_string()
}

/// Relies on char::is_uppercase: whether the character is Unicode uppercase.
#[verifier::external_body]
fn char_is_upper(c: char) -> (r: bool)
    ensures
        r == spec_char_is_upper(c),
{
    c.is_uppercase()
}

/// Relies on char::is_lowercase: whether the character is Unicode lowercase.
#[verifier::external_body]
fn char_is_lower(c: char) -> (r: bool)
    ensures
        r == spec_char_is_lower(c),
{
    c.is_lowercase()
}

/// Relies on str::to_uppercase: the uppercase mapping of the whole string,
/// which depends on its characters alone.
#[verifier::external_body]
fn str_upper(s: &str) -> (r: String)
    ensures
        r@ == spec_str_upper(s@),
{
    s.to_uppercase()
}

/// Relies on str::to_lowercase: the lowercase mapping of the whole string,
/// which depends on its characters alone.
#[verifier::external_body]
fn str_lower(s: &str) -> (r: String)
    ensures
        r@ == spec_str_lower(s@),
{
    s.to_lowercase()
}

/// Relies on char::to_string: the one-character string holding exactly `c`.
#[verifier::external_body]
fn char_single(c: char) -> (r: String)
    ensures
        r@ == seq![c],
{
    c.to_string()
}

/// Relies on rand::random: a uniformly distributed boolean. Nothing is
/// promised of the value.
#[verifier::external_body]
fn coin_flip() -> bool {
    rand::random::<bool>()
}

/// One of the five ways the command can rewrite a text's case.
#[derive(Copy, Clone, Debug, PartialEq, Eq, Structural)]
pub enum CaseMode {
    Upcase,
    Downcase,
    Invert,
    Randomize,
    Alternate,
}

/// The case-inverted form of `s`: uppercase characters become lowercase,
/// lowercase become uppercase, anything else stays.
pub open spec fn spec_invert(s: Seq<char>) -> Seq<char>
    decreases s.len(),
{
    if s.len() == 0 {
        Seq::empty()
    } else {
        let piece = if spec_char_is_upper(s[0]) {
            spec_char_lower(s[0])
        } else if spec_char_is_lower(s[0]) {
            spec_char_upper(s[0])
        } else {
            seq![s[0]]
        };
        piece + spec_invert(s.skip(1))
    }
}

/// The alternating-case form of `s` starting at character position `i`:
/// even positions uppercase, odd positions lowercase.
pub open spec fn spec_alternate(s: Seq<char>, i: int) -> Seq<char>
    decreases s.len(),
{
    if s.len() == 0 {
        Seq::empty()
    } else {
        let piece = if i % 2 == 0 {
            spec_char_upper(s[0])
        } else {
            spec_char_lower(s[0])
        };
        piece + spec_alternate(s.skip(1), i + 1)
    }
}

/// The string built from `s` by mapping each character to its uppercase form
/// where the matching flip is set and to its lowercase form otherwise.
pub open spec fn spec_mixed_join(s: Seq<char>, flips: Seq<bool>) -> Seq<char>
    decreases s.len(),
{
    if s.len() == 0 {
        Seq::empty()
    } else {
        let piece = if flips[0] {
            spec_char_upper(s[0])
        } else {
            spec_char_lower(s[0])
        };
        piece + spec_mixed_join(s.skip(1), flips.skip(1))
    }
}

/// Whether `r` arises from `s` by choosing, independently per character,
/// either its uppercase or its lowercase form.
pub open spec fn spec_mixed_case_of(s: Seq<char>, r: Seq<char>) -> bool {
    exists|flips: Seq<bool>| flips.len() == s.len() && r == spec_mixed_join(s, flips)
}

proof fn lemma_mixed_join_snoc(s: Seq<char>, flips: Seq<bool>, c: char, b: bool)
    requires
        s.len() == flips.len(),
    ensures
        spec_mixed_join(s.push(c), flips.push(b)) == spec_mixed_join(s, flips) + (if b {
            spec_char_upper(c)
        } else {
            spec_char_lower(c)
        }),
    decreases s.len(),
{
    let s2 = s.push(c);
    let f2 = flips.push(b);
    if s.len() == 0 {
        assert(s2[0] == c);
        assert(f2[0] == b);
        assert(s2.skip(1) =~= Seq::<char>::empty());
        let piece = if b {
            spec_char_upper(c)
        } else {
            spec_char_lower(c)
        };
        assert(spec_mixed_join(s2, f2) == piece + spec_mixed_join(s2.skip(1), f2.skip(1)));
        assert(spec_mixed_join(s2.skip(1), f2.skip(1)) =~= Seq::<char>::empty());
        assert(spec_mixed_join(s2, f2) =~= spec_mixed_join(s, flips) + piece);
    } else {
        assert(s2[0] == s[0]);
        assert(f2[0] == flips[0]);
        assert(s2.skip(1) =~= s.skip(1).push(c));
        assert(f2.skip(1) =~= flips.skip(1).push(b));
        lemma_mixed_join_snoc(s.skip(1), flips.skip(1), c, b);
        let head = if flips[0] {
            spec_char_upper(s[0])
        } else {
            spec_char_lower(s[0])
        };
        let tail_piece = if b {
            spec_char_upper(c)
        } else {
            spec_char_lower(c)
        };
        assert(spec_mixed_join(s2, f2) == head + spec_mixed_join(s2.skip(1), f2.skip(1)));
        assert(spec_mixed_join(s2.skip(1), f2.skip(1)) == spec_mixed_join(
            s.skip(1),
            flips.skip(1),
        ) + tail_piece);
        assert(spec_mixed_join(s, flips) == head + spec_mixed_join(s.skip(1), flips.skip(1)));
        assert(spec_mixed_join(s2, f2) =~= spec_mixed_join(s, flips) + tail_piece);
    }
}

impl CaseMode {
    /// The mode named by `s`, matched case-insensitively against each mode's
    /// single-letter and full-word names.
    pub open spec fn spec_parse(s: Seq<char>) -> Option<CaseMode> {
        if spec_eq_ignore_ascii_case(s, "u"@) || spec_eq_ignore_ascii_case(s, "upcase"@) {
            Some(CaseMode::Upcase)
        } else if spec_eq_ignore_ascii_case(s, "d"@) || spec_eq_ignore_ascii_case(s, "downcase"@) {
            Some(CaseMode::Downcase)
        } else if spec_eq_ignore_ascii_case(s, "i"@) || spec_eq_ignore_ascii_case(s, "invert"@) {
            Some(CaseMode::Invert)
        } else if spec_eq_ignore_ascii_case(s, "r"@) || spec_eq_ignore_ascii_case(s, "randomize"@) {
            Some(CaseMode::Randomize)
        } else if spec_eq_ignore_ascii_case(s, "a"@) || spec_eq_ignore_ascii_case(s, "alternate"@) {
            Some(CaseMode::Alternate)
        } else {
            None
        }
    }

    /// Parses a mode name, case-insensitively.
    pub fn parse(s: &str) -> (r: Option<CaseMode>)
        ensures
            r == Self::spec_parse(s@),
    {
        if eq_ignore_ascii_case(s, "u") || eq_ignore_ascii_case(s, "upcase") {
            Some(CaseMode::Upcase)
        } else if eq_ignore_ascii_case(s, "d") || eq_ignore_ascii_case(s, "downcase") {
            Some(CaseMode::Downcase)
        } else if eq_ignore_ascii_case(s, "i") || eq_ignore_ascii_case(s, "invert") {
            Some(CaseMode::Invert)
        } else if eq_ignore_ascii_case(s, "r") || eq_ignore_ascii_case(s, "randomize") {
            Some(CaseMode::Randomize)
        } else if eq_ignore_ascii_case(s, "a") || eq_ignore_ascii_case(s, "alternate") {
            Some(CaseMode::Alternate)
        } else {
            None
        }
    }

    /// Rewrites the case of `text` according to the mode. The randomizing
    /// mode draws one independent coin per character; every outcome maps each
    /// character to its upper or its lower form.
    pub fn transform(&self, text: &str) -> (r: String)
        ensures
            *self == CaseMode::Upcase ==> r@ == spec_str_upper(text@),
            *self == CaseMode::Downcase ==> r@ == spec_str_lower(text@),
            *self == CaseMode::Invert ==> r@ == spec_invert(text@),
            *self == CaseMode::Alternate ==> r@ == spec_alternate(text@, 0),
            *self == CaseMode::Randomize ==> spec_mixed_case_of(text@, r@),
    {
        match self {
            CaseMode::Upcase => str_upper(text),
            CaseMode::Downcase => str_lower(text),
            CaseMode::Invert => {
                let n = text.unicode_len();
                let mut out = String::new();
                let mut i: usize = 0;
                proof {
                    assert(text@.skip(0) =~= text@);
                    assert(out@ + spec_invert(text@) =~= spec_invert(text@));
                }
                while i < n
                    invariant
                        i <= n,
                        n == text@.len(),
                        spec_invert(text@) == out@ + spec_invert(text@.skip(i as int)),
                    decreases n - i,
                {
                    let c = text.get_char(i);
                    proof {
                        let rest = text@.skip(i as int);
                        assert(rest[0] == text@[i as int]);
                        assert(rest.skip(1) =~= text@.skip(i + 1));
                    }
                    let piece = if char_is_upper(c) {
                        char_lower(c)
                    } else if char_is_lower(c) {
                        char_upper(c)
                    } else {
                        char_single(c)
                    };
                    out.append(piece.as_str());
                    proof {
                        assert(spec_invert(text@) =~= out@ + spec_invert(text@.skip(i + 1)));
                    }
                    i += 1;
                }
                proof {
                    assert(text@.skip(n as int) =~= Seq::<char>::empty());
                    assert(out@ =~= spec_invert(text@));
                }
                out
            },
            CaseMode::Alternate => {
                let n = text.unicode_len();
                let mut out = String::new();
                let mut i: usize = 0;
                proof {
                    assert(text@.skip(0) =~= text@);
                    assert(out@ + spec_alternate(text@, 0) =~= spec_alternate(text@, 0));
                }
                while i < n
                    invariant
                        i <= n,
                        n == text@.len(),
                        spec_alternate(text@, 0) == out@ + spec_alternate(
                            text@.skip(i as int),
                            i as int,
                        ),
                    decreases n - i,
                {
                    let c = text.get_char(i);
                    proof {
                        let rest = text@.skip(i as int);
                        assert(rest[0] == text@[i as int]);
                        assert(rest.skip(1) =~= text@.skip(i + 1));
                    }
                    let piece = if i % 2 == 0 {
                        char_upper(c)
                    } else {
                        char_lower(c)
                    };
                    out.append(piece.as_str());
                    proof {
                        assert(spec_alternate(text@, 0) =~= out@ + spec_alternate(
                            text@.skip(i + 1),
                            i + 1,
                        ));
                    }
                    i += 1;
                }
                proof {
                    assert(text@.skip(n as int) =~= Seq::<char>::empty());
                    assert(out@ =~= spec_alternate(text@, 0));
                }
                out
            },
            CaseMode::Randomize => {
                let n = text.unicode_len();
                let mut out = String::new();
                let mut i: usize = 0;
                let ghost mut flips: Seq<bool> = Seq::empty();
                while i < n
                    invariant
                        i <= n,
                        n == text@.len(),
                        flips.len() == i,
                        out@ == spec_mixed_join(text@.take(i as int), flips),
                    decreases n - i,
                {
                    let c = text.get_char(i);
                    let b = coin_flip();
                    let piece = if b {
                        char_upper(c)
                    } else {
                        char_lower(c)
                    };
                    proof {
                        lemma_mixed_join_snoc(text@.take(i as int), flips, c, b);
                        assert(text@.take(i as int).push(c) =~= text@.take(i + 1));
                        flips = flips.push(b);
                    }
                    out.append(piece.as_str());
                    i += 1;
                }
                proof {
                    assert(text@.take(n as int) =~= text@);
                }
                out
            },
        }
    }
}

/// The arguments of the text-case transform command: the mode and the
/// trailing words to transform when the message is not a reply.
pub struct CaseArgs {
    /// How to rewrite the text's case.
    pub mode: CaseMode,
    /// The trailing words, joined with single spaces before transforming.
    pub text: Vec<String>,
}

impl CaseArgs {
    /// The text the transform applies to: the replied-to message's text when
    /// one is given, else the trailing arguments joined with spaces.
    pub open spec fn spec_source_text(self, reply: Option<Seq<char>>) -> Seq<char> {
        match reply {
            Some(t) => t,
            None => spec_join_spaces(self.text.deep_view()),
        }
    }

    /// A replied-to text takes precedence: whenever one is given, it is the
    /// transform's source, whatever trailing arguments the command carried.
    pub proof fn lemma_reply_text_takes_precedence(self, reply: Seq<char>)
        ensures
            self.spec_source_text(Some(reply)) == reply,
    {
    }

    /// Applies the mode to the replied-to text when one is given, else to the
    /// joined trailing arguments, and asks for the triggering message to be
    /// edited to the result.
    pub fn handle(&self, text: Option<&str>) -> (r: Result<ActionResult, BotCommandError>)
        ensures
            r is Ok,
            ({
                let result = r->Ok_0;
                let source = self.spec_source_text(
                    match text {
                        Some(t) => Some(t@),
                        None => None,
                    },
                );
                &&& !result.quit
                &&& result.response is Some
                &&& result.response->Some_0 is Edit
                &&& {
                    let m = result.response->Some_0->Edit_0;
                    &&& m.markdown == false
                    &&& m.dice_emoticon is None
                    &&& m.silent == false
                    &&& m.reply_to is None
                    &&& self.mode == CaseMode::Upcase ==> m.text@ == spec_str_upper(source)
                    &&& self.mode == CaseMode::Downcase ==> m.text@ == spec_str_lower(source)
                    &&& self.mode == CaseMode::Invert ==> m.text@ == spec_invert(source)
                    &&& self.mode == CaseMode::Alternate ==> m.text@ == spec_alternate(source, 0)
                    &&& self.mode == CaseMode::Randomize ==> spec_mixed_case_of(source, m.text@)
                }
            }),
    {
        let source: String = match text {
            Some(s) => String::from_str(s),
            None => join_spaces(&self.text),
        };
        let transformed = self.mode.transform(source.as_str());
        Ok(ActionResult::edit(crate::command::OutMessage::plain(transformed)))
    }
}

} // verus!
