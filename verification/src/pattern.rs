//! The regular expressions of the library, compiled once.

use regex::Regex;
use vstd::prelude::*;

verus! {

/// What stands for a collapsed path segment: an ellipsis and a space.
pub const ELLIPSIS: &'static str = "… ";

/// Matches the first segment of a path together with the `/` after it.
pub const RE_PACK: &'static str = r"^[^/]+/";

/// Matches the beginning of a verbatim or device path that names a drive,
/// and captures the drive: a letter and a colon.
pub const RE_DRIVE: &'static str = r"^//[?.]/([a-zA-Z]:)/";

/// Matches an argument that gives a capacity: `+` and digits.
pub const RE_CAPA: &'static str = r"^[+]\d+$";

/// Matches an argument that gives a number of workers: `-` and digits.
pub const RE_THREAD: &'static str = r"^[-]\d+$";

/// `regex::Regex`: a compiled regular expression. Nothing of its inside is
/// known here.
#[verifier::external_type_specification]
#[verifier::external_body]
pub struct ExRegex(Regex);

/// `regex::Error`: why a pattern was refused. Nothing of its inside is known
/// here.
#[verifier::external_type_specification]
#[verifier::external_body]
pub struct ExRegexError(regex::Error);

/// The pattern that a regular expression was compiled from: what
/// `regex::Regex::as_str` returns.
pub uninterp spec fn regex_source(re: Regex) -> Seq<char>;

/// Whether a pattern matches anywhere in a text: what
/// `regex::Regex::is_match` returns.
pub uninterp spec fn regex_matches(pattern: Seq<char>, text: Seq<char>) -> bool;

/// How many characters stand before the first `/` of a text: all of them
/// where it has none.
pub open spec fn head_len(text: Seq<char>) -> nat
    decreases text.len(),
{
    if text.len() == 0 || text[0] == '/' {
        0
    } else {
        1 + head_len(text.drop_first())
    }
}

/// The text begins with a segment: one character or more that are not `/`,
/// and then a `/`.
pub open spec fn has_head(text: Seq<char>) -> bool {
    0 < head_len(text) < text.len()
}

/// The text with its first segment, and the `/` after it, replaced.
pub open spec fn head_replaced(text: Seq<char>, with: Seq<char>) -> Seq<char> {
    if has_head(text) {
        with + text.skip(head_len(text) as int + 1)
    } else {
        text
    }
}

/// A letter of the ASCII alphabet.
pub open spec fn is_ascii_letter(c: char) -> bool {
    ('a' as u32 <= c as u32 <= 'z' as u32) || ('A' as u32 <= c as u32 <= 'Z' as u32)
}

/// The text begins with `//?/` or `//./`, then a drive (a letter and a
/// colon), then a `/`.
pub open spec fn has_drive(text: Seq<char>) -> bool {
    &&& text.len() >= 7
    &&& text[0] == '/'
    &&& text[1] == '/'
    &&& (text[2] == '?' || text[2] == '.')
    &&& text[3] == '/'
    &&& is_ascii_letter(text[4])
    &&& text[5] == ':'
    &&& text[6] == '/'
}

/// The drive that a text names, or nothing where it names none.
pub open spec fn drive_of(text: Seq<char>) -> Seq<char> {
    if has_drive(text) {
        text.subrange(4, 6)
    } else {
        Seq::empty()
    }
}

/// A regular expression could not be compiled.
#[derive(Debug)]
pub struct PatternError {
    /// The pattern that was refused.
    pub pattern: String,
}

/// `regex::Regex::new`: compiles a pattern. The compiled expression
/// remembers the pattern it was compiled from.
#[verifier::external_body]
fn regex_new(pattern: &str) -> (compiled: Result<Regex, regex::Error>)
    ensures
        compiled matches Ok(re) ==> regex_source(re) == pattern@,
{
    Regex::new(pattern)
}

/// `regex::Regex::is_match`: whether the expression matches anywhere in the
/// text. The pattern `^[^/]+/` matches exactly the texts that begin with one
/// character or more other than `/`, followed by a `/`.
#[verifier::external_body]
fn regex_is_match(re: &Regex, text: &str) -> (found: bool)
    ensures
        found == regex_matches(regex_source(*re), text@),
        regex_source(*re) == RE_PACK@ ==> found == has_head(text@),
{
    re.is_match(text)
}

/// `regex::Regex::replace`: the text with the first match replaced, or the
/// text itself where nothing matches. A replacement without `$` is taken
/// literally. The match of the pattern `^[^/]+/` is the beginning of the
/// text up to its first `/`, that `/` included.
#[verifier::external_body]
fn regex_replace(re: &Regex, text: &str, with: &str) -> (out: String)
    ensures
        regex_source(*re) == RE_PACK@ && !with@.contains('$') ==> out@ == head_replaced(
            text@,
            with@,
        ),
{
    re.replace(text, with).to_string()
}

/// `regex::Regex::captures`, and of what it returns `Captures::get` and
/// `Match::as_str`: the part of the text that group `i` of the first match
/// took, or `None` where nothing matches or the group took no part. The
/// pattern `^//[?.]/([a-zA-Z]:)/` matches a text that begins with `//`, then
/// `?` or `.`, then `/`, an ASCII letter, `:` and `/`; its group 1 is the
/// letter and the colon.
#[verifier::external_body]
fn regex_capture(re: &Regex, text: &str, i: usize) -> (group: Option<String>)
    ensures
        regex_source(*re) == RE_DRIVE@ && i == 1 ==> match group {
            Some(g) => has_drive(text@) && g@ == text@.subrange(4, 6),
            None => !has_drive(text@),
        },
{
    match re.captures(text) {
        Some(caps) => match caps.get(i) {
            Some(m) => Some(m.as_str().to_string()),
            None => None,
        },
        None => None,
    }
}

/// The compiled regular expressions.
#[derive(Debug)]
pub struct Patterns {
    pack: Regex,
    drive: Regex,
    capa: Regex,
    thread: Regex,
}

impl Patterns {
    #[verifier::type_invariant]
    spec fn compiled(self) -> bool {
        &&& regex_source(self.pack) == RE_PACK@
        &&& regex_source(self.drive) == RE_DRIVE@
        &&& regex_source(self.capa) == RE_CAPA@
        &&& regex_source(self.thread) == RE_THREAD@
    }

    /// Compiles the expressions of the library.
    pub fn new() -> (r: Result<Patterns, PatternError>)
        ensures
            r matches Err(e) ==> e.pattern@ == RE_PACK@ || e.pattern@ == RE_DRIVE@ || e.pattern@
                == RE_CAPA@ || e.pattern@ == RE_THREAD@,
    {
        Patterns::assemble(
            regex_new(RE_PACK),
            regex_new(RE_DRIVE),
            regex_new(RE_CAPA),
            regex_new(RE_THREAD),
        )
    }

    /// Puts compiled expressions together, or names the first pattern that
    /// was refused.
    pub fn assemble(
        pack: Result<Regex, regex::Error>,
        drive: Result<Regex, regex::Error>,
        capa: Result<Regex, regex::Error>,
        thread: Result<Regex, regex::Error>,
    ) -> (r: Result<Patterns, PatternError>)
        requires
            pack matches Ok(re) ==> regex_source(re) == RE_PACK@,
            drive matches Ok(re) ==> regex_source(re) == RE_DRIVE@,
            capa matches Ok(re) ==> regex_source(re) == RE_CAPA@,
            thread matches Ok(re) ==> regex_source(re) == RE_THREAD@,
        ensures
            r is Ok <==> pack is Ok && drive is Ok && capa is Ok && thread is Ok,
            r matches Err(e) ==> e.pattern@ == if pack is Err {
                RE_PACK@
            } else if drive is Err {
                RE_DRIVE@
            } else if capa is Err {
                RE_CAPA@
            } else {
                RE_THREAD@
            },
    {
        match pack {
            Ok(pack) => match drive {
                Ok(drive) => match capa {
                    Ok(capa) => match thread {
                        Ok(thread) => Ok(Patterns { pack, drive, capa, thread }),
                        Err(_) => Err(PatternError { pattern: RE_THREAD.to_owned() }),
                    },
                    Err(_) => Err(PatternError { pattern: RE_CAPA.to_owned() }),
                },
                Err(_) => Err(PatternError { pattern: RE_DRIVE.to_owned() }),
            },
            Err(_) => Err(PatternError { pattern: RE_PACK.to_owned() }),
        }
    }

    /// The drive that a text names, where it names one.
    pub fn drive(&self, text: &str) -> (drive: Option<String>)
        ensures
            drive is Some <==> has_drive(text@),
            drive matches Some(d) ==> d@ == drive_of(text@),
    {
        proof {
            use_type_invariant(self);
        }
        regex_capture(&self.drive, text, 1)
    }

    /// Whether an argument gives a capacity.
    pub fn gives_capacity(&self, arg: &str) -> (found: bool)
        ensures
            found == regex_matches(RE_CAPA@, arg@),
    {
        proof {
            use_type_invariant(self);
        }
        regex_is_match(&self.capa, arg)
    }

    /// Whether an argument gives a number of workers.
    pub fn gives_threads(&self, arg: &str) -> (found: bool)
        ensures
            found == regex_matches(RE_THREAD@, arg@),
    {
        proof {
            use_type_invariant(self);
        }
        regex_is_match(&self.thread, arg)
    }

    /// Whether a text begins with a segment.
    pub fn begins_with_segment(&self, text: &str) -> (found: bool)
        ensures
            found == has_head(text@),
    {
        proof {
            use_type_invariant(self);
        }
        regex_is_match(&self.pack, text)
    }

    /// The text with its first segment collapsed into an ellipsis.
    pub fn collapse_segment(&self, text: &str) -> (out: String)
        ensures
            out@ == head_replaced(text@, ELLIPSIS@),
    {
        proof {
            use_type_invariant(self);
            lemma_ellipsis();
        }
        regex_replace(&self.pack, text, ELLIPSIS)
    }
}

/// The ellipsis marker is two characters, neither of them a `/` or a `$`.
pub proof fn lemma_ellipsis()
    ensures
        ELLIPSIS@ == seq!['…', ' '],
        !ELLIPSIS@.contains('$'),
        !ELLIPSIS@.contains('/'),
{
    reveal_strlit("… ");
    assert(ELLIPSIS@ =~= seq!['…', ' ']);
}

/// A text that begins with characters other than `/` has them all in its
/// first segment.
pub proof fn lemma_head_len_concat(with: Seq<char>, rest: Seq<char>)
    requires
        !with.contains('/'),
    ensures
        head_len(with + rest) == with.len() + head_len(rest),
    decreases with.len(),
{
    if with.len() == 0 {
        assert(with + rest =~= rest);
    } else {
        assert(with.contains(with[0]));
        assert forall|c: char| with.drop_first().contains(c) implies with.contains(c) by {
            let i = choose|i: int| 0 <= i < with.drop_first().len() && with.drop_first()[i] == c;
            assert(with[i + 1] == c);
        }
        lemma_head_len_concat(with.drop_first(), rest);
        assert((with + rest).drop_first() =~= with.drop_first() + rest);
    }
}

/// The first segment of a text is no longer than the text.
pub proof fn lemma_head_len_bound(text: Seq<char>)
    ensures
        head_len(text) <= text.len(),
    decreases text.len(),
{
    if text.len() > 0 && text[0] != '/' {
        lemma_head_len_bound(text.drop_first());
    }
}

} // verus!
