use vstd::prelude::*;
use vstd::string::*;

verus! {

/// Declares the compiled regular expression of fancy-regex.
#[verifier::external_type_specification]
#[verifier::external_body]
pub struct ExRegex(fancy_regex::Regex);

/// Declares the error type of fancy-regex.
#[verifier::external_type_specification]
#[verifier::external_body]
pub struct ExRegexError(fancy_regex::Error);

/// The capture groups of the first match of `pattern` in `subject`, or `None`
/// when the pattern does not match. Group 0 is the whole match; a group that
/// took no part in the match is `None`.
pub uninterp spec fn first_captures(pattern: Seq<char>, subject: Seq<char>) -> Option<
    Seq<Option<Seq<char>>>,
>;

/// Whether the regex engine accepts `pattern`.
pub uninterp spec fn compiles(pattern: Seq<char>) -> bool;

/// Whether searching `subject` for `pattern` fails, which happens when the
/// search exceeds the engine's backtracking limit.
pub uninterp spec fn match_fails(pattern: Seq<char>, subject: Seq<char>) -> bool;

/// Errors that a classification can report.
#[derive(Debug, Clone, Copy, PartialEq, Eq, Structural)]
pub enum DetectError {
    /// A rule's pattern could not be compiled.
    InvalidPattern,
    /// Evaluating a pattern against a subject failed.
    MatchFailed,
}

/// A regular expression together with the text it was compiled from.
/// Only `compile` builds one, so the two fields always agree.
pub struct CompiledPattern {
    source: String,
    regex: fancy_regex::Regex,
}

impl View for CompiledPattern {
    type V = Seq<char>;

    closed spec fn view(&self) -> Seq<char> {
        self.source@
    }
}

/// Relies on fancy_regex::Regex::new: compiles `pattern`, keeping its text.
#[verifier::external_body]
fn compile_regex(pattern: &str) -> (r: Result<CompiledPattern, fancy_regex::Error>)
    ensures
        r is Ok ==> r->Ok_0@ == pattern@,
        r is Ok <==> compiles(pattern@),
{
    fancy_regex::Regex::new(pattern).map(|regex| CompiledPattern { source: pattern.to_string(), regex })
}

/// Relies on fancy_regex::Regex::captures and Captures::get: the groups of the
/// first match, each as owned text.
#[verifier::external_body]
fn regex_captures(p: &CompiledPattern, subject: &str) -> (r: Result<
    Option<Vec<Option<String>>>,
    fancy_regex::Error,
>)
    ensures
        r is Ok ==> r->Ok_0.deep_view() == first_captures(p@, subject@),
        r is Err <==> match_fails(p@, subject@),
{
    p.regex.captures(subject).map(
        |c| c.map(|c| (0..c.len()).map(|i| c.get(i).map(|m| m.as_str().to_string())).collect()),
    )
}

/// Relies on fancy_regex::Regex's Clone: the copy shares the compiled program.
#[verifier::external_body]
fn share_pattern(p: &CompiledPattern) -> (r: CompiledPattern)
    ensures
        r@ == p@,
{
    CompiledPattern { source: p.source.clone(), regex: p.regex.clone() }
}

/// Compiled patterns by their text, so that each distinct text is compiled
/// once however many rules use it.
pub struct PatternCache {
    entries: Vec<CompiledPattern>,
}

impl PatternCache {
    /// The texts compiled so far, in order of first use.
    pub closed spec fn texts(&self) -> Seq<Seq<char>> {
        self.entries@.map_values(|p: CompiledPattern| p@)
    }

    /// Every cached text is one the engine accepts.
    pub open spec fn wf(&self) -> bool {
        forall|i: int| 0 <= i < self.texts().len() ==> compiles(#[trigger] self.texts()[i])
    }

    /// An empty cache.
    pub fn new() -> (r: PatternCache)
        ensures
            r.wf(),
            r.texts() =~= Seq::<Seq<char>>::empty(),
    {
        PatternCache { entries: Vec::new() }
    }

    /// The compiled form of `pattern`: the cached one when this text was
    /// compiled before, else a new compilation, which is then cached.
    pub fn compile(&mut self, pattern: &str) -> (r: Result<CompiledPattern, DetectError>)
        requires
            old(self).wf(),
        ensures
            final(self).wf(),
            r is Ok <==> compiles(pattern@),
            r is Ok ==> r->Ok_0@ == pattern@,
            r is Err ==> r->Err_0 == DetectError::InvalidPattern,
            old(self).texts().contains(pattern@) ==> r is Ok && final(self).texts() == old(
                self,
            ).texts(),
            !old(self).texts().contains(pattern@) && r is Ok ==> final(self).texts() == old(
                self,
            ).texts().push(pattern@),
            r is Err ==> final(self).texts() == old(self).texts(),
    {
        let n = self.entries.len();
        let mut i: usize = 0;
        while i < n
            invariant
                n == self.entries@.len(),
                self.wf(),
                *self == *old(self),
                0 <= i <= n,
                forall|j: int| 0 <= j < i ==> (#[trigger] self.texts()[j]) != pattern@,
            decreases n - i,
        {
            assert(self.texts()[i as int] == self.entries@[i as int]@);
            if crate::text::same_text(self.entries[i].source.as_str(), pattern) {
                proof {
                    assert(self.texts().contains(pattern@));
                    assert(compiles(self.texts()[i as int]));
                }
                return Ok(share_pattern(&self.entries[i]));
            }
            i = i + 1;
        }
        assert(!self.texts().contains(pattern@));
        let p = CompiledPattern::compile(pattern)?;
        let copy = share_pattern(&p);
        self.entries.push(p);
        assert(self.texts() =~= old(self).texts().push(pattern@));
        assert(self.wf()) by {
            assert forall|i: int| 0 <= i < self.texts().len() implies compiles(
                #[trigger] self.texts()[i],
            ) by {
                if i < old(self).texts().len() {
                    assert(self.texts()[i] == old(self).texts()[i]);
                }
            }
        }
        Ok(copy)
    }
}

/// Text that a rule's expression is wrapped in: the match is case-insensitive
/// and starts at a token boundary of the User-Agent.
pub open spec fn ua_prefix() -> Seq<char> {
    "(?i)(?:^|[^A-Z0-9_-]|[^A-Z0-9-]_|sprd-|MZ-)(?:"@
}

/// The full pattern that a rule's expression `regex` is matched with.
pub open spec fn ua_pattern_text(regex: Seq<char>) -> Seq<char> {
    ua_prefix() + regex + ")"@
}

/// Wraps a rule's expression so that it matches at a token boundary,
/// ignoring case.
pub fn user_agent_pattern(regex: &str) -> (r: String)
    ensures
        r@ == ua_pattern_text(regex@),
{
    let mut s = String::from_str("(?i)(?:^|[^A-Z0-9_-]|[^A-Z0-9-]_|sprd-|MZ-)(?:");
    s.append(regex);
    s.append(")");
    s
}

impl CompiledPattern {
    /// Compiles `pattern`; a pattern the regex engine rejects is an error.
    pub fn compile(pattern: &str) -> (r: Result<CompiledPattern, DetectError>)
        ensures
            r is Ok ==> r->Ok_0@ == pattern@,
            r is Ok <==> compiles(pattern@),
            r is Err ==> r->Err_0 == DetectError::InvalidPattern,
    {
        match compile_regex(pattern) {
            Ok(p) => Ok(p),
            Err(_) => Err(DetectError::InvalidPattern),
        }
    }

    /// The capture groups of the first match in `subject`.
    pub fn captures(&self, subject: &str) -> (r: Result<Option<Vec<Option<String>>>, DetectError>)
        ensures
            r is Ok ==> r->Ok_0.deep_view() == first_captures(self@, subject@),
            r is Err <==> match_fails(self@, subject@),
            r is Err ==> r->Err_0 == DetectError::MatchFailed,
    {
        match regex_captures(self, subject) {
            Ok(c) => Ok(c),
            Err(_) => Err(DetectError::MatchFailed),
        }
    }
}

} // verus!
