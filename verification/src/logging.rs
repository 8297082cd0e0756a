//! Keeping credentials out of what is shown: every line that leaves
//! the library is scrubbed of anything that looks like a token.

use vstd::prelude::*;
use crate::text::strings;

verus! {

/// `regex::Regex`, seen through [`regex_pattern`].
#[verifier::external_type_specification]
#[verifier::external_body]
pub struct ExRegex(regex::Regex);

/// The pattern that a compiled expression was made from.
pub uninterp spec fn regex_pattern(re: regex::Regex) -> Seq<char>;

/// Whether a pattern is one that the `regex` crate compiles.
pub uninterp spec fn regex_valid(pattern: Seq<char>) -> bool;

/// The text with every match of the pattern replaced, from left to right,
/// as `regex::Regex::replace_all` does it.
pub uninterp spec fn regex_replaced(pattern: Seq<char>, text: Seq<char>, replacement: Seq<char>) -> Seq<
    char,
>;

/// The matches of the pattern in the text that do not overlap, from left to
/// right, as `regex::Regex::find_iter` yields them.
pub uninterp spec fn regex_matches(pattern: Seq<char>, text: Seq<char>) -> Seq<Seq<char>>;

/// `regex::Regex::new`: the compiled expression, or `None` for a pattern
/// that does not compile.
#[verifier::external_body]
pub(crate) fn compile(pattern: &str) -> (r: Option<regex::Regex>)
    ensures
        r is Some == regex_valid(pattern@),
        r matches Some(re) ==> regex_pattern(re) == pattern@,
{
    regex::Regex::new(pattern).ok()
}

/// `regex::Regex::replace_all` with a replacement text.
#[verifier::external_body]
pub(crate) fn replace_all(re: &regex::Regex, text: &str, replacement: &str) -> (r: String)
    ensures
        r@ == regex_replaced(regex_pattern(*re), text@, replacement@),
{
    re.replace_all(text, replacement).into_owned()
}

/// `regex::Regex::find_iter`: the texts of the matches, in order.
#[verifier::external_body]
pub(crate) fn find_all(re: &regex::Regex, text: &str) -> (r: Vec<String>)
    ensures
        strings(r@) == regex_matches(regex_pattern(*re), text@),
{
    re.find_iter(text).map(|m| m.as_str().to_string()).collect()
}

/// What stands in the place of a credential.
pub open spec fn redaction() -> Seq<char> {
    "[REDACTED]"@
}

/// The patterns of what counts as a credential: the token formats of the
/// remote service, and what follows the words `Bearer` and `token`.
pub open spec fn credential_patterns() -> Seq<Seq<char>> {
    seq![
        "ghp_[A-Za-z0-9]{10,}"@,
        "ghs_[A-Za-z0-9]{10,}"@,
        "ghu_[A-Za-z0-9]{10,}"@,
        "github_pat_[A-Za-z0-9_]{10,}"@,
        "Bearer\\s+[A-Za-z0-9._-]{10,}"@,
        "token\\s+[A-Za-z0-9._-]{10,}"@,
    ]
}

/// The text with the matches of each pattern replaced by the redaction, one
/// pattern after the other.
pub open spec fn redacted_by(patterns: Seq<Seq<char>>, text: Seq<char>) -> Seq<char>
    decreases patterns.len(),
{
    if patterns.len() == 0 {
        text
    } else {
        regex_replaced(patterns.last(), redacted_by(patterns.drop_last(), text), redaction())
    }
}

/// The patterns that compile, in order.
pub open spec fn compiling(patterns: Seq<Seq<char>>) -> Seq<Seq<char>>
    decreases patterns.len(),
{
    if patterns.len() == 0 {
        seq![]
    } else if regex_valid(patterns.last()) {
        compiling(patterns.drop_last()).push(patterns.last())
    } else {
        compiling(patterns.drop_last())
    }
}

/// A line with everything that looks like a credential replaced.
pub open spec fn scrubbed(line: Seq<char>) -> Seq<char> {
    redacted_by(compiling(credential_patterns()), line)
}

/// The patterns of compiled expressions.
pub open spec fn patterns_of(v: Seq<regex::Regex>) -> Seq<Seq<char>> {
    Seq::new(v.len(), |i: int| regex_pattern(v[i]))
}

/// The compiled credential patterns. Only [`Scrubber::new`] makes one, so
/// that every expression in it was compiled from its pattern alone.
pub struct Scrubber {
    patterns: Vec<regex::Regex>,
}

impl Scrubber {
    /// The patterns of the expressions that the scrubber holds, in order.
    pub closed spec fn held(&self) -> Seq<Seq<char>> {
        patterns_of(self.patterns@)
    }

    /// Whether the scrubber holds the credential patterns that compile.
    pub open spec fn wf(&self) -> bool {
        self.held() == compiling(credential_patterns())
    }

    /// The number of expressions that the scrubber holds.
    pub fn len(&self) -> (r: usize)
        ensures
            r == self.held().len(),
    {
        self.patterns.len()
    }

    /// Compiles the credential patterns.
    pub fn new() -> (r: Scrubber)
        ensures
            r.wf(),
    {
        let mut sources: Vec<&str> = Vec::new();
        sources.push("ghp_[A-Za-z0-9]{10,}");
        sources.push("ghs_[A-Za-z0-9]{10,}");
        sources.push("ghu_[A-Za-z0-9]{10,}");
        sources.push("github_pat_[A-Za-z0-9_]{10,}");
        sources.push("Bearer\\s+[A-Za-z0-9._-]{10,}");
        sources.push("token\\s+[A-Za-z0-9._-]{10,}");
        let ghost all = credential_patterns();
        assert(sources@.len() == 6 && all.len() == 6);
        assert(forall|k: int| 0 <= k < 6 ==> sources@[k]@ == all[k]);
        let mut patterns: Vec<regex::Regex> = Vec::new();
        let mut i: usize = 0;
        assert(patterns_of(patterns@) =~= compiling(all.take(0)));
        while i < sources.len()
            invariant
                i <= sources.len(),
                sources@.len() == all.len(),
                forall|k: int| 0 <= k < sources@.len() ==> sources@[k]@ == all[k],
                patterns_of(patterns@) == compiling(all.take(i as int)),
            decreases sources.len() - i,
        {
            assert(all.take(i + 1).drop_last() == all.take(i as int));
            assert(all.take(i + 1).last() == all[i as int]);
            let ghost before = patterns_of(patterns@);
            if let Some(re) = compile(sources[i]) {
                patterns.push(re);
                assert(patterns_of(patterns@) =~= before.push(all[i as int]));
            }
            i += 1;
        }
        assert(all.take(all.len() as int) == all);
        Scrubber { patterns }
    }

    /// The line with everything that looks like a credential replaced.
    pub fn scrub(&self, line: &str) -> (r: String)
        requires
            self.wf(),
        ensures
            r@ == scrubbed(line@),
    {
        let ghost all = patterns_of(self.patterns@);
        let mut redacted = line.to_string();
        let mut i: usize = 0;
        assert(redacted@ == redacted_by(all.take(0), line@));
        while i < self.patterns.len()
            invariant
                i <= self.patterns.len(),
                all == patterns_of(self.patterns@),
                redacted@ == redacted_by(all.take(i as int), line@),
            decreases self.patterns.len() - i,
        {
            assert(all.take(i + 1).drop_last() == all.take(i as int));
            assert(all.take(i + 1).last() == regex_pattern(self.patterns@[i as int]));
            redacted = replace_all(&self.patterns[i], redacted.as_str(), "[REDACTED]");
            i += 1;
        }
        assert(all.take(all.len() as int) == all);
        redacted
    }
}

/// The line with everything that looks like a credential replaced.
pub fn scrub_sensitive(line: &str) -> (r: String)
    ensures
        r@ == scrubbed(line@),
{
    let scrubber = Scrubber::new();
    scrubber.scrub(line)
}

} // verus!
