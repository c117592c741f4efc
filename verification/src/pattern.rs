//! Regular-expression matching of resource names.
//!
//! A pattern is a regular expression in the syntax of the `regex` crate. A
//! name matches when the expression is found anywhere in it, so the bare
//! pattern `feature` matches the name `feature/x`. What compiles and what
//! matches is decided by that crate alone; this module names its answers and
//! proves the filtering around them.

use crate::error::{CleanError, CleanErrorView};
use regex::Regex;
use vstd::prelude::*;
use vstd::string::StringExecFns;

verus! {

/// `regex::Regex`, a compiled regular expression. Nothing inside it is
/// visible here; it is only handed back to the crate that made it.
#[verifier::external_type_specification]
#[verifier::external_body]
pub struct ExRegex(regex::Regex);

/// `regex::Error`, the reason why a pattern did not compile. Only its
/// message is read, through `Display`.
#[verifier::external_type_specification]
#[verifier::external_body]
pub struct ExRegexError(regex::Error);

/// What `regex::Regex::new` returns for a pattern.
pub uninterp spec fn regex_new(pattern: Seq<char>) -> Result<regex::Regex, regex::Error>;

/// What `regex::Regex::is_match` returns for a compiled expression and a text.
pub uninterp spec fn regex_is_match(re: regex::Regex, text: Seq<char>) -> bool;

/// The message that a `regex::Error` displays.
pub uninterp spec fn regex_error_text(e: regex::Error) -> Seq<char>;

/// Calls `regex::Regex::new`. Whether a pattern compiles, and to what,
/// depends on the pattern alone, so the result is the named one.
#[verifier::external_body]
fn compile(pattern: &str) -> (r: Result<Regex, regex::Error>)
    ensures
        r == regex_new(pattern@),
{
    Regex::new(pattern)
}

/// Calls `regex::Regex::is_match`, which searches all of `text` for a match
/// of the expression and depends on the two alone.
#[verifier::external_body]
fn is_match(re: &Regex, text: &str) -> (b: bool)
    ensures
        b == regex_is_match(*re, text@),
{
    re.is_match(text)
}

/// Renders a `regex::Error` through its `Display` impl, which writes the
/// error's own message and depends on the error alone.
#[verifier::external_body]
fn error_text(e: &regex::Error) -> (s: String)
    ensures
        s@ == regex_error_text(*e),
{
    e.to_string()
}

/// Whether `pattern` is a regular expression that compiles.
pub open spec fn pattern_is_valid(pattern: Seq<char>) -> bool {
    regex_new(pattern) is Ok
}

/// Whether `pattern` compiles and is found somewhere in `text`.
pub open spec fn pattern_matches(pattern: Seq<char>, text: Seq<char>) -> bool {
    regex_new(pattern) matches Ok(re) && regex_is_match(re, text)
}

/// `pattern_matches(pattern, _)` as a predicate on names.
pub open spec fn matched_by(pattern: Seq<char>) -> spec_fn(Seq<char>) -> bool {
    |name: Seq<char>| pattern_matches(pattern, name)
}

/// The message of the error for a pattern that does not compile.
pub open spec fn invalid_pattern_message(pattern: Seq<char>) -> Seq<char> {
    "Invalid regex pattern: "@ + match regex_new(pattern) {
        Ok(_) => Seq::empty(),
        Err(e) => regex_error_text(e),
    }
}

/// The names of `names` that `pattern` matches, in the order of `names`.
pub open spec fn matching(pattern: Seq<char>, names: Seq<Seq<char>>) -> Seq<Seq<char>> {
    names.filter(matched_by(pattern))
}

/// A pattern that compiled, ready to test names.
pub struct PatternFilter {
    regex: Regex,
    source: Ghost<Seq<char>>,
}

impl PatternFilter {
    #[verifier::type_invariant]
    spec fn compiled_from_source(self) -> bool {
        regex_new(self.source@) == Ok::<regex::Regex, regex::Error>(self.regex)
    }

    /// The pattern that this filter was compiled from.
    pub closed spec fn pattern(&self) -> Seq<char> {
        self.source@
    }

    /// Compiles `pattern`. Fails with `InvalidPattern` exactly where the
    /// pattern is not a valid regular expression.
    pub fn new(pattern: &str) -> (r: Result<PatternFilter, CleanError>)
        ensures
            match r {
                Ok(filter) => pattern_is_valid(pattern@) && filter.pattern() == pattern@,
                Err(e) => !pattern_is_valid(pattern@) && e@ == CleanErrorView::InvalidPattern(
                    invalid_pattern_message(pattern@),
                ),
            },
    {
        match compile(pattern) {
            Ok(regex) => Ok(PatternFilter { regex, source: Ghost(pattern@) }),
            Err(e) => {
                let mut message = "Invalid regex pattern: ".to_owned();
                let detail = error_text(&e);
                message.append(detail.as_str());
                Err(CleanError::InvalidPattern(message))
            },
        }
    }

    /// Tests whether the pattern is found somewhere in `name`.
    pub fn is_match(&self, name: &str) -> (b: bool)
        ensures
            b == pattern_matches(self.pattern(), name@),
    {
        proof {
            use_type_invariant(self);
        }
        is_match(&self.regex, name)
    }

    /// The names of `names` that the pattern matches, in the order of `names`.
    pub fn filter(&self, names: &Vec<String>) -> (out: Vec<String>)
        ensures
            out.deep_view() == matching(self.pattern(), names.deep_view()),
    {
        let mut out: Vec<String> = Vec::new();
        let ghost all = names.deep_view();
        let ghost keep = matched_by(self.pattern());
        proof {
            reveal(Seq::filter);
            assert(all.take(0).filter(keep) =~= out.deep_view());
        }
        let mut i: usize = 0;
        while i < names.len()
            invariant
                i <= names.len(),
                all == names.deep_view(),
                keep == matched_by(self.pattern()),
                out.deep_view() == all.take(i as int).filter(keep),
            decreases names.len() - i,
        {
            let name = &names[i];
            proof {
                assert(all.take(i + 1) == all.take(i as int).push(name@));
                all.take(i as int).lemma_filter_push(name@, keep);
            }
            let ghost before = out.deep_view();
            if self.is_match(name.as_str()) {
                out.push(name.clone());
                assert(out.deep_view() =~= before.push(name@));
            }
            i = i + 1;
        }
        assert(all.take(i as int) == all);
        out
    }
}

/// Filters `names` by the regular expression `pattern`: the result holds the
/// names in which the pattern is found, in the order of `names`. Fails with
/// `InvalidPattern` exactly where the pattern does not compile.
pub fn filter_names(pattern: &str, names: &Vec<String>) -> (r: Result<Vec<String>, CleanError>)
    ensures
        match r {
            Ok(out) => pattern_is_valid(pattern@) && out.deep_view() == matching(
                pattern@,
                names.deep_view(),
            ),
            Err(e) => !pattern_is_valid(pattern@) && e@ == CleanErrorView::InvalidPattern(
                invalid_pattern_message(pattern@),
            ),
        },
{
    match PatternFilter::new(pattern) {
        Ok(filter) => Ok(filter.filter(names)),
        Err(e) => Err(e),
    }
}

/// Every name that the filter keeps is one of the names given and is matched
/// by the pattern; every name given that the pattern matches is kept.
pub proof fn lemma_matching_exact(pattern: Seq<char>, names: Seq<Seq<char>>, name: Seq<char>)
    ensures
        matching(pattern, names).contains(name) <==> names.contains(name) && pattern_matches(
            pattern,
            name,
        ),
{
    let keep = matched_by(pattern);
    if names.filter(keep).contains(name) {
        let j = choose|j: int| 0 <= j < names.filter(keep).len() && names.filter(keep)[j] == name;
        names.lemma_filter_pred(keep, j);
        names.lemma_filter_contains_rev(keep, name);
    }
    if names.contains(name) && pattern_matches(pattern, name) {
        let i = choose|i: int| 0 <= i < names.len() && names[i] == name;
        names.lemma_filter_contains(keep, i);
    }
}

} // verus!
