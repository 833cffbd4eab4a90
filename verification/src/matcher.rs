//! The pattern matcher that the rules are built on. Nothing in this file is
//! proved: it states what the `regex` crate is trusted to do.

use vstd::prelude::*;
use regex::Regex;

verus! {

/// `regex::Regex`, a compiled matcher. Its inside is not visible to the
/// proofs: they know a matcher only by what `compiled` and `replaced_text`
/// say of it.
#[verifier::external_type_specification]
#[verifier::external_body]
pub struct ExRegex(regex::Regex);

/// `regex::Error`, what `Regex::new` returns for a pattern it rejects.
#[verifier::external_type_specification]
#[verifier::external_body]
pub struct ExRegexError(regex::Error);

/// What `Regex::new` makes of `pattern`: the matcher, or nothing where the
/// pattern is malformed or its matcher would pass the default size limit.
pub uninterp spec fn compiled(pattern: Seq<char>) -> Option<Regex>;

/// The text that `Regex::replace_all` returns when `re` rewrites `text` with
/// the replacement string `template`: every non-overlapping match replaced,
/// `$` references to capture groups expanded.
pub uninterp spec fn replaced_text(re: Regex, text: Seq<char>, template: Seq<char>) -> Seq<char>;

/// Whether `pattern` compiles.
pub open spec fn pattern_compiles(pattern: Seq<char>) -> bool {
    compiled(pattern) is Some
}

/// `Regex::new`. Trusted: what it returns depends on the pattern alone.
/// The matchers that it makes of one pattern are taken for one value; no
/// call in this library tells them apart.
pub assume_specification[ Regex::new ](re: &str) -> (r: Result<Regex, regex::Error>)
    ensures
        match r {
            Ok(m) => compiled(re@) == Some(m),
            Err(_) => compiled(re@) is None,
        },
;

/// `Regex::replace_all` with a string as the replacement, the result copied
/// into an owned `String`. Trusted: the result depends only on the matcher,
/// the text and the template.
#[verifier::external_body]
pub(crate) fn replace_all(re: &Regex, text: &str, template: &str) -> (out: String)
    ensures
        out@ == replaced_text(*re, text@, template@),
{
    re.replace_all(text, template).into_owned()
}

} // verus!
