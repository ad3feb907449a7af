//! What the verified code assumes about `regex::Regex`.

use regex::Regex;
use vstd::prelude::*;

verus! {

/// `regex::Regex`, a compiled pattern. Nothing of its inside is shown to the
/// verifier.
#[verifier::external_type_specification]
#[verifier::external_body]
pub struct ExRegex(Regex);

/// `regex::Error`, the reason for which a pattern did not compile.
#[verifier::external_type_specification]
#[verifier::external_body]
pub struct ExRegexError(regex::Error);

/// The texts in which a compiled pattern finds a match: those for which
/// `Regex::is_match` returns `true`.
pub uninterp spec fn regex_language(re: Regex) -> Set<Seq<char>>;

/// The text that a pattern was compiled from: what `Regex::as_str` returns.
pub uninterp spec fn regex_source(re: Regex) -> Seq<char>;

/// `Regex::new` compiles a pattern or rejects it, and a compiled pattern
/// keeps the text it was compiled from. Which patterns it rejects is left
/// open: besides the syntax, a size limit decides, and the size of a
/// compiled pattern depends on the machine.
pub assume_specification[ Regex::new ](re: &str) -> (r: Result<Regex, regex::Error>)
    ensures
        r matches Ok(compiled) ==> regex_source(compiled) == re@,
;

/// `Regex::as_str` returns the text that the pattern was compiled from.
pub assume_specification<'a>[ Regex::as_str ](re: &'a Regex) -> (r: &'a str)
    ensures
        r@ == regex_source(*re),
;

/// `Regex::is_match` says whether the pattern matches anywhere in the text.
pub assume_specification[ Regex::is_match ](re: &Regex, haystack: &str) -> (r: bool)
    ensures
        r == regex_language(*re).contains(haystack@),
;

/// A clone of a compiled pattern matches the same texts and keeps the same
/// source: it shares the compiled program.
pub assume_specification[ <Regex as Clone>::clone ](re: &Regex) -> (r: Regex)
    ensures
        regex_language(r) == regex_language(*re),
        regex_source(r) == regex_source(*re),
;

} // verus!
