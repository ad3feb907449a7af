//! Reserve rules: a pattern for URLs and the query keys to keep for the URLs
//! that the pattern matches.

use crate::patterns::{regex_language, regex_source};
use regex::Regex;
use vstd::prelude::*;

verus! {

/// A rule defines which query parameters to keep in the URLs that match it.
#[derive(Debug, Clone)]
pub struct ReserveRule {
    /// The pattern that is held against the whole text of a URL.
    pub url_match: Regex,
    /// The keys of the query parameters to keep. May be empty: a matching URL
    /// then keeps no parameter, but still an empty query.
    pub reserve_queries: Vec<String>,
}

/// A pattern that did not compile.
#[derive(Debug)]
pub struct PatternError {
    /// What the pattern compiler objected to.
    pub source: regex::Error,
}

impl ReserveRule {
    /// Whether the rule's pattern matches `text`.
    pub open spec fn accepts(self, text: Seq<char>) -> bool {
        regex_language(self.url_match).contains(text)
    }

    /// A rule from a compiled pattern and the keys to keep.
    pub fn new(url_match: Regex, reserve_queries: Vec<String>) -> (rule: Self)
        ensures
            rule.url_match == url_match,
            rule.reserve_queries == reserve_queries,
    {
        Self { url_match, reserve_queries }
    }

    /// A rule from the outcome of compiling its pattern: the rule where the
    /// pattern compiled, the compiler's objection where it did not.
    pub fn from_compiled(compiled: Result<Regex, regex::Error>, reserve_queries: Vec<String>) -> (r:
        Result<Self, PatternError>)
        ensures
            match compiled {
                Ok(url_match) => r == Ok::<Self, PatternError>(
                    (Self { url_match, reserve_queries }),
                ),
                Err(source) => r == Err::<Self, PatternError>((PatternError { source })),
            },
    {
        match compiled {
            Ok(url_match) => Ok(Self { url_match, reserve_queries }),
            Err(source) => Err(PatternError { source }),
        }
    }

    /// A rule from the text of a pattern and the keys to keep: the pattern
    /// compiled from that text, with those keys. Fails where the pattern does
    /// not compile.
    pub fn new_with_regex(url_match: &str, reserve_queries: Vec<String>) -> (r: Result<
        Self,
        PatternError,
    >)
        ensures
            r matches Ok(rule) ==> regex_source(rule.url_match) == url_match@
                && rule.reserve_queries == reserve_queries,
    {
        Self::from_compiled(Regex::new(url_match), reserve_queries)
    }

    /// The text of the rule's pattern.
    pub fn pattern(&self) -> (text: &str)
        ensures
            text@ == regex_source(self.url_match),
    {
        self.url_match.as_str()
    }

    /// Whether the rule's pattern matches `text`, the whole text of a URL.
    pub fn matches(&self, text: &str) -> (r: bool)
        ensures
            r == self.accepts(text@),
    {
        self.url_match.is_match(text)
    }
}

/// Whether `i` is the first of `rules` that accepts `text`.
pub open spec fn is_first_match(rules: Seq<ReserveRule>, text: Seq<char>, i: int) -> bool {
    &&& 0 <= i < rules.len()
    &&& rules[i].accepts(text)
    &&& forall|j: int| 0 <= j < i ==> !(#[trigger] rules[j]).accepts(text)
}

/// The index of the first of `rules` that accepts `text`, if any does.
pub open spec fn first_match(rules: Seq<ReserveRule>, text: Seq<char>) -> Option<int> {
    if exists|i: int| is_first_match(rules, text, i) {
        Some(choose|i: int| is_first_match(rules, text, i))
    } else {
        None
    }
}

/// First match wins: the first rule that accepts a text is the one that
/// `first_match` names, whatever rules come after it.
pub proof fn lemma_first_match_wins(rules: Seq<ReserveRule>, text: Seq<char>, i: int)
    requires
        is_first_match(rules, text, i),
    ensures
        first_match(rules, text) == Some(i),
{
    let k: int = choose|k: int| is_first_match(rules, text, k);
    assert(is_first_match(rules, text, k));
    if k < i {
        assert(!rules[k].accepts(text));
    } else if i < k {
        assert(!rules[i].accepts(text));
    }
}

/// Where no rule accepts a text, there is no first match.
pub proof fn lemma_no_match(rules: Seq<ReserveRule>, text: Seq<char>)
    requires
        forall|j: int| 0 <= j < rules.len() ==> !(#[trigger] rules[j]).accepts(text),
    ensures
        first_match(rules, text) is None,
{
}

/// Rules that come after the first match do not count: appending any rules
/// to a list that has a match leaves the match where it is.
pub proof fn lemma_later_rules_do_not_count(
    rules: Seq<ReserveRule>,
    more: Seq<ReserveRule>,
    text: Seq<char>,
)
    requires
        first_match(rules, text) is Some,
    ensures
        first_match(rules + more, text) == first_match(rules, text),
        (rules + more)[first_match(rules, text)->0] == rules[first_match(rules, text)->0],
{
    let i: int = first_match(rules, text)->0;
    assert(is_first_match(rules, text, i));
    let all = rules + more;
    assert(all[i] == rules[i]);
    assert forall|j: int| 0 <= j < i implies !(#[trigger] all[j]).accepts(text) by {
        assert(all[j] == rules[j]);
    }
    assert(is_first_match(all, text, i));
    lemma_first_match_wins(all, text, i);
}

/// Finds the first of `rules` whose pattern matches `text`.
pub fn find_rule(rules: &Vec<ReserveRule>, text: &str) -> (r: Option<usize>)
    ensures
        match r {
            Some(i) => first_match(rules@, text@) == Some(i as int),
            None => first_match(rules@, text@) is None,
        },
{
    let mut i: usize = 0;
    while i < rules.len()
        invariant
            i <= rules.len(),
            forall|j: int| 0 <= j < i ==> !(#[trigger] rules@[j]).accepts(text@),
        decreases rules.len() - i,
    {
        if rules[i].matches(text) {
            proof {
                lemma_first_match_wins(rules@, text@, i as int);
            }
            return Some(i);
        }
        i += 1;
    }
    proof {
        lemma_no_match(rules@, text@);
    }
    None
}

} // verus!
