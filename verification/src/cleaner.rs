//! The cleaner: a redirect policy, an ordered list of reserve rules and a
//! user agent, and what they decide for a URL.
//!
//! A cleaning runs in steps. `start` parses the input and passes it through
//! the policy; `resolved` takes what the lookup of the host gave;
//! `probed` takes the answer to the probe request. Each names the next
//! step, and the last one is always the rewrite of the query, which
//! `do_clean_without_http_check` performs.

use crate::policy::RedirectPolicy;
use crate::query::{
    lemma_retained_none, lemma_retained_twice, reserve_pairs, reserved_query, retained,
};
use crate::rules::{
    find_rule, first_match, is_first_match, lemma_first_match_wins, lemma_later_rules_do_not_count,
    ReserveRule,
};
use crate::steps::{probe_verdict, CleanError, CleanStep, Lookup, ProbeOutcome};
use crate::text::opt_view;
use crate::urls::{
    parsed_text, query_fits, query_pairs, text_with_query, url_domain, url_host, url_pairs,
    url_query, url_text,
};
use url::Url;
use vstd::prelude::*;

verus! {

/// The user agent that a cleaner sends unless it is given another.
pub const DEFAULT_USER_AGENT: &'static str =
    "Mozilla/5.0 (Windows NT 10.0; Win64; x64) AppleWebKit/537.36 (KHTML, like Gecko) Chrome/123.0.0.0 Safari/537.36";

/// Cleaner for tracking URLs.
///
/// It is made by `UrlTrackCleanerBuilder` and does not change afterwards.
#[derive(Clone, Debug)]
pub struct UrlTrackCleaner {
    follow_redirect: RedirectPolicy,
    reserve_rules: Vec<ReserveRule>,
    user_agent: String,
}

/// Builder for `UrlTrackCleaner`.
#[derive(Clone, Debug)]
pub struct UrlTrackCleanerBuilder {
    follow_redirect: RedirectPolicy,
    reserve_rules: Vec<ReserveRule>,
    user_agent: Option<String>,
}

/// Whether the policy sends a URL to the lookup of its host: the policy
/// allows the URL, and the URL has a host.
pub open spec fn wants_lookup(policy: RedirectPolicy, url: Url) -> bool {
    policy.allows(url_domain(url)) && url_host(url) is Some
}

/// Whether `step` is the step that the policy opens the cleaning of the
/// step's URL with: the lookup of its host where the policy wants it, the
/// rewrite otherwise.
pub open spec fn opens_with(policy: RedirectPolicy, step: CleanStep) -> bool {
    match step {
        CleanStep::Resolve { url, host } => wants_lookup(policy, url) && url_host(url) == Some(
            host@,
        ),
        CleanStep::Probe { .. } => false,
        CleanStep::Rewrite { url } => !wants_lookup(policy, url),
    }
}

/// The query that the rules leave to a URL: what the first rule that accepts
/// the URL's text reserves of its pairs, and no query where no rule accepts
/// it.
pub open spec fn planned_query(rules: Seq<ReserveRule>, url: Url) -> Option<Seq<char>> {
    match first_match(rules, url_text(url)) {
        Some(i) => Some(reserved_query(url_pairs(url), rules[i].reserve_queries.deep_view())),
        None => None,
    }
}

/// The text of a URL after the rewrite of its query.
pub open spec fn rewritten_text(rules: Seq<ReserveRule>, url: Url) -> Seq<char> {
    text_with_query(url, planned_query(rules, url))
}

/// With the policy `Never` a cleaning opens with the rewrite: it asks
/// nothing of the network.
pub proof fn lemma_never_opens_with_rewrite(step: CleanStep)
    requires
        opens_with(RedirectPolicy::Never, step),
    ensures
        step == (CleanStep::Rewrite { url: step.url() }),
{
}

/// Only the first of two rules that both accept a URL decides its query.
pub proof fn lemma_first_of_two_decides(first: ReserveRule, second: ReserveRule, url: Url)
    requires
        first.accepts(url_text(url)),
    ensures
        planned_query(seq![first, second], url) == planned_query(seq![first], url),
        planned_query(seq![first], url) == Some(
            reserved_query(url_pairs(url), first.reserve_queries.deep_view()),
        ),
{
    let text = url_text(url);
    let one = seq![first];
    let two = seq![first, second];
    assert(is_first_match(one, text, 0));
    assert(is_first_match(two, text, 0));
    lemma_first_match_wins(one, text, 0);
    lemma_first_match_wins(two, text, 0);
}

/// Rules that come after the first match do not decide: appending rules to
/// a list that accepts a URL leaves the URL's planned query as it is.
pub proof fn lemma_later_rules_do_not_decide(
    rules: Seq<ReserveRule>,
    more: Seq<ReserveRule>,
    url: Url,
)
    requires
        first_match(rules, url_text(url)) is Some,
    ensures
        planned_query(rules + more, url) == planned_query(rules, url),
{
    lemma_later_rules_do_not_count(rules, more, url_text(url));
}

/// A rule that reserves no key leaves an empty query, and that is a query:
/// no rule at all leaves none.
pub proof fn lemma_empty_rule_plans_empty_query(rules: Seq<ReserveRule>, url: Url)
    ensures
        first_match(rules, url_text(url)) is None <==> planned_query(rules, url) is None,
        first_match(rules, url_text(url)) matches Some(i) && rules[i].reserve_queries.len() == 0
            ==> planned_query(rules, url) == Some(Seq::<char>::empty()),
{
    if let Some(i) = first_match(rules, url_text(url)) {
        if rules[i].reserve_queries.len() == 0 {
            assert(rules[i].reserve_queries.deep_view() =~= Seq::<Seq<char>>::empty());
            lemma_retained_none(url_pairs(url));
        }
    }
}

/// A cleaned URL calls for the query that it has: where the rule that
/// decided for `url` decides for `cleaned` too, and the pairs of `cleaned`
/// are those that were retained of `url`, the rules plan for `cleaned` what
/// they planned for `url`.
pub proof fn lemma_cleaned_plan(rules: Seq<ReserveRule>, url: Url, cleaned: Url)
    requires
        first_match(rules, url_text(cleaned)) == first_match(rules, url_text(url)),
        first_match(rules, url_text(url)) matches Some(i) ==> url_pairs(cleaned) == retained(
            url_pairs(url),
            rules[i].reserve_queries.deep_view(),
        ),
    ensures
        planned_query(rules, cleaned) == planned_query(rules, url),
{
    if let Some(i) = first_match(rules, url_text(url)) {
        lemma_retained_twice(url_pairs(url), rules[i].reserve_queries.deep_view());
    }
}

impl Default for UrlTrackCleaner {
    fn default() -> (cleaner: Self)
        ensures
            cleaner.policy() is Never,
            cleaner.rules().len() == 0,
            cleaner.agent() == DEFAULT_USER_AGENT@,
    {
        Self::new()
    }
}

impl UrlTrackCleaner {
    /// The redirect policy of the cleaner.
    pub closed spec fn policy(self) -> RedirectPolicy {
        self.follow_redirect
    }

    /// The reserve rules of the cleaner, in their order.
    pub closed spec fn rules(self) -> Seq<ReserveRule> {
        self.reserve_rules@
    }

    /// The user agent that the cleaner has its probes sent under.
    pub closed spec fn agent(self) -> Seq<char> {
        self.user_agent@
    }

    /// A cleaner that resolves no redirect, has no rule and sends the
    /// default user agent.
    pub fn new() -> (cleaner: Self)
        ensures
            cleaner.policy() is Never,
            cleaner.rules().len() == 0,
            cleaner.agent() == DEFAULT_USER_AGENT@,
    {
        Self {
            follow_redirect: RedirectPolicy::Never,
            reserve_rules: Vec::new(),
            user_agent: DEFAULT_USER_AGENT.to_owned(),
        }
    }

    /// A builder for a cleaner: the same as `UrlTrackCleanerBuilder::new()`.
    pub fn builder() -> (builder: UrlTrackCleanerBuilder)
        ensures
            builder.policy() is Never,
            builder.rules().len() == 0,
            builder.agent() is None,
    {
        UrlTrackCleanerBuilder::new()
    }

    /// The redirect policy of the cleaner.
    pub fn follow_redirect(&self) -> (policy: &RedirectPolicy)
        ensures
            *policy == self.policy(),
    {
        &self.follow_redirect
    }

    /// The reserve rules of the cleaner, in their order.
    pub fn reserve_rules(&self) -> (rules: &Vec<ReserveRule>)
        ensures
            rules@ == self.rules(),
    {
        &self.reserve_rules
    }

    /// The user agent that the cleaner has its probes sent under.
    pub fn user_agent(&self) -> (agent: &str)
        ensures
            agent@ == self.agent(),
    {
        self.user_agent.as_str()
    }

    /// Opens the cleaning of an input: parses it and passes the URL through
    /// the policy. Fails where the input is no URL.
    pub fn start(&self, input: &str) -> (r: Result<CleanStep, CleanError>)
        ensures
            match r {
                Ok(step) => parsed_text(input@) == Some(url_text(step.url())) && opens_with(
                    self.policy(),
                    step,
                ),
                Err(error) => error == CleanError::InvalidInputUrl && parsed_text(input@) is None,
            },
            self.policy() is Never ==> (r matches Ok(step) ==> step == (CleanStep::Rewrite {
                url: step.url(),
            })),
    {
        match Url::parse(input) {
            Ok(url) => Ok(self.gate(url)),
            Err(_) => Err(CleanError::InvalidInputUrl),
        }
    }

    /// Passes a URL through the policy: names the lookup of its host where
    /// the policy allows the URL and the URL has a host, the rewrite
    /// otherwise.
    pub fn gate(&self, url: Url) -> (step: CleanStep)
        ensures
            step.url() == url,
            opens_with(self.policy(), step),
            self.policy() is Never ==> step == (CleanStep::Rewrite { url }),
    {
        if !self.follow_redirect.test_url(&url) {
            return CleanStep::Rewrite { url };
        }
        let host = match url.host_str() {
            Some(host) => Some(host.to_owned()),
            None => None,
        };
        match host {
            Some(host) => CleanStep::Resolve { url, host },
            None => CleanStep::Rewrite { url },
        }
    }

    /// Takes what the lookup of a URL's host gave: names the probe where the
    /// host was found, the rewrite where it was not, whatever the policy.
    pub fn resolved(&self, url: Url, lookup: Lookup) -> (step: CleanStep)
        ensures
            step.url() == url,
            match step {
                CleanStep::Resolve { .. } => false,
                CleanStep::Probe { user_agent, .. } => lookup.found() && user_agent@
                    == self.agent(),
                CleanStep::Rewrite { .. } => !lookup.found(),
            },
    {
        if lookup.is_found() {
            CleanStep::Probe { url, user_agent: self.user_agent.clone() }
        } else {
            CleanStep::Rewrite { url }
        }
    }

    /// Takes the answer to a probe: names the rewrite of the URL that the
    /// answer leads to, or the error that ends the cleaning.
    pub fn probed(&self, outcome: ProbeOutcome) -> (r: Result<CleanStep, CleanError>)
        ensures
            match r {
                Ok(step) => step == (CleanStep::Rewrite { url: step.url() }) && probe_verdict(
                    outcome,
                ) == Ok::<Seq<char>, CleanError>(url_text(step.url())),
                Err(error) => probe_verdict(outcome) == Err::<Seq<char>, CleanError>(error),
            },
    {
        match outcome.working_url() {
            Ok(url) => Ok(CleanStep::Rewrite { url }),
            Err(error) => Err(error),
        }
    }

    /// The query that the rules leave to a URL.
    pub fn plan_query(&self, url: &Url) -> (query: Option<String>)
        ensures
            opt_view(query) == planned_query(self.rules(), *url),
    {
        match find_rule(&self.reserve_rules, url.as_str()) {
            Some(i) => {
                let pairs = query_pairs(url);
                Some(reserve_pairs(&pairs, &self.reserve_rules[i].reserve_queries))
            },
            None => None,
        }
    }

    /// Whether the rewrite of a URL stays within what a URL can hold.
    pub open spec fn can_rewrite(self, url: Url) -> bool {
        query_fits(url_text(url), planned_query(self.rules(), url))
    }

    /// Sets the query that the rules leave to a URL, once it is worked out.
    fn apply_plan(&self, url: Url, query: Option<String>) -> (cleaned: Url)
        requires
            opt_view(query) == planned_query(self.rules(), url),
            self.can_rewrite(url),
        ensures
            url_text(cleaned) == rewritten_text(self.rules(), url),
            url_query(cleaned) is Some <==> first_match(self.rules(), url_text(url)) is Some,
            planned_query(self.rules(), url) == Some(Seq::<char>::empty()) ==> url_query(cleaned)
                == Some(Seq::<char>::empty()),
            planned_query(self.rules(), cleaned) == planned_query(self.rules(), url)
                ==> rewritten_text(self.rules(), cleaned) == url_text(cleaned),
            text_with_query(cleaned, None) == text_with_query(url, None),
    {
        let mut url = url;
        url.set_query(
            match &query {
                Some(text) => Some(text.as_str()),
                None => None,
            },
        );
        url
    }

    /// Cleans the URL by the reserve rules, without any request.
    ///
    /// The first rule that accepts the URL's text decides: the URL keeps the
    /// pairs whose key the rule reserves, and has a query even where none is
    /// kept. Where no rule accepts it, the URL loses its query.
    ///
    /// Cleaning the result again changes nothing where the rules plan for
    /// the result the query that it was given. Nothing but the query is
    /// rewritten: without their queries the cleaned URL and the given one
    /// read the same.
    pub fn do_clean_without_http_check(&self, url: Url) -> (cleaned: Url)
        requires
            self.can_rewrite(url),
        ensures
            url_text(cleaned) == rewritten_text(self.rules(), url),
            url_query(cleaned) is Some <==> first_match(self.rules(), url_text(url)) is Some,
            planned_query(self.rules(), url) == Some(Seq::<char>::empty()) ==> url_query(cleaned)
                == Some(Seq::<char>::empty()),
            planned_query(self.rules(), cleaned) == planned_query(self.rules(), url)
                ==> rewritten_text(self.rules(), cleaned) == url_text(cleaned),
            text_with_query(cleaned, None) == text_with_query(url, None),
    {
        let query = self.plan_query(&url);
        self.apply_plan(url, query)
    }

    /// Cleans the URL by the reserve rules where the rewrite stays within
    /// what a URL can hold, and returns nothing where it does not. What it
    /// returns is what `do_clean_without_http_check` returns.
    pub fn checked_clean_without_http_check(&self, url: Url) -> (r: Option<Url>)
        ensures
            r is Some <==> self.can_rewrite(url),
            r matches Some(cleaned) ==> {
                &&& url_text(cleaned) == rewritten_text(self.rules(), url)
                &&& (url_query(cleaned) is Some <==> first_match(self.rules(), url_text(url))
                    is Some)
                &&& (planned_query(self.rules(), url) == Some(Seq::<char>::empty())
                    ==> url_query(cleaned) == Some(Seq::<char>::empty()))
                &&& (planned_query(self.rules(), cleaned) == planned_query(self.rules(), url)
                    ==> rewritten_text(self.rules(), cleaned) == url_text(cleaned))
                &&& text_with_query(cleaned, None) == text_with_query(url, None)
            },
    {
        let query = self.plan_query(&url);
        let fits = match &query {
            Some(text) => {
                let held: usize = url.as_str().as_bytes().len();
                let given: usize = text.as_str().as_bytes().len();
                (held as u128) + 3 * (given as u128) < (u32::MAX as u128)
            },
            None => true,
        };
        if fits {
            Some(self.apply_plan(url, query))
        } else {
            None
        }
    }
}

impl Default for UrlTrackCleanerBuilder {
    fn default() -> (builder: Self)
        ensures
            builder.policy() is Never,
            builder.rules().len() == 0,
            builder.agent() is None,
    {
        Self { follow_redirect: RedirectPolicy::Never, reserve_rules: Vec::new(), user_agent: None }
    }
}

impl UrlTrackCleanerBuilder {
    /// The redirect policy that the builder holds.
    pub closed spec fn policy(self) -> RedirectPolicy {
        self.follow_redirect
    }

    /// The reserve rules that the builder holds.
    pub closed spec fn rules(self) -> Seq<ReserveRule> {
        self.reserve_rules@
    }

    /// The user agent that the builder holds, if it was given one.
    pub closed spec fn agent(self) -> Option<Seq<char>> {
        opt_view(self.user_agent)
    }

    /// A builder that holds the defaults: the policy `Never`, no rule, no
    /// user agent of its own.
    pub fn new() -> (builder: Self)
        ensures
            builder.policy() is Never,
            builder.rules().len() == 0,
            builder.agent() is None,
    {
        Self { follow_redirect: RedirectPolicy::Never, reserve_rules: Vec::new(), user_agent: None }
    }

    /// Sets the redirect policy.
    pub fn follow_redirect(self, follow_redirect: RedirectPolicy) -> (builder: Self)
        ensures
            builder.policy() == follow_redirect,
            builder.rules() == self.rules(),
            builder.agent() == self.agent(),
    {
        let mut builder = self;
        builder.follow_redirect = follow_redirect;
        builder
    }

    /// Sets the reserve rules.
    pub fn reserve_rules(self, reserve_rules: Vec<ReserveRule>) -> (builder: Self)
        ensures
            builder.policy() == self.policy(),
            builder.rules() == reserve_rules@,
            builder.agent() == self.agent(),
    {
        let mut builder = self;
        builder.reserve_rules = reserve_rules;
        builder
    }

    /// Sets the user agent.
    pub fn user_agent(self, user_agent: String) -> (builder: Self)
        ensures
            builder.policy() == self.policy(),
            builder.rules() == self.rules(),
            builder.agent() == Some(user_agent@),
    {
        let mut builder = self;
        builder.user_agent = Some(user_agent);
        builder
    }

    /// Takes the builder apart: its policy, its rules and its user agent.
    pub fn into_parts(self) -> (parts: (RedirectPolicy, Vec<ReserveRule>, Option<String>))
        ensures
            parts.0 == self.policy(),
            parts.1@ == self.rules(),
            opt_view(parts.2) == self.agent(),
    {
        (self.follow_redirect, self.reserve_rules, self.user_agent)
    }

    /// Builds the cleaner: with the policy and the rules of the builder, and
    /// with its user agent or, where it has none, the default one.
    pub fn build(self) -> (cleaner: UrlTrackCleaner)
        ensures
            cleaner.policy() == self.policy(),
            cleaner.rules() == self.rules(),
            cleaner.agent() == match self.agent() {
                Some(agent) => agent,
                None => DEFAULT_USER_AGENT@,
            },
    {
        let user_agent = match self.user_agent {
            Some(user_agent) => user_agent,
            None => DEFAULT_USER_AGENT.to_owned(),
        };
        UrlTrackCleaner {
            follow_redirect: self.follow_redirect,
            reserve_rules: self.reserve_rules,
            user_agent,
        }
    }
}

} // verus!
