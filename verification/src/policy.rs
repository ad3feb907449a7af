//! The redirect policy: which URLs may have their redirect resolved at all.

use crate::text::{ends_with, opt_str_view, same_text};
use crate::urls::url_domain;
use url::Url;
use vstd::prelude::*;

verus! {

/// Redirect policy of a cleaner.
#[derive(Clone, Debug, PartialEq)]
pub enum RedirectPolicy {
    /// No URL has its redirect resolved.
    Never,
    /// Every URL has its redirect resolved.
    All,
    /// A URL has its redirect resolved where its domain ends with one of
    /// these suffixes.
    Domains(Vec<String>),
}

impl Default for RedirectPolicy {
    fn default() -> (policy: Self)
        ensures
            policy is Never,
    {
        RedirectPolicy::Never
    }
}

/// The written form of a policy, as a configuration holds it: nothing, a
/// word, or a list of domain suffixes.
#[derive(Clone, Debug, PartialEq)]
pub enum PolicyForm {
    /// No policy is written.
    Nothing,
    /// A keyword is written: `none` or `*`.
    Word(String),
    /// A list of domain suffixes is written.
    List(Vec<String>),
}

/// A word that stands for no policy.
#[derive(Clone, Debug, PartialEq)]
pub struct UnknownPolicy {
    /// The word as it was written.
    pub word: String,
}

/// Whether `form` is a written form of `policy`. Nothing and the word `none`
/// spell `Never`, the word `*` spells `All`, and a list spells the policy of
/// its suffixes.
pub open spec fn spells(form: PolicyForm, policy: RedirectPolicy) -> bool {
    match form {
        PolicyForm::Nothing => policy is Never,
        PolicyForm::Word(word) => (word@ == "none"@ && policy is Never) || (word@ == "*"@
            && policy is All),
        PolicyForm::List(suffixes) => policy == RedirectPolicy::Domains(suffixes),
    }
}

/// A form spells at most one policy, so a policy is read back from its
/// written form as it was.
pub proof fn lemma_form_spells_one_policy(
    form: PolicyForm,
    policy: RedirectPolicy,
    other: RedirectPolicy,
)
    requires
        spells(form, policy),
        spells(form, other),
    ensures
        policy == other,
{
    reveal_strlit("none");
    reveal_strlit("*");
    assert("none"@.len() != "*"@.len());
}

/// Whether `name` ends with one of `suffixes`.
pub open spec fn has_suffix_among(name: Seq<char>, suffixes: Seq<Seq<char>>) -> bool {
    exists|i: int| 0 <= i < suffixes.len() && (#[trigger] suffixes[i]).is_suffix_of(name)
}

impl RedirectPolicy {
    /// Whether the policy lets a URL with this domain have its redirect
    /// resolved. A URL without a domain counts as one with an empty domain.
    pub open spec fn allows(self, domain: Option<Seq<char>>) -> bool {
        match self {
            RedirectPolicy::Never => false,
            RedirectPolicy::All => true,
            RedirectPolicy::Domains(suffixes) => has_suffix_among(
                match domain {
                    Some(name) => name,
                    None => Seq::empty(),
                },
                suffixes.deep_view(),
            ),
        }
    }

    /// Tests a domain against the policy.
    pub fn test_domain(&self, domain: Option<&str>) -> (r: bool)
        ensures
            r == self.allows(opt_str_view(domain)),
    {
        match self {
            RedirectPolicy::Never => false,
            RedirectPolicy::All => true,
            RedirectPolicy::Domains(suffixes) => {
                let name = match domain {
                    Some(name) => name,
                    None => "",
                };
                proof {
                    reveal_strlit("");
                    assert(""@ =~= Seq::<char>::empty());
                }
                let mut i: usize = 0;
                while i < suffixes.len()
                    invariant
                        i <= suffixes.len(),
                        *self == RedirectPolicy::Domains(*suffixes),
                        name@ == match opt_str_view(domain) {
                            Some(name) => name,
                            None => Seq::empty(),
                        },
                        forall|j: int|
                            0 <= j < i ==> !(#[trigger] suffixes.deep_view()[j]).is_suffix_of(
                                name@,
                            ),
                    decreases suffixes.len() - i,
                {
                    if ends_with(name, suffixes[i].as_str()) {
                        assert(suffixes.deep_view()[i as int].is_suffix_of(name@));
                        return true;
                    }
                    i += 1;
                }
                false
            },
        }
    }

    /// Tests a URL against the policy, by its domain.
    pub fn test_url(&self, url: &Url) -> (r: bool)
        ensures
            r == self.allows(url_domain(*url)),
    {
        self.test_domain(url.domain())
    }

    /// The policy that a keyword stands for: `none` for `Never`, `*` for
    /// `All`. Any other word stands for no policy.
    pub fn from_keyword(word: &str) -> (r: Option<RedirectPolicy>)
        ensures
            word@ == "none"@ ==> r == Some(RedirectPolicy::Never),
            word@ == "*"@ ==> r == Some(RedirectPolicy::All),
            word@ != "none"@ && word@ != "*"@ ==> r is None,
    {
        proof {
            reveal_strlit("none");
            reveal_strlit("*");
            assert("none"@.len() != "*"@.len());
        }
        if same_text(word, "none") {
            Some(RedirectPolicy::Never)
        } else if same_text(word, "*") {
            Some(RedirectPolicy::All)
        } else {
            None
        }
    }

    /// Reads a policy from its written form. Fails on a word that is no
    /// keyword, and hands the word back.
    pub fn from_form(form: PolicyForm) -> (r: Result<RedirectPolicy, UnknownPolicy>)
        ensures
            match r {
                Ok(policy) => spells(form, policy),
                Err(unknown) => form == PolicyForm::Word(unknown.word) && unknown.word@ != "none"@
                    && unknown.word@ != "*"@,
            },
    {
        match form {
            PolicyForm::Nothing => Ok(RedirectPolicy::Never),
            PolicyForm::Word(word) => match RedirectPolicy::from_keyword(word.as_str()) {
                Some(policy) => Ok(policy),
                None => Err(UnknownPolicy { word }),
            },
            PolicyForm::List(suffixes) => Ok(RedirectPolicy::Domains(suffixes)),
        }
    }

    /// Writes the policy in its form: `Never` as the word `none`, `All` as
    /// the word `*`, and a policy of domains as the list of its suffixes.
    pub fn into_form(self) -> (form: PolicyForm)
        ensures
            spells(form, self),
            form !is Nothing,
    {
        match self {
            RedirectPolicy::Never => PolicyForm::Word("none".to_owned()),
            RedirectPolicy::All => PolicyForm::Word("*".to_owned()),
            RedirectPolicy::Domains(suffixes) => PolicyForm::List(suffixes),
        }
    }
}

} // verus!
