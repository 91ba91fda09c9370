//! Who may create a meeting: an allowlist of email suffixes, optionally
//! together with a verified email.
use vstd::prelude::*;

use crate::identity::RequiredUser;
use crate::text::{ends_with, has_suffix, is_split_of, split_commas, trim, trim_of};

verus! {

/// The settings that one decision on meeting creation reads.
pub struct PolicyConfig {
    /// Email suffixes that are allowed, as written; each is trimmed before use.
    pub allowed_domains: Vec<String>,
    /// Whether the email must also be verified.
    pub require_verification: bool,
}

/// One allowlist entry admits the account: trimmed, it is not empty, the
/// email ends with it, and the email is verified where that is required.
pub open spec fn domain_admits(
    domain: Seq<char>,
    email: Seq<char>,
    email_is_verified: bool,
    require_verification: bool,
) -> bool {
    let d = trim_of(domain);
    &&& d.len() > 0
    &&& has_suffix(email, d)
    &&& (require_verification ==> email_is_verified)
}

/// Some entry of the allowlist admits the account.
pub open spec fn permits(user: RequiredUser, config: PolicyConfig) -> bool {
    exists|i: int|
        0 <= i < config.allowed_domains@.len() && domain_admits(
            #[trigger] config.allowed_domains@[i]@,
            user.email@,
            user.email_is_verified,
            config.require_verification,
        )
}

impl PolicyConfig {
    /// Builds the settings from the two values as they are written: the
    /// allowlist as a comma separated list, absent meaning no entry; the
    /// verification flag on only when it reads exactly `true`.
    pub fn from_settings(allowed_domains: Option<String>, require_verification: Option<String>) -> (r: PolicyConfig)
        ensures
            allowed_domains is None ==> r.allowed_domains@.len() == 0,
            allowed_domains is Some ==> is_split_of(
                r.allowed_domains@.map_values(|p: String| p@),
                allowed_domains->0@,
                ',',
            ),
            r.require_verification == (require_verification is Some && require_verification->0@
                == "true"@),
    {
        let domains = match allowed_domains {
            Some(list) => split_commas(list.as_str()),
            None => Vec::new(),
        };
        let verification = match require_verification {
            Some(flag) => flag == "true".to_owned(),
            None => false,
        };
        PolicyConfig { allowed_domains: domains, require_verification: verification }
    }
}

/// Decides whether `user` may create a meeting: true exactly when some entry
/// of the allowlist admits the account. An empty allowlist admits no one, and
/// an entry that is blank after trimming matches nothing.
pub fn is_allowed(user: &RequiredUser, config: &PolicyConfig) -> (r: bool)
    ensures
        r == permits(*user, *config),
{
    let n = config.allowed_domains.len();
    let mut i: usize = 0;
    while i < n
        invariant
            n == config.allowed_domains@.len(),
            i <= n,
            forall|j: int|
                0 <= j < i ==> !domain_admits(
                    #[trigger] config.allowed_domains@[j]@,
                    user.email@,
                    user.email_is_verified,
                    config.require_verification,
                ),
        decreases n - i,
    {
        let domain = trim(config.allowed_domains[i].as_str());
        if !domain.is_empty() {
            let email_matches = ends_with(user.email.as_str(), domain);
            let admitted = if config.require_verification {
                email_matches && user.email_is_verified
            } else {
                email_matches
            };
            if admitted {
                return true;
            }
        }
        i = i + 1;
    }
    false
}

/// With no entry in the allowlist nobody is allowed, whatever the email and
/// its verification.
pub proof fn lemma_empty_allowlist_denies(user: RequiredUser, config: PolicyConfig)
    requires
        config.allowed_domains@.len() == 0,
    ensures
        !permits(user, config),
{
}

/// Where every entry of the allowlist is blank after trimming, nobody is
/// allowed: the empty suffix, which every email has, never counts.
pub proof fn lemma_blank_patterns_deny(user: RequiredUser, config: PolicyConfig)
    requires
        forall|i: int|
            0 <= i < config.allowed_domains@.len() ==> trim_of(
                #[trigger] config.allowed_domains@[i]@,
            ).len() == 0,
    ensures
        !permits(user, config),
{
}

/// One entry that admits the account is enough, wherever it stands in the
/// allowlist and whatever the others say.
pub proof fn lemma_one_pattern_suffices(user: RequiredUser, config: PolicyConfig, i: int)
    requires
        0 <= i < config.allowed_domains@.len(),
        domain_admits(
            config.allowed_domains@[i]@,
            user.email@,
            user.email_is_verified,
            config.require_verification,
        ),
    ensures
        permits(user, config),
{
}

} // verus!
