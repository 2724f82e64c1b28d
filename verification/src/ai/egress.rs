//! Enforcement of an [`EgressPolicy`] before content is sent to an AI provider.

use vstd::prelude::*;

use crate::ai::error::AiError;
use crate::domain::egress_policy::EgressPolicy;
use crate::text::chars_of;

verus! {

broadcast use vstd::string::group_string_axioms;

/// The rough token estimate of a text: one token per four characters, rounded down.
pub open spec fn token_estimate(text: Seq<char>) -> u32 {
    (text.len() / 4) as u32
}

/// The message given when `content_type` is refused.
pub open spec fn blocked_message(content_type: Seq<char>) -> Seq<char> {
    "content type '"@ + content_type + "' is not allowed by egress policy"@
}

/// Enforces an [`EgressPolicy`] before content is sent to an AI provider.
pub struct EgressFilter {
    policy: EgressPolicy,
}

impl EgressFilter {
    /// The policy this filter enforces.
    pub closed spec fn policy(&self) -> EgressPolicy {
        self.policy
    }

    /// Create a new filter wrapping `policy`.
    pub fn new(policy: EgressPolicy) -> (r: Self)
        ensures
            r.policy() == policy,
    {
        EgressFilter { policy }
    }

    /// Validate `content` against the policy.
    ///
    /// Returns the content if allowed; refuses it when its content type is
    /// blocked, and otherwise when its token estimate exceeds the budget.
    pub fn check(&self, content: &str, content_type: &str) -> (r: Result<String, AiError>)
        ensures
            self.policy().blocks(content_type@) ==> (r matches Err(AiError::EgressBlocked(m))
                && m@ == blocked_message(content_type@)),
            !self.policy().blocks(content_type@) && token_estimate(content@)
                > self.policy().max_tokens ==> (r matches Err(
                AiError::TokenBudgetExceeded { used, max },
            ) && used == token_estimate(content@) && max == self.policy().max_tokens),
            !self.policy().blocks(content_type@) && token_estimate(content@)
                <= self.policy().max_tokens ==> (r matches Ok(s) && s@ == content@),
    {
        if !self.policy.allows_content_type(content_type) {
            let mut msg = String::from_str("content type '");
            msg.append(content_type);
            msg.append("' is not allowed by egress policy");
            return Err(AiError::EgressBlocked(msg));
        }
        let estimated = Self::estimate_tokens(content);
        if !self.policy.is_within_budget(estimated) {
            return Err(AiError::TokenBudgetExceeded { used: estimated, max: self.policy.max_tokens });
        }
        Ok(String::from_str(content))
    }

    /// Rough token estimate: one token per four characters, rounded down.
    pub fn estimate_tokens(text: &str) -> (r: u32)
        ensures
            r == token_estimate(text@),
    {
        let chars = chars_of(text);
        (chars.len() / 4) as u32
    }
}

} // verus!
