//! The policy that decides what content may leave the system.

use vstd::prelude::*;

use crate::text::str_eq;

verus! {

/// Policy controlling what content may egress from the system (e.g. to an AI provider).
pub struct EgressPolicy {
    /// 0 = public, higher values = more sensitive.
    pub sensitivity_level: u8,
    /// Maximum number of tokens that may be sent in a single request.
    pub max_tokens: u32,
    /// MIME types (or application-defined labels) that are never allowed to egress.
    pub blocked_content_types: Vec<String>,
}

impl EgressPolicy {
    /// The application's default policy: public sensitivity, no blocked
    /// content type, and a generous budget of 32 000 tokens per request.
    pub fn permissive() -> (r: Self)
        ensures
            r.sensitivity_level == 0,
            r.max_tokens == 32_000,
            r.blocked_content_types@.len() == 0,
    {
        EgressPolicy { sensitivity_level: 0, max_tokens: 32_000, blocked_content_types: Vec::new() }
    }

    /// Whether `ct` is one of the blocked content types.
    pub open spec fn blocks(&self, ct: Seq<char>) -> bool {
        exists|i: int| 0 <= i < self.blocked_content_types@.len() && #[trigger] self.blocked_content_types@[i]@ == ct
    }

    /// Returns `true` when the given content type is not in the blocked list.
    pub fn allows_content_type(&self, ct: &str) -> (r: bool)
        ensures
            r == !self.blocks(ct@),
    {
        for i in 0..self.blocked_content_types.len()
            invariant
                forall|j: int| 0 <= j < i ==> #[trigger] self.blocked_content_types@[j]@ != ct@,
        {
            if str_eq(self.blocked_content_types[i].as_str(), ct) {
                return false;
            }
        }
        true
    }

    /// Returns `true` when the token count is within the allowed budget.
    pub fn is_within_budget(&self, tokens: u32) -> (r: bool)
        ensures
            r == (tokens <= self.max_tokens),
    {
        tokens <= self.max_tokens
    }
}

} // verus!
