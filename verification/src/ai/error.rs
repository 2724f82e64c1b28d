//! Errors of the AI layer.

use vstd::prelude::*;

verus! {

/// AI-specific errors.
#[derive(Debug)]
pub enum AiError {
    /// No AI provider has been configured.
    NoProvider,
    /// The request to the provider failed; the text says why.
    RequestFailed(String),
    /// The content was refused by the egress policy; the text says why.
    EgressBlocked(String),
    /// The content needs more tokens than the policy allows.
    TokenBudgetExceeded { used: u32, max: u32 },
    /// Any other failure.
    Other(anyhow::Error),
}

} // verus!
