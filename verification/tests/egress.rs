use wif::ai::{AiError, EgressFilter};
use wif::domain::EgressPolicy;

fn filter() -> EgressFilter {
    EgressFilter::new(EgressPolicy {
        sensitivity_level: 0,
        max_tokens: 100,
        blocked_content_types: vec!["application/pdf".to_string()],
    })
}

fn policy() -> EgressPolicy {
    EgressPolicy {
        sensitivity_level: 1,
        max_tokens: 1000,
        blocked_content_types: vec!["application/pdf".to_string()],
    }
}

#[test]
fn allows_text_plain() {
    let result = filter().check("hello world", "text/plain");
    assert!(result.is_ok());
}

#[test]
fn blocks_pdf_content_type() {
    let result = filter().check("data", "application/pdf");
    assert!(matches!(result, Err(AiError::EgressBlocked(_))));
}

#[test]
fn blocks_when_over_budget() {
    // 404 chars -> 101 estimated tokens, one over the budget of 100
    let long_text = "a".repeat(404);
    let result = filter().check(&long_text, "text/plain");
    assert!(matches!(result, Err(AiError::TokenBudgetExceeded { .. })));
}

#[test]
fn allows_exactly_at_budget() {
    // 400 chars -> exactly 100 tokens
    let text = "a".repeat(400);
    let result = filter().check(&text, "text/plain");
    assert!(result.is_ok());
}

#[test]
fn allows_unblocked_content_type() {
    assert!(policy().allows_content_type("text/plain"));
}

#[test]
fn rejects_blocked_content_type() {
    assert!(!policy().allows_content_type("application/pdf"));
}

#[test]
fn within_budget_when_equal() {
    assert!(policy().is_within_budget(1000));
}

#[test]
fn exceeds_budget_when_over() {
    assert!(!policy().is_within_budget(1001));
}

#[test]
fn check_returns_content_unchanged() {
    let result = filter().check("hello world", "text/plain");
    assert_eq!(result.unwrap(), "hello world");
}

#[test]
fn blocked_message_names_the_content_type() {
    match filter().check("data", "application/pdf") {
        Err(AiError::EgressBlocked(m)) => {
            assert_eq!(m, "content type 'application/pdf' is not allowed by egress policy")
        }
        _ => panic!("expected a blocked content type"),
    }
}

#[test]
fn budget_error_reports_used_and_max() {
    let text = "a".repeat(404);
    match filter().check(&text, "text/plain") {
        Err(AiError::TokenBudgetExceeded { used, max }) => {
            assert_eq!(used, 101);
            assert_eq!(max, 100);
        }
        _ => panic!("expected an exceeded budget"),
    }
}

#[test]
fn blocked_type_wins_over_budget() {
    let text = "a".repeat(4000);
    let result = filter().check(&text, "application/pdf");
    assert!(matches!(result, Err(AiError::EgressBlocked(_))));
}

#[test]
fn estimate_counts_characters() {
    assert_eq!(EgressFilter::estimate_tokens(""), 0);
    assert_eq!(EgressFilter::estimate_tokens("abc"), 0);
    assert_eq!(EgressFilter::estimate_tokens("abcdefgh"), 2);
    // four characters (twelve bytes of UTF-8) are one token
    assert_eq!(EgressFilter::estimate_tokens("你好你好"), 1);
    assert_eq!(EgressFilter::estimate_tokens("标题"), 0);
}

#[test]
fn empty_block_list_allows_everything() {
    let p = EgressPolicy { sensitivity_level: 0, max_tokens: 0, blocked_content_types: vec![] };
    assert!(p.allows_content_type("application/pdf"));
    assert!(p.is_within_budget(0));
    assert!(!p.is_within_budget(1));
}

#[test]
fn permissive_policy_blocks_nothing_within_its_budget() {
    let p = EgressPolicy::permissive();
    assert_eq!(p.sensitivity_level, 0);
    assert_eq!(p.max_tokens, 32_000);
    assert!(p.blocked_content_types.is_empty());
    assert!(p.allows_content_type("application/pdf"));
    assert!(p.is_within_budget(32_000));
    assert!(!p.is_within_budget(32_001));
}
