use adaptive_reasoner::consts::DEFAULT_MAX_TOKENS;
use adaptive_reasoner::llm_request::{calculate_remaining_tokens, checked_remaining_tokens};

#[test]
fn test_calculate_remaining_tokens_with_max_tokens() {
    let result = calculate_remaining_tokens(Some(1000), 200);
    assert_eq!(result, 800);
}

#[test]
fn test_calculate_remaining_tokens_with_none_max_tokens() {
    let result = calculate_remaining_tokens(None, 200);
    assert_eq!(result, DEFAULT_MAX_TOKENS - 200);
}

#[test]
fn test_calculate_remaining_tokens_exceeding_budget() {
    let result = calculate_remaining_tokens(Some(100), 150);
    assert_eq!(result, -50);
}

#[test]
fn checked_remaining_tokens_reports_overflow() {
    assert_eq!(checked_remaining_tokens(Some(1000), 200), Some(800));
    assert_eq!(checked_remaining_tokens(Some(i32::MIN), 1), None);
    assert_eq!(checked_remaining_tokens(Some(i32::MAX), -1), None);
    assert_eq!(checked_remaining_tokens(None, 0), Some(1024 * 1024));
}
