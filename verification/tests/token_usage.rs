use codex_core::token_usage::{FinalOutput, TokenUsage, TokenUsageInfo, BASELINE_TOKENS};

fn usage(input: i64, cached: i64, output: i64, reasoning: i64, total: i64) -> TokenUsage {
    TokenUsage {
        input_tokens: input,
        cached_input_tokens: cached,
        output_tokens: output,
        reasoning_output_tokens: reasoning,
        total_tokens: total,
    }
}

#[test]
fn usage_components() {
    let u = usage(100, 30, 50, 10, 150);
    assert!(!u.is_zero());
    assert!(TokenUsage::default().is_zero());
    assert_eq!(u.cached_input(), 30);
    assert_eq!(u.non_cached_input(), 70);
    assert_eq!(u.blended_total(), 120);
    assert_eq!(u.tokens_in_context_window(), 150);
    let odd = usage(10, -5, -3, 0, 0);
    assert_eq!(odd.cached_input(), 0);
    assert_eq!(odd.non_cached_input(), 10);
    assert_eq!(odd.blended_total(), 10);
    assert_eq!(usage(5, 20, 0, 0, 0).non_cached_input(), 0);
}

#[test]
fn context_window_share_subtracts_baseline() {
    assert_eq!(BASELINE_TOKENS, 12_000);
    assert_eq!(usage(0, 0, 0, 0, 0).context_window_share(12_000), None);
    assert_eq!(usage(0, 0, 0, 0, 5_000).context_window_share(112_000), Some((100_000, 100_000)));
    assert_eq!(usage(0, 0, 0, 0, 62_000).context_window_share(112_000), Some((50_000, 100_000)));
    assert_eq!(usage(0, 0, 0, 0, 500_000).context_window_share(112_000), Some((0, 100_000)));
}

#[test]
fn add_assign_sums_fields() {
    let mut a = usage(1, 2, 3, 4, 5);
    a.add_assign(&usage(10, 20, 30, 40, 50));
    assert_eq!(a, usage(11, 22, 33, 44, 55));
}

#[test]
fn appending_accumulates_totals() {
    let first = TokenUsageInfo::new_or_append(&None, &Some(usage(10, 0, 5, 0, 15)), Some(1000)).unwrap();
    assert_eq!(first.total_token_usage, usage(10, 0, 5, 0, 15));
    assert_eq!(first.model_context_window, Some(1000));
    let mut second = first;
    second.append_last_usage(&usage(1, 1, 1, 1, 3));
    assert_eq!(second.total_token_usage, usage(11, 1, 6, 1, 18));
    assert_eq!(second.last_token_usage, usage(1, 1, 1, 1, 3));
    assert_eq!(TokenUsageInfo::new_or_append(&None, &None, Some(5)), None);
    let kept = TokenUsageInfo::new_or_append(&Some(second), &None, None).unwrap();
    assert_eq!(kept, second);
}

#[test]
fn filling_the_window() {
    let full = TokenUsageInfo::full_context_window(4000);
    assert_eq!(full.total_token_usage.total_tokens, 4000);
    assert_eq!(full.last_token_usage.total_tokens, 4000);
    assert_eq!(full.model_context_window, Some(4000));
    let mut info = TokenUsageInfo::new_or_append(&None, &Some(usage(0, 0, 0, 0, 3000)), None).unwrap();
    info.fill_to_context_window(4000);
    assert_eq!(info.total_token_usage, usage(0, 0, 0, 0, 4000));
    assert_eq!(info.last_token_usage, usage(0, 0, 0, 0, 1000));
    let mut over = TokenUsageInfo::new_or_append(&None, &Some(usage(0, 0, 0, 0, 5000)), None).unwrap();
    over.fill_to_context_window(4000);
    assert_eq!(over.last_token_usage.total_tokens, 0);
}

#[test]
fn final_output_wraps_usage() {
    let u = usage(1, 0, 1, 0, 2);
    assert_eq!(FinalOutput::from_usage(u).token_usage, u);
}
