//! Token accounting: usage of one response, running totals over a thread, and
//! how much of the context window is left.
use vstd::prelude::*;

verus! {

/// Tokens spent by a response, or over a thread.
#[derive(Debug, Clone, Copy, PartialEq, Eq, Structural)]
pub struct TokenUsage {
    pub input_tokens: i64,
    pub cached_input_tokens: i64,
    pub output_tokens: i64,
    pub reasoning_output_tokens: i64,
    pub total_tokens: i64,
}

/// Nothing spent.
pub open spec fn zero_usage() -> TokenUsage {
    TokenUsage {
        input_tokens: 0,
        cached_input_tokens: 0,
        output_tokens: 0,
        reasoning_output_tokens: 0,
        total_tokens: 0,
    }
}

/// The field-wise sum of two usages.
pub open spec fn sum_usage(a: TokenUsage, b: TokenUsage) -> TokenUsage {
    TokenUsage {
        input_tokens: (a.input_tokens + b.input_tokens) as i64,
        cached_input_tokens: (a.cached_input_tokens + b.cached_input_tokens) as i64,
        output_tokens: (a.output_tokens + b.output_tokens) as i64,
        reasoning_output_tokens: (a.reasoning_output_tokens + b.reasoning_output_tokens) as i64,
        total_tokens: (a.total_tokens + b.total_tokens) as i64,
    }
}

/// Every field of the sum fits in an `i64`.
pub open spec fn sum_fits(a: TokenUsage, b: TokenUsage) -> bool {
    &&& i64::MIN <= a.input_tokens + b.input_tokens <= i64::MAX
    &&& i64::MIN <= a.cached_input_tokens + b.cached_input_tokens <= i64::MAX
    &&& i64::MIN <= a.output_tokens + b.output_tokens <= i64::MAX
    &&& i64::MIN <= a.reasoning_output_tokens + b.reasoning_output_tokens <= i64::MAX
    &&& i64::MIN <= a.total_tokens + b.total_tokens <= i64::MAX
}

/// `x`, or zero when negative.
pub open spec fn clamp0(x: int) -> int {
    if x < 0 {
        0
    } else {
        x
    }
}

/// Tokens reserved for instructions and tools, not counted as usable context.
pub const BASELINE_TOKENS: i64 = 12000;

/// Usage with nothing spent.
impl Default for TokenUsage {
    fn default() -> (r: TokenUsage)
        ensures
            r == zero_usage(),
    {
        TokenUsage {
            input_tokens: 0,
            cached_input_tokens: 0,
            output_tokens: 0,
            reasoning_output_tokens: 0,
            total_tokens: 0,
        }
    }
}

impl TokenUsage {
    /// No tokens in total.
    pub fn is_zero(&self) -> (r: bool)
        ensures
            r == (self.total_tokens == 0),
    {
        self.total_tokens == 0
    }

    /// Cached input tokens, never negative.
    pub fn cached_input(&self) -> (r: i64)
        ensures
            r == clamp0(self.cached_input_tokens as int),
    {
        if self.cached_input_tokens < 0 {
            0
        } else {
            self.cached_input_tokens
        }
    }

    /// Input tokens that were not cached, never negative.
    pub fn non_cached_input(&self) -> (r: i64)
        requires
            self.input_tokens - clamp0(self.cached_input_tokens as int) >= i64::MIN,
        ensures
            r == clamp0(self.input_tokens - clamp0(self.cached_input_tokens as int)),
    {
        let d = self.input_tokens - self.cached_input();
        if d < 0 {
            0
        } else {
            d
        }
    }

    /// Uncached input plus output, never negative.
    pub fn blended_total(&self) -> (r: i64)
        requires
            self.input_tokens - clamp0(self.cached_input_tokens as int) >= i64::MIN,
            clamp0(self.input_tokens - clamp0(self.cached_input_tokens as int)) + clamp0(
                self.output_tokens as int,
            ) <= i64::MAX,
        ensures
            r == clamp0(self.input_tokens - clamp0(self.cached_input_tokens as int)) + clamp0(
                self.output_tokens as int,
            ),
    {
        let out = if self.output_tokens < 0 {
            0
        } else {
            self.output_tokens
        };
        self.non_cached_input() + out
    }

    /// The tokens that occupy the context window.
    pub fn tokens_in_context_window(&self) -> (r: i64)
        ensures
            r == self.total_tokens,
    {
        self.total_tokens
    }

    /// How much of a context window is left, as the pair (remaining, usable):
    /// the window less the baseline is usable, and usage beyond the baseline
    /// takes from it; `None` when the window is no larger than the baseline.
    pub fn context_window_share(&self, context_window: i64) -> (r: Option<(i64, i64)>)
        ensures
            context_window <= BASELINE_TOKENS ==> r is None,
            context_window > BASELINE_TOKENS ==> r == Some(
                (
                    clamp0(
                        (context_window - BASELINE_TOKENS) - clamp0(
                            self.total_tokens - BASELINE_TOKENS,
                        ),
                    ) as i64,
                    (context_window - BASELINE_TOKENS) as i64,
                ),
            ),
    {
        if context_window <= BASELINE_TOKENS {
            return None;
        }
        let effective_window = context_window - BASELINE_TOKENS;
        let used = if self.total_tokens < BASELINE_TOKENS {
            0
        } else {
            self.total_tokens - BASELINE_TOKENS
        };
        let remaining = if used >= effective_window {
            0
        } else {
            effective_window - used
        };
        Some((remaining, effective_window))
    }

    /// Adds `other` to this usage, field by field.
    pub fn add_assign(&mut self, other: &TokenUsage)
        requires
            sum_fits(*old(self), *other),
        ensures
            *final(self) == sum_usage(*old(self), *other),
    {
        self.input_tokens = self.input_tokens + other.input_tokens;
        self.cached_input_tokens = self.cached_input_tokens + other.cached_input_tokens;
        self.output_tokens = self.output_tokens + other.output_tokens;
        self.reasoning_output_tokens = self.reasoning_output_tokens + other.reasoning_output_tokens;
        self.total_tokens = self.total_tokens + other.total_tokens;
    }
}

/// Usage of the last response and of the whole thread, with the context window.
#[derive(Debug, Clone, Copy, PartialEq, Eq, Structural)]
pub struct TokenUsageInfo {
    pub total_token_usage: TokenUsage,
    pub last_token_usage: TokenUsage,
    pub model_context_window: Option<i64>,
}

/// `info` after one more response that used `last`.
pub open spec fn appended(info: TokenUsageInfo, last: TokenUsage) -> TokenUsageInfo {
    TokenUsageInfo {
        total_token_usage: sum_usage(info.total_token_usage, last),
        last_token_usage: last,
        model_context_window: info.model_context_window,
    }
}

/// The info that `new_or_append` returns.
pub open spec fn spec_new_or_append(
    info: Option<TokenUsageInfo>,
    last: Option<TokenUsage>,
    model_context_window: Option<i64>,
) -> Option<TokenUsageInfo> {
    if info is None && last is None {
        None
    } else {
        let base = match info {
            Some(i) => i,
            None => TokenUsageInfo {
                total_token_usage: zero_usage(),
                last_token_usage: zero_usage(),
                model_context_window,
            },
        };
        let added = match last {
            Some(l) => appended(base, l),
            None => base,
        };
        Some(
            match model_context_window {
                Some(w) => TokenUsageInfo { model_context_window: Some(w), ..added },
                None => added,
            },
        )
    }
}

/// The info of a context window that is entirely used.
pub open spec fn spec_filled(info: TokenUsageInfo, context_window: i64) -> TokenUsageInfo {
    TokenUsageInfo {
        total_token_usage: TokenUsage { total_tokens: context_window, ..zero_usage() },
        last_token_usage: TokenUsage {
            total_tokens: clamp0(context_window - info.total_token_usage.total_tokens) as i64,
            ..zero_usage()
        },
        model_context_window: Some(context_window),
    }
}

impl TokenUsageInfo {
    /// Starts or extends the accounting: nothing when there is neither an earlier
    /// info nor a new usage; otherwise the earlier info (or an empty one) with the
    /// new usage added, and the window replaced when one is given.
    pub fn new_or_append(
        info: &Option<TokenUsageInfo>,
        last: &Option<TokenUsage>,
        model_context_window: Option<i64>,
    ) -> (r: Option<TokenUsageInfo>)
        requires
            (info.is_some() && last.is_some()) ==> sum_fits(info->0.total_token_usage, last->0),
        ensures
            r == spec_new_or_append(*info, *last, model_context_window),
    {
        if info.is_none() && last.is_none() {
            return None;
        }
        let mut info = match info {
            Some(info) => *info,
            None => TokenUsageInfo {
                total_token_usage: TokenUsage::default(),
                last_token_usage: TokenUsage::default(),
                model_context_window,
            },
        };
        if let Some(last) = last {
            proof {
                assert(sum_fits(info.total_token_usage, *last)) by {
                    assert(sum_fits(zero_usage(), *last));
                }
            }
            info.append_last_usage(last);
        }
        if let Some(model_context_window) = model_context_window {
            info.model_context_window = Some(model_context_window);
        }
        Some(info)
    }

    /// Records one more response that used `last`.
    pub fn append_last_usage(&mut self, last: &TokenUsage)
        requires
            sum_fits(old(self).total_token_usage, *last),
        ensures
            *final(self) == appended(*old(self), *last),
    {
        self.total_token_usage.add_assign(last);
        self.last_token_usage = *last;
    }

    /// Marks the whole context window as used: the total becomes the window and
    /// the last usage becomes what was still free.
    pub fn fill_to_context_window(&mut self, context_window: i64)
        requires
            i64::MIN <= context_window - old(self).total_token_usage.total_tokens <= i64::MAX,
        ensures
            *final(self) == spec_filled(*old(self), context_window),
    {
        let previous_total = self.total_token_usage.total_tokens;
        let d = context_window - previous_total;
        let delta = if d < 0 {
            0
        } else {
            d
        };
        self.model_context_window = Some(context_window);
        self.total_token_usage = TokenUsage { total_tokens: context_window, ..TokenUsage::default() };
        self.last_token_usage = TokenUsage { total_tokens: delta, ..TokenUsage::default() };
    }

    /// An info whose context window is entirely used.
    pub fn full_context_window(context_window: i64) -> (r: TokenUsageInfo)
        ensures
            r == spec_filled(
                TokenUsageInfo {
                    total_token_usage: zero_usage(),
                    last_token_usage: zero_usage(),
                    model_context_window: Some(context_window),
                },
                context_window,
            ),
            r.total_token_usage.total_tokens == context_window,
            r.last_token_usage.total_tokens == clamp0(context_window as int),
    {
        let mut info = TokenUsageInfo {
            total_token_usage: TokenUsage::default(),
            last_token_usage: TokenUsage::default(),
            model_context_window: Some(context_window),
        };
        info.fill_to_context_window(context_window);
        info
    }
}

/// The usage reported when a turn finishes.
#[derive(Debug, Clone, Copy, PartialEq, Eq, Structural)]
pub struct FinalOutput {
    pub token_usage: TokenUsage,
}

impl FinalOutput {
    /// The final output of a usage.
    pub fn from_usage(token_usage: TokenUsage) -> (r: FinalOutput)
        ensures
            r.token_usage == token_usage,
    {
        FinalOutput { token_usage }
    }
}

/// Appending usages one after another adds them up: the total after two
/// appends is the earlier total plus both usages, and the last usage is the
/// second one.
pub proof fn law_append_accumulates(info: TokenUsageInfo, a: TokenUsage, b: TokenUsage)
    requires
        sum_fits(info.total_token_usage, a),
        sum_fits(sum_usage(info.total_token_usage, a), b),
    ensures
        appended(appended(info, a), b).total_token_usage.total_tokens == info.total_token_usage.total_tokens
            + a.total_tokens + b.total_tokens,
        appended(appended(info, a), b).total_token_usage.input_tokens == info.total_token_usage.input_tokens
            + a.input_tokens + b.input_tokens,
        appended(appended(info, a), b).last_token_usage == b,
        appended(appended(info, a), b).model_context_window == info.model_context_window,
{
}

/// A window given to `new_or_append` always replaces the one recorded, and
/// without one the recorded window stays.
pub proof fn law_new_or_append_window(
    info: TokenUsageInfo,
    last: Option<TokenUsage>,
    window: Option<i64>,
)
    ensures
        window matches Some(w) ==> spec_new_or_append(Some(info), last, window)->0.model_context_window
            == Some(w),
        window is None ==> spec_new_or_append(Some(info), last, window)->0.model_context_window
            == info.model_context_window,
{
}


/// Accounting a response on a thread adds its usage to the running totals,
/// field by field, and records it as the last usage; a thread without
/// earlier accounting starts its totals at that usage.
pub proof fn law_new_or_append_adds_usage(info: Option<TokenUsageInfo>, last: TokenUsage, window: Option<i64>)
    requires
        info matches Some(i) ==> sum_fits(i.total_token_usage, last),
    ensures
        spec_new_or_append(info, Some(last), window) is Some,
        ({
            let r = spec_new_or_append(info, Some(last), window)->0;
            let before = match info {
                Some(i) => i.total_token_usage,
                None => zero_usage(),
            };
            &&& r.total_token_usage.input_tokens == before.input_tokens + last.input_tokens
            &&& r.total_token_usage.cached_input_tokens == before.cached_input_tokens
                + last.cached_input_tokens
            &&& r.total_token_usage.output_tokens == before.output_tokens + last.output_tokens
            &&& r.total_token_usage.reasoning_output_tokens == before.reasoning_output_tokens
                + last.reasoning_output_tokens
            &&& r.total_token_usage.total_tokens == before.total_tokens + last.total_tokens
            &&& r.last_token_usage == last
        }),
{
}

/// Without a new usage, the accounting keeps its totals and last usage as
/// they were, and there is nothing to account when there was nothing before.
pub proof fn law_new_or_append_without_usage(info: Option<TokenUsageInfo>, window: Option<i64>)
    ensures
        info is None ==> spec_new_or_append(info, None, window) is None,
        info matches Some(i) ==> (spec_new_or_append(info, None, window) matches Some(r)
            && r.total_token_usage == i.total_token_usage && r.last_token_usage == i.last_token_usage),
{
}

} // verus!
