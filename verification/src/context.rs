//! The context manager's budget: when the accumulated history must be
//! compacted, and what compaction does to it.
use vstd::prelude::*;
use crate::protocol::ResponseItem;

verus! {

/// The budget the runtime targets before compacting: the model's context
/// window scaled by the configured percentage.
pub fn effective_context_window(context_window: i64, percent: i64) -> (r: i64)
    requires
        0 <= context_window,
        0 <= percent <= 100,
        context_window * percent <= i64::MAX,
    ensures
        r == context_window * percent / 100,
{
    proof {
        assert(context_window * percent >= 0) by (nonlinear_arith)
            requires
                context_window >= 0,
                percent >= 0,
        ;
        assert(context_window * percent / 100 <= context_window * percent) by (nonlinear_arith)
            requires
                context_window * percent >= 0,
        ;
    }
    (context_window * percent) / 100
}

/// Whether the history must be compacted now: a configured auto-compact
/// limit wins; otherwise the effective context window is the budget; a model
/// without a known window is never compacted.
pub open spec fn should_compact_spec(
    used_tokens: i64,
    context_window: Option<i64>,
    percent: i64,
    auto_compact_token_limit: Option<i64>,
) -> bool {
    match auto_compact_token_limit {
        Some(limit) => used_tokens >= limit,
        None => match context_window {
            Some(w) => used_tokens >= w * percent / 100,
            None => false,
        },
    }
}

pub fn should_compact(
    used_tokens: i64,
    context_window: Option<i64>,
    percent: i64,
    auto_compact_token_limit: Option<i64>,
) -> (r: bool)
    requires
        0 <= percent <= 100,
        (match context_window {
            Some(w) => 0 <= w && w * percent <= i64::MAX,
            None => true,
        }),
    ensures
        r == should_compact_spec(used_tokens, context_window, percent, auto_compact_token_limit),
{
    match auto_compact_token_limit {
        Some(limit) => used_tokens >= limit,
        None => match context_window {
            Some(w) => {
                let budget = effective_context_window(w, percent);
                used_tokens >= budget
            },
            None => false,
        },
    }
}

/// Compact a history: the first `prefix_len` items are replaced by one
/// summary item; everything after them is kept, in order.
pub fn compact_history(
    items: Vec<ResponseItem>,
    prefix_len: usize,
    summary: ResponseItem,
) -> (r: Vec<ResponseItem>)
    requires
        prefix_len <= items@.len(),
    ensures
        r@ == seq![summary] + items@.skip(prefix_len as int),
{
    let mut out: Vec<ResponseItem> = Vec::new();
    out.push(summary);
    let n = items.len();
    for i in prefix_len..n
        invariant
            prefix_len <= n,
            n == items@.len(),
            out@.len() >= 1,
            out@[0] == summary,
            out@ =~= seq![summary] + items@.subrange(prefix_len as int, i as int),
    {
        out.push(items[i].duplicate());
        proof {
            assert(items@.subrange(prefix_len as int, i + 1) =~= items@.subrange(
                prefix_len as int,
                i as int,
            ).push(items@[i as int]));
            assert(out@ =~= seq![summary] + items@.subrange(prefix_len as int, i + 1));
        }
    }
    proof {
        assert(items@.subrange(prefix_len as int, n as int) =~= items@.skip(prefix_len as int));
    }
    out
}

} // verus!
