//! Bounded histories: the rolling throughput window, the saved test
//! history, and the parts of the saved history that the dashboard shows.
use vstd::prelude::*;
use crate::text::{decimal, push_decimal};
use vstd::utf8::encode_utf8;

verus! {

/// Samples kept in a rolling throughput history (about thirty seconds at two
/// samples a second).
pub const ROLLING_WINDOW: usize = 60;

/// Results kept in the saved test history.
pub const HISTORY_LIMIT: usize = 1000;

/// Results shown at once in the dashboard's history graph.
pub const DASHBOARD_HISTORY_WINDOW: usize = 20;

/// Results the history graph moves by per pan.
pub const DASHBOARD_HISTORY_STEP: usize = 5;

/// `items` with `item` appended, keeping only the newest `cap` entries.
pub open spec fn keep_newest<T>(items: Seq<T>, item: T, cap: nat) -> Seq<T> {
    let s = items.push(item);
    if s.len() > cap {
        s.subrange(s.len() - cap, s.len() as int)
    } else {
        s
    }
}

/// Records a throughput sample, dropping the oldest one when the window is
/// over full.
pub fn update_speed_history<T>(history: &mut Vec<T>, sample: T)
    ensures
        final(history)@ == (if old(history)@.len() + 1 > ROLLING_WINDOW {
            old(history)@.push(sample).drop_first()
        } else {
            old(history)@.push(sample)
        }),
{
    history.push(sample);
    if history.len() > ROLLING_WINDOW {
        history.remove(0);
    }
}

/// A rolling history that holds at most a window of samples still does so
/// after a sample is recorded, keeps its newest samples in order, and ends
/// with the new sample.
pub proof fn lemma_rolling_window_bounded<T>(old_history: Seq<T>, sample: T)
    requires
        old_history.len() <= ROLLING_WINDOW,
    ensures
        ({
            let new_history = if old_history.len() + 1 > ROLLING_WINDOW {
                old_history.push(sample).drop_first()
            } else {
                old_history.push(sample)
            };
            &&& new_history.len() <= ROLLING_WINDOW
            &&& new_history.last() == sample
            &&& new_history == keep_newest(old_history, sample, ROLLING_WINDOW as nat)
        }),
{
    let s = old_history.push(sample);
    if s.len() > ROLLING_WINDOW {
        assert(s.drop_first() =~= s.subrange(s.len() - ROLLING_WINDOW, s.len() as int));
    }
}

/// Appends a result to the saved history, keeping only the newest
/// `HISTORY_LIMIT` results.
pub fn append_to_history<T>(history: &mut Vec<T>, item: T)
    ensures
        final(history)@ == keep_newest(old(history)@, item, HISTORY_LIMIT as nat),
{
    history.push(item);
    let n = history.len();
    if n > HISTORY_LIMIT {
        let newest = history.split_off(n - HISTORY_LIMIT);
        *history = newest;
    }
}

/// The saved history never holds more than `HISTORY_LIMIT` results, its last
/// entry is the one just appended, and what it keeps of the earlier ones is
/// their newest part, in order.
pub proof fn lemma_history_capped<T>(items: Seq<T>, item: T)
    ensures
        keep_newest(items, item, HISTORY_LIMIT as nat).len() <= HISTORY_LIMIT,
        keep_newest(items, item, HISTORY_LIMIT as nat).last() == item,
        items.len() < HISTORY_LIMIT ==> keep_newest(items, item, HISTORY_LIMIT as nat) == items.push(
            item,
        ),
        forall|k: int|
            0 <= k < keep_newest(items, item, HISTORY_LIMIT as nat).len() - 1 ==> #[trigger] keep_newest(
                items,
                item,
                HISTORY_LIMIT as nat,
            )[k] == items[items.len() - (keep_newest(items, item, HISTORY_LIMIT as nat).len() - 1)
                + k],
{
}

// ─────────────────────────────────────────────────────────────────────────
// History graph window
// ─────────────────────────────────────────────────────────────────────────

/// The first result of the newest full window of a history of `n` results.
pub open spec fn newest_start(n: nat) -> nat {
    if n > DASHBOARD_HISTORY_WINDOW {
        (n - DASHBOARD_HISTORY_WINDOW) as nat
    } else {
        0
    }
}

/// The first result shown: the newest window when following the newest
/// results, else the chosen start held within the history.
pub open spec fn window_start(n: nat, start: nat, follow_newest: bool) -> nat {
    if follow_newest {
        newest_start(n)
    } else if start < newest_start(n) {
        start
    } else {
        newest_start(n)
    }
}

/// How many results the graph shows at once.
pub open spec fn window_len(n: nat) -> nat {
    if n < DASHBOARD_HISTORY_WINDOW {
        n
    } else {
        DASHBOARD_HISTORY_WINDOW as nat
    }
}

/// The newest start that still shows a full window.
pub fn newest_window_start(n: usize) -> (r: usize)
    ensures
        r == newest_start(n as nat),
{
    n.saturating_sub(DASHBOARD_HISTORY_WINDOW)
}

/// The results `start..end` that the history graph shows, out of `n`.
pub fn history_graph_window(n: usize, start: usize, follow_newest: bool) -> (r: (usize, usize))
    ensures
        r.0 == window_start(n as nat, start as nat, follow_newest),
        r.1 == r.0 + window_len(n as nat),
        r.0 <= r.1 <= n,
{
    let len = if n < DASHBOARD_HISTORY_WINDOW {
        n
    } else {
        DASHBOARD_HISTORY_WINDOW
    };
    let max_start = n - len;
    let first = if follow_newest {
        max_start
    } else if start < max_start {
        start
    } else {
        max_start
    };
    (first, first + len)
}

/// The label under the oldest point shown: `oldest` at the start of the
/// history, else the one-based number of that result.
pub fn graph_left_label(start: usize) -> (r: String)
    requires
        start < usize::MAX,
    ensures
        r@ == (if start == 0 {
            "oldest"@
        } else {
            "#"@ + decimal((start + 1) as nat)
        }),
{
    if start == 0 {
        String::from_str("oldest")
    } else {
        let mut s = String::from_str("#");
        push_decimal(&mut s, (start + 1) as u64);
        s
    }
}

/// The label under the newest point shown: `newest` at the end of the
/// history, else the number of that result and an arrow.
pub fn graph_right_label(end: usize, n: usize) -> (r: String)
    ensures
        r@ == (if end >= n {
            "newest"@
        } else {
            "#"@ + decimal(end as nat) + " →"@
        }),
{
    if end >= n {
        String::from_str("newest")
    } else {
        let mut s = String::from_str("#");
        push_decimal(&mut s, end as u64);
        s.append(" →");
        s
    }
}

/// The position text under the graph: the shown range with the pan keys
/// when that fits in `width` bytes, the shown range alone otherwise.
pub fn graph_footer(start: usize, end: usize, n: usize, width: u16) -> (r: String)
    requires
        start < usize::MAX,
    ensures
        ({
            let range = decimal((start + 1) as nat) + "-"@ + decimal(end as nat) + " of "@ + decimal(
                n as nat,
            );
            let verbose = range + "  [← older] [→ newer] [Home oldest] [End newest]"@;
            r@ == (if ((encode_utf8(verbose).len() as usize) as u16) <= width {
                verbose
            } else {
                range
            })
        }),
{
    let mut compact = String::new();
    push_decimal(&mut compact, (start + 1) as u64);
    compact.append("-");
    push_decimal(&mut compact, end as u64);
    compact.append(" of ");
    push_decimal(&mut compact, n as u64);
    let mut verbose = compact.clone();
    verbose.append("  [← older] [→ newer] [Home oldest] [End newest]");
    let bytes = verbose.as_str().len();
    if (bytes as u16) <= width {
        verbose
    } else {
        compact
    }
}

/// The window always lies inside the history and shows as many results as
/// the history has, up to the window size.
pub proof fn lemma_window_in_bounds(n: nat, start: nat, follow_newest: bool)
    ensures
        window_start(n, start, follow_newest) + window_len(n) <= n,
        window_len(n) <= DASHBOARD_HISTORY_WINDOW,
        follow_newest ==> window_start(n, start, follow_newest) + window_len(n) == n,
{
}

/// When not following the newest results, the graph starts where it was
/// asked to whenever a full window (or the whole history, when it is
/// shorter than a window) fits from there; only a start too close to the
/// end is moved back to the newest full window. In particular the start of
/// the history shows the oldest results. When following the newest, the
/// window ends at the newest result.
pub proof fn lemma_window_starts_where_asked(n: nat, start: nat)
    ensures
        start + DASHBOARD_HISTORY_WINDOW <= n ==> window_start(n, start, false) == start,
        start + DASHBOARD_HISTORY_WINDOW > n && n >= DASHBOARD_HISTORY_WINDOW ==> window_start(
            n,
            start,
            false,
        ) == n - DASHBOARD_HISTORY_WINDOW,
        n < DASHBOARD_HISTORY_WINDOW ==> window_start(n, start, false) == 0,
        window_start(n, 0, false) == 0,
        n >= DASHBOARD_HISTORY_WINDOW ==> window_len(n) == DASHBOARD_HISTORY_WINDOW,
        n < DASHBOARD_HISTORY_WINDOW ==> window_len(n) == n,
        window_start(n, start, true) + window_len(n) == n,
{
}

// ─────────────────────────────────────────────────────────────────────────
// History table
// ─────────────────────────────────────────────────────────────────────────

/// The rows `start..end` of a history of `len` results that the history
/// table shows when scrolled by `scroll` in an area `height` rows high (three
/// rows go to the frame and the header).
pub fn history_table_rows(len: usize, scroll: usize, height: u16) -> (r: (usize, usize))
    ensures
        r.0 == (if scroll < len {
            scroll
        } else {
            len
        }),
        r.1 == (if r.0 + (if height >= 3 {
            height - 3
        } else {
            0
        }) < len {
            r.0 + (if height >= 3 {
                height - 3
            } else {
                0
            })
        } else {
            len as int
        }),
        r.0 <= r.1 <= len,
{
    let first = if scroll < len {
        scroll
    } else {
        len
    };
    let room = height.saturating_sub(3) as usize;
    let left = len - first;
    let take = if room < left {
        room
    } else {
        left
    };
    (first, first + take)
}

} // verus!
