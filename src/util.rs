use vstd::arithmetic::div_mod::{lemma_mod_self_0, lemma_small_mod};
use vstd::prelude::*;

verus! {

/// The most tabs that may be open at once.
pub const MAXIMUM_TABS: usize = 10;

/// How many notifications the history keeps; the oldest is dropped beyond this.
pub const NOTIFICATION_HISTORY_LENGTH: usize = 10;

/// Seconds after which the newest notification is no longer shown in the footer.
pub const NOTIFICATION_TIMEOUT_SECS: u64 = 5;

/// Text placed between two copies of a notification in the scrolling footer.
pub const NOTIFICATION_SEPERATOR: &'static str = "   |   ";

/// The index after `i` in a cycle of `n` positions.
pub open spec fn next_in_cycle(i: int, n: int) -> int {
    (i + 1) % n
}

/// The index before `i` in a cycle of `n` positions.
pub open spec fn prev_in_cycle(i: int, n: int) -> int {
    if i == 0 {
        n - 1
    } else {
        i - 1
    }
}

/// Steps forward over `n` positions, wrapping from the last to the first.
pub fn cycle_next(i: usize, n: usize) -> (r: usize)
    requires
        i < n,
    ensures
        r == next_in_cycle(i as int, n as int),
        r < n,
{
    (i + 1) % n
}

/// Steps backward over `n` positions, wrapping from the first to the last.
pub fn cycle_prev(i: usize, n: usize) -> (r: usize)
    requires
        i < n,
    ensures
        r == prev_in_cycle(i as int, n as int),
        r < n,
{
    if i == 0 {
        n - 1
    } else {
        i - 1
    }
}

/// Cyclic navigation over any non-empty list: both steps stay in range,
/// stepping past the last position lands on the first, stepping before the
/// first lands on the last, and each step undoes the other.
pub proof fn lemma_cyclic_navigation(n: int, i: int)
    requires
        n >= 1,
        0 <= i < n,
    ensures
        0 <= next_in_cycle(i, n) < n,
        0 <= prev_in_cycle(i, n) < n,
        next_in_cycle(n - 1, n) == 0,
        prev_in_cycle(0, n) == n - 1,
        prev_in_cycle(next_in_cycle(i, n), n) == i,
        next_in_cycle(prev_in_cycle(i, n), n) == i,
{
    lemma_mod_self_0(n);
    lemma_small_mod(i as nat, n as nat);
    if i + 1 < n {
        lemma_small_mod((i + 1) as nat, n as nat);
    }
}

} // verus!
