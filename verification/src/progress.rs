//! The textual progress indicator.
//!
//! After each persisted frame a worker advances the shared counter and
//! redraws a fixed-width bar scaled against the expected total.  The line is
//! pure display: it steers no control decision.  The fill is the count's
//! share of fifty cells, rounded to the nearest cell.

use crate::naming::dec_rep;
use vstd::arithmetic::div_mod::{lemma_div_is_ordered, lemma_multiply_divide_lt};
use vstd::prelude::*;
use vstd::string::StringExecFns;

verus! {

/// Width of the progress bar, in cells.
pub const BAR_LENGTH: usize = 50;

/// `unit` repeated `k` times.
pub open spec fn repeat_rep(unit: Seq<char>, k: nat) -> Seq<char>
    decreases k,
{
    if k == 0 {
        Seq::empty()
    } else {
        repeat_rep(unit, (k - 1) as nat) + unit
    }
}

/// How many of the bar's cells are filled: `current / max` of the width,
/// rounded to the nearest cell.
pub open spec fn bar_fill(current: int, max: int) -> int
    recommends
        1 <= max,
        0 <= current <= max,
{
    (100 * current + max) / (2 * max)
}

/// The whole progress line: carriage return, the bracketed bar of filled and
/// empty cells, and the count against the expected total.
pub open spec fn progress_line_rep(current: nat, max: nat) -> Seq<char>
    recommends
        1 <= max,
        current <= max,
{
    "\rProgress: ["@ + repeat_rep("#"@, bar_fill(current as int, max as int) as nat) + repeat_rep(
        "-"@,
        (BAR_LENGTH - bar_fill(current as int, max as int)) as nat,
    ) + "] "@ + dec_rep(current) + "/"@ + dec_rep(max)
}

/// Appends `unit` to `s` exactly `k` times.
#[verifier::loop_isolation(false)]
fn append_repeated(s: &mut String, unit: &str, k: usize)
    ensures
        final(s)@ == old(s)@ + repeat_rep(unit@, k as nat),
{
    let mut j: usize = 0;
    while j < k
        invariant
            j <= k,
            s@ == old(s)@ + repeat_rep(unit@, j as nat),
        decreases k - j,
    {
        s.append(unit);
        j = j + 1;
    }
    proof {
        assert(s@ =~= old(s)@ + repeat_rep(unit@, k as nat));
    }
}

/// The filled share of the bar never exceeds its width.
proof fn lemma_bar_fill_bounds(current: int, max: int)
    requires
        1 <= max,
        0 <= current <= max,
    ensures
        0 <= bar_fill(current, max) <= BAR_LENGTH,
{
    lemma_div_is_ordered(0, 100 * current + max, 2 * max);
    lemma_div_is_ordered(100 * current + max, 101 * max, 2 * max);
    lemma_multiply_divide_lt(101 * max, 2 * max, 51);
}

/// Renders the progress line for `current` persisted frames out of `max`
/// expected ones.
pub fn progress_line(current: u64, max: u64) -> (s: String)
    requires
        1 <= max <= 0xffff_ffff,
        current <= max,
    ensures
        s@ == progress_line_rep(current as nat, max as nat),
{
    proof {
        lemma_bar_fill_bounds(current as int, max as int);
    }
    let fill: u64 = (100 * current + max) / (2 * max);
    let mut s = String::from_str("\rProgress: [");
    append_repeated(&mut s, "#", fill as usize);
    append_repeated(&mut s, "-", BAR_LENGTH - fill as usize);
    s.append("] ");
    let current_digits = crate::naming::u64_dec(current);
    s.append(current_digits.as_str());
    s.append("/");
    let max_digits = crate::naming::u64_dec(max);
    s.append(max_digits.as_str());
    s
}

} // verus!
