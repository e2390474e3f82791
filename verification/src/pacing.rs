//! Frame pacing: deadlines on a fixed grid of frame intervals.
use vstd::prelude::*;

verus! {

/// The number of whole intervals by which `deadline` has to move so that it
/// lies strictly after `now`.
pub open spec fn frames_to_skip(deadline: int, now: int, interval: int) -> int {
    if deadline > now {
        0
    } else {
        (now - deadline) / interval + 1
    }
}

/// The first deadline of the grid `deadline + k * interval` (`k >= 0`) that
/// lies strictly after `now`.
pub open spec fn next_deadline(deadline: int, now: int, interval: int) -> int {
    deadline + frames_to_skip(deadline, now, interval) * interval
}

proof fn lemma_div_bounds(a: int, i: int)
    requires
        a >= 0,
        i > 0,
    ensures
        (a / i) * i <= a,
        a < (a / i + 1) * i,
        a / i >= 0,
{
    let q = a / i;
    let r = a % i;
    vstd::arithmetic::div_mod::lemma_fundamental_div_mod(a, i);
    vstd::arithmetic::div_mod::lemma_mod_pos_bound(a, i);
    vstd::arithmetic::div_mod::lemma_div_pos_is_pos(a, i);
    assert(q * i <= a && a < (q + 1) * i) by (nonlinear_arith)
        requires
            a == i * q + r,
            0 <= r < i,
    {}
}

/// The grid step that `advance_frame_deadline` ends on is the first one after `now`.
proof fn lemma_first_step_after(deadline: int, now: int, interval: int, k: int)
    requires
        interval > 0,
        k >= 0,
        deadline + k * interval > now,
        k == 0 || deadline + (k - 1) * interval <= now,
    ensures
        k == frames_to_skip(deadline, now, interval),
{
    if deadline <= now {
        let a = now - deadline;
        lemma_div_bounds(a, interval);
        let q = a / interval;
        assert(k > 0) by {
            if k == 0 {
                assert(k * interval == 0) by (nonlinear_arith)
                    requires k == 0;
            }
        }
        // k * interval > a >= q * interval, so k > q
        assert(k > q) by (nonlinear_arith)
            requires
                k * interval > a,
                q * interval <= a,
                interval > 0,
        {}
        // (k - 1) * interval <= a < (q + 1) * interval, so k - 1 < q + 1
        assert(k - 1 < q + 1) by (nonlinear_arith)
            requires
                (k - 1) * interval <= a,
                a < (q + 1) * interval,
                interval > 0,
        {}
    } else {
        if k > 0 {
            assert((k - 1) * interval >= 0) by (nonlinear_arith)
                requires k > 0, interval > 0;
        }
    }
}

/// What a deadline produced by `next_deadline` satisfies: it lies after `now`,
/// on the grid of `deadline`, and no grid point between the two was skipped
/// over that still lay after `now`.
pub proof fn lemma_next_deadline_properties(deadline: int, now: int, interval: int)
    requires
        interval > 0 || deadline > now,
    ensures
        next_deadline(deadline, now, interval) > now,
        frames_to_skip(deadline, now, interval) >= 0,
        next_deadline(deadline, now, interval) >= deadline,
        deadline > now ==> next_deadline(deadline, now, interval) == deadline,
        deadline <= now ==> next_deadline(deadline, now, interval) - interval <= now,
{
    if deadline <= now {
        let a = now - deadline;
        lemma_div_bounds(a, interval);
        let q = a / interval;
        assert((q + 1) * interval >= 0) by (nonlinear_arith)
            requires q >= 0, interval > 0;
        assert((q + 1) * interval - interval == q * interval) by (nonlinear_arith);
    }
}

/// Moves `deadline` forward by whole frame intervals until it lies strictly
/// after `now`; a deadline already in the future is returned unchanged (for
/// any interval, zero included). Times and intervals are in nanoseconds.
pub fn advance_frame_deadline(deadline: u64, now: u64, frame_interval: u64) -> (next: u64)
    requires
        frame_interval > 0 || deadline > now,
        next_deadline(deadline as int, now as int, frame_interval as int) <= u64::MAX,
    ensures
        next == next_deadline(deadline as int, now as int, frame_interval as int),
        next > now,
        next >= deadline,
{
    let ghost d0 = deadline as int;
    let ghost i = frame_interval as int;
    let ghost target = frames_to_skip(d0, now as int, i);
    proof {
        lemma_next_deadline_properties(d0, now as int, i);
    }
    let mut next = deadline;
    let ghost mut k: int = 0;
    while next <= now
        invariant
            frame_interval > 0 || d0 > now,
            i == frame_interval,
            target == frames_to_skip(d0, now as int, i),
            0 <= k <= target,
            next == d0 + k * i,
            k == 0 || d0 + (k - 1) * i <= now,
            d0 + target * i <= u64::MAX,
        decreases target - k,
    {
        proof {
            if i == 0 {
                assert(k * i == 0) by (nonlinear_arith)
                    requires i == 0;
                assert(false);
            }
            if k == target {
                lemma_next_deadline_properties(d0, now as int, i);
                assert(false);
            }
            assert(d0 + (k + 1) * i <= d0 + target * i) by (nonlinear_arith)
                requires k + 1 <= target, i > 0;
            assert(d0 + (k + 1) * i == next + i) by (nonlinear_arith)
                requires next == d0 + k * i;
        }
        next = next + frame_interval;
        proof {
            k = k + 1;
        }
    }
    proof {
        if i > 0 {
            lemma_first_step_after(d0, now as int, i, k);
        }
    }
    next
}

/// Advancing a deadline that was just advanced for the same `now` changes nothing.
pub proof fn law_advance_is_idempotent(deadline: int, now: int, interval: int)
    requires
        interval > 0 || deadline > now,
    ensures
        next_deadline(next_deadline(deadline, now, interval), now, interval)
            == next_deadline(deadline, now, interval),
{
    lemma_next_deadline_properties(deadline, now, interval);
}

/// However late `now` is, and however many times the deadline is advanced, it
/// stays on the grid of whole intervals from the first deadline: frames are
/// skipped, never shifted.
pub proof fn law_advance_stays_on_grid(deadline: int, first_now: int, second_now: int, interval: int)
    requires
        interval > 0,
    ensures
        (next_deadline(deadline, first_now, interval) - deadline) % interval == 0,
        (next_deadline(next_deadline(deadline, first_now, interval), second_now, interval) - deadline)
            % interval == 0,
{
    let k1 = frames_to_skip(deadline, first_now, interval);
    let d1 = next_deadline(deadline, first_now, interval);
    let k2 = frames_to_skip(d1, second_now, interval);
    lemma_next_deadline_properties(deadline, first_now, interval);
    lemma_next_deadline_properties(d1, second_now, interval);
    vstd::arithmetic::div_mod::lemma_mod_multiples_basic(k1, interval);
    assert(next_deadline(d1, second_now, interval) - deadline == (k1 + k2) * interval)
        by (nonlinear_arith)
        requires
            d1 == deadline + k1 * interval,
            next_deadline(d1, second_now, interval) == d1 + k2 * interval,
    {}
    vstd::arithmetic::div_mod::lemma_mod_multiples_basic(k1 + k2, interval);
}

/// Starting from the next grid point of a deadline that has already passed
/// lands on the same deadline: where the grid is entered does not matter,
/// only the grid itself.
pub proof fn law_later_start_same_deadline(deadline: int, now: int, interval: int)
    requires
        interval > 0,
        deadline <= now,
    ensures
        next_deadline(deadline + interval, now, interval) == next_deadline(deadline, now, interval),
{
    let later = deadline + interval;
    let k = frames_to_skip(later, now, interval);
    lemma_next_deadline_properties(later, now, interval);
    assert(deadline + (k + 1) * interval == later + k * interval
        && deadline + k * interval == later + (k - 1) * interval) by (nonlinear_arith)
        requires later == deadline + interval;
    if k > 0 {
        assert(later <= now) by {
            if later > now {
                assert(k == 0);
            }
        }
        assert(later + (k - 1) * interval == next_deadline(later, now, interval) - interval)
            by (nonlinear_arith)
            requires next_deadline(later, now, interval) == later + k * interval;
    } else {
        assert(k * interval == 0) by (nonlinear_arith)
            requires k == 0;
    }
    lemma_first_step_after(deadline, now, interval, k + 1);
}

/// A later `now` never yields an earlier deadline.
pub proof fn law_advance_is_monotonic(deadline: int, earlier: int, later: int, interval: int)
    requires
        interval > 0,
        earlier <= later,
    ensures
        next_deadline(deadline, earlier, interval) <= next_deadline(deadline, later, interval),
{
    let k1 = frames_to_skip(deadline, earlier, interval);
    let k2 = frames_to_skip(deadline, later, interval);
    lemma_next_deadline_properties(deadline, earlier, interval);
    lemma_next_deadline_properties(deadline, later, interval);
    if deadline <= earlier {
        vstd::arithmetic::div_mod::lemma_div_is_ordered(earlier - deadline, later - deadline, interval);
    }
    assert(k1 <= k2);
    assert(k1 * interval <= k2 * interval) by (nonlinear_arith)
        requires k1 <= k2, interval > 0;
}

} // verus!
