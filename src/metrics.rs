//! Lesson scores: words per minute, accuracy, and running means.

use vstd::prelude::*;

verus! {

/// How many characters of `s` are not a space.
pub open spec fn count_non_space(s: Seq<char>) -> nat
    decreases s.len(),
{
    if s.len() == 0 {
        0
    } else {
        count_non_space(s.drop_last()) + if s.last() == ' ' {
            0nat
        } else {
            1nat
        }
    }
}

/// Milliseconds from `start` to `now`; none if the clock went backwards.
pub open spec fn elapsed_ms(start: u64, now: u64) -> nat {
    if now >= start {
        (now - start) as nat
    } else {
        0
    }
}

/// Words per minute, a word being five non-space characters, truncated and
/// capped at `u32::MAX`; with no time elapsed it is the cap, or 0 with nothing typed.
pub open spec fn wpm_score(chars: nat, ms: nat) -> nat {
    if ms == 0 {
        if chars == 0 {
            0
        } else {
            u32::MAX as nat
        }
    } else {
        let w = (chars * 60000) / (5 * ms);
        if w <= u32::MAX {
            w
        } else {
            u32::MAX as nat
        }
    }
}

/// Accuracy in percent, truncated: `100 * hits / (hits + misses)`, 0 with no keystrokes.
pub open spec fn acc_score(hits: nat, misses: nat) -> nat {
    if hits + misses == 0 {
        0
    } else {
        (100 * hits) / (hits + misses)
    }
}

/// The sum of the scores.
pub open spec fn sum(s: Seq<u32>) -> nat
    decreases s.len(),
{
    if s.len() == 0 {
        0
    } else {
        sum(s.drop_last()) + s.last() as nat
    }
}

/// The integer mean of the scores, 0 for none.
pub open spec fn mean(s: Seq<u32>) -> nat {
    if s.len() == 0 {
        0
    } else {
        sum(s) / s.len()
    }
}

/// Counts the characters of `s` that are not a space.
pub fn non_space_count(s: &Vec<char>) -> (r: usize)
    ensures
        r == count_non_space(s@),
{
    let mut r: usize = 0;
    let mut i: usize = 0;
    while i < s.len()
        invariant
            i <= s@.len(),
            r == count_non_space(s@.take(i as int)),
            r <= i,
        decreases s.len() - i,
    {
        assert(s@.take(i + 1).drop_last() =~= s@.take(i as int));
        if s[i] != ' ' {
            r = r + 1;
        }
        i = i + 1;
    }
    assert(s@.take(i as int) =~= s@);
    r
}

/// Words per minute for `chars` non-space characters typed in `ms` milliseconds.
pub fn wpm(chars: usize, ms: u64) -> (r: u32)
    ensures
        r == wpm_score(chars as nat, ms as nat),
{
    if ms == 0 {
        if chars == 0 {
            0
        } else {
            u32::MAX
        }
    } else {
        let w: u128 = (chars as u128 * 60000) / (5 * ms as u128);
        if w <= u32::MAX as u128 {
            w as u32
        } else {
            u32::MAX
        }
    }
}

/// Accuracy in percent for the given keystroke counters.
pub fn accuracy(hits: u64, misses: u64) -> (r: u32)
    ensures
        r == acc_score(hits as nat, misses as nat),
{
    let total: u128 = hits as u128 + misses as u128;
    if total == 0 {
        0
    } else {
        let a: u128 = (100 * hits as u128) / total;
        assert(a <= 100) by (nonlinear_arith)
            requires
                a as int == (100 * hits as int) / (total as int),
                hits <= total,
                total > 0,
        ;
        a as u32
    }
}

proof fn lemma_sum_bound(s: Seq<u32>)
    ensures
        sum(s) <= s.len() * (u32::MAX as nat),
    decreases s.len(),
{
    if s.len() > 0 {
        lemma_sum_bound(s.drop_last());
        assert(sum(s.drop_last()) + s.last() <= (s.len() - 1) * (u32::MAX as nat) + (u32::MAX as nat))
            by (nonlinear_arith)
            requires
                sum(s.drop_last()) <= (s.len() - 1) * (u32::MAX as nat),
                s.last() <= u32::MAX,
        ;
        assert((s.len() - 1) * (u32::MAX as nat) + (u32::MAX as nat) == s.len() * (u32::MAX as nat))
            by (nonlinear_arith);
    }
}

proof fn lemma_mean_bound(s: Seq<u32>)
    ensures
        mean(s) <= u32::MAX,
{
    if s.len() > 0 {
        lemma_sum_bound(s);
        let n = s.len();
        let t = sum(s);
        assert(t / n <= u32::MAX) by (nonlinear_arith)
            requires
                t <= n * (u32::MAX as nat),
                n > 0,
        ;
    }
}

/// The integer mean of the scores.
pub fn mean_of(s: &Vec<u32>) -> (r: u32)
    ensures
        r == mean(s@),
{
    let mut total: u128 = 0;
    let mut i: usize = 0;
    while i < s.len()
        invariant
            i <= s@.len(),
            total == sum(s@.take(i as int)),
        decreases s.len() - i,
    {
        proof {
            assert(s@.take(i + 1).drop_last() =~= s@.take(i as int));
            lemma_sum_bound(s@.take(i as int));
            assert(i * (u32::MAX as nat) + u32::MAX <= 0x1_0000_0000_0000_0000_0000_0000) by (nonlinear_arith)
                requires
                    i <= usize::MAX,
                    usize::MAX <= u64::MAX,
            ;
        }
        total = total + s[i] as u128;
        i = i + 1;
    }
    assert(s@.take(i as int) =~= s@);
    if i == 0 {
        0
    } else {
        proof {
            lemma_mean_bound(s@);
        }
        (total / i as u128) as u32
    }
}

/// The running mean after one more score: the cumulative sum, with the new
/// score, divided by the new number of scores.
pub proof fn lemma_rolling_mean(s: Seq<u32>, x: u32)
    ensures
        sum(s.push(x)) == sum(s) + x as nat,
        mean(s.push(x)) == (sum(s) + x as nat) / (s.len() + 1) as nat,
{
    assert(s.push(x).drop_last() =~= s);
}

} // verus!
