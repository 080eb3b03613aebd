//! Per-keystroke typing metrics: progress, words per minute, characters per
//! minute, accuracy and elapsed time.
//!
//! Everything here is pure integer arithmetic. Progress is reported in
//! per-mille (tenths of a percent, truncated), speeds in whole units per
//! minute, accuracy in whole percent, so that the contracts can pin each
//! value exactly.

use vstd::prelude::*;

verus! {

/// Progress through the target text, in per-mille of its length (truncated).
/// An empty target counts as fully typed.
pub open spec fn progress_permille_spec(typed: int, total: int) -> int {
    if total == 0 {
        1000
    } else {
        typed * 1000 / total
    }
}

/// Whether a character separates words, as the Unicode `White_Space`
/// property defines it.
pub open spec fn is_word_space(c: char) -> bool {
    ||| c == ' '
    ||| ('\u{0009}' <= c && c <= '\u{000d}')
    ||| c == '\u{0085}'
    ||| c == '\u{00a0}'
    ||| c == '\u{1680}'
    ||| ('\u{2000}' <= c && c <= '\u{200a}')
    ||| c == '\u{2028}'
    ||| c == '\u{2029}'
    ||| c == '\u{202f}'
    ||| c == '\u{205f}'
    ||| c == '\u{3000}'
}

/// Whether position `i` of `s` begins a whitespace-delimited word.
pub open spec fn is_word_start(s: Seq<char>, i: int) -> bool {
    &&& 0 <= i < s.len()
    &&& !is_word_space(s[i])
    &&& (i == 0 || is_word_space(s[i - 1]))
}

/// Number of word starts among the first `n` characters of `s`.
pub open spec fn word_count_upto(s: Seq<char>, n: int) -> int
    decreases n,
{
    if n <= 0 {
        0
    } else {
        word_count_upto(s, n - 1) + if is_word_start(s, n - 1) {
            1int
        } else {
            0int
        }
    }
}

/// Number of whitespace-delimited words in `s`.
pub open spec fn word_count(s: Seq<char>) -> int {
    word_count_upto(s, s.len() as int)
}

/// Events per minute given a count of events and an elapsed time in
/// milliseconds; a zero (or in spec, negative) elapsed time yields 0.
pub open spec fn per_minute_spec(count: int, elapsed_ms: int) -> int {
    if elapsed_ms <= 0 {
        0
    } else {
        count * 60_000 / elapsed_ms
    }
}

/// [`per_minute_spec`] saturated at `u64::MAX`, the value the executable
/// computation reports.
pub open spec fn per_minute_sat(count: int, elapsed_ms: int) -> int {
    if per_minute_spec(count, elapsed_ms) > u64::MAX as int {
        u64::MAX as int
    } else {
        per_minute_spec(count, elapsed_ms)
    }
}

/// Milliseconds from `start` to `now`; a clock reading earlier than the
/// start yields 0.
pub open spec fn elapsed_spec(start: int, now: int) -> int {
    if now >= start {
        now - start
    } else {
        0
    }
}

/// Share of typed characters that were not mistakes, in whole percent
/// (truncated); mistakes beyond the typed count clamp to 0, and an empty
/// text counts as fully accurate.
pub open spec fn accuracy_spec(typed: int, mistakes: int) -> int {
    if typed <= 0 {
        100
    } else if mistakes > typed {
        0
    } else {
        100 * (typed - mistakes) / typed
    }
}

/// Exec counterpart of [`is_word_space`].
pub fn is_word_space_char(c: char) -> (r: bool)
    ensures
        r == is_word_space(c),
{
    c == ' ' || ('\u{0009}' <= c && c <= '\u{000d}') || c == '\u{0085}' || c == '\u{00a0}'
        || c == '\u{1680}' || ('\u{2000}' <= c && c <= '\u{200a}') || c == '\u{2028}'
        || c == '\u{2029}' || c == '\u{202f}' || c == '\u{205f}' || c == '\u{3000}'
}

/// Counts the whitespace-delimited words of `s`.
pub fn count_words(s: &Vec<char>) -> (r: usize)
    ensures
        r == word_count(s@),
{
    let mut count: usize = 0;
    let mut i: usize = 0;
    while i < s.len()
        invariant
            i <= s@.len(),
            count == word_count_upto(s@, i as int),
            count <= i,
        decreases s@.len() - i,
    {
        let here = !is_word_space_char(s[i]);
        let starts = if i == 0 {
            here
        } else {
            here && is_word_space_char(s[i - 1])
        };
        if starts {
            count = count + 1;
        }
        i = i + 1;
    }
    count
}

/// Progress through a target of `total` characters after `typed` characters,
/// in per-mille.
pub fn progress_permille(typed: usize, total: usize) -> (r: u32)
    requires
        typed <= total,
    ensures
        r == progress_permille_spec(typed as int, total as int),
        r <= 1000,
{
    if total == 0 {
        1000
    } else {
        let q: u128 = (typed as u128) * 1000 / (total as u128);
        proof {
            let t = typed as int;
            let n = total as int;
            assert(t * 1000 <= n * 1000) by (nonlinear_arith)
                requires t <= n;
            assert(t * 1000 / n <= n * 1000 / n) by {
                vstd::arithmetic::div_mod::lemma_div_is_ordered(t * 1000, n * 1000, n);
            }
            assert(n * 1000 / n == 1000) by (nonlinear_arith)
                requires n > 0;
            assert(t * 1000 >= 0) by (nonlinear_arith)
                requires t >= 0;
        }
        q as u32
    }
}

/// Events per minute, saturating at `u64::MAX`.
pub fn per_minute(count: u64, elapsed_ms: u64) -> (r: u64)
    ensures
        r == per_minute_sat(count as int, elapsed_ms as int),
{
    if elapsed_ms == 0 {
        0
    } else {
        let q: u128 = (count as u128) * 60_000 / (elapsed_ms as u128);
        proof {
            let c = count as int;
            let e = elapsed_ms as int;
            assert(c * 60_000 >= 0) by (nonlinear_arith)
                requires c >= 0;
            assert(c * 60_000 / e >= 0) by {
                vstd::arithmetic::div_mod::lemma_div_is_ordered(0, c * 60_000, e);
            }
        }
        if q > u64::MAX as u128 {
            u64::MAX
        } else {
            q as u64
        }
    }
}

/// Accuracy in whole percent, from the typed character count and the
/// mistake count.
pub fn accuracy_percent(typed: u64, mistakes: u64) -> (r: u64)
    ensures
        r == accuracy_spec(typed as int, mistakes as int),
        r <= 100,
{
    if typed == 0 {
        100
    } else if mistakes > typed {
        0
    } else {
        let q: u128 = 100 * ((typed - mistakes) as u128) / (typed as u128);
        proof {
            let t = typed as int;
            let m = mistakes as int;
            assert(100 * (t - m) <= 100 * t) by (nonlinear_arith)
                requires m >= 0;
            assert(100 * (t - m) / t <= 100 * t / t) by {
                vstd::arithmetic::div_mod::lemma_div_is_ordered(100 * (t - m), 100 * t, t);
            }
            assert(100 * t / t == 100) by (nonlinear_arith)
                requires t > 0;
            assert(100 * (t - m) >= 0) by (nonlinear_arith)
                requires m <= t;
        }
        q as u64
    }
}

/// Milliseconds elapsed from `start_ms` to `now_ms`; a clock that reads
/// earlier than the start yields 0.
pub fn elapsed_ms(start_ms: u64, now_ms: u64) -> (r: u64)
    ensures
        r == elapsed_spec(start_ms as int, now_ms as int),
{
    if now_ms >= start_ms {
        now_ms - start_ms
    } else {
        0
    }
}

/// A race typed without a single mistake is fully accurate: whatever the
/// typed count — in particular when it equals the target length — zero
/// mistakes give an accuracy of exactly 100.
pub proof fn lemma_no_mistakes_full_accuracy(typed: int)
    requires
        typed >= 0,
    ensures
        accuracy_spec(typed, 0) == 100,
{
    if typed > 0 {
        assert(100 * (typed - 0) / typed == 100) by (nonlinear_arith)
            requires typed > 0;
    }
}

} // verus!
