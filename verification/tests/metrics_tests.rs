use typerace_core::metrics::{
    accuracy_percent, count_words, elapsed_ms, is_word_space_char, per_minute, progress_permille,
};

fn chars(s: &str) -> Vec<char> {
    s.chars().collect()
}

#[test]
fn progress_thirds_of_cat() {
    assert_eq!(progress_permille(0, 3), 0);
    assert_eq!(progress_permille(1, 3), 333);
    assert_eq!(progress_permille(2, 3), 666);
    assert_eq!(progress_permille(3, 3), 1000);
}

#[test]
fn progress_empty_target_counts_as_done() {
    assert_eq!(progress_permille(0, 0), 1000);
}

#[test]
fn word_count_basics() {
    assert_eq!(count_words(&chars("")), 0);
    assert_eq!(count_words(&chars("   ")), 0);
    assert_eq!(count_words(&chars("cat")), 1);
    assert_eq!(count_words(&chars("the quick  fox")), 3);
    assert_eq!(count_words(&chars(" leading and trailing ")), 3);
}

#[test]
fn word_count_unicode_spaces() {
    assert_eq!(count_words(&chars("a\u{3000}b\u{00a0}c")), 3);
    assert_eq!(count_words(&chars("x\ty\nz")), 3);
}

#[test]
fn is_word_space_matches_std() {
    for c in [' ', '\t', '\n', '\r', '\u{00a0}', '\u{2028}', '\u{3000}', 'a', '0', '-'] {
        assert_eq!(is_word_space_char(c), c.is_whitespace(), "mismatch on {:?}", c);
    }
}

#[test]
fn per_minute_exact_and_zero_elapsed() {
    assert_eq!(per_minute(30, 60_000), 30);
    assert_eq!(per_minute(1, 60_000), 1);
    assert_eq!(per_minute(5, 30_000), 10);
    assert_eq!(per_minute(1_000_000, 0), 0);
    assert_eq!(per_minute(7, 120_000), 3);
}

#[test]
fn accuracy_values() {
    assert_eq!(accuracy_percent(10, 0), 100);
    assert_eq!(accuracy_percent(10, 2), 80);
    assert_eq!(accuracy_percent(3, 1), 66);
    assert_eq!(accuracy_percent(3, 5), 0);
    assert_eq!(accuracy_percent(0, 0), 100);
}

#[test]
fn accuracy_is_100_without_mistakes() {
    // a full race with zero mistakes is fully accurate
    for typed in [1u64, 3, 17, 1000] {
        assert_eq!(accuracy_percent(typed, 0), 100);
    }
}

#[test]
fn elapsed_clamps_clock_skew() {
    assert_eq!(elapsed_ms(1_000, 4_500), 3_500);
    assert_eq!(elapsed_ms(4_500, 1_000), 0);
    assert_eq!(elapsed_ms(7, 7), 0);
}

#[test]
fn chars_of_matches_char_iteration() {
    let s = "héllo wörld";
    assert_eq!(typerace_core::chars::chars_of(s), s.chars().collect::<Vec<char>>());
    assert_eq!(typerace_core::chars::chars_of(""), Vec::<char>::new());
}
