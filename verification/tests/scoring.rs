use agent_core::scalar::{
    Scalar, INFINITY_BITS, NEGATIVE_ZERO_BITS, ONE_BITS, TENTH_BITS, THREE_TWENTIETHS_BITS, TWENTIETH_BITS,
};
use agent_core::scoring::{
    char_is_space, char_is_upper, characters, coherence_phase, context_relevance_score, count_uppercase,
    count_words, sum_code_points, truth_field_weight,
};

#[test]
fn white_space_is_what_std_calls_white_space() {
    let mut code: u32 = 0;
    while code <= 0x10FFFF {
        if let Some(c) = char::from_u32(code) {
            assert_eq!(char_is_space(c), c.is_whitespace(), "code point {:#x}", code);
        }
        code += 1;
    }
}

#[test]
fn upper_case_is_ascii_upper_case() {
    let mut code: u32 = 0;
    while code <= 0x10FFFF {
        if let Some(c) = char::from_u32(code) {
            assert_eq!(char_is_upper(c), c.is_ascii_uppercase(), "code point {:#x}", code);
        }
        code += 1;
    }
}

#[test]
fn characters_are_those_of_the_text() {
    assert_eq!(characters("a\u{e9}\u{1F600}z"), vec!['a', '\u{e9}', '\u{1F600}', 'z']);
    assert_eq!(characters(""), Vec::<char>::new());
}

#[test]
fn words_are_runs_between_white_space() {
    assert_eq!(count_words(""), 0);
    assert_eq!(count_words("   \t\n"), 0);
    assert_eq!(count_words("x"), 1);
    assert_eq!(count_words("Biology ADVANCED study"), 3);
    assert_eq!(count_words("  leading and trailing  "), 3);
    assert_eq!(count_words("a\u{3000}b\u{a0}c"), 3);
    assert_eq!(count_words("general_learning"), 1);
}

#[test]
fn words_agree_with_split_whitespace() {
    let texts = [
        "",
        " ",
        "one",
        "one two",
        "one  two\tthree\nfour",
        "\u{2003}wide\u{2003}spaces\u{2003}",
        "tab\u{b}vertical",
        "no\u{200b}break",
        "Plants convert light into energy",
    ];
    for text in texts {
        assert_eq!(count_words(text), text.split_whitespace().count(), "text {:?}", text);
    }
}

#[test]
fn uppercase_counts_ascii_capitals_only() {
    assert_eq!(count_uppercase(""), 0);
    assert_eq!(count_uppercase("Biology ADVANCED study"), 9);
    assert_eq!(count_uppercase("\u{c9}cole \u{391}\u{392}"), 0);
    assert_eq!(count_uppercase("AZ az @[ `{"), 2);
}

#[test]
fn relevance_is_a_tenth_per_word_and_a_twentieth_per_capital() {
    assert_eq!(context_relevance_score(""), 0);
    assert_eq!(context_relevance_score("x"), 10);
    assert_eq!(context_relevance_score("X"), 15);
    assert_eq!(context_relevance_score("general_learning"), 10);
    assert_eq!(context_relevance_score("Biology ADVANCED study"), 75);
}

#[test]
fn relevance_never_exceeds_one() {
    assert_eq!(context_relevance_score("a b c d e f g h i j"), 100);
    assert_eq!(context_relevance_score("a b c d e f g h i j k l m"), 100);
    assert_eq!(context_relevance_score("ABCDEFGHIJKLMNOPQRSTUVWXYZ"), 100);
    assert_eq!(context_relevance_score("a b c d e f g h i"), 90);
    assert_eq!(context_relevance_score("a b c d e f g h I"), 95);
    assert_eq!(context_relevance_score("a b c d e f g H I"), 100);
}

#[test]
fn relevance_grows_with_words_and_capitals() {
    let mut text = String::new();
    let mut last = context_relevance_score(&text);
    for i in 0..30 {
        text.push_str(if i % 2 == 0 { " w" } else { " W" });
        let next = context_relevance_score(&text);
        assert!(next >= last);
        assert!(next <= 100);
        last = next;
    }
    assert_eq!(last, 100);
}

#[test]
fn code_points_are_summed_without_overflow() {
    assert_eq!(sum_code_points(""), 0);
    assert_eq!(sum_code_points("abc"), 97 + 98 + 99);
    assert_eq!(sum_code_points("\u{10FFFF}"), 0x10FFFF);
    let long: String = std::iter::repeat('\u{10FFFF}').take(10_000).collect();
    assert_eq!(sum_code_points(&long), 10_000u128 * 0x10FFFF);
    assert!(sum_code_points(&long) > u32::MAX as u128);
}

#[test]
fn phase_is_the_distance_between_sums() {
    assert_eq!(coherence_phase("", ""), 0);
    assert_eq!(coherence_phase("abc", "abc"), 0);
    assert_eq!(coherence_phase("b", "a"), 1);
    assert_eq!(coherence_phase("a", "b"), 1);
    assert_eq!(coherence_phase("", "x"), 120);
    assert_eq!(coherence_phase("student_agent", "general_learning"), 1677 - 1397);
}

#[test]
fn weight_is_the_length_in_bytes_and_one_when_empty() {
    assert_eq!(truth_field_weight(""), 1);
    assert_eq!(truth_field_weight("a"), 1);
    assert_eq!(truth_field_weight("Plants convert light into energy"), 32);
    assert_eq!(truth_field_weight("\u{e9}"), 2);
}

#[test]
fn constants_are_the_bits_of_their_values() {
    assert_eq!(TENTH_BITS, 0.1f64.to_bits());
    assert_eq!(TWENTIETH_BITS, 0.05f64.to_bits());
    assert_eq!(THREE_TWENTIETHS_BITS, 0.15f64.to_bits());
    assert_eq!(NEGATIVE_ZERO_BITS, (-0.0f64).to_bits());
    assert_eq!(Scalar::zero().bits, 0.0f64.to_bits());
    assert_eq!(ONE_BITS, 1.0f64.to_bits());
    assert_eq!(Scalar::one().bits, 1.0f64.to_bits());
    assert_eq!(INFINITY_BITS, f64::INFINITY.to_bits());
}

#[test]
fn greater_than_zero_is_told_by_the_bits() {
    let values = [
        0.0,
        -0.0,
        1.0,
        -1.0,
        0.5,
        5e-324,
        -5e-324,
        f64::MIN_POSITIVE,
        f64::MAX,
        f64::MIN,
        f64::INFINITY,
        f64::NEG_INFINITY,
        f64::NAN,
        -f64::NAN,
        f64::EPSILON,
    ];
    for x in values {
        assert_eq!(Scalar::from_bits(x.to_bits()).exceeds_zero(), x > 0.0, "value {:?}", x);
    }
    assert!(!Scalar::from_bits(INFINITY_BITS + 1).exceeds_zero());
    assert!(!Scalar::from_bits(u64::MAX).exceeds_zero());
    assert!(!Scalar::from_bits(0x7FFF_FFFF_FFFF_FFFF).exceeds_zero());
}

#[test]
fn zero_is_told_from_the_rest() {
    assert!(Scalar::from_bits(0.0f64.to_bits()).vanishes());
    assert!(Scalar::from_bits((-0.0f64).to_bits()).vanishes());
    assert!(!Scalar::from_bits(1.0f64.to_bits()).vanishes());
    assert!(!Scalar::from_bits(f64::MIN_POSITIVE.to_bits()).vanishes());
    assert!(!Scalar::from_bits(5e-324f64.to_bits()).vanishes());
    assert!(!Scalar::from_bits(f64::NAN.to_bits()).vanishes());
    assert_eq!(Scalar::from_bits(7).bits, 7);
}
