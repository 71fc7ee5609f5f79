//! The whole-number part of the scoring engine.
//!
//! Every score is a transcendental function of a few counts taken from text. The counts are
//! computed here, exactly; the host applies the logarithm, the cosine and the exponential.

use vstd::prelude::*;

verus! {

/// Whether `c` has the Unicode property `White_Space`.
pub open spec fn is_space(c: char) -> bool {
    let n = c as u32;
    ||| 0x09 <= n <= 0x0D
    ||| n == 0x20
    ||| n == 0x85
    ||| n == 0xA0
    ||| n == 0x1680
    ||| 0x2000 <= n <= 0x200A
    ||| n == 0x2028
    ||| n == 0x2029
    ||| n == 0x202F
    ||| n == 0x205F
    ||| n == 0x3000
}

/// Whether `c` is one of the ASCII letters `A` to `Z`.
pub open spec fn is_upper(c: char) -> bool {
    0x41 <= c as u32 <= 0x5A
}

/// Whether a word begins at index `i` of `text`: a character that is no white space, at the
/// start of the text or right after white space.
pub open spec fn starts_word(text: Seq<char>, i: int) -> bool {
    &&& 0 <= i < text.len()
    &&& !is_space(text[i])
    &&& (i == 0 || is_space(text[i - 1]))
}

/// The number of words in `text`: maximal runs of characters that are no white space.
pub open spec fn word_count(text: Seq<char>) -> nat
    decreases text.len(),
{
    if text.len() == 0 {
        0
    } else {
        word_count(text.drop_last()) + if starts_word(text, text.len() - 1) { 1nat } else { 0nat }
    }
}

/// The number of ASCII upper-case letters in `text`.
pub open spec fn uppercase_count(text: Seq<char>) -> nat
    decreases text.len(),
{
    if text.len() == 0 {
        0
    } else {
        uppercase_count(text.drop_last()) + if is_upper(text.last()) { 1nat } else { 0nat }
    }
}

/// The sum of the code points of `text`.
pub open spec fn code_point_sum(text: Seq<char>) -> nat
    decreases text.len(),
{
    if text.len() == 0 {
        0
    } else {
        code_point_sum(text.drop_last()) + (text.last() as u32) as nat
    }
}

/// Relevance in hundredths for given counts: a tenth for each word and a twentieth for each
/// upper-case letter, capped at one.
pub open spec fn relevance_of(words: nat, uppercase: nat) -> nat {
    if 10 * words + 5 * uppercase >= 100 {
        100
    } else {
        10 * words + 5 * uppercase
    }
}

/// The relevance of a context, in hundredths.
pub open spec fn context_relevance(context: Seq<char>) -> nat {
    relevance_of(word_count(context), uppercase_count(context))
}

/// The distance between the code point sums of two texts.
pub open spec fn phase_difference(a: Seq<char>, b: Seq<char>) -> nat {
    if code_point_sum(a) >= code_point_sum(b) {
        (code_point_sum(a) - code_point_sum(b)) as nat
    } else {
        (code_point_sum(b) - code_point_sum(a)) as nat
    }
}

/// The argument of the logarithm in the truth field: the length of the subject in bytes,
/// and one for the empty subject, whose logarithm would have no value.
pub open spec fn subject_weight(subject: Seq<char>) -> nat {
    let len = vstd::utf8::encode_utf8(subject).len();
    if len == 0 {
        1
    } else {
        len
    }
}

/// Whether `c` has the Unicode property `White_Space`.
pub fn char_is_space(c: char) -> (r: bool)
    ensures
        r == is_space(c),
{
    let n: u32 = c as u32;
    (0x09 <= n && n <= 0x0D) || n == 0x20 || n == 0x85 || n == 0xA0 || n == 0x1680 || (0x2000 <= n
        && n <= 0x200A) || n == 0x2028 || n == 0x2029 || n == 0x202F || n == 0x205F || n == 0x3000
}

/// Whether `c` is one of the ASCII letters `A` to `Z`.
pub fn char_is_upper(c: char) -> (r: bool)
    ensures
        r == is_upper(c),
{
    let n: u32 = c as u32;
    0x41 <= n && n <= 0x5A
}

/// The characters of `text`, one by one.
pub fn characters(text: &str) -> (chars: Vec<char>)
    ensures
        chars@ == text@,
{
    broadcast use vstd::string::axiom_spec_iter;

    let mut chars: Vec<char> = Vec::new();
    for c in it: text.chars()
        invariant
            it.seq() == text@,
            chars@ == text@.take(it.index()),
    {
        chars.push(c);
    }
    chars
}

/// The number of words in `text`.
pub fn count_words(text: &str) -> (n: usize)
    ensures
        n == word_count(text@),
{
    let chars = characters(text);
    let mut n: usize = 0;
    let mut after_space = true;
    let mut i: usize = 0;
    while i < chars.len()
        invariant
            i <= chars.len(),
            chars@ == text@,
            n == word_count(text@.take(i as int)),
            n <= i,
            after_space == (i == 0 || is_space(text@[i - 1])),
        decreases chars.len() - i,
    {
        let space = char_is_space(chars[i]);
        proof {
            let prefix = text@.take(i + 1);
            assert(prefix.drop_last() == text@.take(i as int));
            assert(starts_word(prefix, i as int) == (!space && after_space));
        }
        if !space && after_space {
            n = n + 1;
        }
        after_space = space;
        i = i + 1;
    }
    proof {
        assert(text@.take(i as int) == text@);
    }
    n
}

/// The number of ASCII upper-case letters in `text`.
pub fn count_uppercase(text: &str) -> (n: usize)
    ensures
        n == uppercase_count(text@),
{
    let chars = characters(text);
    let mut n: usize = 0;
    let mut i: usize = 0;
    while i < chars.len()
        invariant
            i <= chars.len(),
            chars@ == text@,
            n == uppercase_count(text@.take(i as int)),
            n <= i,
        decreases chars.len() - i,
    {
        proof {
            assert(text@.take(i + 1).drop_last() == text@.take(i as int));
        }
        if char_is_upper(chars[i]) {
            n = n + 1;
        }
        i = i + 1;
    }
    proof {
        assert(text@.take(i as int) == text@);
    }
    n
}

/// The sum of the code points of `text`. The sum of as many code points as a machine can
/// hold stays below `2^85`, so 128 bits never overflow.
pub fn sum_code_points(text: &str) -> (sum: u128)
    ensures
        sum == code_point_sum(text@),
{
    let chars = characters(text);
    let mut sum: u128 = 0;
    let mut i: usize = 0;
    while i < chars.len()
        invariant
            i <= chars.len(),
            chars@ == text@,
            sum == code_point_sum(text@.take(i as int)),
            sum <= i * 0x10FFFF,
        decreases chars.len() - i,
    {
        let c = chars[i];
        proof {
            assert(text@.take(i + 1).drop_last() == text@.take(i as int));
            assert(text@.take(i + 1).last() == c);
            vstd::utf8::char_is_scalar(c);
        }
        let code: u32 = c as u32;
        sum = sum + code as u128;
        i = i + 1;
    }
    proof {
        assert(text@.take(i as int) == text@);
    }
    sum
}

/// The relevance of `context` in hundredths, from 0 to 100: ten for each word and five for
/// each ASCII upper-case letter, capped at 100.
pub fn context_relevance_score(context: &str) -> (score: u8)
    ensures
        score == context_relevance(context@),
        score <= 100,
{
    let words = count_words(context);
    let uppercase = count_uppercase(context);
    if words >= 10 || uppercase >= 20 {
        100
    } else {
        let raw: usize = 10 * words + 5 * uppercase;
        if raw >= 100 {
            100
        } else {
            raw as u8
        }
    }
}

/// The distance between the code point sums of `a` and `b`: the phase that the coherence of
/// the two texts is the cosine of, before it is scaled.
pub fn coherence_phase(a: &str, b: &str) -> (phase: u128)
    ensures
        phase == phase_difference(a@, b@),
{
    let left = sum_code_points(a);
    let right = sum_code_points(b);
    if left >= right {
        left - right
    } else {
        right - left
    }
}

/// The argument of the logarithm in the truth field of `subject`: its length in bytes, and
/// one where it is empty.
pub fn truth_field_weight(subject: &str) -> (weight: usize)
    ensures
        weight == subject_weight(subject@),
        weight >= 1,
{
    let len = subject.as_bytes().len();
    if len == 0 {
        1
    } else {
        len
    }
}

/// Relevance never exceeds one, and more words or more upper-case letters never lower it.
pub proof fn relevance_is_monotone(words: nat, uppercase: nat, more_words: nat, more_uppercase: nat)
    requires
        words <= more_words,
        uppercase <= more_uppercase,
    ensures
        relevance_of(words, uppercase) <= relevance_of(more_words, more_uppercase),
        relevance_of(more_words, more_uppercase) <= 100,
{
}

} // verus!
