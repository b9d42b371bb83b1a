//! Characters and strings: what the parsers and the renderer share.

use vstd::prelude::*;
use vstd::string::*;

verus! {

/// The characters of `text`, one by one.
pub fn chars_of(text: &str) -> (chars: Vec<char>)
    ensures
        chars@ == text@,
{
    broadcast use group_string_axioms;
    let mut chars: Vec<char> = Vec::new();
    for c in it: text.chars()
        invariant
            it.seq() == text@,
            chars@ == text@.take(it.index() as int),
    {
        chars.push(c);
    }
    chars
}

/// Whether `c` is one of the ten decimal digits.
pub open spec fn is_digit(c: char) -> bool {
    '0' <= c && c <= '9'
}

/// The number that the digit `c` stands for.
pub open spec fn digit_value(c: char) -> nat {
    (c as nat - '0' as nat) as nat
}

/// Whether `text` holds decimal digits and nothing else.
pub open spec fn all_digits(text: Seq<char>) -> bool {
    forall|i: int| 0 <= i < text.len() ==> is_digit(#[trigger] text[i])
}

/// The number that a row of decimal digits stands for, leading zeros
/// allowed; the empty row stands for zero.
pub open spec fn decimal_value(digits: Seq<char>) -> nat
    decreases digits.len(),
{
    if digits.len() == 0 {
        0
    } else {
        decimal_value(digits.drop_last()) * 10 + digit_value(digits.last())
    }
}

/// A row of digits stands for no less than any of its beginnings.
pub proof fn lemma_decimal_value_grows(digits: Seq<char>, k: int)
    requires
        0 <= k <= digits.len(),
    ensures
        decimal_value(digits.take(k)) <= decimal_value(digits),
    decreases digits.len(),
{
    if k < digits.len() {
        lemma_decimal_value_grows(digits.drop_last(), k);
        assert(digits.drop_last().take(k) =~= digits.take(k));
    } else {
        assert(digits.take(k) =~= digits);
    }
}

/// The value of the digit `c`, or `None` where `c` is no digit.
pub fn digit_of(c: char) -> (d: Option<u8>)
    ensures
        d == (if is_digit(c) {
            Some(digit_value(c) as u8)
        } else {
            None
        }),
{
    if '0' <= c && c <= '9' {
        Some((c as u32 - '0' as u32) as u8)
    } else {
        None
    }
}

/// The digit that stands for `d`, a number below ten.
pub open spec fn digit_char(d: nat) -> char {
    if d == 0 {
        '0'
    } else if d == 1 {
        '1'
    } else if d == 2 {
        '2'
    } else if d == 3 {
        '3'
    } else if d == 4 {
        '4'
    } else if d == 5 {
        '5'
    } else if d == 6 {
        '6'
    } else if d == 7 {
        '7'
    } else if d == 8 {
        '8'
    } else {
        '9'
    }
}

/// `n` written in decimal digits, without leading zeros.
pub open spec fn decimal_digits(n: nat) -> Seq<char>
    decreases n,
{
    if n < 10 {
        seq![digit_char(n)]
    } else {
        decimal_digits(n / 10).push(digit_char(n % 10))
    }
}

/// What `decimal_digits` writes, `decimal_value` reads back.
pub proof fn lemma_decimal_digits_value(n: nat)
    ensures
        decimal_digits(n).len() >= 1,
        all_digits(decimal_digits(n)),
        decimal_value(decimal_digits(n)) == n,
    decreases n,
{
    let written = decimal_digits(n);
    if n < 10 {
        assert(decimal_value(written.drop_last()) == 0);
    } else {
        lemma_decimal_digits_value(n / 10);
        assert(written.drop_last() =~= decimal_digits(n / 10));
    }
}

/// The digit that stands for `d`, as a string of its own.
fn digit_str(d: u8) -> (s: &'static str)
    requires
        d < 10,
    ensures
        s@ == seq![digit_char(d as nat)],
{
    proof {
        reveal_strlit("0");
        reveal_strlit("1");
        reveal_strlit("2");
        reveal_strlit("3");
        reveal_strlit("4");
        reveal_strlit("5");
        reveal_strlit("6");
        reveal_strlit("7");
        reveal_strlit("8");
        reveal_strlit("9");
    }
    let s = if d == 0 {
        "0"
    } else if d == 1 {
        "1"
    } else if d == 2 {
        "2"
    } else if d == 3 {
        "3"
    } else if d == 4 {
        "4"
    } else if d == 5 {
        "5"
    } else if d == 6 {
        "6"
    } else if d == 7 {
        "7"
    } else if d == 8 {
        "8"
    } else {
        "9"
    };
    s
}

/// `n` written in decimal digits.
pub fn decimal_string(n: u64) -> (text: String)
    ensures
        text@ == decimal_digits(n as nat),
    decreases n,
{
    if n < 10 {
        digit_str(n as u8).to_owned()
    } else {
        let mut text = decimal_string(n / 10);
        text.append(digit_str((n % 10) as u8));
        text
    }
}

/// Whether `c` is ASCII whitespace: a space, a tab, a line feed, a form feed
/// or a carriage return.
pub open spec fn is_space(c: char) -> bool {
    c == ' ' || c == '\t' || c == '\n' || c == '\x0C' || c == '\r'
}

/// How many characters stand at the start of `text` before its first
/// whitespace.
pub open spec fn word_len(text: Seq<char>) -> nat
    decreases text.len(),
{
    if text.len() == 0 || is_space(text[0]) {
        0
    } else {
        1 + word_len(text.drop_first())
    }
}

/// The words of `text`: its longest runs of characters that are no
/// whitespace, from left to right.
pub open spec fn words(text: Seq<char>) -> Seq<Seq<char>>
    decreases text.len(),
    via words_decreases
{
    if text.len() == 0 {
        Seq::empty()
    } else if is_space(text[0]) {
        words(text.drop_first())
    } else {
        seq![text.take(word_len(text) as int)] + words(text.skip(word_len(text) as int))
    }
}

#[via_fn]
proof fn words_decreases(text: Seq<char>) {
    lemma_word_len_bound(text);
}

/// A word is no longer than the text that it begins.
pub proof fn lemma_word_len_bound(text: Seq<char>)
    ensures
        word_len(text) <= text.len(),
    decreases text.len(),
{
    if text.len() > 0 && !is_space(text[0]) {
        lemma_word_len_bound(text.drop_first());
    }
}

/// The word that a text begins with holds no whitespace.
pub proof fn lemma_word_is_plain(text: Seq<char>, j: int)
    requires
        0 <= j < word_len(text),
    ensures
        j < text.len(),
        !is_space(text[j]),
    decreases text.len(),
{
    if j > 0 {
        lemma_word_is_plain(text.drop_first(), j - 1);
    }
}

/// Every word holds at least one character, and none that is whitespace.
pub proof fn law_words_hold_no_space(text: Seq<char>, k: int)
    requires
        0 <= k < words(text).len(),
    ensures
        words(text)[k].len() >= 1,
        forall|j: int| 0 <= j < words(text)[k].len() ==> !is_space(#[trigger] words(text)[k][j]),
    decreases text.len(),
{
    if is_space(text[0]) {
        law_words_hold_no_space(text.drop_first(), k);
    } else {
        let n = word_len(text) as int;
        lemma_word_len_bound(text);
        if k == 0 {
            assert forall|j: int| 0 <= j < n implies !is_space(#[trigger] text.take(n)[j]) by {
                lemma_word_is_plain(text, j);
            }
        } else {
            law_words_hold_no_space(text.skip(n), k - 1);
        }
    }
}

/// Whether `c` is ASCII whitespace.
pub fn is_space_char(c: char) -> (space: bool)
    ensures
        space == is_space(c),
{
    c == ' ' || c == '\t' || c == '\n' || c == '\x0C' || c == '\r'
}

/// Cuts `text` at its ASCII whitespace and returns the words between,
/// in order and unchanged.
pub fn split_words(text: &str) -> (list: Vec<String>)
    ensures
        list.deep_view() == words(text@),
{
    let chars = chars_of(text);
    let len: usize = chars.len();
    let mut list: Vec<String> = Vec::new();
    let mut i: usize = 0;
    assert(chars@.skip(0) =~= chars@);
    while i < len
        invariant
            len == chars@.len(),
            chars@ == text@,
            i <= len,
            list.deep_view() + words(chars@.skip(i as int)) == words(chars@),
        decreases len - i,
    {
        let ghost rest = chars@.skip(i as int);
        if is_space_char(chars[i]) {
            assert(rest.drop_first() =~= chars@.skip(i + 1));
            i += 1;
        } else {
            let mut end: usize = i + 1;
            assert(rest.drop_first() =~= chars@.skip(end as int));
            while end < len && !is_space_char(chars[end])
                invariant
                    len == chars@.len(),
                    i < end <= len,
                    rest == chars@.skip(i as int),
                    word_len(rest) == (end - i) + word_len(chars@.skip(end as int)),
                decreases len - end,
            {
                assert(chars@.skip(end as int).drop_first() =~= chars@.skip(end + 1));
                end += 1;
            }
            assert(rest.take(end - i) =~= chars@.subrange(i as int, end as int));
            assert(rest.skip(end - i) =~= chars@.skip(end as int));
            let word = text.substring_char(i, end).to_owned();
            let ghost before = list.deep_view();
            list.push(word);
            assert(list.deep_view() =~= before.push(word@));
            assert(before.push(word@) + words(chars@.skip(end as int)) =~= before + (seq![
                word@,
            ] + words(chars@.skip(end as int))));
            i = end;
        }
    }
    list
}

} // verus!
