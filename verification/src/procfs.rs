//! The process table, as `/proc` writes it down.

use vstd::prelude::*;

use crate::text::from_utf8;

verus! {

/// A closing bracket.
pub const CLOSE: u8 = 0x29;
/// A space.
pub const SPACE: u8 = 0x20;

/// A decimal digit.
pub open spec fn is_digit(c: char) -> bool {
    '0' <= c <= '9'
}

/// The number that decimal digits write.
pub open spec fn decimal(digits: Seq<char>) -> int
    decreases digits.len(),
{
    if digits.len() == 0 {
        0
    } else {
        10 * decimal(digits.drop_last()) + (digits.last() as int - '0' as int)
    }
}

/// The text after a leading plus sign, where there is one.
pub open spec fn after_plus(text: Seq<char>) -> Seq<char> {
    if text.len() > 0 && text[0] == '+' {
        text.skip(1)
    } else {
        text
    }
}

/// A process or session id written in decimal: digits and nothing else, after
/// an optional plus sign, that write a 32-bit number.
pub open spec fn parsed_id(text: Seq<char>) -> Option<u32> {
    let digits = after_plus(text);
    if digits.len() > 0 && (forall|i: int| 0 <= i < digits.len() ==> is_digit(#[trigger] digits[i]))
        && decimal(digits) <= u32::MAX {
        Some(decimal(digits) as u32)
    } else {
        None
    }
}

/// The characters that separate words: those with the White_Space property.
pub open spec fn is_space(c: char) -> bool {
    ||| '\u{9}' <= c <= '\u{d}'
    ||| c == '\u{20}'
    ||| c == '\u{85}'
    ||| c == '\u{a0}'
    ||| c == '\u{1680}'
    ||| '\u{2000}' <= c <= '\u{200a}'
    ||| '\u{2028}' <= c <= '\u{2029}'
    ||| c == '\u{202f}'
    ||| c == '\u{205f}'
    ||| c == '\u{3000}'
}

/// How many characters of the text stand before its first separator.
pub open spec fn word_length(text: Seq<char>) -> nat
    decreases text.len(),
{
    if text.len() == 0 || is_space(text[0]) {
        0
    } else {
        1 + word_length(text.skip(1))
    }
}

/// The words of a text: its longest stretches without a separator.
pub open spec fn words(text: Seq<char>) -> Seq<Seq<char>>
    decreases text.len(),
{
    if text.len() == 0 {
        seq![]
    } else if is_space(text[0]) {
        words(text.skip(1))
    } else {
        proof {
            lemma_word_length_bounded(text);
        }
        seq![text.take(word_length(text) as int)] + words(text.skip(word_length(text) as int))
    }
}

/// Where the last `") "` begins.
pub open spec fn last_close(stat: Seq<u8>) -> Option<int>
    decreases stat.len(),
{
    if stat.len() < 2 {
        None
    } else if stat[stat.len() - 2] == CLOSE && stat[stat.len() - 1] == SPACE {
        Some(stat.len() - 2)
    } else {
        last_close(stat.drop_last())
    }
}

/// The session among the fields that follow the program's name in a process's
/// `stat`: the fourth of them.
pub open spec fn session_field(fields: Seq<char>) -> Option<u32> {
    if words(fields).len() > 3 {
        parsed_id(words(fields)[3])
    } else {
        None
    }
}

/// The same, of the bytes that write the fields. Fields that are not text have
/// no session.
pub open spec fn session_among(fields: Seq<u8>) -> Option<u32> {
    if vstd::utf8::valid_utf8(fields) {
        session_field(vstd::utf8::decode_utf8(fields))
    } else {
        None
    }
}

/// The session that a process's `stat` gives. The program's name stands in
/// brackets and may hold anything, brackets, spaces and bytes that are no text
/// among it, so the fields are counted from the last closing bracket.
pub open spec fn session_of(stat: Seq<u8>) -> Option<u32> {
    match last_close(stat) {
        Some(close) => session_among(stat.skip(close + 2)),
        None => None,
    }
}

/// A word is no longer than its text.
pub proof fn lemma_word_length_bounded(text: Seq<char>)
    ensures
        word_length(text) <= text.len(),
    decreases text.len(),
{
    if text.len() > 0 && !is_space(text[0]) {
        lemma_word_length_bounded(text.skip(1));
    }
}

/// More digits never write a smaller number.
proof fn lemma_decimal_grows(digits: Seq<char>, count: int)
    requires
        0 <= count <= digits.len(),
        forall|i: int| 0 <= i < digits.len() ==> is_digit(#[trigger] digits[i]),
    ensures
        0 <= decimal(digits.take(count)) <= decimal(digits),
    decreases digits.len(),
{
    if count == digits.len() {
        assert(digits.take(count) =~= digits);
        if digits.len() > 0 {
            let shorter = digits.drop_last();
            assert forall|i: int| 0 <= i < shorter.len() implies is_digit(#[trigger] shorter[i]) by {
                assert(digits[i] == shorter[i]);
            }
            lemma_decimal_grows(shorter, shorter.len() as int);
            assert(shorter.take(shorter.len() as int) =~= shorter);
            assert(is_digit(digits[digits.len() - 1]));
        }
    } else {
        let shorter = digits.drop_last();
        assert forall|i: int| 0 <= i < shorter.len() implies is_digit(#[trigger] shorter[i]) by {
            assert(digits[i] == shorter[i]);
        }
        lemma_decimal_grows(shorter, count);
        assert(shorter.take(count) =~= digits.take(count));
        assert(is_digit(digits[digits.len() - 1]));
    }
}

/// The program's name decides nothing: whatever stands before the last closing
/// bracket, text or not, a process belongs to the session among the fields
/// behind it.
pub proof fn law_name_cannot_forge_session(before: Seq<u8>, fields: Seq<u8>)
    requires
        last_close(fields) is None,
    ensures
        session_of(before + seq![CLOSE, SPACE] + fields) == session_among(fields),
{
    lemma_last_close_of_concatenation(before, fields);
    let stat = before + seq![CLOSE, SPACE] + fields;
    assert(stat.skip(before.len() as int + 2) =~= fields);
}

proof fn lemma_last_close_of_concatenation(before: Seq<u8>, fields: Seq<u8>)
    requires
        last_close(fields) is None,
    ensures
        last_close(before + seq![CLOSE, SPACE] + fields) == Some(before.len() as int),
    decreases fields.len(),
{
    let stat = before + seq![CLOSE, SPACE] + fields;
    if fields.len() > 0 {
        let shorter = fields.drop_last();
        if fields.len() >= 2 {
            assert(stat[stat.len() - 2] == fields[fields.len() - 2]);
        } else {
            assert(stat[stat.len() - 2] == SPACE);
        }
        assert(stat[stat.len() - 1] == fields[fields.len() - 1]);
        lemma_last_close_of_concatenation(before, shorter);
        assert(stat.drop_last() =~= before + seq![CLOSE, SPACE] + shorter);
    }
}

/// Whether a text holds no `") "`.
pub open spec fn never_closes(text: Seq<char>) -> bool {
    forall|i: int, j: int|
        0 <= i && j == i + 1 && j < text.len() ==> !(#[trigger] text[i] == ')' && #[trigger] text[j]
            == ' ')
}

/// A `stat` that is text is read as text: the session is the fourth word behind
/// the last `") "`, and without one there is none.
pub proof fn law_text_is_read_as_text(before: Seq<char>, fields: Seq<char>)
    requires
        forall|i: int, j: int|
            0 <= i && j == i + 1 && j < fields.len() ==> !(#[trigger] fields[i] == ')'
                && #[trigger] fields[j] == ' '),
    ensures
        session_of(vstd::utf8::encode_utf8(before + seq![')', ' '] + fields)) == session_field(
            fields,
        ),
        session_of(vstd::utf8::encode_utf8(fields)) is None,
{
    let close = seq![')', ' '];
    lemma_encoding_of_concatenation(before + close, fields);
    lemma_encoding_of_concatenation(before, close);
    lemma_encoding_of_ascii(')');
    lemma_encoding_of_ascii(' ');
    assert(close.drop_first() =~= seq![' ']);
    assert(close.drop_first().drop_first() =~= seq![]);
    reveal_with_fuel(vstd::utf8::encode_utf8, 3);
    assert(vstd::utf8::encode_utf8(close) =~= seq![CLOSE, SPACE]);
    lemma_text_without_close(fields);
    lemma_no_close(vstd::utf8::encode_utf8(fields));
    law_name_cannot_forge_session(
        vstd::utf8::encode_utf8(before),
        vstd::utf8::encode_utf8(fields),
    );
    vstd::utf8::encode_utf8_valid_utf8(fields);
    vstd::utf8::encode_utf8_decode_utf8(fields);
}

/// The encoding of a text is that of its parts.
proof fn lemma_encoding_of_concatenation(first: Seq<char>, second: Seq<char>)
    ensures
        vstd::utf8::encode_utf8(first + second) == vstd::utf8::encode_utf8(first)
            + vstd::utf8::encode_utf8(second),
    decreases first.len(),
{
    if first.len() == 0 {
        assert(first + second =~= second);
        assert(vstd::utf8::encode_utf8(first) =~= seq![]);
    } else {
        lemma_encoding_of_concatenation(first.drop_first(), second);
        assert((first + second).drop_first() =~= first.drop_first() + second);
    }
    assert(vstd::utf8::encode_utf8(first + second) =~= vstd::utf8::encode_utf8(first)
        + vstd::utf8::encode_utf8(second));
}

/// An ASCII character is encoded as itself.
proof fn lemma_encoding_of_ascii(c: char)
    requires
        c as u32 <= 0x7f,
    ensures
        vstd::utf8::encode_scalar(c as u32) == seq![c as u8],
        c as u8 as int == c as int,
{
    let scalar = c as u32;
    assert(vstd::utf8::leading_byte_width_1(scalar) == scalar && scalar == scalar as u8)
        by (bit_vector)
        requires
            scalar <= 0x7f,
    ;
}

/// Only an ASCII character has ASCII bytes in its encoding, and no character
/// has an empty one.
proof fn lemma_encoding_of_others(c: char)
    requires
        c as u32 > 0x7f,
    ensures
        vstd::utf8::encode_scalar(c as u32).len() > 0,
        forall|i: int|
            0 <= i < vstd::utf8::encode_scalar(c as u32).len()
                ==> #[trigger] vstd::utf8::encode_scalar(c as u32)[i] >= 0x80,
{
    let scalar = c as u32;
    assert(vstd::utf8::leading_byte_width_2(scalar) >= 0x80
        && vstd::utf8::leading_byte_width_3(scalar) >= 0x80
        && vstd::utf8::leading_byte_width_4(scalar) >= 0x80
        && vstd::utf8::last_continuation_byte(scalar) >= 0x80
        && vstd::utf8::second_last_continuation_byte(scalar) >= 0x80
        && vstd::utf8::third_last_continuation_byte(scalar) >= 0x80) by (bit_vector);
}

/// The encoding of a text holds a `") "` only where the text does.
proof fn lemma_text_without_close(text: Seq<char>)
    requires
        never_closes(text),
    ensures
        forall|i: int, j: int|
            0 <= i && j == i + 1 && j < vstd::utf8::encode_utf8(text).len() ==> !(
            #[trigger] vstd::utf8::encode_utf8(text)[i] == CLOSE
                && #[trigger] vstd::utf8::encode_utf8(text)[j] == SPACE),
    decreases text.len(),
{
    if text.len() > 0 {
        let rest = text.drop_first();
        let head = vstd::utf8::encode_scalar(text[0] as u32);
        let tail = vstd::utf8::encode_utf8(rest);
        let bytes = vstd::utf8::encode_utf8(text);
        assert forall|i: int, j: int| 0 <= i && j == i + 1 && j < rest.len() implies !(
        #[trigger] rest[i] == ')' && #[trigger] rest[j] == ' ') by {
            assert(rest[i] == text[i + 1] && rest[j] == text[j + 1]);
        }
        lemma_text_without_close(rest);
        if text[0] as u32 <= 0x7f {
            lemma_encoding_of_ascii(text[0]);
        } else {
            lemma_encoding_of_others(text[0]);
        }
        if rest.len() > 0 {
            assert(rest[0] == text[1]);
            if rest[0] as u32 <= 0x7f {
                lemma_encoding_of_ascii(rest[0]);
            } else {
                lemma_encoding_of_others(rest[0]);
            }
            assert(tail[0] == vstd::utf8::encode_scalar(rest[0] as u32)[0]);
        }
        assert forall|i: int, j: int| 0 <= i && j == i + 1 && j < bytes.len() implies !(
        #[trigger] bytes[i] == CLOSE && #[trigger] bytes[j] == SPACE) by {
            if i >= head.len() {
                assert(bytes[i] == tail[i - head.len()] && bytes[j] == tail[j - head.len()]);
            } else {
                assert(bytes[i] == head[i]);
                if bytes[i] == CLOSE && bytes[j] == SPACE {
                    assert(text[0] as u32 <= 0x7f);
                    assert(text[0] == ')');
                    assert(bytes[j] == tail[0]);
                    assert(rest.len() > 0);
                    assert(text[1] == ' ');
                }
            }
        }
    }
}

proof fn lemma_no_close(stat: Seq<u8>)
    requires
        forall|i: int, j: int|
            0 <= i && j == i + 1 && j < stat.len() ==> !(#[trigger] stat[i] == CLOSE
                && #[trigger] stat[j] == SPACE),
    ensures
        last_close(stat) is None,
    decreases stat.len(),
{
    if stat.len() >= 2 {
        assert(stat[stat.len() - 2] != CLOSE || stat[stat.len() - 1] != SPACE);
        lemma_no_close(stat.drop_last());
    }
}

/// An id is read digit by digit: a digit behind an id makes it ten times as
/// large and adds the digit, as long as that is a 32-bit number; the first
/// digit, with or without a plus sign before it, is an id by itself; and no
/// other character belongs to one, nor does anything follow what is none.
pub proof fn law_ids_are_read_digit_by_digit(text: Seq<char>, c: char)
    ensures
        parsed_id(seq![]) is None,
        !('0' <= c <= '9') ==> parsed_id(text.push(c)) is None,
        '0' <= c <= '9' && (text.len() == 0 || text == seq!['+']) ==> parsed_id(text.push(c))
            == Some((c as int - '0' as int) as u32),
        '0' <= c <= '9' && text.len() > 0 && text != seq!['+'] ==> match parsed_id(text) {
            None => parsed_id(text.push(c)) is None,
            Some(id) => if 10 * id + (c as int - '0' as int) <= 0xffff_ffff {
                parsed_id(text.push(c)) == Some((10 * id + (c as int - '0' as int)) as u32)
            } else {
                parsed_id(text.push(c)) is None
            },
        },
{
    let longer = text.push(c);
    let before = after_plus(text);
    let after = after_plus(longer);
    if text.len() == 0 {
        assert(longer[0] == c);
        if c != '+' {
            assert(after =~= seq![c]);
            assert(after.drop_last() =~= seq![]);
        } else {
            assert(after =~= seq![]);
        }
    } else {
        assert(longer[0] == text[0]);
        assert(after =~= before.push(c));
        assert(after.drop_last() =~= before);
        assert(after[before.len() as int] == c);
        assert forall|i: int| 0 <= i < before.len() implies before[i] == #[trigger] after[i] by {}
        if text[0] == '+' && text.len() == 1 {
            assert(text =~= seq!['+']);
            assert(before =~= seq![]);
        }
        if text != seq!['+'] {
            assert(before.len() > 0) by {
                if text[0] == '+' && text.len() == 1 {
                    assert(text =~= seq!['+']);
                }
            }
            if forall|i: int| 0 <= i < after.len() ==> is_digit(#[trigger] after[i]) {
                assert forall|i: int| 0 <= i < before.len() implies is_digit(#[trigger] before[i]) by {
                    assert(is_digit(after[i]));
                }
                lemma_decimal_grows(after, before.len() as int);
                assert(after.take(before.len() as int) =~= before);
            } else if is_digit(c) {
                assert(!(forall|i: int|
                    0 <= i < before.len() ==> is_digit(#[trigger] before[i]))) by {
                    if forall|i: int| 0 <= i < before.len() ==> is_digit(#[trigger] before[i]) {
                        assert forall|i: int| 0 <= i < after.len() implies is_digit(
                            #[trigger] after[i],
                        ) by {
                            if i < before.len() {
                                assert(is_digit(before[i]));
                            }
                        }
                    }
                }
            }
        }
    }
}

/// Whether a text is made of separators alone.
spec fn is_gap(text: Seq<char>) -> bool {
    forall|i: int| 0 <= i < text.len() ==> is_space(#[trigger] text[i])
}

/// Whether a word ends where this text follows it.
spec fn ends_a_word(text: Seq<char>) -> bool {
    text.len() == 0 || is_space(text[0])
}

/// Words are parted by separators and by nothing else: separators before a text
/// change none of its words, a word before the end or before a separator is the
/// first word, and no text has none.
pub proof fn law_separators_part_words(gap: Seq<char>, word: Seq<char>, rest: Seq<char>)
    requires
        forall|i: int| 0 <= i < gap.len() ==> is_space(#[trigger] gap[i]),
        word.len() > 0,
        forall|i: int| 0 <= i < word.len() ==> !is_space(#[trigger] word[i]),
        rest.len() == 0 || is_space(rest[0]),
    ensures
        words(seq![]) == Seq::<Seq<char>>::empty(),
        words(gap) == Seq::<Seq<char>>::empty(),
        words(gap + rest) == words(rest),
        words(gap + word + rest) == seq![word] + words(rest),
{
    lemma_gap_has_no_words(gap, word + rest);
    lemma_gap_has_no_words(gap, rest);
    lemma_gap_has_no_words(gap, seq![]);
    assert(gap + seq![] =~= gap);
    assert(gap + word + rest =~= gap + (word + rest));
    let text = word + rest;
    lemma_word_ends(word, rest);
    assert(text[0] == word[0]);
    assert(text.take(word.len() as int) =~= word);
    assert(text.skip(word.len() as int) =~= rest);
}

proof fn lemma_gap_has_no_words(gap: Seq<char>, rest: Seq<char>)
    requires
        is_gap(gap),
    ensures
        words(gap + rest) == words(rest),
    decreases gap.len(),
{
    if gap.len() == 0 {
        assert(gap + rest =~= rest);
    } else {
        assert(is_space(gap[0]));
        assert((gap + rest)[0] == gap[0]);
        assert((gap + rest).skip(1) =~= gap.skip(1) + rest);
        assert forall|i: int| 0 <= i < gap.skip(1).len() implies is_space(
            #[trigger] gap.skip(1)[i],
        ) by {
            assert(gap.skip(1)[i] == gap[i + 1]);
        }
        lemma_gap_has_no_words(gap.skip(1), rest);
    }
}

proof fn lemma_word_ends(word: Seq<char>, rest: Seq<char>)
    requires
        forall|i: int| 0 <= i < word.len() ==> !is_space(#[trigger] word[i]),
        ends_a_word(rest),
    ensures
        word_length(word + rest) == word.len(),
    decreases word.len(),
{
    if word.len() == 0 {
        assert(word + rest =~= rest);
    } else {
        assert(!is_space(word[0]));
        assert((word + rest)[0] == word[0]);
        assert((word + rest).skip(1) =~= word.skip(1) + rest);
        assert forall|i: int| 0 <= i < word.skip(1).len() implies !is_space(
            #[trigger] word.skip(1)[i],
        ) by {
            assert(word.skip(1)[i] == word[i + 1]);
        }
        lemma_word_ends(word.skip(1), rest);
    }
}

/// The session is the fourth of the fields, by whatever separators they are
/// parted and however many follow; three fields and fewer have none.
pub proof fn law_session_is_the_fourth_field(
    gaps: Seq<Seq<char>>,
    fields: Seq<Seq<char>>,
    rest: Seq<char>,
)
    requires
        gaps.len() == 4,
        fields.len() == 4,
        forall|k: int, i: int|
            0 <= k < 4 && 0 <= i < gaps[k].len() ==> is_space(#[trigger] gaps[k][i]),
        gaps[1].len() > 0 && gaps[2].len() > 0 && gaps[3].len() > 0,
        forall|k: int, i: int|
            0 <= k < 4 && 0 <= i < fields[k].len() ==> !is_space(#[trigger] fields[k][i]),
        forall|k: int| 0 <= k < 4 ==> (#[trigger] fields[k]).len() > 0,
        rest.len() == 0 || is_space(rest[0]),
    ensures
        session_field(
            gaps[0] + fields[0] + (gaps[1] + fields[1] + (gaps[2] + fields[2] + (gaps[3] + fields[3]
                + rest))),
        ) == parsed_id(fields[3]),
        session_field(
            gaps[0] + fields[0] + (gaps[1] + fields[1] + (gaps[2] + fields[2] + gaps[3])),
        ) is None,
        session_field(gaps[0] + fields[0] + (gaps[1] + fields[1] + gaps[2])) is None,
        session_field(gaps[0] + fields[0] + gaps[1]) is None,
        session_field(gaps[0]) is None,
{
    let last = gaps[3] + fields[3] + rest;
    let third = gaps[2] + fields[2] + last;
    let second = gaps[1] + fields[1] + third;
    let all = gaps[0] + fields[0] + second;
    assert(is_space(gaps[1][0]) && is_space(gaps[2][0]) && is_space(gaps[3][0]));
    assert(last[0] == gaps[3][0] && third[0] == gaps[2][0] && second[0] == gaps[1][0]);
    law_separators_part_words(gaps[3], fields[3], rest);
    law_separators_part_words(gaps[2], fields[2], last);
    law_separators_part_words(gaps[1], fields[1], third);
    law_separators_part_words(gaps[0], fields[0], second);
    assert(words(all) =~= seq![fields[0], fields[1], fields[2], fields[3]] + words(rest));
    let two = gaps[2] + fields[2] + gaps[3];
    let one = gaps[1] + fields[1] + two;
    assert(two[0] == gaps[2][0] && one[0] == gaps[1][0]);
    law_separators_part_words(gaps[2], fields[2], gaps[3]);
    law_separators_part_words(gaps[3], fields[3], seq![]);
    law_separators_part_words(gaps[1], fields[1], two);
    law_separators_part_words(gaps[0], fields[0], one);
    assert(words(gaps[0] + fields[0] + one) =~= seq![fields[0], fields[1], fields[2]]);
    let short = gaps[1] + fields[1] + gaps[2];
    assert(short[0] == gaps[1][0]);
    law_separators_part_words(gaps[1], fields[1], gaps[2]);
    law_separators_part_words(gaps[0], fields[0], short);
    assert(words(gaps[0] + fields[0] + short) =~= seq![fields[0], fields[1]]);
    law_separators_part_words(gaps[0], fields[0], gaps[1]);
    assert(words(gaps[0] + fields[0] + gaps[1]) =~= seq![fields[0]]);
}

/// Fields that follow the fourth never change the session.
pub proof fn law_later_fields_change_nothing(fields: Seq<char>, later: Seq<char>)
    requires
        words(fields).len() > 3,
    ensures
        session_field(fields + seq![' '] + later) == session_field(fields),
        session_field(fields) == parsed_id(words(fields)[3]),
{
    lemma_words_of_concatenation(fields, seq![' '] + later);
    assert(fields + (seq![' '] + later) =~= fields + seq![' '] + later);
    assert(words(fields + seq![' '] + later)[3] == words(fields)[3]);
}

proof fn lemma_words_of_concatenation(text: Seq<char>, rest: Seq<char>)
    requires
        ends_a_word(rest),
    ensures
        words(text + rest) == words(text) + words(rest),
    decreases text.len(),
{
    if text.len() == 0 {
        assert(text + rest =~= rest);
        assert(words(text) + words(rest) =~= words(rest));
    } else if is_space(text[0]) {
        assert((text + rest)[0] == text[0]);
        assert((text + rest).skip(1) =~= text.skip(1) + rest);
        lemma_words_of_concatenation(text.skip(1), rest);
    } else {
        let length = word_length(text) as int;
        lemma_word_length_bounded(text);
        lemma_word_length_of_concatenation(text, rest);
        assert((text + rest)[0] == text[0]);
        assert((text + rest).take(length) =~= text.take(length));
        assert((text + rest).skip(length) =~= text.skip(length) + rest);
        lemma_words_of_concatenation(text.skip(length), rest);
        assert(words(text + rest) =~= words(text) + words(rest));
    }
}

proof fn lemma_word_length_of_concatenation(text: Seq<char>, rest: Seq<char>)
    requires
        ends_a_word(rest),
    ensures
        word_length(text + rest) == word_length(text),
    decreases text.len(),
{
    if text.len() == 0 {
        assert(text + rest =~= rest);
    } else {
        assert((text + rest)[0] == text[0]);
        assert((text + rest).skip(1) =~= text.skip(1) + rest);
        lemma_word_length_of_concatenation(text.skip(1), rest);
    }
}

/// The last closing bracket with a space behind it is one, has none behind it,
/// and is found wherever there is one.
pub proof fn law_last_close_is_the_last(stat: Seq<u8>)
    ensures
        last_close(stat) matches Some(at) ==> 0 <= at && at + 2 <= stat.len() && stat[at] == 0x29
            && stat[at + 1] == 0x20,
        forall|i: int, j: int|
            0 <= i && j == i + 1 && j < stat.len() && #[trigger] stat[i] == 0x29 && #[trigger] stat[j]
                == 0x20 ==> last_close(stat) is Some && i <= last_close(stat)->0,
    decreases stat.len(),
{
    if stat.len() >= 2 {
        let shorter = stat.drop_last();
        law_last_close_is_the_last(shorter);
        assert forall|i: int, j: int|
            0 <= i && j == i + 1 && j < stat.len() && #[trigger] stat[i] == 0x29 && #[trigger] stat[j]
                == 0x20 implies last_close(stat) is Some && i <= last_close(stat)->0 by {
            if j < shorter.len() {
                assert(shorter[i] == stat[i] && shorter[j] == stat[j]);
            }
        }
    }
}

/// Fields that are text give the session that the text gives, and fields that
/// are none give none.
pub proof fn law_fields_are_text(fields: Seq<char>, bytes: Seq<u8>)
    ensures
        session_among(vstd::utf8::encode_utf8(fields)) == session_field(fields),
        !vstd::utf8::valid_utf8(bytes) ==> session_among(bytes) is None,
        last_close(bytes) is None ==> session_of(bytes) is None,
{
    vstd::utf8::encode_utf8_valid_utf8(fields);
    vstd::utf8::encode_utf8_decode_utf8(fields);
}

/// The characters of a text.
pub fn characters(text: &str) -> (chars: Vec<char>)
    ensures
        chars@ == text@,
{
    let mut chars: Vec<char> = Vec::new();
    for c in it: text.chars()
        invariant
            it.seq() == text@,
            chars@ == it.seq().take(it.index() as int),
    {
        chars.push(c);
    }
    assert(text@.take(text@.len() as int) =~= text@);
    chars
}

/// Reads an id written in decimal.
pub fn parse_id(text: &[char]) -> (id: Option<u32>)
    ensures
        id == parsed_id(text@),
{
    let start: usize = if text.len() > 0 && text[0] == '+' {
        1
    } else {
        0
    };
    let ghost digits = after_plus(text@);
    assert(digits =~= text@.skip(start as int));
    if start == text.len() {
        return None;
    }
    let mut value: u64 = 0;
    let mut at: usize = start;
    while at < text.len()
        invariant
            start <= at <= text@.len(),
            digits == text@.skip(start as int),
            digits == after_plus(text@),
            forall|i: int| 0 <= i < at - start ==> is_digit(#[trigger] digits[i]),
            value == decimal(digits.take(at - start)),
            value <= u32::MAX,
        decreases text@.len() - at,
    {
        let c: char = text[at];
        assert(digits[at - start] == c);
        if c < '0' || c > '9' {
            return None;
        }
        let ghost longer = digits.take(at - start + 1);
        assert(longer.drop_last() =~= digits.take(at - start));
        let digit: u64 = c as u64 - '0' as u64;
        value = 10 * value + digit;
        if value > 0xffff_ffff {
            proof {
                if forall|i: int| 0 <= i < digits.len() ==> is_digit(#[trigger] digits[i]) {
                    lemma_decimal_grows(digits, at - start + 1);
                }
            }
            return None;
        }
        at = at + 1;
    }
    assert(digits.take(digits.len() as int) =~= digits);
    Some(value as u32)
}

/// Whether a character separates words.
pub fn is_separator(c: char) -> (separates: bool)
    ensures
        separates == is_space(c),
        separates <==> ('\u{9}' <= c <= '\u{d}' || c == '\u{20}' || c == '\u{85}' || c == '\u{a0}'
            || c == '\u{1680}' || '\u{2000}' <= c <= '\u{200a}' || c == '\u{2028}' || c == '\u{2029}'
            || c == '\u{202f}' || c == '\u{205f}' || c == '\u{3000}'),
{
    let code: u32 = c as u32;
    (0x9 <= code && code <= 0xd) || code == 0x20 || code == 0x85 || code == 0xa0 || code == 0x1680
        || (0x2000 <= code && code <= 0x200a) || code == 0x2028 || code == 0x2029 || code == 0x202f
        || code == 0x205f || code == 0x3000
}

/// Finds a word by its number, counted from zero: where it begins and ends.
pub fn nth_word(text: &[char], number: usize) -> (word: Option<(usize, usize)>)
    ensures
        word is Some <==> number < words(text@).len(),
        word matches Some((start, end)) ==> start <= end <= text@.len() && text@.subrange(
            start as int,
            end as int,
        ) == words(text@)[number as int],
{
    let mut at: usize = 0;
    let mut passed: usize = 0;
    assert(text@.skip(0) =~= text@);
    assert(words(text@).skip(0) =~= words(text@));
    while at < text.len()
        invariant
            at <= text@.len(),
            passed <= number,
            passed <= words(text@).len(),
            words(text@).skip(passed as int) == words(text@.skip(at as int)),
        decreases text@.len() - at,
    {
        let ghost rest = text@.skip(at as int);
        assert(rest[0] == text@[at as int]);
        if is_separator(text[at]) {
            assert(rest.skip(1) =~= text@.skip(at + 1));
            at = at + 1;
        } else {
            let mut end: usize = at;
            while end < text.len() && !is_separator(text[end])
                invariant
                    at <= end <= text@.len(),
                    rest == text@.skip(at as int),
                    word_length(rest) == (end - at) + word_length(text@.skip(end as int)),
                decreases text@.len() - end,
            {
                assert(text@.skip(end as int)[0] == text@[end as int]);
                assert(text@.skip(end as int).skip(1) =~= text@.skip(end + 1));
                end = end + 1;
            }
            proof {
                if end < text@.len() {
                    assert(text@.skip(end as int)[0] == text@[end as int]);
                }
                assert(word_length(rest) == end - at);
                assert(rest.take(end - at) =~= text@.subrange(at as int, end as int));
                assert(rest.skip(end - at) =~= text@.skip(end as int));
                assert(words(rest) == seq![text@.subrange(at as int, end as int)] + words(
                    text@.skip(end as int),
                ));
                assert(words(text@).skip(passed as int)[0] == words(text@)[passed as int]);
            }
            if passed == number {
                return Some((at, end));
            }
            proof {
                assert(end > at) by {
                    assert(word_length(rest) >= 1);
                }
                assert(words(text@).skip(passed + 1) =~= words(rest).skip(1));
                assert(words(rest).skip(1) =~= words(text@.skip(end as int)));
            }
            passed = passed + 1;
            at = end;
        }
    }
    None
}

/// Finds where the last `") "` begins.
pub fn find_last_close(stat: &[u8]) -> (close: Option<usize>)
    ensures
        close is Some <==> last_close(stat@) is Some,
        close is Some ==> close->0 == last_close(stat@)->0 && close->0 + 2 <= stat@.len(),
{
    let mut length: usize = stat.len();
    assert(stat@.take(length as int) =~= stat@);
    while length >= 2
        invariant
            length <= stat@.len(),
            last_close(stat@) == last_close(stat@.take(length as int)),
        decreases length,
    {
        let ghost shown = stat@.take(length as int);
        assert(shown[length - 2] == stat@[length - 2]);
        assert(shown[length - 1] == stat@[length - 1]);
        if stat[length - 2] == CLOSE && stat[length - 1] == SPACE {
            return Some(length - 2);
        }
        assert(shown.drop_last() =~= stat@.take(length - 1));
        length = length - 1;
    }
    None
}

/// Reads the session from the fields that follow the program's name.
pub fn parse_fields(fields: &[u8]) -> (session: Option<u32>)
    ensures
        session == session_among(fields@),
{
    match from_utf8(fields) {
        Some(text) => {
            let text: Vec<char> = characters(text.as_str());
            match nth_word(text.as_slice(), 3) {
                Some((start, end)) => parse_id(
                    vstd::slice::slice_subrange(text.as_slice(), start, end),
                ),
                None => None,
            }
        },
        None => None,
    }
}

/// Reads the session from a process's `stat`.
pub fn parse_session(stat: &[u8]) -> (session: Option<u32>)
    ensures
        session == session_of(stat@),
{
    let length: usize = stat.len();
    match find_last_close(stat) {
        Some(close) => {
            let fields: &[u8] = vstd::slice::slice_subrange(stat, close + 2, length);
            assert(fields@ =~= stat@.skip(close + 2));
            parse_fields(fields)
        },
        None => None,
    }
}

/// Reads the process id that names an entry of the process table. Entries that
/// are not processes have other names.
pub fn parse_pid(name: &str) -> (pid: Option<u32>)
    ensures
        pid == parsed_id(name@),
{
    parse_id(characters(name).as_slice())
}

} // verus!
