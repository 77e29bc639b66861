//! Texts: numbers in decimal and lists with separators.

use vstd::prelude::*;

verus! {

/// The texts that strings hold.
pub open spec fn texts(strings: Seq<String>) -> Seq<Seq<char>> {
    Seq::new(strings.len(), |i: int| strings[i]@)
}

/// The decimal digit `digit` as a character.
pub open spec fn digit_char(digit: int) -> char {
    (0x30 + digit) as char
}

/// `number` in decimal, without leading zeros.
pub open spec fn decimal(number: nat) -> Seq<char>
    decreases number,
{
    if number < 10 {
        seq![digit_char(number as int)]
    } else {
        decimal(number / 10).push(digit_char((number % 10) as int))
    }
}

/// Whether a character is an ASCII digit.
pub open spec fn is_digit(c: char) -> bool {
    '0' <= c && c <= '9'
}

/// The number that a sequence of digits stands for.
pub open spec fn digits_value(digits: Seq<char>) -> nat
    decreases digits.len(),
{
    if digits.len() == 0 {
        0
    } else {
        digits_value(digits.drop_last()) * 10 + (digits.last() as nat - 0x30) as nat
    }
}

/// A text without the plus sign that it may start with.
pub open spec fn without_plus(text: Seq<char>) -> Seq<char> {
    if text.len() > 0 && text[0] == '+' {
        text.skip(1)
    } else {
        text
    }
}

/// The number that a text spells: an optional plus sign and at least one
/// digit, nothing else, and a value that a `usize` holds.
pub open spec fn number_in(text: Seq<char>) -> Option<usize> {
    let digits = without_plus(text);
    if digits.len() > 0 && (forall|i: int| 0 <= i < digits.len() ==> is_digit(#[trigger] digits[i]))
        && digits_value(digits) <= usize::MAX {
        Some(digits_value(digits) as usize)
    } else {
        None
    }
}

/// The parts of a text between separators; there is always at least one.
pub open spec fn split(text: Seq<char>, separator: char) -> Seq<Seq<char>>
    decreases text.len(),
{
    if text.len() == 0 {
        seq![Seq::empty()]
    } else {
        let parts = split(text.drop_last(), separator);
        if text.last() == separator {
            parts.push(Seq::empty())
        } else {
            parts.drop_last().push(parts.last().push(text.last()))
        }
    }
}

/// The text of one digit.
fn digit_text(digit: usize) -> (text: &'static str)
    requires
        digit < 10,
    ensures
        text@ == seq![digit_char(digit as int)],
{
    proof {
        reveal_strlit("0");
        reveal_strlit("1");
        reveal_strlit("2");
        reveal_strlit("3");
        reveal_strlit("4");
        reveal_strlit("5");
        reveal_strlit("6");
        reveal_strlit("7");
        reveal_strlit("8");
        reveal_strlit("9");
    }
    let text: &'static str = match digit {
        0 => "0",
        1 => "1",
        2 => "2",
        3 => "3",
        4 => "4",
        5 => "5",
        6 => "6",
        7 => "7",
        8 => "8",
        _ => "9",
    };
    assert(text@ =~= seq![digit_char(digit as int)]);
    text
}

/// Writes a number in decimal.
pub fn decimal_text(number: usize) -> (text: String)
    ensures
        text@ == decimal(number as nat),
    decreases number,
{
    if number < 10 {
        digit_text(number).to_owned()
    } else {
        let mut text = decimal_text(number / 10);
        let ghost front = text@;
        text.append(digit_text(number % 10));
        assert(text@ =~= front.push(digit_char((number % 10) as int)));
        text
    }
}

/// The characters of a text.
pub fn chars_of(text: &str) -> (chars: Vec<char>)
    ensures
        chars@ == text@,
{
    let mut chars: Vec<char> = Vec::new();
    for c in it: text.chars()
        invariant
            it.seq() == text@,
            chars@ == text@.take(it.index() as int),
    {
        chars.push(c);
        assert(text@.take(it.index() as int + 1) =~= text@.take(it.index() as int).push(c));
    }
    assert(text@.take(text@.len() as int) =~= text@);
    chars
}

/// Whether two texts are the same.
pub fn same_text(left: &str, right: &str) -> (same: bool)
    ensures
        same == (left@ == right@),
{
    left.to_owned() == right.to_owned()
}

/// A text of digits is worth at least what its front is worth.
proof fn lemma_value_grows(digits: Seq<char>, len: int)
    requires
        0 <= len <= digits.len(),
    ensures
        digits_value(digits.take(len)) <= digits_value(digits),
    decreases digits.len() - len,
{
    if len == digits.len() {
        assert(digits.take(len) =~= digits);
    } else {
        lemma_value_grows(digits, len + 1);
        assert(digits.take(len + 1).drop_last() =~= digits.take(len));
    }
}

/// Reads the number that a text spells.
pub fn parse_number(text: &[char]) -> (number: Option<usize>)
    ensures
        number == number_in(text@),
{
    let ghost digits = without_plus(text@);
    let len: usize = text.len();
    let start: usize = if len > 0 && text[0] == '+' {
        1
    } else {
        0
    };
    assert(digits =~= text@.skip(start as int));
    if start == len {
        return None;
    }
    let mut value: usize = 0;
    let mut at: usize = start;
    assert(digits.take(0) =~= Seq::empty());
    while at < len
        invariant
            len == text@.len(),
            start <= at <= len,
            digits == text@.skip(start as int),
            digits == without_plus(text@),
            digits.len() > 0,
            forall|i: int| 0 <= i < at - start ==> is_digit(#[trigger] digits[i]),
            value == digits_value(digits.take(at - start)),
        decreases len - at,
    {
        let c: char = text[at];
        assert(c == digits[at - start]);
        if c < '0' || c > '9' {
            return None;
        }
        let digit: usize = (c as u32 - 0x30) as usize;
        proof {
            assert(digits.take(at - start + 1).drop_last() =~= digits.take(at - start));
            lemma_value_grows(digits, at - start + 1);
        }
        if value > (usize::MAX - digit) / 10 {
            return None;
        }
        value = value * 10 + digit;
        at = at + 1;
    }
    assert(digits.take(len - start) =~= digits);
    Some(value)
}

/// The parts of a text, as the characters of each.
pub open spec fn parts_of(parts: Seq<Vec<char>>) -> Seq<Seq<char>> {
    Seq::new(parts.len(), |i: int| parts[i]@)
}

/// Splits a text at a separator.
pub fn split_text(text: &[char], separator: char) -> (parts: Vec<Vec<char>>)
    ensures
        parts_of(parts@) == split(text@, separator),
        parts@.len() > 0,
{
    let mut parts: Vec<Vec<char>> = Vec::new();
    let mut current: Vec<char> = Vec::new();
    let len: usize = text.len();
    assert(parts_of(parts@).push(current@) =~= split(text@.take(0), separator));
    for at in 0..len
        invariant
            len == text@.len(),
            parts_of(parts@).push(current@) == split(text@.take(at as int), separator),
    {
        let ghost before = parts_of(parts@);
        let ghost open = current@;
        let c: char = text[at];
        assert(text@.take(at + 1).drop_last() =~= text@.take(at as int));
        assert(text@.take(at + 1).last() == c);
        assert(before.push(open).drop_last() =~= before);
        if c == separator {
            parts.push(current);
            assert(parts_of(parts@) =~= before.push(open));
            current = Vec::new();
            assert(current@ =~= Seq::empty());
        } else {
            current.push(c);
        }
    }
    let ghost before = parts_of(parts@);
    let ghost open = current@;
    parts.push(current);
    assert(parts_of(parts@) =~= before.push(open));
    assert(text@.take(len as int) =~= text@);
    parts
}

/// The decimal text of a number is digits only, has no leading separator or
/// sign, and is worth the number.
pub proof fn lemma_decimal(number: nat)
    ensures
        decimal(number).len() > 0,
        forall|i: int|
            0 <= i < decimal(number).len() ==> is_digit(#[trigger] decimal(number)[i]),
        digits_value(decimal(number)) == number,
    decreases number,
{
    let text = decimal(number);
    if number < 10 {
        assert(text.drop_last() =~= Seq::empty());
        assert(text.last() == digit_char(number as int));
        assert(digits_value(Seq::<char>::empty()) == 0);
    } else {
        lemma_decimal(number / 10);
        assert(text.drop_last() =~= decimal(number / 10));
    }
}

/// Reading back a number that was written in decimal gives the number.
pub proof fn law_decimal_read_back(number: usize)
    ensures
        number_in(decimal(number as nat)) == Some(number),
{
    lemma_decimal(number as nat);
    assert(is_digit(decimal(number as nat)[0]));
}

/// A text without the separator is its only part.
pub proof fn lemma_split_single(text: Seq<char>, separator: char)
    requires
        forall|i: int| 0 <= i < text.len() ==> text[i] != separator,
    ensures
        split(text, separator) == seq![text],
    decreases text.len(),
{
    if text.len() == 0 {
        assert(text =~= Seq::empty());
    } else {
        lemma_split_single(text.drop_last(), separator);
        assert(seq![text.drop_last()].drop_last() =~= Seq::empty());
        assert(text.drop_last().push(text.last()) =~= text);
        assert(split(text, separator) =~= seq![text]);
    }
}

/// Parts with separators between them.
pub open spec fn glued(parts: Seq<Seq<char>>, separator: char) -> Seq<char>
    decreases parts.len(),
{
    if parts.len() == 0 {
        Seq::empty()
    } else if parts.len() == 1 {
        parts[0]
    } else {
        glued(parts.drop_last(), separator).push(separator) + parts.last()
    }
}

/// Whether a separator occurs in a text.
pub open spec fn is_free_of(text: Seq<char>, separator: char) -> bool {
    forall|i: int| 0 <= i < text.len() ==> text[i] != separator
}

/// The parts on both sides of a separator are split on their own.
pub proof fn law_split_at_separator(left: Seq<char>, separator: char, right: Seq<char>)
    ensures
        split(left.push(separator) + right, separator) == split(left, separator) + split(
            right,
            separator,
        ),
    decreases right.len(),
{
    let text = left.push(separator) + right;
    lemma_split_not_empty(left, separator);
    if right.len() == 0 {
        assert(text =~= left.push(separator));
        assert(text.drop_last() =~= left);
        assert(split(text, separator) =~= split(left, separator) + split(right, separator));
    } else {
        law_split_at_separator(left, separator, right.drop_last());
        lemma_split_not_empty(right.drop_last(), separator);
        assert(text.drop_last() =~= left.push(separator) + right.drop_last());
        assert(text.last() == right.last());
        assert(split(text, separator) =~= split(left, separator) + split(right, separator));
    }
}

proof fn lemma_split_not_empty(text: Seq<char>, separator: char)
    ensures
        split(text, separator).len() > 0,
    decreases text.len(),
{
    if text.len() > 0 {
        lemma_split_not_empty(text.drop_last(), separator);
    }
}

/// Gluing the parts of a text together gives the text back, and no part holds
/// the separator.
pub proof fn law_split_glued(text: Seq<char>, separator: char)
    ensures
        split(text, separator).len() > 0,
        glued(split(text, separator), separator) == text,
        forall|i: int|
            0 <= i < split(text, separator).len() ==> is_free_of(
                #[trigger] split(text, separator)[i],
                separator,
            ),
    decreases text.len(),
{
    let parts = split(text, separator);
    if text.len() == 0 {
        assert(glued(parts, separator) =~= text);
    } else {
        let before = split(text.drop_last(), separator);
        law_split_glued(text.drop_last(), separator);
        if text.last() == separator {
            assert(parts.drop_last() =~= before);
            assert(glued(parts, separator) =~= text);
        } else {
            assert(parts.drop_last() =~= before.drop_last());
            assert(parts.last() =~= before.last().push(text.last()));
            assert(text =~= text.drop_last().push(text.last()));
            if before.len() == 1 {
                assert(parts[0] =~= before[0].push(text.last()));
                assert(glued(parts, separator) =~= text);
            } else {
                let front = glued(before.drop_last(), separator).push(separator);
                assert(glued(before, separator) == front + before.last());
                assert(glued(parts, separator) == front + parts.last());
                assert(front + before.last().push(text.last()) =~= (front + before.last()).push(
                    text.last(),
                ));
            }
            assert forall|i: int| 0 <= i < parts.len() implies is_free_of(
                #[trigger] parts[i],
                separator,
            ) by {
                if i < parts.len() - 1 {
                    assert(parts[i] == before[i]);
                } else {
                    assert(is_free_of(before[before.len() - 1], separator));
                }
            }
        }
    }
}

/// Parts that do not hold the separator are split as they were glued.
pub proof fn law_glued_split(parts: Seq<Seq<char>>, separator: char)
    requires
        parts.len() > 0,
        forall|i: int| 0 <= i < parts.len() ==> is_free_of(#[trigger] parts[i], separator),
    ensures
        split(glued(parts, separator), separator) == parts,
    decreases parts.len(),
{
    if parts.len() == 1 {
        assert(is_free_of(parts[0], separator));
        lemma_split_single(parts[0], separator);
        assert(parts =~= seq![parts[0]]);
    } else {
        let front = parts.drop_last();
        assert forall|i: int| 0 <= i < front.len() implies is_free_of(
            #[trigger] front[i],
            separator,
        ) by {
            assert(front[i] == parts[i]);
        }
        law_glued_split(front, separator);
        law_split_at_separator(glued(front, separator), separator, parts.last());
        assert(is_free_of(parts[parts.len() - 1], separator));
        lemma_split_single(parts.last(), separator);
        assert(front + seq![parts.last()] =~= parts);
    }
}

/// One digit spells its own value.
pub proof fn law_digit_spells_itself(digit: char)
    requires
        0x30 <= digit as int <= 0x39,
    ensures
        number_in(seq![digit]) == Some((digit as int - 0x30) as usize),
{
    let text = seq![digit];
    assert(text.drop_last() =~= Seq::empty());
    assert(digits_value(text.drop_last()) == 0);
    assert(without_plus(text) =~= text);
}

/// One more digit makes a number ten times as large, and adds itself; a number
/// that a `usize` cannot hold is none.
pub proof fn law_digits_are_decimal(text: Seq<char>, digit: char)
    requires
        text.len() > 0,
        forall|i: int| 0 <= i < text.len() ==> 0x30 <= #[trigger] text[i] as int <= 0x39,
        0x30 <= digit as int <= 0x39,
    ensures
        match number_in(text) {
            Some(front) => number_in(text.push(digit)) == (if front * 10 + (digit as int - 0x30)
                <= usize::MAX {
                Some((front * 10 + (digit as int - 0x30)) as usize)
            } else {
                None
            }),
            None => number_in(text.push(digit)) is None,
        },
{
    let longer = text.push(digit);
    assert(text[0] as int >= 0x30);
    assert(without_plus(text) =~= text);
    assert(longer[0] == text[0]);
    assert(without_plus(longer) =~= longer);
    assert(longer.drop_last() =~= text);
    assert forall|i: int| 0 <= i < text.len() implies is_digit(#[trigger] text[i]) by {}
    assert forall|i: int| 0 <= i < longer.len() implies is_digit(#[trigger] longer[i]) by {
        if i < text.len() {
            assert(longer[i] == text[i]);
        }
    }
}

/// A plus sign in front changes nothing; a second one does.
pub proof fn law_plus_sign_ignored(text: Seq<char>)
    ensures
        text.len() > 0 && text[0] != '+' ==> number_in(seq!['+'] + text) == number_in(text),
        text.len() > 0 && text[0] == '+' ==> number_in(seq!['+'] + text) is None,
{
    assert((seq!['+'] + text).skip(1) =~= text);
}

/// A text without a digit spells no number, nor does one that holds anything
/// but digits behind an optional plus sign.
pub proof fn law_only_digits_spell_numbers(text: Seq<char>, at: int)
    ensures
        number_in(Seq::<char>::empty()) is None,
        number_in(seq!['+']) is None,
        0 <= at < text.len() && !(0x30 <= text[at] as int <= 0x39) && !(at == 0 && text[0] == '+')
            ==> number_in(text) is None,
{
    assert(seq!['+'].skip(1) =~= Seq::<char>::empty());
    if 0 <= at < text.len() && !(0x30 <= text[at] as int <= 0x39) && !(at == 0 && text[0] == '+') {
        let digits = without_plus(text);
        let there = if text[0] == '+' {
            at - 1
        } else {
            at
        };
        assert(digits[there] == text[at]);
        assert(!is_digit(digits[there]));
    }
}

/// A number below ten is written as its digit, and any other as the number of
/// its tens followed by the digit of its ones.
pub proof fn law_decimal_digits(tens: nat, ones: int)
    requires
        0 <= ones < 10,
    ensures
        decimal(ones as nat).len() == 1,
        decimal(ones as nat)[0] as int == 0x30 + ones,
        tens > 0 ==> decimal((tens * 10 + ones) as nat).len() == decimal(tens).len() + 1,
        tens > 0 ==> decimal((tens * 10 + ones) as nat).drop_last() == decimal(tens),
        tens > 0 ==> decimal((tens * 10 + ones) as nat).last() as int == 0x30 + ones,
{
    if tens > 0 {
        let number = (tens * 10 + ones) as nat;
        assert(number / 10 == tens && number % 10 == ones);
        assert(decimal(number).drop_last() =~= decimal(tens));
    }
}

} // verus!
