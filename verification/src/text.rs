//! Texts as sequences of characters: comparing and splitting them, and
//! numbers written in decimal digits.

use vstd::prelude::*;

verus! {

/// Whether two texts hold the same characters.
pub fn same_text(a: &str, b: &str) -> (same: bool)
    ensures
        same == (a@ == b@),
{
    let x = a.to_owned();
    let y = b.to_owned();
    x == y
}

/// The place of the first `separator` in `text`, or the length of `text`
/// where it holds none.
pub open spec fn first_separator(text: Seq<char>, separator: char) -> int
    decreases text.len(),
{
    if text.len() == 0 || text[0] == separator {
        0
    } else {
        1 + first_separator(text.drop_first(), separator)
    }
}

/// The pieces of `text` between its separators, in order. A text without a
/// separator is one piece; a separator at either end has an empty piece
/// beside it.
pub open spec fn split(text: Seq<char>, separator: char) -> Seq<Seq<char>>
    decreases text.len(),
{
    let i = first_separator(text, separator);
    if 0 <= i < text.len() {
        seq![text.subrange(0, i)] + split(text.subrange(i + 1, text.len() as int), separator)
    } else {
        seq![text]
    }
}

/// The first separator lies where a separator stands with none before it.
pub proof fn lemma_first_separator_at(text: Seq<char>, separator: char, k: int)
    requires
        0 <= k <= text.len(),
        forall|j: int| 0 <= j < k ==> text[j] != separator,
        k < text.len() ==> text[k] == separator,
    ensures
        first_separator(text, separator) == k,
    decreases k,
{
    if k > 0 {
        let rest = text.drop_first();
        assert forall|j: int| 0 <= j < k - 1 implies rest[j] != separator by {
            assert(rest[j] == text[j + 1]);
        }
        lemma_first_separator_at(rest, separator, k - 1);
    }
}

/// Splitting yields at least one piece.
pub proof fn lemma_split_is_not_empty(text: Seq<char>, separator: char)
    ensures
        split(text, separator).len() >= 1,
    decreases text.len(),
{
    let i = first_separator(text, separator);
    if 0 <= i < text.len() {
        lemma_split_is_not_empty(text.subrange(i + 1, text.len() as int), separator);
    }
}

/// Whether `text` holds no `separator`.
pub open spec fn free_of(text: Seq<char>, separator: char) -> bool {
    forall|i: int| 0 <= i < text.len() ==> text[i] != separator
}

/// A text without a separator is one piece.
pub proof fn lemma_split_without_separator(text: Seq<char>, separator: char)
    requires
        free_of(text, separator),
    ensures
        split(text, separator) == seq![text],
{
    lemma_first_separator_at(text, separator, text.len() as int);
}

/// A text is split at its first separator: what stands before it is the
/// first piece, and the other pieces are those of what stands behind it.
pub proof fn lemma_split_at_first_separator(head: Seq<char>, separator: char, tail: Seq<char>)
    requires
        free_of(head, separator),
    ensures
        split(head + seq![separator] + tail, separator) == seq![head] + split(tail, separator),
{
    let text = head + seq![separator] + tail;
    let k = head.len() as int;
    assert forall|j: int| 0 <= j < k implies text[j] != separator by {
        assert(text[j] == head[j]);
    }
    assert(text[k] == separator);
    lemma_first_separator_at(text, separator, k);
    assert(text.subrange(0, k) =~= head);
    assert(text.subrange(k + 1, text.len() as int) =~= tail);
}

/// The pieces put together again, with a separator between each two. No
/// pieces make the empty text.
pub open spec fn join(pieces: Seq<Seq<char>>, separator: char) -> Seq<char>
    decreases pieces.len(),
{
    if pieces.len() == 0 {
        Seq::empty()
    } else if pieces.len() == 1 {
        pieces[0]
    } else {
        pieces[0] + seq![separator] + join(pieces.drop_first(), separator)
    }
}

/// Pieces that hold no separator are got back when the text they were
/// joined to is split.
pub proof fn lemma_split_of_joined(pieces: Seq<Seq<char>>, separator: char)
    requires
        pieces.len() > 0,
        forall|i: int| 0 <= i < pieces.len() ==> free_of(#[trigger] pieces[i], separator),
    ensures
        split(join(pieces, separator), separator) == pieces,
    decreases pieces.len(),
{
    if pieces.len() == 1 {
        lemma_split_without_separator(pieces[0], separator);
        assert(seq![pieces[0]] =~= pieces);
    } else {
        let rest = pieces.drop_first();
        assert forall|i: int| 0 <= i < rest.len() implies free_of(
            #[trigger] rest[i],
            separator,
        ) by {
            assert(rest[i] == pieces[i + 1]);
        }
        lemma_split_of_joined(rest, separator);
        lemma_split_at_first_separator(pieces[0], separator, join(rest, separator));
        assert(seq![pieces[0]] + rest =~= pieces);
    }
}

/// A text is got back when its pieces are joined.
pub proof fn lemma_join_of_split(text: Seq<char>, separator: char)
    ensures
        join(split(text, separator), separator) == text,
    decreases text.len(),
{
    let i = first_separator(text, separator);
    lemma_first_separator_in_range(text, separator);
    if 0 <= i < text.len() {
        let tail = text.subrange(i + 1, text.len() as int);
        lemma_join_of_split(tail, separator);
        lemma_split_is_not_empty(tail, separator);
        let pieces = seq![text.subrange(0, i)] + split(tail, separator);
        assert(pieces.drop_first() =~= split(tail, separator));
        assert(text.subrange(0, i) + seq![separator] + tail =~= text);
    }
}

/// The first separator lies within the text or at its end, and it is a
/// separator where it lies within.
pub proof fn lemma_first_separator_in_range(text: Seq<char>, separator: char)
    ensures
        0 <= first_separator(text, separator) <= text.len(),
        first_separator(text, separator) < text.len() ==> text[first_separator(text, separator)]
            == separator,
    decreases text.len(),
{
    if text.len() > 0 && text[0] != separator {
        lemma_first_separator_in_range(text.drop_first(), separator);
    }
}

/// Two texts without a separator make one without it.
pub proof fn lemma_free_of_both(a: Seq<char>, b: Seq<char>, separator: char)
    requires
        free_of(a, separator),
        free_of(b, separator),
    ensures
        free_of(a + b, separator),
{
    assert forall|i: int| 0 <= i < (a + b).len() implies (a + b)[i] != separator by {
        if i < a.len() {
            assert((a + b)[i] == a[i]);
        } else {
            assert((a + b)[i] == b[i - a.len()]);
        }
    }
}

/// Computes `split`.
pub fn split_text(text: &str, separator: char) -> (pieces: Vec<String>)
    ensures
        pieces.deep_view() == split(text@, separator),
{
    let n = text.unicode_len();
    let mut pieces: Vec<String> = Vec::new();
    let mut start: usize = 0;
    let mut pos: usize = 0;
    proof {
        assert(text@.subrange(0, n as int) =~= text@);
        assert(pieces.deep_view() =~= Seq::<Seq<char>>::empty());
        assert(pieces.deep_view() + split(text@, separator) =~= split(text@, separator));
    }
    while pos < n
        invariant
            start <= pos <= n,
            n == text@.len(),
            forall|j: int| start <= j < pos ==> text@[j] != separator,
            split(text@, separator) == pieces.deep_view() + split(
                text@.subrange(start as int, n as int),
                separator,
            ),
        decreases n - pos,
    {
        if text.get_char(pos) == separator {
            let piece = text.substring_char(start, pos).to_owned();
            proof {
                let rest = text@.subrange(start as int, n as int);
                assert forall|j: int| 0 <= j < pos - start implies rest[j] != separator by {
                    assert(rest[j] == text@[start + j]);
                }
                lemma_first_separator_at(rest, separator, pos - start);
                assert(rest.subrange(0, pos - start) =~= text@.subrange(start as int, pos as int));
                assert(rest.subrange(pos - start + 1, rest.len() as int) =~= text@.subrange(
                    pos + 1,
                    n as int,
                ));
                assert(pieces.deep_view().push(piece@) + split(
                    text@.subrange(pos + 1, n as int),
                    separator,
                ) =~= pieces.deep_view() + split(rest, separator));
            }
            let ghost before = pieces.deep_view();
            pieces.push(piece);
            assert(pieces.deep_view() =~= before.push(piece@));
            start = pos + 1;
        }
        pos += 1;
    }
    let last = text.substring_char(start, n).to_owned();
    proof {
        let rest = text@.subrange(start as int, n as int);
        assert forall|j: int| 0 <= j < rest.len() implies rest[j] != separator by {
            assert(rest[j] == text@[start + j]);
        }
        lemma_first_separator_at(rest, separator, rest.len() as int);
        assert(split(rest, separator) =~= seq![rest]);
    }
    let ghost before = pieces.deep_view();
    pieces.push(last);
    assert(pieces.deep_view() =~= before.push(last@));
    assert(before.push(last@) =~= before + seq![last@]);
    pieces
}

/// The character of a decimal digit.
pub open spec fn digit_char(digit: int) -> char {
    if digit == 0 {
        '0'
    } else if digit == 1 {
        '1'
    } else if digit == 2 {
        '2'
    } else if digit == 3 {
        '3'
    } else if digit == 4 {
        '4'
    } else if digit == 5 {
        '5'
    } else if digit == 6 {
        '6'
    } else if digit == 7 {
        '7'
    } else if digit == 8 {
        '8'
    } else {
        '9'
    }
}

/// A number written in decimal digits, without leading zeros.
pub open spec fn decimal(n: nat) -> Seq<char>
    decreases n,
{
    if n < 10 {
        seq![digit_char(n as int)]
    } else {
        decimal(n / 10).push(digit_char((n % 10) as int))
    }
}

fn digit_text(digit: u64) -> (text: &'static str)
    requires
        digit < 10,
    ensures
        text@ == seq![digit_char(digit as int)],
{
    proof {
        reveal_strlit("0");
        reveal_strlit("1");
        reveal_strlit("2");
        reveal_strlit("3");
        reveal_strlit("4");
        reveal_strlit("5");
        reveal_strlit("6");
        reveal_strlit("7");
        reveal_strlit("8");
        reveal_strlit("9");
    }
    let text = if digit == 0 {
        "0"
    } else if digit == 1 {
        "1"
    } else if digit == 2 {
        "2"
    } else if digit == 3 {
        "3"
    } else if digit == 4 {
        "4"
    } else if digit == 5 {
        "5"
    } else if digit == 6 {
        "6"
    } else if digit == 7 {
        "7"
    } else if digit == 8 {
        "8"
    } else {
        "9"
    };
    assert(text@ =~= seq![digit_char(digit as int)]);
    text
}

/// Writes `n` in decimal digits behind what `out` holds.
pub fn append_decimal(out: &mut String, n: u64)
    ensures
        final(out)@ == old(out)@ + decimal(n as nat),
    decreases n,
{
    if n >= 10 {
        append_decimal(out, n / 10);
    }
    out.append(digit_text(n % 10));
    assert(out@ =~= old(out)@ + decimal(n as nat));
}

/// Computes `decimal`.
pub fn decimal_text(n: u64) -> (text: String)
    ensures
        text@ == decimal(n as nat),
{
    let mut text = String::new();
    append_decimal(&mut text, n);
    assert(text@ =~= decimal(n as nat));
    text
}

/// Whether a character is a decimal digit.
pub open spec fn is_digit(c: char) -> bool {
    48 <= c as u32 <= 57
}

/// The number that a text of decimal digits stands for.
pub open spec fn digits_value(digits: Seq<char>) -> nat
    decreases digits.len(),
{
    if digits.len() == 0 {
        0
    } else {
        (digits_value(digits.drop_last()) * 10 + (digits.last() as u32 - 48)) as nat
    }
}

/// What is left of a number's text when a plus sign at its front is taken
/// away.
pub open spec fn unsigned_part(text: Seq<char>) -> Seq<char> {
    if text.len() > 0 && text[0] == '+' {
        text.drop_first()
    } else {
        text
    }
}

/// The number a text stands for: decimal digits, at least one, with or
/// without a plus sign before them, that make a number no larger than the
/// largest `u32`. Any other text stands for no number.
pub open spec fn parsed_u32(text: Seq<char>) -> Option<u32> {
    let digits = unsigned_part(text);
    if digits.len() > 0 && (forall|i: int| 0 <= i < digits.len() ==> is_digit(digits[i]))
        && digits_value(digits) <= u32::MAX {
        Some(digits_value(digits) as u32)
    } else {
        None
    }
}

/// The decimal digits of a number are digits, and stand for the number.
pub proof fn lemma_decimal_stands_for_its_number(n: nat)
    ensures
        decimal(n).len() > 0,
        forall|i: int| 0 <= i < decimal(n).len() ==> is_digit(#[trigger] decimal(n)[i]),
        digits_value(decimal(n)) == n,
    decreases n,
{
    let digit = digit_char((n % 10) as int);
    assert(digit as u32 == 48 + n % 10);
    if n < 10 {
        assert(decimal(n).drop_last() =~= Seq::<char>::empty());
        assert(digits_value(decimal(n).drop_last()) == 0);
    } else {
        lemma_decimal_stands_for_its_number(n / 10);
        assert(decimal(n).drop_last() =~= decimal(n / 10));
        assert(decimal(n).last() == digit);
    }
}

/// A number written in decimal digits is read back as itself.
pub proof fn lemma_written_number_is_read_back(n: u32)
    ensures
        parsed_u32(decimal(n as nat)) == Some(n),
{
    lemma_decimal_stands_for_its_number(n as nat);
    assert(is_digit(decimal(n as nat)[0]));
    assert(unsigned_part(decimal(n as nat)) == decimal(n as nat));
}

/// Computes `parsed_u32`.
pub fn parse_u32(text: &str) -> (number: Option<u32>)
    ensures
        number == parsed_u32(text@),
{
    let n = text.unicode_len();
    let start: usize = if n > 0 && text.get_char(0) == '+' {
        1
    } else {
        0
    };
    let ghost digits = unsigned_part(text@);
    assert(digits =~= text@.subrange(start as int, n as int));
    if start == n {
        return None;
    }
    let mut value: u64 = 0;
    let mut too_large: bool = false;
    let mut i: usize = start;
    assert(digits.subrange(0, 0) =~= Seq::<char>::empty());
    while i < n
        invariant
            start <= i <= n,
            n == text@.len(),
            digits == unsigned_part(text@),
            digits == text@.subrange(start as int, n as int),
            forall|j: int| 0 <= j < i - start ==> is_digit(digits[j]),
            !too_large ==> value == digits_value(digits.subrange(0, i - start)) && value
                <= u32::MAX,
            too_large ==> digits_value(digits.subrange(0, i - start)) > u32::MAX,
        decreases n - i,
    {
        let c = text.get_char(i);
        assert(c == digits[i - start]);
        let code = c as u32;
        if code < 48 || code > 57 {
            assert(!is_digit(digits[i - start]));
            return None;
        }
        proof {
            let prefix = digits.subrange(0, i - start + 1);
            assert(prefix.drop_last() =~= digits.subrange(0, i - start));
            assert(prefix.last() == c);
        }
        if !too_large {
            value = value * 10 + (code - 48) as u64;
            if value > 0xFFFF_FFFF {
                too_large = true;
            }
        }
        i += 1;
    }
    assert(digits.subrange(0, n - start) =~= digits);
    if too_large {
        None
    } else {
        Some(value as u32)
    }
}

} // verus!
