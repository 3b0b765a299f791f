//! Reading and writing the pieces of a node record: finding the one place
//! where a separator stands, and decimal port numbers in both directions.

use vstd::prelude::*;
use vstd::slice::slice_subrange;
use vstd::std_specs::iter::IteratorSpec;

verus! {

/// `at` is the one place in `text` where `mark` stands.
pub open spec fn only_at(text: Seq<char>, mark: char, at: int) -> bool {
    &&& 0 <= at < text.len()
    &&& text[at] == mark
    &&& forall|i: int| 0 <= i < text.len() && text[i] == mark ==> i == at
}

/// The place of the only `mark` in `text`; `None` if `text` holds none, or
/// more than one.
pub open spec fn only_index(text: Seq<char>, mark: char) -> Option<int> {
    if exists|at: int| only_at(text, mark, at) {
        Some(choose|at: int| only_at(text, mark, at))
    } else {
        None
    }
}

/// Whether `c` is one of `0` to `9`.
pub open spec fn is_decimal_digit(c: char) -> bool {
    '0' <= c && c <= '9'
}

/// The number a decimal digit stands for.
pub open spec fn digit_value(c: char) -> nat {
    (c as u32 - 48) as nat
}

/// The decimal digit that stands for `d`, for `d` below ten.
pub open spec fn digit_char(d: nat) -> char {
    ((d + 48) as u8) as char
}

/// Whether `text` holds decimal digits only.
pub open spec fn all_digits(text: Seq<char>) -> bool {
    forall|i: int| 0 <= i < text.len() ==> is_decimal_digit(#[trigger] text[i])
}

/// The number that a run of decimal digits denotes, most significant first.
pub open spec fn decimal_value(digits: Seq<char>) -> nat
    decreases digits.len(),
{
    if digits.len() == 0 {
        0
    } else {
        10 * decimal_value(digits.drop_last()) + digit_value(digits.last())
    }
}

/// `text` without one leading plus sign.
pub open spec fn without_sign(text: Seq<char>) -> Seq<char> {
    if text.len() > 0 && text[0] == '+' {
        text.skip(1)
    } else {
        text
    }
}

/// The port that `text` denotes: an optional plus sign, then one or more
/// decimal digits whose value fits sixteen bits. Anything else denotes none.
pub open spec fn port_number(text: Seq<char>) -> Option<u16> {
    let digits = without_sign(text);
    if digits.len() > 0 && all_digits(digits) && decimal_value(digits) <= u16::MAX {
        Some(decimal_value(digits) as u16)
    } else {
        None
    }
}

/// The shortest decimal writing of `n`: no sign, no leading zero.
pub open spec fn decimal_digits(n: nat) -> Seq<char>
    decreases n,
{
    if n < 10 {
        seq![digit_char(n)]
    } else {
        decimal_digits(n / 10).push(digit_char(n % 10))
    }
}

/// Whether `text` is written the shortest way: digits only, at least one, and
/// no leading zero but in `0` itself.
pub open spec fn is_shortest_decimal(text: Seq<char>) -> bool {
    &&& text.len() > 0
    &&& all_digits(text)
    &&& text.len() > 1 ==> text[0] != '0'
}

/// If `mark` stands at `at` and nowhere else, `at` is what `only_index` finds.
pub proof fn lemma_only_index_is(text: Seq<char>, mark: char, at: int)
    requires
        only_at(text, mark, at),
    ensures
        only_index(text, mark) == Some(at),
{
    let found = choose|at: int| only_at(text, mark, at);
    assert(only_at(text, mark, found));
}

/// What `only_index` finds is the one place where `mark` stands.
pub proof fn lemma_only_index_found(text: Seq<char>, mark: char)
    requires
        only_index(text, mark) is Some,
    ensures
        only_at(text, mark, only_index(text, mark)->0),
{
}

/// A longer run of digits denotes no smaller a number than its beginning.
pub proof fn lemma_decimal_value_grows(digits: Seq<char>, len: int)
    requires
        0 <= len <= digits.len(),
        all_digits(digits),
    ensures
        decimal_value(digits.take(len)) <= decimal_value(digits),
    decreases digits.len(),
{
    if len < digits.len() {
        assert(digits.drop_last().take(len) == digits.take(len));
        lemma_decimal_value_grows(digits.drop_last(), len);
    } else {
        assert(digits.take(len) == digits);
    }
}

/// The shortest writing of a number is made of digits, has no sign, denotes
/// the number, and is written the shortest way.
pub proof fn lemma_decimal_digits_denote(n: nat)
    ensures
        is_shortest_decimal(decimal_digits(n)),
        decimal_value(decimal_digits(n)) == n,
        without_sign(decimal_digits(n)) == decimal_digits(n),
        n > 0 ==> decimal_digits(n)[0] != '0',
        n <= u16::MAX ==> port_number(decimal_digits(n)) == Some(n as u16),
    decreases n,
{
    let digits = decimal_digits(n);
    if n < 10 {
        assert(digits.drop_last() =~= Seq::<char>::empty());
        assert(decimal_value(digits) == 10 * decimal_value(digits.drop_last()) + digit_value(
            digits.last(),
        ));
    } else {
        lemma_decimal_digits_denote(n / 10);
        let front = decimal_digits(n / 10);
        assert(digits.drop_last() =~= front);
        assert(digits[0] == front[0]);
        assert(decimal_value(digits) == 10 * decimal_value(front) + digit_value(digits.last()));
        assert forall|i: int| 0 <= i < digits.len() implies is_decimal_digit(
            #[trigger] digits[i],
        ) by {
            if i < front.len() {
                assert(digits[i] == front[i]);
            }
        }
    }
}

/// A number written the shortest way is the shortest writing of what it
/// denotes: reading it and writing it again gives the same digits.
pub proof fn lemma_shortest_decimal_is_kept(text: Seq<char>)
    requires
        is_shortest_decimal(text),
    ensures
        decimal_digits(decimal_value(text)) == text,
    decreases text.len(),
{
    let front = text.drop_last();
    let last = text.last();
    assert(is_decimal_digit(last));
    if text.len() == 1 {
        assert(front =~= Seq::<char>::empty());
        assert(decimal_value(front) == 0);
        assert(decimal_value(text) == digit_value(last));
        assert(decimal_digits(decimal_value(text)) =~= text);
    } else {
        assert forall|i: int| 0 <= i < front.len() implies is_decimal_digit(
            #[trigger] front[i],
        ) by {
            assert(front[i] == text[i]);
        }
        assert(front[0] == text[0]);
        lemma_shortest_decimal_is_kept(front);
        lemma_leading_digit_counts(front);
        let value = decimal_value(text);
        assert(value == 10 * decimal_value(front) + digit_value(last));
        assert(value / 10 == decimal_value(front));
        assert(value % 10 == digit_value(last));
        assert(decimal_digits(value) =~= text);
    }
}

/// A run of two or more digits that does not start with zero, and a single
/// digit other than zero, denote a positive number.
proof fn lemma_leading_digit_counts(digits: Seq<char>)
    requires
        digits.len() > 0,
        all_digits(digits),
        digits[0] != '0',
    ensures
        decimal_value(digits) > 0,
    decreases digits.len(),
{
    if digits.len() == 1 {
        assert(digits.drop_last() =~= Seq::<char>::empty());
        assert(decimal_value(digits.drop_last()) == 0);
        assert(is_decimal_digit(digits[0]));
    } else {
        let front = digits.drop_last();
        assert forall|i: int| 0 <= i < front.len() implies is_decimal_digit(
            #[trigger] front[i],
        ) by {
            assert(front[i] == digits[i]);
        }
        assert(front[0] == digits[0]);
        lemma_leading_digit_counts(front);
    }
}

/// The characters of a string slice, in order.
pub fn to_chars(text: &str) -> (chars: Vec<char>)
    ensures
        chars@ == text@,
{
    let total = text.unicode_len();
    let mut chars: Vec<char> = Vec::new();
    let mut rest = text.chars();
    while chars.len() < total
        invariant
            chars@ + rest.remaining() == text@,
            total == text@.len(),
        decreases total - chars.len(),
    {
        match rest.next() {
            Some(c) => {
                chars.push(c);
            },
            None => {
            },
        }
    }
    chars
}

/// Finds the place of the only `mark` in `text`.
pub fn find_only(text: &[char], mark: char) -> (found: Option<usize>)
    ensures
        match found {
            Some(at) => only_index(text@, mark) == Some(at as int) && only_at(
                text@,
                mark,
                at as int,
            ),
            None => only_index(text@, mark) is None,
        },
{
    let mut found: Option<usize> = None;
    let mut i: usize = 0;
    while i < text.len()
        invariant
            i <= text.len(),
            match found {
                Some(at) => only_at(text@.take(i as int), mark, at as int),
                None => forall|j: int| 0 <= j < i ==> text@[j] != mark,
            },
        decreases text.len() - i,
    {
        if text[i] == mark {
            if found.is_some() {
                proof {
                    let first = found->0 as int;
                    assert(text@.take(i as int)[first] == mark);
                    if only_index(text@, mark) is Some {
                        let at = only_index(text@, mark)->0;
                        assert(text@[first] == mark);
                        assert(text@[i as int] == mark);
                    }
                }
                return None;
            }
            found = Some(i);
        }
        proof {
            let before = text@.take(i as int);
            let after = text@.take(i + 1);
            assert(forall|j: int| 0 <= j < i ==> before[j] == after[j]);
        }
        i += 1;
    }
    proof {
        assert(text@.take(i as int) == text@);
        match found {
            Some(at) => {
                lemma_only_index_is(text@, mark, at as int);
            },
            None => {
            },
        }
    }
    found
}

/// The number a decimal digit stands for; `None` for any other character.
pub fn digit_of(c: char) -> (digit: Option<u8>)
    ensures
        digit is Some <==> is_decimal_digit(c),
        digit matches Some(d) ==> d == digit_value(c) && d < 10,
{
    if c >= '0' && c <= '9' {
        Some((c as u32 - 48) as u8)
    } else {
        None
    }
}

/// Reads a port number: an optional plus sign, then decimal digits, with a
/// value of at most 65535.
pub fn parse_port(text: &[char]) -> (port: Option<u16>)
    ensures
        port == port_number(text@),
{
    let start: usize = if text.len() > 0 && text[0] == '+' {
        1
    } else {
        0
    };
    let digits = slice_subrange(text, start, text.len());
    assert(digits@ == without_sign(text@));
    if digits.len() == 0 {
        return None;
    }
    let mut value: u32 = 0;
    let mut i: usize = 0;
    while i < digits.len()
        invariant
            i <= digits.len(),
            digits@ == without_sign(text@),
            digits@.len() > 0,
            all_digits(digits@.take(i as int)),
            value == decimal_value(digits@.take(i as int)),
            value <= u16::MAX,
        decreases digits.len() - i,
    {
        let ghost before = digits@.take(i as int);
        let ghost after = digits@.take(i + 1);
        proof {
            assert(after.drop_last() == before);
            assert(after.last() == digits@[i as int]);
        }
        match digit_of(digits[i]) {
            Some(d) => {
                value = value * 10 + d as u32;
                proof {
                    assert forall|j: int| 0 <= j < after.len() implies is_decimal_digit(
                        #[trigger] after[j],
                    ) by {
                        if j < i {
                            assert(after[j] == before[j]);
                        }
                    }
                }
                if value > 65535 {
                    proof {
                        if all_digits(digits@) {
                            lemma_decimal_value_grows(digits@, i + 1);
                        }
                    }
                    return None;
                }
            },
            None => {
                assert(!is_decimal_digit(digits@[i as int]));
                return None;
            },
        }
        i += 1;
    }
    assert(digits@.take(i as int) == digits@);
    Some(value as u16)
}

/// The text of one decimal digit.
fn digit_text(d: u8) -> (text: &'static str)
    requires
        d < 10,
    ensures
        text@ == seq![digit_char(d as nat)],
{
    proof {
        reveal_strlit("0");
        reveal_strlit("1");
        reveal_strlit("2");
        reveal_strlit("3");
        reveal_strlit("4");
        reveal_strlit("5");
        reveal_strlit("6");
        reveal_strlit("7");
        reveal_strlit("8");
        reveal_strlit("9");
    }
    let text = match d {
        0 => "0",
        1 => "1",
        2 => "2",
        3 => "3",
        4 => "4",
        5 => "5",
        6 => "6",
        7 => "7",
        8 => "8",
        _ => "9",
    };
    assert(text@ =~= seq![digit_char(d as nat)]);
    text
}

/// Appends the shortest decimal writing of `n` to `out`.
pub fn push_decimal(out: &mut String, n: u16)
    ensures
        final(out)@ == old(out)@ + decimal_digits(n as nat),
    decreases n,
{
    if n >= 10 {
        push_decimal(out, n / 10);
    }
    out.append(digit_text((n % 10) as u8));
    proof {
        let front = if n >= 10 {
            decimal_digits((n / 10) as nat)
        } else {
            Seq::<char>::empty()
        };
        assert(decimal_digits(n as nat) =~= front + seq![digit_char((n % 10) as nat)]);
        assert(final(out)@ =~= old(out)@ + decimal_digits(n as nat));
    }
}

} // verus!
