//! Text that the shell looks through or puts together: searching, comparing and decimal numbers.

use vstd::prelude::*;
use vstd::string::*;

verus! {

/// `part` stands somewhere in `text`, unbroken.
pub open spec fn contains_text(text: Seq<char>, part: Seq<char>) -> bool {
    exists|at: int|
        0 <= at <= text.len() - part.len() && #[trigger] text.subrange(at, at + part.len()) == part
}

/// `part` stands in `text` at the position `at`.
fn part_at(text: &str, part: &str, at: usize) -> (found: bool)
    requires
        at + part@.len() <= text@.len(),
        text@.len() <= usize::MAX,
    ensures
        found == (text@.subrange(at as int, at + part@.len()) == part@),
{
    let len: usize = part.unicode_len();
    let mut i: usize = 0;
    while i < len
        invariant
            i <= len,
            len == part@.len(),
            at + len <= text@.len(),
            forall|j: int| 0 <= j < i ==> text@[at + j] == part@[j],
            text@.len() <= usize::MAX,
        decreases len - i,
    {
        if text.get_char(at + i) != part.get_char(i) {
            assert(text@.subrange(at as int, at + part@.len())[i as int] != part@[i as int]);
            return false;
        }
        i = i + 1;
    }
    assert(text@.subrange(at as int, at + part@.len()) =~= part@);
    true
}

/// Whether `part` stands somewhere in `text`.
pub fn contains(text: &str, part: &str) -> (found: bool)
    ensures
        found == contains_text(text@, part@),
{
    let text_len: usize = text.unicode_len();
    let part_len: usize = part.unicode_len();
    if part_len > text_len {
        return false;
    }
    let last: usize = text_len - part_len;
    let mut at: usize = 0;
    while at < last
        invariant
            at <= last,
            text_len == text@.len(),
            part_len == part@.len(),
            last + part_len == text_len,
            forall|i: int| 0 <= i < at ==> #[trigger] text@.subrange(i, i + part_len) != part@,
        decreases last - at,
    {
        if part_at(text, part, at) {
            return true;
        }
        at = at + 1;
    }
    part_at(text, part, last)
}

/// Whether the character `c` stands in `text`.
pub fn contains_char(text: &str, c: char) -> (found: bool)
    ensures
        found == text@.contains(c),
{
    let len: usize = text.unicode_len();
    let mut i: usize = 0;
    while i < len
        invariant
            i <= len,
            len == text@.len(),
            forall|j: int| 0 <= j < i ==> text@[j] != c,
        decreases len - i,
    {
        if text.get_char(i) == c {
            return true;
        }
        i = i + 1;
    }
    false
}

/// Whether two texts are the same.
pub fn same_text(left: &str, right: &str) -> (same: bool)
    ensures
        same == (left@ == right@),
{
    left.to_string() == right.to_string()
}

/// The character of a digit; digits from ten on are lower-case letters.
pub open spec fn digit_char(digit: int) -> char {
    if digit < 10 {
        ('0' as int + digit) as char
    } else {
        ('a' as int + digit - 10) as char
    }
}

/// A number in decimal, without leading zeros.
pub open spec fn decimal_text(n: nat) -> Seq<char>
    decreases n,
{
    if n < 10 {
        seq![digit_char(n as int)]
    } else {
        decimal_text(n / 10).push(digit_char((n % 10) as int))
    }
}

/// The number that a decimal text stands for.
pub open spec fn decimal_value(text: Seq<char>) -> int
    decreases text.len(),
{
    if text.len() == 0 {
        0
    } else {
        10 * decimal_value(text.drop_last()) + (text.last() as int - '0' as int)
    }
}

fn decimal_digit(digit: u128) -> (text: &'static str)
    requires
        digit < 10,
    ensures
        text@ == seq![digit_char(digit as int)],
{
    proof {
        reveal_strlit("0");
        reveal_strlit("1");
        reveal_strlit("2");
        reveal_strlit("3");
        reveal_strlit("4");
        reveal_strlit("5");
        reveal_strlit("6");
        reveal_strlit("7");
        reveal_strlit("8");
        reveal_strlit("9");
    }
    match digit {
        0 => "0",
        1 => "1",
        2 => "2",
        3 => "3",
        4 => "4",
        5 => "5",
        6 => "6",
        7 => "7",
        8 => "8",
        _ => "9",
    }
}

/// The decimal text of a number.
pub fn decimal(n: u128) -> (text: String)
    ensures
        text@ == decimal_text(n as nat),
    decreases n,
{
    if n < 10 {
        decimal_digit(n).to_string()
    } else {
        let head = decimal(n / 10);
        let text = head.concat(decimal_digit(n % 10));
        assert(text@ =~= decimal_text(n as nat));
        text
    }
}

/// A decimal text reads back as the number it was written for.
pub proof fn decimal_text_reads_back(n: nat)
    ensures
        decimal_value(decimal_text(n)) == n,
    decreases n,
{
    reveal_with_fuel(decimal_value, 2);
    if n >= 10 {
        decimal_text_reads_back(n / 10);
        assert(decimal_text(n).drop_last() =~= decimal_text(n / 10));
    }
}

/// Two numbers with the same decimal text are the same number.
pub proof fn decimal_text_is_unique(m: nat, n: nat)
    requires
        decimal_text(m) == decimal_text(n),
    ensures
        m == n,
{
    decimal_text_reads_back(m);
    decimal_text_reads_back(n);
}

/// A decimal text holds digits only.
pub proof fn decimal_text_is_digits(n: nat)
    ensures
        decimal_text(n).len() > 0,
        forall|i: int|
            0 <= i < decimal_text(n).len() ==> '0' <= #[trigger] decimal_text(n)[i] <= '9',
    decreases n,
{
    if n >= 10 {
        decimal_text_is_digits(n / 10);
    }
}

/// Two texts of digits are the same if they are followed by something else and the whole is the
/// same.
pub proof fn digits_end_alike(
    left: Seq<char>,
    after_left: Seq<char>,
    right: Seq<char>,
    after_right: Seq<char>,
)
    requires
        forall|i: int| 0 <= i < left.len() ==> '0' <= #[trigger] left[i] <= '9',
        forall|i: int| 0 <= i < right.len() ==> '0' <= #[trigger] right[i] <= '9',
        after_left.len() > 0,
        after_right.len() > 0,
        !('0' <= after_left[0] <= '9'),
        !('0' <= after_right[0] <= '9'),
        left + after_left == right + after_right,
    ensures
        left == right,
        after_left == after_right,
{
    let whole = left + after_left;
    assert(whole[left.len() as int] == after_left[0]);
    assert((right + after_right)[right.len() as int] == after_right[0]);
    if left.len() < right.len() {
        assert((right + after_right)[left.len() as int] == right[left.len() as int]);
    }
    if right.len() < left.len() {
        assert(whole[right.len() as int] == left[right.len() as int]);
    }
    assert(left =~= whole.take(left.len() as int));
    assert(right =~= (right + after_right).take(right.len() as int));
    assert(after_left =~= whole.skip(left.len() as int));
    assert(after_right =~= (right + after_right).skip(right.len() as int));
}

/// Two texts are the same if they are the same behind the same head.
pub proof fn same_tail(head: Seq<char>, left: Seq<char>, right: Seq<char>)
    requires
        head + left == head + right,
    ensures
        left == right,
{
    assert(left =~= (head + left).skip(head.len() as int));
    assert(right =~= (head + right).skip(head.len() as int));
}

/// `text` is how the number `n` is written in decimal: digits that read as `n`, with no zero in
/// front.
pub open spec fn is_decimal_of(text: Seq<char>, n: nat) -> bool {
    &&& text.len() > 0
    &&& forall|i: int| 0 <= i < text.len() ==> '0' <= #[trigger] text[i] <= '9'
    &&& text[0] == '0' ==> text.len() == 1
    &&& decimal_value(text) == n
}

/// Every number is written as decimal numbers are.
pub proof fn decimal_text_is_decimal(n: nat)
    ensures
        is_decimal_of(decimal_text(n), n),
{
    decimal_text_reads_back(n);
    decimal_text_is_digits(n);
    no_zero_in_front(n);
}

proof fn no_zero_in_front(n: nat)
    ensures
        decimal_text(n).len() > 0,
        n > 0 ==> decimal_text(n)[0] != '0',
        n == 0 ==> decimal_text(n).len() == 1,
    decreases n,
{
    if n >= 10 {
        no_zero_in_front(n / 10);
        assert(decimal_text(n)[0] == decimal_text(n / 10)[0]);
    }
}

/// A part stands in a text exactly if the text is made of something, the part and something.
pub proof fn text_contains_what_it_is_made_of(text: Seq<char>, part: Seq<char>)
    ensures
        contains_text(text, part) <==> exists|before: Seq<char>, after: Seq<char>|
            text == #[trigger] (before + part + after),
{
    if contains_text(text, part) {
        let at = choose|at: int|
            0 <= at <= text.len() - part.len() && #[trigger] text.subrange(at, at + part.len())
                == part;
        let before = text.take(at);
        let after = text.skip(at + part.len());
        assert(text =~= before + part + after);
    }
    if exists|before: Seq<char>, after: Seq<char>| text == #[trigger] (before + part + after) {
        let (before, after) = choose|before: Seq<char>, after: Seq<char>|
            text == #[trigger] (before + part + after);
        let at = before.len() as int;
        assert(text.subrange(at, at + part.len()) =~= part);
    }
}

/// Two texts without the character `c` are the same if each is followed by `c` and the whole is
/// the same.
pub proof fn parts_end_alike(
    left: Seq<char>,
    after_left: Seq<char>,
    right: Seq<char>,
    after_right: Seq<char>,
    c: char,
)
    requires
        !left.contains(c),
        !right.contains(c),
        after_left.len() > 0,
        after_right.len() > 0,
        after_left[0] == c,
        after_right[0] == c,
        left + after_left == right + after_right,
    ensures
        left == right,
        after_left == after_right,
{
    let whole = left + after_left;
    let other = right + after_right;
    assert(whole[left.len() as int] == c);
    assert(other[right.len() as int] == c);
    if left.len() < right.len() {
        assert(other[left.len() as int] == right[left.len() as int]);
    }
    if right.len() < left.len() {
        assert(whole[right.len() as int] == left[right.len() as int]);
    }
    assert(left =~= whole.take(left.len() as int));
    assert(right =~= other.take(right.len() as int));
    assert(after_left =~= whole.skip(left.len() as int));
    assert(after_right =~= other.skip(right.len() as int));
}

} // verus!
