//! Small text operations that the rest of the library is written with.
use vstd::prelude::*;
use vstd::string::{StrSliceExecFns, StringExecFns};

verus! {

/// The character of a decimal digit.
pub open spec fn digit_char(d: nat) -> char {
    if d == 0 {
        '0'
    } else if d == 1 {
        '1'
    } else if d == 2 {
        '2'
    } else if d == 3 {
        '3'
    } else if d == 4 {
        '4'
    } else if d == 5 {
        '5'
    } else if d == 6 {
        '6'
    } else if d == 7 {
        '7'
    } else if d == 8 {
        '8'
    } else {
        '9'
    }
}

/// A number written in decimal, without leading zeros.
pub open spec fn decimal_digits(n: nat) -> Seq<char>
    decreases n,
{
    if n < 10 {
        seq![digit_char(n)]
    } else {
        decimal_digits(n / 10).push(digit_char(n % 10))
    }
}

/// The number that a text of decimal digits stands for.
pub open spec fn decimal_value(digits: Seq<char>) -> int
    decreases digits.len(),
{
    if digits.len() == 0 {
        0
    } else {
        10 * decimal_value(digits.drop_last()) + (digits.last() as int - 48)
    }
}

/// A number is written so that it can be read back: only with the digits from 0 to 9,
/// which stand for it, and without leading zeros.
pub proof fn law_decimal_reads_back(n: nat)
    ensures
        decimal_value(decimal_digits(n)) == n,
        forall|i: int|
            0 <= i < decimal_digits(n).len() ==> '0' <= #[trigger] decimal_digits(n)[i] <= '9',
        decimal_digits(n).len() > 0,
        n > 0 ==> decimal_digits(n)[0] != '0',
    decreases n,
{
    let digits = decimal_digits(n);
    if n >= 10 {
        law_decimal_reads_back(n / 10);
        assert(digits.drop_last() =~= decimal_digits(n / 10));
        assert(digits[0] == decimal_digits(n / 10)[0]);
    } else {
        assert(digits.drop_last() =~= seq![]);
        assert(decimal_value(digits.drop_last()) == 0);
    }
}

/// Different numbers are written differently.
pub proof fn law_decimal_is_unique(first: nat, second: nat)
    requires
        decimal_digits(first) == decimal_digits(second),
    ensures
        first == second,
{
    law_decimal_reads_back(first);
    law_decimal_reads_back(second);
}

fn digit_text(d: u64) -> (r: &'static str)
    requires
        d < 10,
    ensures
        r@ == seq![digit_char(d as nat)],
{
    proof {
        reveal_strlit("0");
        reveal_strlit("1");
        reveal_strlit("2");
        reveal_strlit("3");
        reveal_strlit("4");
        reveal_strlit("5");
        reveal_strlit("6");
        reveal_strlit("7");
        reveal_strlit("8");
        reveal_strlit("9");
    }
    match d {
        0 => "0",
        1 => "1",
        2 => "2",
        3 => "3",
        4 => "4",
        5 => "5",
        6 => "6",
        7 => "7",
        8 => "8",
        _ => "9",
    }
}

/// Writes a number in decimal.
pub fn decimal(n: u64) -> (r: String)
    ensures
        r@ == decimal_digits(n as nat),
        decimal_value(r@) == n,
    decreases n,
{
    proof {
        law_decimal_reads_back(n as nat);
    }
    if n < 10 {
        digit_text(n).to_owned()
    } else {
        let mut head = decimal(n / 10);
        head.append(digit_text(n % 10));
        head
    }
}

/// Two texts one after the other.
pub fn concat(first: &str, second: &str) -> (r: String)
    ensures
        r@ == first@ + second@,
{
    let mut r = first.to_owned();
    r.append(second);
    r
}

/// The characters of a text.
pub fn characters(s: &str) -> (r: Vec<char>)
    ensures
        r@ == s@,
{
    let mut r: Vec<char> = Vec::new();
    for c in it: s.chars()
        invariant
            r@ == it.seq().take(it.index()),
            it.seq() == s@,
    {
        r.push(c);
    }
    r
}

/// Whether `s` begins with `prefix`.
pub fn starts_with(s: &str, prefix: &str) -> (r: bool)
    ensures
        r == prefix@.is_prefix_of(s@),
{
    let text = characters(s);
    let start = characters(prefix);
    matches_at(&text, 0, text.len(), &start)
}

/// Whether the part of `text` from `from` to `to` begins with `prefix`.
pub fn matches_at(text: &Vec<char>, from: usize, to: usize, prefix: &Vec<char>) -> (r: bool)
    requires
        from <= to <= text@.len(),
    ensures
        r == prefix@.is_prefix_of(text@.subrange(from as int, to as int)),
{
    if to - from < prefix.len() {
        return false;
    }
    let mut i: usize = 0;
    while i < prefix.len()
        invariant
            i <= prefix@.len(),
            from <= to <= text@.len(),
            prefix@.len() <= to - from,
            forall|k: int| 0 <= k < i ==> text@[from + k] == #[trigger] prefix@[k],
        decreases prefix@.len() - i,
    {
        if text[from + i] != prefix[i] {
            assert(text@.subrange(from as int, to as int)[i as int] != prefix@[i as int]);
            return false;
        }
        i += 1;
    }
    assert(text@.subrange(from as int, to as int).subrange(0, prefix@.len() as int) =~= prefix@);
    true
}

} // verus!
