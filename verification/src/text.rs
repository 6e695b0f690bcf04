//! Text helpers: decimal rendering of integers and removal of a character.

use vstd::prelude::*;

verus! {

/// The character of a decimal digit `d` (`0 <= d < 10`).
pub open spec fn digit_char(d: int) -> char {
    if d == 0 { '0' }
    else if d == 1 { '1' }
    else if d == 2 { '2' }
    else if d == 3 { '3' }
    else if d == 4 { '4' }
    else if d == 5 { '5' }
    else if d == 6 { '6' }
    else if d == 7 { '7' }
    else if d == 8 { '8' }
    else { '9' }
}

/// The decimal digits of a natural number, most significant first, without
/// leading zeros (zero is the single digit `0`).
pub open spec fn nat_decimal(n: nat) -> Seq<char>
    decreases n,
{
    if n < 10 {
        seq![digit_char(n as int)]
    } else {
        nat_decimal(n / 10).push(digit_char((n % 10) as int))
    }
}

/// The decimal form of an integer, as `Display` writes it: a `-` before the
/// digits of the magnitude of a negative number.
pub open spec fn int_decimal(n: int) -> Seq<char> {
    if n < 0 {
        seq!['-'] + nat_decimal((-n) as nat)
    } else {
        nat_decimal(n as nat)
    }
}

/// `s` with every occurrence of `c` taken out, the other characters kept in order.
pub open spec fn without_char(s: Seq<char>, c: char) -> Seq<char>
    decreases s.len(),
{
    if s.len() == 0 {
        Seq::empty()
    } else {
        let rest = without_char(s.drop_last(), c);
        if s.last() == c {
            rest
        } else {
            rest.push(s.last())
        }
    }
}

/// `String::push`: appends one character to the end of the string.
#[verifier::external_body]
pub(crate) fn push_char(s: &mut String, c: char)
    ensures
        final(s)@ == old(s)@.push(c),
{
    s.push(c);
}

/// The character of the digit `d`.
fn digit(d: u64) -> (c: char)
    requires
        d < 10,
    ensures
        c == digit_char(d as int),
{
    if d == 0 { '0' }
    else if d == 1 { '1' }
    else if d == 2 { '2' }
    else if d == 3 { '3' }
    else if d == 4 { '4' }
    else if d == 5 { '5' }
    else if d == 6 { '6' }
    else if d == 7 { '7' }
    else if d == 8 { '8' }
    else { '9' }
}

/// Appends the decimal digits of `n` to `out`.
fn push_nat_decimal(out: &mut String, n: u64)
    ensures
        final(out)@ == old(out)@ + nat_decimal(n as nat),
    decreases n,
{
    let ghost start = out@;
    if n >= 10 {
        push_nat_decimal(out, n / 10);
    }
    push_char(out, digit(n % 10));
    proof {
        if n >= 10 {
            assert(out@ =~= start + nat_decimal((n / 10) as nat).push(digit_char((n % 10) as int)));
        } else {
            assert(out@ =~= start + seq![digit_char(n as int)]);
        }
    }
}

/// Appends the decimal form of `n` to `out`.
pub fn push_i64_decimal(out: &mut String, n: i64)
    ensures
        final(out)@ == old(out)@ + int_decimal(n as int),
{
    if n < 0 {
        let ghost start = out@;
        push_char(out, '-');
        let magnitude: u64 = if n == i64::MIN {
            9223372036854775808u64
        } else {
            (-n) as u64
        };
        push_nat_decimal(out, magnitude);
        assert(out@ =~= start + (seq!['-'] + nat_decimal((-n) as nat)));
    } else {
        push_nat_decimal(out, n as u64);
    }
}

/// The decimal form of `n`, as `n.to_string()` gives it.
pub fn i64_to_decimal(n: i64) -> (s: String)
    ensures
        s@ == int_decimal(n as int),
{
    let mut s = String::new();
    push_i64_decimal(&mut s, n);
    assert(s@ =~= int_decimal(n as int));
    s
}

/// `s` with every `c` removed, as `s.replace(c, "")` gives it.
pub fn remove_char(s: &str, c: char) -> (r: String)
    ensures
        r@ == without_char(s@, c),
{
    let mut r = String::new();
    let n = s.unicode_len();
    let mut i: usize = 0;
    while i < n
        invariant
            n == s@.len(),
            i <= n,
            r@ == without_char(s@.take(i as int), c),
        decreases n - i,
    {
        let x = s.get_char(i);
        assert(s@.take(i + 1).drop_last() =~= s@.take(i as int));
        if x != c {
            push_char(&mut r, x);
        }
        i = i + 1;
    }
    assert(s@.take(n as int) =~= s@);
    r
}

/// After removal, `c` no longer occurs.
pub proof fn lemma_without_char_excludes(s: Seq<char>, c: char)
    ensures
        !without_char(s, c).contains(c),
    decreases s.len(),
{
    if s.len() > 0 {
        lemma_without_char_excludes(s.drop_last(), c);
        let rest = without_char(s.drop_last(), c);
        if s.last() != c {
            assert forall|i: int| 0 <= i < rest.push(s.last()).len() implies
                rest.push(s.last())[i] != c by {
                if i < rest.len() {
                    assert(rest[i] != c);
                }
            }
        }
    }
}

/// A text without `c` is left as it is.
pub proof fn lemma_without_char_identity(s: Seq<char>, c: char)
    requires
        !s.contains(c),
    ensures
        without_char(s, c) == s,
    decreases s.len(),
{
    if s.len() > 0 {
        assert(!s.drop_last().contains(c)) by {
            if s.drop_last().contains(c) {
                let i = choose|i: int| 0 <= i < s.drop_last().len() && s.drop_last()[i] == c;
                assert(s[i] == c);
            }
        }
        lemma_without_char_identity(s.drop_last(), c);
        assert(s[s.len() - 1] != c);
        assert(s.drop_last().push(s.last()) =~= s);
    }
}

/// Removing a character twice is removing it once.
pub proof fn law_without_char_idempotent(s: Seq<char>, c: char)
    ensures
        without_char(without_char(s, c), c) == without_char(s, c),
{
    lemma_without_char_excludes(s, c);
    lemma_without_char_identity(without_char(s, c), c);
}

/// The decimal digits of a natural number are digits.
pub proof fn lemma_nat_decimal_digits(n: nat)
    ensures
        forall|i: int| 0 <= i < nat_decimal(n).len() ==> '0' <= #[trigger] nat_decimal(n)[i] <= '9',
    decreases n,
{
    if n >= 10 {
        lemma_nat_decimal_digits(n / 10);
        let d = digit_char((n % 10) as int);
        assert forall|i: int| 0 <= i < nat_decimal(n).len() implies
            '0' <= #[trigger] nat_decimal(n)[i] <= '9' by {
            if i < nat_decimal(n / 10).len() {
                assert(nat_decimal(n)[i] == nat_decimal(n / 10)[i]);
            }
        }
    }
}

/// The decimal form of an integer holds only digits and a leading `-`, so
/// `c` occurs in it only where `c` is one of those.
pub proof fn lemma_int_decimal_without(n: int, c: char)
    requires
        c != '-',
        !('0' <= c <= '9'),
    ensures
        !int_decimal(n).contains(c),
{
    if n < 0 {
        lemma_nat_decimal_digits((-n) as nat);
        let digits = nat_decimal((-n) as nat);
        assert forall|i: int| 0 <= i < int_decimal(n).len() implies int_decimal(n)[i] != c by {
            if i > 0 {
                assert(int_decimal(n)[i] == digits[i - 1]);
            }
        }
    } else {
        lemma_nat_decimal_digits(n as nat);
        assert forall|i: int| 0 <= i < int_decimal(n).len() implies int_decimal(n)[i] != c by {
            assert('0' <= nat_decimal(n as nat)[i] <= '9');
        }
    }
}

/// The value of a digit character.
pub open spec fn digit_value(c: char) -> int {
    c as int - '0' as int
}

/// Every character is a decimal digit.
pub open spec fn is_digits(s: Seq<char>) -> bool {
    forall|i: int| 0 <= i < s.len() ==> '0' <= #[trigger] s[i] <= '9'
}

/// The number that a string of decimal digits reads as, most significant first.
pub open spec fn digits_value(s: Seq<char>) -> int
    decreases s.len(),
{
    if s.len() == 0 {
        0
    } else {
        digits_value(s.drop_last()) * 10 + digit_value(s.last())
    }
}

/// The decimal form of a natural number is a non-empty string of digits
/// that reads back as the number, with no leading zero (zero is `0`).
pub proof fn law_nat_decimal_reads_back(n: nat)
    ensures
        nat_decimal(n).len() >= 1,
        is_digits(nat_decimal(n)),
        digits_value(nat_decimal(n)) == n,
        nat_decimal(n)[0] == '0' ==> n == 0 && nat_decimal(n).len() == 1,
    decreases n,
{
    lemma_nat_decimal_digits(n);
    if n >= 10 {
        law_nat_decimal_reads_back(n / 10);
        let d = (n % 10) as int;
        let s = nat_decimal(n);
        assert(s.drop_last() =~= nat_decimal(n / 10));
        assert(digit_value(digit_char(d)) == d);
        assert(s[0] == nat_decimal(n / 10)[0]);
        assert(s.last() == digit_char(d));
        assert(digits_value(s) == digits_value(s.drop_last()) * 10 + digit_value(s.last()));
        assert((n / 10) * 10 + n % 10 == n);
    } else {
        let s = nat_decimal(n);
        assert(digit_value(digit_char(n as int)) == n);
        assert(s.drop_last() =~= Seq::<char>::empty());
        assert(digits_value(Seq::<char>::empty()) == 0);
        assert(digits_value(s) == digits_value(s.drop_last()) * 10 + digit_value(s.last()));
    }
}

/// The decimal form of an integer reads back as it: digits with no leading
/// zero for a number at least 0, and `-` before the digits of the magnitude
/// for a negative one.
pub proof fn law_int_decimal_reads_back(n: int)
    ensures
        n >= 0 ==> {
            &&& is_digits(int_decimal(n))
            &&& digits_value(int_decimal(n)) == n
            &&& int_decimal(n).len() >= 1
            &&& (int_decimal(n)[0] == '0' ==> n == 0 && int_decimal(n).len() == 1)
        },
        n < 0 ==> {
            &&& int_decimal(n).len() >= 2
            &&& int_decimal(n)[0] == '-'
            &&& is_digits(int_decimal(n).drop_first())
            &&& digits_value(int_decimal(n).drop_first()) == -n
            &&& int_decimal(n)[1] != '0'
        },
{
    if n >= 0 {
        law_nat_decimal_reads_back(n as nat);
    } else {
        law_nat_decimal_reads_back((-n) as nat);
        assert(int_decimal(n).drop_first() =~= nat_decimal((-n) as nat));
    }
}

/// Removing `c` keeps exactly the characters other than `c`, in order.
pub proof fn law_without_char_keeps_others(s: Seq<char>, c: char)
    ensures
        without_char(s, c) == s.filter(|x: char| x != c),
    decreases s.len(),
{
    reveal(Seq::filter);
    if s.len() > 0 {
        law_without_char_keeps_others(s.drop_last(), c);
    }
}

} // verus!
