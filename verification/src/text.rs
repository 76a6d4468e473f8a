//! The texts that the game shows: literals, decimal numbers and padding.

use vstd::prelude::*;

verus! {

/// The character for a single decimal digit.
pub open spec fn digit_char(d: int) -> char {
    if d == 0 {
        '0'
    } else if d == 1 {
        '1'
    } else if d == 2 {
        '2'
    } else if d == 3 {
        '3'
    } else if d == 4 {
        '4'
    } else if d == 5 {
        '5'
    } else if d == 6 {
        '6'
    } else if d == 7 {
        '7'
    } else if d == 8 {
        '8'
    } else {
        '9'
    }
}

/// The decimal digits of a natural number, most significant first, without
/// leading zeros.
pub open spec fn decimal_nat(n: nat) -> Seq<char>
    decreases n,
{
    if n < 10 {
        seq![digit_char(n as int)]
    } else {
        decimal_nat(n / 10).push(digit_char((n % 10) as int))
    }
}

/// The decimal text of an integer, with a minus sign in front of a negative one.
pub open spec fn decimal(n: int) -> Seq<char> {
    if n < 0 {
        seq!['-'] + decimal_nat((-n) as nat)
    } else {
        decimal_nat(n as nat)
    }
}

/// `s` followed by as many spaces as it takes to reach `width` characters.
pub open spec fn pad_right(s: Seq<char>, width: nat) -> Seq<char>
    decreases width - s.len(),
{
    if s.len() >= width {
        s
    } else {
        pad_right(s.push(' '), width)
    }
}

/// Calls `String::push`, which appends one character to the end of the string.
#[verifier::external_body]
fn string_push(s: &mut String, c: char)
    ensures
        final(s)@ == old(s)@.push(c),
{
    s.push(c)
}

/// Calls `String::push_str`, which appends a string slice to the end of the string.
#[verifier::external_body]
fn string_push_str(s: &mut String, tail: &str)
    ensures
        final(s)@ == old(s)@ + tail@,
{
    s.push_str(tail)
}

/// Appends one character.
pub fn push_char(s: &mut String, c: char)
    ensures
        final(s)@ == old(s)@.push(c),
{
    string_push(s, c);
}

/// Appends a string slice.
pub fn push_text(s: &mut String, tail: &str)
    ensures
        final(s)@ == old(s)@ + tail@,
{
    string_push_str(s, tail);
}

fn digit(d: u64) -> (c: char)
    requires
        d < 10,
    ensures
        c == digit_char(d as int),
{
    if d == 0 {
        '0'
    } else if d == 1 {
        '1'
    } else if d == 2 {
        '2'
    } else if d == 3 {
        '3'
    } else if d == 4 {
        '4'
    } else if d == 5 {
        '5'
    } else if d == 6 {
        '6'
    } else if d == 7 {
        '7'
    } else if d == 8 {
        '8'
    } else {
        '9'
    }
}

/// The digits of `n` from the least significant up, and how `decimal_nat`
/// is rebuilt from them.
spec fn digits_reversed(n: nat) -> Seq<char>
    decreases n,
{
    if n < 10 {
        seq![digit_char(n as int)]
    } else {
        seq![digit_char((n % 10) as int)] + digits_reversed(n / 10)
    }
}

proof fn lemma_digits_reversed(n: nat)
    ensures
        digits_reversed(n).reverse() == decimal_nat(n),
        digits_reversed(n).len() >= 1,
    decreases n,
{
    if n < 10 {
        assert(digits_reversed(n).reverse() =~= decimal_nat(n));
    } else {
        lemma_digits_reversed(n / 10);
        let head = seq![digit_char((n % 10) as int)];
        let rest = digits_reversed(n / 10);
        assert((head + rest).reverse() =~= rest.reverse().push(digit_char((n % 10) as int)));
    }
}

/// Appends the decimal digits of `n` and returns how many there were.
pub fn push_decimal_nat(s: &mut String, n: u64) -> (count: usize)
    ensures
        final(s)@ == old(s)@ + decimal_nat(n as nat),
        count == decimal_nat(n as nat).len(),
        1 <= count <= 20,
{
    let mut low_first: Vec<char> = Vec::new();
    let mut rest: u64 = n;
    assert(low_first@ + digits_reversed(rest as nat) =~= digits_reversed(n as nat));
    assert(rest as nat * pow10(0) == n) by {
        assert(pow10(0) == 1);
    }
    while rest >= 10
        invariant
            low_first@ + digits_reversed(rest as nat) == digits_reversed(n as nat),
            low_first@.len() + digits_reversed(rest as nat).len() == digits_reversed(
                n as nat,
            ).len(),
            rest as nat * pow10(low_first@.len()) <= n,
            low_first@.len() <= 19,
        decreases rest,
    {
        proof {
            let head = seq![digit_char((rest % 10) as int)];
            assert(low_first@.push(digit_char((rest % 10) as int)) + digits_reversed(
                (rest / 10) as nat,
            ) =~= low_first@ + (head + digits_reversed((rest / 10) as nat)));
            lemma_pow10_step(rest as nat, low_first@.len(), n as nat);
        }
        low_first.push(digit(rest % 10));
        rest = rest / 10;
    }
    low_first.push(digit(rest));
    proof {
        assert(low_first@ =~= digits_reversed(n as nat));
        lemma_digits_reversed(n as nat);
    }
    let count: usize = low_first.len();
    let mut i: usize = count;
    while i > 0
        invariant
            i <= count,
            count == low_first@.len(),
            s@ == old(s)@ + low_first@.reverse().subrange(0, count - i),
        decreases i,
    {
        i = i - 1;
        proof {
            let rev = low_first@.reverse();
            assert(rev.subrange(0, count - i) =~= rev.subrange(0, count - i - 1).push(
                low_first@[i as int],
            ));
        }
        push_char(s, low_first[i]);
    }
    proof {
        let rev = low_first@.reverse();
        assert(rev.subrange(0, count as int) =~= rev);
    }
    count
}

spec fn pow10(k: nat) -> nat
    decreases k,
{
    if k == 0 {
        1
    } else {
        10 * pow10((k - 1) as nat)
    }
}

proof fn lemma_pow10_grows(k: nat)
    requires
        k >= 20,
    ensures
        pow10(k) >= 100000000000000000000,
    decreases k,
{
    if k == 20 {
        reveal_with_fuel(pow10, 21);
    } else {
        lemma_pow10_grows((k - 1) as nat);
    }
}

proof fn lemma_pow10_step(rest: nat, k: nat, n: nat)
    requires
        rest >= 10,
        rest * pow10(k) <= n,
        n <= u64::MAX,
    ensures
        (rest / 10) * pow10(k + 1) <= n,
        k + 1 <= 19,
{
    let p = pow10(k);
    assert(pow10(k + 1) == 10 * p);
    assert((rest / 10) * (10 * p) <= rest * p && rest * p >= 10 * p) by (nonlinear_arith)
        requires
            p >= 0,
            rest >= 10,
    ;
    if k + 1 > 19 {
        lemma_pow10_grows(k + 1);
    }
}

/// Appends the decimal text of `n` and returns how many characters it took.
pub fn push_decimal(s: &mut String, n: i64) -> (count: usize)
    ensures
        final(s)@ == old(s)@ + decimal(n as int),
        count == decimal(n as int).len(),
        1 <= count <= 21,
{
    if n < 0 {
        push_char(s, '-');
        let magnitude: u64 = if n == i64::MIN {
            9223372036854775808
        } else {
            (-n) as u64
        };
        let digits: usize = push_decimal_nat(s, magnitude);
        assert(s@ =~= old(s)@ + decimal(n as int));
        digits + 1
    } else {
        push_decimal_nat(s, n as u64)
    }
}

/// `n` spaces.
pub open spec fn spaces(n: nat) -> Seq<char> {
    Seq::new(n, |i: int| ' ')
}

/// How many spaces bring `have` characters up to `width`.
pub open spec fn padding_needed(have: nat, width: nat) -> nat {
    if have < width {
        (width - have) as nat
    } else {
        0
    }
}

/// Padding on the right adds exactly the missing number of spaces.
pub proof fn lemma_pad_right(t: Seq<char>, width: nat)
    ensures
        pad_right(t, width) == t + spaces(padding_needed(t.len(), width)),
    decreases width - t.len(),
{
    if t.len() >= width {
        assert(t + spaces(0) =~= t);
    } else {
        lemma_pad_right(t.push(' '), width);
        assert(t.push(' ') + spaces(padding_needed(t.len() + 1, width)) =~= t + spaces(
            padding_needed(t.len(), width),
        ));
    }
}

/// Appends the spaces that bring `have` characters up to `width`.
pub fn push_padding(s: &mut String, have: usize, width: usize)
    ensures
        final(s)@ == old(s)@ + spaces(padding_needed(have as nat, width as nat)),
{
    let mut n: usize = have;
    assert(s@ =~= old(s)@ + spaces(0));
    while n < width
        invariant
            have <= n,
            n <= width || n == have,
            s@ == old(s)@ + spaces((n - have) as nat),
        decreases width - n,
    {
        push_char(s, ' ');
        n = n + 1;
        assert(s@ =~= old(s)@ + spaces((n - have) as nat));
    }
}

} // verus!
