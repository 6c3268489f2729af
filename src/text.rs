//! Text helpers: decimal and fixed-point rendering, substring search and
//! text equality, all stated over `Seq<char>`.

use vstd::prelude::*;

verus! {

/// Relies on `String::push`: appends one character at the end.
#[verifier::external_body]
pub(crate) fn push_char(s: &mut String, c: char)
    ensures
        final(s)@ == old(s)@.push(c),
{
    s.push(c)
}

/// The character for a decimal digit.
pub open spec fn digit_char(d: nat) -> char {
    if d == 0 { '0' }
    else if d == 1 { '1' }
    else if d == 2 { '2' }
    else if d == 3 { '3' }
    else if d == 4 { '4' }
    else if d == 5 { '5' }
    else if d == 6 { '6' }
    else if d == 7 { '7' }
    else if d == 8 { '8' }
    else { '9' }
}

/// The decimal rendering of a natural number, without leading zeros.
pub open spec fn decimal(n: nat) -> Seq<char>
    decreases n,
{
    if n < 10 {
        seq![digit_char(n)]
    } else {
        decimal(n / 10).push(digit_char(n % 10))
    }
}

fn digit_of(d: u64) -> (c: char)
    requires
        d < 10,
    ensures
        c == digit_char(d as nat),
{
    if d == 0 { '0' }
    else if d == 1 { '1' }
    else if d == 2 { '2' }
    else if d == 3 { '3' }
    else if d == 4 { '4' }
    else if d == 5 { '5' }
    else if d == 6 { '6' }
    else if d == 7 { '7' }
    else if d == 8 { '8' }
    else { '9' }
}

/// Appends the decimal rendering of `n` to `out`.
pub fn push_decimal(out: &mut String, n: u64)
    ensures
        final(out)@ == old(out)@ + decimal(n as nat),
    decreases n,
{
    if n < 10 {
        push_char(out, digit_of(n));
        assert(old(out)@.push(digit_char(n as nat)) =~= old(out)@ + decimal(n as nat));
    } else {
        push_decimal(out, n / 10);
        push_char(out, digit_of(n % 10));
        assert(final(out)@ =~= old(out)@ + decimal(n as nat));
    }
}


/// `10` to the power `p`.
pub open spec fn pow10(p: nat) -> nat
    decreases p,
{
    if p == 0 { 1 } else { 10 * pow10((p - 1) as nat) }
}

/// The last `places` decimal digits of `n`, padded with zeros on the left.
pub open spec fn low_digits(n: nat, places: nat) -> Seq<char>
    decreases places,
{
    if places == 0 {
        Seq::empty()
    } else {
        low_digits(n / 10, (places - 1) as nat).push(digit_char(n % 10))
    }
}

/// `units` read as a number with `places` decimals: the integer part, a dot,
/// then exactly `places` fraction digits.
pub open spec fn fixed_point(units: nat, places: nat) -> Seq<char> {
    decimal(units / pow10(places)).push('.') + low_digits(units, places)
}

/// `n / d` rounded to the nearest integer, halves upwards.
pub open spec fn div_round(n: nat, d: nat) -> nat
    recommends
        d > 0,
{
    n / d + if 2 * (n % d) >= d { 1nat } else { 0nat }
}

proof fn lemma_pow10_small()
    ensures
        pow10(2) == 100,
        pow10(4) == 10000,
{
    assert(pow10(0) == 1);
    assert(pow10(1) == 10);
    assert(pow10(2) == 100);
    assert(pow10(3) == 1000);
    assert(pow10(4) == 10000);
}

fn push_low_digits(out: &mut String, n: u64, places: u64)
    ensures
        final(out)@ == old(out)@ + low_digits(n as nat, places as nat),
    decreases places,
{
    if places == 0 {
        assert(final(out)@ =~= old(out)@ + low_digits(n as nat, places as nat));
    } else {
        push_low_digits(out, n / 10, places - 1);
        push_char(out, digit_of(n % 10));
        assert(final(out)@ =~= old(out)@ + low_digits(n as nat, places as nat));
    }
}

/// Appends `units` as a fixed-point number with two decimals.
pub fn push_fixed2(out: &mut String, units: u64)
    ensures
        final(out)@ == old(out)@ + fixed_point(units as nat, 2),
{
    proof { lemma_pow10_small(); }
    push_decimal(out, units / 100);
    push_char(out, '.');
    push_low_digits(out, units, 2);
    assert(final(out)@ =~= old(out)@ + fixed_point(units as nat, 2));
}

/// Appends `units` as a fixed-point number with four decimals.
pub fn push_fixed4(out: &mut String, units: u64)
    ensures
        final(out)@ == old(out)@ + fixed_point(units as nat, 4),
{
    proof { lemma_pow10_small(); }
    push_decimal(out, units / 10000);
    push_char(out, '.');
    push_low_digits(out, units, 4);
    assert(final(out)@ =~= old(out)@ + fixed_point(units as nat, 4));
}

/// `n / d` rounded half up, computed without overflow.
pub fn div_round_u64(n: u64, d: u64) -> (r: u64)
    requires
        d > 0,
    ensures
        r as nat == div_round(n as nat, d as nat),
{
    let q = n / d;
    let rem = n % d;
    if rem >= d - rem {
        assert(q < u64::MAX) by (nonlinear_arith)
            requires
                q == n / d,
                rem == n % d,
                d > 0,
                rem >= d - rem,
                n <= u64::MAX,
        {
            assert(d >= 2);
            assert(q * d <= n);
            assert(q * 2 <= q * d);
        }
        q + 1
    } else {
        q
    }
}

/// Whether `p` occurs in `h` at position `i`.
pub open spec fn occurs_at(h: Seq<char>, p: Seq<char>, i: int) -> bool {
    0 <= i && i + p.len() <= h.len() && h.subrange(i, i + p.len()) == p
}

/// Whether `p` occurs somewhere in `h`.
pub open spec fn contains(h: Seq<char>, p: Seq<char>) -> bool {
    exists|i: int| occurs_at(h, p, i)
}

fn occurs_at_exec(h: &str, hl: usize, p: &str, pl: usize, i: usize) -> (r: bool)
    requires
        hl == h@.len(),
        pl == p@.len(),
        i + pl <= hl,
    ensures
        r == occurs_at(h@, p@, i as int),
{
    let mut j: usize = 0;
    while j < pl
        invariant
            hl == h@.len(),
            pl == p@.len(),
            i + pl <= hl,
            j <= pl,
            forall|k: int| 0 <= k < j ==> h@[i + k] == p@[k],
        decreases pl - j,
    {
        if h.get_char(i + j) != p.get_char(j) {
            assert(h@.subrange(i as int, i + pl)[j as int] != p@[j as int]);
            return false;
        }
        j = j + 1;
    }
    assert(h@.subrange(i as int, i + pl) =~= p@);
    true
}

/// Whether `p` occurs in `h` as a contiguous run of characters.
pub fn str_contains(h: &str, p: &str) -> (r: bool)
    ensures
        r == contains(h@, p@),
{
    let hl = h.unicode_len();
    let pl = p.unicode_len();
    if pl > hl {
        return false;
    }
    let mut i: usize = 0;
    while i <= hl - pl
        invariant
            hl == h@.len(),
            pl == p@.len(),
            pl <= hl,
            i <= hl - pl + 1,
            forall|k: int| 0 <= k < i ==> !occurs_at(h@, p@, k),
        decreases hl - pl + 1 - i,
    {
        if occurs_at_exec(h, hl, p, pl, i) {
            return true;
        }
        if i == hl - pl {
            return false;
        }
        i = i + 1;
    }
    false
}

/// Whether two texts hold the same characters.
pub fn same_text(a: &str, b: &str) -> (r: bool)
    ensures
        r == (a@ == b@),
{
    let al = a.unicode_len();
    let bl = b.unicode_len();
    if al != bl {
        return false;
    }
    let mut i: usize = 0;
    while i < al
        invariant
            al == a@.len(),
            bl == b@.len(),
            al == bl,
            i <= al,
            forall|k: int| 0 <= k < i ==> a@[k] == b@[k],
        decreases al - i,
    {
        if a.get_char(i) != b.get_char(i) {
            return false;
        }
        i = i + 1;
    }
    assert(a@ =~= b@);
    true
}

/// What `str::to_uppercase` makes of a text.
pub uninterp spec fn upper_of(s: Seq<char>) -> Seq<char>;

/// Relies on `str::to_uppercase`: the result is the upper-case mapping of
/// the characters, and depends on them alone.
#[verifier::external_body]
pub(crate) fn to_upper(s: &str) -> (r: String)
    ensures
        r@ == upper_of(s@),
{
    s.to_uppercase()
}

} // verus!
