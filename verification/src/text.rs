//! Small verified text utilities: string equality, and decimal rendering of
//! unsigned integers in both natural and fixed-width (zero-padded) form.

use vstd::prelude::*;
use vstd::string::*;

verus! {

proof fn lemma_pow10_pos(w: nat)
    ensures
        pow10(w) >= 1,
    decreases w,
{
    if w > 0 {
        lemma_pow10_pos((w - 1) as nat);
    }
}

/// The magnitude of an `i64`, as a mathematical natural number.
pub open spec fn abs_i64(s: i64) -> nat {
    if s < 0 {
        (-(s as int)) as nat
    } else {
        s as nat
    }
}

/// The decimal digit character for a value below ten.
pub open spec fn digit_char(d: nat) -> char {
    if d == 0 {
        '0'
    } else if d == 1 {
        '1'
    } else if d == 2 {
        '2'
    } else if d == 3 {
        '3'
    } else if d == 4 {
        '4'
    } else if d == 5 {
        '5'
    } else if d == 6 {
        '6'
    } else if d == 7 {
        '7'
    } else if d == 8 {
        '8'
    } else {
        '9'
    }
}

/// The usual decimal rendering of `n`, without leading zeros
/// (`0` renders as `"0"`).
pub open spec fn dec_of(n: nat) -> Seq<char>
    decreases n,
{
    if n < 10 {
        seq![digit_char(n)]
    } else {
        dec_of(n / 10).push(digit_char(n % 10))
    }
}

/// The decimal rendering of `n` padded with leading zeros to exactly `w`
/// digits; only the `w` least significant digits appear.
pub open spec fn dec_fixed(n: nat, w: nat) -> Seq<char>
    decreases w,
{
    if w == 0 {
        Seq::empty()
    } else {
        dec_fixed(n / 10, (w - 1) as nat).push(digit_char(n % 10))
    }
}

/// Powers of ten.
pub open spec fn pow10(w: nat) -> nat
    decreases w,
{
    if w == 0 {
        1
    } else {
        10 * pow10((w - 1) as nat)
    }
}

pub proof fn lemma_dec_fixed_len(n: nat, w: nat)
    ensures
        dec_fixed(n, w).len() == w,
    decreases w,
{
    if w > 0 {
        lemma_dec_fixed_len(n / 10, (w - 1) as nat);
    }
}

proof fn lemma_digit_char_injective(a: nat, b: nat)
    requires
        a < 10,
        b < 10,
        digit_char(a) == digit_char(b),
    ensures
        a == b,
{
}

/// Fixed-width decimal renderings of values below `pow10(w)` are injective.
pub proof fn lemma_dec_fixed_injective(a: nat, b: nat, w: nat)
    requires
        a < pow10(w),
        b < pow10(w),
        dec_fixed(a, w) == dec_fixed(b, w),
    ensures
        a == b,
    decreases w,
{
    if w == 0 {
        assert(a == 0 && b == 0);
    } else {
        lemma_dec_fixed_len(a / 10, (w - 1) as nat);
        lemma_dec_fixed_len(b / 10, (w - 1) as nat);
        let sa = dec_fixed(a / 10, (w - 1) as nat);
        let sb = dec_fixed(b / 10, (w - 1) as nat);
        assert(sa.push(digit_char(a % 10)) == sb.push(digit_char(b % 10)));
        assert(sa.push(digit_char(a % 10)).last() == digit_char(a % 10));
        assert(sb.push(digit_char(b % 10)).last() == digit_char(b % 10));
        lemma_digit_char_injective(a % 10, b % 10);
        assert(sa =~= sb) by {
            assert forall|i: int| 0 <= i < sa.len() implies sa[i] == sb[i] by {
                assert(sa.push(digit_char(a % 10))[i] == sa[i]);
                assert(sb.push(digit_char(b % 10))[i] == sb[i]);
            }
        }
        let p = pow10((w - 1) as nat);
        assert(pow10(w) == 10 * p);
        lemma_pow10_pos((w - 1) as nat);
        assert((a as int) / 10 < (p as int)) by (nonlinear_arith)
            requires
                (a as int) < 10 * (p as int),
                p as int >= 1,
        ;
        assert((b as int) / 10 < (p as int)) by (nonlinear_arith)
            requires
                (b as int) < 10 * (p as int),
                p as int >= 1,
        ;
        lemma_dec_fixed_injective(a / 10, b / 10, (w - 1) as nat);
        assert(a == 10 * (a / 10) + a % 10) by {
            vstd::arithmetic::div_mod::lemma_fundamental_div_mod(a as int, 10);
        }
        assert(b == 10 * (b / 10) + b % 10) by {
            vstd::arithmetic::div_mod::lemma_fundamental_div_mod(b as int, 10);
        }
    }
}

/// A one-character string slice holding the decimal digit for `d`.
pub fn digit_str(d: u64) -> (r: &'static str)
    requires
        d < 10,
    ensures
        r@ =~= seq![digit_char(d as nat)],
{
    proof {
        reveal_strlit("0");
        reveal_strlit("1");
        reveal_strlit("2");
        reveal_strlit("3");
        reveal_strlit("4");
        reveal_strlit("5");
        reveal_strlit("6");
        reveal_strlit("7");
        reveal_strlit("8");
        reveal_strlit("9");
    }
    if d == 0 {
        "0"
    } else if d == 1 {
        "1"
    } else if d == 2 {
        "2"
    } else if d == 3 {
        "3"
    } else if d == 4 {
        "4"
    } else if d == 5 {
        "5"
    } else if d == 6 {
        "6"
    } else if d == 7 {
        "7"
    } else if d == 8 {
        "8"
    } else {
        "9"
    }
}

/// Decimal rendering of `n` without leading zeros.
pub fn u64_to_dec(n: u64) -> (r: String)
    ensures
        r@ == dec_of(n as nat),
    decreases n,
{
    if n < 10 {
        let r = digit_str(n).to_owned();
        assert(r@ =~= dec_of(n as nat));
        r
    } else {
        let mut s = u64_to_dec(n / 10);
        s.append(digit_str(n % 10));
        assert(s@ =~= dec_of(n as nat));
        s
    }
}

/// Decimal rendering of `n` zero-padded to `w` digits.
pub fn u64_to_dec_fixed(n: u64, w: u64) -> (r: String)
    ensures
        r@ == dec_fixed(n as nat, w as nat),
    decreases w,
{
    if w == 0 {
        let r = String::new();
        assert(r@ =~= dec_fixed(n as nat, 0));
        r
    } else {
        let mut s = u64_to_dec_fixed(n / 10, w - 1);
        s.append(digit_str(n % 10));
        assert(s@ =~= dec_fixed(n as nat, w as nat));
        s
    }
}

/// Character-for-character string equality, decided executably and tied to
/// equality of the views.
pub fn str_eq(a: &str, b: &str) -> (r: bool)
    ensures
        r == (a@ == b@),
{
    let alen = a.unicode_len();
    let blen = b.unicode_len();
    if alen != blen {
        return false;
    }
    let mut i: usize = 0;
    while i < alen
        invariant
            alen == a@.len(),
            alen == b@.len(),
            i <= alen,
            forall|j: int| 0 <= j < i ==> a@[j] == b@[j],
        decreases alen - i,
    {
        if a.get_char(i) != b.get_char(i) {
            return false;
        }
        i = i + 1;
    }
    proof {
        assert(a@ =~= b@);
    }
    true
}

} // verus!
