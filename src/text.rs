//! Number formatting and prefix handling on strings.

use vstd::prelude::*;

verus! {

/// The digit character for `d`, lower case for digits above nine.
pub open spec fn digit_char(d: int) -> char {
    "0123456789abcdef"@[d]
}

/// The digits of `n` in base `b`, most significant first, with no leading zeros.
pub open spec fn digits(n: nat, b: nat) -> Seq<char>
    recommends
        2 <= b <= 16,
    decreases n,
    via digits_decreases
{
    if n < b || b < 2 {
        seq![digit_char(n as int)]
    } else {
        digits(n / b, b).push(digit_char((n % b) as int))
    }
}

#[via_fn]
proof fn digits_decreases(n: nat, b: nat) {
    if !(n < b || b < 2) {
        assert(n / b < n) by (nonlinear_arith)
            requires
                n >= b,
                b >= 2,
        ;
    }
}

/// `s` with zeros put in front until it is `width` characters long.
pub open spec fn zero_padded(s: Seq<char>, width: nat) -> Seq<char> {
    if s.len() >= width {
        s
    } else {
        Seq::new((width - s.len()) as nat, |_i: int| '0') + s
    }
}

/// The decimal text of a signed integer.
pub open spec fn decimal_of(n: int) -> Seq<char> {
    if n < 0 {
        seq!['-'] + digits((-n) as nat, 10)
    } else {
        digits(n as nat, 10)
    }
}

/// The lower-case hexadecimal text of `n`, at least six digits long.
pub open spec fn hex6_of(n: nat) -> Seq<char> {
    zero_padded(digits(n, 16), 6)
}

/// `s` without `p` in front when it starts with `p`.
pub open spec fn without_prefix(s: Seq<char>, p: Seq<char>) -> Seq<char> {
    if p.is_prefix_of(s) {
        s.skip(p.len() as int)
    } else {
        s
    }
}

/// `16` to the power `k`.
pub open spec fn pow16(k: nat) -> nat
    decreases k,
{
    if k == 0 {
        1
    } else {
        16 * pow16((k - 1) as nat)
    }
}

/// A number below `16` to the power `k` has at most `k` hexadecimal digits.
proof fn lemma_hex_digits_len(n: nat, k: nat)
    requires
        k >= 1,
        n < pow16(k),
    ensures
        digits(n, 16).len() <= k,
    decreases k,
{
    if n >= 16 {
        let p = pow16((k - 1) as nat);
        assert(k >= 2) by {
            if k == 1 {
                assert(pow16(0) == 1);
            }
        }
        assert(n / 16 < p) by (nonlinear_arith)
            requires
                n < 16 * p,
        ;
        lemma_hex_digits_len(n / 16, (k - 1) as nat);
    }
}

/// A color of 24 bits is written with exactly six hexadecimal digits.
pub proof fn lemma_rgb_has_six_hex_digits(c: nat)
    requires
        c < 0x1000000,
    ensures
        hex6_of(c).len() == 6,
{
    reveal_with_fuel(pow16, 7);
    assert(pow16(6) == 0x1000000);
    lemma_hex_digits_len(c, 6);
}

/// The one-character string of the digit `d`.
fn digit_str(d: u64) -> (r: &'static str)
    requires
        d < 16,
    ensures
        r@ == seq![digit_char(d as int)],
{
    let all = "0123456789abcdef";
    proof {
        reveal_strlit("0123456789abcdef");
    }
    let r = all.substring_char(d as usize, d as usize + 1);
    assert(r@ =~= seq![digit_char(d as int)]);
    r
}

/// The digits of `n` in base `b`.
pub fn to_base(n: u64, b: u64) -> (r: String)
    requires
        2 <= b <= 16,
    ensures
        r@ == digits(n as nat, b as nat),
{
    let mut acc = String::new();
    let mut m: u64 = n;
    loop
        invariant
            2 <= b <= 16,
            digits(n as nat, b as nat) == digits(m as nat, b as nat) + acc@,
        decreases m,
    {
        if m < b {
            let r = String::from_str(digit_str(m)).concat(acc.as_str());
            return r;
        }
        let d = String::from_str(digit_str(m % b));
        let ghost old_acc = acc@;
        acc = d.concat(acc.as_str());
        proof {
            assert(digits(m as nat, b as nat) == digits((m / b) as nat, b as nat).push(
                digit_char((m % b) as int),
            ));
            assert(digits((m / b) as nat, b as nat).push(digit_char((m % b) as int)) + old_acc
                =~= digits((m / b) as nat, b as nat) + acc@);
        }
        m = m / b;
    }
}

/// The decimal text of an unsigned integer.
pub fn decimal_u64(n: u64) -> (r: String)
    ensures
        r@ == decimal_of(n as int),
{
    to_base(n, 10)
}

/// The decimal text of a signed integer, with a minus sign when it is negative.
pub fn decimal_i64(n: i64) -> (r: String)
    ensures
        r@ == decimal_of(n as int),
{
    if n < 0 {
        let magnitude: u64 = if n == i64::MIN {
            9223372036854775808u64
        } else {
            (-n) as u64
        };
        let digits_text = to_base(magnitude, 10);
        let r = String::from_str("-").concat(digits_text.as_str());
        proof {
            reveal_strlit("-");
        }
        assert(r@ =~= decimal_of(n as int));
        r
    } else {
        to_base(n as u64, 10)
    }
}

/// The lower-case hexadecimal text of `n`, padded with zeros to six digits.
pub fn hex6(n: u32) -> (r: String)
    ensures
        r@ == hex6_of(n as nat),
{
    let mut r = to_base(n as u64, 16);
    while r.unicode_len() < 6
        invariant
            r@.len() <= 6 ==> zero_padded(r@, 6) == hex6_of(n as nat),
            r@.len() > 6 ==> r@ == hex6_of(n as nat),
        decreases 6 - r@.len(),
    {
        let ghost before = r@;
        r = String::from_str("0").concat(r.as_str());
        proof {
            reveal_strlit("0");
            assert(zero_padded(r@, 6) =~= zero_padded(before, 6));
        }
    }
    assert(zero_padded(r@, 6) == r@);
    r
}

/// Whether `s` starts with `p`.
pub fn starts_with(s: &str, p: &str) -> (r: bool)
    ensures
        r == p@.is_prefix_of(s@),
{
    let n = s.unicode_len();
    let k = p.unicode_len();
    if k > n {
        return false;
    }
    let mut i: usize = 0;
    while i < k
        invariant
            k == p@.len(),
            n == s@.len(),
            k <= n,
            i <= k,
            forall|j: int| 0 <= j < i ==> p@[j] == s@[j],
        decreases k - i,
    {
        if s.get_char(i) != p.get_char(i) {
            return false;
        }
        i = i + 1;
    }
    true
}

/// `s` without `p` in front when it starts with `p`; else `s` as it is.
pub fn strip_prefix(s: &str, p: &str) -> (r: String)
    ensures
        r@ == without_prefix(s@, p@),
{
    if starts_with(s, p) {
        let n = s.unicode_len();
        let k = p.unicode_len();
        String::from_str(s.substring_char(k, n))
    } else {
        String::from_str(s)
    }
}

} // verus!
