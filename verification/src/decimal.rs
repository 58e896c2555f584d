//! Verified decimal rendering of unsigned integers: plain digit strings,
//! zero-padded fields, and fixed-point fractions.  These feed the invoice and
//! cashout identifiers and the amount strings of QR payloads.

use vstd::prelude::*;

verus! {

/// The digit character of a value below ten.
pub open spec fn digit_char(d: int) -> char {
    if d == 0 {
        '0'
    } else if d == 1 {
        '1'
    } else if d == 2 {
        '2'
    } else if d == 3 {
        '3'
    } else if d == 4 {
        '4'
    } else if d == 5 {
        '5'
    } else if d == 6 {
        '6'
    } else if d == 7 {
        '7'
    } else if d == 8 {
        '8'
    } else {
        '9'
    }
}

/// The decimal digit string of `n`, most significant digit first.
pub open spec fn spec_digits(n: nat) -> Seq<char>
    decreases n,
{
    if n < 10 {
        seq![digit_char(n as int)]
    } else {
        spec_digits(n / 10).push(digit_char((n % 10) as int))
    }
}

/// A run of `k` zero characters.
pub open spec fn zeros(k: nat) -> Seq<char> {
    Seq::new(k, |i: int| '0')
}

/// The decimal digit string of `n`, left-padded with zeros to at least
/// `width` characters.
pub open spec fn spec_padded(n: nat, width: nat) -> Seq<char> {
    if spec_digits(n).len() < width {
        zeros((width - spec_digits(n).len()) as nat) + spec_digits(n)
    } else {
        spec_digits(n)
    }
}

/// Ten to the `w`.
pub open spec fn pow10(w: nat) -> int
    decreases w,
{
    if w == 0 {
        1
    } else {
        10 * pow10((w - 1) as nat)
    }
}

/// The fraction digits `f`, zero-padded to `w` places, with trailing zero
/// digits removed.  `f` is read as a fraction of `10^w`.
pub open spec fn spec_trimmed_frac(f: nat, w: nat) -> Seq<char>
    decreases w,
{
    if w == 0 {
        Seq::<char>::empty()
    } else if f % 10 == 0 {
        spec_trimmed_frac(f / 10, (w - 1) as nat)
    } else {
        spec_padded(f, w)
    }
}

/// The decimal string of a satoshi amount expressed in whole coins: the
/// integer part, then a point and the fractional digits with trailing zeros
/// removed, or the integer part alone when the amount is whole.
pub open spec fn spec_btc_amount(satoshi: nat) -> Seq<char> {
    if satoshi % 100_000_000 == 0 {
        spec_digits(satoshi / 100_000_000)
    } else {
        spec_digits(satoshi / 100_000_000) + "."@ + spec_trimmed_frac(satoshi % 100_000_000, 8)
    }
}

/// The decimal string of a cent amount expressed in whole units, always with
/// two places after the point.
pub open spec fn spec_cents_amount(cents: nat) -> Seq<char> {
    spec_digits(cents / 100) + "."@ + spec_padded(cents % 100, 2)
}

/// Digit strings are never empty, and gain a second character at ten.
pub proof fn lemma_digits_len(n: nat)
    ensures
        spec_digits(n).len() >= 1,
        n >= 10 ==> spec_digits(n).len() >= 2,
    decreases n,
{
    if n >= 10 {
        lemma_digits_len(n / 10);
    }
}

/// A positive value's digit string does not start with a zero.
pub proof fn lemma_digits_first_nonzero(n: nat)
    requires
        n >= 1,
    ensures
        spec_digits(n)[0] != '0',
    decreases n,
{
    if n >= 10 {
        lemma_digits_first_nonzero(n / 10);
        lemma_digits_len(n / 10);
    }
}

/// Distinct values have distinct digit strings.
pub proof fn lemma_digits_injective(a: nat, b: nat)
    requires
        a != b,
    ensures
        spec_digits(a) != spec_digits(b),
    decreases a + b,
{
    lemma_digits_len(a);
    lemma_digits_len(b);
    if a < 10 && b < 10 {
        assert(spec_digits(a)[0] != spec_digits(b)[0]);
    } else if a < 10 {
        assert(spec_digits(a).len() < spec_digits(b).len());
    } else if b < 10 {
        assert(spec_digits(b).len() < spec_digits(a).len());
    } else {
        if a % 10 != b % 10 {
            assert(spec_digits(a).last() != spec_digits(b).last());
        } else {
            assert(a / 10 != b / 10) by {
                vstd::arithmetic::div_mod::lemma_fundamental_div_mod(a as int, 10);
                vstd::arithmetic::div_mod::lemma_fundamental_div_mod(b as int, 10);
            }
            lemma_digits_injective(a / 10, b / 10);
            if spec_digits(a) == spec_digits(b) {
                assert(spec_digits(a).drop_last() =~= spec_digits(a / 10));
                assert(spec_digits(b).drop_last() =~= spec_digits(b / 10));
            }
        }
    }
}

/// Distinct positive values stay distinct after zero-padding to a common
/// width.
pub proof fn lemma_padded_injective(a: nat, b: nat, width: nat)
    requires
        a != b,
        a >= 1,
        b >= 1,
    ensures
        spec_padded(a, width) != spec_padded(b, width),
{
    lemma_digits_len(a);
    lemma_digits_len(b);
    lemma_digits_injective(a, b);
    let da = spec_digits(a);
    let db = spec_digits(b);
    let pa = spec_padded(a, width);
    let pb = spec_padded(b, width);
    if pa == pb {
        if da.len() == db.len() {
            assert(da =~= db) by {
                assert(forall|i: int|
                    0 <= i < da.len() ==> da[i] == pa[pa.len() - da.len() + i]
                        && db[i] == pb[pb.len() - db.len() + i]);
            }
        } else if da.len() < db.len() {
            lemma_digits_first_nonzero(b);
            assert(pa.len() == pb.len());
            assert(da.len() < width);
            let pos = pa.len() - db.len();
            assert(pa[pos] == '0');
            assert(pb[pos] == db[0]);
        } else {
            lemma_digits_first_nonzero(a);
            assert(pa.len() == pb.len());
            assert(db.len() < width);
            let pos = pb.len() - da.len();
            assert(pb[pos] == '0');
            assert(pa[pos] == da[0]);
        }
    }
}

/// The single-character string of one digit.
fn digit_str(d: u64) -> (r: &'static str)
    requires
        d < 10,
    ensures
        r@ == seq![digit_char(d as int)],
{
    proof {
        reveal_strlit("0");
        reveal_strlit("1");
        reveal_strlit("2");
        reveal_strlit("3");
        reveal_strlit("4");
        reveal_strlit("5");
        reveal_strlit("6");
        reveal_strlit("7");
        reveal_strlit("8");
        reveal_strlit("9");
    }
    let r = match d {
        0 => "0",
        1 => "1",
        2 => "2",
        3 => "3",
        4 => "4",
        5 => "5",
        6 => "6",
        7 => "7",
        8 => "8",
        _ => "9",
    };
    proof {
        assert(r@ =~= seq![digit_char(d as int)]);
    }
    r
}

/// Renders `n` in decimal with no padding.
pub fn u64_digits(n: u64) -> (s: String)
    ensures
        s@ == spec_digits(n as nat),
    decreases n,
{
    if n < 10 {
        String::from_str(digit_str(n))
    } else {
        let mut s = u64_digits(n / 10);
        s.append(digit_str(n % 10));
        proof {
            assert(s@ =~= spec_digits(n as nat));
        }
        s
    }
}

/// Renders `n` in decimal, left-padded with zeros to at least `width`
/// characters.
pub fn u64_padded(n: u64, width: usize) -> (s: String)
    ensures
        s@ == spec_padded(n as nat, width as nat),
{
    let digits = u64_digits(n);
    let len = digits.as_str().unicode_len();
    let mut s = String::new();
    proof {
        reveal_strlit("0");
    }
    let mut i: usize = len;
    while i < width
        invariant
            len <= i,
            len == spec_digits(n as nat).len(),
            i <= width || i == len,
            s@ =~= zeros((i - len) as nat),
        decreases width - i,
    {
        s.append("0");
        proof {
            reveal_strlit("0");
            assert(s@ =~= zeros((i + 1 - len) as nat));
        }
        i = i + 1;
    }
    s.append(digits.as_str());
    proof {
        assert(s@ =~= spec_padded(n as nat, width as nat));
    }
    s
}

/// Renders a satoshi amount as whole coins, trimming trailing fraction
/// zeros, as `spec_btc_amount` describes.
pub fn btc_amount_string(satoshi: u64) -> (s: String)
    ensures
        s@ == spec_btc_amount(satoshi as nat),
{
    let whole = satoshi / 100_000_000;
    let frac = satoshi % 100_000_000;
    let mut s = u64_digits(whole);
    if frac != 0 {
        s.append(".");
        let ghost frac0 = frac as nat;
        let mut f = frac;
        let mut w: usize = 8;
        proof {
            assert(pow10(8) == 100_000_000) by {
                reveal_with_fuel(pow10, 9);
            }
        }
        while f % 10 == 0
            invariant
                0 < f,
                w <= 8,
                f < pow10(w as nat),
                spec_trimmed_frac(frac0, 8) == spec_trimmed_frac(f as nat, w as nat),
            decreases w,
        {
            proof {
                assert(w >= 1);
                assert(f / 10 < pow10((w - 1) as nat)) by {
                    vstd::arithmetic::div_mod::lemma_multiply_divide_lt(f as int,
                        pow10((w - 1) as nat), 10);
                }
            }
            f = f / 10;
            w = w - 1;
        }
        let tail = u64_padded(f, w);
        s.append(tail.as_str());
        proof {
            assert(s@ =~= spec_btc_amount(satoshi as nat));
        }
    } else {
        proof {
            assert(s@ =~= spec_btc_amount(satoshi as nat));
        }
    }
    s
}

/// Renders a cent amount as whole fiat units with two decimal places, as
/// `spec_cents_amount` describes.
pub fn cents_amount_string(cents: u64) -> (s: String)
    ensures
        s@ == spec_cents_amount(cents as nat),
{
    let mut s = u64_digits(cents / 100);
    s.append(".");
    let tail = u64_padded(cents % 100, 2);
    s.append(tail.as_str());
    proof {
        assert(s@ =~= spec_cents_amount(cents as nat));
    }
    s
}

} // verus!
