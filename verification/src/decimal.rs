//! Decimal facet values in fixed point: a signed count of millionths. The
//! schema dialect writes decimal bounds at modest precision; six fractional
//! digits carry them exactly, and rendering strips trailing zeros so a whole
//! value prints as a bare integer.

use vstd::prelude::*;

verus! {

use crate::text::{digit_char, digit_str, fmt_u64, u64_dec_spec};
use vstd::string::StringExecFns;

/// A fixed-point decimal value: `micros` millionths.
#[derive(Debug, Clone, Copy, PartialEq, Eq)]
pub struct Decimal {
    micros: i64,
}

impl View for Decimal {
    type V = int;

    /// The value in millionths.
    closed spec fn view(&self) -> int {
        self.micros as int
    }
}

/// One whole unit, in millionths.
pub open spec fn unit_micros() -> int {
    1000000
}

impl Decimal {
    /// The value holding `m` millionths.
    pub fn from_micros(m: i64) -> (r: Decimal)
        ensures
            r@ == m as int,
    {
        Decimal { micros: m }
    }

    /// The whole value `i`.
    pub fn from_int(i: i64) -> (r: Decimal)
        requires
            -9223372036854 <= i <= 9223372036854,
        ensures
            r@ == i * unit_micros(),
    {
        Decimal { micros: i * 1000000 }
    }

    /// The value in millionths.
    pub fn micros(&self) -> (r: i64)
        ensures
            r as int == self@,
    {
        self.micros
    }

    /// Whether the value is strictly positive.
    pub fn is_positive(&self) -> (r: bool)
        ensures
            r == (self@ > 0),
    {
        self.micros > 0
    }

    /// Whether the value is zero or positive.
    pub fn is_non_negative(&self) -> (r: bool)
        ensures
            r == (self@ >= 0),
    {
        self.micros >= 0
    }

    /// The value one whole unit greater.
    pub fn plus_one(&self) -> (r: Decimal)
        requires
            self@ + unit_micros() <= i64::MAX,
        ensures
            r@ == self@ + unit_micros(),
    {
        Decimal { micros: self.micros + 1000000 }
    }

    /// Renders the value: optional sign, the whole part, and the fractional
    /// digits with trailing zeros stripped — nothing after a whole value.
    pub fn display_string(&self) -> (r: String)
        ensures
            r@ == dec_string_spec(self@),
    {
        let mag: u64 = if self.micros == i64::MIN {
            9223372036854775808u64
        } else if self.micros < 0 {
            (-self.micros) as u64
        } else {
            self.micros as u64
        };
        let whole: u64 = mag / 1000000;
        let frac: u64 = mag % 1000000;
        let mut s: String = if self.micros < 0 {
            proof {
                reveal_strlit("-");
            }
            let t = "-".to_owned();
            proof {
                assert(t@ =~= seq!['-']);
            }
            t
        } else {
            String::new()
        };
        s.append(fmt_u64(whole).as_str());
        if frac > 0 {
            s.append(".");
            s.append(frac_string(frac).as_str());
        }
        proof {
            assert(s@ =~= dec_string_spec(self@));
        }
        s
    }
}

/// `f` rendered as exactly `k` digits, leading zeros kept.
pub open spec fn pad_digits(f: nat, k: nat) -> Seq<char>
    decreases k,
{
    if k == 0 {
        Seq::empty()
    } else {
        pad_digits(f / 10, (k - 1) as nat) + seq![digit_char(f % 10)]
    }
}

/// `f` with its trailing zero digits removed, together with how many of its
/// `k` digit positions remain.
pub open spec fn strip_zeros(f: nat, k: nat) -> (nat, nat)
    decreases k,
{
    if k > 0 && f % 10 == 0 {
        strip_zeros(f / 10, (k - 1) as nat)
    } else {
        (f, k)
    }
}

/// The fractional digits of `f` millionths-of-a-unit remainder, trailing
/// zeros stripped.
pub open spec fn dec_frac_spec(f: nat) -> Seq<char>
    recommends
        0 < f < 1000000,
{
    pad_digits(strip_zeros(f, 6).0, strip_zeros(f, 6).1)
}

/// The rendered text of `m` millionths: optional sign, whole part, and the
/// fractional part after a dot only when it is not zero.
pub open spec fn dec_string_spec(m: int) -> Seq<char> {
    let mag = if m < 0 {
        -m
    } else {
        m
    };
    let whole = (mag / 1000000) as nat;
    let frac = (mag % 1000000) as nat;
    (if m < 0 {
        seq!['-']
    } else {
        Seq::<char>::empty()
    }) + u64_dec_spec(whole) + (if frac == 0 {
        Seq::<char>::empty()
    } else {
        "."@ + dec_frac_spec(frac)
    })
}

fn pad_exec(f: u64, k: u64) -> (r: String)
    ensures
        r@ == pad_digits(f as nat, k as nat),
    decreases k,
{
    if k == 0 {
        String::new()
    } else {
        let mut s = pad_exec(f / 10, k - 1);
        s.append(digit_str(f % 10));
        s
    }
}

fn frac_string(frac: u64) -> (r: String)
    requires
        0 < frac < 1000000,
    ensures
        r@ == dec_frac_spec(frac as nat),
{
    let mut f: u64 = frac;
    let mut k: u64 = 6;
    while k > 0 && f % 10 == 0
        invariant
            strip_zeros(frac as nat, 6) == strip_zeros(f as nat, k as nat),
        decreases k,
    {
        f = f / 10;
        k = k - 1;
    }
    pad_exec(f, k)
}

} // verus!
