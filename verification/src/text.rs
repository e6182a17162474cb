//! Small verified text utilities shared by the parsers and the emitters:
//! string-slice equality, decimal parsing of occurrence counts, and decimal
//! formatting of emitted bound literals.

use vstd::prelude::*;

verus! {

use vstd::string::StrSliceExecFns;
use vstd::string::StringExecFns;

/// Equality of two string slices, stated over their character views.
pub fn str_eq(a: &str, b: &str) -> (r: bool)
    ensures
        r == (a@ == b@),
{
    let sa: String = a.to_owned();
    let sb: String = b.to_owned();
    sa == sb
}

/// A decimal digit, `'0'` through `'9'`.
pub open spec fn is_digit(c: char) -> bool {
    48 <= c as u32 <= 57
}

/// The numeric value of a decimal digit character.
pub open spec fn digit_val(c: char) -> nat
    recommends
        is_digit(c),
{
    (c as u32 - 48) as nat
}

/// Every character of `s` is a decimal digit.
pub open spec fn all_digits(s: Seq<char>) -> bool {
    forall|i: int| 0 <= i < s.len() ==> is_digit(#[trigger] s[i])
}

/// The value of `s` read as a decimal numeral.
pub open spec fn str_to_nat(s: Seq<char>) -> nat
    recommends
        all_digits(s),
    decreases s.len(),
{
    if s.len() == 0 {
        0
    } else {
        str_to_nat(s.drop_last()) * 10 + digit_val(s.last())
    }
}

/// What `parse_u64` returns: the value of a non-empty all-digit numeral,
/// optionally behind one leading plus sign, that fits in a `u64` — and
/// nothing else.
pub open spec fn parse_u64_spec(s: Seq<char>) -> Option<u64> {
    let t = if s.len() > 0 && s[0] == '+' {
        s.drop_first()
    } else {
        s
    };
    if t.len() > 0 && all_digits(t) && str_to_nat(t) <= u64::MAX {
        Some(str_to_nat(t) as u64)
    } else {
        None
    }
}

proof fn lemma_str_to_nat_step(s: Seq<char>, i: int)
    requires
        0 <= i < s.len(),
    ensures
        str_to_nat(s.subrange(0, i + 1)) == str_to_nat(s.subrange(0, i)) * 10 + digit_val(s[i]),
{
    let t = s.subrange(0, i + 1);
    assert(t.drop_last() =~= s.subrange(0, i));
    assert(t.last() == s[i]);
}

proof fn lemma_str_to_nat_mono(s: Seq<char>, i: int)
    requires
        all_digits(s),
        0 <= i <= s.len(),
    ensures
        str_to_nat(s) >= str_to_nat(s.subrange(0, i)),
    decreases s.len() - i,
{
    if i == s.len() {
        assert(s.subrange(0, i) =~= s);
    } else {
        lemma_str_to_nat_step(s, i);
        lemma_str_to_nat_mono(s, i + 1);
    }
}

/// Reads a non-empty string of decimal digits, optionally behind one
/// leading plus sign, as a `u64`; anything else, including a value above
/// `u64::MAX`, yields `None`.
#[verifier::loop_isolation(false)]
pub fn parse_u64(s: &str) -> (r: Option<u64>)
    ensures
        r == parse_u64_spec(s@),
{
    let n = s.unicode_len();
    let start: usize = if n > 0 && s.get_char(0) == '+' {
        1
    } else {
        0
    };
    let ghost t: Seq<char> = if start == 1 {
        s@.drop_first()
    } else {
        s@
    };
    proof {
        assert(t =~= s@.skip(start as int));
    }
    if n == start {
        return None;
    }
    let mut val: u64 = 0;
    let mut i: usize = start;
    proof {
        assert(t.subrange(0, 0) =~= Seq::<char>::empty());
    }
    while i < n
        invariant
            start <= i <= n,
            all_digits(t.subrange(0, i - start)),
            val == str_to_nat(t.subrange(0, i - start)),
        decreases n - i,
    {
        let c = s.get_char(i);
        proof {
            assert(t[i - start] == s@[i as int]);
        }
        let cu = c as u32;
        if cu < 48 || cu > 57 {
            assert(!is_digit(t[i - start]));
            return None;
        }
        let d: u64 = (cu - 48) as u64;
        let stepped: Option<u64> = match val.checked_mul(10) {
            Some(m) => m.checked_add(d),
            None => None,
        };
        proof {
            lemma_str_to_nat_step(t, i - start);
        }
        match stepped {
            Some(v) => {
                proof {
                    let pre = t.subrange(0, i - start + 1);
                    assert forall|j: int| 0 <= j < pre.len() implies is_digit(
                        #[trigger] pre[j],
                    ) by {
                        if j < i - start {
                            assert(pre[j] == t.subrange(0, i - start)[j]);
                        } else {
                            assert(pre[j] == t[i - start]);
                        }
                    }
                    assert(all_digits(pre));
                }
                val = v;
                i = i + 1;
            },
            None => {
                proof {
                    if all_digits(t) {
                        lemma_str_to_nat_mono(t, i - start + 1);
                    }
                }
                return None;
            },
        }
    }
    proof {
        assert(t.subrange(0, n - start) =~= t);
    }
    Some(val)
}

/// The character of a decimal digit value.
pub open spec fn digit_char(d: nat) -> char
    recommends
        d < 10,
{
    if d == 0 {
        '0'
    } else if d == 1 {
        '1'
    } else if d == 2 {
        '2'
    } else if d == 3 {
        '3'
    } else if d == 4 {
        '4'
    } else if d == 5 {
        '5'
    } else if d == 6 {
        '6'
    } else if d == 7 {
        '7'
    } else if d == 8 {
        '8'
    } else {
        '9'
    }
}

/// The decimal numeral of `n`, without sign or leading zeros.
pub open spec fn u64_dec_spec(n: nat) -> Seq<char>
    decreases n,
{
    if n < 10 {
        seq![digit_char(n)]
    } else {
        u64_dec_spec(n / 10) + seq![digit_char(n % 10)]
    }
}

/// The decimal numeral of `n`, with a leading `'-'` when `n` is negative.
pub open spec fn i64_dec_spec(n: int) -> Seq<char> {
    if n < 0 {
        seq!['-'] + u64_dec_spec((-n) as nat)
    } else {
        u64_dec_spec(n as nat)
    }
}

pub(crate) fn digit_str(d: u64) -> (r: &'static str)
    requires
        d < 10,
    ensures
        r@ == seq![digit_char(d as nat)],
{
    proof {
        reveal_strlit("0");
        reveal_strlit("1");
        reveal_strlit("2");
        reveal_strlit("3");
        reveal_strlit("4");
        reveal_strlit("5");
        reveal_strlit("6");
        reveal_strlit("7");
        reveal_strlit("8");
        reveal_strlit("9");
    }
    let r: &'static str = if d == 0 {
        "0"
    } else if d == 1 {
        "1"
    } else if d == 2 {
        "2"
    } else if d == 3 {
        "3"
    } else if d == 4 {
        "4"
    } else if d == 5 {
        "5"
    } else if d == 6 {
        "6"
    } else if d == 7 {
        "7"
    } else if d == 8 {
        "8"
    } else {
        "9"
    };
    proof {
        assert(r@ =~= seq![digit_char(d as nat)]);
    }
    r
}

/// Formats `n` as its decimal numeral.
pub fn fmt_u64(n: u64) -> (r: String)
    ensures
        r@ == u64_dec_spec(n as nat),
    decreases n,
{
    if n < 10 {
        digit_str(n).to_owned()
    } else {
        let mut s = fmt_u64(n / 10);
        s.append(digit_str(n % 10));
        s
    }
}

/// Formats `n` as its decimal numeral, with a leading `'-'` when negative.
pub fn fmt_i64(n: i64) -> (r: String)
    ensures
        r@ == i64_dec_spec(n as int),
{
    if n >= 0 {
        fmt_u64(n as u64)
    } else {
        let mag: u64 = if n == i64::MIN {
            9223372036854775808u64
        } else {
            (-n) as u64
        };
        proof {
            reveal_strlit("-");
        }
        let mut s = "-".to_owned();
        proof {
            assert(s@ =~= seq!['-']);
        }
        s.append(fmt_u64(mag).as_str());
        s
    }
}

} // verus!
