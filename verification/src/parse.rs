//! Verified parsing of stored price strings: whole base-unit amounts
//! ("500000000") and decimal token amounts ("0.1"), both falling back
//! to zero on malformed input, as the stored data's readers always did.

use vstd::prelude::*;

verus! {

/// A decimal digit.
pub open spec fn is_dec_digit(c: char) -> bool {
    '0' <= c && c <= '9'
}

/// The numeric value of a decimal digit.
pub open spec fn digit_value(c: char) -> nat {
    (c as int - '0' as int) as nat
}

/// Every character of `s` is a decimal digit.
pub open spec fn all_digits(s: Seq<char>) -> bool {
    forall|i: int| 0 <= i < s.len() ==> is_dec_digit(#[trigger] s[i])
}

/// The value of a digit string, most significant digit first.
pub open spec fn dec_value(s: Seq<char>) -> nat
    decreases s.len(),
{
    if s.len() == 0 {
        0
    } else {
        dec_value(s.drop_last()) * 10 + digit_value(s.last())
    }
}

/// Ten to the `n`.
pub open spec fn pow10(n: nat) -> nat
    decreases n,
{
    if n == 0 {
        1
    } else {
        10 * pow10((n - 1) as nat)
    }
}

/// A digit string's value is bounded by ten to its length.
pub proof fn lemma_dec_value_bound(s: Seq<char>)
    requires
        all_digits(s),
    ensures
        dec_value(s) < pow10(s.len()),
    decreases s.len(),
{
    if s.len() > 0 {
        assert forall|i: int| 0 <= i < s.drop_last().len() implies is_dec_digit(
            #[trigger] s.drop_last()[i],
        ) by {
            assert(s.drop_last()[i] == s[i]);
        }
        lemma_dec_value_bound(s.drop_last());
        assert(digit_value(s.last()) <= 9);
    }
}

/// A digit string's value only grows as it is extended to the right.
proof fn lemma_dec_value_prefix_le(s: Seq<char>, i: int)
    requires
        0 <= i <= s.len(),
        all_digits(s),
    ensures
        dec_value(s.take(i)) <= dec_value(s),
    decreases s.len() - i,
{
    if i < s.len() {
        assert(s.take(i + 1).drop_last() =~= s.take(i));
        assert(dec_value(s.take(i + 1)) == dec_value(s.take(i)) * 10 + digit_value(
            s.take(i + 1).last(),
        ));
        lemma_dec_value_prefix_le(s, i + 1);
    } else {
        assert(s.take(i) =~= s);
    }
}

/// Parses the characters of `s` in `[from, to)` as a digit string:
/// the value when all are digits and it fits, nothing otherwise.
fn parse_digits(s: &str, from: usize, to: usize) -> (r: Option<u64>)
    requires
        from <= to <= s@.len(),
    ensures
        r is Some <==> all_digits(s@.subrange(from as int, to as int)) && dec_value(
            s@.subrange(from as int, to as int),
        ) <= u64::MAX,
        r matches Some(v) ==> v == dec_value(s@.subrange(from as int, to as int)),
{
    let ghost sub = s@.subrange(from as int, to as int);
    let mut value: u128 = 0;
    let mut i: usize = from;
    while i < to
        invariant
            from <= i <= to <= s@.len(),
            sub == s@.subrange(from as int, to as int),
            all_digits(sub.take(i - from)),
            value == dec_value(sub.take(i - from)),
            value <= u64::MAX,
        decreases to - i,
    {
        let c = s.get_char(i);
        proof {
            assert(sub.take(i - from + 1).drop_last() =~= sub.take(i - from));
            assert(sub.take(i - from + 1).last() == s@[i as int]);
        }
        if c < '0' || c > '9' {
            proof {
                assert(!is_dec_digit(sub[i - from]));
            }
            return None;
        }
        let d: u32 = (c as u32) - 48;
        proof {
            assert(d == digit_value(s@[i as int]));
            assert forall|j: int| 0 <= j < i - from + 1 implies is_dec_digit(
                #[trigger] sub.take(i - from + 1)[j],
            ) by {
                if j < i - from {
                    assert(sub.take(i - from + 1)[j] == sub.take(i - from)[j]);
                }
            }
        }
        value = value * 10 + (d as u128);
        if value > u64::MAX as u128 {
            proof {
                if all_digits(sub) {
                    lemma_dec_value_prefix_le(sub, i - from + 1);
                }
            }
            return None;
        }
        i += 1;
    }
    proof {
        assert(sub.take(i - from) =~= sub);
    }
    Some(value as u64)
}

/// Parses a whole base-unit amount ("500000000"): its value when the
/// string is one or more digits and the value fits, zero otherwise —
/// malformed stored data degrades to a zero price, it never fails.
pub fn parse_lamports(s: &str) -> (r: u64)
    ensures
        s@.len() > 0 && all_digits(s@) && dec_value(s@) <= u64::MAX ==> r == dec_value(s@),
        !(s@.len() > 0 && all_digits(s@) && dec_value(s@) <= u64::MAX) ==> r == 0,
{
    let n = s.unicode_len();
    if n == 0 {
        return 0;
    }
    proof {
        assert(s@.subrange(0, s@.len() as int) =~= s@);
    }
    match parse_digits(s, 0, n) {
        Some(v) => v,
        None => 0,
    }
}

/// Index of the first dot of `s`, or its length when there is none.
pub open spec fn first_dot(s: Seq<char>) -> int
    decreases s.len(),
{
    if s.len() == 0 {
        0
    } else if s[0] == '.' {
        0
    } else {
        1 + first_dot(s.skip(1))
    }
}

proof fn lemma_first_dot(s: Seq<char>, k: int)
    requires
        0 <= k <= s.len(),
        forall|j: int| 0 <= j < k ==> s[j] != '.',
        k < s.len() ==> s[k] == '.',
    ensures
        first_dot(s) == k,
    decreases s.len(),
{
    if s.len() > 0 && s[0] != '.' {
        assert(k >= 1);
        assert forall|j: int| 0 <= j < k - 1 implies s.skip(1)[j] != '.' by {
            assert(s.skip(1)[j] == s[j + 1]);
        }
        assert(k - 1 < s.skip(1).len() ==> s.skip(1)[k - 1] == '.');
        lemma_first_dot(s.skip(1), k - 1);
    }
}

/// The lamports contributed by a fraction part: its first nine digits,
/// padded with zeros to nine places; further digits are truncated.
pub open spec fn frac_lamports(fp: Seq<char>) -> nat {
    if fp.len() >= 9 {
        dec_value(fp.take(9))
    } else {
        dec_value(fp) * pow10((9 - fp.len()) as nat)
    }
}

/// The value of a decimal token string in lamports: one or more integer
/// digits, optionally followed by a dot and any number of fraction
/// digits. Nothing for any other shape.
pub open spec fn sol_lamports(s: Seq<char>) -> Option<int> {
    let k = first_dot(s);
    if k == s.len() {
        if s.len() > 0 && all_digits(s) {
            Some(dec_value(s) * 1_000_000_000 as int)
        } else {
            None
        }
    } else {
        if 0 < k && all_digits(s.take(k)) && all_digits(s.skip(k + 1)) {
            Some(dec_value(s.take(k)) * 1_000_000_000 + frac_lamports(s.skip(k + 1)) as int)
        } else {
            None
        }
    }
}

/// Ten to the `e`, executable.
fn pow10_u64(e: usize) -> (r: u64)
    requires
        e <= 9,
    ensures
        r == pow10(e as nat),
{
    proof {
        reveal_with_fuel(pow10, 10);
    }
    match e {
        0 => 1,
        1 => 10,
        2 => 100,
        3 => 1_000,
        4 => 10_000,
        5 => 100_000,
        6 => 1_000_000,
        7 => 10_000_000,
        8 => 100_000_000,
        _ => 1_000_000_000,
    }
}

/// Parses a decimal token amount ("0.1", "1.5", "2") into lamports,
/// truncating past the ninth fraction digit; a string of any other
/// shape, or a value too large to hold, degrades to zero.
pub fn parse_sol_to_lamports(s: &str) -> (r: u64)
    ensures
        sol_lamports(s@) matches Some(v) ==> r == (if v <= u64::MAX {
            v
        } else {
            0
        }),
        sol_lamports(s@) is None ==> r == 0,
{
    let n = s.unicode_len();
    let mut k: usize = 0;
    while k < n && s.get_char(k) != '.'
        invariant
            0 <= k <= n,
            n == s@.len(),
            forall|j: int| 0 <= j < k ==> s@[j] != '.',
        decreases n - k,
    {
        k += 1;
    }
    proof {
        lemma_first_dot(s@, k as int);
    }
    if k == n {
        // no dot: a whole token amount
        if n == 0 {
            return 0;
        }
        proof {
            assert(s@.subrange(0, s@.len() as int) =~= s@);
        }
        match parse_digits(s, 0, n) {
            Some(v) => {
                let total: u128 = (v as u128) * 1_000_000_000;
                if total > u64::MAX as u128 {
                    0
                } else {
                    total as u64
                }
            },
            None => {
                proof {
                    if all_digits(s@) {
                        assert(dec_value(s@) > u64::MAX);
                        assert(dec_value(s@) * 1_000_000_000 >= dec_value(s@) * 1)
                            by (nonlinear_arith);
                    }
                }
                0
            },
        }
    } else {
        if k == 0 {
            return 0;
        }
        let ghost ip = s@.subrange(0, k as int);
        let ghost fp = s@.skip(k + 1);
        proof {
            assert(ip =~= s@.take(k as int));
        }
        let int_value = match parse_digits(s, 0, k) {
            Some(v) => v,
            None => {
                proof {
                    if all_digits(ip) {
                        assert(dec_value(ip) > u64::MAX);
                        assert(dec_value(ip) * 1_000_000_000 >= dec_value(ip));
                    }
                }
                return 0;
            },
        };
        let frac_len_all = n - (k + 1);
        let frac_len = if frac_len_all > 9 {
            9
        } else {
            frac_len_all
        };
        // every fraction digit must be a digit, also past the ninth
        let mut t: usize = k + 1;
        while t < n
            invariant
                0 < k < n,
                k + 1 <= t <= n,
                n == s@.len(),
                first_dot(s@) == k,
                fp == s@.skip(k + 1),
                forall|j: int| k + 1 <= j < t ==> is_dec_digit(#[trigger] s@[j]),
            decreases n - t,
        {
            let c = s.get_char(t);
            if c < '0' || c > '9' {
                proof {
                    assert(fp[t - (k + 1)] == s@[t as int]);
                    assert(!is_dec_digit(fp[t - (k + 1)]));
                }
                return 0;
            }
            t += 1;
        }
        proof {
            assert forall|j: int| 0 <= j < fp.len() implies is_dec_digit(#[trigger] fp[j]) by {
                assert(fp[j] == s@[j + k + 1]);
            }
        }
        let frac_value = match parse_digits(s, k + 1, k + 1 + frac_len) {
            Some(v) => v,
            None => {
                // unreachable: the fraction digits were just checked and
                // at most nine digits always fit
                proof {
                    let sub = s@.subrange(k + 1, k + 1 + frac_len as int);
                    assert forall|j: int| 0 <= j < sub.len() implies is_dec_digit(
                        #[trigger] sub[j],
                    ) by {
                        assert(sub[j] == s@[j + k + 1]);
                    }
                    lemma_dec_value_bound(sub);
                    lemma_pow10_le(sub.len(), 9);
                    assert(pow10(9) == 1_000_000_000) by {
                        reveal_with_fuel(pow10, 10);
                    }
                    assert(false);
                }
                return 0;
            },
        };
        proof {
            assert(fp.len() == n - (k + 1));
            let sub = s@.subrange(k + 1, k + 1 + frac_len as int);
            if frac_len_all >= 9 {
                assert(sub =~= fp.take(9));
            } else {
                assert(sub =~= fp);
            }
            assert forall|j: int| 0 <= j < sub.len() implies is_dec_digit(#[trigger] sub[j]) by {
                assert(sub[j] == s@[j + k + 1]);
            }
            lemma_dec_value_bound(sub);
            lemma_pow10_le(sub.len(), 9);
        }
        let pad = pow10_u64(9 - frac_len);
        proof {
            lemma_frac_bound(fp, frac_value as nat, pad as nat, frac_len as nat);
        }
        let frac_lam: u64 = frac_value * pad;
        let total: u128 = (int_value as u128) * 1_000_000_000 + (frac_lam as u128);
        if total > u64::MAX as u128 {
            0
        } else {
            total as u64
        }
    }
}

/// Ten to a smaller exponent is no larger.
proof fn lemma_pow10_le(a: nat, b: nat)
    requires
        a <= b,
    ensures
        pow10(a) <= pow10(b),
    decreases b,
{
    if a < b {
        lemma_pow10_le(a, (b - 1) as nat);
    }
}

/// A fraction value padded to nine places stays below one whole token.
proof fn lemma_frac_bound(fp: Seq<char>, v: nat, pad: nat, flen: nat)
    requires
        all_digits(fp),
        flen == (if fp.len() >= 9 {
            9nat
        } else {
            fp.len()
        }),
        v == (if fp.len() >= 9 {
            dec_value(fp.take(9))
        } else {
            dec_value(fp)
        }),
        pad == pow10((9 - flen) as nat),
    ensures
        v * pad == frac_lamports(fp),
        v * pad < 1_000_000_000,
{
    reveal_with_fuel(pow10, 10);
    assert(pow10(9) == 1_000_000_000);
    if fp.len() >= 9 {
        assert forall|j: int| 0 <= j < fp.take(9).len() implies is_dec_digit(
            #[trigger] fp.take(9)[j],
        ) by {
            assert(fp.take(9)[j] == fp[j]);
        }
        lemma_dec_value_bound(fp.take(9));
        assert(pad == pow10(0));
        assert(pad == 1);
        assert(v * pad == v) by (nonlinear_arith)
            requires
                pad == 1,
        ;
    } else {
        lemma_dec_value_bound(fp);
        lemma_mul_bound(v, pow10(fp.len()), pad);
        lemma_pow10_mul(fp.len(), (9 - fp.len()) as nat);
        assert((pow10(fp.len()) - 1) * pad == pow10(fp.len()) * pad - pad) by (nonlinear_arith);
        lemma_pow10_le(0, (9 - fp.len()) as nat);
        assert(v * pad <= pow10(9) - pad);
    }
}

/// `a < b` implies `a * c <= (b - 1) * c`.
proof fn lemma_mul_bound(a: nat, b: nat, c: nat)
    requires
        a < b,
    ensures
        a * c <= (b - 1) * c,
{
    assert(a * c <= (b - 1) * c) by (nonlinear_arith)
        requires
            a <= b - 1,
            c >= 0,
    ;
}

/// Powers of ten multiply by adding exponents.
proof fn lemma_pow10_mul(a: nat, b: nat)
    ensures
        pow10(a) * pow10(b) == pow10(a + b),
    decreases a,
{
    if a == 0 {
        assert(pow10(0) == 1);
        assert(1 * pow10(b) == pow10(b));
    } else {
        lemma_pow10_mul((a - 1) as nat, b);
        assert(pow10(a) * pow10(b) == 10 * (pow10((a - 1) as nat) * pow10(b))) by (nonlinear_arith)
            requires
                pow10(a) == 10 * pow10((a - 1) as nat),
        ;
        assert(pow10(a + b) == 10 * pow10((a + b - 1) as nat));
        assert(((a + b - 1) as nat) == ((a - 1) as nat) + b);
    }
}

} // verus!
