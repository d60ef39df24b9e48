//! Decimal text for scene files.
//!
//! Fixed-point scalars print as a signed whole part and exactly three
//! fraction digits; plain integers print without a point.  Parsing accepts an
//! optional sign, up to nineteen whole digits and up to three fraction
//! digits, and rejects everything else.  Printing then parsing is proved to
//! give back the original value.

use vstd::prelude::*;

verus! {

pub open spec fn is_digit(c: u8) -> bool {
    48 <= c && c <= 57
}

pub open spec fn all_digits(s: Seq<u8>) -> bool {
    forall|k: int| 0 <= k < s.len() ==> is_digit(#[trigger] s[k])
}

/// Value of a digit string, most significant first.
pub open spec fn digits_val(s: Seq<u8>) -> int
    decreases s.len(),
{
    if s.len() == 0 {
        0
    } else {
        digits_val(s.drop_last()) * 10 + (s.last() - 48)
    }
}

pub open spec fn pow10(k: nat) -> int
    decreases k,
{
    if k == 0 {
        1
    } else {
        10 * pow10((k - 1) as nat)
    }
}

/// Decimal digits of a nonnegative number, without leading zeros.
pub open spec fn dec_digits(n: nat) -> Seq<u8>
    decreases n,
    via dec_digits_decreases
{
    if n < 10 {
        seq![(48 + n) as u8]
    } else {
        dec_digits((n / 10) as nat).push((48 + n % 10) as u8)
    }
}

#[via_fn]
proof fn dec_digits_decreases(n: nat) {
    if n >= 10 {
        vstd::arithmetic::div_mod::lemma_div_decreases(n as int, 10);
    }
}

/// A three-digit, zero-padded fraction in thousandths.
pub open spec fn pad3(f: int) -> Seq<u8>
    recommends
        0 <= f < 1000,
{
    seq![(48 + f / 100) as u8, (48 + (f / 10) % 10) as u8, (48 + f % 10) as u8]
}

/// Canonical text of a fixed-point scalar.
pub open spec fn fmt_fx(x: int) -> Seq<u8> {
    let m = if x < 0 {
        -x
    } else {
        x
    };
    let sign: Seq<u8> = if x < 0 {
        seq![45u8]
    } else {
        Seq::empty()
    };
    sign + dec_digits((m / 1000) as nat) + seq![46u8] + pad3(m % 1000)
}

/// Canonical text of a plain integer.
pub open spec fn fmt_int(x: int) -> Seq<u8> {
    let m = if x < 0 {
        -x
    } else {
        x
    };
    let sign: Seq<u8> = if x < 0 {
        seq![45u8]
    } else {
        Seq::empty()
    };
    sign + dec_digits(m as nat)
}

/// Index of the first decimal point, if any.
pub open spec fn dot_at(s: Seq<u8>) -> Option<int>
    decreases s.len(),
{
    if s.len() == 0 {
        None
    } else if s[0] == 46 {
        Some(0int)
    } else {
        match dot_at(s.skip(1)) {
            Some(i) => Some(i + 1),
            None => None,
        }
    }
}

/// Nonnegative fixed-point magnitude in thousandths: whole digits with an
/// optional point and one to three fraction digits.
pub open spec fn parse_mag(s: Seq<u8>) -> Option<int> {
    match dot_at(s) {
        None => if 1 <= s.len() <= 19 && all_digits(s) {
            Some(digits_val(s) * 1000)
        } else {
            None
        },
        Some(i) => {
            let ip = s.subrange(0, i);
            let fp = s.skip(i + 1);
            if 1 <= ip.len() <= 19 && all_digits(ip) && 1 <= fp.len() <= 3 && all_digits(fp) {
                Some(digits_val(ip) * 1000 + digits_val(fp) * pow10((3 - fp.len()) as nat))
            } else {
                None
            }
        },
    }
}

/// A signed fixed-point scalar, rejected when it does not fit the machine
/// range.
pub open spec fn parse_fx(s: Seq<u8>) -> Option<int> {
    if s.len() > 0 && s[0] == 45 {
        match parse_mag(s.skip(1)) {
            Some(v) => if v <= 0x8000_0000_0000_0000 {
                Some(-v)
            } else {
                None
            },
            None => None,
        }
    } else {
        match parse_mag(s) {
            Some(v) => if v <= 0x7FFF_FFFF_FFFF_FFFF {
                Some(v)
            } else {
                None
            },
            None => None,
        }
    }
}

/// A signed integer without a decimal point.
pub open spec fn parse_int(s: Seq<u8>) -> Option<int> {
    if s.len() > 0 && s[0] == 45 {
        let b = s.skip(1);
        if 1 <= b.len() <= 19 && all_digits(b) && digits_val(b) <= 0x8000_0000_0000_0000 {
            Some(-digits_val(b))
        } else {
            None
        }
    } else {
        if 1 <= s.len() <= 19 && all_digits(s) && digits_val(s) <= 0x7FFF_FFFF_FFFF_FFFF {
            Some(digits_val(s))
        } else {
            None
        }
    }
}

//---------------------------------------------------------------------------
// Facts about digits.
//---------------------------------------------------------------------------

pub proof fn lemma_pow10_pos(k: nat)
    ensures
        pow10(k) >= 1,
    decreases k,
{
    if k > 0 {
        lemma_pow10_pos((k - 1) as nat);
    }
}

pub proof fn lemma_pow10_19()
    ensures
        pow10(19) == 10_000_000_000_000_000_000,
{
    reveal_with_fuel(pow10, 20);
}

/// Digit strings denote values below the power of ten of their length.
pub proof fn lemma_digits_val_bounds(s: Seq<u8>)
    requires
        all_digits(s),
    ensures
        0 <= digits_val(s) < pow10(s.len()),
    decreases s.len(),
{
    if s.len() == 0 {
    } else {
        lemma_digits_val_bounds(s.drop_last());
        assert(is_digit(s[s.len() - 1]));
    }
}

/// The decimal digits of `n` denote `n`.
pub proof fn lemma_digits_of_dec(n: nat)
    ensures
        digits_val(dec_digits(n)) == n,
        all_digits(dec_digits(n)),
        dec_digits(n).len() >= 1,
    decreases n,
{
    if n < 10 {
        assert(dec_digits(n) =~= seq![(48 + n) as u8]);
        assert(seq![(48 + n) as u8].drop_last() =~= Seq::<u8>::empty());
        assert(seq![(48 + n) as u8].last() == (48 + n) as u8);
        assert(digits_val(Seq::<u8>::empty()) == 0);
    } else {
        lemma_digits_of_dec((n / 10) as nat);
        vstd::arithmetic::div_mod::lemma_div_decreases(n as int, 10);
        let whole = dec_digits(n);
        assert(whole.drop_last() =~= dec_digits((n / 10) as nat));
        vstd::arithmetic::div_mod::lemma_fundamental_div_mod(n as int, 10);
        assert(0 <= n % 10 < 10);
    }
}

/// Short numbers have short digit strings.
pub proof fn lemma_dec_digits_len(n: nat, k: nat)
    requires
        k >= 1,
        n < pow10(k),
    ensures
        dec_digits(n).len() <= k,
    decreases n,
{
    if n < 10 {
    } else {
        if k == 1 {
            assert(pow10(1) == 10) by {
                reveal_with_fuel(pow10, 2);
            }
            assert(false);
        } else {
            vstd::arithmetic::div_mod::lemma_div_decreases(n as int, 10);
            assert(n / 10 < pow10((k - 1) as nat)) by {
                assert(pow10(k) == 10 * pow10((k - 1) as nat));
                vstd::arithmetic::div_mod::lemma_multiply_divide_lt(
                    n as int,
                    10,
                    pow10((k - 1) as nat),
                );
            }
            lemma_dec_digits_len((n / 10) as nat, (k - 1) as nat);
        }
    }
}

/// The padded fraction denotes its value and is three digits long.
pub proof fn lemma_pad3(f: int)
    requires
        0 <= f < 1000,
    ensures
        pad3(f).len() == 3,
        all_digits(pad3(f)),
        digits_val(pad3(f)) == f,
{
    vstd::arithmetic::div_mod::lemma_multiply_divide_lt(f, 100, 10);
    vstd::arithmetic::div_mod::lemma_div_pos_is_pos(f, 100);
    vstd::arithmetic::div_mod::lemma_div_pos_is_pos(f, 10);
    vstd::arithmetic::div_mod::lemma_fundamental_div_mod(f, 10);
    vstd::arithmetic::div_mod::lemma_fundamental_div_mod(f / 10, 10);
    vstd::arithmetic::div_mod::lemma_div_denominator(f, 10, 10);
    let s = pad3(f);
    let s2 = seq![(48 + f / 100) as u8, (48 + (f / 10) % 10) as u8];
    let s1 = seq![(48 + f / 100) as u8];
    assert(s.drop_last() =~= s2);
    assert(s2.drop_last() =~= s1);
    assert(s1.drop_last() =~= Seq::<u8>::empty());
    assert(0 <= f / 100 < 10);
    assert(0 <= (f / 10) % 10 < 10);
    assert(0 <= f % 10 < 10);
    assert(digits_val(Seq::<u8>::empty()) == 0);
    assert(s1.last() == (48 + f / 100) as u8);
    assert(((48 + f / 100) as u8) as int == 48 + f / 100);
    assert(digits_val(s1) == digits_val(s1.drop_last()) * 10 + (s1.last() - 48));
    assert(digits_val(s1) == f / 100);
    assert(s2.last() == (48 + (f / 10) % 10) as u8);
    assert(((48 + (f / 10) % 10) as u8) as int == 48 + (f / 10) % 10);
    assert(digits_val(s2) == digits_val(s2.drop_last()) * 10 + (s2.last() - 48));
    assert(digits_val(s2) == (f / 100) * 10 + (f / 10) % 10);
    assert((f / 10) / 10 == f / 100);
    assert(f / 10 == 10 * ((f / 10) / 10) + (f / 10) % 10);
    assert(digits_val(s2) == f / 10);
    assert(s.last() == (48 + f % 10) as u8);
    assert(((48 + f % 10) as u8) as int == 48 + f % 10);
    assert(digits_val(s) == digits_val(s.drop_last()) * 10 + (s.last() - 48));
    assert(digits_val(s) == (f / 10) * 10 + f % 10);
    assert(f == 10 * (f / 10) + f % 10);
}

/// Where the first point sits: after any point-free prefix.
pub proof fn lemma_dot_at(s: Seq<u8>, p: int)
    requires
        0 <= p <= s.len(),
        forall|k: int| 0 <= k < p ==> s[k] != 46,
        p < s.len() ==> s[p] == 46,
    ensures
        dot_at(s) == if p == s.len() {
            None::<int>
        } else {
            Some(p)
        },
    decreases p,
{
    if s.len() == 0 {
    } else if s[0] == 46 {
        assert(p == 0);
    } else {
        assert(p >= 1);
        let t = s.skip(1);
        assert(forall|k: int| 0 <= k < p - 1 ==> t[k] != 46);
        assert(p - 1 < t.len() ==> t[p - 1] == 46);
        lemma_dot_at(t, p - 1);
    }
}

/// Digit bytes are never signs, points or separators.
pub proof fn lemma_digits_are_plain(s: Seq<u8>)
    requires
        all_digits(s),
    ensures
        forall|k: int| 0 <= k < s.len() ==> s[k] != 46,
        forall|k: int| 0 <= k < s.len() ==> s[k] != 32,
        forall|k: int| 0 <= k < s.len() ==> s[k] != 10,
        forall|k: int| 0 <= k < s.len() ==> s[k] != 45,
{
    assert forall|k: int| 0 <= k < s.len() implies s[k] != 46 && s[k] != 32 && s[k] != 10 && s[k]
        != 45 by {
        assert(is_digit(s[k]));
    }
}

//---------------------------------------------------------------------------
// Round trips.
//---------------------------------------------------------------------------

/// Printing a fixed-point scalar and parsing it back gives the scalar.
pub proof fn lemma_parse_fmt_fx(x: int)
    requires
        i64::MIN <= x <= i64::MAX,
    ensures
        parse_fx(fmt_fx(x)) == Some(x),
{
    let m = if x < 0 {
        -x
    } else {
        x
    };
    let q = (m / 1000) as nat;
    let f = m % 1000;
    let body = dec_digits(q) + seq![46u8] + pad3(f);
    lemma_digits_of_dec(q);
    lemma_pad3(f);
    lemma_digits_are_plain(dec_digits(q));
    let p = dec_digits(q).len() as int;
    assert(body[p] == 46);
    assert(forall|k: int| 0 <= k < p ==> body[k] == dec_digits(q)[k]);
    lemma_dot_at(body, p);
    assert(body.subrange(0, p) =~= dec_digits(q));
    assert(body.skip(p + 1) =~= pad3(f));
    assert(dec_digits(q).len() <= 19) by {
        lemma_pow10_19();
        lemma_dec_digits_len(q, 19);
    }
    vstd::arithmetic::div_mod::lemma_fundamental_div_mod(m, 1000);
    assert(parse_mag(body) == Some(m));
    if x < 0 {
        assert(fmt_fx(x) =~= seq![45u8] + body);
        assert((seq![45u8] + body).skip(1) =~= body);
    } else {
        assert(fmt_fx(x) =~= body);
        assert(body.len() > 0 && body[0] != 45);
    }
}

/// Printing an integer and parsing it back gives the integer.
pub proof fn lemma_parse_fmt_int(x: int)
    requires
        i64::MIN <= x <= i64::MAX,
    ensures
        parse_int(fmt_int(x)) == Some(x),
{
    let m = (if x < 0 {
        -x
    } else {
        x
    }) as nat;
    lemma_digits_of_dec(m);
    lemma_digits_are_plain(dec_digits(m));
    assert(dec_digits(m).len() <= 19) by {
        lemma_pow10_19();
        lemma_dec_digits_len(m, 19);
    }
    if x < 0 {
        assert(fmt_int(x) =~= seq![45u8] + dec_digits(m));
        assert((seq![45u8] + dec_digits(m)).skip(1) =~= dec_digits(m));
    } else {
        assert(fmt_int(x) =~= dec_digits(m));
        assert(dec_digits(m).len() > 0 && dec_digits(m)[0] != 45);
    }
}

/// Number text never holds a separator byte.
pub proof fn lemma_fmt_fx_plain(x: int)
    ensures
        forall|k: int| 0 <= k < fmt_fx(x).len() ==> fmt_fx(x)[k] != 32,
        forall|k: int| 0 <= k < fmt_fx(x).len() ==> fmt_fx(x)[k] != 10,
{
    let m = if x < 0 {
        -x
    } else {
        x
    };
    let q = (m / 1000) as nat;
    lemma_digits_of_dec(q);
    lemma_digits_are_plain(dec_digits(q));
    if 0 <= m % 1000 < 1000 {
        lemma_pad3(m % 1000);
        lemma_digits_are_plain(pad3(m % 1000));
    }
    assert forall|k: int| 0 <= k < fmt_fx(x).len() implies fmt_fx(x)[k] != 32 && fmt_fx(x)[k]
        != 10 by {
        let s = fmt_fx(x);
        let sign_len: int = if x < 0 {
            1
        } else {
            0
        };
        let dl = dec_digits(q).len() as int;
        if k < sign_len {
            assert(s[k] == 45);
        } else if k < sign_len + dl {
            assert(s[k] == dec_digits(q)[k - sign_len]);
        } else if k == sign_len + dl {
            assert(s[k] == 46);
        } else {
            assert(s[k] == pad3(m % 1000)[k - sign_len - dl - 1]);
        }
    }
}

/// Integer text never holds a separator byte.
pub proof fn lemma_fmt_int_plain(x: int)
    ensures
        forall|k: int| 0 <= k < fmt_int(x).len() ==> fmt_int(x)[k] != 32,
        forall|k: int| 0 <= k < fmt_int(x).len() ==> fmt_int(x)[k] != 10,
{
    let m = (if x < 0 {
        -x
    } else {
        x
    }) as nat;
    lemma_digits_of_dec(m);
    lemma_digits_are_plain(dec_digits(m));
    assert forall|k: int| 0 <= k < fmt_int(x).len() implies fmt_int(x)[k] != 32 && fmt_int(x)[k]
        != 10 by {
        let s = fmt_int(x);
        let sign_len: int = if x < 0 {
            1
        } else {
            0
        };
        if k < sign_len {
            assert(s[k] == 45);
        } else {
            assert(s[k] == dec_digits(m)[k - sign_len]);
        }
    }
}

//---------------------------------------------------------------------------
// Executable printing.
//---------------------------------------------------------------------------

fn push_digits(out: &mut Vec<u8>, n: u64)
    ensures
        final(out)@ == old(out)@ + dec_digits(n as nat),
    decreases n,
{
    if n < 10 {
        out.push(48 + n as u8);
        proof {
            assert(final(out)@ =~= old(out)@ + dec_digits(n as nat));
        }
    } else {
        proof {
            vstd::arithmetic::div_mod::lemma_div_decreases(n as int, 10);
        }
        push_digits(out, n / 10);
        out.push(48 + (n % 10) as u8);
        proof {
            assert(final(out)@ =~= old(out)@ + dec_digits(n as nat));
        }
    }
}

fn abs_u64(x: i64) -> (m: u64)
    ensures
        m as int == if x < 0 {
            -(x as int)
        } else {
            x as int
        },
{
    if x < 0 {
        (-(x as i128)) as u64
    } else {
        x as u64
    }
}

/// Canonical text of a fixed-point scalar.
pub fn fmt_fx_e(x: i64) -> (out: Vec<u8>)
    ensures
        out@ == fmt_fx(x as int),
{
    let mut out: Vec<u8> = Vec::new();
    if x < 0 {
        out.push(45);
    }
    let m = abs_u64(x);
    let q = m / 1000;
    let f = m % 1000;
    push_digits(&mut out, q);
    out.push(46);
    out.push(48 + (f / 100) as u8);
    out.push(48 + ((f / 10) % 10) as u8);
    out.push(48 + (f % 10) as u8);
    proof {
        vstd::arithmetic::div_mod::lemma_multiply_divide_lt(f as int, 100, 10);
        vstd::arithmetic::div_mod::lemma_div_pos_is_pos(f as int, 100);
        assert(out@ =~= fmt_fx(x as int));
    }
    out
}

/// Canonical text of a plain integer.
pub fn fmt_int_e(x: i64) -> (out: Vec<u8>)
    ensures
        out@ == fmt_int(x as int),
{
    let mut out: Vec<u8> = Vec::new();
    if x < 0 {
        out.push(45);
    }
    let m = abs_u64(x);
    push_digits(&mut out, m);
    proof {
        assert(out@ =~= fmt_int(x as int));
    }
    out
}

//---------------------------------------------------------------------------
// Executable parsing.
//---------------------------------------------------------------------------

/// Scan a digit segment and accumulate its value.
fn scan_digits(s: &Vec<u8>, from: usize, to: usize) -> (r: Option<i128>)
    requires
        from <= to && to <= s.len(),
        to - from <= 19,
    ensures
        match r {
            Some(v) => all_digits(s@.subrange(from as int, to as int)) && v as int == digits_val(
                s@.subrange(from as int, to as int),
            ) && 0 <= v < 10_000_000_000_000_000_000,
            None => !all_digits(s@.subrange(from as int, to as int)),
        },
{
    let mut acc: i128 = 0;
    let mut k = from;
    proof {
        lemma_pow10_19();
    }
    while k < to
        invariant
            from <= k <= to,
            to <= s.len(),
            to - from <= 19,
            all_digits(s@.subrange(from as int, k as int)),
            acc as int == digits_val(s@.subrange(from as int, k as int)),
            0 <= acc < 10_000_000_000_000_000_000,
            pow10(19) == 10_000_000_000_000_000_000,
        decreases to - k,
    {
        let c = s[k];
        if c < 48 || c > 57 {
            proof {
                assert(s@.subrange(from as int, to as int)[k - from] == c);
            }
            return None;
        }
        proof {
            let seg = s@.subrange(from as int, k + 1);
            assert(seg.drop_last() =~= s@.subrange(from as int, k as int));
            assert(seg.last() == s@[k as int]);
            lemma_digits_val_bounds(seg);
            assert(seg.len() <= 19);
            assert(pow10(seg.len()) <= pow10(19)) by {
                lemma_pow10_le(seg.len(), 19);
            }
        }
        acc = acc * 10 + ((c - 48) as i128);
        k += 1;
    }
    Some(acc)
}

/// Smaller exponents give smaller powers.
proof fn lemma_pow10_le(a: nat, b: nat)
    requires
        a <= b,
    ensures
        pow10(a) <= pow10(b),
    decreases b,
{
    if a < b {
        lemma_pow10_le(a, (b - 1) as nat);
        lemma_pow10_pos((b - 1) as nat);
        assert(pow10(b) == 10 * pow10((b - 1) as nat));
    }
}

/// Find the first decimal point at or after `start`.
fn find_dot(s: &Vec<u8>, start: usize) -> (d: usize)
    requires
        start <= s.len(),
    ensures
        start <= d <= s.len(),
        d < s.len() ==> s@[d as int] == 46,
        forall|j: int| start <= j < d ==> s@[j] != 46,
    {
    let mut k = start;
    while k < s.len()
        invariant
            start <= k <= s.len(),
            forall|j: int| start <= j < k ==> s@[j] != 46,
        decreases s.len() - k,
    {
        if s[k] == 46 {
            return k;
        }
        k += 1;
    }
    k
}

/// Parse a fixed-point scalar; mirrors `parse_fx` exactly.
pub fn parse_fx_e(s: &Vec<u8>) -> (r: Option<i64>)
    ensures
        match r {
            Some(v) => parse_fx(s@) == Some(v as int),
            None => parse_fx(s@) is None,
        },
{
    let n = s.len();
    let neg = n > 0 && s[0] == 45;
    let start: usize = if neg {
        1
    } else {
        0
    };
    let ghost body = if neg {
        s@.skip(1)
    } else {
        s@
    };
    let d = find_dot(s, start);
    proof {
        assert(forall|j: int| 0 <= j < d - start ==> body[j] != 46);
        assert(d < n ==> body[d - start] == 46);
        lemma_dot_at(body, d - start);
    }
    let mag: i128;
    if d == n {
        // no point: whole digits only
        if n - start < 1 || n - start > 19 {
            return None;
        }
        let ip = match scan_digits(s, start, n) {
            Some(v) => v,
            None => {
                proof {
                    assert(body =~= s@.subrange(start as int, n as int));
                }
                return None;
            },
        };
        proof {
            assert(body =~= s@.subrange(start as int, n as int));
        }
        mag = ip * 1000;
    } else {
        // whole digits, the point, then one to three fraction digits
        if d - start < 1 || d - start > 19 {
            return None;
        }
        if n - d - 1 < 1 || n - d - 1 > 3 {
            return None;
        }
        let ip = match scan_digits(s, start, d) {
            Some(v) => v,
            None => {
                proof {
                    assert(body.subrange(0, d - start) =~= s@.subrange(start as int, d as int));
                }
                return None;
            },
        };
        let fp = match scan_digits(s, d + 1, n) {
            Some(v) => v,
            None => {
                proof {
                    assert(body.skip(d - start + 1) =~= s@.subrange(d + 1, n as int));
                }
                return None;
            },
        };
        let scale: i128 = if n - d - 1 == 1 {
            100
        } else if n - d - 1 == 2 {
            10
        } else {
            1
        };
        proof {
            assert(body.subrange(0, d - start) =~= s@.subrange(start as int, d as int));
            assert(body.skip(d - start + 1) =~= s@.subrange(d + 1, n as int));
            assert(scale as int == pow10((3 - body.skip(d - start + 1).len()) as nat)) by {
                reveal_with_fuel(pow10, 4);
            }
        }
        proof {
            let fpi = fp as int;
            let sci = scale as int;
            assert(0 <= fpi * sci && fpi * sci <= 1_000_000_000_000_000_000_000int)
                by (nonlinear_arith)
                requires
                    0 <= fpi && fpi < 10_000_000_000_000_000_000int,
                    1 <= sci && sci <= 100,
            ;
        }
        mag = ip * 1000 + fp * scale;
    }
    if neg {
        if mag > 0x8000_0000_0000_0000i128 {
            return None;
        }
        Some((-mag) as i64)
    } else {
        if mag > 0x7FFF_FFFF_FFFF_FFFFi128 {
            return None;
        }
        Some(mag as i64)
    }
}

/// Parse a plain integer; mirrors `parse_int` exactly.
pub fn parse_int_e(s: &Vec<u8>) -> (r: Option<i64>)
    ensures
        match r {
            Some(v) => parse_int(s@) == Some(v as int),
            None => parse_int(s@) is None,
        },
{
    let n = s.len();
    let neg = n > 0 && s[0] == 45;
    let start: usize = if neg {
        1
    } else {
        0
    };
    let ghost body = if neg {
        s@.skip(1)
    } else {
        s@
    };
    if n - start < 1 || n - start > 19 {
        return None;
    }
    let mag = match scan_digits(s, start, n) {
        Some(v) => v,
        None => {
            proof {
                assert(body =~= s@.subrange(start as int, n as int));
            }
            return None;
        },
    };
    proof {
        assert(body =~= s@.subrange(start as int, n as int));
    }
    if neg {
        if mag > 0x8000_0000_0000_0000i128 {
            return None;
        }
        Some((-mag) as i64)
    } else {
        if mag > 0x7FFF_FFFF_FFFF_FFFFi128 {
            return None;
        }
        Some(mag as i64)
    }
}

} // verus!
