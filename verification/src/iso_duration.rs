use vstd::prelude::*;

verus! {

use vstd::arithmetic::div_mod::{
    lemma_fundamental_div_mod,
    lemma_mod_division_less_than_divisor,
};
use vstd::arithmetic::mul::{lemma_mul_inequality, lemma_mul_increases};

/// The string did not match the `PT#H#M#S` duration subset, or the encoded
/// duration does not fit in a `u64` count of seconds.
#[derive(Clone, Copy, Debug, PartialEq, Eq)]
pub struct DurationFormatError;

// ===== The duration grammar, as specification =====

pub open spec fn is_digit(c: char) -> bool {
    48 <= c as int && c as int <= 57
}

pub open spec fn digit_val(c: char) -> nat {
    (c as int - 48) as nat
}

/// Value of a digit string, most significant digit first.
pub open spec fn digits_val(s: Seq<char>) -> nat
    decreases s.len(),
{
    if s.len() == 0 {
        0
    } else {
        digits_val(s.drop_last()) * 10 + digit_val(s.last())
    }
}

/// Number of leading digit characters.
pub open spec fn leading_digit_count(s: Seq<char>) -> nat
    decreases s.len(),
{
    if s.len() == 0 || !is_digit(s[0]) {
        0
    } else {
        1 + leading_digit_count(s.subrange(1, s.len() as int))
    }
}

/// Rank of a unit letter: hours above minutes above seconds. Zero for
/// anything that is not a unit letter.
pub open spec fn unit_rank(c: char) -> int {
    if c == 'H' {
        3
    } else if c == 'M' {
        2
    } else if c == 'S' {
        1
    } else {
        0
    }
}

/// Seconds per unit of the given rank.
pub open spec fn unit_secs(u: int) -> nat {
    if u == 3 {
        3600
    } else if u == 2 {
        60
    } else {
        1
    }
}

/// Parses the component list after `PT`: components in the order hours,
/// minutes, seconds, each a nonempty digit run followed by its unit letter,
/// each optional. `max_unit` is the highest rank still allowed.
pub open spec fn parse_comps(s: Seq<char>, max_unit: int) -> Option<nat>
    decreases s.len(),
{
    if s.len() == 0 {
        Some(0)
    } else {
        let d = leading_digit_count(s) as int;
        if d == 0 || d >= s.len() {
            None
        } else {
            let u = unit_rank(s[d]);
            if u == 0 || u > max_unit {
                None
            } else {
                match parse_comps(s.subrange(d + 1, s.len() as int), u - 1) {
                    Some(rest) => Some(
                        (digits_val(s.subrange(0, d)) * unit_secs(u) + rest) as nat,
                    ),
                    None => None,
                }
            }
        }
    }
}

/// The whole grammar: `PT`, then the components. Yields the duration in
/// seconds, or nothing when the string is not in the subset.
pub open spec fn parse_duration_spec(s: Seq<char>) -> Option<nat> {
    if s.len() < 2 || s[0] != 'P' || s[1] != 'T' {
        None
    } else {
        parse_comps(s.subrange(2, s.len() as int), 3)
    }
}

// ===== Helper lemmas about digit runs =====

proof fn lemma_digits_val_append(s: Seq<char>, c: char)
    ensures
        digits_val(s.push(c)) == digits_val(s) * 10 + digit_val(c),
{
    assert(s.push(c).drop_last() =~= s);
    assert(s.push(c).last() == c);
}

/// `leading_digit_count` is exactly the boundary between the digit prefix and
/// the first non-digit (or the end).
proof fn lemma_leading_digit_count_is(s: Seq<char>, k: int)
    requires
        0 <= k <= s.len(),
        forall|i: int| 0 <= i < k ==> is_digit(#[trigger] s[i]),
        k == s.len() || !is_digit(s[k]),
    ensures
        leading_digit_count(s) == k,
    decreases s.len(),
{
    if k == 0 {
    } else {
        let t = s.subrange(1, s.len() as int);
        assert(forall|i: int| 0 <= i < k - 1 ==> is_digit(#[trigger] t[i]));
        lemma_leading_digit_count_is(t, k - 1);
    }
}

// ===== Deserialization =====

/// Parses the components of `s` from position `i` on, with `max_unit` the
/// highest unit rank still allowed.
fn parse_components(s: &str, i: usize, max_unit: u8) -> (r: Result<u64, DurationFormatError>)
    requires
        i <= s@.len(),
        max_unit <= 3,
    ensures
        (match r {
            Ok(v) => parse_comps(s@.subrange(i as int, s@.len() as int), max_unit as int)
                == Some(v as nat),
            Err(_) => parse_comps(s@.subrange(i as int, s@.len() as int), max_unit as int)
                    is None
                || parse_comps(s@.subrange(i as int, s@.len() as int), max_unit as int)->0
                    > u64::MAX,
        }),
    decreases s@.len() - i,
{
    let ghost whole = s@.subrange(i as int, s@.len() as int);
    let n = s.unicode_len();
    if i == n {
        assert(whole =~= Seq::<char>::empty());
        return Ok(0);
    }
    // Scan the digit run that must open a component.
    let mut j = i;
    let mut val: u64 = 0;
    let mut overflowed = false;
    loop
        invariant
            i <= j <= n,
            n == s@.len(),
            forall|k: int| i <= k < j ==> is_digit(#[trigger] s@[k]),
            !overflowed ==> val as nat == digits_val(s@.subrange(i as int, j as int)),
            overflowed ==> digits_val(s@.subrange(i as int, j as int)) > u64::MAX,
            overflowed ==> i < j,
        ensures
            i <= j <= n,
            n == s@.len(),
            forall|k: int| i <= k < j ==> is_digit(#[trigger] s@[k]),
            !overflowed ==> val as nat == digits_val(s@.subrange(i as int, j as int)),
            overflowed ==> digits_val(s@.subrange(i as int, j as int)) > u64::MAX,
            overflowed ==> i < j,
            j == n || !is_digit(s@[j as int]),
        decreases n - j,
    {
        if j == n {
            break;
        }
        let c = s.get_char(j);
        let cu = c as u32;
        if !(48 <= cu && cu <= 57) {
            break;
        }
        let d = (cu - 48) as u64;
        let ghost prefix = s@.subrange(i as int, j as int);
        proof {
            assert(s@.subrange(i as int, j as int + 1) =~= prefix.push(c));
            lemma_digits_val_append(prefix, c);
        }
        if !overflowed {
            if val > (u64::MAX - d) / 10 {
                proof {
                    // val * 10 + d overflows, so the run's value already
                    // exceeds what a u64 can hold.
                    let m = (u64::MAX - d) as int;
                    lemma_fundamental_div_mod(m, 10);
                    lemma_mod_division_less_than_divisor(m, 10);
                    assert(10 * (val as int) >= 10 * (m / 10 + 1));
                }
                overflowed = true;
            } else {
                proof {
                    let m = (u64::MAX - d) as int;
                    lemma_fundamental_div_mod(m, 10);
                    lemma_mod_division_less_than_divisor(m, 10);
                    assert(10 * (val as int) <= 10 * (m / 10));
                }
                val = val * 10 + d;
            }
        }
        j = j + 1;
    }
    let ghost dcount = (j - i) as nat;
    proof {
        lemma_leading_digit_count_is(whole, j - i);
        assert(whole.subrange(0, j - i) =~= s@.subrange(i as int, j as int));
    }
    if j == i {
        // A component must start with a digit; an empty remainder was handled
        // above, so here the grammar fails.
        return Err(DurationFormatError);
    }
    if j == n {
        // Digits at the very end, with no unit letter.
        return Err(DurationFormatError);
    }
    let uc = s.get_char(j);
    let u: u8 = if uc == 'H' {
        3
    } else if uc == 'M' {
        2
    } else if uc == 'S' {
        1
    } else {
        return Err(DurationFormatError);
    };
    if u > max_unit {
        return Err(DurationFormatError);
    }
    let mult: u64 = if u == 3 {
        3600
    } else if u == 2 {
        60
    } else {
        1
    };
    assert(mult as nat == unit_secs(u as int));
    let ghost rest_seq = s@.subrange(j as int + 1, s@.len() as int);
    proof {
        assert(whole.subrange(dcount as int + 1, whole.len() as int) =~= rest_seq);
        assert(whole[dcount as int] == uc);
    }
    let ghost dv = digits_val(whole.subrange(0, dcount as int));
    let rest = match parse_components(s, j + 1, u - 1) {
        Ok(v) => v,
        Err(e) => {
            return Err(e);
        },
    };
    if overflowed {
        proof {
            lemma_mul_increases(unit_secs(u as int) as int, dv as int);
        }
        return Err(DurationFormatError);
    }
    // comp = val * mult, guarding the multiplication.
    if mult > 1 && val > u64::MAX / mult {
        proof {
            lemma_fundamental_div_mod(u64::MAX as int, mult as int);
            lemma_mod_division_less_than_divisor(u64::MAX as int, mult as int);
            lemma_mul_inequality(
                u64::MAX as int / mult as int + 1,
                val as int,
                mult as int,
            );
        }
        return Err(DurationFormatError);
    }
    proof {
        if mult > 1 {
            lemma_fundamental_div_mod(u64::MAX as int, mult as int);
            lemma_mod_division_less_than_divisor(u64::MAX as int, mult as int);
            lemma_mul_inequality(val as int, u64::MAX as int / mult as int, mult as int);
        }
    }
    let comp = val * mult;
    if comp > u64::MAX - rest {
        return Err(DurationFormatError);
    }
    Ok(comp + rest)
}

/// Parses a duration in the `PT#H#M#S` subset into a count of seconds.
/// Succeeds exactly on the strings of the subset whose value fits in a `u64`.
pub fn deserialize(s: &str) -> (r: Result<u64, DurationFormatError>)
    ensures
        (match r {
            Ok(v) => parse_duration_spec(s@) == Some(v as nat),
            Err(_) => parse_duration_spec(s@) is None || parse_duration_spec(s@)->0 > u64::MAX,
        }),
{
    let n = s.unicode_len();
    if n < 2 {
        return Err(DurationFormatError);
    }
    if s.get_char(0) != 'P' || s.get_char(1) != 'T' {
        return Err(DurationFormatError);
    }
    parse_components(s, 2, 3)
}

// ===== Serialization =====

/// The character for a single decimal digit.
pub open spec fn digit_char(d: nat) -> char {
    if d == 0 {
        '0'
    } else if d == 1 {
        '1'
    } else if d == 2 {
        '2'
    } else if d == 3 {
        '3'
    } else if d == 4 {
        '4'
    } else if d == 5 {
        '5'
    } else if d == 6 {
        '6'
    } else if d == 7 {
        '7'
    } else if d == 8 {
        '8'
    } else {
        '9'
    }
}

/// Decimal rendering of a number, most significant digit first.
pub open spec fn spec_digits(n: nat) -> Seq<char>
    decreases n,
{
    if n < 10 {
        seq![digit_char(n)]
    } else {
        spec_digits(n / 10).push(digit_char(n % 10))
    }
}

/// The canonical rendering in the `PT#H#M#S` subset: components that are zero
/// are left out, and a zero duration is `PT0S`.
pub open spec fn spec_serialize(n: nat) -> Seq<char> {
    if n == 0 {
        seq!['P', 'T', '0', 'S']
    } else {
        let h = n / 3600;
        let m = (n % 3600) / 60;
        let s = n % 60;
        seq!['P', 'T'] + (if h > 0 {
            spec_digits(h).push('H')
        } else {
            Seq::<char>::empty()
        }) + (if m > 0 {
            spec_digits(m).push('M')
        } else {
            Seq::<char>::empty()
        }) + (if s > 0 {
            spec_digits(s).push('S')
        } else {
            Seq::<char>::empty()
        })
    }
}

/// The one-character string for a decimal digit.
fn digit_str(d: u64) -> (r: &'static str)
    requires
        d < 10,
    ensures
        r@ == seq![digit_char(d as nat)],
{
    let r: &'static str = if d == 0 {
        "0"
    } else if d == 1 {
        "1"
    } else if d == 2 {
        "2"
    } else if d == 3 {
        "3"
    } else if d == 4 {
        "4"
    } else if d == 5 {
        "5"
    } else if d == 6 {
        "6"
    } else if d == 7 {
        "7"
    } else if d == 8 {
        "8"
    } else {
        "9"
    };
    proof {
        reveal_strlit("0");
        reveal_strlit("1");
        reveal_strlit("2");
        reveal_strlit("3");
        reveal_strlit("4");
        reveal_strlit("5");
        reveal_strlit("6");
        reveal_strlit("7");
        reveal_strlit("8");
        reveal_strlit("9");
        assert(r@ =~= seq![digit_char(d as nat)]);
    }
    r
}

/// Decimal rendering of a number.
pub fn digits_string(n: u64) -> (r: String)
    ensures
        r@ == spec_digits(n as nat),
    decreases n,
{
    if n < 10 {
        String::from_str(digit_str(n))
    } else {
        let mut r = digits_string(n / 10);
        r.append(digit_str(n % 10));
        proof {
            assert(r@ =~= spec_digits(n as nat));
        }
        r
    }
}

/// Renders a count of seconds in the `PT#H#M#S` subset.
pub fn serialize(secs: u64) -> (r: String)
    ensures
        r@ == spec_serialize(secs as nat),
{
    if secs == 0 {
        let r = String::from_str("PT0S");
        proof {
            reveal_strlit("PT0S");
            assert(r@ =~= spec_serialize(0));
        }
        return r;
    }
    let h = secs / 3600;
    let rem = secs % 3600;
    let m = rem / 60;
    let s = secs % 60;
    let mut out = String::from_str("PT");
    proof {
        reveal_strlit("PT");
        reveal_strlit("H");
        reveal_strlit("M");
        reveal_strlit("S");
    }
    if h > 0 {
        let hs = digits_string(h);
        out.append(hs.as_str());
        out.append("H");
    }
    if m > 0 {
        let ms = digits_string(m);
        out.append(ms.as_str());
        out.append("M");
    }
    if s > 0 {
        let ss = digits_string(s);
        out.append(ss.as_str());
        out.append("S");
    }
    proof {
        assert(out@ =~= spec_serialize(secs as nat));
    }
    out
}

// ===== The round trip =====

proof fn lemma_spec_digits_all_digits(n: nat)
    ensures
        spec_digits(n).len() >= 1,
        forall|i: int| 0 <= i < spec_digits(n).len() ==> is_digit(#[trigger] spec_digits(n)[i]),
    decreases n,
{
    if n >= 10 {
        lemma_spec_digits_all_digits(n / 10);
    }
}

proof fn lemma_spec_digits_val(n: nat)
    ensures
        digits_val(spec_digits(n)) == n,
    decreases n,
{
    if n < 10 {
        assert(digits_val(Seq::<char>::empty()) == 0);
        assert(spec_digits(n).drop_last() =~= Seq::<char>::empty());
        assert(spec_digits(n).last() == digit_char(n));
        assert(digit_val(digit_char(n)) == n);
    } else {
        lemma_spec_digits_val(n / 10);
        lemma_digits_val_append(spec_digits(n / 10), digit_char(n % 10));
        vstd::arithmetic::div_mod::lemma_fundamental_div_mod(n as int, 10);
    }
}

/// Raising the allowed unit rank never changes a successful parse.
proof fn lemma_parse_comps_mono(s: Seq<char>, u1: int, u2: int)
    requires
        u1 <= u2,
        parse_comps(s, u1) is Some,
    ensures
        parse_comps(s, u2) == parse_comps(s, u1),
    decreases s.len(),
{
    if s.len() != 0 {
        let d = leading_digit_count(s) as int;
        let u = unit_rank(s[d]);
        lemma_parse_comps_mono(s.subrange(d + 1, s.len() as int), u - 1, u - 1);
    }
}

/// Parsing one component off the front of the component list.
proof fn lemma_parse_comps_step(ds: Seq<char>, uc: char, rest: Seq<char>, max_unit: int)
    requires
        ds.len() >= 1,
        forall|i: int| 0 <= i < ds.len() ==> is_digit(#[trigger] ds[i]),
        1 <= unit_rank(uc) <= max_unit,
    ensures
        parse_comps(ds + seq![uc] + rest, max_unit) == (match parse_comps(
            rest,
            unit_rank(uc) - 1,
        ) {
            Some(t) => Some((digits_val(ds) * unit_secs(unit_rank(uc)) + t) as nat),
            None => None::<nat>,
        }),
{
    let full = ds + seq![uc] + rest;
    let dl = ds.len() as int;
    assert(forall|i: int| 0 <= i < dl ==> is_digit(#[trigger] full[i]));
    assert(!is_digit(full[dl]));
    lemma_leading_digit_count_is(full, dl);
    assert(full.subrange(0, dl) =~= ds);
    assert(full.subrange(dl + 1, full.len() as int) =~= rest);
}

/// The canonical rendering of any duration parses back to the same number of
/// seconds.
#[verifier::rlimit(100)]
pub proof fn lemma_duration_round_trip(n: u64)
    ensures
        parse_duration_spec(spec_serialize(n as nat)) == Some(n as nat),
{
    let full = spec_serialize(n as nat);
    if n == 0 {
        let comps = seq!['0', 'S'];
        assert(full.subrange(2, full.len() as int) =~= comps);
        lemma_leading_digit_count_is(comps, 1);
        assert(comps.subrange(2, 2) =~= Seq::<char>::empty());
        assert(comps.subrange(0, 1) =~= seq!['0']);
        assert(digits_val(Seq::<char>::empty()) == 0);
        assert(seq!['0'].drop_last() =~= Seq::<char>::empty());
        assert(digits_val(seq!['0']) == 0);
        assert(parse_comps(comps, 3) == Some(0nat));
    } else {
        let nn = n as nat;
        let h = nn / 3600;
        let m = (nn % 3600) / 60;
        let s = nn % 60;
        vstd::arithmetic::div_mod::lemma_fundamental_div_mod(nn as int, 3600);
        vstd::arithmetic::div_mod::lemma_fundamental_div_mod((nn % 3600) as int, 60);
        vstd::arithmetic::div_mod::lemma_mod_division_less_than_divisor(nn as int, 3600);
        vstd::arithmetic::div_mod::lemma_mod_division_less_than_divisor(
            (nn % 3600) as int,
            60,
        );
        vstd::arithmetic::div_mod::lemma_mod_mod(nn as int, 60, 60);
        assert(nn == h * 3600 + m * 60 + s);
        let tail_s = if s > 0 {
            spec_digits(s).push('S')
        } else {
            Seq::<char>::empty()
        };
        let tail_m = if m > 0 {
            spec_digits(m).push('M')
        } else {
            Seq::<char>::empty()
        };
        let tail_h = if h > 0 {
            spec_digits(h).push('H')
        } else {
            Seq::<char>::empty()
        };
        assert(parse_comps(Seq::<char>::empty(), 0) == Some(0nat));
        assert(parse_comps(Seq::<char>::empty(), 1) == Some(0nat));
        // Seconds component.
        if s > 0 {
            lemma_spec_digits_all_digits(s);
            lemma_spec_digits_val(s);
            assert(unit_rank('S') == 1);
            lemma_parse_comps_step(spec_digits(s), 'S', Seq::<char>::empty(), 1);
            assert(parse_comps(spec_digits(s) + seq!['S'] + Seq::<char>::empty(), 1)
                == Some((digits_val(spec_digits(s)) * unit_secs(1) + 0) as nat));
            assert(digits_val(spec_digits(s)) * unit_secs(1) == s);
            assert(tail_s =~= spec_digits(s) + seq!['S'] + Seq::<char>::empty());
        }
        assert(parse_comps(tail_s, 1) == Some(s));
        // Minutes component.
        if m > 0 {
            lemma_spec_digits_all_digits(m);
            lemma_spec_digits_val(m);
            assert(tail_m + tail_s =~= spec_digits(m) + seq!['M'] + tail_s);
            lemma_parse_comps_step(spec_digits(m), 'M', tail_s, 2);
        } else {
            assert(tail_m + tail_s =~= tail_s);
            lemma_parse_comps_mono(tail_s, 1, 2);
        }
        assert(parse_comps(tail_m + tail_s, 2) == Some((m * 60 + s) as nat));
        // Hours component.
        if h > 0 {
            lemma_spec_digits_all_digits(h);
            lemma_spec_digits_val(h);
            assert(tail_h + (tail_m + tail_s) =~= spec_digits(h) + seq!['H'] + (tail_m
                + tail_s));
            lemma_parse_comps_step(spec_digits(h), 'H', tail_m + tail_s, 3);
        } else {
            assert(tail_h + (tail_m + tail_s) =~= tail_m + tail_s);
            lemma_parse_comps_mono(tail_m + tail_s, 2, 3);
        }
        assert(parse_comps(tail_h + (tail_m + tail_s), 3) == Some(
            (h * 3600 + (m * 60 + s)) as nat,
        ));
        assert(full =~= seq!['P', 'T'] + (tail_h + (tail_m + tail_s)));
        assert(full.subrange(2, full.len() as int) =~= tail_h + (tail_m + tail_s));
        assert(full[0] == 'P' && full[1] == 'T');
    }
}

} // verus!
