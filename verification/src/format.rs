//! Unit formatter: scales a raw magnitude (bytes, hertz) into a
//! human-readable string with a fixed two-decimal mantissa, and normalizes a
//! group of related magnitudes to one shared unit.

use crate::preferences::{ByteBase, Preferences};
use vstd::arithmetic::div_mod::{lemma_div_denominator, lemma_fundamental_div_mod};
use vstd::arithmetic::mul::lemma_mul_inequality;
use vstd::prelude::*;
use vstd::string::StringExecFns;

verus! {

/// The decimal digit character for `d`.
pub open spec fn spec_digit_char(d: int) -> char {
    if d == 0 {
        '0'
    } else if d == 1 {
        '1'
    } else if d == 2 {
        '2'
    } else if d == 3 {
        '3'
    } else if d == 4 {
        '4'
    } else if d == 5 {
        '5'
    } else if d == 6 {
        '6'
    } else if d == 7 {
        '7'
    } else if d == 8 {
        '8'
    } else {
        '9'
    }
}

/// The decimal digit string of `n`, most significant digit first.
pub open spec fn spec_dec_str(n: nat) -> Seq<char>
    decreases n,
{
    if n < 10 {
        seq![spec_digit_char(n as int)]
    } else {
        spec_dec_str(n / 10).push(spec_digit_char((n % 10) as int))
    }
}

/// `h` hundredths rendered with two decimal places: `h == 1234` is `"12.34"`.
pub open spec fn spec_fixed2(h: nat) -> Seq<char> {
    spec_dec_str(h / 100) + "."@ + seq![
        spec_digit_char(((h % 100) / 10) as int),
        spec_digit_char((h % 10) as int),
    ]
}

/// The scale factor of one unit step for `base`.
pub open spec fn spec_factor(base: ByteBase) -> nat {
    match base {
        ByteBase::Decimal => 1000,
        ByteBase::Binary => 1024,
    }
}

/// `f` to the power `i`.
pub open spec fn spec_pow(f: nat, i: nat) -> nat
    decreases i,
{
    if i == 0 {
        1
    } else {
        f * spec_pow(f, (i - 1) as nat)
    }
}

/// The unit index a magnitude `m` selects on its own: the number of times `m`
/// can be divided by `f` while staying at or above `f`, capped at `max` so
/// the last table entry is never overrun.
pub open spec fn spec_unit_index(f: nat, m: nat, max: nat) -> nat
    decreases max,
{
    if max == 0 || m < f {
        0
    } else {
        1 + spec_unit_index(f, m / f, (max - 1) as nat)
    }
}

/// `m` scaled down by `p` in hundredths, rounded half up.
pub open spec fn spec_scaled_hundredths(m: nat, p: nat) -> nat {
    (200 * m + p) / (2 * p)
}

/// The byte unit symbol at index `i` of the table for `base`.
pub open spec fn spec_unit_symbol(base: ByteBase, i: int) -> Seq<char> {
    match base {
        ByteBase::Decimal => if i == 0 {
            "B"@
        } else if i == 1 {
            "KB"@
        } else if i == 2 {
            "MB"@
        } else if i == 3 {
            "GB"@
        } else if i == 4 {
            "TB"@
        } else if i == 5 {
            "PB"@
        } else if i == 6 {
            "EB"@
        } else if i == 7 {
            "ZB"@
        } else {
            "YB"@
        },
        ByteBase::Binary => if i == 0 {
            "B"@
        } else if i == 1 {
            "KiB"@
        } else if i == 2 {
            "MiB"@
        } else if i == 3 {
            "GiB"@
        } else if i == 4 {
            "TiB"@
        } else if i == 5 {
            "PiB"@
        } else if i == 6 {
            "EiB"@
        } else if i == 7 {
            "ZiB"@
        } else {
            "YiB"@
        },
    }
}

/// The frequency unit symbol at index `i`.
pub open spec fn spec_hz_symbol(i: int) -> Seq<char> {
    if i == 0 {
        "MHz"@
    } else if i == 1 {
        "GHz"@
    } else {
        "THz"@
    }
}

/// The two-decimal rendering of `m` at unit index `i` of a table with
/// factor `f`, without the unit symbol.
pub open spec fn spec_format_scaled(f: nat, m: nat, i: nat) -> Seq<char> {
    spec_fixed2(spec_scaled_hundredths(m, spec_pow(f, i)))
}

/// What `format_bytes` returns for magnitude `m` under `base`.
pub open spec fn spec_format_bytes(base: ByteBase, m: nat) -> Seq<char> {
    let f = spec_factor(base);
    let i = spec_unit_index(f, m, 8);
    spec_format_scaled(f, m, i) + " "@ + spec_unit_symbol(base, i as int)
}

/// What `format_hz` returns for a magnitude `m` in megahertz.
pub open spec fn spec_format_hz(m: nat) -> Seq<char> {
    let i = spec_unit_index(1000, m, 2);
    spec_format_scaled(1000, m, i) + " "@ + spec_hz_symbol(i as int)
}

/// The unit index shared by a group: the largest index any member selects
/// alone, so that the member of the highest magnitude reads naturally and
/// every other member is rendered in the same unit.
pub open spec fn spec_grouped_index(f: nat, s: Seq<u64>, max: nat) -> nat
    decreases s.len(),
{
    if s.len() <= 1 {
        spec_unit_index(f, s[0] as nat, max)
    } else {
        let rest = spec_grouped_index(f, s.drop_last(), max);
        let last = spec_unit_index(f, s.last() as nat, max);
        if last > rest {
            last
        } else {
            rest
        }
    }
}

/// A percent value in hundredths rendered with one decimal place, rounded
/// half up, followed by a percent sign: `1234` is `"12.3%"`.
pub open spec fn spec_percent_str(h: nat) -> Seq<char> {
    let t = (h + 5) / 10;
    spec_dec_str(t / 10) + "."@ + seq![spec_digit_char((t % 10) as int)] + "%"@
}

fn digit_str(d: u64) -> (r: &'static str)
    requires
        d < 10,
    ensures
        r@ == seq![spec_digit_char(d as int)],
{
    let r = match d {
        0 => "0",
        1 => "1",
        2 => "2",
        3 => "3",
        4 => "4",
        5 => "5",
        6 => "6",
        7 => "7",
        8 => "8",
        _ => "9",
    };
    proof {
        reveal_strlit("0");
        reveal_strlit("1");
        reveal_strlit("2");
        reveal_strlit("3");
        reveal_strlit("4");
        reveal_strlit("5");
        reveal_strlit("6");
        reveal_strlit("7");
        reveal_strlit("8");
        reveal_strlit("9");
        assert(r@ =~= seq![spec_digit_char(d as int)]);
    }
    r
}

/// The decimal digit string of `n`.
pub fn dec_string(n: u128) -> (r: String)
    ensures
        r@ == spec_dec_str(n as nat),
    decreases n,
{
    if n < 10 {
        let r = digit_str(n as u64).to_owned();
        proof {
            assert(r@ =~= spec_dec_str(n as nat));
        }
        r
    } else {
        let mut r = dec_string(n / 10);
        let d = (n % 10) as u64;
        r.append(digit_str(d));
        proof {
            assert(r@ =~= spec_dec_str(n as nat));
        }
        r
    }
}

/// `h` hundredths rendered with two decimal places.
fn fixed2_string(h: u128) -> (r: String)
    ensures
        r@ == spec_fixed2(h as nat),
{
    let mut r = dec_string(h / 100);
    r.append(".");
    r.append(digit_str(((h % 100) / 10) as u64));
    r.append(digit_str((h % 10) as u64));
    proof {
        assert(r@ =~= spec_fixed2(h as nat));
    }
    r
}

/// Finds the unit index `m` selects alone, together with the scale divisor
/// `factor ^ index`.
fn scale_index(factor: u64, m: u64, max: usize) -> (res: (usize, u64))
    requires
        2 <= factor,
    ensures
        res.0 == spec_unit_index(factor as nat, m as nat, max as nat),
        res.1 == spec_pow(factor as nat, res.0 as nat),
        res.1 >= 1,
        res.0 <= max,
{
    let mut i: usize = 0;
    let mut b: u64 = m;
    let mut p: u64 = 1;
    while b >= factor && i < max
        invariant
            2 <= factor,
            i <= max,
            1 <= p,
            p == spec_pow(factor as nat, i as nat),
            b == m as int / p as int,
            spec_unit_index(factor as nat, m as nat, max as nat) == i + spec_unit_index(
                factor as nat,
                b as nat,
                (max - i) as nat,
            ),
        decreases max - i,
    {
        proof {
            lemma_fundamental_div_mod(m as int, p as int);
            lemma_mul_inequality(factor as int, b as int, p as int);
            assert(factor * p <= b * p);
            assert(p * factor <= m);
            lemma_div_denominator(m as int, p as int, factor as int);
            assert(spec_unit_index(factor as nat, b as nat, (max - i) as nat) == 1
                + spec_unit_index(factor as nat, (b / factor) as nat, (max - i - 1) as nat));
            assert(spec_pow(factor as nat, (i + 1) as nat) == factor * spec_pow(
                factor as nat,
                i as nat,
            ));
        }
        p = p * factor;
        b = b / factor;
        i = i + 1;
    }
    proof {
        assert(spec_unit_index(factor as nat, b as nat, (max - i) as nat) == 0);
    }
    (i, p)
}

/// `m` scaled down by `p`, in hundredths, rounded half up.
fn scaled_hundredths(m: u64, p: u64) -> (h: u128)
    requires
        1 <= p,
    ensures
        h == spec_scaled_hundredths(m as nat, p as nat),
{
    (m as u128 * 200 + p as u128) / (2 * p as u128)
}

/// The byte unit symbol at index `i` of the table for `base`.
pub fn byte_unit(base: ByteBase, i: usize) -> (r: &'static str)
    requires
        i <= 8,
    ensures
        r@ == spec_unit_symbol(base, i as int),
{
    match base {
        ByteBase::Decimal => {
            if i == 0 {
                "B"
            } else if i == 1 {
                "KB"
            } else if i == 2 {
                "MB"
            } else if i == 3 {
                "GB"
            } else if i == 4 {
                "TB"
            } else if i == 5 {
                "PB"
            } else if i == 6 {
                "EB"
            } else if i == 7 {
                "ZB"
            } else {
                "YB"
            }
        },
        ByteBase::Binary => {
            if i == 0 {
                "B"
            } else if i == 1 {
                "KiB"
            } else if i == 2 {
                "MiB"
            } else if i == 3 {
                "GiB"
            } else if i == 4 {
                "TiB"
            } else if i == 5 {
                "PiB"
            } else if i == 6 {
                "EiB"
            } else if i == 7 {
                "ZiB"
            } else {
                "YiB"
            }
        },
    }
}

/// Scales a byte magnitude into a human-readable string, two decimals and a
/// unit symbol, stepping by 1000 or 1024 according to the preferences.
pub fn format_bytes(preferences: &Preferences, bytes: u64) -> (r: String)
    ensures
        r@ == spec_format_bytes(preferences.byte_base, bytes as nat),
{
    let factor: u64 = match preferences.byte_base {
        ByteBase::Decimal => 1000,
        ByteBase::Binary => 1024,
    };
    let (i, p) = scale_index(factor, bytes, 8);
    let h = scaled_hundredths(bytes, p);
    let mut r = fixed2_string(h);
    r.append(" ");
    r.append(byte_unit(preferences.byte_base, i));
    proof {
        assert(r@ =~= spec_format_bytes(preferences.byte_base, bytes as nat));
    }
    r
}

/// Scales a frequency in megahertz into a human-readable string.
pub fn format_hz(preferences: &Preferences, hz: u64) -> (r: String)
    ensures
        r@ == spec_format_hz(hz as nat),
{
    let _ = preferences;
    let (i, p) = scale_index(1000, hz, 2);
    let h = scaled_hundredths(hz, p);
    let mut r = fixed2_string(h);
    r.append(" ");
    let unit = if i == 0 {
        "MHz"
    } else if i == 1 {
        "GHz"
    } else {
        "THz"
    };
    r.append(unit);
    proof {
        assert(r@ =~= spec_format_hz(hz as nat));
    }
    r
}

/// Renders every magnitude of a group in one shared unit: the unit of the
/// member that scales highest alone, so related values such as used and
/// total space read comparably. Returns the rendered strings and the shared
/// unit symbol; an empty group yields the placeholder symbol `"none"`.
pub fn round_bytes_list(preferences: &Preferences, bytes_vec: Vec<u64>) -> (r: (Vec<String>, String))
    ensures
        r.0@.len() == bytes_vec@.len(),
        bytes_vec@.len() == 0 ==> r.1@ == "none"@,
        bytes_vec@.len() > 0 ==> {
            let f = spec_factor(preferences.byte_base);
            let gi = spec_grouped_index(f, bytes_vec@, 8);
            &&& r.1@ == spec_unit_symbol(preferences.byte_base, gi as int)
            &&& forall|k: int|
                0 <= k < bytes_vec@.len() ==> r.0@[k]@ == spec_format_scaled(
                    f,
                    bytes_vec@[k] as nat,
                    gi,
                ) + " "@ + spec_unit_symbol(preferences.byte_base, gi as int)
        },
{
    let ghost f = spec_factor(preferences.byte_base);
    if bytes_vec.len() == 0 {
        return (Vec::new(), "none".to_owned());
    }
    let factor: u64 = match preferences.byte_base {
        ByteBase::Decimal => 1000,
        ByteBase::Binary => 1024,
    };
    let (mut gi, mut gp) = scale_index(factor, bytes_vec[0], 8);
    let mut j: usize = 1;
    while j < bytes_vec.len()
        invariant
            2 <= factor,
            factor == f,
            1 <= j <= bytes_vec@.len(),
            1 <= gp,
            gi <= 8,
            gi == spec_grouped_index(f, bytes_vec@.take(j as int), 8),
            gp == spec_pow(f, gi as nat),
        decreases bytes_vec@.len() - j,
    {
        let (ij, pj) = scale_index(factor, bytes_vec[j], 8);
        if ij > gi {
            gi = ij;
            gp = pj;
        }
        proof {
            assert(bytes_vec@.take(j + 1).drop_last() =~= bytes_vec@.take(j as int));
            assert(bytes_vec@.take(j + 1).last() == bytes_vec@[j as int]);
        }
        j = j + 1;
    }
    proof {
        assert(bytes_vec@.take(bytes_vec@.len() as int) =~= bytes_vec@);
    }
    let unit = byte_unit(preferences.byte_base, gi);
    let mut out: Vec<String> = Vec::new();
    let mut k: usize = 0;
    while k < bytes_vec.len()
        invariant
            1 <= gp,
            gi <= 8,
            gp == spec_pow(f, gi as nat),
            unit@ == spec_unit_symbol(preferences.byte_base, gi as int),
            k <= bytes_vec@.len(),
            out@.len() == k,
            forall|q: int|
                0 <= q < k ==> out@[q]@ == spec_format_scaled(f, bytes_vec@[q] as nat, gi as nat)
                    + " "@ + spec_unit_symbol(preferences.byte_base, gi as int),
        decreases bytes_vec@.len() - k,
    {
        let h = scaled_hundredths(bytes_vec[k], gp);
        let mut s = fixed2_string(h);
        s.append(" ");
        s.append(unit);
        out.push(s);
        k = k + 1;
    }
    (out, unit.to_owned())
}

/// A percent value in hundredths rendered with one decimal place and a
/// percent sign.
pub fn format_percent(value_hundredths: u64) -> (r: String)
    ensures
        r@ == spec_percent_str(value_hundredths as nat),
{
    let t = (value_hundredths as u128 + 5) / 10;
    let mut r = dec_string(t / 10);
    r.append(".");
    r.append(digit_str((t % 10) as u64));
    r.append("%");
    proof {
        assert(r@ =~= spec_percent_str(value_hundredths as nat));
    }
    r
}

} // verus!
