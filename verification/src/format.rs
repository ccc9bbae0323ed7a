//! Human-readable text for byte counts and uptimes.
//!
//! A byte count is written in the largest binary unit that does not exceed
//! it, up to terabytes, with two decimals. The count is taken as a
//! double-precision floating-point number holds it: as it is below 2^53, and
//! rounded to 53 significant bits, ties to even, from there on. The value of
//! that number in the unit is rounded to the nearest hundredth, ties to the
//! even hundredth. An uptime is written as days, hours, minutes and seconds,
//! without the leading units that are zero.

use vstd::prelude::*;
use vstd::string::*;
use crate::models::SystemInfo;
use crate::text::{decimal, push_decimal, push_two_digits, two_digits};

verus! {

/// `num / den` rounded to the nearest natural number, a tie going to the
/// even neighbour.
pub open spec fn spec_round_half_even(num: nat, den: nat) -> nat
    recommends
        den > 0,
{
    let q = num / den;
    let r = num % den;
    if 2 * r > den || (2 * r == den && q % 2 == 1) {
        q + 1
    } else {
        q
    }
}

/// `num / den` rounded to the nearest integer, ties to even.
pub fn round_half_even(num: u128, den: u128) -> (r: u128)
    requires
        den > 0,
    ensures
        r == spec_round_half_even(num as nat, den as nat),
{
    let q: u128 = num / den;
    let r: u128 = num % den;
    let rest: u128 = den - r;
    assert(num == q * den + r) by (nonlinear_arith)
        requires
            q == num / den,
            r == num % den,
            den > 0,
    ;
    if r > rest || (r == rest && q % 2 == 1) {
        assert(q < num) by (nonlinear_arith)
            requires
                num == q * den + r,
                2 * r >= den,
                den > 0,
                r < den,
        ;
        q + 1
    } else {
        q
    }
}

/// A number of hundredths written with two decimals: `1234` is `12.34`.
pub open spec fn fixed2(hundredths: nat) -> Seq<char> {
    decimal(hundredths / 100).push('.') + two_digits(hundredths % 100)
}

/// Appends `hundredths` written with two decimals.
pub fn push_fixed2(out: &mut String, hundredths: u128)
    ensures
        final(out)@ == old(out)@ + fixed2(hundredths as nat),
{
    push_decimal(out, hundredths / 100);
    proof {
        reveal_strlit(".");
    }
    out.append(".");
    push_two_digits(out, hundredths % 100);
    assert(out@ =~= old(out)@ + fixed2(hundredths as nat));
}

/// The index of the unit in which a byte count is written: 0 for bytes, up
/// to 4 for terabytes.
pub open spec fn unit_index(bytes: nat) -> nat {
    if bytes < 1024 {
        0
    } else if bytes < 1048576 {
        1
    } else if bytes < 1073741824 {
        2
    } else if bytes < 1099511627776 {
        3
    } else {
        4
    }
}

/// The number of bytes in one unit: 1024 to the power `index`.
pub open spec fn unit_size(index: nat) -> nat {
    if index == 0 {
        1
    } else if index == 1 {
        1024
    } else if index == 2 {
        1048576
    } else if index == 3 {
        1073741824
    } else {
        1099511627776
    }
}

/// The name of a unit.
pub open spec fn unit_name(index: nat) -> Seq<char> {
    if index == 0 {
        seq!['B']
    } else if index == 1 {
        seq!['K', 'B']
    } else if index == 2 {
        seq!['M', 'B']
    } else if index == 3 {
        seq!['G', 'B']
    } else {
        seq!['T', 'B']
    }
}

/// The distance between two neighbours among the numbers that double
/// precision holds, at a count below 2^64: one below 2^53, and twice as
/// much with every power of two from there on.
pub open spec fn binary64_spacing(bytes: nat) -> nat {
    if bytes < 0x20_0000_0000_0000 {
        1
    } else if bytes < 0x40_0000_0000_0000 {
        2
    } else if bytes < 0x80_0000_0000_0000 {
        4
    } else if bytes < 0x100_0000_0000_0000 {
        8
    } else if bytes < 0x200_0000_0000_0000 {
        16
    } else if bytes < 0x400_0000_0000_0000 {
        32
    } else if bytes < 0x800_0000_0000_0000 {
        64
    } else if bytes < 0x1000_0000_0000_0000 {
        128
    } else if bytes < 0x2000_0000_0000_0000 {
        256
    } else if bytes < 0x4000_0000_0000_0000 {
        512
    } else if bytes < 0x8000_0000_0000_0000 {
        1024
    } else {
        2048
    }
}

/// A count below 2^64 as double precision holds it: the count rounded to 53
/// significant bits, a tie going to the neighbour whose last bit is zero.
/// Below 2^53 this is the count itself.
pub open spec fn as_binary64(bytes: nat) -> nat {
    spec_round_half_even(bytes, binary64_spacing(bytes)) * binary64_spacing(bytes)
}

/// The number that is written for a byte count, in hundredths of its unit:
/// the count as double precision holds it, over the size of the unit,
/// rounded to the nearest hundredth, ties to even.
pub open spec fn bytes_hundredths(bytes: nat) -> nat {
    spec_round_half_even(as_binary64(bytes) * 100, unit_size(unit_index(bytes)))
}

/// The quantity that the text of a byte count stands for, in hundredths of a
/// byte: the number written, times the size of the unit.
pub open spec fn bytes_magnitude(bytes: nat) -> nat {
    bytes_hundredths(bytes) * unit_size(unit_index(bytes))
}

/// The text of a byte count: `1536` is `1.50 KB`.
pub open spec fn bytes_text(bytes: nat) -> Seq<char> {
    fixed2(bytes_hundredths(bytes)).push(' ') + unit_name(unit_index(bytes))
}

/// The shown fields of an uptime, each a number and the letter of its unit.
pub open spec fn uptime_all_fields(seconds: nat) -> Seq<(nat, char)> {
    seq![
        (seconds / 86400, 'd'),
        ((seconds % 86400) / 3600, 'h'),
        ((seconds % 3600) / 60, 'm'),
        (seconds % 60, 's'),
    ]
}

/// How many of the leading fields of an uptime are left out: those before
/// the first one that is not zero, the seconds never.
pub open spec fn uptime_omitted(seconds: nat) -> nat {
    if seconds >= 86400 {
        0
    } else if seconds >= 3600 {
        1
    } else if seconds >= 60 {
        2
    } else {
        3
    }
}

/// The fields of an uptime that are written.
pub open spec fn uptime_fields(seconds: nat) -> Seq<(nat, char)> {
    uptime_all_fields(seconds).skip(uptime_omitted(seconds) as int)
}

/// One field: the number, then the letter of the unit.
pub open spec fn field_text(field: (nat, char)) -> Seq<char> {
    decimal(field.0).push(field.1)
}

/// Fields joined by single spaces.
pub open spec fn fields_text(fields: Seq<(nat, char)>) -> Seq<char>
    decreases fields.len(),
{
    if fields.len() == 0 {
        Seq::empty()
    } else if fields.len() == 1 {
        field_text(fields[0])
    } else {
        fields_text(fields.drop_last()).push(' ') + field_text(fields.last())
    }
}

/// The text of an uptime: `90061` is `1d 1h 1m 1s`.
pub open spec fn uptime_text(seconds: nat) -> Seq<char> {
    fields_text(uptime_fields(seconds))
}

/// The name of a unit as a string.
fn unit_str(index: u8) -> (r: &'static str)
    ensures
        r@ == unit_name(index as nat),
{
    proof {
        reveal_strlit("B");
        reveal_strlit("KB");
        reveal_strlit("MB");
        reveal_strlit("GB");
        reveal_strlit("TB");
    }
    let r: &'static str = match index {
        0 => "B",
        1 => "KB",
        2 => "MB",
        3 => "GB",
        _ => "TB",
    };
    assert(r@ =~= unit_name(index as nat));
    r
}

/// Appends one field of an uptime.
fn push_field(out: &mut String, value: u64, unit: &'static str)
    requires
        unit@.len() == 1,
    ensures
        final(out)@ == old(out)@ + field_text((value as nat, unit@[0])),
{
    push_decimal(out, value as u128);
    out.append(unit);
    assert(out@ =~= old(out)@ + field_text((value as nat, unit@[0])));
}

/// A count as double precision holds it: rounded to 53 significant bits,
/// ties to even.
pub fn to_binary64(bytes: u64) -> (held: u128)
    ensures
        held == as_binary64(bytes as nat),
        held <= 0x1_0000_0000_0000_0000,
{
    let spacing: u128 = if bytes < 0x20_0000_0000_0000 {
        1
    } else if bytes < 0x40_0000_0000_0000 {
        2
    } else if bytes < 0x80_0000_0000_0000 {
        4
    } else if bytes < 0x100_0000_0000_0000 {
        8
    } else if bytes < 0x200_0000_0000_0000 {
        16
    } else if bytes < 0x400_0000_0000_0000 {
        32
    } else if bytes < 0x800_0000_0000_0000 {
        64
    } else if bytes < 0x1000_0000_0000_0000 {
        128
    } else if bytes < 0x2000_0000_0000_0000 {
        256
    } else if bytes < 0x4000_0000_0000_0000 {
        512
    } else if bytes < 0x8000_0000_0000_0000 {
        1024
    } else {
        2048
    };
    let count: u128 = round_half_even(bytes as u128, spacing);
    proof {
        let top: nat = 0x1_0000_0000_0000_0000nat;
        let most: nat = top / (spacing as nat);
        assert(most * spacing == top);
        lemma_round_half_even_keeps_side(bytes as nat, most, spacing as nat);
    }
    count * spacing
}

impl SystemInfo {
    /// Writes a byte count in the largest fitting binary unit, with two
    /// decimals.
    pub fn format_bytes(bytes: u64) -> (r: String)
        ensures
            r@ == bytes_text(bytes as nat),
    {
        let index: u8 = if bytes < 1024 {
            0
        } else if bytes < 1048576 {
            1
        } else if bytes < 1073741824 {
            2
        } else if bytes < 1099511627776 {
            3
        } else {
            4
        };
        let size: u128 = match index {
            0 => 1,
            1 => 1024,
            2 => 1048576,
            3 => 1073741824,
            _ => 1099511627776,
        };
        let held: u128 = to_binary64(bytes);
        let hundredths: u128 = round_half_even(held * 100, size);
        let mut out = String::new();
        push_fixed2(&mut out, hundredths);
        proof {
            reveal_strlit(" ");
        }
        out.append(" ");
        out.append(unit_str(index));
        assert(out@ =~= bytes_text(bytes as nat));
        out
    }

    /// Writes an uptime as days, hours, minutes and seconds, leaving out the
    /// leading units that are zero.
    pub fn format_uptime(seconds: u64) -> (r: String)
        ensures
            r@ == uptime_text(seconds as nat),
    {
        let days: u64 = seconds / 86400;
        let hours: u64 = (seconds % 86400) / 3600;
        let minutes: u64 = (seconds % 3600) / 60;
        let secs: u64 = seconds % 60;
        proof {
            reveal_strlit("d");
            reveal_strlit("h");
            reveal_strlit("m");
            reveal_strlit("s");
            reveal_strlit(" ");
        }
        let mut out = String::new();
        if days > 0 {
            push_field(&mut out, days, "d");
            out.append(" ");
        }
        if days > 0 || hours > 0 {
            push_field(&mut out, hours, "h");
            out.append(" ");
        }
        if days > 0 || hours > 0 || minutes > 0 {
            push_field(&mut out, minutes, "m");
            out.append(" ");
        }
        push_field(&mut out, secs, "s");
        proof {
            lemma_uptime_text_cases(seconds as nat);
        }
        assert(out@ =~= uptime_text(seconds as nat));
        out
    }
}

/// The text of an uptime, written out for each number of fields.
pub proof fn lemma_uptime_text_cases(seconds: nat)
    ensures
        uptime_text(seconds) =~= {
            let d = field_text((seconds / 86400, 'd')).push(' ');
            let h = field_text(((seconds % 86400) / 3600, 'h')).push(' ');
            let m = field_text(((seconds % 3600) / 60, 'm')).push(' ');
            let s = field_text((seconds % 60, 's'));
            if seconds >= 86400 {
                d + h + m + s
            } else if seconds >= 3600 {
                h + m + s
            } else if seconds >= 60 {
                m + s
            } else {
                s
            }
        },
{
    let all = uptime_all_fields(seconds);
    let f = uptime_fields(seconds);
    reveal_with_fuel(fields_text, 5);
    if seconds >= 86400 {
        assert(f =~= all);
        assert(f.drop_last() =~= seq![all[0], all[1], all[2]]);
        assert(f.drop_last().drop_last() =~= seq![all[0], all[1]]);
        assert(f.drop_last().drop_last().drop_last() =~= seq![all[0]]);
    } else if seconds >= 3600 {
        assert(f =~= seq![all[1], all[2], all[3]]);
        assert(f.drop_last() =~= seq![all[1], all[2]]);
        assert(f.drop_last().drop_last() =~= seq![all[1]]);
    } else if seconds >= 60 {
        assert(f =~= seq![all[2], all[3]]);
        assert(f.drop_last() =~= seq![all[2]]);
    } else {
        assert(f =~= seq![all[3]]);
    }
}

/// Rounding to the nearest integer never reverses an order: of two
/// numerators over one denominator, the larger does not round lower.
pub proof fn lemma_round_half_even_monotone(a: nat, b: nat, den: nat)
    requires
        a <= b,
        den > 0,
    ensures
        spec_round_half_even(a, den) <= spec_round_half_even(b, den),
{
    let qa = a / den;
    let qb = b / den;
    vstd::arithmetic::div_mod::lemma_fundamental_div_mod(a as int, den as int);
    vstd::arithmetic::div_mod::lemma_fundamental_div_mod(b as int, den as int);
    vstd::arithmetic::div_mod::lemma_div_is_ordered(a as int, b as int, den as int);
    if qa == qb {
        assert(a % den <= b % den);
    }
}

/// Rounding to the nearest integer stays within the neighbours of the exact
/// quotient: between `num / den` and one more.
pub proof fn lemma_round_half_even_bounds(num: nat, den: nat)
    requires
        den > 0,
    ensures
        num / den <= spec_round_half_even(num, den) <= num / den + 1,
        num % den == 0 ==> spec_round_half_even(num, den) == num / den,
{
}

/// A multiple of the denominator is rounded to its exact quotient.
pub proof fn lemma_round_half_even_multiple(quotient: nat, den: nat)
    requires
        den > 0,
    ensures
        spec_round_half_even(quotient * den, den) == quotient,
{
    vstd::arithmetic::div_mod::lemma_fundamental_div_mod_converse(
        (quotient * den) as int,
        den as int,
        quotient as int,
        0,
    );
}

/// Rounding to a multiple of `den` does not cross a multiple of `den`: what
/// lies at or below one is not rounded above it, and what lies at or above
/// one is not rounded below it.
pub proof fn lemma_round_half_even_keeps_side(num: nat, quotient: nat, den: nat)
    requires
        den > 0,
    ensures
        num <= quotient * den ==> spec_round_half_even(num, den) * den <= quotient * den,
        num >= quotient * den ==> spec_round_half_even(num, den) * den >= quotient * den,
{
    lemma_round_half_even_multiple(quotient, den);
    let rounded = spec_round_half_even(num, den);
    if num <= quotient * den {
        lemma_round_half_even_monotone(num, quotient * den, den);
        assert(rounded * den <= quotient * den) by (nonlinear_arith)
            requires
                rounded <= quotient,
        ;
    }
    if num >= quotient * den {
        lemma_round_half_even_monotone(quotient * den, num, den);
        assert(rounded * den >= quotient * den) by (nonlinear_arith)
            requires
                rounded >= quotient,
        ;
    }
}

/// Below 2^53 double precision holds a count as it is.
pub proof fn lemma_as_binary64_exact(bytes: nat)
    requires
        bytes < 0x20_0000_0000_0000,
    ensures
        as_binary64(bytes) == bytes,
{
    lemma_round_half_even_multiple(bytes, 1);
    assert(bytes * 1 == bytes);
}

/// Of two counts, double precision does not hold the smaller one as the
/// larger number.
pub proof fn lemma_as_binary64_monotone(a: nat, b: nat)
    requires
        a <= b,
    ensures
        as_binary64(a) <= as_binary64(b),
{
    let sa = binary64_spacing(a);
    let sb = binary64_spacing(b);
    if sa == sb {
        lemma_round_half_even_monotone(a, b, sa);
        assert(spec_round_half_even(a, sa) * sa <= spec_round_half_even(b, sa) * sa)
            by (nonlinear_arith)
            requires
                spec_round_half_even(a, sa) <= spec_round_half_even(b, sa),
        ;
    } else {
        // The least count with the spacing of `b` lies between the two, and
        // is a multiple of both spacings.
        let least: nat = 0x10_0000_0000_0000 * sb;
        let in_a: nat = least / sa;
        assert(sa < sb);
        assert(a < least <= b);
        assert(in_a * sa == least);
        lemma_round_half_even_keeps_side(a, in_a, sa);
        lemma_round_half_even_keeps_side(b, 0x10_0000_0000_0000, sb);
    }
}

/// The number written for a byte count lies between 1.00 and 1024.00 of its
/// unit, except below one byte and above the largest unit.
pub proof fn lemma_bytes_hundredths_range(bytes: nat)
    ensures
        bytes >= 1 ==> bytes_hundredths(bytes) >= 100,
        unit_index(bytes) < 4 ==> bytes_hundredths(bytes) <= 102400,
{
    let k = unit_index(bytes);
    let size = unit_size(k);
    if bytes >= 1 {
        lemma_as_binary64_exact(size);
        lemma_as_binary64_monotone(size, bytes);
        lemma_round_half_even_monotone(size * 100, as_binary64(bytes) * 100, size);
        lemma_round_half_even_multiple(100, size);
    }
    if k < 4 {
        let next = size * 1024;
        assert(bytes < next);
        lemma_as_binary64_exact(bytes);
        lemma_round_half_even_monotone(bytes * 100, next * 100, size);
        lemma_round_half_even_multiple(102400, size);
        assert(102400 * size == next * 100);
    }
}

/// The text of a byte count never stands for less than the text of a
/// smaller count does, within one unit and across the unit thresholds.
pub proof fn lemma_format_bytes_monotone(a: nat, b: nat)
    requires
        a <= b,
    ensures
        bytes_magnitude(a) <= bytes_magnitude(b),
{
    let ka = unit_index(a);
    let kb = unit_index(b);
    let sa = unit_size(ka);
    let sb = unit_size(kb);
    if ka == kb {
        lemma_as_binary64_monotone(a, b);
        lemma_round_half_even_monotone(as_binary64(a) * 100, as_binary64(b) * 100, sa);
        assert(bytes_hundredths(a) * sa <= bytes_hundredths(b) * sa) by (nonlinear_arith)
            requires
                bytes_hundredths(a) <= bytes_hundredths(b),
        ;
    } else {
        assert(ka < kb);
        lemma_bytes_hundredths_range(a);
        lemma_bytes_hundredths_range(b);
        assert(sa * 1024 <= sb);
        assert(bytes_hundredths(a) * sa <= 102400 * sa) by (nonlinear_arith)
            requires
                bytes_hundredths(a) <= 102400,
        ;
        assert(100 * sb <= bytes_hundredths(b) * sb) by (nonlinear_arith)
            requires
                bytes_hundredths(b) >= 100,
        ;
    }
}

/// Exactly one unit is written as the number one.
proof fn lemma_one_unit_is_one(index: nat)
    requires
        index <= 4,
    ensures
        unit_index(unit_size(index)) == index,
        bytes_hundredths(unit_size(index)) == 100,
{
    let size = unit_size(index);
    lemma_as_binary64_exact(size);
    lemma_round_half_even_multiple(100, size);
}

/// One unit of each size is written as `1.00` and the name of the unit.
pub proof fn lemma_format_bytes_unit_powers()
    ensures
        bytes_text(1) == "1.00 B"@,
        bytes_text(1024) == "1.00 KB"@,
        bytes_text(1048576) == "1.00 MB"@,
        bytes_text(1073741824) == "1.00 GB"@,
        bytes_text(1099511627776) == "1.00 TB"@,
{
    reveal_strlit("1.00 B");
    reveal_strlit("1.00 KB");
    reveal_strlit("1.00 MB");
    reveal_strlit("1.00 GB");
    reveal_strlit("1.00 TB");
    reveal_with_fuel(decimal, 2);
    lemma_one_unit_is_one(0);
    lemma_one_unit_is_one(1);
    lemma_one_unit_is_one(2);
    lemma_one_unit_is_one(3);
    lemma_one_unit_is_one(4);
    assert(fixed2(100) =~= seq!['1', '.', '0', '0']);
    assert(bytes_text(1) =~= "1.00 B"@);
    assert(bytes_text(1024) =~= "1.00 KB"@);
    assert(bytes_text(1048576) =~= "1.00 MB"@);
    assert(bytes_text(1073741824) =~= "1.00 GB"@);
    assert(bytes_text(1099511627776) =~= "1.00 TB"@);
}

/// An uptime is written without its leading zero-valued units and always
/// with its seconds: the fields written are the last ones of days, hours,
/// minutes and seconds; every field left out is zero; the seconds come
/// last; and the first field written is not zero unless it is the seconds.
pub proof fn lemma_uptime_omits_leading_zero_units(seconds: nat)
    ensures
        1 <= uptime_fields(seconds).len() <= 4,
        uptime_fields(seconds).last() == (seconds % 60, 's'),
        uptime_fields(seconds).len() + uptime_omitted(seconds) == 4,
        forall|i: int|
            0 <= i < uptime_fields(seconds).len() ==> uptime_fields(seconds)[i]
                == uptime_all_fields(seconds)[uptime_omitted(seconds) + i],
        forall|i: int|
            0 <= i < uptime_omitted(seconds) ==> (#[trigger] uptime_all_fields(seconds)[i]).0 == 0,
        uptime_fields(seconds).len() > 1 ==> uptime_fields(seconds)[0].0 > 0,
{
}

} // verus!
