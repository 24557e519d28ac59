//! Report formatting: the exact bytes the serial link carries.
//!
//! Each cycle transmits a fixed header line, then one line per snapshot
//! field: a two-letter label, a colon and a space, the signed decimal
//! reading, and a line feed.

use vstd::prelude::*;

use crate::sensor::SensorSnapshot;

verus! {

/// Decimal digits of `n`, most significant first, no leading zeros
/// (a single `0` for zero).
pub open spec fn spec_dec_nat(n: nat) -> Seq<u8>
    decreases n,
{
    if n < 10 {
        seq![(48 + n) as u8]
    } else {
        spec_dec_nat(n / 10).push((48 + n % 10) as u8)
    }
}

/// Signed decimal rendering: a leading minus sign for negative values.
pub open spec fn spec_dec_i16(v: int) -> Seq<u8> {
    if v < 0 {
        seq![45u8] + spec_dec_nat((-v) as nat)
    } else {
        spec_dec_nat(v as nat)
    }
}

/// Renders a reading as its signed decimal ASCII bytes.
pub fn fmt_i16(v: i16) -> (r: Vec<u8>)
    ensures
        r@ == spec_dec_i16(v as int),
{
    let mut out: Vec<u8> = Vec::new();
    let mag: u32;
    if v < 0 {
        out.push(45u8);
        mag = (-(v as i32)) as u32;
    } else {
        mag = v as u32;
    }
    let mut digits: Vec<u8> = Vec::new();
    let mut m: u32 = mag;
    let d0: u8 = (m % 10) as u8 + 48;
    digits.insert(0, d0);
    proof {
        assert(digits@ =~= seq![(48 + mag as nat % 10) as u8]);
    }
    m = m / 10;
    while m > 0
        invariant
            m == 0 ==> spec_dec_nat(mag as nat) == digits@,
            m > 0 ==> spec_dec_nat(mag as nat) == spec_dec_nat(m as nat) + digits@,
        decreases m,
    {
        let d: u8 = (m % 10) as u8 + 48;
        digits.insert(0, d);
        proof {
            let pre = digits@.remove(0);
            assert(digits@ =~= seq![d] + pre);
            if m < 10 {
                assert(spec_dec_nat(m as nat) =~= seq![d]);
            } else {
                assert(spec_dec_nat(m as nat) =~= spec_dec_nat(m as nat / 10) + seq![d]);
                assert(spec_dec_nat(m as nat / 10) + (seq![d] + pre) =~= (spec_dec_nat(
                    m as nat / 10,
                ) + seq![d]) + pre);
            }
        }
        m = m / 10;
    }
    out.append(&mut digits);
    proof {
        if v < 0 {
            assert(out@ =~= seq![45u8] + spec_dec_nat(mag as nat));
            assert(mag as nat == (-(v as int)) as nat);
        } else {
            assert(out@ =~= spec_dec_nat(mag as nat));
        }
    }
    out
}

/// The header line sent at the start of every cycle.
pub open spec fn spec_header() -> Seq<u8> {
    seq![
        10u8,
        70u8,
        82u8,
        79u8,
        77u8,
        32u8,
        77u8,
        80u8,
        85u8,
        54u8,
        48u8,
        53u8,
        48u8,
        58u8,
        32u8,
        10u8,
    ]
}

/// Builds the header line, a line feed around the device name:
/// `\nFROM MPU6050: \n`.
pub fn header_bytes() -> (r: Vec<u8>)
    ensures
        r@ == spec_header(),
{
    let r: Vec<u8> = vec![10, 70, 82, 79, 77, 32, 77, 80, 85, 54, 48, 53, 48, 58, 32, 10];
    proof {
        assert(r@ =~= spec_header());
    }
    r
}

/// One report line: two label letters, a colon and a space, the signed
/// decimal reading, a line feed.
pub open spec fn spec_line(l1: u8, l2: u8, v: int) -> Seq<u8> {
    seq![l1, l2, 58u8, 32u8] + spec_dec_i16(v) + seq![10u8]
}

/// Builds one report line.
pub fn line_bytes(l1: u8, l2: u8, v: i16) -> (r: Vec<u8>)
    ensures
        r@ == spec_line(l1, l2, v as int),
{
    let mut r: Vec<u8> = Vec::new();
    r.push(l1);
    r.push(l2);
    r.push(58);
    r.push(32);
    let mut d = fmt_i16(v);
    r.append(&mut d);
    r.push(10);
    proof {
        assert(r@ =~= spec_line(l1, l2, v as int));
    }
    r
}

/// The full fixed-layout report for one snapshot: one line per field, in the
/// order the fields are read (acceleration, temperature, angular rate).
pub open spec fn spec_report(s: SensorSnapshot) -> Seq<u8> {
    spec_line(65, 88, s.acc_x as int) + spec_line(65, 89, s.acc_y as int) + spec_line(
        65,
        90,
        s.acc_z as int,
    ) + spec_line(84, 80, s.temp as int) + spec_line(71, 88, s.gyro_x as int) + spec_line(
        71,
        89,
        s.gyro_y as int,
    ) + spec_line(71, 90, s.gyro_z as int)
}

/// Builds the full report for one snapshot.
pub fn report_bytes(s: &SensorSnapshot) -> (r: Vec<u8>)
    ensures
        r@ == spec_report(*s),
{
    let mut r: Vec<u8> = Vec::new();
    let mut line = line_bytes(65, 88, s.acc_x);
    r.append(&mut line);
    let mut line = line_bytes(65, 89, s.acc_y);
    r.append(&mut line);
    let mut line = line_bytes(65, 90, s.acc_z);
    r.append(&mut line);
    let mut line = line_bytes(84, 80, s.temp);
    r.append(&mut line);
    let mut line = line_bytes(71, 88, s.gyro_x);
    r.append(&mut line);
    let mut line = line_bytes(71, 89, s.gyro_y);
    r.append(&mut line);
    let mut line = line_bytes(71, 90, s.gyro_z);
    r.append(&mut line);
    proof {
        assert(r@ =~= spec_report(*s));
    }
    r
}

} // verus!
