//! The transfer function from a raw converter code to a pressure.
//!
//! A raw code `r` stands for the voltage `r / 8000`. The transducer spans
//! 0.5 to 4.5 of those units over 0 to 10 psi, after the calibration
//! multiplier `m` is applied to the voltage:
//! `psi = (m * r / 8000 - 0.5) * 2.5`, and `kPa = psi * 6.89475729`.
//!
//! With `m` given in millionths all of this is a rational number with a fixed
//! denominator, so the library computes it exactly: a pressure is held as the
//! integer `kPa * PRESSURE_DENOMINATOR`.
use vstd::prelude::*;

verus! {

/// Raw code that stands for one reference unit of voltage.
pub const CODES_PER_VOLT: i64 = 8000;

/// psi to kPa, in units of `1e-8`: one psi is `6.89475729` kPa.
pub const KPA_PER_PSI_E8: i128 = 689_475_729;

/// A pressure `p` in kPa is held as the integer `p * PRESSURE_DENOMINATOR`.
pub const PRESSURE_DENOMINATOR: i128 = 320_000_000_000_000_000;

/// A raw sample: one code of the channel "in" and one of the channel "out",
/// read at the same tick.
#[derive(Clone, Copy, Debug, PartialEq, Eq, Structural)]
pub struct RawSample {
    pub code_in: i16,
    pub code_out: i16,
}

/// A converted sample: the two pressures, each in units of
/// `1 / PRESSURE_DENOMINATOR` kPa.
#[derive(Clone, Copy, Debug, PartialEq, Eq, Structural)]
pub struct PhysicalSample {
    pub pressure_in: i128,
    pub pressure_out: i128,
}

/// The transfer function in kPa, `((m / 10^6) * (r / 8000) - 1/2) * 5/2 *
/// 689475729 / 10^8`, multiplied by the product of its denominators,
/// `10^6 * 8000 * 2 * 2 * 10^8`, so that it is an integer.
pub open spec fn transfer_times_denominators(multiplier_millionths: int, raw_code: int) -> int {
    (2 * multiplier_millionths * raw_code - 1_000_000 * CODES_PER_VOLT) * 5 * KPA_PER_PSI_E8
}

/// The pressure of a raw code, in units of `1 / PRESSURE_DENOMINATOR` kPa.
pub open spec fn pressure_of(multiplier_millionths: int, raw_code: int) -> int {
    (multiplier_millionths * raw_code - 4_000_000_000) * KPA_PER_PSI_E8
}

/// The converted form of a raw sample.
pub open spec fn physical_of(multiplier_millionths: int, s: RawSample) -> PhysicalSample {
    PhysicalSample {
        pressure_in: pressure_of(multiplier_millionths, s.code_in as int) as i128,
        pressure_out: pressure_of(multiplier_millionths, s.code_out as int) as i128,
    }
}

/// `pressure_of` is the transfer function: the product of its denominators
/// is `PRESSURE_DENOMINATOR * 10`.
pub proof fn lemma_pressure_is_transfer_function(multiplier_millionths: int, raw_code: int)
    ensures
        pressure_of(multiplier_millionths, raw_code) * 10 == transfer_times_denominators(
            multiplier_millionths,
            raw_code,
        ),
        PRESSURE_DENOMINATOR * 10 == 1_000_000 * CODES_PER_VOLT * 2 * 2 * 100_000_000,
{
    let m = multiplier_millionths;
    let r = raw_code;
    assert((m * r - 4_000_000_000) * 689_475_729 * 10 == (2 * m * r - 8_000_000_000) * 5
        * 689_475_729) by (nonlinear_arith);
}

/// Bounds of the pressure of any code under any multiplier, so that it fits in `i128`.
pub proof fn lemma_pressure_bounds(multiplier_millionths: int, raw_code: int)
    requires
        i64::MIN <= multiplier_millionths <= i64::MAX,
        i16::MIN <= raw_code <= i16::MAX,
    ensures
        i128::MIN <= pressure_of(multiplier_millionths, raw_code) <= i128::MAX,
{
    let p = multiplier_millionths * raw_code;
    assert(-0x4000_0000_0000_0000_0000 <= p <= 0x4000_0000_0000_0000_0000) by (nonlinear_arith)
        requires
            p == multiplier_millionths * raw_code,
            -0x8000_0000_0000_0000 <= multiplier_millionths <= 0x8000_0000_0000_0000,
            -0x8000 <= raw_code <= 0x8000,
    ;
    let q = p - 4_000_000_000;
    assert(-0x8000_0000_0000_0000_0000 <= q <= 0x8000_0000_0000_0000_0000);
    assert(-0x4000_0000_0000_0000_0000_0000_0000 <= q * 689_475_729
        <= 0x4000_0000_0000_0000_0000_0000_0000) by (nonlinear_arith)
        requires
            -0x8000_0000_0000_0000_0000 <= q <= 0x8000_0000_0000_0000_0000,
    ;
}

/// Converts one raw code to a pressure, in units of `1 / PRESSURE_DENOMINATOR`
/// kPa. Total: any code and any multiplier give a value, out of range or not.
pub fn convert(multiplier_millionths: i64, raw_code: i16) -> (p: i128)
    ensures
        p as int == pressure_of(multiplier_millionths as int, raw_code as int),
{
    proof {
        lemma_pressure_bounds(multiplier_millionths as int, raw_code as int);
    }
    let product: i128 = multiplier_millionths as i128 * raw_code as i128;
    assert(product == multiplier_millionths as int * raw_code as int);
    (product - 4_000_000_000) * KPA_PER_PSI_E8
}

/// The conversion depends on its two arguments alone: any two results that
/// meet the contract of `convert` for the same multiplier and code are equal.
pub proof fn lemma_convert_deterministic(
    multiplier_millionths: i64,
    raw_code: i16,
    first: i128,
    second: i128,
)
    requires
        first as int == pressure_of(multiplier_millionths as int, raw_code as int),
        second as int == pressure_of(multiplier_millionths as int, raw_code as int),
    ensures
        first == second,
{
}

/// Converts a raw sample, each channel on its own.
pub fn convert_sample(multiplier_millionths: i64, s: RawSample) -> (p: PhysicalSample)
    ensures
        p == physical_of(multiplier_millionths as int, s),
{
    PhysicalSample {
        pressure_in: convert(multiplier_millionths, s.code_in),
        pressure_out: convert(multiplier_millionths, s.code_out),
    }
}

/// Converts a series element by element, in order.
pub fn convert_series(multiplier_millionths: i64, raw: &Vec<RawSample>) -> (r: Vec<PhysicalSample>)
    ensures
        r@ == raw@.map_values(|s: RawSample| physical_of(multiplier_millionths as int, s)),
{
    let mut out: Vec<PhysicalSample> = Vec::new();
    let mut i: usize = 0;
    while i < raw.len()
        invariant
            i <= raw@.len(),
            out@ == raw@.subrange(0, i as int).map_values(
                |s: RawSample| physical_of(multiplier_millionths as int, s),
            ),
        decreases raw@.len() - i,
    {
        out.push(convert_sample(multiplier_millionths, raw[i]));
        i = i + 1;
        assert(raw@.subrange(0, i as int) =~= raw@.subrange(0, i - 1 as int).push(raw@[i - 1]));
    }
    assert(raw@.subrange(0, i as int) =~= raw@);
    out
}

} // verus!
