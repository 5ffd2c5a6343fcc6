//! The compression target: an error-bound kind paired with one numeric value.
//!
//! The native engine takes the bound value as a 64-bit IEEE-754 number. The
//! verified core never computes with that number; all it decides is whether
//! the value is negative, which is a question about the bit pattern alone.
//! The value is therefore carried here as its IEEE-754 bit pattern (a
//! `u64`), and negativity is specified directly over the bits: the sign bit
//! is set, the magnitude is not zero (a negative zero is not below zero), and
//! the pattern is not a NaN (a NaN compares below nothing).

use vstd::prelude::*;

use crate::error::Error;

verus! {

/// The magnitude bits of a 64-bit IEEE-754 pattern: everything but the sign.
pub open spec fn f64_bits_magnitude(bits: u64) -> u64 {
    bits & 0x7fff_ffff_ffff_ffff
}

/// Whether a 64-bit IEEE-754 pattern is a NaN: all exponent bits set and a
/// non-zero mantissa.
pub open spec fn f64_bits_is_nan(bits: u64) -> bool {
    (bits >> 52) & 0x7ff == 0x7ff && bits & 0xf_ffff_ffff_ffff != 0
}

/// Whether the 64-bit IEEE-754 number with this bit pattern is strictly below
/// zero: its sign bit is set, it is not a (negative) zero, and it is not a
/// NaN. A negative infinity is below zero; a negative zero and every NaN are
/// not.
pub open spec fn f64_bits_is_negative(bits: u64) -> bool {
    bits >> 63 == 1 && f64_bits_magnitude(bits) != 0 && !f64_bits_is_nan(bits)
}

/// The quality target for one compression call: which kind of bound, and its
/// value as a 64-bit IEEE-754 bit pattern.
///
/// The quantitative meaning of each kind is defined entirely by the native
/// engine; the binding only validates the value's sign and forwards kind and
/// value unchanged.
#[derive(Clone, Copy, Debug, PartialEq, Eq, Structural)]
pub enum ErrorBound {
    /// Relative error.
    Eps(u64),
    /// Root mean square error.
    RMSE(u64),
    /// Peak signal-to-noise ratio, in dB.
    PSNR(u64),
}

impl ErrorBound {
    /// The bit pattern of the bound's numeric value.
    pub open spec fn spec_value_bits(self) -> u64 {
        match self {
            ErrorBound::Eps(bits) => bits,
            ErrorBound::RMSE(bits) => bits,
            ErrorBound::PSNR(bits) => bits,
        }
    }

    /// The bit pattern of the bound's numeric value.
    pub fn value_bits(self) -> (bits: u64)
        ensures
            bits == self.spec_value_bits(),
    {
        match self {
            ErrorBound::Eps(bits) => bits,
            ErrorBound::RMSE(bits) => bits,
            ErrorBound::PSNR(bits) => bits,
        }
    }

    /// The tag the native engine uses for this bound kind.
    pub open spec fn spec_native_tag(self) -> u32 {
        match self {
            ErrorBound::Eps(_) => 0,
            ErrorBound::RMSE(_) => 1,
            ErrorBound::PSNR(_) => 2,
        }
    }

    /// The tag the native engine uses for this bound kind.
    pub fn native_tag(self) -> (tag: u32)
        ensures
            tag == self.spec_native_tag(),
    {
        match self {
            ErrorBound::Eps(_) => 0,
            ErrorBound::RMSE(_) => 1,
            ErrorBound::PSNR(_) => 2,
        }
    }

    /// Whether the bound's value is strictly below zero.
    pub open spec fn spec_is_negative(self) -> bool {
        f64_bits_is_negative(self.spec_value_bits())
    }

    /// Validates the bound: rejects exactly the bounds whose value is
    /// strictly below zero.
    pub fn validate(self) -> (result: Result<(), Error>)
        ensures
            result == if self.spec_is_negative() {
                Err::<(), Error>(Error::NegativeErrorBound)
            } else {
                Ok::<(), Error>(())
            },
    {
        let bits: u64 = self.value_bits();
        let sign_set: bool = bits >> 63 == 1;
        let magnitude: u64 = bits & 0x7fff_ffff_ffff_ffff;
        let exponent: u64 = (bits >> 52) & 0x7ff;
        let mantissa: u64 = bits & 0xf_ffff_ffff_ffff;
        let is_nan: bool = exponent == 0x7ff && mantissa != 0;
        if sign_set && magnitude != 0 && !is_nan {
            Err(Error::NegativeErrorBound)
        } else {
            Ok(())
        }
    }
}

} // verus!
