//! The fixed-point format of a multiplier: how many of its 64 bits stand
//! before the binary point and how many after it.

use vstd::prelude::*;
use crate::error::TscError;
use crate::math::valid_format;
use crate::math::FRAC_SIZE_AMD;
use crate::math::FRAC_SIZE_INTEL;
use crate::math::INT_SIZE_AMD;
use crate::math::INT_SIZE_INTEL;

verus! {

/// A split of a 64-bit fixed-point number into `int_bits` integer bits and
/// `frac_bits` fractional bits. Every value of this type is a valid split:
/// at least one bit of each kind and at most 64 bits together.
#[derive(Clone, Copy, Debug, PartialEq, Eq)]
pub struct FixedPointFormat {
    int_bits: u8,
    frac_bits: u8,
}

/// The two formats that scaling hardware uses, by name.
#[derive(Clone, Copy, Debug, PartialEq, Eq, Structural)]
pub enum Arch {
    /// 8 integer bits, 32 fractional bits.
    Amd,
    /// 16 integer bits, 48 fractional bits.
    Intel,
}

/// The pair `(int_bits, frac_bits)` that a request resolves to, if it is a
/// valid split. Where no integer width is given, the integer part takes all
/// the bits that the fraction leaves.
pub open spec fn resolved_bits(frac_bits: u8, int_bits: Option<u8>) -> Option<(u8, u8)> {
    if frac_bits == 0 || frac_bits >= 64 {
        None
    } else {
        match int_bits {
            None => Some(((64 - frac_bits) as u8, frac_bits)),
            Some(int_bits) => if int_bits == 0 || int_bits + frac_bits > 64 {
                None
            } else {
                Some((int_bits, frac_bits))
            },
        }
    }
}

impl FixedPointFormat {
    #[verifier::type_invariant]
    spec fn well_formed(self) -> bool {
        valid_format(self.int_bits as u32, self.frac_bits as u32)
    }

    /// The pair `(int_bits, frac_bits)`.
    pub closed spec fn bits(self) -> (u8, u8) {
        (self.int_bits, self.frac_bits)
    }

    /// The number of integer bits.
    pub fn int_bits(&self) -> (int_bits: u8)
        ensures
            int_bits == self.bits().0,
            valid_format(self.bits().0 as u32, self.bits().1 as u32),
    {
        proof {
            use_type_invariant(self);
        }
        self.int_bits
    }

    /// The number of fractional bits.
    pub fn frac_bits(&self) -> (frac_bits: u8)
        ensures
            frac_bits == self.bits().1,
            valid_format(self.bits().0 as u32, self.bits().1 as u32),
    {
        proof {
            use_type_invariant(self);
        }
        self.frac_bits
    }
}

/// Resolves a request for a format. `frac_bits` must lie between 1 and 63.
/// `int_bits`, where given, must be at least 1 and leave the sum at 64 or
/// below; where omitted it is `64 - frac_bits`. Any other request fails with
/// `InvalidFormat`.
pub fn resolve_format(frac_bits: u8, int_bits: Option<u8>) -> (res: Result<
    FixedPointFormat,
    TscError,
>)
    ensures
        match res {
            Ok(format) => resolved_bits(frac_bits, int_bits) == Some(format.bits()),
            Err(e) => e == TscError::InvalidFormat && resolved_bits(frac_bits, int_bits) is None,
        },
{
    if frac_bits == 0 || frac_bits >= 64 {
        return Err(TscError::InvalidFormat);
    }
    match int_bits {
        None => Ok(FixedPointFormat { int_bits: 64 - frac_bits, frac_bits }),
        Some(int_bits) => {
            if int_bits == 0 || int_bits > 64 - frac_bits {
                Err(TscError::InvalidFormat)
            } else {
                Ok(FixedPointFormat { int_bits, frac_bits })
            }
        },
    }
}

impl Arch {
    /// The `(int_bits, frac_bits)` pair that the name stands for.
    pub open spec fn bits(self) -> (u8, u8) {
        match self {
            Arch::Amd => (INT_SIZE_AMD as u8, FRAC_SIZE_AMD as u8),
            Arch::Intel => (INT_SIZE_INTEL as u8, FRAC_SIZE_INTEL as u8),
        }
    }

    /// The format that the name stands for: the same that `resolve_format`
    /// gives for the pair written out.
    pub fn format(self) -> (format: FixedPointFormat)
        ensures
            format.bits() == self.bits(),
            resolved_bits(self.bits().1, Some(self.bits().0)) == Some(format.bits()),
    {
        match self {
            Arch::Amd => FixedPointFormat { int_bits: 8, frac_bits: 32 },
            Arch::Intel => FixedPointFormat { int_bits: 16, frac_bits: 48 },
        }
    }
}

} // verus!
