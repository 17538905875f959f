//! The interrupt threshold register: a 7-bit magnitude in bits 0..7, with
//! bit 7 required to be zero.
//!
//! The magnitude is multiplied by the device with a step that depends on
//! the full-scale selection of Ctrl Reg 4: 16 mg per count at 2 g, 32 mg
//! at 4 g, 62 mg at 8 g and 186 mg at 16 g.

use vstd::prelude::*;

verus! {

/// Decoded value of the interrupt threshold register. A value is well
/// formed when the magnitude fits in seven bits; the validated setter and
/// the decoder both keep it that way.
#[derive(Copy, Clone, Debug, PartialEq, Eq, Structural)]
pub struct IntThs {
    pub threshold: u8,
}

impl Default for IntThs {
    fn default() -> (r: Self)
        ensures
            r.threshold == 0,
    {
        IntThs { threshold: 0 }
    }
}

impl IntThs {
    /// Well-formedness: the magnitude fits in seven bits.
    pub open spec fn spec_valid(self) -> bool {
        self.threshold < 128
    }

    /// The raw byte that encodes this value: the magnitude itself.
    pub open spec fn spec_raw_value(self) -> u8 {
        self.threshold
    }

    /// The decoded form of a raw byte: the magnitude with bit 7 cleared.
    pub open spec fn spec_from_raw_value(value: u8) -> Self {
        IntThs { threshold: value & 0b0111_1111 }
    }

    /// Sets the magnitude; a value with bit 7 set is rejected before any
    /// bus access and leaves the stored value unchanged.
    pub fn set_threshold(&mut self, threshold: u8) -> (r: Result<(), &'static str>)
        ensures
            r matches Ok(_) <==> threshold < 128,
            threshold < 128 ==> final(self).threshold == threshold,
            threshold >= 128 ==> *final(self) == *old(self),
            old(self).spec_valid() ==> final(self).spec_valid(),
    {
        proof {
            assert((threshold & 0b1000_0000 == 0b1000_0000) == (threshold >= 128)) by (bit_vector);
        }
        if (threshold & 0b1000_0000) == 0b1000_0000 {
            return Err("Interrupt threshold can only contain 7 bit");
        }
        self.threshold = threshold;
        Ok(())
    }

    pub fn threshold(&self) -> (r: u8)
        ensures
            r == self.threshold,
    {
        self.threshold
    }

    /// Decodes a raw register byte, ignoring bit 7.
    pub fn from_raw_value(value: u8) -> (r: Self)
        ensures
            r == Self::spec_from_raw_value(value),
            r.spec_valid(),
    {
        proof {
            assert(value & 0b0111_1111 < 128) by (bit_vector);
        }
        IntThs { threshold: (value & 0b0111_1111) }
    }

    /// Encodes this value as the raw register byte: the magnitude itself.
    pub fn get_raw_value(&self) -> (r: u8)
        ensures
            r == self.spec_raw_value(),
    {
        self.threshold
    }
}

/// A well-formed threshold round-trips exactly through encode and decode.
pub proof fn lemma_int_ths_round_trip(v: IntThs)
    requires
        v.spec_valid(),
    ensures
        IntThs::spec_from_raw_value(v.spec_raw_value()) == v,
{
    let t = v.threshold;
    assert(t < 128 ==> t & 0b0111_1111 == t) by (bit_vector);
}

} // verus!
