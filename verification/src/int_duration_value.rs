//! The interrupt duration register: a 7-bit magnitude in bits 0..7, with
//! bit 7 required to be zero.
//!
//! The duration is measured by the device in steps of N divided by the
//! configured output data rate, where N is the stored magnitude.

use vstd::prelude::*;

verus! {

/// Decoded value of the interrupt duration register. A value is well
/// formed when the magnitude fits in seven bits; the validated setter and
/// the decoder both keep it that way.
#[derive(Copy, Clone, Debug, PartialEq, Eq, Structural)]
pub struct IntDuration {
    pub duration: u8,
}

impl Default for IntDuration {
    fn default() -> (r: Self)
        ensures
            r.duration == 0,
    {
        IntDuration { duration: 0 }
    }
}

impl IntDuration {
    /// Well-formedness: the magnitude fits in seven bits.
    pub open spec fn spec_valid(self) -> bool {
        self.duration < 128
    }

    /// The raw byte that encodes this value: the magnitude itself.
    pub open spec fn spec_raw_value(self) -> u8 {
        self.duration
    }

    /// The decoded form of a raw byte: the magnitude with bit 7 cleared.
    pub open spec fn spec_from_raw_value(value: u8) -> Self {
        IntDuration { duration: value & 0b0111_1111 }
    }

    /// Sets the magnitude; a value with bit 7 set is rejected before any
    /// bus access and leaves the stored value unchanged.
    pub fn set_duration(&mut self, duration: u8) -> (r: Result<(), &'static str>)
        ensures
            r matches Ok(_) <==> duration < 128,
            duration < 128 ==> final(self).duration == duration,
            duration >= 128 ==> *final(self) == *old(self),
            old(self).spec_valid() ==> final(self).spec_valid(),
    {
        proof {
            assert((duration & 0b1000_0000 == 0b1000_0000) == (duration >= 128)) by (bit_vector);
        }
        if (duration & 0b1000_0000) == 0b1000_0000 {
            return Err("Interrupt duration can only contain 7 bit");
        }
        self.duration = duration;
        Ok(())
    }

    pub fn duration(&self) -> (r: u8)
        ensures
            r == self.duration,
    {
        self.duration
    }

    /// Decodes a raw register byte, ignoring bit 7.
    pub fn from_raw_value(value: u8) -> (r: Self)
        ensures
            r == Self::spec_from_raw_value(value),
            r.spec_valid(),
    {
        proof {
            assert(value & 0b0111_1111 < 128) by (bit_vector);
        }
        IntDuration { duration: (value & 0b0111_1111) }
    }

    /// Encodes this value as the raw register byte: the magnitude itself.
    pub fn get_raw_value(&self) -> (r: u8)
        ensures
            r == self.spec_raw_value(),
    {
        self.duration
    }
}

/// A well-formed duration round-trips exactly through encode and decode.
pub proof fn lemma_int_duration_round_trip(v: IntDuration)
    requires
        v.spec_valid(),
    ensures
        IntDuration::spec_from_raw_value(v.spec_raw_value()) == v,
{
    let d = v.duration;
    assert(d < 128 ==> d & 0b0111_1111 == d) by (bit_vector);
}

} // verus!
