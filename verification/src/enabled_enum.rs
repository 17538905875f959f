//! The two-state enable flag used by most register fields.

use vstd::prelude::*;

verus! {

/// A single-bit enable flag: `Disabled` encodes as 0, `Enabled` as 1.
#[derive(Copy, Clone, Debug, PartialEq, Eq, Structural)]
pub enum OnOff {
    Disabled,
    Enabled,
}

impl Default for OnOff {
    fn default() -> (r: Self)
        ensures
            r == OnOff::Disabled,
    {
        OnOff::Disabled
    }
}

impl OnOff {
    /// The wire value of the flag: 0 for `Disabled`, 1 for `Enabled`.
    pub open spec fn spec_bit(self) -> u8 {
        match self {
            OnOff::Disabled => 0,
            OnOff::Enabled => 1,
        }
    }

    /// Executable counterpart of [`OnOff::spec_bit`].
    pub fn bit(self) -> (r: u8)
        ensures
            r == self.spec_bit(),
    {
        match self {
            OnOff::Disabled => 0,
            OnOff::Enabled => 1,
        }
    }
}

/// The flag denoted by the lowest bit of `value`.
pub open spec fn spec_state_from_bit_value(value: u8) -> OnOff {
    if value & 1 == 1 {
        OnOff::Enabled
    } else {
        OnOff::Disabled
    }
}

/// Reads the lowest bit of `value` as an [`OnOff`] flag.
pub fn get_state_from_bit_value(value: u8) -> (r: OnOff)
    ensures
        r == spec_state_from_bit_value(value),
{
    if value & 1 == 1 {
        OnOff::Enabled
    } else {
        OnOff::Disabled
    }
}

} // verus!
