//! Codec for Ctrl Reg 2: high-pass filter enables, filtered-data routing,
//! and the cutoff and mode selections of the high-pass filter.

use crate::spec_bit_is_set;
use vstd::prelude::*;

verus! {

pub const HPM_BIT_OFFSET: u8 = 6;

pub const HPCF_BIT_OFFSET: u8 = 4;

pub const FDS_BIT_OFFSET: u8 = 3;

pub const HP_CLICK_BIT_OFFSET: u8 = 2;

pub const HP_IA2_BIT_OFFSET: u8 = 1;

/// High-pass filter mode selection, bits 6..8.
#[derive(Copy, Clone, Debug, PartialEq, Eq, Structural)]
pub enum HighPassFilterModeSelection {
    NormalResetByReadingReference,
    ReferenceSignalForFiltering,
    Normal,
    AutoResetOnInterrupt,
}

impl Default for HighPassFilterModeSelection {
    fn default() -> (r: Self)
        ensures
            r == HighPassFilterModeSelection::NormalResetByReadingReference,
    {
        HighPassFilterModeSelection::NormalResetByReadingReference
    }
}

impl HighPassFilterModeSelection {
    /// Wire value of the field, 0 through 3.
    pub open spec fn spec_bits(self) -> u8 {
        match self {
            HighPassFilterModeSelection::NormalResetByReadingReference => 0,
            HighPassFilterModeSelection::ReferenceSignalForFiltering => 1,
            HighPassFilterModeSelection::Normal => 2,
            HighPassFilterModeSelection::AutoResetOnInterrupt => 3,
        }
    }

    /// The variant denoted by a two-bit wire value.
    pub open spec fn spec_from_bits(bits: u8) -> Self
        recommends
            bits <= 3,
    {
        if bits == 0 {
            HighPassFilterModeSelection::NormalResetByReadingReference
        } else if bits == 1 {
            HighPassFilterModeSelection::ReferenceSignalForFiltering
        } else if bits == 2 {
            HighPassFilterModeSelection::Normal
        } else {
            HighPassFilterModeSelection::AutoResetOnInterrupt
        }
    }

    /// Executable counterpart of [`HighPassFilterModeSelection::spec_bits`].
    pub fn bits(self) -> (r: u8)
        ensures
            r == self.spec_bits(),
    {
        match self {
            HighPassFilterModeSelection::NormalResetByReadingReference => 0,
            HighPassFilterModeSelection::ReferenceSignalForFiltering => 1,
            HighPassFilterModeSelection::Normal => 2,
            HighPassFilterModeSelection::AutoResetOnInterrupt => 3,
        }
    }

    /// Executable counterpart of
    /// [`HighPassFilterModeSelection::spec_from_bits`].
    pub fn from_bits(bits: u8) -> (r: Self)
        requires
            bits <= 3,
        ensures
            r == Self::spec_from_bits(bits),
    {
        if bits == 0 {
            HighPassFilterModeSelection::NormalResetByReadingReference
        } else if bits == 1 {
            HighPassFilterModeSelection::ReferenceSignalForFiltering
        } else if bits == 2 {
            HighPassFilterModeSelection::Normal
        } else {
            HighPassFilterModeSelection::AutoResetOnInterrupt
        }
    }
}

/// High-pass filter cutoff frequency selection, bits 4..6. The cutoff
/// frequency a variant stands for depends on the configured output data
/// rate; the variants are ordered from the highest cutoff to the lowest.
#[derive(Copy, Clone, Debug, PartialEq, Eq, Structural)]
pub enum HighPassFilterCutOffFrequencySelection {
    OneFiftieth,
    AHundredthOrOneHundredAndTwentyFifth,
    ATwHundredthOrOneTwoHundredAndFiftieth,
    AFourHundredthOrAFifeHundredth,
}

impl Default for HighPassFilterCutOffFrequencySelection {
    fn default() -> (r: Self)
        ensures
            r == HighPassFilterCutOffFrequencySelection::OneFiftieth,
    {
        HighPassFilterCutOffFrequencySelection::OneFiftieth
    }
}

impl HighPassFilterCutOffFrequencySelection {
    /// Wire value of the field, 0 through 3.
    pub open spec fn spec_bits(self) -> u8 {
        match self {
            HighPassFilterCutOffFrequencySelection::OneFiftieth => 0,
            HighPassFilterCutOffFrequencySelection::AHundredthOrOneHundredAndTwentyFifth => 1,
            HighPassFilterCutOffFrequencySelection::ATwHundredthOrOneTwoHundredAndFiftieth => 2,
            HighPassFilterCutOffFrequencySelection::AFourHundredthOrAFifeHundredth => 3,
        }
    }

    /// The variant denoted by a two-bit wire value.
    pub open spec fn spec_from_bits(bits: u8) -> Self
        recommends
            bits <= 3,
    {
        if bits == 0 {
            HighPassFilterCutOffFrequencySelection::OneFiftieth
        } else if bits == 1 {
            HighPassFilterCutOffFrequencySelection::AHundredthOrOneHundredAndTwentyFifth
        } else if bits == 2 {
            HighPassFilterCutOffFrequencySelection::ATwHundredthOrOneTwoHundredAndFiftieth
        } else {
            HighPassFilterCutOffFrequencySelection::AFourHundredthOrAFifeHundredth
        }
    }

    /// Executable counterpart of
    /// [`HighPassFilterCutOffFrequencySelection::spec_bits`].
    pub fn bits(self) -> (r: u8)
        ensures
            r == self.spec_bits(),
    {
        match self {
            HighPassFilterCutOffFrequencySelection::OneFiftieth => 0,
            HighPassFilterCutOffFrequencySelection::AHundredthOrOneHundredAndTwentyFifth => 1,
            HighPassFilterCutOffFrequencySelection::ATwHundredthOrOneTwoHundredAndFiftieth => 2,
            HighPassFilterCutOffFrequencySelection::AFourHundredthOrAFifeHundredth => 3,
        }
    }

    /// Executable counterpart of
    /// [`HighPassFilterCutOffFrequencySelection::spec_from_bits`].
    pub fn from_bits(bits: u8) -> (r: Self)
        requires
            bits <= 3,
        ensures
            r == Self::spec_from_bits(bits),
    {
        if bits == 0 {
            HighPassFilterCutOffFrequencySelection::OneFiftieth
        } else if bits == 1 {
            HighPassFilterCutOffFrequencySelection::AHundredthOrOneHundredAndTwentyFifth
        } else if bits == 2 {
            HighPassFilterCutOffFrequencySelection::ATwHundredthOrOneTwoHundredAndFiftieth
        } else {
            HighPassFilterCutOffFrequencySelection::AFourHundredthOrAFifeHundredth
        }
    }
}

/// Routing of filtered data, bit 3: straight to the output registers or
/// through the internal filter into the FIFO.
#[derive(Copy, Clone, Debug, PartialEq, Eq, Structural)]
pub enum FilteredDataSelection {
    InternalFilterBypassed,
    InternalFilterSentToFifo,
}

impl Default for FilteredDataSelection {
    fn default() -> (r: Self)
        ensures
            r == FilteredDataSelection::InternalFilterBypassed,
    {
        FilteredDataSelection::InternalFilterBypassed
    }
}

impl FilteredDataSelection {
    /// Wire value of the flag.
    pub open spec fn spec_bit(self) -> u8 {
        match self {
            FilteredDataSelection::InternalFilterBypassed => 0,
            FilteredDataSelection::InternalFilterSentToFifo => 1,
        }
    }
}

/// Per-source high-pass filter enable.
#[derive(Copy, Clone, Debug, PartialEq, Eq, Structural)]
pub enum HighPassFilter {
    FilterBypassed,
    FilterEnabled,
}

impl Default for HighPassFilter {
    fn default() -> (r: Self)
        ensures
            r == HighPassFilter::FilterBypassed,
    {
        HighPassFilter::FilterBypassed
    }
}

impl HighPassFilter {
    /// Wire value of the flag.
    pub open spec fn spec_bit(self) -> u8 {
        match self {
            HighPassFilter::FilterBypassed => 0,
            HighPassFilter::FilterEnabled => 1,
        }
    }
}

/// Decoded value of Ctrl Reg 2.
#[derive(Copy, Clone, Debug, PartialEq, Eq, Structural)]
pub struct CtrlReg2Value {
    pub hp_ia1: HighPassFilter,
    pub hp_ia2: HighPassFilter,
    pub hp_click: HighPassFilter,
    pub fds: FilteredDataSelection,
    pub hpcf: HighPassFilterCutOffFrequencySelection,
    pub hpm: HighPassFilterModeSelection,
}

impl Default for CtrlReg2Value {
    fn default() -> (r: Self)
        ensures
            r.hp_ia1 == HighPassFilter::FilterBypassed,
            r.hp_ia2 == HighPassFilter::FilterBypassed,
            r.hp_click == HighPassFilter::FilterBypassed,
            r.fds == FilteredDataSelection::InternalFilterBypassed,
            r.hpcf == HighPassFilterCutOffFrequencySelection::OneFiftieth,
            r.hpm == HighPassFilterModeSelection::NormalResetByReadingReference,
    {
        CtrlReg2Value {
            hp_ia1: HighPassFilter::FilterBypassed,
            hp_ia2: HighPassFilter::FilterBypassed,
            hp_click: HighPassFilter::FilterBypassed,
            fds: FilteredDataSelection::InternalFilterBypassed,
            hpcf: HighPassFilterCutOffFrequencySelection::OneFiftieth,
            hpm: HighPassFilterModeSelection::NormalResetByReadingReference,
        }
    }
}

impl CtrlReg2Value {
    /// The raw byte that encodes this value.
    pub open spec fn spec_raw_value(self) -> u8 {
        (self.hpm.spec_bits() << HPM_BIT_OFFSET) | (self.hpcf.spec_bits() << HPCF_BIT_OFFSET) | (
        self.fds.spec_bit() << FDS_BIT_OFFSET) | (self.hp_click.spec_bit() << HP_CLICK_BIT_OFFSET)
            | (self.hp_ia2.spec_bit() << HP_IA2_BIT_OFFSET) | self.hp_ia1.spec_bit()
    }

    /// The decoded form of a raw byte; every byte decodes, since all four
    /// values of each two-bit field are defined.
    pub open spec fn spec_from_raw_value(value: u8) -> Self {
        CtrlReg2Value {
            hp_ia1: if value & 1 == 1 {
                HighPassFilter::FilterEnabled
            } else {
                HighPassFilter::FilterBypassed
            },
            hp_ia2: if value >> HP_IA2_BIT_OFFSET & 1 == 1 {
                HighPassFilter::FilterEnabled
            } else {
                HighPassFilter::FilterBypassed
            },
            hp_click: if value >> HP_CLICK_BIT_OFFSET & 1 == 1 {
                HighPassFilter::FilterEnabled
            } else {
                HighPassFilter::FilterBypassed
            },
            fds: if value >> FDS_BIT_OFFSET & 1 == 1 {
                FilteredDataSelection::InternalFilterSentToFifo
            } else {
                FilteredDataSelection::InternalFilterBypassed
            },
            hpcf: HighPassFilterCutOffFrequencySelection::spec_from_bits(
                (value & 0b11_0000) >> HPCF_BIT_OFFSET,
            ),
            hpm: HighPassFilterModeSelection::spec_from_bits((value & 0b1100_0000) >> HPM_BIT_OFFSET),
        }
    }

    /// Encodes this value as the raw register byte.
    pub fn get_raw_value(&self) -> (r: u8)
        ensures
            r == self.spec_raw_value(),
    {
        let hpm: u8 = self.hpm.bits();
        let hpcf: u8 = self.hpcf.bits();
        let fds: u8 = match self.fds {
            FilteredDataSelection::InternalFilterBypassed => 0,
            FilteredDataSelection::InternalFilterSentToFifo => 1,
        };
        let hp_click: u8 = match self.hp_click {
            HighPassFilter::FilterBypassed => 0,
            HighPassFilter::FilterEnabled => 1,
        };
        let hp_ia2: u8 = match self.hp_ia2 {
            HighPassFilter::FilterBypassed => 0,
            HighPassFilter::FilterEnabled => 1,
        };
        let hp_ia1: u8 = match self.hp_ia1 {
            HighPassFilter::FilterBypassed => 0,
            HighPassFilter::FilterEnabled => 1,
        };
        (hpm << HPM_BIT_OFFSET) | (hpcf << HPCF_BIT_OFFSET) | (fds << FDS_BIT_OFFSET) | (hp_click
            << HP_CLICK_BIT_OFFSET) | (hp_ia2 << HP_IA2_BIT_OFFSET) | hp_ia1
    }

    /// Decodes a raw register byte.
    pub fn from_raw_value(value: u8) -> (r: Self)
        ensures
            r == Self::spec_from_raw_value(value),
    {
        let hp_ia1 = if value & 1 == 1 {
            HighPassFilter::FilterEnabled
        } else {
            HighPassFilter::FilterBypassed
        };
        let hp_ia2 = if value >> HP_IA2_BIT_OFFSET & 1 == 1 {
            HighPassFilter::FilterEnabled
        } else {
            HighPassFilter::FilterBypassed
        };
        let hp_click = if value >> HP_CLICK_BIT_OFFSET & 1 == 1 {
            HighPassFilter::FilterEnabled
        } else {
            HighPassFilter::FilterBypassed
        };
        let fds = if value >> FDS_BIT_OFFSET & 1 == 1 {
            FilteredDataSelection::InternalFilterSentToFifo
        } else {
            FilteredDataSelection::InternalFilterBypassed
        };
        proof {
            assert((value & 0b11_0000) >> 4u8 <= 3 && (value & 0b1100_0000) >> 6u8 <= 3)
                by (bit_vector);
        }
        let hpcf = HighPassFilterCutOffFrequencySelection::from_bits(
            (value & 0b11_0000) >> HPCF_BIT_OFFSET,
        );
        let hpm = HighPassFilterModeSelection::from_bits((value & 0b1100_0000) >> HPM_BIT_OFFSET);
        CtrlReg2Value { hp_ia1, hp_ia2, hp_click, fds, hpcf, hpm }
    }
}

/// Decoding an encoded Ctrl Reg 2 value gives the value back.
pub proof fn lemma_ctrl_reg_2_round_trip(v: CtrlReg2Value)
    ensures
        CtrlReg2Value::spec_from_raw_value(v.spec_raw_value()) == v,
{
    let m = v.hpm.spec_bits();
    let c = v.hpcf.spec_bits();
    let f = v.fds.spec_bit();
    let k = v.hp_click.spec_bit();
    let b = v.hp_ia2.spec_bit();
    let a = v.hp_ia1.spec_bit();
    let e = v.spec_raw_value();
    assert(m <= 3 && c <= 3 && f <= 1 && k <= 1 && b <= 1 && a <= 1);
    assert((m <= 3 && c <= 3 && f <= 1 && k <= 1 && b <= 1 && a <= 1 && e == (m << 6) | (c << 4) | (
    f << 3) | (k << 2) | (b << 1) | a) ==> (e & 1 == a && e >> 1 & 1 == b && e >> 2 & 1 == k && e
        >> 3 & 1 == f && (e & 0b11_0000) >> 4 == c && (e & 0b1100_0000) >> 6 == m))
        by (bit_vector);
}

/// Each bit of the encoded byte is owned by exactly one field, so changing
/// one field never changes another field's bits.
pub proof fn lemma_ctrl_reg_2_bit_isolation(v: CtrlReg2Value)
    ensures
        spec_bit_is_set(v.spec_raw_value(), 0) == (v.hp_ia1 == HighPassFilter::FilterEnabled),
        spec_bit_is_set(v.spec_raw_value(), 1) == (v.hp_ia2 == HighPassFilter::FilterEnabled),
        spec_bit_is_set(v.spec_raw_value(), 2) == (v.hp_click == HighPassFilter::FilterEnabled),
        spec_bit_is_set(v.spec_raw_value(), 3) == (v.fds
            == FilteredDataSelection::InternalFilterSentToFifo),
        (v.spec_raw_value() & 0b11_0000) >> 4 == v.hpcf.spec_bits(),
        (v.spec_raw_value() & 0b1100_0000) >> 6 == v.hpm.spec_bits(),
{
    let m = v.hpm.spec_bits();
    let c = v.hpcf.spec_bits();
    let f = v.fds.spec_bit();
    let k = v.hp_click.spec_bit();
    let b = v.hp_ia2.spec_bit();
    let a = v.hp_ia1.spec_bit();
    let e = v.spec_raw_value();
    assert(m <= 3 && c <= 3 && f <= 1 && k <= 1 && b <= 1 && a <= 1);
    assert((m <= 3 && c <= 3 && f <= 1 && k <= 1 && b <= 1 && a <= 1 && e == (m << 6) | (c << 4) | (
    f << 3) | (k << 2) | (b << 1) | a) ==> (((e >> 0) & 1 == 1) == (a == 1) && ((e >> 1) & 1 == 1)
        == (b == 1) && ((e >> 2) & 1 == 1) == (k == 1) && ((e >> 3) & 1 == 1) == (f == 1) && (e
        & 0b11_0000) >> 4 == c && (e & 0b1100_0000) >> 6 == m)) by (bit_vector);
}

} // verus!
