//! Codec for the interrupt configuration register: per-axis low/high
//! threshold-interrupt enables, 6-direction detection and the AND/OR
//! combination of interrupt events.

use crate::enabled_enum;
use crate::enabled_enum::OnOff;
use crate::spec_bit_is_set;
use vstd::prelude::*;

verus! {

pub const XLIE_BIT_OFFSET: u8 = 0;

pub const XHIE_BIT_OFFSET: u8 = 1;

pub const YLIE_BIT_OFFSET: u8 = 2;

pub const YHIE_BIT_OFFSET: u8 = 3;

pub const ZLIE_BIT_OFFSET: u8 = 4;

pub const ZHIE_BIT_OFFSET: u8 = 5;

pub const SIXD_BIT_OFFSET: u8 = 6;

pub const AOI_BIT_OFFSET: u8 = 7;

/// Decoded value of the interrupt configuration register.
#[derive(Copy, Clone, Debug, PartialEq, Eq, Structural)]
pub struct IntCfg {
    pub aoi: OnOff,
    pub six_d: OnOff,
    pub zhie: OnOff,
    pub zlie: OnOff,
    pub yhie: OnOff,
    pub ylie: OnOff,
    pub xhie: OnOff,
    pub xlie: OnOff,
}

impl Default for IntCfg {
    fn default() -> (r: Self)
        ensures
            r.aoi == OnOff::Disabled,
            r.six_d == OnOff::Disabled,
            r.zhie == OnOff::Disabled,
            r.zlie == OnOff::Disabled,
            r.yhie == OnOff::Disabled,
            r.ylie == OnOff::Disabled,
            r.xhie == OnOff::Disabled,
            r.xlie == OnOff::Disabled,
    {
        IntCfg {
            aoi: OnOff::Disabled,
            six_d: OnOff::Disabled,
            zhie: OnOff::Disabled,
            zlie: OnOff::Disabled,
            yhie: OnOff::Disabled,
            ylie: OnOff::Disabled,
            xhie: OnOff::Disabled,
            xlie: OnOff::Disabled,
        }
    }
}

impl IntCfg {
    /// The raw byte that encodes this value.
    pub open spec fn spec_raw_value(self) -> u8 {
        (self.aoi.spec_bit() << AOI_BIT_OFFSET) | (self.six_d.spec_bit() << SIXD_BIT_OFFSET) | (
        self.zhie.spec_bit() << ZHIE_BIT_OFFSET) | (self.zlie.spec_bit() << ZLIE_BIT_OFFSET) | (
        self.yhie.spec_bit() << YHIE_BIT_OFFSET) | (self.ylie.spec_bit() << YLIE_BIT_OFFSET) | (
        self.xhie.spec_bit() << XHIE_BIT_OFFSET) | (self.xlie.spec_bit() << XLIE_BIT_OFFSET)
    }

    /// The decoded form of a raw byte.
    pub open spec fn spec_from_raw_value(value: u8) -> Self {
        IntCfg {
            aoi: enabled_enum::spec_state_from_bit_value(value >> AOI_BIT_OFFSET),
            six_d: enabled_enum::spec_state_from_bit_value(value >> SIXD_BIT_OFFSET),
            zhie: enabled_enum::spec_state_from_bit_value(value >> ZHIE_BIT_OFFSET),
            zlie: enabled_enum::spec_state_from_bit_value(value >> ZLIE_BIT_OFFSET),
            yhie: enabled_enum::spec_state_from_bit_value(value >> YHIE_BIT_OFFSET),
            ylie: enabled_enum::spec_state_from_bit_value(value >> YLIE_BIT_OFFSET),
            xhie: enabled_enum::spec_state_from_bit_value(value >> XHIE_BIT_OFFSET),
            xlie: enabled_enum::spec_state_from_bit_value(value >> XLIE_BIT_OFFSET),
        }
    }

    pub fn set_aoi(&mut self, aoi: OnOff)
        ensures
            *final(self) == (IntCfg { aoi, ..*old(self) }),
    {
        self.aoi = aoi;
    }

    pub fn set_six_d(&mut self, six_d: OnOff)
        ensures
            *final(self) == (IntCfg { six_d, ..*old(self) }),
    {
        self.six_d = six_d;
    }

    pub fn set_zhie(&mut self, zhie: OnOff)
        ensures
            *final(self) == (IntCfg { zhie, ..*old(self) }),
    {
        self.zhie = zhie;
    }

    pub fn set_zlie(&mut self, zlie: OnOff)
        ensures
            *final(self) == (IntCfg { zlie, ..*old(self) }),
    {
        self.zlie = zlie;
    }

    pub fn set_yhie(&mut self, yhie: OnOff)
        ensures
            *final(self) == (IntCfg { yhie, ..*old(self) }),
    {
        self.yhie = yhie;
    }

    pub fn set_ylie(&mut self, ylie: OnOff)
        ensures
            *final(self) == (IntCfg { ylie, ..*old(self) }),
    {
        self.ylie = ylie;
    }

    pub fn set_xhie(&mut self, xhie: OnOff)
        ensures
            *final(self) == (IntCfg { xhie, ..*old(self) }),
    {
        self.xhie = xhie;
    }

    pub fn set_xlie(&mut self, xlie: OnOff)
        ensures
            *final(self) == (IntCfg { xlie, ..*old(self) }),
    {
        self.xlie = xlie;
    }

    pub fn aoi(&self) -> (r: OnOff)
        ensures
            r == self.aoi,
    {
        self.aoi
    }

    pub fn six_d(&self) -> (r: OnOff)
        ensures
            r == self.six_d,
    {
        self.six_d
    }

    pub fn zhie(&self) -> (r: OnOff)
        ensures
            r == self.zhie,
    {
        self.zhie
    }

    pub fn zlie(&self) -> (r: OnOff)
        ensures
            r == self.zlie,
    {
        self.zlie
    }

    pub fn yhie(&self) -> (r: OnOff)
        ensures
            r == self.yhie,
    {
        self.yhie
    }

    pub fn ylie(&self) -> (r: OnOff)
        ensures
            r == self.ylie,
    {
        self.ylie
    }

    pub fn xhie(&self) -> (r: OnOff)
        ensures
            r == self.xhie,
    {
        self.xhie
    }

    pub fn xlie(&self) -> (r: OnOff)
        ensures
            r == self.xlie,
    {
        self.xlie
    }

    /// Decodes a raw register byte.
    pub fn from_raw_value(value: u8) -> (r: Self)
        ensures
            r == Self::spec_from_raw_value(value),
    {
        IntCfg {
            aoi: enabled_enum::get_state_from_bit_value(value >> AOI_BIT_OFFSET),
            six_d: enabled_enum::get_state_from_bit_value(value >> SIXD_BIT_OFFSET),
            zhie: enabled_enum::get_state_from_bit_value(value >> ZHIE_BIT_OFFSET),
            zlie: enabled_enum::get_state_from_bit_value(value >> ZLIE_BIT_OFFSET),
            yhie: enabled_enum::get_state_from_bit_value(value >> YHIE_BIT_OFFSET),
            ylie: enabled_enum::get_state_from_bit_value(value >> YLIE_BIT_OFFSET),
            xhie: enabled_enum::get_state_from_bit_value(value >> XHIE_BIT_OFFSET),
            xlie: enabled_enum::get_state_from_bit_value(value >> XLIE_BIT_OFFSET),
        }
    }

    /// Encodes this value as the raw register byte.
    pub fn get_raw_value(&self) -> (r: u8)
        ensures
            r == self.spec_raw_value(),
    {
        (self.aoi.bit() << AOI_BIT_OFFSET) | (self.six_d.bit() << SIXD_BIT_OFFSET) | (
        self.zhie.bit() << ZHIE_BIT_OFFSET) | (self.zlie.bit() << ZLIE_BIT_OFFSET) | (
        self.yhie.bit() << YHIE_BIT_OFFSET) | (self.ylie.bit() << YLIE_BIT_OFFSET) | (
        self.xhie.bit() << XHIE_BIT_OFFSET) | (self.xlie.bit() << XLIE_BIT_OFFSET)
    }
}

/// Decoding an encoded interrupt configuration gives the value back.
pub proof fn lemma_int_cfg_round_trip(v: IntCfg)
    ensures
        IntCfg::spec_from_raw_value(v.spec_raw_value()) == v,
{
    let b7 = v.aoi.spec_bit();
    let b6 = v.six_d.spec_bit();
    let b5 = v.zhie.spec_bit();
    let b4 = v.zlie.spec_bit();
    let b3 = v.yhie.spec_bit();
    let b2 = v.ylie.spec_bit();
    let b1 = v.xhie.spec_bit();
    let b0 = v.xlie.spec_bit();
    let e = v.spec_raw_value();
    assert(b7 <= 1 && b6 <= 1 && b5 <= 1 && b4 <= 1 && b3 <= 1 && b2 <= 1 && b1 <= 1 && b0 <= 1);
    assert((b7 <= 1 && b6 <= 1 && b5 <= 1 && b4 <= 1 && b3 <= 1 && b2 <= 1 && b1 <= 1 && b0 <= 1
        && e == (b7 << 7) | (b6 << 6) | (b5 << 5) | (b4 << 4) | (b3 << 3) | (b2 << 2) | (b1 << 1)
        | (b0 << 0)) ==> (e >> 7 & 1 == b7 && e >> 6 & 1 == b6 && e >> 5 & 1 == b5 && e >> 4 & 1
        == b4 && e >> 3 & 1 == b3 && e >> 2 & 1 == b2 && e >> 1 & 1 == b1 && e >> 0 & 1 == b0))
        by (bit_vector);
}

/// Each bit of the encoded byte is owned by exactly one field, so changing
/// one field never changes another field's bits.
pub proof fn lemma_int_cfg_bit_isolation(v: IntCfg)
    ensures
        spec_bit_is_set(v.spec_raw_value(), 7) == (v.aoi == OnOff::Enabled),
        spec_bit_is_set(v.spec_raw_value(), 6) == (v.six_d == OnOff::Enabled),
        spec_bit_is_set(v.spec_raw_value(), 5) == (v.zhie == OnOff::Enabled),
        spec_bit_is_set(v.spec_raw_value(), 4) == (v.zlie == OnOff::Enabled),
        spec_bit_is_set(v.spec_raw_value(), 3) == (v.yhie == OnOff::Enabled),
        spec_bit_is_set(v.spec_raw_value(), 2) == (v.ylie == OnOff::Enabled),
        spec_bit_is_set(v.spec_raw_value(), 1) == (v.xhie == OnOff::Enabled),
        spec_bit_is_set(v.spec_raw_value(), 0) == (v.xlie == OnOff::Enabled),
{
    let b7 = v.aoi.spec_bit();
    let b6 = v.six_d.spec_bit();
    let b5 = v.zhie.spec_bit();
    let b4 = v.zlie.spec_bit();
    let b3 = v.yhie.spec_bit();
    let b2 = v.ylie.spec_bit();
    let b1 = v.xhie.spec_bit();
    let b0 = v.xlie.spec_bit();
    let e = v.spec_raw_value();
    assert(b7 <= 1 && b6 <= 1 && b5 <= 1 && b4 <= 1 && b3 <= 1 && b2 <= 1 && b1 <= 1 && b0 <= 1);
    assert((b7 <= 1 && b6 <= 1 && b5 <= 1 && b4 <= 1 && b3 <= 1 && b2 <= 1 && b1 <= 1 && b0 <= 1
        && e == (b7 << 7) | (b6 << 6) | (b5 << 5) | (b4 << 4) | (b3 << 3) | (b2 << 2) | (b1 << 1)
        | (b0 << 0)) ==> (((e >> 7) & 1 == 1) == (b7 == 1) && ((e >> 6) & 1 == 1) == (b6 == 1) && (
    (e >> 5) & 1 == 1) == (b5 == 1) && ((e >> 4) & 1 == 1) == (b4 == 1) && ((e >> 3) & 1 == 1) == (
    b3 == 1) && ((e >> 2) & 1 == 1) == (b2 == 1) && ((e >> 1) & 1 == 1) == (b1 == 1) && ((e >> 0)
        & 1 == 1) == (b0 == 1))) by (bit_vector);
}

} // verus!
