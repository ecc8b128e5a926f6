use vstd::prelude::*;

verus! {

/// One of the two halves of the pixel array that the camera measures in turn.
#[derive(Clone, Copy, Debug, PartialEq, Eq, Structural)]
pub enum Subpage {
    Zero,
    One,
}

impl Subpage {
    /// The value this subpage has in a register field.
    pub open spec fn code(self) -> u16 {
        match self {
            Subpage::Zero => 0,
            Subpage::One => 1,
        }
    }

    /// Reads a subpage field: a zero field names subpage zero, any other value subpage one.
    pub open spec fn spec_from_code(code: u16) -> Subpage {
        if code == 0 { Subpage::Zero } else { Subpage::One }
    }

    pub fn to_code(self) -> (c: u16)
        ensures c == self.code(),
    {
        match self {
            Subpage::Zero => 0,
            Subpage::One => 1,
        }
    }

    pub fn from_code(code: u16) -> (s: Subpage)
        ensures s == Subpage::spec_from_code(code),
    {
        if code == 0 { Subpage::Zero } else { Subpage::One }
    }
}


/// How often the camera measures a subpage.
#[derive(Clone, Copy, Debug, PartialEq, Eq, Structural)]
pub enum FrameRate {
    Half,
    One,
    Two,
    Four,
    Eight,
    Sixteen,
    ThirtyTwo,
    SixtyFour,
}

impl FrameRate {
    /// The three-bit value of this rate in the control register.
    pub open spec fn code(self) -> u16 {
        match self {
            FrameRate::Half => 0,
            FrameRate::One => 1,
            FrameRate::Two => 2,
            FrameRate::Four => 3,
            FrameRate::Eight => 4,
            FrameRate::Sixteen => 5,
            FrameRate::ThirtyTwo => 6,
            FrameRate::SixtyFour => 7,
        }
    }

    /// The rate a three-bit field names.
    pub open spec fn spec_from_code(code: u16) -> FrameRate
        recommends
            code < 8,
    {
        if code == 0 {
            FrameRate::Half
        } else if code == 1 {
            FrameRate::One
        } else if code == 2 {
            FrameRate::Two
        } else if code == 3 {
            FrameRate::Four
        } else if code == 4 {
            FrameRate::Eight
        } else if code == 5 {
            FrameRate::Sixteen
        } else if code == 6 {
            FrameRate::ThirtyTwo
        } else {
            FrameRate::SixtyFour
        }
    }

    pub fn to_code(self) -> (c: u16)
        ensures
            c == self.code(),
            c < 8,
    {
        match self {
            FrameRate::Half => 0,
            FrameRate::One => 1,
            FrameRate::Two => 2,
            FrameRate::Four => 3,
            FrameRate::Eight => 4,
            FrameRate::Sixteen => 5,
            FrameRate::ThirtyTwo => 6,
            FrameRate::SixtyFour => 7,
        }
    }

    pub fn from_code(code: u16) -> (r: FrameRate)
        requires
            code < 8,
        ensures
            r == FrameRate::spec_from_code(code),
            r.code() == code,
    {
        if code == 0 {
            FrameRate::Half
        } else if code == 1 {
            FrameRate::One
        } else if code == 2 {
            FrameRate::Two
        } else if code == 3 {
            FrameRate::Four
        } else if code == 4 {
            FrameRate::Eight
        } else if code == 5 {
            FrameRate::Sixteen
        } else if code == 6 {
            FrameRate::ThirtyTwo
        } else {
            FrameRate::SixtyFour
        }
    }
}

/// The resolution of the camera's analog-to-digital converter.
#[derive(Clone, Copy, Debug, PartialEq, Eq, Structural)]
pub enum Resolution {
    Sixteen,
    Seventeen,
    Eighteen,
    Nineteen,
}

impl Resolution {
    /// The two-bit value of this resolution in the control register (and in EEPROM).
    pub open spec fn code(self) -> u16 {
        match self {
            Resolution::Sixteen => 0,
            Resolution::Seventeen => 1,
            Resolution::Eighteen => 2,
            Resolution::Nineteen => 3,
        }
    }

    /// The resolution a two-bit field names.
    pub open spec fn spec_from_code(code: u16) -> Resolution
        recommends
            code < 4,
    {
        if code == 0 {
            Resolution::Sixteen
        } else if code == 1 {
            Resolution::Seventeen
        } else if code == 2 {
            Resolution::Eighteen
        } else {
            Resolution::Nineteen
        }
    }

    pub fn to_code(self) -> (c: u16)
        ensures
            c == self.code(),
            c < 4,
    {
        match self {
            Resolution::Sixteen => 0,
            Resolution::Seventeen => 1,
            Resolution::Eighteen => 2,
            Resolution::Nineteen => 3,
        }
    }

    pub fn from_code(code: u16) -> (r: Resolution)
        requires
            code < 4,
        ensures
            r == Resolution::spec_from_code(code),
            r.code() == code,
    {
        if code == 0 {
            Resolution::Sixteen
        } else if code == 1 {
            Resolution::Seventeen
        } else if code == 2 {
            Resolution::Eighteen
        } else {
            Resolution::Nineteen
        }
    }
}

/// The order in which the camera assigns pixels to the two subpages.
#[derive(Clone, Copy, Debug, PartialEq, Eq, Structural)]
pub enum AccessPattern {
    /// Alternate rows belong to alternate subpages.
    Interleave,
    /// Pixels are assigned to subpages like the squares of a chessboard.
    Chess,
}

impl AccessPattern {
    /// The one-bit value of this pattern in the control register.
    pub open spec fn code(self) -> u16 {
        match self {
            AccessPattern::Interleave => 0,
            AccessPattern::Chess => 1,
        }
    }

    pub open spec fn spec_from_code(code: u16) -> AccessPattern {
        if code == 0 { AccessPattern::Interleave } else { AccessPattern::Chess }
    }

    pub fn to_code(self) -> (c: u16)
        ensures
            c == self.code(),
    {
        match self {
            AccessPattern::Interleave => 0,
            AccessPattern::Chess => 1,
        }
    }

    pub fn from_code(code: u16) -> (p: AccessPattern)
        ensures
            p == AccessPattern::spec_from_code(code),
    {
        if code == 0 { AccessPattern::Interleave } else { AccessPattern::Chess }
    }
}

/// I²C address of the status register.
pub const STATUS_REGISTER_ADDRESS: u16 = 0x8000;

/// I²C address of the first control register.
pub const CONTROL_REGISTER_ADDRESS: u16 = 0x800D;

/// The first control register (0x800D) as the word the camera holds.
///
/// Layout: bit 0 enables subpages, bit 2 enables data hold, bit 3 enables
/// subpage repeat, bits 4-6 select the subpage, bits 7-9 hold the frame rate,
/// bits 10-11 the ADC resolution and bit 12 the access pattern (1 for chess).
/// Bits 1 and 13-15 are reserved and are carried through every update.
#[derive(Clone, Copy, Debug, PartialEq, Eq, Structural)]
pub struct ControlRegister {
    pub raw: u16,
}

impl ControlRegister {
    pub open spec fn spec_use_subpages(self) -> bool {
        self.raw & 0x0001 != 0
    }

    pub open spec fn spec_data_hold(self) -> bool {
        self.raw & 0x0004 != 0
    }

    pub open spec fn spec_subpage_repeat(self) -> bool {
        self.raw & 0x0008 != 0
    }

    pub open spec fn spec_subpage(self) -> Subpage {
        Subpage::spec_from_code((self.raw & 0x0070) >> 4u16)
    }

    pub open spec fn spec_frame_rate(self) -> FrameRate {
        FrameRate::spec_from_code((self.raw & 0x0380) >> 7u16)
    }

    pub open spec fn spec_resolution(self) -> Resolution {
        Resolution::spec_from_code((self.raw & 0x0c00) >> 10u16)
    }

    pub open spec fn spec_access_pattern(self) -> AccessPattern {
        AccessPattern::spec_from_code((self.raw & 0x1000) >> 12u16)
    }

    /// The register with bit field `mask` replaced by `value` shifted into place.
    pub open spec fn spec_with_bits(self, mask: u16, shift: u16, value: u16) -> ControlRegister {
        ControlRegister { raw: (self.raw & !mask) | (value << shift) }
    }

    pub open spec fn spec_with_use_subpages(self, v: bool) -> ControlRegister {
        self.spec_with_bits(0x0001, 0, if v { 1 } else { 0 })
    }

    pub open spec fn spec_with_data_hold(self, v: bool) -> ControlRegister {
        self.spec_with_bits(0x0004, 2, if v { 1 } else { 0 })
    }

    pub open spec fn spec_with_subpage_repeat(self, v: bool) -> ControlRegister {
        self.spec_with_bits(0x0008, 3, if v { 1 } else { 0 })
    }

    pub open spec fn spec_with_subpage(self, v: Subpage) -> ControlRegister {
        self.spec_with_bits(0x0070, 4, v.code())
    }

    pub open spec fn spec_with_frame_rate(self, v: FrameRate) -> ControlRegister {
        self.spec_with_bits(0x0380, 7, v.code())
    }

    pub open spec fn spec_with_resolution(self, v: Resolution) -> ControlRegister {
        self.spec_with_bits(0x0c00, 10, v.code())
    }

    pub open spec fn spec_with_access_pattern(self, v: AccessPattern) -> ControlRegister {
        self.spec_with_bits(0x1000, 12, v.code())
    }

    pub fn from_raw(raw: u16) -> (r: ControlRegister)
        ensures
            r.raw == raw,
    {
        ControlRegister { raw }
    }

    pub fn raw(&self) -> (r: u16)
        ensures
            r == self.raw,
    {
        self.raw
    }

    /// Whether the camera measures the two subpages separately.
    pub fn use_subpages(&self) -> (b: bool)
        ensures
            b == self.spec_use_subpages(),
            b == (self.raw & 0x0001u16 != 0u16),
    {
        self.raw & 0x0001 != 0
    }

    /// Whether data hold is on: new data is then only copied to RAM when overwriting is enabled.
    pub fn data_hold(&self) -> (b: bool)
        ensures
            b == self.spec_data_hold(),
            b == (self.raw & 0x0004u16 != 0u16),
    {
        self.raw & 0x0004 != 0
    }

    /// Whether only the selected subpage is measured, again and again.
    pub fn subpage_repeat(&self) -> (b: bool)
        ensures
            b == self.spec_subpage_repeat(),
            b == (self.raw & 0x0008u16 != 0u16),
    {
        self.raw & 0x0008 != 0
    }

    /// The subpage measured while subpage repeat is on.
    pub fn subpage(&self) -> (s: Subpage)
        ensures
            s == self.spec_subpage(),
            (s == Subpage::Zero) == ((self.raw & 0x0070u16) >> 4u16 == 0u16),
    {
        Subpage::from_code((self.raw & 0x0070) >> 4)
    }

    pub fn frame_rate(&self) -> (f: FrameRate)
        ensures
            f == self.spec_frame_rate(),
            f.code() == (self.raw & 0x0380u16) >> 7u16,
    {
        let raw = self.raw;
        let code = (raw & 0x0380) >> 7;
        assert(code < 8) by (bit_vector)
            requires
                code == (raw & 0x0380u16) >> 7u16,
        ;
        FrameRate::from_code(code)
    }

    pub fn resolution(&self) -> (r: Resolution)
        ensures
            r == self.spec_resolution(),
            r.code() == (self.raw & 0x0c00u16) >> 10u16,
    {
        let raw = self.raw;
        let code = (raw & 0x0c00) >> 10;
        assert(code < 4) by (bit_vector)
            requires
                code == (raw & 0x0c00u16) >> 10u16,
        ;
        Resolution::from_code(code)
    }

    pub fn access_pattern(&self) -> (p: AccessPattern)
        ensures
            p == self.spec_access_pattern(),
            p.code() == (self.raw & 0x1000u16) >> 12u16,
    {
        let raw = self.raw;
        let code = (raw & 0x1000) >> 12;
        assert(code < 2) by (bit_vector)
            requires
                code == (raw & 0x1000u16) >> 12u16,
        ;
        AccessPattern::from_code(code)
    }

    /// Enables or disables measuring the subpages separately.
    pub fn set_use_subpages(&mut self, v: bool)
        ensures
            (final(self).raw & 0x0001u16 != 0u16) == v,
            *final(self) == old(self).spec_with_use_subpages(v),
            final(self).spec_use_subpages() == v,
            final(self).raw & !0x0001u16 == old(self).raw & !0x0001u16,
            final(self).spec_data_hold() == old(self).spec_data_hold(),
            final(self).spec_subpage_repeat() == old(self).spec_subpage_repeat(),
            final(self).spec_subpage() == old(self).spec_subpage(),
            final(self).spec_frame_rate() == old(self).spec_frame_rate(),
            final(self).spec_resolution() == old(self).spec_resolution(),
            final(self).spec_access_pattern() == old(self).spec_access_pattern(),
    {
        let code: u16 = if v { 1 } else { 0 };
        let old_raw = self.raw;
        let new_raw = (old_raw & !0x0001) | (code << 0);
        proof {
            lemma_control_use_subpages_bits(old_raw, code);
        }
        self.raw = new_raw;
    }

    /// Enables or disables data hold.
    pub fn set_data_hold(&mut self, v: bool)
        ensures
            (final(self).raw & 0x0004u16 != 0u16) == v,
            *final(self) == old(self).spec_with_data_hold(v),
            final(self).spec_data_hold() == v,
            final(self).raw & !0x0004u16 == old(self).raw & !0x0004u16,
            final(self).spec_use_subpages() == old(self).spec_use_subpages(),
            final(self).spec_subpage_repeat() == old(self).spec_subpage_repeat(),
            final(self).spec_subpage() == old(self).spec_subpage(),
            final(self).spec_frame_rate() == old(self).spec_frame_rate(),
            final(self).spec_resolution() == old(self).spec_resolution(),
            final(self).spec_access_pattern() == old(self).spec_access_pattern(),
    {
        let code: u16 = if v { 1 } else { 0 };
        let old_raw = self.raw;
        let new_raw = (old_raw & !0x0004) | (code << 2);
        proof {
            lemma_control_data_hold_bits(old_raw, code);
        }
        self.raw = new_raw;
    }

    /// Enables or disables subpage repeat mode.
    pub fn set_subpage_repeat(&mut self, v: bool)
        ensures
            (final(self).raw & 0x0008u16 != 0u16) == v,
            *final(self) == old(self).spec_with_subpage_repeat(v),
            final(self).spec_subpage_repeat() == v,
            final(self).raw & !0x0008u16 == old(self).raw & !0x0008u16,
            final(self).spec_use_subpages() == old(self).spec_use_subpages(),
            final(self).spec_data_hold() == old(self).spec_data_hold(),
            final(self).spec_subpage() == old(self).spec_subpage(),
            final(self).spec_frame_rate() == old(self).spec_frame_rate(),
            final(self).spec_resolution() == old(self).spec_resolution(),
            final(self).spec_access_pattern() == old(self).spec_access_pattern(),
    {
        let code: u16 = if v { 1 } else { 0 };
        let old_raw = self.raw;
        let new_raw = (old_raw & !0x0008) | (code << 3);
        proof {
            lemma_control_subpage_repeat_bits(old_raw, code);
        }
        self.raw = new_raw;
    }

    /// Selects the subpage measured in subpage repeat mode.
    pub fn set_subpage(&mut self, v: Subpage)
        ensures
            (final(self).raw & 0x0070u16) >> 4u16 == v.code(),
            *final(self) == old(self).spec_with_subpage(v),
            final(self).spec_subpage() == v,
            final(self).raw & !0x0070u16 == old(self).raw & !0x0070u16,
            final(self).spec_use_subpages() == old(self).spec_use_subpages(),
            final(self).spec_data_hold() == old(self).spec_data_hold(),
            final(self).spec_subpage_repeat() == old(self).spec_subpage_repeat(),
            final(self).spec_frame_rate() == old(self).spec_frame_rate(),
            final(self).spec_resolution() == old(self).spec_resolution(),
            final(self).spec_access_pattern() == old(self).spec_access_pattern(),
    {
        let code = v.to_code();
        let old_raw = self.raw;
        let new_raw = (old_raw & !0x0070) | (code << 4);
        proof {
            lemma_control_subpage_bits(old_raw, code);
        }
        self.raw = new_raw;
    }

    /// Sets the frame rate.
    pub fn set_frame_rate(&mut self, v: FrameRate)
        ensures
            (final(self).raw & 0x0380u16) >> 7u16 == v.code(),
            *final(self) == old(self).spec_with_frame_rate(v),
            final(self).spec_frame_rate() == v,
            final(self).raw & !0x0380u16 == old(self).raw & !0x0380u16,
            final(self).spec_use_subpages() == old(self).spec_use_subpages(),
            final(self).spec_data_hold() == old(self).spec_data_hold(),
            final(self).spec_subpage_repeat() == old(self).spec_subpage_repeat(),
            final(self).spec_subpage() == old(self).spec_subpage(),
            final(self).spec_resolution() == old(self).spec_resolution(),
            final(self).spec_access_pattern() == old(self).spec_access_pattern(),
    {
        let code = v.to_code();
        let old_raw = self.raw;
        let new_raw = (old_raw & !0x0380) | (code << 7);
        proof {
            lemma_control_frame_rate_bits(old_raw, code);
        }
        self.raw = new_raw;
    }

    /// Sets the ADC resolution.
    pub fn set_resolution(&mut self, v: Resolution)
        ensures
            (final(self).raw & 0x0c00u16) >> 10u16 == v.code(),
            *final(self) == old(self).spec_with_resolution(v),
            final(self).spec_resolution() == v,
            final(self).raw & !0x0c00u16 == old(self).raw & !0x0c00u16,
            final(self).spec_use_subpages() == old(self).spec_use_subpages(),
            final(self).spec_data_hold() == old(self).spec_data_hold(),
            final(self).spec_subpage_repeat() == old(self).spec_subpage_repeat(),
            final(self).spec_subpage() == old(self).spec_subpage(),
            final(self).spec_frame_rate() == old(self).spec_frame_rate(),
            final(self).spec_access_pattern() == old(self).spec_access_pattern(),
    {
        let code = v.to_code();
        let old_raw = self.raw;
        let new_raw = (old_raw & !0x0c00) | (code << 10);
        proof {
            lemma_control_resolution_bits(old_raw, code);
        }
        self.raw = new_raw;
    }

    /// Sets the access pattern.
    pub fn set_access_pattern(&mut self, v: AccessPattern)
        ensures
            (final(self).raw & 0x1000u16) >> 12u16 == v.code(),
            *final(self) == old(self).spec_with_access_pattern(v),
            final(self).spec_access_pattern() == v,
            final(self).raw & !0x1000u16 == old(self).raw & !0x1000u16,
            final(self).spec_use_subpages() == old(self).spec_use_subpages(),
            final(self).spec_data_hold() == old(self).spec_data_hold(),
            final(self).spec_subpage_repeat() == old(self).spec_subpage_repeat(),
            final(self).spec_subpage() == old(self).spec_subpage(),
            final(self).spec_frame_rate() == old(self).spec_frame_rate(),
            final(self).spec_resolution() == old(self).spec_resolution(),
    {
        let code = v.to_code();
        let old_raw = self.raw;
        let new_raw = (old_raw & !0x1000) | (code << 12);
        proof {
            lemma_control_access_pattern_bits(old_raw, code);
        }
        self.raw = new_raw;
    }
}

/// The status register (0x8000) as the word the camera holds.
///
/// Layout: bits 0-2 name the last measured subpage, bit 3 is set when new data
/// is available in RAM, bit 4 enables overwriting RAM with new data, and bit 5
/// starts a measurement. The other bits are carried through every update.
#[derive(Clone, Copy, Debug, PartialEq, Eq, Structural)]
pub struct StatusRegister {
    pub raw: u16,
}

impl StatusRegister {
    pub open spec fn spec_last_updated_subpage(self) -> Subpage {
        Subpage::spec_from_code(self.raw & 0x0007)
    }

    pub open spec fn spec_new_data(self) -> bool {
        self.raw & 0x0008 != 0
    }

    pub open spec fn spec_overwrite_enabled(self) -> bool {
        self.raw & 0x0010 != 0
    }

    pub open spec fn spec_start_measurement(self) -> bool {
        self.raw & 0x0020 != 0
    }

    /// The register with bit field `mask` replaced by `value` shifted into place.
    pub open spec fn spec_with_bits(self, mask: u16, shift: u16, value: u16) -> StatusRegister {
        StatusRegister { raw: (self.raw & !mask) | (value << shift) }
    }

    pub open spec fn spec_with_new_data(self, v: bool) -> StatusRegister {
        self.spec_with_bits(0x0008, 3, if v { 1 } else { 0 })
    }

    pub open spec fn spec_with_overwrite_enabled(self, v: bool) -> StatusRegister {
        self.spec_with_bits(0x0010, 4, if v { 1 } else { 0 })
    }

    pub open spec fn spec_with_start_measurement(self, v: bool) -> StatusRegister {
        self.spec_with_bits(0x0020, 5, if v { 1 } else { 0 })
    }

    pub fn from_raw(raw: u16) -> (r: StatusRegister)
        ensures
            r.raw == raw,
    {
        StatusRegister { raw }
    }

    pub fn raw(&self) -> (r: u16)
        ensures
            r == self.raw,
    {
        self.raw
    }

    /// The subpage the camera measured last.
    pub fn last_updated_subpage(&self) -> (s: Subpage)
        ensures
            s == self.spec_last_updated_subpage(),
            (s == Subpage::Zero) == (self.raw & 0x0007u16 == 0u16),
    {
        Subpage::from_code(self.raw & 0x0007)
    }

    /// Whether a measurement has been stored in RAM that the controller has not acknowledged.
    pub fn new_data(&self) -> (b: bool)
        ensures
            b == self.spec_new_data(),
            b == (self.raw & 0x0008u16 != 0u16),
    {
        self.raw & 0x0008 != 0
    }

    /// Whether new measurements may overwrite data in RAM (effective only with data hold).
    pub fn overwrite_enabled(&self) -> (b: bool)
        ensures
            b == self.spec_overwrite_enabled(),
            b == (self.raw & 0x0010u16 != 0u16),
    {
        self.raw & 0x0010 != 0
    }

    /// Whether the start-of-measurement bit is set.
    pub fn start_measurement(&self) -> (b: bool)
        ensures
            b == self.spec_start_measurement(),
            b == (self.raw & 0x0020u16 != 0u16),
    {
        self.raw & 0x0020 != 0
    }

    /// Clears the new-data flag, telling the camera that the controller has taken the data.
    pub fn reset_new_data(&mut self)
        ensures
            final(self).raw & 0x0008u16 == 0u16,
            *final(self) == old(self).spec_with_new_data(false),
            final(self).spec_new_data() == false,
            final(self).raw & !0x0008u16 == old(self).raw & !0x0008u16,
            final(self).spec_last_updated_subpage() == old(self).spec_last_updated_subpage(),
            final(self).spec_overwrite_enabled() == old(self).spec_overwrite_enabled(),
            final(self).spec_start_measurement() == old(self).spec_start_measurement(),
    {
        let code: u16 = 0;
        let old_raw = self.raw;
        let new_raw = (old_raw & !0x0008) | (code << 3);
        proof {
            lemma_status_new_data_bits(old_raw, code);
        }
        self.raw = new_raw;
    }
    /// Enables or disables overwriting RAM with new data.
    pub fn set_overwrite_enabled(&mut self, v: bool)
        ensures
            (final(self).raw & 0x0010u16 != 0u16) == v,
            *final(self) == old(self).spec_with_overwrite_enabled(v),
            final(self).spec_overwrite_enabled() == v,
            final(self).raw & !0x0010u16 == old(self).raw & !0x0010u16,
            final(self).spec_last_updated_subpage() == old(self).spec_last_updated_subpage(),
            final(self).spec_new_data() == old(self).spec_new_data(),
            final(self).spec_start_measurement() == old(self).spec_start_measurement(),
    {
        let code: u16 = if v { 1 } else { 0 };
        let old_raw = self.raw;
        let new_raw = (old_raw & !0x0010) | (code << 4);
        proof {
            lemma_status_overwrite_enabled_bits(old_raw, code);
        }
        self.raw = new_raw;
    }
    /// Sets the start-of-measurement bit.
    pub fn set_start_measurement(&mut self)
        ensures
            final(self).raw & 0x0020u16 != 0u16,
            *final(self) == old(self).spec_with_start_measurement(true),
            final(self).spec_start_measurement() == true,
            final(self).raw & !0x0020u16 == old(self).raw & !0x0020u16,
            final(self).spec_last_updated_subpage() == old(self).spec_last_updated_subpage(),
            final(self).spec_new_data() == old(self).spec_new_data(),
            final(self).spec_overwrite_enabled() == old(self).spec_overwrite_enabled(),
    {
        let code: u16 = 1;
        let old_raw = self.raw;
        let new_raw = (old_raw & !0x0020) | (code << 5);
        proof {
            lemma_status_start_measurement_bits(old_raw, code);
        }
        self.raw = new_raw;
    }
}

/// A setting of the control register: one field together with the value it should hold.
#[derive(Clone, Copy, Debug, PartialEq, Eq, Structural)]
pub enum ControlField {
    UseSubpages(bool),
    DataHold(bool),
    SubpageRepeat(bool),
    Subpage(Subpage),
    FrameRate(FrameRate),
    Resolution(Resolution),
    AccessPattern(AccessPattern),
}

impl ControlRegister {
    /// Whether the field named by `f` already holds the value `f` carries.
    pub open spec fn spec_holds(self, f: ControlField) -> bool {
        match f {
            ControlField::UseSubpages(x) => self.spec_use_subpages() == x,
            ControlField::DataHold(x) => self.spec_data_hold() == x,
            ControlField::SubpageRepeat(x) => self.spec_subpage_repeat() == x,
            ControlField::Subpage(x) => self.spec_subpage() == x,
            ControlField::FrameRate(x) => self.spec_frame_rate() == x,
            ControlField::Resolution(x) => self.spec_resolution() == x,
            ControlField::AccessPattern(x) => self.spec_access_pattern() == x,
        }
    }

    /// The register with the field named by `f` set to the value `f` carries.
    pub open spec fn spec_apply(self, f: ControlField) -> ControlRegister {
        match f {
            ControlField::UseSubpages(x) => self.spec_with_use_subpages(x),
            ControlField::DataHold(x) => self.spec_with_data_hold(x),
            ControlField::SubpageRepeat(x) => self.spec_with_subpage_repeat(x),
            ControlField::Subpage(x) => self.spec_with_subpage(x),
            ControlField::FrameRate(x) => self.spec_with_frame_rate(x),
            ControlField::Resolution(x) => self.spec_with_resolution(x),
            ControlField::AccessPattern(x) => self.spec_with_access_pattern(x),
        }
    }

    pub fn holds(&self, f: ControlField) -> (b: bool)
        ensures
            b == self.spec_holds(f),
    {
        match f {
            ControlField::UseSubpages(x) => self.use_subpages() == x,
            ControlField::DataHold(x) => self.data_hold() == x,
            ControlField::SubpageRepeat(x) => self.subpage_repeat() == x,
            ControlField::Subpage(x) => self.subpage() == x,
            ControlField::FrameRate(x) => self.frame_rate() == x,
            ControlField::Resolution(x) => self.resolution() == x,
            ControlField::AccessPattern(x) => self.access_pattern() == x,
        }
    }

    pub fn apply(&mut self, f: ControlField)
        ensures
            *final(self) == old(self).spec_apply(f),
            final(self).spec_holds(f),
    {
        match f {
            ControlField::UseSubpages(x) => self.set_use_subpages(x),
            ControlField::DataHold(x) => self.set_data_hold(x),
            ControlField::SubpageRepeat(x) => self.set_subpage_repeat(x),
            ControlField::Subpage(x) => self.set_subpage(x),
            ControlField::FrameRate(x) => self.set_frame_rate(x),
            ControlField::Resolution(x) => self.set_resolution(x),
            ControlField::AccessPattern(x) => self.set_access_pattern(x),
        }
    }
}

/// Bit facts behind writing `code` into the `use_subpages` field.
proof fn lemma_control_use_subpages_bits(raw: u16, code: u16)
    by (bit_vector)
    requires
        code < 2,
    ensures
        ((raw & !0x0001u16) | (code << 0u16)) & 0xe002u16 == raw & 0xe002u16,
        (((raw & !0x0001u16) | (code << 0u16)) & 0x0001u16) >> 0u16 == code,
        (((raw & !0x0001u16) | (code << 0u16)) & 0x0001u16 != 0u16) == (code == 1u16),
        ((raw & !0x0001u16) | (code << 0u16)) & !0x0001u16 == raw & !0x0001u16,
        ((raw & !0x0001u16) | (code << 0u16)) & 0x0004u16 == raw & 0x0004u16,
        ((raw & !0x0001u16) | (code << 0u16)) & 0x0008u16 == raw & 0x0008u16,
        ((raw & !0x0001u16) | (code << 0u16)) & 0x0070u16 == raw & 0x0070u16,
        ((raw & !0x0001u16) | (code << 0u16)) & 0x0380u16 == raw & 0x0380u16,
        ((raw & !0x0001u16) | (code << 0u16)) & 0x0c00u16 == raw & 0x0c00u16,
        ((raw & !0x0001u16) | (code << 0u16)) & 0x1000u16 == raw & 0x1000u16,
        (raw & 0x0001u16 != 0u16) == (code == 1u16) ==> ((raw & !0x0001u16) | (code << 0u16)) == raw,
{
}
/// Bit facts behind writing `code` into the `data_hold` field.
proof fn lemma_control_data_hold_bits(raw: u16, code: u16)
    by (bit_vector)
    requires
        code < 2,
    ensures
        ((raw & !0x0004u16) | (code << 2u16)) & 0xe002u16 == raw & 0xe002u16,
        (((raw & !0x0004u16) | (code << 2u16)) & 0x0004u16) >> 2u16 == code,
        (((raw & !0x0004u16) | (code << 2u16)) & 0x0004u16 != 0u16) == (code == 1u16),
        ((raw & !0x0004u16) | (code << 2u16)) & !0x0004u16 == raw & !0x0004u16,
        ((raw & !0x0004u16) | (code << 2u16)) & 0x0001u16 == raw & 0x0001u16,
        ((raw & !0x0004u16) | (code << 2u16)) & 0x0008u16 == raw & 0x0008u16,
        ((raw & !0x0004u16) | (code << 2u16)) & 0x0070u16 == raw & 0x0070u16,
        ((raw & !0x0004u16) | (code << 2u16)) & 0x0380u16 == raw & 0x0380u16,
        ((raw & !0x0004u16) | (code << 2u16)) & 0x0c00u16 == raw & 0x0c00u16,
        ((raw & !0x0004u16) | (code << 2u16)) & 0x1000u16 == raw & 0x1000u16,
        (raw & 0x0004u16 != 0u16) == (code == 1u16) ==> ((raw & !0x0004u16) | (code << 2u16)) == raw,
{
}
/// Bit facts behind writing `code` into the `subpage_repeat` field.
proof fn lemma_control_subpage_repeat_bits(raw: u16, code: u16)
    by (bit_vector)
    requires
        code < 2,
    ensures
        ((raw & !0x0008u16) | (code << 3u16)) & 0xe002u16 == raw & 0xe002u16,
        (((raw & !0x0008u16) | (code << 3u16)) & 0x0008u16) >> 3u16 == code,
        (((raw & !0x0008u16) | (code << 3u16)) & 0x0008u16 != 0u16) == (code == 1u16),
        ((raw & !0x0008u16) | (code << 3u16)) & !0x0008u16 == raw & !0x0008u16,
        ((raw & !0x0008u16) | (code << 3u16)) & 0x0001u16 == raw & 0x0001u16,
        ((raw & !0x0008u16) | (code << 3u16)) & 0x0004u16 == raw & 0x0004u16,
        ((raw & !0x0008u16) | (code << 3u16)) & 0x0070u16 == raw & 0x0070u16,
        ((raw & !0x0008u16) | (code << 3u16)) & 0x0380u16 == raw & 0x0380u16,
        ((raw & !0x0008u16) | (code << 3u16)) & 0x0c00u16 == raw & 0x0c00u16,
        ((raw & !0x0008u16) | (code << 3u16)) & 0x1000u16 == raw & 0x1000u16,
        (raw & 0x0008u16 != 0u16) == (code == 1u16) ==> ((raw & !0x0008u16) | (code << 3u16)) == raw,
{
}
/// Bit facts behind writing `code` into the `subpage` field.
proof fn lemma_control_subpage_bits(raw: u16, code: u16)
    by (bit_vector)
    requires
        code < 2,
    ensures
        ((raw & !0x0070u16) | (code << 4u16)) & 0xe002u16 == raw & 0xe002u16,
        (raw & 0x0070u16) >> 4u16 < 8,
        (((raw & !0x0070u16) | (code << 4u16)) & 0x0070u16) >> 4u16 == code,
        ((raw & !0x0070u16) | (code << 4u16)) & !0x0070u16 == raw & !0x0070u16,
        ((raw & !0x0070u16) | (code << 4u16)) & 0x0001u16 == raw & 0x0001u16,
        ((raw & !0x0070u16) | (code << 4u16)) & 0x0004u16 == raw & 0x0004u16,
        ((raw & !0x0070u16) | (code << 4u16)) & 0x0008u16 == raw & 0x0008u16,
        ((raw & !0x0070u16) | (code << 4u16)) & 0x0380u16 == raw & 0x0380u16,
        ((raw & !0x0070u16) | (code << 4u16)) & 0x0c00u16 == raw & 0x0c00u16,
        ((raw & !0x0070u16) | (code << 4u16)) & 0x1000u16 == raw & 0x1000u16,
        (raw & 0x0070u16) >> 4u16 == code ==> ((raw & !0x0070u16) | (code << 4u16)) == raw,
{
}
/// Bit facts behind writing `code` into the `frame_rate` field.
proof fn lemma_control_frame_rate_bits(raw: u16, code: u16)
    by (bit_vector)
    requires
        code < 8,
    ensures
        ((raw & !0x0380u16) | (code << 7u16)) & 0xe002u16 == raw & 0xe002u16,
        (raw & 0x0380u16) >> 7u16 < 8,
        (((raw & !0x0380u16) | (code << 7u16)) & 0x0380u16) >> 7u16 == code,
        ((raw & !0x0380u16) | (code << 7u16)) & !0x0380u16 == raw & !0x0380u16,
        ((raw & !0x0380u16) | (code << 7u16)) & 0x0001u16 == raw & 0x0001u16,
        ((raw & !0x0380u16) | (code << 7u16)) & 0x0004u16 == raw & 0x0004u16,
        ((raw & !0x0380u16) | (code << 7u16)) & 0x0008u16 == raw & 0x0008u16,
        ((raw & !0x0380u16) | (code << 7u16)) & 0x0070u16 == raw & 0x0070u16,
        ((raw & !0x0380u16) | (code << 7u16)) & 0x0c00u16 == raw & 0x0c00u16,
        ((raw & !0x0380u16) | (code << 7u16)) & 0x1000u16 == raw & 0x1000u16,
        (raw & 0x0380u16) >> 7u16 == code ==> ((raw & !0x0380u16) | (code << 7u16)) == raw,
{
}
/// Bit facts behind writing `code` into the `resolution` field.
proof fn lemma_control_resolution_bits(raw: u16, code: u16)
    by (bit_vector)
    requires
        code < 4,
    ensures
        ((raw & !0x0c00u16) | (code << 10u16)) & 0xe002u16 == raw & 0xe002u16,
        (raw & 0x0c00u16) >> 10u16 < 4,
        (((raw & !0x0c00u16) | (code << 10u16)) & 0x0c00u16) >> 10u16 == code,
        ((raw & !0x0c00u16) | (code << 10u16)) & !0x0c00u16 == raw & !0x0c00u16,
        ((raw & !0x0c00u16) | (code << 10u16)) & 0x0001u16 == raw & 0x0001u16,
        ((raw & !0x0c00u16) | (code << 10u16)) & 0x0004u16 == raw & 0x0004u16,
        ((raw & !0x0c00u16) | (code << 10u16)) & 0x0008u16 == raw & 0x0008u16,
        ((raw & !0x0c00u16) | (code << 10u16)) & 0x0070u16 == raw & 0x0070u16,
        ((raw & !0x0c00u16) | (code << 10u16)) & 0x0380u16 == raw & 0x0380u16,
        ((raw & !0x0c00u16) | (code << 10u16)) & 0x1000u16 == raw & 0x1000u16,
        (raw & 0x0c00u16) >> 10u16 == code ==> ((raw & !0x0c00u16) | (code << 10u16)) == raw,
{
}
/// Bit facts behind writing `code` into the `access_pattern` field.
proof fn lemma_control_access_pattern_bits(raw: u16, code: u16)
    by (bit_vector)
    requires
        code < 2,
    ensures
        ((raw & !0x1000u16) | (code << 12u16)) & 0xe002u16 == raw & 0xe002u16,
        (raw & 0x1000u16) >> 12u16 < 2,
        (((raw & !0x1000u16) | (code << 12u16)) & 0x1000u16) >> 12u16 == code,
        ((raw & !0x1000u16) | (code << 12u16)) & !0x1000u16 == raw & !0x1000u16,
        ((raw & !0x1000u16) | (code << 12u16)) & 0x0001u16 == raw & 0x0001u16,
        ((raw & !0x1000u16) | (code << 12u16)) & 0x0004u16 == raw & 0x0004u16,
        ((raw & !0x1000u16) | (code << 12u16)) & 0x0008u16 == raw & 0x0008u16,
        ((raw & !0x1000u16) | (code << 12u16)) & 0x0070u16 == raw & 0x0070u16,
        ((raw & !0x1000u16) | (code << 12u16)) & 0x0380u16 == raw & 0x0380u16,
        ((raw & !0x1000u16) | (code << 12u16)) & 0x0c00u16 == raw & 0x0c00u16,
        (raw & 0x1000u16) >> 12u16 == code ==> ((raw & !0x1000u16) | (code << 12u16)) == raw,
{
}
/// Bit facts behind writing `code` into the `new_data` field.
pub(crate) proof fn lemma_status_new_data_bits(raw: u16, code: u16)
    by (bit_vector)
    requires
        code < 2,
    ensures
        ((raw & !0x0008u16) | (code << 3u16)) & 0xffc0u16 == raw & 0xffc0u16,
        (((raw & !0x0008u16) | (code << 3u16)) & 0x0008u16) >> 3u16 == code,
        (((raw & !0x0008u16) | (code << 3u16)) & 0x0008u16 != 0u16) == (code == 1u16),
        ((raw & !0x0008u16) | (code << 3u16)) & !0x0008u16 == raw & !0x0008u16,
        ((raw & !0x0008u16) | (code << 3u16)) & 0x0007u16 == raw & 0x0007u16,
        ((raw & !0x0008u16) | (code << 3u16)) & 0x0010u16 == raw & 0x0010u16,
        ((raw & !0x0008u16) | (code << 3u16)) & 0x0020u16 == raw & 0x0020u16,
        (raw & 0x0008u16 != 0u16) == (code == 1u16) ==> ((raw & !0x0008u16) | (code << 3u16)) == raw,
{
}
/// Bit facts behind writing `code` into the `overwrite_enabled` field.
pub(crate) proof fn lemma_status_overwrite_enabled_bits(raw: u16, code: u16)
    by (bit_vector)
    requires
        code < 2,
    ensures
        ((raw & !0x0010u16) | (code << 4u16)) & 0xffc0u16 == raw & 0xffc0u16,
        (((raw & !0x0010u16) | (code << 4u16)) & 0x0010u16) >> 4u16 == code,
        (((raw & !0x0010u16) | (code << 4u16)) & 0x0010u16 != 0u16) == (code == 1u16),
        ((raw & !0x0010u16) | (code << 4u16)) & !0x0010u16 == raw & !0x0010u16,
        ((raw & !0x0010u16) | (code << 4u16)) & 0x0007u16 == raw & 0x0007u16,
        ((raw & !0x0010u16) | (code << 4u16)) & 0x0008u16 == raw & 0x0008u16,
        ((raw & !0x0010u16) | (code << 4u16)) & 0x0020u16 == raw & 0x0020u16,
        (raw & 0x0010u16 != 0u16) == (code == 1u16) ==> ((raw & !0x0010u16) | (code << 4u16)) == raw,
{
}
/// Bit facts behind writing `code` into the `start_measurement` field.
proof fn lemma_status_start_measurement_bits(raw: u16, code: u16)
    by (bit_vector)
    requires
        code < 2,
    ensures
        ((raw & !0x0020u16) | (code << 5u16)) & 0xffc0u16 == raw & 0xffc0u16,
        (((raw & !0x0020u16) | (code << 5u16)) & 0x0020u16) >> 5u16 == code,
        (((raw & !0x0020u16) | (code << 5u16)) & 0x0020u16 != 0u16) == (code == 1u16),
        ((raw & !0x0020u16) | (code << 5u16)) & !0x0020u16 == raw & !0x0020u16,
        ((raw & !0x0020u16) | (code << 5u16)) & 0x0007u16 == raw & 0x0007u16,
        ((raw & !0x0020u16) | (code << 5u16)) & 0x0008u16 == raw & 0x0008u16,
        ((raw & !0x0020u16) | (code << 5u16)) & 0x0010u16 == raw & 0x0010u16,
        (raw & 0x0020u16 != 0u16) == (code == 1u16) ==> ((raw & !0x0020u16) | (code << 5u16)) == raw,
{
}

impl ControlField {
    /// Whether `self` and `other` name the same field of the control register.
    pub open spec fn spec_same_field(self, other: ControlField) -> bool {
        ||| (self is UseSubpages && other is UseSubpages)
        ||| (self is DataHold && other is DataHold)
        ||| (self is SubpageRepeat && other is SubpageRepeat)
        ||| (self is Subpage && other is Subpage)
        ||| (self is FrameRate && other is FrameRate)
        ||| (self is Resolution && other is Resolution)
        ||| (self is AccessPattern && other is AccessPattern)
    }
}

/// A register field decodes back to the code it was read from, for every code the field can hold.
pub proof fn lemma_decode_then_encode(c: u16)
    ensures
        c < 2 ==> Subpage::spec_from_code(c).code() == c,
        c < 8 ==> FrameRate::spec_from_code(c).code() == c,
        c < 4 ==> Resolution::spec_from_code(c).code() == c,
        c < 2 ==> AccessPattern::spec_from_code(c).code() == c,
{
}

/// Writing a field makes it hold the value written, and keeps every other field
/// and the reserved bits (1 and 13-15) as they were.
pub proof fn lemma_apply_sets_only_its_field(reg: ControlRegister, f: ControlField, g: ControlField)
    ensures
        reg.spec_apply(f).spec_holds(f),
        !f.spec_same_field(g) ==> (reg.spec_apply(f).spec_holds(g) == reg.spec_holds(g)),
        reg.spec_apply(f).raw & 0xe002u16 == reg.raw & 0xe002u16,
{
    match f {
        ControlField::UseSubpages(x) => {
            lemma_control_use_subpages_bits(reg.raw, if x { 1 } else { 0 });
        },
        ControlField::DataHold(x) => {
            lemma_control_data_hold_bits(reg.raw, if x { 1 } else { 0 });
        },
        ControlField::SubpageRepeat(x) => {
            lemma_control_subpage_repeat_bits(reg.raw, if x { 1 } else { 0 });
        },
        ControlField::Subpage(x) => {
            lemma_control_subpage_bits(reg.raw, x.code());
        },
        ControlField::FrameRate(x) => {
            lemma_control_frame_rate_bits(reg.raw, x.code());
        },
        ControlField::Resolution(x) => {
            lemma_control_resolution_bits(reg.raw, x.code());
        },
        ControlField::AccessPattern(x) => {
            lemma_control_access_pattern_bits(reg.raw, x.code());
        },
    }
}

/// A field that already holds a value needs no write: writing it again gives the
/// same register. For the subpage field this holds when the field reads 0 or 1;
/// a field holding 2 to 7 reads as subpage one but is rewritten as 1.
pub proof fn lemma_holding_field_needs_no_write(reg: ControlRegister, f: ControlField)
    requires
        reg.spec_holds(f),
        f is Subpage ==> (reg.raw & 0x0070u16) >> 4u16 < 2,
    ensures
        reg.spec_apply(f) == reg,
{
    match f {
        ControlField::UseSubpages(x) => {
            lemma_control_use_subpages_bits(reg.raw, if x { 1 } else { 0 });
        },
        ControlField::DataHold(x) => {
            lemma_control_data_hold_bits(reg.raw, if x { 1 } else { 0 });
        },
        ControlField::SubpageRepeat(x) => {
            lemma_control_subpage_repeat_bits(reg.raw, if x { 1 } else { 0 });
        },
        ControlField::Subpage(x) => {
            lemma_control_subpage_bits(reg.raw, x.code());
            lemma_decode_then_encode((reg.raw & 0x0070u16) >> 4u16);
        },
        ControlField::FrameRate(x) => {
            lemma_control_frame_rate_bits(reg.raw, x.code());
            lemma_decode_then_encode((reg.raw & 0x0380u16) >> 7u16);
        },
        ControlField::Resolution(x) => {
            lemma_control_resolution_bits(reg.raw, x.code());
            lemma_decode_then_encode((reg.raw & 0x0c00u16) >> 10u16);
        },
        ControlField::AccessPattern(x) => {
            lemma_control_access_pattern_bits(reg.raw, x.code());
            lemma_decode_then_encode((reg.raw & 0x1000u16) >> 12u16);
        },
    }
}

/// The register codes of every field value, as the camera's datasheet lists
/// them: frame rates 0.5, 1, 2, 4, 8, 16, 32 and 64 Hz are codes 0 to 7,
/// resolutions 16 to 19 bits are codes 0 to 3, the interleaved pattern is 0 and
/// the chess pattern 1, and subpages zero and one are 0 and 1.
pub proof fn law_field_codes()
    ensures
        FrameRate::Half.code() == 0,
        FrameRate::One.code() == 1,
        FrameRate::Two.code() == 2,
        FrameRate::Four.code() == 3,
        FrameRate::Eight.code() == 4,
        FrameRate::Sixteen.code() == 5,
        FrameRate::ThirtyTwo.code() == 6,
        FrameRate::SixtyFour.code() == 7,
        Resolution::Sixteen.code() == 0,
        Resolution::Seventeen.code() == 1,
        Resolution::Eighteen.code() == 2,
        Resolution::Nineteen.code() == 3,
        AccessPattern::Interleave.code() == 0,
        AccessPattern::Chess.code() == 1,
        Subpage::Zero.code() == 0,
        Subpage::One.code() == 1,
{
}

/// What each control field reads, in terms of the register's bits: bit 0 is
/// subpage mode, bit 2 data hold, bit 3 subpage repeat, bits 4-6 the selected
/// subpage (zero only when all three are clear), bits 7-9 the frame-rate code,
/// bits 10-11 the resolution code and bit 12 the access-pattern code.
pub proof fn law_control_fields_read_bits(reg: ControlRegister)
    ensures
        reg.spec_use_subpages() == (reg.raw & 0x0001u16 != 0u16),
        reg.spec_data_hold() == (reg.raw & 0x0004u16 != 0u16),
        reg.spec_subpage_repeat() == (reg.raw & 0x0008u16 != 0u16),
        (reg.spec_subpage() == Subpage::Zero) == ((reg.raw & 0x0070u16) >> 4u16 == 0u16),
        reg.spec_frame_rate().code() == (reg.raw & 0x0380u16) >> 7u16,
        reg.spec_resolution().code() == (reg.raw & 0x0c00u16) >> 10u16,
        reg.spec_access_pattern().code() == (reg.raw & 0x1000u16) >> 12u16,
{
    lemma_control_frame_rate_bits(reg.raw, 0);
    lemma_control_resolution_bits(reg.raw, 0);
    lemma_control_access_pattern_bits(reg.raw, 0);
    lemma_decode_then_encode((reg.raw & 0x0380u16) >> 7u16);
    lemma_decode_then_encode((reg.raw & 0x0c00u16) >> 10u16);
    lemma_decode_then_encode((reg.raw & 0x1000u16) >> 12u16);
}

/// What writing a control field does to the register's bits: the field's bits
/// are replaced by the value's code and every other bit is kept.
pub proof fn law_control_fields_write_bits(reg: ControlRegister, f: ControlField)
    ensures
        f matches ControlField::UseSubpages(b) ==> reg.spec_apply(f).raw == (reg.raw & !0x0001u16) | (if b { 0x0001u16 } else { 0u16 }),
        f matches ControlField::DataHold(b) ==> reg.spec_apply(f).raw == (reg.raw & !0x0004u16) | (if b { 0x0004u16 } else { 0u16 }),
        f matches ControlField::SubpageRepeat(b) ==> reg.spec_apply(f).raw == (reg.raw & !0x0008u16) | (if b { 0x0008u16 } else { 0u16 }),
        f matches ControlField::Subpage(x) ==> reg.spec_apply(f).raw == (reg.raw & !0x0070u16) | (x.code() << 4u16),
        f matches ControlField::FrameRate(x) ==> reg.spec_apply(f).raw == (reg.raw & !0x0380u16) | (x.code() << 7u16),
        f matches ControlField::Resolution(x) ==> reg.spec_apply(f).raw == (reg.raw & !0x0c00u16) | (x.code() << 10u16),
        f matches ControlField::AccessPattern(x) ==> reg.spec_apply(f).raw == (reg.raw & !0x1000u16) | (x.code() << 12u16),
        reg.spec_apply(f).spec_holds(f),
{
    assert((0u16 << 0u16) == 0u16 && (1u16 << 0u16) == 0x0001u16 && (0u16 << 2u16) == 0u16
        && (1u16 << 2u16) == 0x0004u16 && (0u16 << 3u16) == 0u16 && (1u16 << 3u16) == 0x0008u16) by (bit_vector);
    lemma_apply_sets_only_its_field(reg, f, f);
}

/// Every value of each field type survives a trip through its register code.
pub proof fn lemma_codes_round_trip(s: Subpage, f: FrameRate, r: Resolution, p: AccessPattern)
    ensures
        Subpage::spec_from_code(s.code()) == s,
        FrameRate::spec_from_code(f.code()) == f,
        Resolution::spec_from_code(r.code()) == r,
        AccessPattern::spec_from_code(p.code()) == p,
{
}

} // verus!
