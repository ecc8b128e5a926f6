use vstd::prelude::*;
use crate::camera::CameraModel;
use crate::camera::resolution_correction;
use crate::register::AccessPattern;
use crate::register::ControlField;
use crate::register::ControlRegister;
use crate::register::Resolution;
use crate::register::StatusRegister;
use crate::register::Subpage;
use vstd::arithmetic::power2::pow2;

verus! {

/// What the driver keeps about its camera besides the bus, the calibration data
/// and the floating-point settings: where the camera is, which model it is, and
/// the control-register settings that image processing depends on.
#[derive(Clone, Copy, Debug)]
pub struct DriverState {
    /// The I²C address the camera answers at.
    pub address: u8,
    pub model: CameraModel,
    /// The ADC resolution the calibration data was taken at.
    pub calibrated_resolution: Resolution,
    /// The ADC resolution the camera was last seen or set to use.
    pub adc_resolution: Resolution,
    /// The access pattern the camera was last seen or set to use.
    pub access_pattern: AccessPattern,
}

impl DriverState {
    /// Whether the cached settings agree with `register`.
    pub open spec fn spec_tracks(self, register: ControlRegister) -> bool {
        &&& self.adc_resolution == register.spec_resolution()
        &&& self.access_pattern == register.spec_access_pattern()
    }

    /// The driver state for a camera whose control register reads `control`.
    pub fn new(
        address: u8,
        model: CameraModel,
        calibrated_resolution: Resolution,
        control: &ControlRegister,
    ) -> (s: DriverState)
        ensures
            s.address == address,
            s.model == model,
            s.calibrated_resolution == calibrated_resolution,
            s.spec_tracks(*control),
            s.adc_resolution.code() == (control.raw & 0x0c00u16) >> 10u16,
            s.access_pattern.code() == (control.raw & 0x1000u16) >> 12u16,
    {
        DriverState {
            address,
            model,
            calibrated_resolution,
            adc_resolution: control.resolution(),
            access_pattern: control.access_pattern(),
        }
    }

    /// Records the settings of a control register value read from or written to the camera.
    pub fn update_control_register(&mut self, register: &ControlRegister)
        ensures
            final(self).spec_tracks(*register),
            final(self).adc_resolution.code() == (register.raw & 0x0c00u16) >> 10u16,
            final(self).access_pattern.code() == (register.raw & 0x1000u16) >> 12u16,
            final(self).address == old(self).address,
            final(self).model == old(self).model,
            final(self).calibrated_resolution == old(self).calibrated_resolution,
    {
        self.adc_resolution = register.resolution();
        self.access_pattern = register.access_pattern();
    }

    /// The factor, as numerator and denominator, that corrects readings for the
    /// difference between the calibrated and the current ADC resolution.
    pub fn resolution_correction(&self) -> (ratio: (u32, u32))
        ensures
            ratio.0 as nat == pow2(self.calibrated_resolution.code() as nat),
            ratio.1 as nat == pow2(self.adc_resolution.code() as nat),
    {
        resolution_correction(self.calibrated_resolution, self.adc_resolution)
    }

    /// The height of the thermal image, in pixels.
    pub fn height(&self) -> (h: usize)
        ensures
            h == self.model.spec_height(),
    {
        self.model.height()
    }

    /// The width of the thermal image, in pixels.
    pub fn width(&self) -> (w: usize)
        ensures
            w == self.model.spec_width(),
    {
        self.model.width()
    }
}

/// Which subpage holds new data, if the status register reports any.
pub fn data_available(status: &StatusRegister) -> (s: Option<Subpage>)
    ensures
        s == (if status.spec_new_data() {
            Some(status.spec_last_updated_subpage())
        } else {
            None
        }),
{
    if status.new_data() {
        Some(status.last_updated_subpage())
    } else {
        None
    }
}

/// The control register the camera holds once `f` has been set on a camera
/// whose register read `current`: unchanged when `f` already held, otherwise
/// with that one field rewritten.
pub open spec fn spec_after_set(current: ControlRegister, f: ControlField) -> ControlRegister {
    if current.spec_holds(f) {
        current
    } else {
        current.spec_apply(f)
    }
}

/// The control register value to write to make `f` hold, or `None` when the
/// register read as `current` already holds it and no write is needed.
pub fn plan_control_update(current: &ControlRegister, f: ControlField) -> (w: Option<ControlRegister>)
    ensures
        w == (if current.spec_holds(f) {
            None
        } else {
            Some(current.spec_apply(f))
        }),
        w matches Some(r) ==> r.spec_holds(f),
        (match w {
            Some(r) => r,
            None => *current,
        }) == spec_after_set(*current, f),
{
    if current.holds(f) {
        None
    } else {
        let mut next = *current;
        next.apply(f);
        Some(next)
    }
}

/// The status register value to write to set the overwrite flag to `enabled`,
/// or `None` when the register read as `current` already has it so.
pub fn plan_overwrite_update(current: &StatusRegister, enabled: bool) -> (w: Option<StatusRegister>)
    ensures
        w == (if current.spec_overwrite_enabled() == enabled {
            None
        } else {
            Some(current.spec_with_overwrite_enabled(enabled))
        }),
        w matches Some(r) ==> r.spec_overwrite_enabled() == enabled,
{
    if current.overwrite_enabled() == enabled {
        None
    } else {
        let mut next = *current;
        next.set_overwrite_enabled(enabled);
        Some(next)
    }
}

/// Setting a control field takes at most one write. When the field already holds
/// the value, skipping the write leaves the camera exactly as writing would (for
/// the subpage field, when it reads 0 or 1); after a write, asking again for the
/// same value asks for no further write. A write changes no other field.
pub proof fn law_control_update_at_most_once(current: ControlRegister, f: ControlField, g: ControlField)
    requires
        f is Subpage ==> (current.raw & 0x0070u16) >> 4u16 < 2,
    ensures
        current.spec_holds(f) ==> current.spec_apply(f) == current,
        !current.spec_holds(f) ==> current.spec_apply(f).spec_holds(f),
        !f.spec_same_field(g) ==> (current.spec_apply(f).spec_holds(g) == current.spec_holds(g)),
{
    crate::register::lemma_apply_sets_only_its_field(current, f, g);
    if current.spec_holds(f) {
        crate::register::lemma_holding_field_needs_no_write(current, f);
    }
}

/// Changing a control field other than the resolution or the access pattern
/// keeps the driver's cached settings valid; changing one of those two is
/// tracked by recording the written register.
pub proof fn law_cached_settings_follow_writes(state: DriverState, current: ControlRegister, f: ControlField)
    requires
        state.spec_tracks(current),
    ensures
        !(f is Resolution || f is AccessPattern) ==> state.spec_tracks(current.spec_apply(f)),
{
    let g1 = ControlField::Resolution(state.adc_resolution);
    let g2 = ControlField::AccessPattern(state.access_pattern);
    crate::register::lemma_apply_sets_only_its_field(current, f, g1);
    crate::register::lemma_apply_sets_only_its_field(current, f, g2);
}

/// Setting the overwrite flag takes at most one write: when the flag already has
/// the value, writing it would leave the register unchanged.
pub proof fn law_overwrite_update_at_most_once(current: StatusRegister, enabled: bool)
    ensures
        current.spec_overwrite_enabled() == enabled ==> current.spec_with_overwrite_enabled(enabled) == current,
        current.spec_with_overwrite_enabled(enabled).spec_overwrite_enabled() == enabled,
        current.spec_with_overwrite_enabled(enabled).raw & !0x0010u16 == current.raw & !0x0010u16,
{
    crate::register::lemma_status_overwrite_enabled_bits(current.raw, if enabled { 1 } else { 0 });
}

/// Reading a control field after setting it gives the value set, and every
/// other field reads as it did before; the reserved bits are untouched.
pub proof fn law_set_then_read(current: ControlRegister, f: ControlField, g: ControlField)
    ensures
        spec_after_set(current, f).spec_holds(f),
        !f.spec_same_field(g) ==> (spec_after_set(current, f).spec_holds(g) == current.spec_holds(g)),
        spec_after_set(current, f).raw & 0xe002u16 == current.raw & 0xe002u16,
        f matches ControlField::UseSubpages(b) ==> spec_after_set(current, f).spec_use_subpages() == b,
        f matches ControlField::DataHold(b) ==> spec_after_set(current, f).spec_data_hold() == b,
        f matches ControlField::SubpageRepeat(b) ==> spec_after_set(current, f).spec_subpage_repeat() == b,
        f matches ControlField::Subpage(s) ==> spec_after_set(current, f).spec_subpage() == s,
        f matches ControlField::FrameRate(r) ==> spec_after_set(current, f).spec_frame_rate() == r,
        f matches ControlField::Resolution(r) ==> spec_after_set(current, f).spec_resolution() == r,
        f matches ControlField::AccessPattern(p) ==> spec_after_set(current, f).spec_access_pattern() == p,
{
    crate::register::lemma_apply_sets_only_its_field(current, f, g);
}

/// Reading the overwrite flag after setting it gives the value set, and every
/// other bit of the status register reads as it did before.
pub proof fn law_overwrite_set_then_read(current: StatusRegister, enabled: bool)
    ensures
        ({
            let after = if current.spec_overwrite_enabled() == enabled {
                current
            } else {
                current.spec_with_overwrite_enabled(enabled)
            };
            &&& after.spec_overwrite_enabled() == enabled
            &&& after.raw & !0x0010u16 == current.raw & !0x0010u16
        }),
{
    crate::register::lemma_status_overwrite_enabled_bits(current.raw, if enabled { 1 } else { 0 });
}

/// The settings the driver caches are the control register's fields: the ADC
/// resolution is the code in bits 10-11 and the access pattern the code in bit
/// 12 of the register last read or written, so the correction applied to later
/// readings is 2^calibrated code / 2^(bits 10-11).
pub proof fn law_cached_settings_are_register_fields(state: DriverState, register: ControlRegister)
    requires
        state.spec_tracks(register),
    ensures
        state.adc_resolution.code() == (register.raw & 0x0c00u16) >> 10u16,
        state.access_pattern.code() == (register.raw & 0x1000u16) >> 12u16,
        pow2(state.adc_resolution.code() as nat) == pow2(((register.raw & 0x0c00u16) >> 10u16) as nat),
{
    crate::register::law_control_fields_read_bits(register);
}

} // verus!
