use mlx9064x::camera::CameraModel;
use mlx9064x::driver::data_available;
use mlx9064x::driver::plan_control_update;
use mlx9064x::driver::plan_overwrite_update;
use mlx9064x::driver::DriverState;
use mlx9064x::register::AccessPattern;
use mlx9064x::register::ControlField;
use mlx9064x::register::ControlRegister;
use mlx9064x::register::FrameRate;
use mlx9064x::register::Resolution;
use mlx9064x::register::StatusRegister;
use mlx9064x::register::Subpage;

#[test]
fn new_state_tracks_control_register() {
    let control = ControlRegister::from_raw(0x1901);
    let state = DriverState::new(0x33, CameraModel::Mlx90640, Resolution::Eighteen, &control);
    assert_eq!(state.address, 0x33);
    assert_eq!(state.adc_resolution, Resolution::Eighteen);
    assert_eq!(state.access_pattern, AccessPattern::Chess);
    assert_eq!(state.resolution_correction(), (4, 4));
    assert_eq!(state.height(), 24);
    assert_eq!(state.width(), 32);
}

#[test]
fn update_control_register_refreshes_cache() {
    let control = ControlRegister::from_raw(0x1901);
    let mut state = DriverState::new(0x33, CameraModel::Mlx90641, Resolution::Eighteen, &control);
    let mut next = control;
    next.set_resolution(Resolution::Sixteen);
    next.set_access_pattern(AccessPattern::Interleave);
    state.update_control_register(&next);
    assert_eq!(state.adc_resolution, Resolution::Sixteen);
    assert_eq!(state.access_pattern, AccessPattern::Interleave);
    assert_eq!(state.resolution_correction(), (4, 1));
    assert_eq!(state.calibrated_resolution, Resolution::Eighteen);
    assert_eq!(state.model, CameraModel::Mlx90641);
}

#[test]
fn data_available_reports_subpage() {
    assert_eq!(data_available(&StatusRegister::from_raw(0x0008)), Some(Subpage::Zero));
    assert_eq!(data_available(&StatusRegister::from_raw(0x0009)), Some(Subpage::One));
    assert_eq!(data_available(&StatusRegister::from_raw(0x0001)), None);
}

#[test]
fn plan_skips_write_when_field_holds() {
    let current = ControlRegister::from_raw(0x1901);
    assert_eq!(plan_control_update(&current, ControlField::FrameRate(FrameRate::Two)), None);
    assert_eq!(plan_control_update(&current, ControlField::UseSubpages(true)), None);
}

#[test]
fn plan_writes_changed_field_once() {
    let current = ControlRegister::from_raw(0x1901);
    let planned = plan_control_update(&current, ControlField::FrameRate(FrameRate::Eight));
    assert_eq!(planned, Some(ControlRegister::from_raw(0x1a01)));
    let again = plan_control_update(&planned.unwrap(), ControlField::FrameRate(FrameRate::Eight));
    assert_eq!(again, None);
    let hold = plan_control_update(&current, ControlField::DataHold(true));
    assert_eq!(hold, Some(ControlRegister::from_raw(0x1905)));
}

#[test]
fn plan_overwrite() {
    let current = StatusRegister::from_raw(0x0009);
    assert_eq!(plan_overwrite_update(&current, false), None);
    assert_eq!(plan_overwrite_update(&current, true), Some(StatusRegister::from_raw(0x0019)));
    assert_eq!(plan_overwrite_update(&StatusRegister::from_raw(0x0019), true), None);
}
