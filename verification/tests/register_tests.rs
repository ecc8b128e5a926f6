use mlx9064x::register::AccessPattern;
use mlx9064x::register::ControlField;
use mlx9064x::register::ControlRegister;
use mlx9064x::register::FrameRate;
use mlx9064x::register::Resolution;
use mlx9064x::register::StatusRegister;
use mlx9064x::register::Subpage;
use mlx9064x::register::CONTROL_REGISTER_ADDRESS;
use mlx9064x::register::STATUS_REGISTER_ADDRESS;

#[test]
fn factory_default_control_register_decodes() {
    // The power-on value of the control register of an MLX90640.
    let reg = ControlRegister::from_raw(0x1901);
    assert!(reg.use_subpages());
    assert!(!reg.data_hold());
    assert!(!reg.subpage_repeat());
    assert_eq!(reg.subpage(), Subpage::Zero);
    assert_eq!(reg.frame_rate(), FrameRate::Two);
    assert_eq!(reg.resolution(), Resolution::Eighteen);
    assert_eq!(reg.access_pattern(), AccessPattern::Chess);
}

#[test]
fn register_addresses() {
    assert_eq!(STATUS_REGISTER_ADDRESS, 0x8000);
    assert_eq!(CONTROL_REGISTER_ADDRESS, 0x800D);
}

#[test]
fn frame_rate_setter_changes_only_its_bits() {
    let mut reg = ControlRegister::from_raw(0x1901);
    reg.set_frame_rate(FrameRate::SixtyFour);
    assert_eq!(reg.raw(), 0x1b81);
    assert_eq!(reg.frame_rate(), FrameRate::SixtyFour);
    reg.set_frame_rate(FrameRate::Half);
    assert_eq!(reg.raw(), 0x1801);
    assert_eq!(reg.resolution(), Resolution::Eighteen);
    assert_eq!(reg.access_pattern(), AccessPattern::Chess);
}

#[test]
fn every_frame_rate_round_trips() {
    let rates = [
        FrameRate::Half,
        FrameRate::One,
        FrameRate::Two,
        FrameRate::Four,
        FrameRate::Eight,
        FrameRate::Sixteen,
        FrameRate::ThirtyTwo,
        FrameRate::SixtyFour,
    ];
    for (code, rate) in rates.iter().enumerate() {
        assert_eq!(rate.to_code() as usize, code);
        assert_eq!(FrameRate::from_code(code as u16), *rate);
        let mut reg = ControlRegister::from_raw(0xffff);
        reg.set_frame_rate(*rate);
        assert_eq!(reg.frame_rate(), *rate);
        assert_eq!(reg.raw() & !0x0380, 0xffff & !0x0380);
    }
}

#[test]
fn resolution_and_pattern_setters() {
    let mut reg = ControlRegister::from_raw(0x1901);
    reg.set_resolution(Resolution::Nineteen);
    assert_eq!(reg.raw(), 0x1d01);
    reg.set_resolution(Resolution::Sixteen);
    assert_eq!(reg.raw(), 0x1101);
    reg.set_access_pattern(AccessPattern::Interleave);
    assert_eq!(reg.raw(), 0x0101);
    assert_eq!(reg.access_pattern(), AccessPattern::Interleave);
    assert_eq!(Resolution::from_code(3), Resolution::Nineteen);
    assert_eq!(Resolution::Seventeen.to_code(), 1);
}

#[test]
fn boolean_control_setters() {
    let mut reg = ControlRegister::from_raw(0x0000);
    reg.set_use_subpages(true);
    reg.set_data_hold(true);
    reg.set_subpage_repeat(true);
    assert_eq!(reg.raw(), 0x000d);
    reg.set_data_hold(false);
    assert_eq!(reg.raw(), 0x0009);
    assert!(reg.use_subpages());
    assert!(!reg.data_hold());
    assert!(reg.subpage_repeat());
}

#[test]
fn subpage_field() {
    let mut reg = ControlRegister::from_raw(0x1901);
    reg.set_subpage(Subpage::One);
    assert_eq!(reg.raw(), 0x1911);
    assert_eq!(reg.subpage(), Subpage::One);
    reg.set_subpage(Subpage::Zero);
    assert_eq!(reg.raw(), 0x1901);
    // A field holding a value other than 0 or 1 reads as subpage one.
    assert_eq!(ControlRegister::from_raw(0x0030).subpage(), Subpage::One);
}

#[test]
fn reserved_control_bits_survive_updates() {
    let mut reg = ControlRegister::from_raw(0xe002);
    reg.apply(ControlField::FrameRate(FrameRate::Sixteen));
    reg.apply(ControlField::UseSubpages(true));
    reg.apply(ControlField::AccessPattern(AccessPattern::Chess));
    assert_eq!(reg.raw() & 0xe002, 0xe002);
    assert_eq!(reg.raw(), 0xe002 | 0x0280 | 0x0001 | 0x1000);
}

#[test]
fn control_field_holds() {
    let reg = ControlRegister::from_raw(0x1901);
    assert!(reg.holds(ControlField::FrameRate(FrameRate::Two)));
    assert!(!reg.holds(ControlField::FrameRate(FrameRate::Four)));
    assert!(reg.holds(ControlField::UseSubpages(true)));
    assert!(reg.holds(ControlField::DataHold(false)));
    assert!(reg.holds(ControlField::Subpage(Subpage::Zero)));
    assert!(!reg.holds(ControlField::Resolution(Resolution::Nineteen)));
}

#[test]
fn status_register_fields() {
    let reg = StatusRegister::from_raw(0x0009);
    assert_eq!(reg.last_updated_subpage(), Subpage::One);
    assert!(reg.new_data());
    assert!(!reg.overwrite_enabled());
    assert!(!reg.start_measurement());
    let reg = StatusRegister::from_raw(0x0010);
    assert_eq!(reg.last_updated_subpage(), Subpage::Zero);
    assert!(!reg.new_data());
    assert!(reg.overwrite_enabled());
}

#[test]
fn status_register_setters() {
    let mut reg = StatusRegister::from_raw(0x0009);
    reg.reset_new_data();
    assert_eq!(reg.raw(), 0x0001);
    reg.set_overwrite_enabled(true);
    assert_eq!(reg.raw(), 0x0011);
    reg.set_start_measurement();
    assert_eq!(reg.raw(), 0x0031);
    reg.set_overwrite_enabled(false);
    assert_eq!(reg.raw(), 0x0021);
    assert_eq!(reg.last_updated_subpage(), Subpage::One);
}

#[test]
fn enum_codes() {
    assert_eq!(Subpage::from_code(0), Subpage::Zero);
    assert_eq!(Subpage::from_code(1), Subpage::One);
    assert_eq!(Subpage::One.to_code(), 1);
    assert_eq!(AccessPattern::from_code(1), AccessPattern::Chess);
    assert_eq!(AccessPattern::Interleave.to_code(), 0);
}
