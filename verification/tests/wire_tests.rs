use mlx9064x::wire::register_address_frame;
use mlx9064x::wire::register_value;
use mlx9064x::wire::register_write_frame;

#[test]
fn address_frame_is_big_endian() {
    assert_eq!(register_address_frame(0x800D), [0x80, 0x0D]);
    assert_eq!(register_address_frame(0x8000), [0x80, 0x00]);
}

#[test]
fn write_frame_is_address_then_value() {
    assert_eq!(register_write_frame(0x800D, 0x1901), [0x80, 0x0D, 0x19, 0x01]);
    assert_eq!(register_write_frame(0x8000, 0x0031), [0x80, 0x00, 0x00, 0x31]);
}

#[test]
fn value_from_bytes() {
    assert_eq!(register_value([0x19, 0x01]), 0x1901);
    assert_eq!(register_value([0xff, 0xff]), 0xffff);
    assert_eq!(register_value([0x00, 0x00]), 0);
}

#[test]
fn word_round_trip() {
    for v in [0u16, 1, 0x00ff, 0x0100, 0x1901, 0x800d, 0xffff] {
        let f = register_address_frame(v);
        assert_eq!(register_value(f), v);
    }
}
