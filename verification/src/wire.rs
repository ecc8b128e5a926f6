use vstd::prelude::*;

verus! {

/// The two bytes of a 16-bit word as the camera sends and expects them:
/// most significant byte first.
pub open spec fn be_bytes(v: u16) -> Seq<u8> {
    seq![(v / 256) as u8, (v % 256) as u8]
}

/// The 16-bit word whose big-endian bytes are `hi` and `lo`.
pub open spec fn be_word(hi: u8, lo: u8) -> u16 {
    (hi as int * 256 + lo as int) as u16
}

/// Bytes sent to select a register before reading it: its address, big-endian.
pub fn register_address_frame(address: u16) -> (frame: [u8; 2])
    ensures
        frame@ == be_bytes(address),
{
    let hi = (address >> 8) as u8;
    let lo = (address & 0xff) as u8;
    assert((address >> 8u16) == address / 256u16 && (address & 0xffu16) == address % 256u16)
        by (bit_vector);
    let frame = [hi, lo];
    assert(frame@ =~= be_bytes(address));
    frame
}

/// Bytes sent to write `value` into the register at `address`: the address,
/// then the value, each big-endian.
pub fn register_write_frame(address: u16, value: u16) -> (frame: [u8; 4])
    ensures
        frame@ == be_bytes(address) + be_bytes(value),
{
    let a = register_address_frame(address);
    let v = register_address_frame(value);
    let frame = [a[0], a[1], v[0], v[1]];
    assert(frame@ =~= be_bytes(address) + be_bytes(value));
    frame
}

/// The register value the camera answered with, from its two bytes.
pub fn register_value(bytes: [u8; 2]) -> (value: u16)
    ensures
        value == be_word(bytes@[0], bytes@[1]),
        value as int == bytes@[0] as int * 256 + bytes@[1] as int,
{
    let hi = bytes[0] as u16;
    let lo = bytes[1] as u16;
    hi * 256 + lo
}

/// A register word survives being sent as bytes and read back, and a pair of
/// bytes survives being read as a word and sent again.
pub proof fn lemma_register_word_round_trip(v: u16, hi: u8, lo: u8)
    ensures
        be_word(be_bytes(v)[0], be_bytes(v)[1]) == v,
        be_bytes(be_word(hi, lo)) == seq![hi, lo],
{
    assert(be_bytes(be_word(hi, lo)) =~= seq![hi, lo]);
}

} // verus!
