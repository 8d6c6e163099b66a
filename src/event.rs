//! The fixed-layout input-event record of the source device: 16 bytes,
//! little-endian, an 8-byte timestamp (ignored) followed by a `u16` type,
//! a `u16` code and an `i32` value.
use vstd::prelude::*;

verus! {

/// Size in bytes of one wire record.
pub const INPUT_EVENT_SIZE: usize = 16;

/// Event type of synchronisation markers.
pub const EV_SYN: u16 = 0x00;

/// Event type of keys and buttons.
pub const EV_KEY: u16 = 0x01;

/// Event type of relative axes.
pub const EV_REL: u16 = 0x02;

/// Event type of absolute axes.
pub const EV_ABS: u16 = 0x03;

/// Report boundary code within `EV_SYN`.
pub const SYN_REPORT: u16 = 0;

/// Multitouch slot selection.
pub const ABS_MT_SLOT: u16 = 0x2f;

/// Multitouch x position of the selected slot.
pub const ABS_MT_POSITION_X: u16 = 0x35;

/// Multitouch y position of the selected slot.
pub const ABS_MT_POSITION_Y: u16 = 0x36;

/// Multitouch tracking id of the selected slot; negative means lifted.
pub const ABS_MT_TRACKING_ID: u16 = 0x39;

/// Pen pressure.
pub const ABS_PRESSURE: u16 = 0x18;

/// Relative horizontal motion.
pub const REL_X: u16 = 0x00;

/// Relative vertical motion.
pub const REL_Y: u16 = 0x01;

/// Horizontal scroll wheel.
pub const REL_HWHEEL: u16 = 0x06;

/// Vertical scroll wheel.
pub const REL_WHEEL: u16 = 0x08;

/// Left button.
pub const BTN_LEFT: u16 = 0x110;

/// Contact with the surface.
pub const BTN_TOUCH: u16 = 0x14a;

/// One decoded `(type, code, value)` input record.
#[derive(Clone, Copy, Debug, PartialEq, Eq, Structural)]
pub struct RawEvent {
    pub type_: u16,
    pub code: u16,
    pub value: i32,
}

/// The unsigned 16-bit number whose little-endian bytes are `b0, b1`.
pub open spec fn le_u16(b0: u8, b1: u8) -> u16 {
    (b0 as int + 256 * b1 as int) as u16
}

/// The unsigned 32-bit number whose little-endian bytes are `b0 .. b3`.
pub open spec fn le_u32(b0: u8, b1: u8, b2: u8, b3: u8) -> u32 {
    (b0 as int + 256 * b1 as int + 65536 * b2 as int + 16777216 * b3 as int) as u32
}

/// The event that the first 16 bytes of `b` encode.
pub open spec fn decoded(b: Seq<u8>) -> RawEvent {
    RawEvent {
        type_: le_u16(b[8], b[9]),
        code: le_u16(b[10], b[11]),
        value: le_u32(b[12], b[13], b[14], b[15]) as i32,
    }
}

/// What decoding `b` yields: nothing while fewer than 16 bytes are there.
pub open spec fn decode_spec(b: Seq<u8>) -> Option<RawEvent> {
    if b.len() < INPUT_EVENT_SIZE {
        None
    } else {
        Some(decoded(b))
    }
}

pub open spec fn key_spec(code: u16, value: i32) -> RawEvent {
    RawEvent { type_: EV_KEY, code, value }
}

pub open spec fn rel_spec(code: u16, value: i32) -> RawEvent {
    RawEvent { type_: EV_REL, code, value }
}

pub open spec fn syn_report_spec() -> RawEvent {
    RawEvent { type_: EV_SYN, code: SYN_REPORT, value: 0 }
}

/// Parses one record from the front of `buf`; `None` means that more bytes
/// must be gathered first.
pub fn parse_input_event(buf: &[u8]) -> (r: Option<RawEvent>)
    ensures
        r == decode_spec(buf@),
{
    if buf.len() < INPUT_EVENT_SIZE {
        return None;
    }
    let ty: u16 = buf[8] as u16 + 256 * (buf[9] as u16);
    let code: u16 = buf[10] as u16 + 256 * (buf[11] as u16);
    let raw: u32 = buf[12] as u32 + 256 * (buf[13] as u32) + 65536 * (buf[14] as u32)
        + 16777216 * (buf[15] as u32);
    let value: i32 = #[verifier::truncate] (raw as i32);
    Some(RawEvent { type_: ty, code, value })
}

/// A key or button event.
pub fn key_event(code: u16, value: i32) -> (r: RawEvent)
    ensures
        r == key_spec(code, value),
{
    RawEvent { type_: EV_KEY, code, value }
}

/// A relative-axis event.
pub fn rel_event(code: u16, value: i32) -> (r: RawEvent)
    ensures
        r == rel_spec(code, value),
{
    RawEvent { type_: EV_REL, code, value }
}

/// The report-boundary marker.
pub fn syn_report() -> (r: RawEvent)
    ensures
        r == syn_report_spec(),
{
    RawEvent { type_: EV_SYN, code: SYN_REPORT, value: 0 }
}

/// The wire record of `e`, with a zero timestamp.
pub open spec fn encoded(e: RawEvent) -> Seq<u8> {
    let v = e.value as u32;
    Seq::new(8, |i: int| 0u8) + seq![
        (e.type_ % 256) as u8,
        (e.type_ / 256) as u8,
        (e.code % 256) as u8,
        (e.code / 256) as u8,
        (v % 256) as u8,
        (v / 256 % 256) as u8,
        (v / 65536 % 256) as u8,
        (v / 16777216) as u8
    ]
}

impl RawEvent {
    /// The wire record of this event, with a zero timestamp.
    pub fn to_bytes(&self) -> (r: Vec<u8>)
        ensures
            r@ == encoded(*self),
    {
        let mut r: Vec<u8> = Vec::new();
        let mut i: usize = 0;
        while i < 8
            invariant
                i <= 8,
                r@ == Seq::new(i as nat, |j: int| 0u8),
            decreases 8 - i,
        {
            r.push(0u8);
            i = i + 1;
            assert(r@ =~= Seq::new(i as nat, |j: int| 0u8));
        }
        let u: u32 = #[verifier::truncate] (self.value as u32);
        r.push((self.type_ % 256) as u8);
        r.push((self.type_ / 256) as u8);
        r.push((self.code % 256) as u8);
        r.push((self.code / 256) as u8);
        r.push((u % 256) as u8);
        r.push((u / 256 % 256) as u8);
        r.push((u / 65536 % 256) as u8);
        r.push((u / 16777216) as u8);
        assert(r@ =~= encoded(*self));
        r
    }
}

/// Decoding a record and building an event of the decoded type again gives
/// back the same `(type, code, value)` triple; for report markers this holds
/// of the canonical marker, whose value is zero.
pub proof fn lemma_decode_then_encode(b: Seq<u8>)
    requires
        b.len() >= INPUT_EVENT_SIZE,
    ensures
        ({
            let e = decode_spec(b).unwrap();
            &&& decode_spec(b).is_some()
            &&& e.type_ == EV_KEY ==> key_spec(e.code, e.value) == e
            &&& e.type_ == EV_REL ==> rel_spec(e.code, e.value) == e
            &&& e.type_ == EV_SYN && e.code == SYN_REPORT && e.value == 0
                ==> syn_report_spec() == e
        }),
{
}

/// Encoding an event to its wire record and decoding that record gives the
/// event back.
pub proof fn lemma_encode_then_decode(e: RawEvent)
    ensures
        decode_spec(encoded(e)) == Some(e),
{
    let b = encoded(e);
    let v = e.value as u32;
    assert(b.len() == INPUT_EVENT_SIZE);
    assert(b[12] == (v % 256) as u8);
    assert(b[13] == (v / 256 % 256) as u8);
    assert(b[14] == (v / 65536 % 256) as u8);
    assert(b[15] == (v / 16777216) as u8);
    assert(le_u32(b[12], b[13], b[14], b[15]) == v);
    let w = e.value;
    assert((w as u32) as i32 == w) by (bit_vector);
}

} // verus!
