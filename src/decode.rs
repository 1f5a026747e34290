use vstd::prelude::*;

verus! {

/// Divisor shared by both conversions: a count `c` stands for
/// `c * 100 / FULL_SCALE` percent of relative humidity and for
/// `c * 165 / FULL_SCALE - 40` degrees Celsius.
pub const FULL_SCALE: u32 = 16382;

/// Largest value of a 14-bit count.
pub const COUNT_MAX: u16 = 16383;

/// Span of the humidity range, in percent.
pub const HUMIDITY_SPAN: u32 = 100;

/// Span of the temperature range, in degrees Celsius.
pub const TEMPERATURE_SPAN: u32 = 165;

/// Lowest temperature the sensor reports, in degrees Celsius (negated).
pub const TEMPERATURE_FLOOR: u32 = 40;

/// Sensor state reported in the two top bits of the first response byte.
#[derive(PartialEq, Eq, Structural, Clone, Copy, Debug)]
pub enum Status {
    /// Fresh data from a completed conversion.
    Normal,
    /// Data already fetched since the last conversion.
    StaleData,
    /// The sensor is in command mode; the counts carry no measurement.
    CommandMode,
    /// The diagnostic encoding; the counts carry no measurement.
    Unknown,
}

/// A decoded response: the status and the two raw 14-bit counts.
#[derive(PartialEq, Eq, Structural, Clone, Copy, Debug)]
pub struct Measurement {
    pub status: Status,
    pub humidity_count: u16,
    pub temperature_count: u16,
}

/// The status that a 2-bit field encodes; any other value reads as `Unknown`.
pub open spec fn status_spec(bits: u8) -> Status {
    if bits == 0 {
        Status::Normal
    } else if bits == 1 {
        Status::StaleData
    } else if bits == 2 {
        Status::CommandMode
    } else {
        Status::Unknown
    }
}

/// Humidity count: the low six bits of byte 0 above the eight bits of byte 1.
pub open spec fn humidity_count_spec(b0: u8, b1: u8) -> int {
    (b0 as int % 64) * 256 + b1 as int
}

/// Temperature count: the eight bits of byte 2 above the top six bits of byte 3.
pub open spec fn temperature_count_spec(b2: u8, b3: u8) -> int {
    b2 as int * 64 + b3 as int / 4
}

/// The measurement that a four-byte response encodes.
pub open spec fn decode_spec(b: [u8; 4]) -> Measurement {
    Measurement {
        status: status_spec(b[0] / 64),
        humidity_count: humidity_count_spec(b[0], b[1]) as u16,
        temperature_count: temperature_count_spec(b[2], b[3]) as u16,
    }
}

/// Relative humidity in percent, times `FULL_SCALE`.
pub open spec fn humidity_scaled_spec(c: int) -> int {
    c * HUMIDITY_SPAN as int
}

/// Temperature in degrees Celsius, times `FULL_SCALE`.
pub open spec fn temperature_scaled_spec(c: int) -> int {
    c * TEMPERATURE_SPAN as int - TEMPERATURE_FLOOR as int * FULL_SCALE as int
}

/// Every response decodes, with a status from its two top bits and two
/// counts within 14 bits; the four encodings map to the four variants in
/// order.
pub proof fn lemma_status_total(b: [u8; 4])
    ensures
        decode_spec(b).status == status_spec(b[0] / 64),
        b[0] / 64 < 4,
        status_spec(0) == Status::Normal,
        status_spec(1) == Status::StaleData,
        status_spec(2) == Status::CommandMode,
        status_spec(3) == Status::Unknown,
{
}

/// The humidity count of a response is the 14-bit value of its bits 13..0,
/// `((b0 & 0x3F) << 8) | b1`, and the humidity, `c * 100 / FULL_SCALE`
/// percent, increases strictly with the count.
pub proof fn lemma_humidity_decoding(b: [u8; 4], c1: int, c2: int)
    requires
        0 <= c1 < c2 <= COUNT_MAX,
    ensures
        decode_spec(b).humidity_count as int == humidity_count_spec(b[0], b[1]),
        0 <= humidity_count_spec(b[0], b[1]) <= COUNT_MAX,
        humidity_count_spec(b[0], b[1]) == (((b[0] & 0x3F) as u16) << 8u16 | b[1] as u16) as int,
        humidity_scaled_spec(0) == 0,
        humidity_scaled_spec(c1) < humidity_scaled_spec(c2),
{
    let b0 = b[0];
    let b1 = b[1];
    assert((((b0 & 0x3F) as u16) << 8u16 | b1 as u16) == (b0 % 64) as u16 * 256 + b1 as u16)
        by (bit_vector);
    assert(c1 * 100 < c2 * 100) by (nonlinear_arith)
        requires
            c1 < c2,
    ;
}

/// The temperature count of a response is `(b2 << 6) | (b3 >> 2)`, and the
/// temperature, `c * 165 / FULL_SCALE - 40` degrees, increases strictly with
/// the count, from exactly -40 at count 0 to its largest value at the
/// largest count.
pub proof fn lemma_temperature_decoding(b: [u8; 4], c1: int, c2: int)
    requires
        0 <= c1 < c2 <= COUNT_MAX,
    ensures
        decode_spec(b).temperature_count as int == temperature_count_spec(b[2], b[3]),
        0 <= temperature_count_spec(b[2], b[3]) <= COUNT_MAX,
        temperature_count_spec(b[2], b[3]) == ((b[2] as u16) << 6u16 | (b[3] >> 2u8) as u16) as int,
        temperature_scaled_spec(0) == -40 * FULL_SCALE,
        temperature_scaled_spec(COUNT_MAX as int) == 16383 * 165 - 40 * FULL_SCALE,
        temperature_scaled_spec(c1) < temperature_scaled_spec(c2),
        temperature_scaled_spec(0) <= temperature_scaled_spec(c1),
        temperature_scaled_spec(c2) <= temperature_scaled_spec(COUNT_MAX as int),
{
    let b2 = b[2];
    let b3 = b[3];
    assert(((b2 as u16) << 6u16 | (b3 >> 2u8) as u16) == b2 as u16 * 64 + (b3 / 4) as u16)
        by (bit_vector);
    assert(c1 * 165 < c2 * 165 && 0 <= c1 * 165 && c2 * 165 <= 16383 * 165) by (nonlinear_arith)
        requires
            0 <= c1 < c2 <= 16383,
    ;
}

/// Maps the 2-bit status field to its variant; every byte maps to one.
pub fn decode_status(bits: u8) -> (r: Status)
    ensures
        r == status_spec(bits),
{
    match bits {
        0 => Status::Normal,
        1 => Status::StaleData,
        2 => Status::CommandMode,
        _ => Status::Unknown,
    }
}

/// Extracts the 14-bit humidity count from the first two response bytes.
pub fn humidity_count(b0: u8, b1: u8) -> (r: u16)
    ensures
        r as int == humidity_count_spec(b0, b1),
        r <= COUNT_MAX,
{
    let r: u16 = ((b0 & 0x3F) as u16) << 8u16 | b1 as u16;
    assert(r == (b0 % 64) as u16 * 256 + b1 as u16 && r <= 16383) by (bit_vector)
        requires
            r == ((b0 & 0x3F) as u16) << 8u16 | b1 as u16,
    ;
    r
}

/// Extracts the 14-bit temperature count from the last two response bytes.
pub fn temperature_count(b2: u8, b3: u8) -> (r: u16)
    ensures
        r as int == temperature_count_spec(b2, b3),
        r <= COUNT_MAX,
{
    let r: u16 = (b2 as u16) << 6u16 | (b3 >> 2u8) as u16;
    assert(r == b2 as u16 * 64 + (b3 / 4) as u16 && r <= 16383) by (bit_vector)
        requires
            r == (b2 as u16) << 6u16 | (b3 >> 2u8) as u16,
    ;
    r
}

/// Decodes a four-byte response. Decoding cannot fail.
pub fn decode(b: [u8; 4]) -> (m: Measurement)
    ensures
        m == decode_spec(b),
        m.humidity_count <= COUNT_MAX,
        m.temperature_count <= COUNT_MAX,
{
    let b0: u8 = b[0];
    let bits: u8 = (b0 >> 6u8) & 0x03u8;
    assert(bits == b0 / 64) by (bit_vector)
        requires
            bits == (b0 >> 6u8) & 0x03u8,
    ;
    Measurement {
        status: decode_status(bits),
        humidity_count: humidity_count(b[0], b[1]),
        temperature_count: temperature_count(b[2], b[3]),
    }
}

impl Measurement {
    /// Relative humidity in percent, times `FULL_SCALE`.
    pub fn humidity_scaled(&self) -> (r: u32)
        ensures
            r as int == humidity_scaled_spec(self.humidity_count as int),
    {
        self.humidity_count as u32 * HUMIDITY_SPAN
    }

    /// Temperature in degrees Celsius, times `FULL_SCALE`.
    pub fn temperature_scaled(&self) -> (r: i32)
        ensures
            r as int == temperature_scaled_spec(self.temperature_count as int),
    {
        let floor: i32 = TEMPERATURE_FLOOR as i32;
        let scale: i32 = FULL_SCALE as i32;
        assert(floor * scale == 655280) by (nonlinear_arith)
            requires
                floor == 40,
                scale == 16382,
        ;
        let offset: i32 = floor * scale;
        let c: i32 = self.temperature_count as i32;
        let span: i32 = TEMPERATURE_SPAN as i32;
        assert(0 <= c * span <= 65535 * 165) by (nonlinear_arith)
            requires
                0 <= c <= 65535,
                span == 165,
        ;
        c * span - offset
    }
}

} // verus!
