//! Register values of a 16550-style serial port: which register an access
//! reaches, the divisor that gives a baud rate, and the status bits.
use vstd::prelude::*;

verus! {

/// The base I/O ports of the four standard serial ports.
pub const COM1_PORT: u16 = 0x3F8;
pub const COM2_PORT: u16 = 0x2F8;
pub const COM3_PORT: u16 = 0x3E8;
pub const COM4_PORT: u16 = 0x2E8;

/// The clock that the divisor divides.
pub const CLOCK_BASE: u32 = 115200;

/// The FIFO control value written at start-up: FIFOs on and cleared, with a
/// 14-byte trigger level.
pub const FIFO_SETUP: u8 = 0xC7;

/// The port's registers.
#[derive(Clone, Copy, Debug, PartialEq, Eq, Structural)]
pub enum Register {
    Data,
    DivisorLatchHigh,
    DivisorLatchLow,
    InterruptEnable,
    LineControl,
    LineStatus,
    FifoControl,
    Scratch,
}

/// The register's offset from the port's base.
pub open spec fn offset_of(r: Register) -> u16 {
    match r {
        Register::Data => 0,
        Register::DivisorLatchHigh => 1,
        Register::DivisorLatchLow => 0,
        Register::InterruptEnable => 1,
        Register::LineControl => 3,
        Register::LineStatus => 5,
        Register::FifoControl => 2,
        Register::Scratch => 7,
    }
}

/// Whether the register is reached only while the divisor latch access bit
/// of the line control register is set.
pub open spec fn behind_latch(r: Register) -> bool {
    r == Register::DivisorLatchHigh || r == Register::DivisorLatchLow
}

/// The I/O port of register `r` of the port at `base`.
pub fn register_port(base: u16, r: Register) -> (p: u16)
    requires
        base + 7 <= u16::MAX,
    ensures
        p == base + offset_of(r),
{
    let offset: u16 = match r {
        Register::Data => 0,
        Register::DivisorLatchHigh => 1,
        Register::DivisorLatchLow => 0,
        Register::InterruptEnable => 1,
        Register::LineControl => 3,
        Register::LineStatus => 5,
        Register::FifoControl => 2,
        Register::Scratch => 7,
    };
    base + offset
}

/// Whether the register is reached only behind the divisor latch.
pub fn needs_latch(r: Register) -> (b: bool)
    ensures
        b == behind_latch(r),
{
    match r {
        Register::DivisorLatchHigh | Register::DivisorLatchLow => true,
        _ => false,
    }
}

/// The line control value with the divisor latch access bit set.
pub fn with_latch(lcr: u8) -> (r: u8)
    ensures
        r == lcr | 0x80,
{
    lcr | 0x80
}

/// The line control value with the divisor latch access bit clear.
pub fn without_latch(lcr: u8) -> (r: u8)
    ensures
        r == lcr & 0x7f,
{
    lcr & 0x7f
}

/// The divisor for `baud`: defined where `baud` divides the clock and the
/// quotient fits in 16 bits.
pub fn divisor_for_baud(baud: u32) -> (r: Option<u16>)
    ensures
        r matches Some(d) ==> baud != 0 && CLOCK_BASE % baud == 0 && d == CLOCK_BASE / baud,
        r is None ==> baud == 0 || CLOCK_BASE % baud != 0 || CLOCK_BASE / baud > u16::MAX,
{
    if baud == 0 || CLOCK_BASE % baud != 0 {
        return None;
    }
    let d = CLOCK_BASE / baud;
    if d > 0xffff {
        None
    } else {
        Some(d as u16)
    }
}

/// The baud rate that divisor `latch` gives; none for a zero divisor.
pub fn baud_for_divisor(latch: u16) -> (r: Option<u32>)
    ensures
        r matches Some(b) ==> latch != 0 && b == CLOCK_BASE / (latch as u32),
        r is None <==> latch == 0,
{
    if latch == 0 {
        None
    } else {
        Some(CLOCK_BASE / (latch as u32))
    }
}

/// The divisor's two bytes: the low byte for the low latch register, the
/// high byte for the high one.
pub fn split_divisor(latch: u16) -> (r: (u8, u8))
    ensures
        r.0 == latch % 256,
        r.1 == latch / 256,
{
    let low = (latch & 0xff) as u8;
    let high = (latch >> 8) as u8;
    assert(latch & 0xff == latch % 256 && latch >> 8 == latch / 256) by (bit_vector);
    (low, high)
}

/// The divisor that the two latch registers hold.
pub fn join_divisor(low: u8, high: u8) -> (r: u16)
    ensures
        r == high * 256 + low,
{
    let r = ((high as u16) << 8) | (low as u16);
    assert((((high as u16) << 8u16) | (low as u16)) == high as u16 * 256 + low as u16) by (bit_vector);
    r
}

/// Whether the line status value says a received byte is waiting.
pub fn has_available_byte(lsr: u8) -> (r: bool)
    ensures
        r == (lsr & 1 == 1),
{
    lsr & 1 == 1
}

/// Whether the line status value says the transmitter can take a byte.
pub fn has_write_space(lsr: u8) -> (r: bool)
    ensures
        r == (lsr & 0x20 != 0),
{
    lsr & 0x20 != 0
}

} // verus!
