//! Driver for the ambient-light chip.
//!
//! Construction verifies the chip's identity, then powers the chip on and
//! configures integration time and gain in one multi-segment transaction,
//! using the chip's address-auto-increment command convention. Sampling
//! reads the 2-byte little-endian clear-channel raw code in one
//! transaction. No calibration coefficients are involved for this chip;
//! normalization of the raw code to a fraction of full scale is the
//! caller's floating-point step.

use vstd::prelude::*;

use crate::bus::SharedBus;
use crate::fault::{construction_fault_spec, AcquisitionFault};
use crate::transport::{
    check_identity, write_read_transaction, write_write_transaction, BusTransport,
};

verus! {

/// Bus address of the light chip.
pub const TCS3472_I2C_ADDR: u16 = 0x77;

/// Command bit: the byte addresses a register rather than data.
pub const TCS3472_CMD_REG_MASK: u8 = 0x80;

/// Command bit: auto-increment the register address after each byte.
pub const TCS3472_CMD_REG_AUTOINCREMENT: u8 = 0x20;

/// Enable register, first in the auto-increment run.
pub const TCS3472_ENABLE_REG_ADDR: u8 = 0x00;

/// Enable-register bit that starts the integration machinery.
pub const TCS3472_ENABLE_REG_AEN: u8 = 0x02;

/// Enable-register bit that powers the chip on.
pub const TCS3472_ENABLE_REG_PON: u8 = 0x01;

/// Control register holding the gain field.
pub const TCS3472_CONTROL_REG_ADDR: u8 = 0x0f;

/// Register holding the chip's identity byte.
pub const TCS3472_CHIP_ID_REG_ADDR: u8 = 0x12;

/// Identity byte the chip must answer with.
pub const TCS3472_CHIP_ID_EXPECTED: u8 = 0x44;

/// First clear-channel data register.
pub const TCS3472_CLEAR_DATA_REG_ADDR: u8 = 0x14;

/// Length in bytes of the clear-channel read.
pub const TCS3472_CLEAR_DATA_REG_SIZE: usize = 2;

/// Number of integration periods per conversion applied at construction.
pub const TCS3472_PERIOD_COUNT: u8 = 64;

/// Analog gain applied to the light signal.
#[derive(Clone, Copy, Debug, PartialEq, Eq, Structural)]
pub enum Gain {
    Mult1X,
    Mult4X,
    Mult16X,
    Mult60X,
}

impl Gain {
    /// The 2-bit field value the control register stores.
    pub open spec fn code_spec(self) -> u8 {
        match self {
            Gain::Mult1X => 0,
            Gain::Mult4X => 1,
            Gain::Mult16X => 2,
            Gain::Mult60X => 3,
        }
    }

    /// Executable twin of `code_spec`.
    pub fn code(self) -> (c: u8)
        ensures
            c == self.code_spec(),
    {
        match self {
            Gain::Mult1X => 0,
            Gain::Mult4X => 1,
            Gain::Mult16X => 2,
            Gain::Mult60X => 3,
        }
    }
}

/// A command byte addressing the given register, without auto-increment.
/// The register field occupies the bottom five bits, disjoint from the
/// command bits.
pub open spec fn command_value_spec(reg: u8) -> u8
    recommends
        reg < 0x20,
{
    (TCS3472_CMD_REG_MASK + reg) as u8
}

/// Builds a command byte for one register. The value equals the bit-field
/// form: the command bit OR-ed over the register field.
pub fn command_value(reg: u8) -> (v: u8)
    requires
        reg < 0x20,
    ensures
        v == command_value_spec(reg),
        v == (TCS3472_CMD_REG_MASK | reg),
{
    proof {
        assert(reg < 0x20 ==> ((0x80 + reg) as u8) == (0x80u8 | reg)) by (bit_vector);
    }
    TCS3472_CMD_REG_MASK + reg
}

/// A command byte addressing the given register with auto-increment, so a
/// run of bytes lands in consecutive registers.
pub open spec fn command_autoinc_value_spec(reg: u8) -> u8
    recommends
        reg < 0x20,
{
    (TCS3472_CMD_REG_MASK + TCS3472_CMD_REG_AUTOINCREMENT + reg) as u8
}

/// Builds an auto-increment command byte for one register. The value
/// equals the bit-field form: both command bits OR-ed over the register
/// field.
pub fn command_autoinc_value(reg: u8) -> (v: u8)
    requires
        reg < 0x20,
    ensures
        v == command_autoinc_value_spec(reg),
        v == (TCS3472_CMD_REG_MASK | TCS3472_CMD_REG_AUTOINCREMENT | reg),
{
    proof {
        assert(reg < 0x20 ==> ((0x80 + 0x20 + reg) as u8) == (0x80u8 | 0x20u8 | reg))
            by (bit_vector);
    }
    TCS3472_CMD_REG_MASK + TCS3472_CMD_REG_AUTOINCREMENT + reg
}

/// The integration-time register's encoding: the period count inverted,
/// per the chip's convention of counting down from the register maximum.
pub open spec fn timing_value_spec(period_count: u8) -> u8 {
    (255 - period_count) as u8
}

/// Encodes the integration-period count for the timing register. The
/// subtraction from the register maximum is exactly a bitwise inversion.
pub fn timing_value(period_count: u8) -> (v: u8)
    ensures
        v == timing_value_spec(period_count),
        v == !period_count,
{
    proof {
        assert(((255 - period_count) as u8) == !period_count) by (bit_vector);
    }
    255 - period_count
}

/// The 16-bit clear-channel raw code stored little-endian in two bytes.
pub open spec fn light_raw_spec(lo: u8, hi: u8) -> u16 {
    (lo + 256 * hi) as u16
}

/// Decodes the clear-channel raw light code from its two data bytes. The
/// value equals the bit-field form: the high byte shifted left by eight,
/// OR-ed with the low byte.
pub fn light_raw_from_bytes(lo: u8, hi: u8) -> (raw: u16)
    ensures
        raw == light_raw_spec(lo, hi),
        raw == (((hi as u16) << 8) | (lo as u16)),
{
    proof {
        assert(((lo as u16) + (hi as u16) * 256) == (((hi as u16) << 8) | (lo as u16)))
            by (bit_vector);
    }
    lo as u16 + hi as u16 * 256
}

/// The ambient-light chip driver. A value of this type exists only after
/// the chip's identity was verified and the chip was powered on and
/// configured; it holds the applied gain and integration-period count.
pub struct Tcs3472 {
    /// Analog gain applied at construction.
    pub gain: Gain,
    /// Integration periods per conversion applied at construction.
    pub period_count: u8,
}

impl Tcs3472 {
    /// Constructs the driver: verifies the chip identity, then powers the
    /// chip on and applies integration time and gain — continuous
    /// integration at 1× gain, 64 periods per integration — in one
    /// multi-segment transaction. A wrong identity byte fails with
    /// `UnexpectedDevice` before any configuration is attempted; any
    /// transport fault aborts construction.
    pub fn new<T: BusTransport>(bus: &SharedBus<T>) -> (r: Result<Tcs3472, AcquisitionFault>)
        ensures
            r matches Ok(t) ==> t.gain == Gain::Mult1X && t.period_count == TCS3472_PERIOD_COUNT,
            r matches Err(f) ==> construction_fault_spec(f, TCS3472_CHIP_ID_EXPECTED),
    {
        let id_segs = write_read_transaction(vec![command_value(TCS3472_CHIP_ID_REG_ADDR)], 1);
        let id_replies = match bus.transfer(TCS3472_I2C_ADDR, &id_segs) {
            Ok(replies) => replies,
            Err(f) => {
                return Err(f);
            },
        };
        match check_identity(TCS3472_CHIP_ID_EXPECTED, id_replies[0][0]) {
            Ok(()) => {},
            Err(f) => {
                return Err(f);
            },
        }

        let gain = Gain::Mult1X;
        let config_segs = write_write_transaction(
            vec![
                command_autoinc_value(TCS3472_ENABLE_REG_ADDR),
                TCS3472_ENABLE_REG_AEN + TCS3472_ENABLE_REG_PON,
                timing_value(TCS3472_PERIOD_COUNT),
            ],
            vec![command_value(TCS3472_CONTROL_REG_ADDR), gain.code()],
        );
        match bus.transfer(TCS3472_I2C_ADDR, &config_segs) {
            Ok(_) => Ok(Tcs3472 { gain, period_count: TCS3472_PERIOD_COUNT }),
            Err(f) => Err(f),
        }
    }

    /// Reads the 2-byte little-endian clear-channel raw light code in one
    /// transaction. The only failure a sample can surface is a transport
    /// fault; every 16-bit code is a valid reading.
    pub fn query_light_level<T: BusTransport>(&self, bus: &SharedBus<T>) -> (r: Result<
        u16,
        AcquisitionFault,
    >)
        ensures
            r matches Err(f) ==> f is TransportFault,
    {
        let data_segs = write_read_transaction(
            vec![command_autoinc_value(TCS3472_CLEAR_DATA_REG_ADDR)],
            TCS3472_CLEAR_DATA_REG_SIZE,
        );
        let data_replies = match bus.transfer(TCS3472_I2C_ADDR, &data_segs) {
            Ok(replies) => replies,
            Err(f) => {
                return Err(f);
            },
        };
        let raw = light_raw_from_bytes(data_replies[0][0], data_replies[0][1]);
        Ok(raw)
    }
}

} // verus!
