//! Driver for the barometric pressure/temperature chip.
//!
//! Construction verifies the chip's identity, reads and decodes the factory
//! calibration block, and applies the initial configuration; any fault
//! aborts construction, so no partially-initialized driver exists.
//! Sampling triggers a forced conversion where the chip is not in
//! continuous mode, waits out the worst-case conversion time, and reads the
//! two 20-bit raw ADC codes. Conversion of raw codes to physical units is
//! the caller's floating-point compensation step; this driver hands out the
//! exact codes and holds the coefficients the formula needs.

use vstd::prelude::*;

use crate::bus::SharedBus;
use crate::calibration::{decode_calibration, CalibrationData, CALIB_DATA_SIZE};
use crate::fault::{construction_fault_spec, AcquisitionFault};
use crate::transport::{
    check_identity, write_read_transaction, write_transaction, write_write_transaction,
    BusTransport,
};

verus! {

/// Bus address of the barometric chip.
pub const BMP280_I2C_ADDR: u16 = 0x77;

/// Register holding the chip's identity byte.
pub const BMP280_CHIP_ID_REG_ADDR: u8 = 0xd0;

/// Identity byte the chip must answer with.
pub const BMP280_CHIP_ID_EXPECTED: u8 = 0x58;

/// First register of the factory calibration block.
pub const BMP280_CALIB_REG_ADDR: u8 = 0x88;

/// Control register packing the two oversampling factors and the power
/// mode.
pub const BMP280_CTRL_MEAS_REG_ADDR: u8 = 0xf4;

/// Configuration register packing standby interval and filter coefficient.
pub const BMP280_CONFIG_REG_ADDR: u8 = 0xf5;

/// First data register; six contiguous bytes hold both raw codes.
pub const BMP280_DATA_REG_ADDR: u8 = 0xf7;

/// Length in bytes of the data-register read.
pub const BMP280_DATA_REG_SIZE: usize = 6;

/// Raw ADC codes are 20 bits wide; every code is below this bound.
pub const BMP280_RAW_CODE_LIMIT: u32 = 0x100000;

/// Standby interval between conversions in continuous mode.
#[derive(Clone, Copy, Debug, PartialEq, Eq, Structural)]
pub enum StandbyTime {
    Time0_5ms,
    Time62_5ms,
    Time125ms,
    Time250ms,
    Time500ms,
    Time1000ms,
    Time2000ms,
    Time4000ms,
}

impl StandbyTime {
    /// The 3-bit field value the configuration register stores.
    pub open spec fn code_spec(self) -> u8 {
        match self {
            StandbyTime::Time0_5ms => 0,
            StandbyTime::Time62_5ms => 1,
            StandbyTime::Time125ms => 2,
            StandbyTime::Time250ms => 3,
            StandbyTime::Time500ms => 4,
            StandbyTime::Time1000ms => 5,
            StandbyTime::Time2000ms => 6,
            StandbyTime::Time4000ms => 7,
        }
    }

    /// Executable twin of `code_spec`.
    pub fn code(self) -> (c: u8)
        ensures
            c == self.code_spec(),
    {
        match self {
            StandbyTime::Time0_5ms => 0,
            StandbyTime::Time62_5ms => 1,
            StandbyTime::Time125ms => 2,
            StandbyTime::Time250ms => 3,
            StandbyTime::Time500ms => 4,
            StandbyTime::Time1000ms => 5,
            StandbyTime::Time2000ms => 6,
            StandbyTime::Time4000ms => 7,
        }
    }
}

/// Low-pass filter coefficient applied by the chip to successive samples.
#[derive(Clone, Copy, Debug, PartialEq, Eq, Structural)]
pub enum IIRCoeficient {
    Off,
    Mult2X,
    Mult4X,
    Mult8X,
    Mult16X,
}

impl IIRCoeficient {
    /// The 3-bit field value the configuration register stores.
    pub open spec fn code_spec(self) -> u8 {
        match self {
            IIRCoeficient::Off => 1,
            IIRCoeficient::Mult2X => 2,
            IIRCoeficient::Mult4X => 3,
            IIRCoeficient::Mult8X => 4,
            IIRCoeficient::Mult16X => 5,
        }
    }

    /// Executable twin of `code_spec`.
    pub fn code(self) -> (c: u8)
        ensures
            c == self.code_spec(),
    {
        match self {
            IIRCoeficient::Off => 1,
            IIRCoeficient::Mult2X => 2,
            IIRCoeficient::Mult4X => 3,
            IIRCoeficient::Mult8X => 4,
            IIRCoeficient::Mult16X => 5,
        }
    }
}

/// Oversampling factor for one measured quantity: how many samples the
/// chip averages per conversion.
#[derive(Clone, Copy, Debug, PartialEq, Eq, Structural)]
pub enum Oversampling {
    Mult1X,
    Mult2X,
    Mult4X,
    Mult8X,
    Mult16X,
}

impl Oversampling {
    /// The 3-bit field value the control register stores.
    pub open spec fn code_spec(self) -> u8 {
        match self {
            Oversampling::Mult1X => 1,
            Oversampling::Mult2X => 2,
            Oversampling::Mult4X => 3,
            Oversampling::Mult8X => 4,
            Oversampling::Mult16X => 5,
        }
    }

    /// Executable twin of `code_spec`.
    pub fn code(self) -> (c: u8)
        ensures
            c == self.code_spec(),
    {
        match self {
            Oversampling::Mult1X => 1,
            Oversampling::Mult2X => 2,
            Oversampling::Mult4X => 3,
            Oversampling::Mult8X => 4,
            Oversampling::Mult16X => 5,
        }
    }

    /// The number of samples taken per conversion.
    pub open spec fn factor_spec(self) -> u8 {
        match self {
            Oversampling::Mult1X => 1,
            Oversampling::Mult2X => 2,
            Oversampling::Mult4X => 4,
            Oversampling::Mult8X => 8,
            Oversampling::Mult16X => 16,
        }
    }

    /// Executable twin of `factor_spec`.
    pub fn factor(self) -> (f: u8)
        ensures
            f == self.factor_spec(),
    {
        match self {
            Oversampling::Mult1X => 1,
            Oversampling::Mult2X => 2,
            Oversampling::Mult4X => 4,
            Oversampling::Mult8X => 8,
            Oversampling::Mult16X => 16,
        }
    }
}

/// Power mode of the chip: no conversions, one conversion per explicit
/// trigger (after which the chip returns to sleep by itself), or continuous
/// periodic conversion on the chip's own schedule.
#[derive(Clone, Copy, Debug, PartialEq, Eq, Structural)]
pub enum Mode {
    Sleep,
    Forced,
    Normal,
}

impl Mode {
    /// The 2-bit field value the control register stores.
    pub open spec fn code_spec(self) -> u8 {
        match self {
            Mode::Sleep => 0,
            Mode::Forced => 1,
            Mode::Normal => 3,
        }
    }

    /// Executable twin of `code_spec`.
    pub fn code(self) -> (c: u8)
        ensures
            c == self.code_spec(),
    {
        match self {
            Mode::Sleep => 0,
            Mode::Forced => 1,
            Mode::Normal => 3,
        }
    }
}

/// The control register's packing: temperature oversampling in the top
/// three bits, pressure oversampling in the next three, mode in the bottom
/// two.
pub open spec fn ctrl_meas_value_spec(press: Oversampling, temp: Oversampling, mode: Mode) -> u8 {
    (temp.code_spec() * 32 + press.code_spec() * 4 + mode.code_spec()) as u8
}

/// Packs oversampling factors and power mode into the control register.
/// The value equals the bit-field form: the codes shifted into their
/// disjoint fields and OR-ed together.
pub fn ctrl_meas_value(press: Oversampling, temp: Oversampling, mode: Mode) -> (v: u8)
    ensures
        v == ctrl_meas_value_spec(press, temp, mode),
        v == ((temp.code_spec() << 5) | (press.code_spec() << 2) | mode.code_spec()),
{
    proof {
        let t = temp.code_spec();
        let p = press.code_spec();
        let m = mode.code_spec();
        assert(((t * 32 + p * 4 + m) as u8) == ((t << 5) | (p << 2) | m)) by (bit_vector)
            requires
                t <= 5,
                p <= 5,
                m <= 3,
        ;
    }
    temp.code() * 32 + press.code() * 4 + mode.code()
}

/// The configuration register's packing: standby interval in the top three
/// bits, filter coefficient in the next three.
pub open spec fn config_value_spec(standby: StandbyTime, filter: IIRCoeficient) -> u8 {
    (standby.code_spec() * 32 + filter.code_spec() * 4) as u8
}

/// Packs standby interval and filter coefficient into the configuration
/// register. The value equals the bit-field form: the codes shifted into
/// their disjoint fields and OR-ed together.
pub fn config_value(standby: StandbyTime, filter: IIRCoeficient) -> (v: u8)
    ensures
        v == config_value_spec(standby, filter),
        v == ((standby.code_spec() << 5) | (filter.code_spec() << 2)),
{
    proof {
        let s = standby.code_spec();
        let f = filter.code_spec();
        assert(((s * 32 + f * 4) as u8) == ((s << 5) | (f << 2))) by (bit_vector)
            requires
                s <= 7,
                f <= 5,
        ;
    }
    standby.code() * 32 + filter.code() * 4
}

/// Worst-case conversion time of one forced sample, in tenths of a
/// millisecond: 2.2 ms per pressure sample and 4.3 ms per temperature
/// sample — the per-sample bounds of the chip's measurement-time table —
/// plus a 2 ms margin.
pub open spec fn settle_tenths_spec(press: Oversampling, temp: Oversampling) -> int {
    22 * press.factor_spec() + 43 * temp.factor_spec() + 20
}

/// The settle wait in whole milliseconds: the worst-case conversion time
/// rounded up, so the wait covers the worst case without polling a
/// data-ready bit.
pub open spec fn settle_time_ms_spec(press: Oversampling, temp: Oversampling) -> int {
    (settle_tenths_spec(press, temp) + 9) / 10
}

/// Computes the settle wait after triggering a forced conversion. The wait
/// is at least the worst-case conversion time and overshoots it by less
/// than a millisecond.
pub fn settle_time_ms(press: Oversampling, temp: Oversampling) -> (ms: u64)
    ensures
        ms == settle_time_ms_spec(press, temp),
        10 * ms >= settle_tenths_spec(press, temp),
        10 * ms < settle_tenths_spec(press, temp) + 10,
{
    let tenths: u64 = 22 * (press.factor() as u64) + 43 * (temp.factor() as u64) + 20;
    (tenths + 9) / 10
}

/// The 20-bit raw ADC code packed big-endian into three data-register
/// bytes: the third byte contributes only its top four bits.
pub open spec fn raw_code_20_spec(b0: u8, b1: u8, b2: u8) -> u32 {
    (b0 * 4096 + b1 * 16 + b2 / 16) as u32
}

/// Extracts the two 20-bit raw codes from the six data-register bytes:
/// bytes 0–2 the pressure code, bytes 3–5 the temperature code, identically
/// packed. Each code equals the bit-field form: the first two bytes shifted
/// left by 12 and 4, OR-ed with the third byte shifted right by 4.
pub fn raw_codes_from_block(block: &[u8]) -> (r: (u32, u32))
    requires
        block@.len() == BMP280_DATA_REG_SIZE,
    ensures
        r.0 == raw_code_20_spec(block@[0], block@[1], block@[2]),
        r.1 == raw_code_20_spec(block@[3], block@[4], block@[5]),
        r.0 == (((block@[0] as u32) << 12) | ((block@[1] as u32) << 4) | ((block@[2] as u32)
            >> 4)),
        r.1 == (((block@[3] as u32) << 12) | ((block@[4] as u32) << 4) | ((block@[5] as u32)
            >> 4)),
        r.0 < BMP280_RAW_CODE_LIMIT,
        r.1 < BMP280_RAW_CODE_LIMIT,
{
    proof {
        assert(forall|b0: u8, b1: u8, b2: u8|
            ((b0 as u32) * 4096 + (b1 as u32) * 16 + (b2 as u32) / 16) == #[trigger] (((
            b0 as u32) << 12) | ((b1 as u32) << 4) | ((b2 as u32) >> 4))) by (bit_vector);
    }
    let press: u32 = block[0] as u32 * 4096 + block[1] as u32 * 16 + block[2] as u32 / 16;
    let temp: u32 = block[3] as u32 * 4096 + block[4] as u32 * 16 + block[5] as u32 / 16;
    (press, temp)
}

/// The barometric chip driver. A value of this type exists only after the
/// chip's identity was verified and its calibration block decoded; it holds
/// the last-applied configuration so sampling can compute mode-dependent
/// behaviour without re-querying the chip.
pub struct Bmp280 {
    /// Coefficients decoded once from the chip at construction.
    pub calib: CalibrationData,
    /// Standby interval last applied.
    pub standby_time: StandbyTime,
    /// Filter coefficient last applied.
    pub iir_coef: IIRCoeficient,
    /// Pressure oversampling last applied.
    pub press_oversampling: Oversampling,
    /// Temperature oversampling last applied.
    pub temp_oversampling: Oversampling,
    /// Power mode last applied.
    pub mode: Mode,
}

impl Bmp280 {
    /// Constructs the driver: verifies the chip identity, decodes the
    /// factory calibration block, and applies the initial configuration.
    /// A wrong identity byte fails with `UnexpectedDevice` before any
    /// calibration read-out is attempted; any transport fault aborts
    /// construction. No partially-initialized driver is ever produced.
    pub fn new<T: BusTransport>(
        bus: &SharedBus<T>,
        standby_time: StandbyTime,
        iir_coef: IIRCoeficient,
        press_oversampling: Oversampling,
        temp_oversampling: Oversampling,
        mode: Mode,
    ) -> (r: Result<Bmp280, AcquisitionFault>)
        ensures
            r matches Ok(b) ==> b.standby_time == standby_time && b.iir_coef == iir_coef
                && b.press_oversampling == press_oversampling && b.temp_oversampling
                == temp_oversampling && b.mode == mode,
            r matches Err(f) ==> construction_fault_spec(f, BMP280_CHIP_ID_EXPECTED),
    {
        let id_segs = write_read_transaction(vec![BMP280_CHIP_ID_REG_ADDR], 1);
        let id_replies = match bus.transfer(BMP280_I2C_ADDR, &id_segs) {
            Ok(replies) => replies,
            Err(f) => {
                return Err(f);
            },
        };
        match check_identity(BMP280_CHIP_ID_EXPECTED, id_replies[0][0]) {
            Ok(()) => {},
            Err(f) => {
                return Err(f);
            },
        }

        let calib_segs = write_read_transaction(vec![BMP280_CALIB_REG_ADDR], CALIB_DATA_SIZE);
        let calib_replies = match bus.transfer(BMP280_I2C_ADDR, &calib_segs) {
            Ok(replies) => replies,
            Err(f) => {
                return Err(f);
            },
        };
        let calib = decode_calibration(calib_replies[0].as_slice());

        let mut bmp = Bmp280 {
            calib,
            standby_time,
            iir_coef,
            press_oversampling,
            temp_oversampling,
            mode,
        };
        match bmp.reconfigure(
            bus,
            standby_time,
            iir_coef,
            press_oversampling,
            temp_oversampling,
            mode,
        ) {
            Ok(()) => Ok(bmp),
            Err(f) => Err(f),
        }
    }

    /// Packs the given configuration into the two registers and writes both
    /// in one transaction. Idempotent; callable at any time after
    /// construction without re-verifying identity or re-reading
    /// calibration. The stored configuration follows the chip: it changes
    /// exactly when the write succeeded.
    pub fn reconfigure<T: BusTransport>(
        &mut self,
        bus: &SharedBus<T>,
        standby_time: StandbyTime,
        iir_coef: IIRCoeficient,
        press_oversampling: Oversampling,
        temp_oversampling: Oversampling,
        mode: Mode,
    ) -> (r: Result<(), AcquisitionFault>)
        ensures
            final(self).calib == old(self).calib,
            r is Ok ==> *final(self) == (Bmp280 {
                calib: old(self).calib,
                standby_time,
                iir_coef,
                press_oversampling,
                temp_oversampling,
                mode,
            }),
            r matches Err(f) ==> *final(self) == *old(self) && f is TransportFault,
    {
        let ctrl_meas = ctrl_meas_value(press_oversampling, temp_oversampling, mode);
        let config = config_value(standby_time, iir_coef);
        let segs = write_write_transaction(
            vec![BMP280_CTRL_MEAS_REG_ADDR, ctrl_meas],
            vec![BMP280_CONFIG_REG_ADDR, config],
        );
        match bus.transfer(BMP280_I2C_ADDR, &segs) {
            Ok(_) => {
                self.standby_time = standby_time;
                self.iir_coef = iir_coef;
                self.press_oversampling = press_oversampling;
                self.temp_oversampling = temp_oversampling;
                self.mode = mode;
                Ok(())
            },
            Err(f) => Err(f),
        }
    }

    /// Takes one pressure/temperature sample and returns the two raw 20-bit
    /// ADC codes, pressure first. Outside continuous mode, a forced
    /// conversion is triggered first — oversampling preserved — and the
    /// worst-case settle time is waited out; in continuous mode a
    /// conversion is already in flight on the chip's own schedule, so the
    /// data registers are read directly. Calibration that would make the
    /// compensation formula divide by zero is refused up front, before any
    /// bus traffic, and no raw codes are produced from it.
    pub fn query_press_and_temp<T: BusTransport>(&self, bus: &SharedBus<T>) -> (r: Result<
        (u32, u32),
        AcquisitionFault,
    >)
        ensures
            r matches Ok(codes) ==> codes.0 < BMP280_RAW_CODE_LIMIT && codes.1
                < BMP280_RAW_CODE_LIMIT,
            (r matches Err(AcquisitionFault::InvalidCalibration)) <==> self.calib.dig_p1 == 0,
            r matches Err(f) ==> !(f is UnexpectedDevice),
    {
        if self.calib.dig_p1 == 0 {
            return Err(AcquisitionFault::InvalidCalibration);
        }

        if !matches!(self.mode, Mode::Normal) {
            let trigger = ctrl_meas_value(
                self.press_oversampling,
                self.temp_oversampling,
                Mode::Forced,
            );
            let trigger_segs = write_transaction(vec![BMP280_CTRL_MEAS_REG_ADDR, trigger]);
            match bus.transfer(BMP280_I2C_ADDR, &trigger_segs) {
                Ok(_) => {},
                Err(f) => {
                    return Err(f);
                },
            }
            let wait = settle_time_ms(self.press_oversampling, self.temp_oversampling);
            bus.wait_ms(wait);
        }

        let data_segs = write_read_transaction(vec![BMP280_DATA_REG_ADDR], BMP280_DATA_REG_SIZE);
        let data_replies = match bus.transfer(BMP280_I2C_ADDR, &data_segs) {
            Ok(replies) => replies,
            Err(f) => {
                return Err(f);
            },
        };
        let codes = raw_codes_from_block(data_replies[0].as_slice());
        Ok(codes)
    }
}

} // verus!
