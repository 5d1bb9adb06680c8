//! The measurement facade: one immutable snapshot of both chips.
//!
//! `MeasureEnvironment` is the capability contract any sensor backend must
//! satisfy — the real dual-chip driver here, or a fixed-value stand-in used
//! where no hardware is present. One invocation samples both chips and
//! assembles one `Measurement`; if either sample fails, the whole
//! invocation fails with that fault and no partial snapshot is produced.

use vstd::prelude::*;

use crate::bmp280::{
    Bmp280, IIRCoeficient, Mode, Oversampling, StandbyTime, BMP280_RAW_CODE_LIMIT,
};
use crate::bus::SharedBus;
use crate::fault::AcquisitionFault;
use crate::tcs3472::{Gain, Tcs3472, TCS3472_PERIOD_COUNT};
use crate::transport::BusTransport;

verus! {

/// One immutable snapshot of the environment in raw ADC codes, produced
/// atomically by one facade invocation and owned by the caller afterwards.
/// The caller's compensation step turns the two 20-bit barometric codes
/// into physical units using the driver's calibration, and normalizes the
/// light code against its 16-bit full scale.
#[derive(Clone, Copy, Debug, PartialEq, Eq, Structural)]
pub struct Measurement {
    /// 20-bit raw pressure code.
    pub raw_pressure: u32,
    /// 20-bit raw temperature code.
    pub raw_temperature: u32,
    /// 16-bit raw clear-channel light code.
    pub raw_light: u16,
}

impl Measurement {
    /// Both barometric codes fit the chip's 20-bit representable range.
    pub open spec fn wf(self) -> bool {
        self.raw_pressure < BMP280_RAW_CODE_LIMIT && self.raw_temperature < BMP280_RAW_CODE_LIMIT
    }
}

/// The capability any sensor backend must expose: one operation producing
/// one whole `Measurement` or one fault.
pub trait MeasureEnvironment {
    /// Acquires one snapshot. On success every raw code is within its
    /// chip's representable range; on failure no partial snapshot exists.
    fn measure(&self) -> (r: Result<Measurement, AcquisitionFault>)
        ensures
            r matches Ok(m) ==> m.wf(),
    ;
}

/// The real dual-chip backend: both drivers sharing one bus handle.
#[verifier::reject_recursive_types(T)]
pub struct EnviroPHatV1<T> {
    /// The one transport both drivers go through, behind the lock.
    pub bus: SharedBus<T>,
    /// The barometric chip driver.
    pub bmp: Bmp280,
    /// The ambient-light chip driver.
    pub tcs: Tcs3472,
}

impl<T: BusTransport> EnviroPHatV1<T> {
    /// Builds the backend over the given transport: wraps it in the shared
    /// bus handle, then constructs both chip drivers over that handle —
    /// the barometric chip with 1000 ms standby, a 4× filter, 16× pressure
    /// and 2× temperature oversampling in continuous mode, then the light
    /// chip. Either construction fault aborts the whole build.
    pub fn new(transport: T) -> (r: Result<EnviroPHatV1<T>, AcquisitionFault>)
        ensures
            r matches Ok(e) ==> e.bmp.standby_time == StandbyTime::Time1000ms && e.bmp.iir_coef
                == IIRCoeficient::Mult4X && e.bmp.press_oversampling == Oversampling::Mult16X
                && e.bmp.temp_oversampling == Oversampling::Mult2X && e.bmp.mode == Mode::Normal
                && e.tcs.gain == Gain::Mult1X && e.tcs.period_count == TCS3472_PERIOD_COUNT,
            r matches Err(f) ==> !(f is InvalidCalibration),
    {
        let bus = SharedBus::new(transport);
        let bmp = match Bmp280::new(
            &bus,
            StandbyTime::Time1000ms,
            IIRCoeficient::Mult4X,
            Oversampling::Mult16X,
            Oversampling::Mult2X,
            Mode::Normal,
        ) {
            Ok(bmp) => bmp,
            Err(f) => {
                return Err(f);
            },
        };
        let tcs = match Tcs3472::new(&bus) {
            Ok(tcs) => tcs,
            Err(f) => {
                return Err(f);
            },
        };
        Ok(EnviroPHatV1 { bus, bmp, tcs })
    }

    /// Gives the transport back, consuming the backend. Useful once
    /// acquisition is over, e.g. to inspect a recording transport.
    pub fn into_transport(self) -> (t: T) {
        self.bus.into_transport()
    }
}

impl<T: BusTransport> MeasureEnvironment for EnviroPHatV1<T> {
    /// Samples the barometric chip, then the light chip — the two are
    /// independent — and assembles one snapshot. Calibration that would
    /// make the compensation formula divide by zero is surfaced as
    /// `InvalidCalibration`, and exactly then.
    fn measure(&self) -> (r: Result<Measurement, AcquisitionFault>)
        ensures
            (r matches Err(AcquisitionFault::InvalidCalibration)) <==> self.bmp.calib.dig_p1 == 0,
            r matches Err(f) ==> !(f is UnexpectedDevice),
    {
        let codes = match self.bmp.query_press_and_temp(&self.bus) {
            Ok(codes) => codes,
            Err(f) => {
                return Err(f);
            },
        };
        let raw_light = match self.tcs.query_light_level(&self.bus) {
            Ok(raw) => raw,
            Err(f) => {
                return Err(f);
            },
        };
        Ok(Measurement { raw_pressure: codes.0, raw_temperature: codes.1, raw_light })
    }
}

} // verus!
