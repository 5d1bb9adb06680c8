//! A fixed-value stand-in backend for use where no physical bus exists,
//! e.g. development machines. It satisfies the same capability contract as
//! the real backend and returns the same constants unconditionally.

use vstd::prelude::*;

use crate::fault::AcquisitionFault;
use crate::measure::{MeasureEnvironment, Measurement};

verus! {

/// Raw pressure code the stand-in reports: mid-scale of the 20-bit range.
pub const STUB_RAW_PRESSURE: u32 = 0x80000;

/// Raw temperature code the stand-in reports: mid-scale of the 20-bit
/// range.
pub const STUB_RAW_TEMPERATURE: u32 = 0x80000;

/// Raw light code the stand-in reports: mid-scale of the 16-bit range.
pub const STUB_RAW_LIGHT: u16 = 0x8000;

/// A backend with no hardware behind it.
pub struct EnviroPHatStub {}

impl EnviroPHatStub {
    /// Accepts the bus locator for signature compatibility with the real
    /// backend and ignores it: there is no bus to open, so construction
    /// always succeeds.
    pub fn new(_i2c_bus_path: &str) -> (r: Result<EnviroPHatStub, AcquisitionFault>)
        ensures
            r is Ok,
    {
        Ok(EnviroPHatStub {})
    }
}

impl MeasureEnvironment for EnviroPHatStub {
    /// Reports the fixed mid-scale raw codes, unconditionally.
    fn measure(&self) -> (r: Result<Measurement, AcquisitionFault>)
        ensures
            r == Result::<Measurement, AcquisitionFault>::Ok(
                Measurement {
                    raw_pressure: STUB_RAW_PRESSURE,
                    raw_temperature: STUB_RAW_TEMPERATURE,
                    raw_light: STUB_RAW_LIGHT,
                },
            ),
    {
        Ok(
            Measurement {
                raw_pressure: STUB_RAW_PRESSURE,
                raw_temperature: STUB_RAW_TEMPERATURE,
                raw_light: STUB_RAW_LIGHT,
            },
        )
    }
}

} // verus!
