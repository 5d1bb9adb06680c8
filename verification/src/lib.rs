//! Acquisition core for a two-chip environmental sensor board.
//!
//! Two chips — a barometric pressure/temperature sensor and an ambient light
//! sensor — share one byte-addressed serial bus. This crate verifies the
//! logic of that acquisition path: transaction framing, chip identification,
//! factory-calibration decoding, register packing, settle-time computation,
//! raw-code extraction, and the discipline that keeps the two drivers from
//! interleaving their bus transactions.
//!
//! Conversion of raw ADC codes to floating-point physical units is left to
//! the embedding application; this crate hands out exact raw codes and the
//! decoded calibration coefficients.

pub mod bmp280;
pub mod bus;
pub mod calibration;
pub mod fault;
pub mod measure;
pub mod stub;
pub mod tcs3472;
pub mod transport;

pub use bmp280::Bmp280;
pub use bmp280::IIRCoeficient;
pub use bmp280::Mode;
pub use bmp280::Oversampling;
pub use bmp280::StandbyTime;
pub use bus::SharedBus;
pub use calibration::CalibrationData;
pub use fault::AcquisitionFault;
pub use measure::EnviroPHatV1;
pub use measure::MeasureEnvironment;
pub use measure::Measurement;
pub use stub::EnviroPHatStub;
pub use tcs3472::Gain;
pub use tcs3472::Tcs3472;
pub use transport::BusTransport;
pub use transport::ScriptedTransport;
pub use transport::Segment;
