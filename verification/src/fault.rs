//! Error taxonomy of the acquisition core.

use vstd::prelude::*;

verus! {

/// A failure surfaced by construction or by `measure`.
///
/// - `UnexpectedDevice`: the identity register of a chip returned a byte
///   other than the expected constant. Fatal to construction; retrying
///   without hardware intervention cannot help.
/// - `TransportFault`: the bus transport reported an I/O failure or an
///   absent device. Possibly transient; the caller decides whether to retry.
/// - `InvalidCalibration`: decoded calibration coefficients would cause
///   undefined numeric behaviour in the compensation formula (a zero
///   denominator), so no sample is produced from them.
#[derive(Clone, Copy, Debug, PartialEq, Eq, Structural)]
pub enum AcquisitionFault {
    UnexpectedDevice { expected: u8, found: u8 },
    TransportFault,
    InvalidCalibration,
}

/// How a failure of driver construction may read: the identity handshake
/// failed against the given expected constant, or the transport itself
/// failed. Construction never reports a calibration fault; the calibration
/// guard belongs to sampling, where the formula would divide.
pub open spec fn construction_fault_spec(f: AcquisitionFault, expected_id: u8) -> bool {
    match f {
        AcquisitionFault::UnexpectedDevice { expected, found } => expected == expected_id && found
            != expected_id,
        AcquisitionFault::TransportFault => true,
        AcquisitionFault::InvalidCalibration => false,
    }
}

} // verus!
