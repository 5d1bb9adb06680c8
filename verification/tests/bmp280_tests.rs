use enviro_phat::bmp280::{Bmp280, IIRCoeficient, Mode, Oversampling, StandbyTime};
use enviro_phat::bus::SharedBus;
use enviro_phat::calibration::{encode_calibration, CalibrationData};
use enviro_phat::fault::AcquisitionFault;
use enviro_phat::transport::{ScriptedTransport, Segment};

fn sample_calibration() -> CalibrationData {
    CalibrationData {
        dig_t1: 27504,
        dig_t2: 26435,
        dig_t3: -1000,
        dig_p1: 36477,
        dig_p2: -10685,
        dig_p3: 3024,
        dig_p4: 2855,
        dig_p5: 140,
        dig_p6: -7,
        dig_p7: 15500,
        dig_p8: -14600,
        dig_p9: 6000,
    }
}

fn construct(
    calib: &CalibrationData,
    mode: Mode,
    extra_replies: Vec<Vec<u8>>,
) -> (SharedBus<ScriptedTransport>, Bmp280) {
    let mut replies = vec![vec![0x58], encode_calibration(calib)];
    replies.extend(extra_replies);
    let bus = SharedBus::new(ScriptedTransport::new(replies));
    let bmp = Bmp280::new(
        &bus,
        StandbyTime::Time1000ms,
        IIRCoeficient::Mult4X,
        Oversampling::Mult16X,
        Oversampling::Mult2X,
        mode,
    )
    .unwrap();
    (bus, bmp)
}

#[test]
fn construction_verifies_identity_reads_calibration_and_configures() {
    let (bus, bmp) = construct(&sample_calibration(), Mode::Normal, vec![]);
    assert_eq!(bmp.calib, sample_calibration());
    assert_eq!(bmp.mode, Mode::Normal);
    assert_eq!(bmp.press_oversampling, Oversampling::Mult16X);
    assert_eq!(bmp.temp_oversampling, Oversampling::Mult2X);

    let t = bus.into_transport();
    assert_eq!(t.log.len(), 3);
    // Identity handshake: select the identity register, read one byte.
    assert_eq!(t.log[0].addr, 0x77);
    assert_eq!(t.log[0].segs, vec![Segment::Write(vec![0xd0]), Segment::Read(1)]);
    // Calibration block: select its first register, read all 24 bytes.
    assert_eq!(t.log[1].segs, vec![Segment::Write(vec![0x88]), Segment::Read(24)]);
    // Configuration: both registers written in a single transaction.
    assert_eq!(
        t.log[2].segs,
        vec![Segment::Write(vec![0xf4, 0x57]), Segment::Write(vec![0xf5, 0xac])]
    );
}

#[test]
fn construction_fails_on_wrong_identity_without_touching_calibration() {
    let bus = SharedBus::new(ScriptedTransport::new(vec![vec![0x57]]));
    let r = Bmp280::new(
        &bus,
        StandbyTime::Time1000ms,
        IIRCoeficient::Mult4X,
        Oversampling::Mult16X,
        Oversampling::Mult2X,
        Mode::Normal,
    );
    assert_eq!(
        r.err(),
        Some(AcquisitionFault::UnexpectedDevice { expected: 0x58, found: 0x57 })
    );
    // Only the identity transaction ever reached the bus.
    let t = bus.into_transport();
    assert_eq!(t.log.len(), 1);
    assert_eq!(t.log[0].segs, vec![Segment::Write(vec![0xd0]), Segment::Read(1)]);
}

#[test]
fn continuous_mode_query_reads_data_registers_directly() {
    let (bus, bmp) = construct(
        &sample_calibration(),
        Mode::Normal,
        vec![vec![0x65, 0x5a, 0xc0, 0x7e, 0xed, 0x00]],
    );
    let (press, temp) = bmp.query_press_and_temp(&bus).unwrap();
    assert_eq!(press, 0x655ac);
    assert_eq!(temp, 0x7eed0);

    let t = bus.into_transport();
    // No trigger, no wait: only the data read follows construction.
    assert_eq!(t.log.len(), 4);
    assert_eq!(t.log[3].segs, vec![Segment::Write(vec![0xf7]), Segment::Read(6)]);
    assert_eq!(t.waits, Vec::<u64>::new());
}

#[test]
fn forced_mode_query_triggers_and_waits_out_the_settle_time() {
    let (bus, bmp) = construct(
        &sample_calibration(),
        Mode::Sleep,
        vec![vec![0, 0, 0, 0, 0, 0]],
    );
    let (press, temp) = bmp.query_press_and_temp(&bus).unwrap();
    assert_eq!((press, temp), (0, 0));

    let t = bus.into_transport();
    assert_eq!(t.log.len(), 5);
    // The trigger rewrites the control register with the forced-mode bit
    // pattern, oversampling preserved.
    assert_eq!(t.log[3].segs, vec![Segment::Write(vec![0xf4, 0x55])]);
    // Settle time for 16x pressure and 2x temperature oversampling.
    assert_eq!(t.waits, vec![46]);
    assert_eq!(t.log[4].segs, vec![Segment::Write(vec![0xf7]), Segment::Read(6)]);
}

#[test]
fn zero_p1_coefficient_is_refused_before_any_bus_traffic() {
    let mut calib = sample_calibration();
    calib.dig_p1 = 0;
    let (bus, bmp) = construct(&calib, Mode::Normal, vec![]);
    assert_eq!(
        bmp.query_press_and_temp(&bus),
        Err(AcquisitionFault::InvalidCalibration)
    );
    // Construction's three transactions are all the bus ever saw.
    let t = bus.into_transport();
    assert_eq!(t.log.len(), 3);
}

#[test]
fn reconfigure_updates_the_held_configuration() {
    let (bus, mut bmp) = construct(&sample_calibration(), Mode::Normal, vec![]);
    bmp.reconfigure(
        &bus,
        StandbyTime::Time125ms,
        IIRCoeficient::Off,
        Oversampling::Mult1X,
        Oversampling::Mult1X,
        Mode::Forced,
    )
    .unwrap();
    assert_eq!(bmp.standby_time, StandbyTime::Time125ms);
    assert_eq!(bmp.iir_coef, IIRCoeficient::Off);
    assert_eq!(bmp.press_oversampling, Oversampling::Mult1X);
    assert_eq!(bmp.temp_oversampling, Oversampling::Mult1X);
    assert_eq!(bmp.mode, Mode::Forced);
    assert_eq!(bmp.calib, sample_calibration());

    let t = bus.into_transport();
    assert_eq!(t.log.len(), 4);
    // Oversampling 1x/1x, forced mode; standby 125 ms, filter off.
    assert_eq!(
        t.log[3].segs,
        vec![Segment::Write(vec![0xf4, 0x25]), Segment::Write(vec![0xf5, 0x44])]
    );
}

#[test]
fn transport_fault_during_calibration_aborts_construction() {
    // Identity answers, then the script runs dry at the calibration read.
    let bus = SharedBus::new(ScriptedTransport::new(vec![vec![0x58]]));
    let r = Bmp280::new(
        &bus,
        StandbyTime::Time1000ms,
        IIRCoeficient::Mult4X,
        Oversampling::Mult16X,
        Oversampling::Mult2X,
        Mode::Normal,
    );
    assert_eq!(r.err(), Some(AcquisitionFault::TransportFault));
}
