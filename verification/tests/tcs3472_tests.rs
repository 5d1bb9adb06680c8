use enviro_phat::bus::SharedBus;
use enviro_phat::fault::AcquisitionFault;
use enviro_phat::tcs3472::{Gain, Tcs3472};
use enviro_phat::transport::{ScriptedTransport, Segment};

fn construct(extra_replies: Vec<Vec<u8>>) -> (SharedBus<ScriptedTransport>, Tcs3472) {
    let mut replies = vec![vec![0x44]];
    replies.extend(extra_replies);
    let bus = SharedBus::new(ScriptedTransport::new(replies));
    let tcs = Tcs3472::new(&bus).unwrap();
    (bus, tcs)
}

#[test]
fn construction_verifies_identity_then_configures_in_one_transaction() {
    let (bus, tcs) = construct(vec![]);
    assert_eq!(tcs.gain, Gain::Mult1X);
    assert_eq!(tcs.period_count, 64);

    let t = bus.into_transport();
    assert_eq!(t.log.len(), 2);
    // Identity handshake through the command register.
    assert_eq!(t.log[0].addr, 0x77);
    assert_eq!(t.log[0].segs, vec![Segment::Write(vec![0x92]), Segment::Read(1)]);
    // One multi-segment transaction: enable + timing registers through the
    // auto-increment command, then the gain register.
    assert_eq!(
        t.log[1].segs,
        vec![
            Segment::Write(vec![0xa0, 0x03, 0xbf]),
            Segment::Write(vec![0x8f, 0x00]),
        ]
    );
}

#[test]
fn construction_fails_on_wrong_identity_without_configuring() {
    let bus = SharedBus::new(ScriptedTransport::new(vec![vec![0x4d]]));
    let r = Tcs3472::new(&bus);
    assert_eq!(
        r.err(),
        Some(AcquisitionFault::UnexpectedDevice { expected: 0x44, found: 0x4d })
    );
    let t = bus.into_transport();
    assert_eq!(t.log.len(), 1);
}

#[test]
fn query_reads_the_clear_channel_little_endian() {
    let (bus, tcs) = construct(vec![vec![0x34, 0x12]]);
    let raw = tcs.query_light_level(&bus).unwrap();
    assert_eq!(raw, 0x1234);

    let t = bus.into_transport();
    assert_eq!(t.log.len(), 3);
    assert_eq!(t.log[2].segs, vec![Segment::Write(vec![0xb4]), Segment::Read(2)]);
}

#[test]
fn query_surfaces_a_transport_fault() {
    let (bus, tcs) = construct(vec![]);
    assert_eq!(
        tcs.query_light_level(&bus),
        Err(AcquisitionFault::TransportFault)
    );
}
