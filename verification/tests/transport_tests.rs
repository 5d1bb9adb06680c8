use enviro_phat::fault::AcquisitionFault;
use enviro_phat::transport::{check_identity, BusTransport, ScriptedTransport, Segment};

#[test]
fn scripted_transport_serves_replies_in_order() {
    let mut t = ScriptedTransport::new(vec![vec![0x58], vec![1, 2, 3]]);
    let segs = vec![
        Segment::Write(vec![0xd0]),
        Segment::Read(1),
        Segment::Write(vec![0x88]),
        Segment::Read(3),
    ];
    let replies = t.transfer(0x77, &segs).unwrap();
    assert_eq!(replies, vec![vec![0x58], vec![1, 2, 3]]);
}

#[test]
fn scripted_transport_rejects_wrong_reply_length() {
    let mut t = ScriptedTransport::new(vec![vec![0x58, 0x00]]);
    let segs = vec![Segment::Write(vec![0xd0]), Segment::Read(1)];
    assert_eq!(t.transfer(0x77, &segs), Err(AcquisitionFault::TransportFault));
}

#[test]
fn scripted_transport_fails_when_script_runs_dry() {
    let mut t = ScriptedTransport::new(vec![]);
    let segs = vec![Segment::Write(vec![0xd0]), Segment::Read(1)];
    assert_eq!(t.transfer(0x77, &segs), Err(AcquisitionFault::TransportFault));
}

#[test]
fn scripted_transport_records_transactions_and_waits() {
    let mut t = ScriptedTransport::new(vec![vec![7]]);
    let first = vec![Segment::Write(vec![0xf4, 0x55])];
    t.transfer(0x77, &first).unwrap();
    t.wait_ms(46);
    let second = vec![Segment::Write(vec![0xf7]), Segment::Read(1)];
    t.transfer(0x77, &second).unwrap();

    assert_eq!(t.log.len(), 2);
    assert_eq!(t.log[0].addr, 0x77);
    assert_eq!(t.log[0].segs, first);
    assert_eq!(t.log[1].addr, 0x77);
    assert_eq!(t.log[1].segs, second);
    assert_eq!(t.waits, vec![46]);
}

#[test]
fn identity_check_accepts_only_the_expected_byte() {
    assert_eq!(check_identity(0x58, 0x58), Ok(()));
    assert_eq!(
        check_identity(0x58, 0x57),
        Err(AcquisitionFault::UnexpectedDevice { expected: 0x58, found: 0x57 })
    );
    assert_eq!(
        check_identity(0x44, 0x4d),
        Err(AcquisitionFault::UnexpectedDevice { expected: 0x44, found: 0x4d })
    );
}
