use snmp_session::probe::{
    classify_envelope, parse_pdu_enveloppe_version, probe_envelope, rs_snmp_probing_parser,
};
use snmp_session::{Envelope, ProbeError, ProbeResult};

fn envelope_v1() -> Vec<u8> {
    let mut b = vec![0x30, 0x0f, 0x02, 0x01, 0x00, 0x04, 0x06];
    b.extend_from_slice(b"public");
    b.extend_from_slice(&[0xa0, 0x02, 0x05, 0x00]);
    b
}

fn envelope_v2c() -> Vec<u8> {
    let mut b = envelope_v1();
    b[4] = 0x01;
    b
}

fn envelope_v3() -> Vec<u8> {
    vec![
        0x30, 0x0e, 0x02, 0x01, 0x03, 0x30, 0x03, 0x02, 0x01, 0x01, 0x04, 0x01, 0x00, 0x04, 0x01,
        0x00,
    ]
}

#[test]
fn short_input_is_undetermined() {
    assert_eq!(rs_snmp_probing_parser(&[]), ProbeResult::Undetermined);
    assert_eq!(rs_snmp_probing_parser(&[0x30]), ProbeResult::Undetermined);
    assert_eq!(rs_snmp_probing_parser(&[0x30, 0x0f]), ProbeResult::Undetermined);
    assert_eq!(rs_snmp_probing_parser(&[0x30, 0x0f, 0x02]), ProbeResult::Undetermined);
    assert_eq!(rs_snmp_probing_parser(&[0xff, 0xff, 0xff]), ProbeResult::Undetermined);
}

#[test]
fn probe_detects_v1() {
    assert_eq!(rs_snmp_probing_parser(&envelope_v1()), ProbeResult::Detected(1));
    assert_eq!(parse_pdu_enveloppe_version(&envelope_v1()), Ok(1));
}

#[test]
fn probe_detects_v2c() {
    assert_eq!(rs_snmp_probing_parser(&envelope_v2c()), ProbeResult::Detected(2));
    assert_eq!(parse_pdu_enveloppe_version(&envelope_v2c()), Ok(2));
}

#[test]
fn probe_detects_v3() {
    assert_eq!(rs_snmp_probing_parser(&envelope_v3()), ProbeResult::Detected(3));
    assert_eq!(parse_pdu_enveloppe_version(&envelope_v3()), Ok(3));
}

#[test]
fn probe_rejects_other_leading_integer() {
    let mut b = envelope_v1();
    b[4] = 0x05;
    assert_eq!(rs_snmp_probing_parser(&b), ProbeResult::Rejected);
    assert_eq!(parse_pdu_enveloppe_version(&b), Err(ProbeError::Verify));
}

#[test]
fn probe_rejects_version_three_with_three_elements() {
    let mut b = envelope_v1();
    b[4] = 0x03;
    assert_eq!(rs_snmp_probing_parser(&b), ProbeResult::Rejected);
}

#[test]
fn probe_rejects_version_one_with_four_elements() {
    let mut b = envelope_v3();
    b[4] = 0x00;
    assert_eq!(rs_snmp_probing_parser(&b), ProbeResult::Rejected);
}

#[test]
fn probe_rejects_leading_non_integer() {
    let b = vec![0x30, 0x06, 0x04, 0x00, 0x04, 0x00, 0x04, 0x00];
    assert_eq!(rs_snmp_probing_parser(&b), ProbeResult::Rejected);
}

#[test]
fn probe_rejects_what_is_no_sequence() {
    let b = vec![0x04, 0x02, 0x00, 0x00];
    assert_eq!(rs_snmp_probing_parser(&b), ProbeResult::Rejected);
    assert_eq!(parse_pdu_enveloppe_version(&b), Err(ProbeError::Verify));
}

#[test]
fn probe_wants_more_of_a_truncated_envelope() {
    let b = envelope_v1();
    assert_eq!(rs_snmp_probing_parser(&b[..8]), ProbeResult::Undetermined);
    assert_eq!(parse_pdu_enveloppe_version(&b[..8]), Err(ProbeError::Incomplete));
}

#[test]
fn envelope_version_is_read_without_a_length_floor() {
    let b = vec![0x30, 0x01];
    assert_eq!(parse_pdu_enveloppe_version(&b), Err(ProbeError::Incomplete));
}

#[test]
fn classify_reads_each_shape() {
    assert_eq!(classify_envelope(&Envelope::Sequence(vec![Some(0), None, None])), Ok(1));
    assert_eq!(classify_envelope(&Envelope::Sequence(vec![Some(1), Some(7), None])), Ok(2));
    assert_eq!(classify_envelope(&Envelope::Sequence(vec![Some(3), None, None, None])), Ok(3));
    assert_eq!(
        classify_envelope(&Envelope::Sequence(vec![Some(2), None, None])),
        Err(ProbeError::Verify)
    );
    assert_eq!(
        classify_envelope(&Envelope::Sequence(vec![None, None, None])),
        Err(ProbeError::Verify)
    );
    assert_eq!(
        classify_envelope(&Envelope::Sequence(vec![Some(0), None, None, None])),
        Err(ProbeError::Verify)
    );
    assert_eq!(classify_envelope(&Envelope::Sequence(vec![])), Err(ProbeError::Verify));
    assert_eq!(classify_envelope(&Envelope::Sequence(vec![Some(0)])), Err(ProbeError::Verify));
    assert_eq!(classify_envelope(&Envelope::Incomplete), Err(ProbeError::Incomplete));
    assert_eq!(classify_envelope(&Envelope::Malformed), Err(ProbeError::Verify));
    assert_eq!(classify_envelope(&Envelope::Unrecognized), Err(ProbeError::Verify));
}

#[test]
fn verdict_follows_length_then_shape() {
    let v1 = Envelope::Sequence(vec![Some(0), None, None]);
    assert_eq!(probe_envelope(3, &v1), ProbeResult::Undetermined);
    assert_eq!(probe_envelope(4, &v1), ProbeResult::Detected(1));
    assert_eq!(probe_envelope(40, &Envelope::Incomplete), ProbeResult::Undetermined);
    assert_eq!(probe_envelope(40, &Envelope::Malformed), ProbeResult::Rejected);
    assert_eq!(probe_envelope(40, &Envelope::Unrecognized), ProbeResult::Rejected);
}
