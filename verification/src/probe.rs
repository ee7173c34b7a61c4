//! Recognising a message by the shape of its outer envelope.

use vstd::prelude::*;
use der_parser::ber::BerObjectContent;
use der_parser::der::parse_der_sequence;

verus! {

pub const VERSION_1: u32 = 1;

pub const VERSION_2C: u32 = 2;

pub const VERSION_3: u32 = 3;

/// Fewer bytes than this cannot hold an envelope.
pub const MIN_ENVELOPE_LEN: usize = 4;

/// What reading the outer DER sequence of a buffer gave.
#[derive(Debug)]
pub enum Envelope {
    /// The buffer ends before the sequence does.
    Incomplete,
    /// The buffer does not start with a DER sequence.
    Malformed,
    /// An element with the sequence tag whose content is no list of elements.
    Unrecognized,
    /// The elements of the sequence, each read as an unsigned 32-bit
    /// integer where it is one.
    Sequence(Vec<Option<u32>>),
}

pub enum EnvelopeShape {
    Incomplete,
    Malformed,
    Unrecognized,
    Sequence(Seq<Option<u32>>),
}

impl View for Envelope {
    type V = EnvelopeShape;

    open spec fn view(&self) -> EnvelopeShape {
        match self {
            Envelope::Incomplete => EnvelopeShape::Incomplete,
            Envelope::Malformed => EnvelopeShape::Malformed,
            Envelope::Unrecognized => EnvelopeShape::Unrecognized,
            Envelope::Sequence(items) => EnvelopeShape::Sequence(items@),
        }
    }
}

/// Why an envelope gave no version.
#[derive(Clone, Copy, Debug, PartialEq, Eq, Structural)]
pub enum ProbeError {
    /// More bytes are needed.
    Incomplete,
    /// The bytes are not an envelope of a known version.
    Verify,
}

/// The verdict on the first bytes of a flow.
#[derive(Clone, Copy, Debug, PartialEq, Eq, Structural)]
pub enum ProbeResult {
    /// An envelope of the given version.
    Detected(u32),
    /// Too few bytes to tell.
    Undetermined,
    /// Not this protocol.
    Rejected,
}

/// What `der_parser::der::parse_der_sequence` makes of the given bytes.
pub uninterp spec fn der_sequence_shape(bytes: Seq<u8>) -> EnvelopeShape;

/// Calls `der_parser::der::parse_der_sequence` on `i` and keeps of its
/// answer the outline: whether it asked for more bytes, failed otherwise,
/// or gave an object; and of an object with sequence content, what
/// `as_u32` gives for each element, in order. The contract only names that
/// outline as a function of the bytes.
#[verifier::external_body]
fn read_der_sequence(i: &[u8]) -> (r: Envelope)
    ensures
        r@ == der_sequence_shape(i@),
{
    match parse_der_sequence(i) {
        Ok((_, obj)) => match obj.content {
            BerObjectContent::Sequence(ref v) => Envelope::Sequence(
                v.iter().map(|e| e.as_u32().ok()).collect(),
            ),
            _ => Envelope::Unrecognized,
        },
        Err(nom::Err::Incomplete(_)) => Envelope::Incomplete,
        Err(_) => Envelope::Malformed,
    }
}

/// The version that an envelope of the given shape announces: three
/// elements led by the integer 0 or 1, or four led by the integer 3.
pub open spec fn envelope_version(shape: EnvelopeShape) -> Result<u32, ProbeError> {
    match shape {
        EnvelopeShape::Sequence(items) => {
            if items.len() == 3 && items[0] == Some(0u32) {
                Ok(VERSION_1)
            } else if items.len() == 3 && items[0] == Some(1u32) {
                Ok(VERSION_2C)
            } else if items.len() == 4 && items[0] == Some(3u32) {
                Ok(VERSION_3)
            } else {
                Err(ProbeError::Verify)
            }
        },
        EnvelopeShape::Incomplete => Err(ProbeError::Incomplete),
        EnvelopeShape::Malformed => Err(ProbeError::Verify),
        EnvelopeShape::Unrecognized => Err(ProbeError::Verify),
    }
}

/// The verdict on a buffer of `len` bytes whose outer sequence has the given shape.
pub open spec fn probe_verdict(len: nat, shape: EnvelopeShape) -> ProbeResult {
    if len < MIN_ENVELOPE_LEN {
        ProbeResult::Undetermined
    } else {
        match envelope_version(shape) {
            Ok(v) => ProbeResult::Detected(v),
            Err(ProbeError::Incomplete) => ProbeResult::Undetermined,
            Err(ProbeError::Verify) => ProbeResult::Rejected,
        }
    }
}

/// Reads the version off an envelope that has already been taken apart.
pub fn classify_envelope(envelope: &Envelope) -> (r: Result<u32, ProbeError>)
    ensures
        r == envelope_version(envelope@),
{
    match envelope {
        Envelope::Sequence(items) => {
            if items.len() == 3 {
                match items[0] {
                    Some(0) => Ok(VERSION_1),
                    Some(1) => Ok(VERSION_2C),
                    _ => Err(ProbeError::Verify),
                }
            } else if items.len() == 4 {
                match items[0] {
                    Some(3) => Ok(VERSION_3),
                    _ => Err(ProbeError::Verify),
                }
            } else {
                Err(ProbeError::Verify)
            }
        },
        Envelope::Incomplete => Err(ProbeError::Incomplete),
        Envelope::Malformed => Err(ProbeError::Verify),
        Envelope::Unrecognized => Err(ProbeError::Verify),
    }
}

/// Reads the outer sequence of `i` and the version it announces, without
/// decoding the message inside.
pub fn parse_pdu_enveloppe_version(i: &[u8]) -> (r: Result<u32, ProbeError>)
    ensures
        r == envelope_version(der_sequence_shape(i@)),
{
    let envelope = read_der_sequence(i);
    classify_envelope(&envelope)
}

/// The verdict on a buffer of `len` bytes whose envelope has already been taken apart.
pub fn probe_envelope(len: usize, envelope: &Envelope) -> (r: ProbeResult)
    ensures
        r == probe_verdict(len as nat, envelope@),
{
    if len < MIN_ENVELOPE_LEN {
        return ProbeResult::Undetermined;
    }
    match classify_envelope(envelope) {
        Ok(v) => ProbeResult::Detected(v),
        Err(ProbeError::Incomplete) => ProbeResult::Undetermined,
        Err(ProbeError::Verify) => ProbeResult::Rejected,
    }
}

/// Judges the first bytes of a flow. A buffer shorter than an envelope is
/// not looked into.
pub fn rs_snmp_probing_parser(input: &[u8]) -> (r: ProbeResult)
    ensures
        r == probe_verdict(input@.len(), der_sequence_shape(input@)),
        input@.len() < MIN_ENVELOPE_LEN ==> r == ProbeResult::Undetermined,
{
    if input.len() < MIN_ENVELOPE_LEN {
        return ProbeResult::Undetermined;
    }
    let envelope = read_der_sequence(input);
    probe_envelope(input.len(), &envelope)
}

} // verus!
