//! A decoded message, as plain values: what the session reads of it.

use vstd::prelude::*;

verus! {

/// The kind of operation a PDU carries.
#[derive(Clone, Copy, Debug, PartialEq, Eq, Structural)]
pub struct PduType(pub u32);

/// The error status of a generic PDU; zero means no error.
#[derive(Clone, Copy, Debug, PartialEq, Eq, Structural)]
pub struct ErrorStatus(pub u32);

/// The generic trap number of a version 1 trap.
#[derive(Clone, Copy, Debug, PartialEq, Eq, Structural)]
pub struct TrapType(pub u8);

/// The address of the agent that sent a trap: the four octets of an IPv4 address.
#[derive(Clone, Copy, Debug, PartialEq, Eq, Structural)]
pub struct NetworkAddress(pub u8, pub u8, pub u8, pub u8);

/// An object identifier in its encoded form.
#[derive(Clone, Debug, PartialEq, Eq)]
pub struct ObjectId {
    pub encoded: Vec<u8>,
    pub relative: bool,
}

pub struct ObjectIdModel {
    pub encoded: Seq<u8>,
    pub relative: bool,
}

impl View for ObjectId {
    type V = ObjectIdModel;

    open spec fn view(&self) -> ObjectIdModel {
        ObjectIdModel { encoded: self.encoded@, relative: self.relative }
    }
}

/// The object identifiers of a list of variable bindings, in order.
pub open spec fn oid_models(ids: Seq<ObjectId>) -> Seq<ObjectIdModel> {
    ids.map_values(|o: ObjectId| o@)
}

/// The payload of a message. Each form lists the object identifiers that
/// its variable bindings name, in the order of the bindings.
#[derive(Debug)]
pub enum SnmpPdu {
    Generic { pdu_type: PduType, err: ErrorStatus, vars: Vec<ObjectId> },
    Bulk { vars: Vec<ObjectId> },
    TrapV1 { enterprise: ObjectId, agent_addr: NetworkAddress, generic_trap: TrapType, vars: Vec<ObjectId> },
}

pub const PDU_TYPE_TRAP_V1: u32 = 4;

pub const PDU_TYPE_GET_BULK_REQUEST: u32 = 5;

impl SnmpPdu {
    pub open spec fn spec_pdu_type(self) -> PduType {
        match self {
            SnmpPdu::Generic { pdu_type, .. } => pdu_type,
            SnmpPdu::Bulk { .. } => PduType(PDU_TYPE_GET_BULK_REQUEST),
            SnmpPdu::TrapV1 { .. } => PduType(PDU_TYPE_TRAP_V1),
        }
    }

    pub open spec fn spec_vars(self) -> Seq<ObjectId> {
        match self {
            SnmpPdu::Generic { vars, .. } => vars@,
            SnmpPdu::Bulk { vars } => vars@,
            SnmpPdu::TrapV1 { vars, .. } => vars@,
        }
    }

    /// The kind of operation: a bulk request and a version 1 trap have a
    /// fixed kind, a generic PDU carries its own.
    pub fn pdu_type(&self) -> (t: PduType)
        ensures
            t == self.spec_pdu_type(),
    {
        match self {
            SnmpPdu::Generic { pdu_type, .. } => *pdu_type,
            SnmpPdu::Bulk { .. } => PduType(PDU_TYPE_GET_BULK_REQUEST),
            SnmpPdu::TrapV1 { .. } => PduType(PDU_TYPE_TRAP_V1),
        }
    }
}

/// A version 1 or version 2c message.
#[derive(Debug)]
pub struct SnmpMessage {
    /// The version as written on the wire: 0 for version 1, 1 for version 2c.
    pub version: u32,
    pub community: String,
    pub pdu: SnmpPdu,
}

/// The scoped PDU of a version 3 message.
#[derive(Debug)]
pub enum ScopedPduData {
    Plaintext(SnmpPdu),
    Encrypted,
}

/// The security parameters of a version 3 message.
#[derive(Debug)]
pub enum SecurityParameters {
    /// User-based security model, with the user's name.
    USM { msg_user_name: String },
    /// Parameters of any other model.
    Raw,
}

/// A version 3 message.
#[derive(Debug)]
pub struct SnmpV3Message {
    pub version: u32,
    pub security_params: SecurityParameters,
    pub data: ScopedPduData,
}

/// A decoded message of any version.
#[derive(Debug)]
pub enum SnmpGenericMessage {
    V1(SnmpMessage),
    V2(SnmpMessage),
    V3(SnmpV3Message),
}

} // verus!
