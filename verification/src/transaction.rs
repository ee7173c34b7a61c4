//! The record kept for one observed message.

use vstd::prelude::*;
use crate::event::SNMPEvent;
use crate::message::{
    oid_models, ErrorStatus, NetworkAddress, ObjectId, ObjectIdModel, PduType, ScopedPduData,
    SecurityParameters, SnmpMessage, SnmpPdu, SnmpV3Message, TrapType,
};

verus! {

/// A summary of a PDU: its kind, its error status, the trap triple of a
/// version 1 trap, and the object identifiers it names.
#[derive(Debug)]
pub struct SNMPPduInfo {
    pub pdu_type: PduType,
    pub err: ErrorStatus,
    pub trap_type: Option<(TrapType, ObjectId, NetworkAddress)>,
    pub vars: Vec<ObjectId>,
}

pub struct PduInfoModel {
    pub pdu_type: PduType,
    pub err: ErrorStatus,
    pub trap_type: Option<(TrapType, ObjectIdModel, NetworkAddress)>,
    pub vars: Seq<ObjectIdModel>,
}

impl View for SNMPPduInfo {
    type V = PduInfoModel;

    open spec fn view(&self) -> PduInfoModel {
        PduInfoModel {
            pdu_type: self.pdu_type,
            err: self.err,
            trap_type: match self.trap_type {
                Some((t, enterprise, addr)) => Some((t, enterprise@, addr)),
                None => None,
            },
            vars: oid_models(self.vars@),
        }
    }
}

impl Default for SNMPPduInfo {
    fn default() -> (r: SNMPPduInfo)
        ensures
            r@ == (PduInfoModel {
                pdu_type: PduType(0),
                err: ErrorStatus(0),
                trap_type: None,
                vars: Seq::empty(),
            }),
    {
        let r = SNMPPduInfo {
            pdu_type: PduType(0),
            err: ErrorStatus(0),
            trap_type: None,
            vars: Vec::new(),
        };
        assert(r@.vars =~= Seq::empty());
        r
    }
}

/// What a PDU's summary holds.
pub open spec fn pdu_summary(pdu: SnmpPdu) -> PduInfoModel {
    PduInfoModel {
        pdu_type: pdu.spec_pdu_type(),
        err: match pdu {
            SnmpPdu::Generic { err, .. } => err,
            _ => ErrorStatus(0),
        },
        trap_type: match pdu {
            SnmpPdu::TrapV1 { enterprise, agent_addr, generic_trap, .. } => Some(
                (generic_trap, enterprise@, agent_addr),
            ),
            _ => None,
        },
        vars: oid_models(pdu.spec_vars()),
    }
}

impl SNMPPduInfo {
    /// Summarises a PDU, keeping its object identifiers in their order.
    pub fn from_pdu(pdu: SnmpPdu) -> (r: SNMPPduInfo)
        ensures
            r@ == pdu_summary(pdu),
    {
        match pdu {
            SnmpPdu::Generic { pdu_type, err, vars } => SNMPPduInfo {
                pdu_type,
                err,
                trap_type: None,
                vars,
            },
            SnmpPdu::Bulk { vars } => SNMPPduInfo {
                pdu_type: PduType(crate::message::PDU_TYPE_GET_BULK_REQUEST),
                err: ErrorStatus(0),
                trap_type: None,
                vars,
            },
            SnmpPdu::TrapV1 { enterprise, agent_addr, generic_trap, vars } => SNMPPduInfo {
                pdu_type: PduType(crate::message::PDU_TYPE_TRAP_V1),
                err: ErrorStatus(0),
                trap_type: Some((generic_trap, enterprise, agent_addr)),
                vars,
            },
        }
    }
}

/// One observed message.
#[derive(Debug)]
pub struct SNMPTransaction {
    /// The protocol version of the message.
    pub version: u32,
    /// The PDU's summary, where the PDU was readable.
    pub info: Option<SNMPPduInfo>,
    /// The community of a version 1 or 2c message.
    pub community: Option<String>,
    /// The user's name from user-based security parameters.
    pub usm: Option<String>,
    /// Whether the scoped PDU was encrypted.
    pub encrypted: bool,
    id: u64,
    de_state: Option<u64>,
    events: Vec<SNMPEvent>,
}

pub struct TransactionModel {
    pub version: u32,
    pub info: Option<PduInfoModel>,
    pub community: Option<Seq<char>>,
    pub usm: Option<Seq<char>>,
    pub encrypted: bool,
    /// The identifier inside the session, counted from 1.
    pub id: u64,
    /// The detection engine's handle, if one was attached.
    pub de_state: Option<u64>,
    /// The anomalies recorded so far, oldest first.
    pub events: Seq<SNMPEvent>,
}

impl TransactionModel {
    /// A transaction on which nothing has been recorded yet.
    pub open spec fn fresh(version: u32, id: u64) -> TransactionModel {
        TransactionModel {
            version,
            info: None,
            community: None,
            usm: None,
            encrypted: false,
            id,
            de_state: None,
            events: Seq::empty(),
        }
    }

    /// The same transaction with one more anomaly recorded.
    pub open spec fn with_event(self, event: SNMPEvent) -> TransactionModel {
        TransactionModel { events: self.events.push(event), ..self }
    }
}

/// The version a session works with once a message of `message_version`
/// has been seen: the one it had settled on, or else the message's.
pub open spec fn settled_version(session_version: u32, message_version: u32) -> u32 {
    if session_version == 0 {
        message_version
    } else {
        session_version
    }
}

/// The anomalies of a message whose version is `message_version`, in a
/// session that works with `session_version`.
pub open spec fn version_events(session_version: u32, message_version: u32) -> Seq<SNMPEvent> {
    if session_version != message_version {
        seq![SNMPEvent::VersionMismatch]
    } else {
        Seq::empty()
    }
}

/// The version of a version 1 or 2c message: one more than the number on the wire.
pub open spec fn v12_version(msg: SnmpMessage) -> u32
    recommends
        msg.version < u32::MAX,
{
    (msg.version + 1) as u32
}

/// The transaction of a version 1 or 2c message.
pub open spec fn v12_transaction(session_version: u32, id: u64, msg: SnmpMessage) -> TransactionModel {
    TransactionModel {
        version: v12_version(msg),
        info: Some(pdu_summary(msg.pdu)),
        community: Some(msg.community@),
        usm: None,
        encrypted: false,
        id,
        de_state: None,
        events: version_events(session_version, v12_version(msg)),
    }
}

/// The transaction of a version 3 message.
pub open spec fn v3_transaction(session_version: u32, id: u64, msg: SnmpV3Message) -> TransactionModel {
    TransactionModel {
        version: msg.version,
        info: match msg.data {
            ScopedPduData::Plaintext(pdu) => Some(pdu_summary(pdu)),
            ScopedPduData::Encrypted => None,
        },
        community: None,
        usm: match msg.security_params {
            SecurityParameters::USM { msg_user_name } => Some(msg_user_name@),
            SecurityParameters::Raw => None,
        },
        encrypted: msg.data is Encrypted,
        id,
        de_state: None,
        events: version_events(session_version, msg.version) + match msg.security_params {
            SecurityParameters::USM { .. } => Seq::empty(),
            SecurityParameters::Raw => seq![SNMPEvent::UnknownSecurityModel],
        },
    }
}

impl View for SNMPTransaction {
    type V = TransactionModel;

    closed spec fn view(&self) -> TransactionModel {
        TransactionModel {
            version: self.version,
            info: match self.info {
                Some(i) => Some(i@),
                None => None,
            },
            community: match self.community {
                Some(c) => Some(c@),
                None => None,
            },
            usm: match self.usm {
                Some(u) => Some(u@),
                None => None,
            },
            encrypted: self.encrypted,
            id: self.id,
            de_state: self.de_state,
            events: self.events@,
        }
    }
}

impl SNMPTransaction {
    pub fn new(version: u32, id: u64) -> (tx: SNMPTransaction)
        ensures
            tx@ == TransactionModel::fresh(version, id),
    {
        SNMPTransaction {
            version,
            info: None,
            community: None,
            usm: None,
            encrypted: false,
            id,
            de_state: None,
            events: Vec::new(),
        }
    }

    /// The identifier inside the session, counted from 1.
    pub fn id(&self) -> (id: u64)
        ensures
            id == self@.id,
    {
        self.id
    }

    /// Records one more anomaly; what was recorded before stays.
    pub fn set_event(&mut self, event: SNMPEvent)
        ensures
            final(self)@ == old(self)@.with_event(event),
    {
        self.events.push(event);
    }

    /// Stores the summary of `pdu` in place of any earlier one.
    pub fn add_pdu_info(&mut self, pdu: SnmpPdu)
        ensures
            final(self)@ == (TransactionModel { info: Some(pdu_summary(pdu)), ..old(self)@ }),
    {
        self.info = Some(SNMPPduInfo::from_pdu(pdu));
    }

    /// Builds the transaction `id` for a version 1 or 2c message, in a
    /// session that works with `session_version`. A message of another
    /// version is recorded all the same, with `VersionMismatch`.
    pub fn from_v12(session_version: u32, id: u64, msg: SnmpMessage) -> (tx: SNMPTransaction)
        requires
            msg.version < u32::MAX,
        ensures
            tx@ == v12_transaction(session_version, id, msg),
    {
        let version: u32 = msg.version + 1;
        let mut tx = SNMPTransaction::new(version, id);
        if session_version != version {
            tx.set_event(SNMPEvent::VersionMismatch);
        }
        tx.add_pdu_info(msg.pdu);
        tx.community = Some(msg.community);
        assert(tx@.events =~= version_events(session_version, version));
        tx
    }

    /// Builds the transaction `id` for a version 3 message. An encrypted
    /// scoped PDU leaves the summary absent; security parameters of a model
    /// other than the user-based one are recorded with `UnknownSecurityModel`.
    pub fn from_v3(session_version: u32, id: u64, msg: SnmpV3Message) -> (tx: SNMPTransaction)
        ensures
            tx@ == v3_transaction(session_version, id, msg),
    {
        let mut tx = SNMPTransaction::new(msg.version, id);
        if session_version != msg.version {
            tx.set_event(SNMPEvent::VersionMismatch);
        }
        match msg.data {
            ScopedPduData::Plaintext(pdu) => {
                tx.add_pdu_info(pdu);
            },
            ScopedPduData::Encrypted => {
                tx.encrypted = true;
            },
        }
        match msg.security_params {
            SecurityParameters::USM { msg_user_name } => {
                tx.usm = Some(msg_user_name);
            },
            SecurityParameters::Raw => {
                tx.set_event(SNMPEvent::UnknownSecurityModel);
            },
        }
        assert(tx@.events =~= v3_transaction(session_version, id, msg).events);
        tx
    }

    /// The anomalies recorded so far, oldest first.
    pub fn events(&self) -> (ev: &Vec<SNMPEvent>)
        ensures
            ev@ == self@.events,
    {
        &self.events
    }

    /// Stores the detection engine's handle in place of any earlier one.
    pub fn set_detect_state(&mut self, handle: u64)
        ensures
            final(self)@ == (TransactionModel { de_state: Some(handle), ..old(self)@ }),
    {
        self.de_state = Some(handle);
    }

    pub fn detect_state(&self) -> (h: Option<u64>)
        ensures
            h == self@.de_state,
    {
        self.de_state
    }
}

} // verus!
