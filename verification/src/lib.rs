//! Session and transaction tracking for an SNMP traffic inspector.
//!
//! A session records one transaction per observed message, tags protocol
//! anomalies on them, and hands them to a consumer through a resumable cursor.

pub mod applayer;
pub mod event;
pub mod message;
pub mod probe;
pub mod state;
pub mod transaction;

pub use event::SNMPEvent;
pub use message::{
    ErrorStatus, NetworkAddress, ObjectId, ObjectIdModel, PduType, ScopedPduData,
    SecurityParameters, SnmpGenericMessage, SnmpMessage, SnmpPdu, SnmpV3Message, TrapType,
};
pub use transaction::{PduInfoModel, SNMPPduInfo, SNMPTransaction, TransactionModel};
pub use probe::{Envelope, EnvelopeShape, ProbeError, ProbeResult};
pub use state::{SNMPState, SessionModel};
