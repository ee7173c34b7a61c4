//! The entry points a host pipeline calls on a session and its transactions.
//!
//! Callers count transactions from 0; inside a session they are counted
//! from 1. Every entry point here takes and gives the callers' numbers.

use vstd::prelude::*;
use crate::event::SNMPEvent;
use crate::message::SnmpGenericMessage;
use crate::probe::{der_sequence_shape, envelope_version};
use crate::state::{generic_wire_version, SNMPState};
use crate::transaction::{SNMPTransaction, TransactionModel};

verus! {

/// The direction of a buffer sent by the client.
pub const STREAM_TOSERVER: u8 = 0x04;

/// The direction of a buffer sent by the server.
pub const STREAM_TOCLIENT: u8 = 0x08;

/// What one step of a pass over the transactions hands out.
pub struct AppLayerGetTxIterTuple<'a> {
    /// The transaction, or nothing where the pass is over.
    pub tx: Option<&'a SNMPTransaction>,
    /// The transaction's identifier, counted from 0.
    pub tx_id: u64,
    /// Whether more transactions follow.
    pub has_next: bool,
}

impl<'a> AppLayerGetTxIterTuple<'a> {
    pub fn with_values(tx: &'a SNMPTransaction, tx_id: u64, has_next: bool) -> (r: Self)
        ensures
            r.tx == Some(tx),
            r.tx_id == tx_id,
            r.has_next == has_next,
    {
        AppLayerGetTxIterTuple { tx: Some(tx), tx_id, has_next }
    }

    pub fn not_found() -> (r: Self)
        ensures
            r.tx is None,
            r.tx_id == 0,
            !r.has_next,
    {
        AppLayerGetTxIterTuple { tx: None, tx_id: 0, has_next: false }
    }
}

/// Takes in one buffer sent by the client: `input` are its bytes and
/// `decoded` what the decoder made of them. Returns 0 where a message was
/// decoded and -1 where not.
pub fn rs_snmp_parse_request(
    state: &mut SNMPState,
    input: &[u8],
    decoded: Option<SnmpGenericMessage>,
) -> (status: i32)
    requires
        old(state).wf(),
        old(state)@.tx_id < u64::MAX,
        decoded matches Some(msg) ==> (!(msg is V3) ==> generic_wire_version(msg) < u32::MAX),
    ensures
        final(state)@ == old(state)@.after_buffer(
            envelope_version(der_sequence_shape(input@)),
            decoded,
        ),
        final(state).wf(),
        status == (if decoded is Some { 0i32 } else { -1i32 }),
{
    state.parse(input, decoded, STREAM_TOSERVER)
}

/// Takes in one buffer sent by the server, as `rs_snmp_parse_request` does
/// for the client's.
pub fn rs_snmp_parse_response(
    state: &mut SNMPState,
    input: &[u8],
    decoded: Option<SnmpGenericMessage>,
) -> (status: i32)
    requires
        old(state).wf(),
        old(state)@.tx_id < u64::MAX,
        decoded matches Some(msg) ==> (!(msg is V3) ==> generic_wire_version(msg) < u32::MAX),
    ensures
        final(state)@ == old(state)@.after_buffer(
            envelope_version(der_sequence_shape(input@)),
            decoded,
        ),
        final(state).wf(),
        status == (if decoded is Some { 0i32 } else { -1i32 }),
{
    state.parse(input, decoded, STREAM_TOCLIENT)
}

/// The live transaction with the identifier `tx_id`, if there is one.
pub fn rs_snmp_state_get_tx(state: &SNMPState, tx_id: u64) -> (r: Option<&SNMPTransaction>)
    requires
        state.wf(),
    ensures
        match r {
            Some(tx) => tx@.id == tx_id + 1 && state@.has(tx_id + 1) && state@.transactions[state@.index_of(
                tx_id + 1,
            )] == tx@,
            None => !state@.has(tx_id + 1),
        },
{
    state.get_tx_by_id(tx_id)
}

/// How many transactions the session ever created, freed ones included.
pub fn rs_snmp_state_get_tx_count(state: &SNMPState) -> (n: u64)
    ensures
        n == state@.tx_id,
{
    state.tx_count()
}

/// Frees the transaction with the identifier `tx_id` and no other.
/// Returns whether there was one: the host is expected to free only what
/// is live.
pub fn rs_snmp_state_tx_free(state: &mut SNMPState, tx_id: u64) -> (found: bool)
    requires
        old(state).wf(),
    ensures
        final(state)@ == old(state)@.without(tx_id),
        found == old(state)@.has(tx_id + 1),
        !final(state)@.has(tx_id + 1),
        final(state).wf(),
{
    state.free_tx(tx_id)
}

/// Stores the detection engine's handle on a transaction. Returns 0.
pub fn rs_snmp_state_set_tx_detect_state(tx: &mut SNMPTransaction, de_state: u64) -> (status: i32)
    ensures
        final(tx)@ == (TransactionModel { de_state: Some(de_state), ..old(tx)@ }),
        status == 0,
{
    tx.set_detect_state(de_state);
    0
}

/// The detection engine's handle on a transaction, if one was stored.
pub fn rs_snmp_state_get_tx_detect_state(tx: &SNMPTransaction) -> (h: Option<u64>)
    ensures
        h == tx@.de_state,
{
    tx.detect_state()
}

/// The anomalies recorded on a transaction, oldest first.
pub fn rs_snmp_state_get_events(tx: &SNMPTransaction) -> (ev: &Vec<SNMPEvent>)
    ensures
        ev@ == tx@.events,
{
    tx.events()
}

/// One step of a pass over the transactions whose identifier is
/// `min_tx_id` or more, from the place `*istate` on. See
/// `SNMPState::get_tx_iterator`.
pub fn rs_snmp_state_get_tx_iterator<'a>(
    state: &'a SNMPState,
    min_tx_id: u64,
    istate: &mut u64,
) -> (r: AppLayerGetTxIterTuple<'a>)
    requires
        state.wf(),
    ensures
        match r.tx {
            Some(tx) => {
                &&& state@.is_next(min_tx_id, *old(istate), *final(istate) - 1)
                &&& tx@ == state@.transactions[*final(istate) - 1]
                &&& r.tx_id == tx@.id - 1
                &&& r.has_next == state@.more_after(min_tx_id, *final(istate) - 1)
            },
            None => {
                &&& state@.none_next(min_tx_id, *old(istate))
                &&& *final(istate) == *old(istate)
                &&& r.tx_id == 0
                &&& !r.has_next
            },
        },
{
    match state.get_tx_iterator(min_tx_id, istate) {
        Some((tx, out_tx_id, has_next)) => AppLayerGetTxIterTuple::with_values(
            tx,
            out_tx_id,
            has_next,
        ),
        None => AppLayerGetTxIterTuple::not_found(),
    }
}

/// The same step, as the host asks for it by protocol: the transport
/// protocol, the application protocol and the upper bound are not looked at.
pub fn rs_snmp_get_tx_iterator<'a>(
    _ipproto: u8,
    _alproto: u16,
    alstate: &'a SNMPState,
    min_tx_id: u64,
    _max_tx_id: u64,
    istate: &mut u64,
) -> (r: AppLayerGetTxIterTuple<'a>)
    requires
        alstate.wf(),
    ensures
        match r.tx {
            Some(tx) => {
                &&& alstate@.is_next(min_tx_id, *old(istate), *final(istate) - 1)
                &&& tx@ == alstate@.transactions[*final(istate) - 1]
                &&& r.tx_id == tx@.id - 1
                &&& r.has_next == alstate@.more_after(min_tx_id, *final(istate) - 1)
            },
            None => {
                &&& alstate@.none_next(min_tx_id, *old(istate))
                &&& *final(istate) == *old(istate)
                &&& r.tx_id == 0
                &&& !r.has_next
            },
        },
{
    match alstate.get_tx_iterator(min_tx_id, istate) {
        Some((tx, out_tx_id, has_next)) => AppLayerGetTxIterTuple::with_values(
            tx,
            out_tx_id,
            has_next,
        ),
        None => AppLayerGetTxIterTuple::not_found(),
    }
}

/// The progress of a transaction in either direction: a message is one
/// whole transaction, so it is complete as soon as it exists.
pub fn rs_snmp_tx_get_alstate_progress(_tx: &SNMPTransaction, _direction: u8) -> (progress: i32)
    ensures
        progress == 1,
{
    1
}

} // verus!
