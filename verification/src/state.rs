//! The state of one flow: its version, its transactions and its counter.

use vstd::prelude::*;
use crate::event::SNMPEvent;
use crate::message::{SnmpGenericMessage, SnmpMessage, SnmpV3Message};
use crate::probe::{parse_pdu_enveloppe_version, der_sequence_shape, envelope_version, ProbeError};
use crate::transaction::{
    settled_version, v12_transaction, v12_version, v3_transaction, SNMPTransaction,
    TransactionModel,
};

verus! {

/// The session of one flow.
#[derive(Debug)]
pub struct SNMPState {
    /// The protocol version the session works with; 0 while none is settled.
    pub version: u32,
    transactions: Vec<SNMPTransaction>,
    tx_id: u64,
}

pub struct SessionModel {
    pub version: u32,
    /// The live transactions, oldest first.
    pub transactions: Seq<TransactionModel>,
    /// How many transactions were ever created.
    pub tx_id: u64,
}

impl SessionModel {
    /// Identifiers start at 1, never exceed the counter and grow strictly
    /// along the list.
    pub open spec fn wf(self) -> bool {
        &&& forall|i: int|
            0 <= i < self.transactions.len() ==> 1 <= (#[trigger] self.transactions[i]).id
                <= self.tx_id
        &&& forall|i: int, j: int|
            0 <= i < j < self.transactions.len() ==> (#[trigger] self.transactions[i]).id < (
            #[trigger] self.transactions[j]).id
    }

    /// Whether a live transaction has the identifier `id`, counted from 1.
    pub open spec fn has(self, id: int) -> bool {
        exists|i: int| 0 <= i < self.transactions.len() && (#[trigger] self.transactions[i]).id == id
    }

    /// The place of the transaction with identifier `id`, if `has(id)`.
    pub open spec fn index_of(self, id: int) -> int {
        choose|i: int| 0 <= i < self.transactions.len() && (#[trigger] self.transactions[i]).id == id
    }

    /// The session after one more transaction was created.
    pub open spec fn with_transaction(self, tx: TransactionModel) -> SessionModel {
        SessionModel {
            version: self.version,
            transactions: self.transactions.push(tx),
            tx_id: tx.id,
        }
    }

    /// The session after the transaction that callers know as `tx_id`
    /// (counted from 0) was freed.
    pub open spec fn without(self, tx_id: u64) -> SessionModel {
        if self.has(tx_id + 1) {
            SessionModel {
                transactions: self.transactions.remove(self.index_of(tx_id + 1)),
                ..self
            }
        } else {
            self
        }
    }

    /// The session after an anomaly was raised that belongs to no
    /// transaction of its own: it goes to the newest one, or nowhere.
    pub open spec fn with_event(self, event: SNMPEvent) -> SessionModel {
        if self.transactions.len() > 0 {
            let last = self.transactions.len() - 1;
            SessionModel {
                transactions: self.transactions.update(
                    last,
                    self.transactions[last].with_event(event),
                ),
                ..self
            }
        } else {
            self
        }
    }

    /// The session after a version 1 or 2c message was handled.
    pub open spec fn after_v12(self, msg: SnmpMessage) -> SessionModel {
        let version = settled_version(self.version, v12_version(msg));
        SessionModel { version, ..self }.with_transaction(
            v12_transaction(version, (self.tx_id + 1) as u64, msg),
        )
    }

    /// The session after a version 3 message was handled.
    pub open spec fn after_v3(self, msg: SnmpV3Message) -> SessionModel {
        let version = settled_version(self.version, msg.version);
        SessionModel { version, ..self }.with_transaction(
            v3_transaction(version, (self.tx_id + 1) as u64, msg),
        )
    }

    /// The session after a decoded message of any version was handled.
    pub open spec fn after_message(self, msg: SnmpGenericMessage) -> SessionModel {
        match msg {
            SnmpGenericMessage::V1(m) => self.after_v12(m),
            SnmpGenericMessage::V2(m) => self.after_v12(m),
            SnmpGenericMessage::V3(m) => self.after_v3(m),
        }
    }

    /// The session after a buffer was seen whose envelope announced
    /// `probed` and whose decoding gave `decoded`.
    pub open spec fn after_buffer(
        self,
        probed: Result<u32, ProbeError>,
        decoded: Option<SnmpGenericMessage>,
    ) -> SessionModel {
        let version = match probed {
            Ok(v) if self.version == 0 => v,
            _ => self.version,
        };
        let probed_session = SessionModel { version, ..self };
        match decoded {
            Some(msg) => probed_session.after_message(msg),
            None => probed_session.with_event(SNMPEvent::MalformedData),
        }
    }

    /// Whether the transaction at `idx` is the first one from `cursor` on
    /// whose identifier, as callers count it, is `min_tx_id` or more.
    pub open spec fn is_next(self, min_tx_id: u64, cursor: u64, idx: int) -> bool {
        &&& cursor <= idx < self.transactions.len()
        &&& self.transactions[idx].id > min_tx_id
        &&& forall|k: int| cursor <= k < idx ==> (#[trigger] self.transactions[k]).id <= min_tx_id
    }

    /// Whether no transaction from `cursor` on has an identifier, as
    /// callers count it, of `min_tx_id` or more.
    pub open spec fn none_next(self, min_tx_id: u64, cursor: u64) -> bool {
        forall|k: int|
            cursor <= k < self.transactions.len() ==> (#[trigger] self.transactions[k]).id
                <= min_tx_id
    }

    /// Whether a transaction after `idx` has an identifier, as callers
    /// count it, of `min_tx_id` or more.
    pub open spec fn more_after(self, min_tx_id: u64, idx: int) -> bool {
        exists|k: int|
            idx < k < self.transactions.len() && (#[trigger] self.transactions[k]).id > min_tx_id
    }
}

impl View for SNMPState {
    type V = SessionModel;

    closed spec fn view(&self) -> SessionModel {
        SessionModel {
            version: self.version,
            transactions: self.transactions@.map_values(|t: SNMPTransaction| t@),
            tx_id: self.tx_id,
        }
    }
}

impl SNMPState {
    /// The session's invariant.
    pub open spec fn wf(&self) -> bool {
        self@.wf()
    }

    /// A session with no version settled and no transaction.
    pub fn new() -> (s: SNMPState)
        ensures
            s@ == (SessionModel { version: 0, transactions: Seq::empty(), tx_id: 0 }),
            s.wf(),
    {
        let s = SNMPState { version: 0, transactions: Vec::new(), tx_id: 0 };
        assert(s@.transactions =~= Seq::empty());
        s
    }

    /// How many transactions were ever created, freed ones included.
    pub fn tx_count(&self) -> (n: u64)
        ensures
            n == self@.tx_id,
    {
        self.tx_id
    }

    /// How many transactions are live.
    pub fn live_count(&self) -> (n: usize)
        ensures
            n == self@.transactions.len(),
    {
        self.transactions.len()
    }

    /// Frees every transaction. The version and the counter stay.
    pub fn free(&mut self)
        ensures
            final(self)@ == (SessionModel { transactions: Seq::empty(), ..old(self)@ }),
            old(self).wf() ==> final(self).wf(),
    {
        self.transactions.clear();
        assert(self@.transactions =~= Seq::empty());
    }

    /// Appends a transaction that carries the next identifier.
    fn push_tx(&mut self, tx: SNMPTransaction)
        requires
            old(self).wf(),
            tx@.id == old(self)@.tx_id + 1,
        ensures
            final(self)@ == old(self)@.with_transaction(tx@),
            final(self).wf(),
    {
        self.tx_id = tx.id();
        self.transactions.push(tx);
        assert(self@.transactions =~= old(self)@.transactions.push(tx@));
    }

    /// Records a version 1 or 2c message as a new transaction and returns
    /// its identifier, counted from 1. A session without a version takes
    /// the message's.
    pub fn handle_snmp_v12(&mut self, msg: SnmpMessage, _direction: u8) -> (id: u64)
        requires
            old(self).wf(),
            old(self)@.tx_id < u64::MAX,
            msg.version < u32::MAX,
        ensures
            final(self)@ == old(self)@.after_v12(msg),
            final(self).wf(),
            id == old(self)@.tx_id + 1,
    {
        if self.version == 0 {
            self.version = msg.version + 1;
        }
        let id: u64 = self.tx_id + 1;
        let tx = SNMPTransaction::from_v12(self.version, id, msg);
        self.push_tx(tx);
        id
    }

    /// Records a version 3 message as a new transaction and returns its
    /// identifier, counted from 1. A session without a version takes the
    /// message's.
    pub fn handle_snmp_v3(&mut self, msg: SnmpV3Message, _direction: u8) -> (id: u64)
        requires
            old(self).wf(),
            old(self)@.tx_id < u64::MAX,
        ensures
            final(self)@ == old(self)@.after_v3(msg),
            final(self).wf(),
            id == old(self)@.tx_id + 1,
    {
        if self.version == 0 {
            self.version = msg.version;
        }
        let id: u64 = self.tx_id + 1;
        let tx = SNMPTransaction::from_v3(self.version, id, msg);
        self.push_tx(tx);
        id
    }

    /// Records a decoded message of any version as a new transaction and
    /// returns its identifier, counted from 1.
    pub fn handle_message(&mut self, msg: SnmpGenericMessage, direction: u8) -> (id: u64)
        requires
            old(self).wf(),
            old(self)@.tx_id < u64::MAX,
            !(msg is V3) ==> generic_wire_version(msg) < u32::MAX,
        ensures
            final(self)@ == old(self)@.after_message(msg),
            final(self).wf(),
            id == old(self)@.tx_id + 1,
    {
        match msg {
            SnmpGenericMessage::V1(m) => self.handle_snmp_v12(m, direction),
            SnmpGenericMessage::V2(m) => self.handle_snmp_v12(m, direction),
            SnmpGenericMessage::V3(m) => self.handle_snmp_v3(m, direction),
        }
    }

    /// Raises an anomaly that belongs to no transaction of its own: it is
    /// recorded on the newest transaction, and dropped where there is none.
    pub fn set_event(&mut self, event: SNMPEvent)
        ensures
            final(self)@ == old(self)@.with_event(event),
            old(self).wf() ==> final(self).wf(),
    {
        match self.transactions.pop() {
            Some(mut tx) => {
                tx.set_event(event);
                self.transactions.push(tx);
                assert(self@.transactions =~= old(self)@.with_event(event).transactions);
            },
            None => {
                assert(self@.transactions =~= old(self)@.transactions);
            },
        }
    }

    /// Records an anomaly on the given transaction.
    pub fn set_event_tx(&self, tx: &mut SNMPTransaction, event: SNMPEvent)
        ensures
            final(tx)@ == old(tx)@.with_event(event),
    {
        tx.set_event(event);
    }

    /// Takes in one buffer, given what its envelope announced and what the
    /// decoder made of it. Returns 0 where a message was decoded, -1 where
    /// not; the session goes on either way.
    pub fn handle_buffer(
        &mut self,
        probed: Result<u32, ProbeError>,
        decoded: Option<SnmpGenericMessage>,
        direction: u8,
    ) -> (status: i32)
        requires
            old(self).wf(),
            old(self)@.tx_id < u64::MAX,
            decoded matches Some(msg) ==> (!(msg is V3) ==> generic_wire_version(msg) < u32::MAX),
        ensures
            final(self)@ == old(self)@.after_buffer(probed, decoded),
            final(self).wf(),
            status == (if decoded is Some { 0i32 } else { -1i32 }),
    {
        if self.version == 0 {
            match probed {
                Ok(v) => {
                    self.version = v;
                },
                Err(_) => {},
            }
        }
        match decoded {
            Some(msg) => {
                let _ = self.handle_message(msg, direction);
                0
            },
            None => {
                self.set_event(SNMPEvent::MalformedData);
                -1
            },
        }
    }

    /// Takes in one buffer: `i` are its bytes and `decoded` what the
    /// decoder made of them. While no version is settled, the envelope of
    /// `i` is asked first.
    pub fn parse(&mut self, i: &[u8], decoded: Option<SnmpGenericMessage>, direction: u8) -> (status: i32)
        requires
            old(self).wf(),
            old(self)@.tx_id < u64::MAX,
            decoded matches Some(msg) ==> (!(msg is V3) ==> generic_wire_version(msg) < u32::MAX),
        ensures
            final(self)@ == old(self)@.after_buffer(
                envelope_version(der_sequence_shape(i@)),
                decoded,
            ),
            final(self).wf(),
            status == (if decoded is Some { 0i32 } else { -1i32 }),
    {
        let probed = if self.version == 0 {
            parse_pdu_enveloppe_version(i)
        } else {
            Err(ProbeError::Verify)
        };
        self.handle_buffer(probed, decoded, direction)
    }

    /// The transaction that callers know as `tx_id` (counted from 0), if
    /// it is live. The newest transactions are looked at first.
    pub fn get_tx_by_id(&self, tx_id: u64) -> (r: Option<&SNMPTransaction>)
        requires
            self.wf(),
        ensures
            match r {
                Some(tx) => tx@.id == tx_id + 1 && self@.has(tx_id + 1) && self@.transactions[self@.index_of(
                    tx_id + 1,
                )] == tx@,
                None => !self@.has(tx_id + 1),
            },
    {
        if tx_id == u64::MAX {
            return None;
        }
        let target: u64 = tx_id + 1;
        let mut i: usize = self.transactions.len();
        while i > 0
            invariant
                i <= self.transactions.len(),
                target == tx_id + 1,
                self.wf(),
                forall|k: int|
                    i <= k < self.transactions.len() ==> (#[trigger] self@.transactions[k]).id
                        != target,
            decreases i,
        {
            i -= 1;
            let tx = &self.transactions[i];
            if tx.id() == target {
                assert(self@.transactions[i as int] == tx@);
                proof {
                    lemma_index_of_unique(self@, target as int, i as int);
                }
                return Some(tx);
            }
        }
        None
    }

    /// Frees the transaction that callers know as `tx_id` (counted from 0)
    /// and no other. Returns whether there was one.
    pub fn free_tx(&mut self, tx_id: u64) -> (found: bool)
        requires
            old(self).wf(),
        ensures
            final(self)@ == old(self)@.without(tx_id),
            found == old(self)@.has(tx_id + 1),
            !final(self)@.has(tx_id + 1),
            final(self).wf(),
    {
        if tx_id == u64::MAX {
            return false;
        }
        let target: u64 = tx_id + 1;
        let len: usize = self.transactions.len();
        let mut i: usize = 0;
        while i < len
            invariant
                i <= len,
                len == self.transactions.len(),
                *self == *old(self),
                target == tx_id + 1,
                self.wf(),
                forall|k: int| 0 <= k < i ==> (#[trigger] self@.transactions[k]).id != target,
            decreases len - i,
        {
            if self.transactions[i].id() == target {
                assert(self@.transactions[i as int].id == target);
                proof {
                    lemma_index_of_unique(self@, target as int, i as int);
                    lemma_without_drops(self@, tx_id);
                }
                let _ = self.transactions.remove(i);
                assert(self@.transactions =~= old(self)@.transactions.remove(i as int));
                return true;
            }
            i += 1;
        }
        false
    }

    /// Stores the detection engine's handle on the transaction that
    /// callers know as `tx_id` (counted from 0). Returns whether it is live.
    pub fn set_tx_detect_state(&mut self, tx_id: u64, handle: u64) -> (found: bool)
        requires
            old(self).wf(),
        ensures
            found == old(self)@.has(tx_id + 1),
            !found ==> final(self)@ == old(self)@,
            found ==> final(self)@ == (SessionModel {
                transactions: old(self)@.transactions.update(
                    old(self)@.index_of(tx_id + 1),
                    (TransactionModel {
                        de_state: Some(handle),
                        ..old(self)@.transactions[old(self)@.index_of(tx_id + 1)]
                    }),
                ),
                ..old(self)@
            }),
            final(self).wf(),
    {
        if tx_id == u64::MAX {
            return false;
        }
        let target: u64 = tx_id + 1;
        let len: usize = self.transactions.len();
        let mut i: usize = 0;
        while i < len
            invariant
                i <= len,
                len == self.transactions.len(),
                *self == *old(self),
                target == tx_id + 1,
                self.wf(),
                forall|k: int| 0 <= k < i ==> (#[trigger] self@.transactions[k]).id != target,
            decreases len - i,
        {
            if self.transactions[i].id() == target {
                assert(self@.transactions[i as int].id == target);
                proof {
                    lemma_index_of_unique(self@, target as int, i as int);
                }
                let mut tx = self.transactions.remove(i);
                tx.set_detect_state(handle);
                self.transactions.insert(i, tx);
                assert(self@.transactions =~= old(self)@.transactions.update(i as int, tx@));
                return true;
            }
            i += 1;
        }
        false
    }

    /// Hands out the first transaction from the place `*state` on whose
    /// identifier, as callers count it from 0, is `min_tx_id` or more:
    /// the transaction, that identifier, and whether more such follow.
    /// `*state` then stands just behind it. Where there is none, `*state`
    /// stays.
    pub fn get_tx_iterator(&self, min_tx_id: u64, state: &mut u64) -> (r: Option<
        (&SNMPTransaction, u64, bool),
    >)
        requires
            self.wf(),
        ensures
            match r {
                Some((tx, tx_id, has_next)) => {
                    &&& self@.is_next(min_tx_id, *old(state), *final(state) - 1)
                    &&& tx@ == self@.transactions[*final(state) - 1]
                    &&& tx_id == tx@.id - 1
                    &&& has_next == self@.more_after(min_tx_id, *final(state) - 1)
                    &&& has_next == (*final(state) < self@.transactions.len())
                },
                None => self@.none_next(min_tx_id, *old(state)) && *final(state) == *old(state),
            },
    {
        let len: usize = self.transactions.len();
        if *state >= len as u64 {
            return None;
        }
        let mut index: usize = *state as usize;
        while index < len
            invariant
                *old(state) <= index <= len,
                len == self.transactions.len(),
                *state == *old(state),
                self.wf(),
                forall|k: int|
                    *old(state) <= k < index ==> (#[trigger] self@.transactions[k]).id
                        <= min_tx_id,
            decreases len - index,
        {
            let tx = &self.transactions[index];
            if tx.id() > min_tx_id {
                assert(self@.transactions[index as int] == tx@);
                *state = index as u64 + 1;
                let has_next = len - index > 1;
                proof {
                    if has_next {
                        assert(self@.transactions[index + 1].id > min_tx_id);
                    }
                }
                return Some((tx, tx.id() - 1, has_next));
            }
            index += 1;
        }
        None
    }
}

/// The version on the wire of a version 1 or 2c message; 0 for version 3.
pub open spec fn generic_wire_version(msg: SnmpGenericMessage) -> u32 {
    match msg {
        SnmpGenericMessage::V1(m) => m.version,
        SnmpGenericMessage::V2(m) => m.version,
        SnmpGenericMessage::V3(_) => 0,
    }
}

/// In a well-formed session an identifier names one place at most.
pub proof fn lemma_index_of_unique(s: SessionModel, id: int, i: int)
    requires
        s.wf(),
        0 <= i < s.transactions.len(),
        s.transactions[i].id == id,
    ensures
        s.has(id),
        s.index_of(id) == i,
{
    let j = s.index_of(id);
    assert(0 <= j < s.transactions.len() && s.transactions[j].id == id);
    if j < i {
        assert(s.transactions[j].id < s.transactions[i].id);
    }
    if i < j {
        assert(s.transactions[i].id < s.transactions[j].id);
    }
}

/// Freeing removes the named transaction and no other: every other
/// transaction stays, the list still rises by identifier, the counter and
/// the version stay, and the name is then unknown, so that freeing it once
/// more changes nothing.
pub proof fn lemma_without_drops(s: SessionModel, tx_id: u64)
    requires
        s.wf(),
    ensures
        s.without(tx_id).wf(),
        s.without(tx_id).tx_id == s.tx_id,
        s.without(tx_id).version == s.version,
        !s.without(tx_id).has(tx_id + 1),
        s.without(tx_id).without(tx_id) == s.without(tx_id),
        forall|t: TransactionModel|
            s.without(tx_id).transactions.contains(t) <==> s.transactions.contains(t) && t.id
                != tx_id + 1,
        s.has(tx_id + 1) ==> s.without(tx_id).transactions.len() + 1 == s.transactions.len(),
{
    let r = s.without(tx_id);
    if s.has(tx_id + 1) {
        let idx = s.index_of(tx_id + 1);
        assert(0 <= idx < s.transactions.len() && s.transactions[idx].id == tx_id + 1);
        assert forall|i: int| 0 <= i < r.transactions.len() implies (#[trigger] r.transactions[i])
            == s.transactions[if i < idx { i } else { i + 1 }] by {}
        assert forall|i: int, j: int| 0 <= i < j < r.transactions.len() implies (
        #[trigger] r.transactions[i]).id < (#[trigger] r.transactions[j]).id by {
            let a = if i < idx { i } else { i + 1 };
            let b = if j < idx { j } else { j + 1 };
            assert(s.transactions[a].id < s.transactions[b].id);
        }
        assert forall|i: int| 0 <= i < r.transactions.len() implies (#[trigger] r.transactions[i]).id
            != tx_id + 1 by {
            let a = if i < idx { i } else { i + 1 };
            if a < idx {
                assert(s.transactions[a].id < s.transactions[idx].id);
            } else {
                assert(s.transactions[idx].id < s.transactions[a].id);
            }
        }
        assert forall|t: TransactionModel|
            r.transactions.contains(t) <==> s.transactions.contains(t) && t.id != tx_id + 1 by {
            if r.transactions.contains(t) {
                let i = choose|i: int| 0 <= i < r.transactions.len() && r.transactions[i] == t;
                let a = if i < idx { i } else { i + 1 };
                assert(s.transactions[a] == t);
            }
            if s.transactions.contains(t) && t.id != tx_id + 1 {
                let a = choose|a: int| 0 <= a < s.transactions.len() && s.transactions[a] == t;
                let i = if a < idx { a } else { a - 1 };
                assert(r.transactions[i] == t);
            }
        }
    } else {
        assert forall|t: TransactionModel|
            r.transactions.contains(t) <==> s.transactions.contains(t) && t.id != tx_id + 1 by {
            if s.transactions.contains(t) {
                let a = choose|a: int| 0 <= a < s.transactions.len() && s.transactions[a] == t;
                assert(s.transactions[a].id != tx_id + 1);
            }
        }
    }
}

/// The session after the transactions named in `ids` were freed, in that order.
pub open spec fn after_frees(s: SessionModel, ids: Seq<u64>) -> SessionModel
    decreases ids.len(),
{
    if ids.len() == 0 {
        s
    } else {
        after_frees(s, ids.drop_last()).without(ids.last())
    }
}

/// Freeing never touches the counter: however many transactions are freed,
/// and in whatever order, the session stays well-formed and the next
/// identifier is the one it would have been.
pub proof fn lemma_frees_keep_counter(s: SessionModel, ids: Seq<u64>)
    requires
        s.wf(),
    ensures
        after_frees(s, ids).wf(),
        after_frees(s, ids).tx_id == s.tx_id,
        after_frees(s, ids).version == s.version,
    decreases ids.len(),
{
    if ids.len() > 0 {
        lemma_frees_keep_counter(s, ids.drop_last());
        lemma_without_drops(after_frees(s, ids.drop_last()), ids.last());
    }
}

/// A message always gets the identifier one above the counter, which is
/// above every identifier given before; the earlier transactions stay as
/// they were. A first message gets 1.
pub proof fn lemma_message_takes_next_id(s: SessionModel, msg: SnmpGenericMessage)
    requires
        s.wf(),
        s.tx_id < u64::MAX,
    ensures
        s.after_message(msg).wf(),
        s.after_message(msg).tx_id == s.tx_id + 1,
        s.after_message(msg).transactions.len() == s.transactions.len() + 1,
        s.after_message(msg).transactions.last().id == s.tx_id + 1,
        s.after_message(msg).transactions.drop_last() == s.transactions,
        forall|i: int|
            0 <= i < s.transactions.len() ==> (#[trigger] s.transactions[i]).id < s.after_message(
                msg,
            ).transactions.last().id,
        s.version != 0 ==> s.after_message(msg).version == s.version,
{
    let r = s.after_message(msg);
    assert(r.transactions.drop_last() =~= s.transactions);
    assert forall|i: int, j: int| 0 <= i < j < r.transactions.len() implies (
    #[trigger] r.transactions[i]).id < (#[trigger] r.transactions[j]).id by {
        if j < s.transactions.len() {
            assert(s.transactions[i].id < s.transactions[j].id);
        } else {
            assert(s.transactions[i].id <= s.tx_id);
        }
    }
    assert forall|i: int| 0 <= i < r.transactions.len() implies 1 <= (
    #[trigger] r.transactions[i]).id <= r.tx_id by {
        if i < s.transactions.len() {
            assert(s.transactions[i].id <= s.tx_id);
        }
    }
}

/// An identifier that was never given out names no transaction. (One
/// that was freed names none either: see `lemma_without_drops`.)
pub proof fn lemma_unassigned_id_absent(s: SessionModel, tx_id: u64)
    requires
        s.wf(),
        tx_id >= s.tx_id,
    ensures
        !s.has(tx_id + 1),
{
    assert forall|i: int| 0 <= i < s.transactions.len() implies (#[trigger] s.transactions[i]).id
        != tx_id + 1 by {}
}

/// With a least identifier of 0 nothing is skipped: from the place
/// `cursor` the next transaction is the one at `cursor`, and more follow
/// unless it is the last. So a pass that starts at 0 meets every
/// transaction once, in rising order of identifiers.
pub proof fn lemma_iterate_from_zero(s: SessionModel, cursor: u64, idx: int)
    requires
        s.wf(),
        cursor < s.transactions.len(),
    ensures
        s.is_next(0, cursor, idx) <==> idx == cursor,
        s.more_after(0, cursor as int) <==> cursor + 1 < s.transactions.len(),
        !s.none_next(0, cursor),
{
    assert(s.transactions[cursor as int].id >= 1);
    if s.is_next(0, cursor, idx) && idx > cursor {
        assert(s.transactions[cursor as int].id <= 0);
    }
    if cursor + 1 < s.transactions.len() {
        assert(s.transactions[cursor + 1].id > 0);
    }
}

/// Once a pass has handed out the last transaction, asking from the
/// start for identifiers above that one finds nothing.
pub proof fn lemma_iterate_past_last(s: SessionModel)
    requires
        s.wf(),
        s.transactions.len() > 0,
    ensures
        s.none_next(s.transactions.last().id, 0),
{
    let last = s.transactions.len() - 1;
    assert forall|k: int| 0 <= k < s.transactions.len() implies (#[trigger] s.transactions[k]).id
        <= s.transactions.last().id by {
        if k < last {
            assert(s.transactions[k].id < s.transactions[last].id);
        }
    }
}

} // verus!
