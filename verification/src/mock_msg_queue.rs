//! The message queue of the mock parachain: it receives XCMP messages from
//! sibling parachains and DMP messages from the relay chain, hands them to the
//! XCM executor and records what happened.
//!
//! The decision functions (`xcmp_execution_request`, `xcmp_message_result`,
//! `dmp_execution_request`, `dmp_decision`) are what the runtime's FRAME
//! pallet calls. `Pallet` is a verified model of that pallet's state (its
//! storage and the events it deposits) built on the same decisions; the
//! runtime keeps the state in FRAME storage and does not use this model.
//! Events deposited while the chain is at block 0 (genesis) are not recorded,
//! as the runtime's event store drops them.
use vstd::prelude::*;

use crate::hashing::{blake2_256_of, message_id};
use crate::xcm_types::{ExecOutcome, Weight, XcmError};
use crate::xcmp_format::{versioned_xcm_attempt, versioned_xcm_decodes};

verus! {

/// Identifier of a downward message: the BLAKE2b-256 hash of its bytes.
pub type MessageId = [u8; 32];

/// What the message queue records. `H` is the runtime's hash type, which
/// identifies XCMP messages.
#[derive(Clone, Debug, PartialEq, Eq)]
pub enum Event<H> {
    /// Some XCM was executed OK.
    Success(Option<H>),
    /// Some XCM failed.
    Fail(Option<H>, XcmError),
    /// Bad XCM version used.
    BadVersion(Option<H>),
    /// Bad XCM format used.
    BadFormat(Option<H>),
    /// Downward message is invalid XCM.
    InvalidFormat(MessageId),
    /// Downward message is unsupported version of XCM.
    UnsupportedVersion(MessageId),
    /// Downward message executed with the given outcome.
    ExecutedDownward(MessageId, ExecOutcome),
}

/// Where the executor is told a message comes from.
#[derive(Clone, Copy, Debug, PartialEq, Eq, Structural)]
pub enum ExecOrigin {
    /// The relay chain.
    Parent,
    /// The sibling parachain with the given id.
    SiblingParachain(u32),
}

/// What the executor is given besides the message: where it comes from, the
/// message id it is executed under, and the most weight it may use.
#[derive(Clone, Copy, Debug, PartialEq, Eq)]
pub struct ExecutionRequest {
    pub origin: ExecOrigin,
    pub message_id: [u8; 32],
    pub weight_limit: Weight,
}

/// The execution of an XCMP message from the sibling parachain `sender`,
/// whose SCALE encoding is `encoded`: from that sibling, under the hash of the
/// encoding, with the full `max_weight`.
pub fn xcmp_execution_request(sender: u32, encoded: &[u8], max_weight: Weight) -> (r: ExecutionRequest)
    ensures
        r.origin == ExecOrigin::SiblingParachain(sender),
        r.message_id == blake2_256_of(encoded@),
        r.weight_limit == max_weight,
{
    ExecutionRequest {
        origin: ExecOrigin::SiblingParachain(sender),
        message_id: message_id(encoded),
        weight_limit: max_weight,
    }
}

/// The execution of the downward message `data`: from the relay chain, under
/// the hash of `data` (the id its event carries), with the full `limit`.
pub fn dmp_execution_request(data: &[u8], limit: Weight) -> (r: ExecutionRequest)
    ensures
        r.origin == ExecOrigin::Parent,
        r.message_id == blake2_256_of(data@),
        r.weight_limit == limit,
{
    ExecutionRequest { origin: ExecOrigin::Parent, message_id: message_id(data), weight_limit: limit }
}

/// A model of the message queue's state: the parachain's own id, the block
/// the chain is at, the downward messages received so far (of message type
/// `M`), and the recorded events. The runtime keeps this state in FRAME
/// storage; this model states what its handlers do to it.
pub struct Pallet<M, H> {
    parachain_id: u32,
    block_number: u64,
    received_dmp: Vec<M>,
    events: Vec<Event<H>>,
}

/// The abstract state of the message queue.
pub struct PalletView<M, H> {
    pub parachain_id: u32,
    pub block_number: u64,
    pub received_dmp: Seq<M>,
    pub events: Seq<Event<H>>,
}

impl<M, H> PalletView<M, H> {
    /// The state after the parachain id was set to `id`.
    pub open spec fn with_parachain_id(self, id: u32) -> Self {
        PalletView { parachain_id: id, ..self }
    }

    /// The state after the chain moved to block `n`.
    pub open spec fn with_block_number(self, n: u64) -> Self {
        PalletView { block_number: n, ..self }
    }

    /// The state after `event` was deposited: recorded, unless the chain is at
    /// block 0.
    pub open spec fn with_event(self, event: Event<H>) -> Self {
        if self.block_number == 0 {
            self
        } else {
            PalletView { events: self.events.push(event), ..self }
        }
    }

    /// The state after the downward message `m` was stored.
    pub open spec fn with_received(self, m: M) -> Self {
        PalletView { received_dmp: self.received_dmp.push(m), ..self }
    }
}

impl<M, H> View for Pallet<M, H> {
    type V = PalletView<M, H>;

    closed spec fn view(&self) -> PalletView<M, H> {
        PalletView {
            parachain_id: self.parachain_id,
            block_number: self.block_number,
            received_dmp: self.received_dmp@,
            events: self.events@,
        }
    }
}

/// What handling one XCMP message identified by the runtime hash `hash`
/// reports and records. `executed` is `None` where the message could not be
/// converted to the current XCM version, else what the executor returned. An
/// incomplete execution still counts as dispatched for the caller, who learns
/// the weight used; the failure is recorded in the event.
pub open spec fn xcmp_decision<H>(hash: H, executed: Option<ExecOutcome>) -> (
    Result<Weight, XcmError>,
    Event<H>,
) {
    match executed {
        None => (Err(XcmError::UnhandledXcmVersion), Event::BadVersion(Some(hash))),
        Some(ExecOutcome::Error(e)) => (Err(e), Event::Fail(Some(hash), e)),
        Some(ExecOutcome::Complete(w)) => (Ok(w), Event::Success(Some(hash))),
        Some(ExecOutcome::Incomplete(w, e)) => (Ok(w), Event::Fail(Some(hash), e)),
    }
}

/// The event that handling the downward message `data` deposits. `executed`
/// is `None` where the decoded message could not be converted to the current
/// XCM version, else the converted message and what the executor returned.
pub open spec fn dmp_event<M, H>(data: Seq<u8>, executed: Option<(M, ExecOutcome)>) -> Event<H> {
    let id = blake2_256_of(data);
    if !versioned_xcm_attempt(data).0 {
        Event::InvalidFormat(id)
    } else {
        match executed {
            None => Event::UnsupportedVersion(id),
            Some((_, outcome)) => Event::ExecutedDownward(id, outcome),
        }
    }
}

/// The downward message that handling `data` stores: the converted message,
/// where `data` decoded and the message was converted; else none.
pub open spec fn dmp_stored<M>(data: Seq<u8>, executed: Option<(M, ExecOutcome)>) -> Option<M> {
    if versioned_xcm_attempt(data).0 && executed is Some {
        Some(executed.unwrap().0)
    } else {
        None
    }
}

/// Decides what handling one XCMP message reports and deposits; see `xcmp_decision`.
pub fn xcmp_message_result<H>(hash: H, executed: Option<ExecOutcome>) -> (r: (
    Result<Weight, XcmError>,
    Event<H>,
))
    ensures
        r == xcmp_decision(hash, executed),
{
    match executed {
        None => (Err(XcmError::UnhandledXcmVersion), Event::BadVersion(Some(hash))),
        Some(ExecOutcome::Error(e)) => (Err(e), Event::Fail(Some(hash), e)),
        Some(ExecOutcome::Complete(w)) => (Ok(w), Event::Success(Some(hash))),
        Some(ExecOutcome::Incomplete(w, e)) => (Ok(w), Event::Fail(Some(hash), e)),
    }
}

/// Decides what handling the downward message `data` deposits and stores;
/// see `dmp_event` and `dmp_stored`. The event carries the hash of `data`.
pub fn dmp_decision<M, H>(data: &[u8], executed: Option<(M, ExecOutcome)>) -> (r: (
    Event<H>,
    Option<M>,
))
    ensures
        r.0 == dmp_event::<M, H>(data@, executed),
        r.1 == dmp_stored(data@, executed),
{
    let id = message_id(data);
    if !versioned_xcm_decodes(data) {
        (Event::InvalidFormat(id), None)
    } else {
        match executed {
            None => (Event::UnsupportedVersion(id), None),
            Some((message, outcome)) => (Event::ExecutedDownward(id, outcome), Some(message)),
        }
    }
}

impl<M, H> Pallet<M, H> {
    /// The queue at genesis: parachain id 0, block 0, nothing received, no events.
    pub fn new() -> (p: Self)
        ensures
            p@.parachain_id == 0,
            p@.block_number == 0,
            p@.received_dmp == Seq::<M>::empty(),
            p@.events == Seq::<Event<H>>::empty(),
    {
        Pallet { parachain_id: 0, block_number: 0, received_dmp: Vec::new(), events: Vec::new() }
    }

    /// Moves the chain to block `n`.
    pub fn set_block_number(&mut self, n: u64)
        ensures
            final(self)@ == old(self)@.with_block_number(n),
    {
        self.block_number = n;
    }

    /// The block the chain is at.
    pub fn block_number(&self) -> (r: u64)
        ensures
            r == self@.block_number,
    {
        self.block_number
    }

    /// Stores the parachain's own id.
    pub fn set_para_id(&mut self, para_id: u32)
        ensures
            final(self)@ == old(self)@.with_parachain_id(para_id),
    {
        self.parachain_id = para_id;
    }

    /// The stored parachain id.
    pub fn parachain_id(&self) -> (r: u32)
        ensures
            r == self@.parachain_id,
    {
        self.parachain_id
    }

    /// The stored parachain id, as the runtime reads it.
    pub fn get(&self) -> (r: u32)
        ensures
            r == self@.parachain_id,
    {
        self.parachain_id
    }

    /// The downward messages received so far, oldest first.
    pub fn received_dmp(&self) -> (r: &Vec<M>)
        ensures
            r@ == self@.received_dmp,
    {
        &self.received_dmp
    }

    /// The recorded events, oldest first.
    pub fn events(&self) -> (r: &Vec<Event<H>>)
        ensures
            r@ == self@.events,
    {
        &self.events
    }

    /// Deposits `event`: records it, unless the chain is at block 0.
    pub fn deposit_event(&mut self, event: Event<H>)
        ensures
            final(self)@ == old(self)@.with_event(event),
    {
        if self.block_number != 0 {
            self.events.push(event);
        }
    }

    /// Handles one XCMP message identified by the runtime hash `hash` of its
    /// encoding, after the executor was given it (`executed`: `None` where it
    /// could not be converted to the current XCM version). Deposits the event
    /// and reports what `xcmp_decision` says.
    pub fn handle_xcmp_message(&mut self, hash: H, executed: Option<ExecOutcome>) -> (r: Result<
        Weight,
        XcmError,
    >)
        ensures
            r == xcmp_decision(hash, executed).0,
            final(self)@ == old(self)@.with_event(xcmp_decision(hash, executed).1),
    {
        let (result, event) = xcmp_message_result(hash, executed);
        self.deposit_event(event);
        result
    }

    /// Handles one downward message `data`. Where no versioned XCM decodes
    /// from it, deposits `InvalidFormat`; where it decodes but could not be
    /// converted (`executed` is `None`), deposits `UnsupportedVersion`; else
    /// stores the converted message and deposits its execution outcome. Every
    /// event carries the hash of `data`.
    pub fn handle_dmp_message(&mut self, data: &[u8], executed: Option<(M, ExecOutcome)>)
        ensures
            dmp_stored(data@, executed) matches Some(m) ==> final(self)@ == old(self)@.with_received(
                m,
            ).with_event(dmp_event(data@, executed)),
            dmp_stored(data@, executed) is None ==> final(self)@ == old(self)@.with_event(
                dmp_event(data@, executed),
            ),
    {
        let (event, stored) = dmp_decision(data, executed);
        match stored {
            Some(message) => {
                self.received_dmp.push(message);
            },
            None => {},
        }
        self.deposit_event(event);
    }
}

/// Law: reading the parachain id after setting it gives the id set, and
/// setting it leaves the rest of the state as it was.
pub proof fn law_para_id_read_after_set<M, H>(state: PalletView<M, H>, para_id: u32)
    ensures
        state.with_parachain_id(para_id).parachain_id == para_id,
        state.with_parachain_id(para_id).block_number == state.block_number,
        state.with_parachain_id(para_id).received_dmp == state.received_dmp,
        state.with_parachain_id(para_id).events == state.events,
{
}

/// Law: a deposited event is recorded, after all earlier ones, exactly when
/// the chain is past genesis; at block 0 the events stay as they were.
pub proof fn law_events_after_genesis<M, H>(state: PalletView<M, H>, event: Event<H>)
    ensures
        state.block_number != 0 ==> state.with_event(event).events == state.events.push(event),
        state.block_number == 0 ==> state.with_event(event).events == state.events,
        state.with_event(event).received_dmp == state.received_dmp,
        state.with_event(event).parachain_id == state.parachain_id,
{
}

/// Law: an XCMP message counts as dispatched (`Ok`) exactly when it was
/// converted and its execution started, and then the caller learns the weight
/// used; it is recorded as a success exactly when execution completed; and the
/// event always carries the message hash.
pub proof fn law_xcmp_dispatch<H>(hash: H, executed: Option<ExecOutcome>)
    ensures
        xcmp_decision(hash, executed).0 is Ok <==> (executed matches Some(o) && !(o is Error)),
        executed matches Some(ExecOutcome::Complete(w)) ==> xcmp_decision(hash, executed).0 == Ok::<Weight, XcmError>(w),
        executed matches Some(ExecOutcome::Incomplete(w, _)) ==> xcmp_decision(hash, executed).0 == Ok::<Weight, XcmError>(w),
        (xcmp_decision(hash, executed).1 is Success) <==> (executed matches Some(o) && o is Complete),
        xcmp_decision(hash, executed).1 matches Event::Success(h) ==> h == Some(hash),
        xcmp_decision(hash, executed).1 matches Event::Fail(h, _) ==> h == Some(hash),
        xcmp_decision(hash, executed).1 matches Event::BadVersion(h) ==> h == Some(hash),
{
}

/// Law: handling a downward message stores it exactly when it decoded and
/// was converted, and then it is the stored message that was executed; what
/// was stored before stays, in order; the event is recorded past genesis.
pub proof fn law_dmp_store<M, H>(data: Seq<u8>, executed: Option<(M, ExecOutcome)>)
    ensures
        dmp_stored(data, executed) is Some <==> (versioned_xcm_attempt(data).0 && executed is Some),
        dmp_stored(data, executed) matches Some(m) ==> (executed matches Some((x, o)) && x == m
            && dmp_event::<M, H>(data, executed) == Event::<H>::ExecutedDownward(blake2_256_of(data), o)),
        dmp_stored(data, executed) is None ==> !(dmp_event::<M, H>(data, executed) is ExecutedDownward),
{
}

/// Law: what handling an XCMP message reports and deposits, by what the
/// executor returned. A completed execution reports its weight and deposits
/// `Success`; an incomplete one reports its weight and deposits `Fail` with
/// the executor's own error; one that did not start reports that error and
/// deposits `Fail` with that same error; a message that could not be
/// converted reports `UnhandledXcmVersion` and deposits `BadVersion`. Every
/// event carries the message's hash, and a `Fail` event's error is always the
/// error the executor returned.
pub proof fn law_xcmp_outcome_to_event<H>(hash: H, executed: Option<ExecOutcome>, w: Weight, e: XcmError)
    ensures
        executed == Some(ExecOutcome::Complete(w)) ==> xcmp_decision(hash, executed) == (
            Ok::<Weight, XcmError>(w),
            Event::<H>::Success(Some(hash)),
        ),
        executed == Some(ExecOutcome::Incomplete(w, e)) ==> xcmp_decision(hash, executed) == (
            Ok::<Weight, XcmError>(w),
            Event::<H>::Fail(Some(hash), e),
        ),
        executed == Some(ExecOutcome::Error(e)) ==> xcmp_decision(hash, executed) == (
            Err::<Weight, XcmError>(e),
            Event::<H>::Fail(Some(hash), e),
        ),
        executed is None ==> xcmp_decision(hash, executed) == (
            Err::<Weight, XcmError>(XcmError::UnhandledXcmVersion),
            Event::<H>::BadVersion(Some(hash)),
        ),
        xcmp_decision(hash, executed).1 == Event::<H>::Fail(Some(hash), e) ==> (executed
            == Some(ExecOutcome::Error(e)) || exists|u: Weight| executed == Some(ExecOutcome::Incomplete(u, e))),
        (executed is Some && xcmp_decision(hash, executed).0 == Err::<Weight, XcmError>(e)) ==> xcmp_decision(
            hash,
            executed,
        ).1 == Event::<H>::Fail(Some(hash), e),
{
    if xcmp_decision(hash, executed).1 == Event::<H>::Fail(Some(hash), e) {
        match executed {
            Some(ExecOutcome::Incomplete(u, _)) => {
                assert(executed == Some(ExecOutcome::Incomplete(u, e)));
            },
            _ => {},
        }
    }
}

/// Law: the event of a downward message is keyed by the BLAKE2b-256 hash of
/// its bytes. Where no versioned XCM decodes from the bytes it is
/// `InvalidFormat`, whatever the caller passes as `executed`, and nothing is
/// stored; `UnsupportedVersion` comes only from bytes that decode but were
/// not converted; a stored message is the converted message itself, and its
/// event is `ExecutedDownward` with the executor's outcome.
pub proof fn law_dmp_event_by_decoding<M, H>(
    data: Seq<u8>,
    executed: Option<(M, ExecOutcome)>,
    other: Option<(M, ExecOutcome)>,
    m: M,
    o: ExecOutcome,
)
    ensures
        !versioned_xcm_attempt(data).0 ==> dmp_event::<M, H>(data, executed) == Event::<H>::InvalidFormat(
            blake2_256_of(data),
        ),
        !versioned_xcm_attempt(data).0 ==> dmp_event::<M, H>(data, executed) == dmp_event::<M, H>(data, other),
        !versioned_xcm_attempt(data).0 ==> dmp_stored(data, executed) is None,
        dmp_event::<M, H>(data, executed) is UnsupportedVersion <==> (versioned_xcm_attempt(data).0
            && executed is None),
        dmp_event::<M, H>(data, executed) is InvalidFormat <==> !versioned_xcm_attempt(data).0,
        (versioned_xcm_attempt(data).0 && executed == Some((m, o))) ==> (dmp_event::<M, H>(data, executed)
            == Event::<H>::ExecutedDownward(blake2_256_of(data), o) && dmp_stored(data, executed) == Some(m)),
        (versioned_xcm_attempt(data).0 && executed is None) ==> dmp_event::<M, H>(data, executed)
            == Event::<H>::UnsupportedVersion(blake2_256_of(data)),
{
}

/// Law: storing a received downward message appends it: the messages stored
/// before stay first, in their order, and the new one is last; nothing else
/// of the state changes.
pub proof fn law_received_appends<M, H>(state: PalletView<M, H>, m: M)
    ensures
        state.with_received(m).received_dmp == state.received_dmp.push(m),
        state.with_received(m).received_dmp.len() == state.received_dmp.len() + 1,
        state.with_received(m).received_dmp.last() == m,
        state.with_received(m).received_dmp.take(state.received_dmp.len() as int) == state.received_dmp,
        state.with_received(m).events == state.events,
        state.with_received(m).parachain_id == state.parachain_id,
        state.with_received(m).block_number == state.block_number,
{
    assert(state.received_dmp.push(m).take(state.received_dmp.len() as int) =~= state.received_dmp);
}

/// Law: handling downward messages one after another keeps every converted
/// message in arrival order: after handling `d1` then `d2` (both decoding and
/// converted to `m1` and `m2`), the queue is the earlier one followed by `m1`
/// and then `m2`.
pub proof fn law_dmp_queue_order<M, H>(
    state: PalletView<M, H>,
    d1: Seq<u8>,
    m1: M,
    o1: ExecOutcome,
    d2: Seq<u8>,
    m2: M,
    o2: ExecOutcome,
)
    requires
        versioned_xcm_attempt(d1).0,
        versioned_xcm_attempt(d2).0,
    ensures
        ({
            let s1 = state.with_received(m1).with_event(dmp_event::<M, H>(d1, Some((m1, o1))));
            let s2 = s1.with_received(m2).with_event(dmp_event::<M, H>(d2, Some((m2, o2))));
            &&& dmp_stored(d1, Some((m1, o1))) == Some(m1)
            &&& dmp_stored(d2, Some((m2, o2))) == Some(m2)
            &&& s2.received_dmp == state.received_dmp.push(m1).push(m2)
        }),
{
}

} // verus!
