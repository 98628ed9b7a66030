//! A verified model of the pallet that controls which XCM version the mock
//! parachain advertises, used to exercise version changes across a runtime
//! upgrade: what setting the version does to its storage and events.
use vstd::prelude::*;

verus! {

/// What the version changer records.
#[derive(Clone, Copy, Debug, PartialEq, Eq, Structural)]
pub enum Event {
    /// The advertised XCM version was set to the given one.
    VersionChanged(u32),
}

/// A model of the version changer's state: the advertised XCM version, the
/// block the chain is at, and the recorded events. The runtime keeps this
/// state in FRAME storage and does not use this model. Events deposited at block 0 (genesis) are not recorded, as the
/// runtime's event store drops them.
pub struct Pallet {
    current_version: u32,
    block_number: u64,
    events: Vec<Event>,
}

/// The abstract state of the version changer.
pub struct PalletView {
    pub current_version: u32,
    pub block_number: u64,
    pub events: Seq<Event>,
}

impl PalletView {
    /// The state after the version was set to `version` and the change
    /// deposited: recorded, unless the chain is at block 0.
    pub open spec fn with_version(self, version: u32) -> Self {
        PalletView {
            current_version: version,
            block_number: self.block_number,
            events: if self.block_number == 0 {
                self.events
            } else {
                self.events.push(Event::VersionChanged(version))
            },
        }
    }

    /// The state after the chain moved to block `n`.
    pub open spec fn with_block_number(self, n: u64) -> Self {
        PalletView { current_version: self.current_version, block_number: n, events: self.events }
    }
}

impl View for Pallet {
    type V = PalletView;

    closed spec fn view(&self) -> PalletView {
        PalletView {
            current_version: self.current_version,
            block_number: self.block_number,
            events: self.events@,
        }
    }
}

impl Pallet {
    /// The pallet at genesis: version 0, block 0, no events.
    pub fn new() -> (p: Self)
        ensures
            p@.current_version == 0,
            p@.block_number == 0,
            p@.events == Seq::<Event>::empty(),
    {
        Pallet { current_version: 0, block_number: 0, events: Vec::new() }
    }

    /// Moves the chain to block `n`.
    pub fn set_block_number(&mut self, n: u64)
        ensures
            final(self)@ == old(self)@.with_block_number(n),
    {
        self.block_number = n;
    }

    /// Sets the advertised version and deposits that it changed; the event is
    /// recorded unless the chain is at block 0.
    pub fn set_version(&mut self, version: u32)
        ensures
            final(self)@ == old(self)@.with_version(version),
    {
        self.current_version = version;
        if self.block_number != 0 {
            self.events.push(Event::VersionChanged(version));
        }
    }

    /// The advertised version.
    pub fn current_version(&self) -> (r: u32)
        ensures
            r == self@.current_version,
    {
        self.current_version
    }

    /// The advertised version, as the runtime reads it.
    pub fn get(&self) -> (r: u32)
        ensures
            r == self@.current_version,
    {
        self.current_version
    }

    /// The block the chain is at.
    pub fn block_number(&self) -> (r: u64)
        ensures
            r == self@.block_number,
    {
        self.block_number
    }

    /// The recorded events, oldest first.
    pub fn events(&self) -> (r: &Vec<Event>)
        ensures
            r@ == self@.events,
    {
        &self.events
    }
}

/// Law: reading the version after setting it gives the version set. Past
/// genesis, setting it records exactly one event, which names that version,
/// after the earlier ones; at block 0 the events stay as they were.
pub proof fn law_version_read_after_set(state: PalletView, version: u32)
    ensures
        state.with_version(version).current_version == version,
        state.with_version(version).block_number == state.block_number,
        state.block_number != 0 ==> state.with_version(version).events.len() == state.events.len() + 1,
        state.block_number != 0 ==> state.with_version(version).events.last() == Event::VersionChanged(version),
        state.with_version(version).events.take(state.events.len() as int) == state.events,
        state.block_number == 0 ==> state.with_version(version).events == state.events,
{
    assert(state.with_version(version).events.take(state.events.len() as int) =~= state.events);
}

} // verus!
