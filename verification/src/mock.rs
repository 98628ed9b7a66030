//! Decisions of the mock runtimes' test helpers: the genesis balances, the
//! scans of recorded events, and the block-rolling loop.
use vstd::prelude::*;

verus! {

/// The balance that the genesis account starts with.
pub const INITIAL_BALANCE: u128 = 100;

/// The account that genesis endows: the 32-byte id of all zeros.
pub open spec fn genesis_account() -> Seq<u8> {
    Seq::new(32, |i: int| 0u8)
}

/// The balances that genesis sets: one account, all-zero id, `INITIAL_BALANCE`.
pub fn genesis_balances() -> (r: Vec<([u8; 32], u128)>)
    ensures
        r@.len() == 1,
        r@[0].0@ == genesis_account(),
        r@[0].1 == INITIAL_BALANCE,
{
    let account: [u8; 32] = [0u8; 32];
    assert(account@ =~= genesis_account());
    let mut r: Vec<([u8; 32], u128)> = Vec::new();
    r.push((account, INITIAL_BALANCE));
    r
}

/// The kinds of recorded runtime events that the helpers look for.
#[derive(Clone, Copy, Debug, PartialEq, Eq, Structural)]
pub enum EventKind {
    /// The XCM pallet trapped assets.
    AssetsTrapped,
    /// The XCM pallet let trapped assets be claimed.
    AssetsClaimed,
    /// Any other event.
    Other,
}

/// Whether some recorded event is of kind `kind`.
pub fn has_event_of_kind(events: &Vec<EventKind>, kind: EventKind) -> (r: bool)
    ensures
        r == events@.contains(kind),
{
    let mut i: usize = 0;
    while i < events.len()
        invariant
            i <= events@.len(),
            forall|j: int| 0 <= j < i ==> events@[j] != kind,
        decreases events@.len() - i,
    {
        if events[i] == kind {
            assert(events@[i as int] == kind);
            return true;
        }
        i = i + 1;
    }
    false
}

/// Whether the XCM pallet recorded that it trapped assets.
pub fn assets_have_been_trapped(events: &Vec<EventKind>) -> (r: bool)
    ensures
        r == events@.contains(EventKind::AssetsTrapped),
{
    has_event_of_kind(events, EventKind::AssetsTrapped)
}

/// Whether the XCM pallet recorded that trapped assets were claimed.
pub fn assets_have_been_claimed(events: &Vec<EventKind>) -> (r: bool)
    ensures
        r == events@.contains(EventKind::AssetsClaimed),
{
    has_event_of_kind(events, EventKind::AssetsClaimed)
}

/// One step of rolling the chain to block `target`: from block `current`, the
/// next block to initialize, or `None` when `target` is reached.
pub open spec fn next_block(current: u64, target: u64) -> Option<u64> {
    if current < target {
        Some((current + 1) as u64)
    } else {
        None
    }
}

/// The next block to initialize when rolling to `target`; see `next_block`.
/// The caller finalizes block `current`, sets and initializes the returned one.
pub fn roll_step(current: u64, target: u64) -> (r: Option<u64>)
    ensures
        r == next_block(current, target),
{
    if current < target {
        Some(current + 1)
    } else {
        None
    }
}

/// The block at which rolling from `current` to `target` stops.
pub open spec fn rolled_to(current: u64, target: u64) -> u64
    decreases target - current,
{
    match next_block(current, target) {
        Some(next) => rolled_to(next, target),
        None => current,
    }
}

/// How many blocks rolling from `current` to `target` goes through.
pub open spec fn roll_count(current: u64, target: u64) -> nat
    decreases target - current,
{
    match next_block(current, target) {
        Some(next) => 1 + roll_count(next, target),
        None => 0,
    }
}

/// Law: rolling stops at the later of the current block and the target, and
/// goes through one block for each number between them.
pub proof fn law_roll_reaches_target(current: u64, target: u64)
    ensures
        rolled_to(current, target) == if current < target { target } else { current },
        roll_count(current, target) == if current < target { target - current } else { 0 },
    decreases target - current,
{
    if current < target {
        law_roll_reaches_target((current + 1) as u64, target);
    }
}

/// Law: rolling is idempotent and composes: rolling to `a` and then to a
/// later `b` stops where rolling straight to `b` does, and rolling twice to
/// the same target stops where rolling once does.
pub proof fn law_roll_composes(current: u64, a: u64, b: u64)
    requires
        a <= b,
    ensures
        rolled_to(rolled_to(current, a), b) == rolled_to(current, b),
        rolled_to(rolled_to(current, b), b) == rolled_to(current, b),
{
    law_roll_reaches_target(current, a);
    law_roll_reaches_target(current, b);
    law_roll_reaches_target(rolled_to(current, a), b);
    law_roll_reaches_target(rolled_to(current, b), b);
}

/// Law: once an event of some kind is recorded, the scan keeps finding it
/// however many events follow.
pub proof fn law_event_scan_monotone(events: Seq<EventKind>, more: Seq<EventKind>, kind: EventKind)
    requires
        events.contains(kind),
    ensures
        (events + more).contains(kind),
{
    let i = choose|i: int| 0 <= i < events.len() && events[i] == kind;
    assert((events + more)[i] == kind);
}

} // verus!
