use xcm_activities::mock::{
    assets_have_been_claimed, assets_have_been_trapped, genesis_balances, has_event_of_kind,
    roll_step, EventKind, INITIAL_BALANCE,
};

#[test]
fn genesis_endows_the_zero_account() {
    assert_eq!(genesis_balances(), vec![([0u8; 32], 100u128)]);
    assert_eq!(INITIAL_BALANCE, 100);
}

#[test]
fn event_scans() {
    let none: Vec<EventKind> = vec![];
    assert!(!assets_have_been_trapped(&none));
    assert!(!assets_have_been_claimed(&none));
    let events = vec![EventKind::Other, EventKind::AssetsTrapped, EventKind::Other];
    assert!(assets_have_been_trapped(&events));
    assert!(!assets_have_been_claimed(&events));
    let mut more = events.clone();
    more.push(EventKind::AssetsClaimed);
    assert!(assets_have_been_trapped(&more));
    assert!(assets_have_been_claimed(&more));
    assert!(has_event_of_kind(&more, EventKind::Other));
}

#[test]
fn rolling_reaches_the_target() {
    let mut block = 1u64;
    let mut initialized = vec![];
    while let Some(next) = roll_step(block, 4) {
        initialized.push(next);
        block = next;
    }
    assert_eq!(block, 4);
    assert_eq!(initialized, vec![2, 3, 4]);
    assert_eq!(roll_step(5, 4), None);
    assert_eq!(roll_step(4, 4), None);
    assert_eq!(roll_step(u64::MAX - 1, u64::MAX), Some(u64::MAX));
}

#[test]
fn rolling_twice_stops_where_rolling_once_does() {
    let roll = |mut block: u64, target: u64| {
        while let Some(next) = roll_step(block, target) {
            block = next;
        }
        block
    };
    assert_eq!(roll(roll(2, 5), 9), roll(2, 9));
    assert_eq!(roll(roll(2, 9), 9), roll(2, 9));
    assert_eq!(roll(roll(7, 3), 5), 7);
}
