use xcm_activities::message_id;
use xcm_activities::mock_msg_queue::{
    dmp_decision, dmp_execution_request, xcmp_execution_request, xcmp_message_result, Event,
    ExecOrigin, ExecutionRequest, Pallet,
};
use xcm_activities::mock_version_changer::{Event as VersionEvent, Pallet as VersionChanger};
use xcm_activities::xcm_types::{ExecOutcome, Weight, XcmError};

type Queue = Pallet<u32, [u8; 32]>;

#[test]
fn para_id_read_after_set() {
    let mut queue: Queue = Pallet::new();
    assert_eq!(queue.get(), 0);
    queue.set_para_id(2000);
    assert_eq!(queue.get(), 2000);
    assert_eq!(queue.parachain_id(), 2000);
    assert!(queue.events().is_empty());
    assert!(queue.received_dmp().is_empty());
}

#[test]
fn xcmp_decisions() {
    let h = [7u8; 32];
    let w = Weight::from_parts(10, 20);
    assert_eq!(
        xcmp_message_result(h, Some(ExecOutcome::Complete(w))),
        (Ok(w), Event::Success(Some(h)))
    );
    assert_eq!(
        xcmp_message_result(h, Some(ExecOutcome::Incomplete(w, XcmError::Barrier))),
        (Ok(w), Event::Fail(Some(h), XcmError::Barrier))
    );
    assert_eq!(
        xcmp_message_result(h, Some(ExecOutcome::Error(XcmError::TooExpensive))),
        (Err(XcmError::TooExpensive), Event::Fail(Some(h), XcmError::TooExpensive))
    );
    assert_eq!(
        xcmp_message_result(h, None),
        (Err(XcmError::UnhandledXcmVersion), Event::BadVersion(Some(h)))
    );
}

#[test]
fn xcmp_message_records_its_hash_past_genesis() {
    let mut queue: Queue = Pallet::new();
    let h = [5u8; 32];
    let w = Weight::from_parts(1, 2);
    assert_eq!(queue.handle_xcmp_message(h, Some(ExecOutcome::Complete(w))), Ok(w));
    assert!(queue.events().is_empty());
    queue.set_block_number(1);
    assert_eq!(queue.block_number(), 1);
    assert_eq!(queue.handle_xcmp_message(h, Some(ExecOutcome::Complete(w))), Ok(w));
    assert_eq!(queue.handle_xcmp_message(h, None), Err(XcmError::UnhandledXcmVersion));
    assert_eq!(queue.events(), &vec![Event::Success(Some(h)), Event::BadVersion(Some(h))]);
    assert!(queue.received_dmp().is_empty());
}

#[test]
fn dmp_messages_are_stored_only_when_executed() {
    let mut queue: Queue = Pallet::new();
    queue.set_block_number(3);
    let good = vec![3u8, 0];
    let bad = vec![9u8, 0];
    let out = ExecOutcome::Error(XcmError::Barrier);
    queue.handle_dmp_message(&bad, Some((1, out)));
    queue.handle_dmp_message(&good, None);
    queue.handle_dmp_message(&good, Some((5, out)));
    assert_eq!(queue.received_dmp(), &vec![5u32]);
    assert_eq!(
        queue.events(),
        &vec![
            Event::InvalidFormat(message_id(&bad)),
            Event::UnsupportedVersion(message_id(&good)),
            Event::ExecutedDownward(message_id(&good), out),
        ]
    );
}

#[test]
fn dmp_at_genesis_stores_but_records_nothing() {
    let mut queue: Queue = Pallet::new();
    let out = ExecOutcome::Complete(Weight::from_parts(3, 4));
    queue.handle_dmp_message(&[3, 0], Some((8, out)));
    assert_eq!(queue.received_dmp(), &vec![8u32]);
    assert!(queue.events().is_empty());
}

#[test]
fn dmp_decisions() {
    let out = ExecOutcome::Complete(Weight::from_parts(3, 4));
    let (e, stored) = dmp_decision::<u32, [u8; 32]>(&[3, 0], Some((8, out)));
    assert_eq!(e, Event::ExecutedDownward(message_id(&[3, 0]), out));
    assert_eq!(stored, Some(8));
    let (e, stored) = dmp_decision::<u32, [u8; 32]>(&[], Some((8, out)));
    assert_eq!(e, Event::InvalidFormat(message_id(&[])));
    assert_eq!(stored, None);
}

#[test]
fn version_read_after_set() {
    let mut v = VersionChanger::new();
    assert_eq!(v.get(), 0);
    v.set_version(1);
    assert_eq!(v.get(), 1);
    assert!(v.events().is_empty());
    v.set_block_number(1);
    assert_eq!(v.block_number(), 1);
    v.set_version(2);
    v.set_version(3);
    assert_eq!(v.get(), 3);
    assert_eq!(v.current_version(), 3);
    assert_eq!(v.events(), &vec![VersionEvent::VersionChanged(2), VersionEvent::VersionChanged(3)]);
}

#[test]
fn execution_requests() {
    let w = Weight::from_parts(9, 9);
    assert_eq!(
        xcmp_execution_request(2001, &[3, 0], w),
        ExecutionRequest {
            origin: ExecOrigin::SiblingParachain(2001),
            message_id: message_id(&[3, 0]),
            weight_limit: w
        }
    );
    assert_eq!(
        dmp_execution_request(&[3, 4, 10], w),
        ExecutionRequest { origin: ExecOrigin::Parent, message_id: message_id(&[3, 4, 10]), weight_limit: w }
    );
}
