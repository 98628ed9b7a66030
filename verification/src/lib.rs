//! Verified core of a parachain mock runtime used in XCM activities: the
//! decisions and a state model of the message-queue pallet that receives XCMP
//! and DMP messages, a state model of the pallet that controls the advertised
//! XCM version, and the decisions of the mock runtime's test helpers (genesis
//! balances, event scans, block rolling).
//!
//! Executing XCM, storage and the FRAME plumbing live around this crate; the
//! crate decides what happens with every message, which event is recorded,
//! and what the handlers report back.
mod hashing;

pub mod xcm_types;
pub mod xcmp_format;
pub mod mock_msg_queue;
pub mod mock_version_changer;
pub mod mock;

pub use hashing::{blake2_256_of, message_id};
