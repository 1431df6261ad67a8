//! Payment streams: a sender locks a deposit of a token, and the recipient can
//! withdraw it second by second at a fixed flow rate until the stream's end.
//!
//! - `vesting_math`: the amounts a stream releases, with their laws.
//! - `differential`: the same amounts computed from deposit and duration.
//! - `types`, `events`: the data model and the published events.
//! - `book`: the streams of one contract and the instructions on them.
//! - `laws`: properties that span the instructions.
//! - `payouts`: what each instruction pays, and to whom.
pub mod book;
pub mod differential;
pub mod events;
pub mod laws;
pub mod payouts;
pub mod types;
pub mod vesting_math;
