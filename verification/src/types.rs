//! The data model of a payment stream.
use vstd::prelude::*;

verus! {

/// An account, a token contract or this contract, by number.
pub type AccountId = u64;

/// Where a stream is in its life. `Cancelled` and `Completed` are final.
#[derive(Clone, Copy, Debug, PartialEq, Eq, Structural)]
pub enum StreamStatus {
    Active,
    Completed,
    Cancelled,
}

/// A payment stream: `deposit` locked by `sender`, released to `recipient` at
/// `flow_rate` token units per second from `start_time` until `end_time`.
#[derive(Clone, Copy, Debug, PartialEq, Eq, Structural)]
pub struct Stream {
    pub id: u64,
    pub sender: AccountId,
    pub recipient: AccountId,
    pub token: AccountId,
    pub deposit: i128,
    pub flow_rate: i128,
    pub start_time: u64,
    pub cliff_time: u64,
    pub end_time: u64,
    pub last_withdraw_time: u64,
    pub status: StreamStatus,
    pub auto_renew: bool,
}

/// Why an instruction was refused.
#[derive(Clone, Copy, Debug, PartialEq, Eq, Structural)]
pub enum StreamError {
    StreamNotFound,
    NotRecipient,
    NotSender,
    StreamNotActive,
    ZeroAmount,
    InvalidDuration,
    DuplicateStream,
    ZeroFlowRate,
}

/// The number by which each error is known on chain.
pub open spec fn error_code(e: StreamError) -> u32 {
    match e {
        StreamError::StreamNotFound => 1,
        StreamError::NotRecipient => 2,
        StreamError::NotSender => 3,
        StreamError::StreamNotActive => 4,
        StreamError::ZeroAmount => 5,
        StreamError::InvalidDuration => 6,
        StreamError::DuplicateStream => 11,
        StreamError::ZeroFlowRate => 15,
    }
}

impl StreamError {
    /// The error's number on chain.
    pub fn code(&self) -> (c: u32)
        ensures
            c == error_code(*self),
    {
        match self {
            StreamError::StreamNotFound => 1,
            StreamError::NotRecipient => 2,
            StreamError::NotSender => 3,
            StreamError::StreamNotActive => 4,
            StreamError::ZeroAmount => 5,
            StreamError::InvalidDuration => 6,
            StreamError::DuplicateStream => 11,
            StreamError::ZeroFlowRate => 15,
        }
    }
}

} // verus!
