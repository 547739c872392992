//! Data model: principals, configuration, stream records and their
//! well-formedness invariant.

use vstd::prelude::*;

verus! {

/// Failure categories reported to callers. Every rejected operation leaves
/// the engine exactly as it was before the call.
#[derive(Clone, Copy, Debug, PartialEq, Eq, Structural)]
pub enum Error {
    /// Malformed arguments, a call on an uninitialised engine, or a stream
    /// whose status does not admit the requested transition.
    InvalidParams,
    /// No stream record exists under the given identifier.
    StreamNotFound,
    /// The invocation was not authorized by the required principal.
    NotAuthorized,
}

/// A principal identity on the host ledger, reduced to the one thing the
/// engine's logic reads of it: an identifier compared for equality.
#[derive(Clone, Copy, Debug, PartialEq, Eq, Structural)]
pub struct Address {
    pub id: u64,
}

impl Address {
    pub fn new(id: u64) -> (r: Address)
        ensures
            r.id == id,
    {
        Address { id }
    }
}

/// Process-wide configuration: the streamed asset and the administrator
/// identity. Set exactly once at initialisation, immutable thereafter.
#[derive(Clone, Copy, Debug, PartialEq, Eq, Structural)]
pub struct Config {
    pub token: Address,
    pub admin: Address,
}

/// Lifecycle status of a stream. `Active` and `Paused` are the only
/// non-terminal states; `Completed` and `Cancelled` are terminal.
#[derive(Clone, Copy, Debug, PartialEq, Eq, Structural)]
pub enum StreamStatus {
    Active,
    Paused,
    Completed,
    Cancelled,
}

/// One funding relationship: a fixed deposit released from `sender` to
/// `recipient` at `rate_per_second` over `[start_time, end_time]`, gated by
/// `cliff_time`.
#[derive(Clone, Copy, Debug, PartialEq, Eq, Structural)]
pub struct Stream {
    pub stream_id: u64,
    pub sender: Address,
    pub recipient: Address,
    pub deposit_amount: i128,
    pub rate_per_second: i128,
    pub start_time: u64,
    pub cliff_time: u64,
    pub end_time: u64,
    pub withdrawn_amount: i128,
    /// The accrual frozen at the moment of cancellation, claimable by the
    /// recipient afterwards; 0 until the record is Cancelled.
    pub settled_accrued: i128,
    pub status: StreamStatus,
}

impl Stream {
    /// Record invariant, established at creation and preserved by every
    /// transition: positive deposit and rate, distinct parties, an ordered
    /// time window containing the cliff, a deposit that covers streaming at
    /// full rate for the whole window, and a withdrawn amount within
    /// `[0, deposit_amount]`.
    pub open spec fn wf(self) -> bool {
        &&& self.deposit_amount > 0
        &&& self.rate_per_second > 0
        &&& self.sender != self.recipient
        &&& self.start_time < self.end_time
        &&& self.start_time <= self.cliff_time
        &&& self.cliff_time <= self.end_time
        &&& self.deposit_amount >= self.rate_per_second * (self.end_time - self.start_time)
        &&& 0 <= self.withdrawn_amount
        &&& self.withdrawn_amount <= self.deposit_amount
        &&& self.status is Cancelled ==> 0 <= self.settled_accrued
            <= self.deposit_amount
        &&& !(self.status is Cancelled) ==> self.settled_accrued == 0
    }

    /// Terminal records admit no further status transition.
    pub open spec fn is_terminal(self) -> bool {
        self.status is Completed || self.status is Cancelled
    }

    /// The same record with another status.
    pub open spec fn with_status(self, status: StreamStatus) -> Stream {
        Stream { status, ..self }
    }

    /// The record written for a freshly created stream.
    pub open spec fn initial(
        stream_id: u64,
        sender: Address,
        recipient: Address,
        deposit_amount: i128,
        rate_per_second: i128,
        start_time: u64,
        cliff_time: u64,
        end_time: u64,
    ) -> Stream {
        Stream {
            stream_id,
            sender,
            recipient,
            deposit_amount,
            rate_per_second,
            start_time,
            cliff_time,
            end_time,
            withdrawn_amount: 0,
            settled_accrued: 0,
            status: StreamStatus::Active,
        }
    }
}

/// What creation accepts: positive deposit and rate, distinct parties, an
/// ordered window containing the cliff, and a deposit that covers streaming
/// at full rate for the whole window.
pub open spec fn valid_stream_params(
    sender: Address,
    recipient: Address,
    deposit_amount: i128,
    rate_per_second: i128,
    start_time: u64,
    cliff_time: u64,
    end_time: u64,
) -> bool {
    &&& deposit_amount > 0
    &&& rate_per_second > 0
    &&& sender != recipient
    &&& start_time < end_time
    &&& start_time <= cliff_time
    &&& cliff_time <= end_time
    &&& deposit_amount >= rate_per_second * (end_time - start_time)
}

} // verus!
