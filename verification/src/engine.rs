//! Lifecycle Controller and Stream Registry: the process-wide state (one
//! configuration, one stream counter, one record per stream id) together with
//! the validated state transitions over it.
//!
//! Each operation is one atomic unit of work: it either succeeds and applies
//! its whole state change, or fails with an [`Error`] and leaves the engine
//! exactly as it was. Fund movements are reported to the caller as amounts
//! for the custody collaborator to transfer.

use crate::accrual::accrued_amount;
use crate::accrual::accrued_at;
use crate::accrual::cancel_refund;
use crate::accrual::claimable_amount;
use crate::accrual::claimable_at;
use crate::accrual::lemma_accrued_bounds;
use crate::accrual::same_accrual_schedule;
use crate::accrual::withdraw_payment;
use crate::auth::AuthContext;
use crate::stream::valid_stream_params;
use crate::stream::Address;
use crate::stream::Config;
use crate::stream::Error;
use crate::stream::Stream;
use crate::stream::StreamStatus;
use vstd::arithmetic::mul::lemma_mul_nonnegative;
use vstd::prelude::*;

verus! {

/// The record a successful withdrawal at time `now` leaves behind:
/// everything claimable counts as withdrawn, and an Active stream whose
/// deposit is fully withdrawn at or after the end of the window becomes
/// Completed.
pub open spec fn withdrawn_stream(s: Stream, now: u64) -> Stream {
    let paid_up = Stream { withdrawn_amount: claimable_at(s, now) as i128, ..s };
    if s.status is Active && now >= s.end_time && paid_up.withdrawn_amount >= s.deposit_amount {
        paid_up.with_status(StreamStatus::Completed)
    } else {
        paid_up
    }
}

/// The record a cancellation at time `now` leaves behind: Cancelled, with the
/// accrual frozen for the recipient's later claim.
pub open spec fn cancelled_stream(s: Stream, now: u64) -> Stream {
    Stream {
        status: StreamStatus::Cancelled,
        settled_accrued: accrued_at(s, now) as i128,
        ..s
    }
}

/// Cancellation creates and destroys no funds, whatever the later claim time:
/// what the recipient withdrew before the cancellation, what a withdrawal at
/// any later time still pays, and the sender's refund make up the deposit
/// exactly: the claim is frozen at its cancellation-time value. Everything
/// withdrawn before the cancellation had accrued by then, because ledger
/// timestamps never decrease across invocations.
pub proof fn lemma_cancellation_conserves_deposit(s: Stream, cancel_time: u64, claim_time: u64)
    requires
        s.wf(),
        !s.is_terminal(),
        s.withdrawn_amount <= accrued_at(s, cancel_time),
    ensures
        s.withdrawn_amount + withdraw_payment(cancelled_stream(s, cancel_time), claim_time)
            + cancel_refund(s, cancel_time) == s.deposit_amount,
        withdraw_payment(cancelled_stream(s, cancel_time), claim_time)
            == accrued_at(s, cancel_time) - s.withdrawn_amount,
        0 <= withdraw_payment(cancelled_stream(s, cancel_time), claim_time),
{
    lemma_accrued_bounds(s, cancel_time);
}

/// The payment-streaming engine: configuration, the next free stream id, and
/// one record per allocated id. Identifiers are assigned sequentially from 0,
/// so the record for stream `i` sits at index `i`.
pub struct FluxoraStream {
    pub config: Option<Config>,
    pub next_stream_id: u64,
    pub streams: Vec<Stream>,
}

impl FluxoraStream {
    /// Engine invariant: the counter equals the number of allocated records,
    /// records exist only after initialisation, and every record is
    /// well-formed and stored under its own id.
    pub open spec fn wf(self) -> bool {
        &&& self.streams@.len() == self.next_stream_id
        &&& self.config is None ==> self.streams@.len() == 0
        &&& forall|i: int|
            0 <= i < self.streams@.len() ==> (#[trigger] self.streams@[i]).wf()
        &&& forall|i: int|
            0 <= i < self.streams@.len() ==> (#[trigger] self.streams@[i]).stream_id == i
    }

    /// Whether a record exists under `stream_id`.
    pub open spec fn has_stream(self, stream_id: u64) -> bool {
        stream_id < self.streams@.len()
    }

    /// The record stored under `stream_id`.
    pub open spec fn stream_at(self, stream_id: u64) -> Stream {
        self.streams@[stream_id as int]
    }

    /// Whether `init` has run.
    pub open spec fn is_initialised(self) -> bool {
        self.config is Some
    }

    /// The administrator identity, once initialised.
    pub open spec fn admin(self) -> Address
        recommends
            self.is_initialised(),
    {
        self.config.unwrap().admin
    }

    /// Statuses of terminal records never change: the clause every operation
    /// ensures for the absorbing-state law.
    pub open spec fn preserves_terminal_statuses(pre: FluxoraStream, post: FluxoraStream) -> bool {
        forall|j: int|
            0 <= j < pre.streams@.len() && (#[trigger] pre.streams@[j]).is_terminal()
                ==> j < post.streams@.len() && post.streams@[j].status == pre.streams@[j].status
    }

    /// Withdrawn amounts never decrease: the clause every operation ensures
    /// for the monotone-disbursement rule of the data model.
    pub open spec fn withdrawn_never_decreases(pre: FluxoraStream, post: FluxoraStream) -> bool {
        forall|j: int|
            0 <= j < pre.streams@.len() ==> j < post.streams@.len()
                && post.streams@[j].withdrawn_amount >= (#[trigger] pre.streams@[j]).withdrawn_amount
    }

    /// A fresh, uninitialised engine holding no streams.
    pub fn new() -> (r: FluxoraStream)
        ensures
            r.wf(),
            !r.is_initialised(),
            r.next_stream_id == 0,
            r.streams@.len() == 0,
    {
        FluxoraStream { config: None, next_stream_id: 0, streams: Vec::new() }
    }

    /// One-time initialisation: records the streamed asset and the
    /// administrator, and starts the id counter at 0. Rejected once a
    /// configuration exists.
    pub fn init(&mut self, token: Address, admin: Address) -> (r: Result<(), Error>)
        requires
            old(self).wf(),
        ensures
            final(self).wf(),
            r is Ok <==> !old(self).is_initialised(),
            old(self).is_initialised() ==> r == Err::<(), Error>(Error::InvalidParams)
                && *final(self) == *old(self),
            r is Ok ==> final(self).config == Some((Config { token, admin }))
                && final(self).next_stream_id == 0
                && final(self).streams@.len() == 0,
            Self::preserves_terminal_statuses(*old(self), *final(self)),
            Self::withdrawn_never_decreases(*old(self), *final(self)),
    {
        if self.config.is_some() {
            return Err(Error::InvalidParams);
        }
        self.config = Some(Config { token, admin });
        self.next_stream_id = 0;
        Ok(())
    }

    /// Read-only view of the configuration; fails until `init` has run.
    pub fn get_config(&self) -> (r: Result<Config, Error>)
        ensures
            self.is_initialised() ==> r == Ok::<Config, Error>(self.config.unwrap()),
            !self.is_initialised() ==> r == Err::<Config, Error>(Error::InvalidParams),
    {
        match &self.config {
            Some(cfg) => Ok(*cfg),
            None => Err(Error::InvalidParams),
        }
    }

    /// Read-only view of one stream record.
    pub fn get_stream_state(&self, stream_id: u64) -> (r: Result<Stream, Error>)
        ensures
            self.has_stream(stream_id) ==> r == Ok::<Stream, Error>(self.stream_at(stream_id)),
            !self.has_stream(stream_id) ==> r == Err::<Stream, Error>(Error::StreamNotFound),
    {
        if stream_id >= self.streams.len() as u64 {
            return Err(Error::StreamNotFound);
        }
        Ok(self.streams[stream_id as usize])
    }

    /// Creates a stream: validates the parameters, allocates the next id and
    /// stores the new record as Active. Requires proof that `sender`
    /// authorized the call; on success the caller owes the custody
    /// collaborator a transfer of `deposit_amount` from `sender` into the
    /// engine's custody account.
    pub fn create_stream(
        &mut self,
        auth: &AuthContext,
        sender: Address,
        recipient: Address,
        deposit_amount: i128,
        rate_per_second: i128,
        start_time: u64,
        cliff_time: u64,
        end_time: u64,
    ) -> (r: Result<u64, Error>)
        requires
            old(self).wf(),
            old(self).next_stream_id < u64::MAX,
        ensures
            final(self).wf(),
            r is Err ==> *final(self) == *old(self),
            r is Ok <==> auth.grants(sender) && old(self).is_initialised()
                && valid_stream_params(
                sender,
                recipient,
                deposit_amount,
                rate_per_second,
                start_time,
                cliff_time,
                end_time,
            ),
            !auth.grants(sender) ==> r == Err::<u64, Error>(Error::NotAuthorized),
            auth.grants(sender) && r is Err ==> r == Err::<u64, Error>(Error::InvalidParams),
            deposit_amount < rate_per_second * (end_time - start_time) ==> r is Err,
            auth.grants(sender) && deposit_amount < rate_per_second * (end_time - start_time)
                ==> r == Err::<u64, Error>(Error::InvalidParams) && *final(self) == *old(self),
            r is Ok ==> r == Ok::<u64, Error>(old(self).next_stream_id)
                && final(self).next_stream_id == old(self).next_stream_id + 1
                && final(self).streams@ == old(self).streams@.push(
                Stream::initial(
                    old(self).next_stream_id,
                    sender,
                    recipient,
                    deposit_amount,
                    rate_per_second,
                    start_time,
                    cliff_time,
                    end_time,
                ),
            ) && final(self).config == old(self).config,
            Self::preserves_terminal_statuses(*old(self), *final(self)),
            Self::withdrawn_never_decreases(*old(self), *final(self)),
    {
        match auth.require(sender) {
            Err(e) => {
                return Err(e);
            },
            Ok(()) => {},
        }
        if deposit_amount <= 0 {
            return Err(Error::InvalidParams);
        }
        if rate_per_second <= 0 {
            return Err(Error::InvalidParams);
        }
        if sender == recipient {
            return Err(Error::InvalidParams);
        }
        if end_time <= start_time {
            return Err(Error::InvalidParams);
        }
        if cliff_time < start_time || cliff_time > end_time {
            return Err(Error::InvalidParams);
        }
        let duration: i128 = (end_time - start_time) as i128;
        proof {
            lemma_mul_nonnegative(rate_per_second as int, duration as int);
        }
        let total_streamable: i128 = match rate_per_second.checked_mul(duration) {
            None => {
                return Err(Error::InvalidParams);
            },
            Some(total) => total,
        };
        if deposit_amount < total_streamable {
            return Err(Error::InvalidParams);
        }
        if self.config.is_none() {
            return Err(Error::InvalidParams);
        }
        let stream_id: u64 = self.next_stream_id;
        self.next_stream_id = stream_id + 1;
        let stream = Stream {
            stream_id,
            sender,
            recipient,
            deposit_amount,
            rate_per_second,
            start_time,
            cliff_time,
            end_time,
            withdrawn_amount: 0,
            settled_accrued: 0,
            status: StreamStatus::Active,
        };
        self.streams.push(stream);
        Ok(stream_id)
    }

    /// Sender-or-admin guard: when the claimed principal is the admin, the
    /// admin must have authorized the call; otherwise the stream's sender
    /// must have. Either way this amounts to proof from the claimed
    /// principal itself.
    fn require_sender_or_admin(&self, auth: &AuthContext, sender: Address) -> (r: Result<
        (),
        Error,
    >)
        requires
            self.is_initialised(),
        ensures
            r is Ok <==> auth.grants(sender),
            r is Err ==> r == Err::<(), Error>(Error::NotAuthorized),
    {
        let admin = self.config.unwrap().admin;
        if sender != admin {
            auth.require(sender)
        } else {
            auth.require(admin)
        }
    }

    /// Pauses an Active stream (sender or admin only). No funds move; accrual
    /// itself is time-based and keeps running while the stream is paused.
    pub fn pause_stream(&mut self, auth: &AuthContext, stream_id: u64) -> (r: Result<(), Error>)
        requires
            old(self).wf(),
        ensures
            final(self).wf(),
            r is Err ==> *final(self) == *old(self),
            !old(self).has_stream(stream_id) ==> r == Err::<(), Error>(Error::StreamNotFound),
            old(self).has_stream(stream_id) && !auth.grants(old(self).stream_at(stream_id).sender)
                ==> r == Err::<(), Error>(Error::NotAuthorized),
            old(self).has_stream(stream_id) && auth.grants(old(self).stream_at(stream_id).sender)
                && !(old(self).stream_at(stream_id).status is Active)
                ==> r == Err::<(), Error>(Error::InvalidParams),
            r is Ok <==> old(self).has_stream(stream_id)
                && auth.grants(old(self).stream_at(stream_id).sender)
                && old(self).stream_at(stream_id).status is Active,
            r is Ok ==> final(self).streams@ == old(self).streams@.update(
                stream_id as int,
                old(self).stream_at(stream_id).with_status(StreamStatus::Paused),
            ) && final(self).config == old(self).config
                && final(self).next_stream_id == old(self).next_stream_id,
            r is Ok ==> same_accrual_schedule(
                old(self).stream_at(stream_id),
                final(self).stream_at(stream_id),
            ),
            Self::preserves_terminal_statuses(*old(self), *final(self)),
            Self::withdrawn_never_decreases(*old(self), *final(self)),
    {
        if stream_id >= self.streams.len() as u64 {
            return Err(Error::StreamNotFound);
        }
        let idx = stream_id as usize;
        let stream = self.streams[idx];
        match self.require_sender_or_admin(auth, stream.sender) {
            Err(e) => {
                return Err(e);
            },
            Ok(()) => {},
        }
        if !matches!(stream.status, StreamStatus::Active) {
            return Err(Error::InvalidParams);
        }
        let mut updated = stream;
        updated.status = StreamStatus::Paused;
        self.streams[idx] = updated;
        Ok(())
    }

    /// Resumes a Paused stream (sender or admin only). No funds move.
    pub fn resume_stream(&mut self, auth: &AuthContext, stream_id: u64) -> (r: Result<(), Error>)
        requires
            old(self).wf(),
        ensures
            final(self).wf(),
            r is Err ==> *final(self) == *old(self),
            !old(self).has_stream(stream_id) ==> r == Err::<(), Error>(Error::StreamNotFound),
            old(self).has_stream(stream_id) && !auth.grants(old(self).stream_at(stream_id).sender)
                ==> r == Err::<(), Error>(Error::NotAuthorized),
            old(self).has_stream(stream_id) && auth.grants(old(self).stream_at(stream_id).sender)
                && !(old(self).stream_at(stream_id).status is Paused)
                ==> r == Err::<(), Error>(Error::InvalidParams),
            r is Ok <==> old(self).has_stream(stream_id)
                && auth.grants(old(self).stream_at(stream_id).sender)
                && old(self).stream_at(stream_id).status is Paused,
            r is Ok ==> final(self).streams@ == old(self).streams@.update(
                stream_id as int,
                old(self).stream_at(stream_id).with_status(StreamStatus::Active),
            ) && final(self).config == old(self).config
                && final(self).next_stream_id == old(self).next_stream_id,
            r is Ok ==> same_accrual_schedule(
                old(self).stream_at(stream_id),
                final(self).stream_at(stream_id),
            ),
            Self::preserves_terminal_statuses(*old(self), *final(self)),
            Self::withdrawn_never_decreases(*old(self), *final(self)),
    {
        if stream_id >= self.streams.len() as u64 {
            return Err(Error::StreamNotFound);
        }
        let idx = stream_id as usize;
        let stream = self.streams[idx];
        match self.require_sender_or_admin(auth, stream.sender) {
            Err(e) => {
                return Err(e);
            },
            Ok(()) => {},
        }
        if !matches!(stream.status, StreamStatus::Paused) {
            return Err(Error::InvalidParams);
        }
        let mut updated = stream;
        updated.status = StreamStatus::Active;
        self.streams[idx] = updated;
        Ok(())
    }

    /// Shared cancellation path: marks the record Cancelled and computes the
    /// unstreamed remainder owed back to the sender. Authorization is the
    /// callers' business.
    fn do_cancel(&mut self, stream_id: u64, now: u64) -> (r: Result<i128, Error>)
        requires
            old(self).wf(),
        ensures
            final(self).wf(),
            r is Err ==> *final(self) == *old(self),
            !old(self).has_stream(stream_id) ==> r == Err::<i128, Error>(Error::StreamNotFound),
            old(self).has_stream(stream_id) && old(self).stream_at(stream_id).is_terminal()
                ==> r == Err::<i128, Error>(Error::InvalidParams),
            r is Ok <==> old(self).has_stream(stream_id)
                && !old(self).stream_at(stream_id).is_terminal(),
            r is Ok ==> r == Ok::<i128, Error>(
                cancel_refund(old(self).stream_at(stream_id), now) as i128,
            ) && final(self).streams@ == old(self).streams@.update(
                stream_id as int,
                cancelled_stream(old(self).stream_at(stream_id), now),
            ) && final(self).config == old(self).config
                && final(self).next_stream_id == old(self).next_stream_id,
            r is Ok ==> forall|t: u64|
                claimable_at(final(self).stream_at(stream_id), t) == accrued_at(
                    old(self).stream_at(stream_id),
                    now,
                ),
            r is Ok ==> same_accrual_schedule(
                old(self).stream_at(stream_id),
                final(self).stream_at(stream_id),
            ),
            Self::preserves_terminal_statuses(*old(self), *final(self)),
            Self::withdrawn_never_decreases(*old(self), *final(self)),
    {
        if stream_id >= self.streams.len() as u64 {
            return Err(Error::StreamNotFound);
        }
        let idx = stream_id as usize;
        let stream = self.streams[idx];
        if !(matches!(stream.status, StreamStatus::Active) || matches!(
            stream.status,
            StreamStatus::Paused,
        )) {
            return Err(Error::InvalidParams);
        }
        let accrued = accrued_amount(&stream, now);
        let unstreamed = stream.deposit_amount - accrued;
        let mut updated = stream;
        updated.settled_accrued = accrued;
        updated.status = StreamStatus::Cancelled;
        self.streams[idx] = updated;
        Ok(unstreamed)
    }

    /// Cancels an Active or Paused stream (sender or admin only): the record
    /// becomes Cancelled and the caller owes the sender a custody transfer of
    /// the returned unstreamed remainder, `deposit_amount` less what accrued
    /// up to `now`. The accrued-but-unwithdrawn portion stays in custody for
    /// the recipient to claim through a later withdrawal, frozen at its
    /// cancellation-time value: time elapsing afterwards unlocks nothing more.
    pub fn cancel_stream(&mut self, auth: &AuthContext, stream_id: u64, now: u64) -> (r: Result<
        i128,
        Error,
    >)
        requires
            old(self).wf(),
        ensures
            final(self).wf(),
            r is Err ==> *final(self) == *old(self),
            !old(self).has_stream(stream_id) ==> r == Err::<i128, Error>(Error::StreamNotFound),
            old(self).has_stream(stream_id) && !auth.grants(old(self).stream_at(stream_id).sender)
                ==> r == Err::<i128, Error>(Error::NotAuthorized),
            old(self).has_stream(stream_id) && auth.grants(old(self).stream_at(stream_id).sender)
                && old(self).stream_at(stream_id).is_terminal()
                ==> r == Err::<i128, Error>(Error::InvalidParams),
            r is Ok <==> old(self).has_stream(stream_id)
                && auth.grants(old(self).stream_at(stream_id).sender)
                && !old(self).stream_at(stream_id).is_terminal(),
            r is Ok ==> r == Ok::<i128, Error>(
                cancel_refund(old(self).stream_at(stream_id), now) as i128,
            ) && final(self).streams@ == old(self).streams@.update(
                stream_id as int,
                cancelled_stream(old(self).stream_at(stream_id), now),
            ) && final(self).config == old(self).config
                && final(self).next_stream_id == old(self).next_stream_id,
            r is Ok ==> forall|t: u64|
                claimable_at(final(self).stream_at(stream_id), t) == accrued_at(
                    old(self).stream_at(stream_id),
                    now,
                ),
            r is Ok ==> same_accrual_schedule(
                old(self).stream_at(stream_id),
                final(self).stream_at(stream_id),
            ),
            Self::preserves_terminal_statuses(*old(self), *final(self)),
            Self::withdrawn_never_decreases(*old(self), *final(self)),
    {
        if stream_id >= self.streams.len() as u64 {
            return Err(Error::StreamNotFound);
        }
        let stream = self.streams[stream_id as usize];
        match self.require_sender_or_admin(auth, stream.sender) {
            Err(e) => {
                return Err(e);
            },
            Ok(()) => {},
        }
        self.do_cancel(stream_id, now)
    }

    /// Admin-only cancellation entry point: requires proof of admin
    /// authorization, then runs the same cancellation path.
    pub fn cancel_stream_as_admin(
        &mut self,
        auth: &AuthContext,
        stream_id: u64,
        now: u64,
    ) -> (r: Result<i128, Error>)
        requires
            old(self).wf(),
        ensures
            final(self).wf(),
            r is Err ==> *final(self) == *old(self),
            !old(self).is_initialised() ==> r == Err::<i128, Error>(Error::InvalidParams),
            old(self).is_initialised() && !auth.grants(old(self).admin())
                ==> r == Err::<i128, Error>(Error::NotAuthorized),
            old(self).is_initialised() && auth.grants(old(self).admin())
                && !old(self).has_stream(stream_id)
                ==> r == Err::<i128, Error>(Error::StreamNotFound),
            old(self).is_initialised() && auth.grants(old(self).admin())
                && old(self).has_stream(stream_id) && old(self).stream_at(stream_id).is_terminal()
                ==> r == Err::<i128, Error>(Error::InvalidParams),
            r is Ok <==> old(self).is_initialised() && auth.grants(old(self).admin())
                && old(self).has_stream(stream_id)
                && !old(self).stream_at(stream_id).is_terminal(),
            r is Ok ==> r == Ok::<i128, Error>(
                cancel_refund(old(self).stream_at(stream_id), now) as i128,
            ) && final(self).streams@ == old(self).streams@.update(
                stream_id as int,
                cancelled_stream(old(self).stream_at(stream_id), now),
            ) && final(self).config == old(self).config
                && final(self).next_stream_id == old(self).next_stream_id,
            r is Ok ==> forall|t: u64|
                claimable_at(final(self).stream_at(stream_id), t) == accrued_at(
                    old(self).stream_at(stream_id),
                    now,
                ),
            r is Ok ==> same_accrual_schedule(
                old(self).stream_at(stream_id),
                final(self).stream_at(stream_id),
            ),
            Self::preserves_terminal_statuses(*old(self), *final(self)),
            Self::withdrawn_never_decreases(*old(self), *final(self)),
    {
        let admin = match &self.config {
            None => {
                return Err(Error::InvalidParams);
            },
            Some(cfg) => cfg.admin,
        };
        match auth.require(admin) {
            Err(e) => {
                return Err(e);
            },
            Ok(()) => {},
        }
        self.do_cancel(stream_id, now)
    }

    /// Pays the recipient everything claimable at `now` that was not
    /// withdrawn yet (recipient only; not while the stream is Paused or
    /// Completed): the time-based accrual while the stream runs, or the
    /// residue frozen at cancellation once it is Cancelled. On success the
    /// caller owes the recipient a custody transfer of the returned amount;
    /// an Active stream whose deposit is fully withdrawn at or after the end
    /// of the window becomes Completed.
    pub fn withdraw(&mut self, auth: &AuthContext, stream_id: u64, now: u64) -> (r: Result<
        i128,
        Error,
    >)
        requires
            old(self).wf(),
        ensures
            final(self).wf(),
            r is Err ==> *final(self) == *old(self),
            !old(self).has_stream(stream_id) ==> r == Err::<i128, Error>(Error::StreamNotFound),
            old(self).has_stream(stream_id) && !auth.grants(
                old(self).stream_at(stream_id).recipient,
            ) ==> r == Err::<i128, Error>(Error::NotAuthorized),
            old(self).has_stream(stream_id) && auth.grants(
                old(self).stream_at(stream_id).recipient,
            ) && r is Err ==> r == Err::<i128, Error>(Error::InvalidParams),
            r is Ok <==> old(self).has_stream(stream_id) && auth.grants(
                old(self).stream_at(stream_id).recipient,
            ) && !(old(self).stream_at(stream_id).status is Completed)
                && !(old(self).stream_at(stream_id).status is Paused)
                && withdraw_payment(old(self).stream_at(stream_id), now) > 0,
            r is Ok ==> r == Ok::<i128, Error>(
                withdraw_payment(old(self).stream_at(stream_id), now) as i128,
            ) && final(self).streams@ == old(self).streams@.update(
                stream_id as int,
                withdrawn_stream(old(self).stream_at(stream_id), now),
            ) && final(self).stream_at(stream_id).withdrawn_amount == claimable_at(
                old(self).stream_at(stream_id),
                now,
            ) && claimable_at(old(self).stream_at(stream_id), now) <= old(self).stream_at(
                stream_id,
            ).deposit_amount && final(self).config == old(self).config
                && final(self).next_stream_id == old(self).next_stream_id,
            r is Ok ==> same_accrual_schedule(
                old(self).stream_at(stream_id),
                final(self).stream_at(stream_id),
            ),
            Self::preserves_terminal_statuses(*old(self), *final(self)),
            Self::withdrawn_never_decreases(*old(self), *final(self)),
    {
        if stream_id >= self.streams.len() as u64 {
            return Err(Error::StreamNotFound);
        }
        let idx = stream_id as usize;
        let stream = self.streams[idx];
        match auth.require(stream.recipient) {
            Err(e) => {
                return Err(e);
            },
            Ok(()) => {},
        }
        if matches!(stream.status, StreamStatus::Completed) {
            return Err(Error::InvalidParams);
        }
        if matches!(stream.status, StreamStatus::Paused) {
            return Err(Error::InvalidParams);
        }
        let claimable = claimable_amount(&stream, now);
        let withdrawable = claimable - stream.withdrawn_amount;
        if withdrawable <= 0 {
            return Err(Error::InvalidParams);
        }
        let mut updated = stream;
        updated.withdrawn_amount = stream.withdrawn_amount + withdrawable;
        if now >= stream.end_time && updated.withdrawn_amount >= stream.deposit_amount
            && matches!(stream.status, StreamStatus::Active) {
            updated.status = StreamStatus::Completed;
        }
        self.streams[idx] = updated;
        Ok(withdrawable)
    }

    /// Read-only accrual query: the time-based formula — zero before the
    /// cliff, elapsed time (clamped to the window) times the rate, capped at
    /// the deposit — whatever the record's status. What a Cancelled record
    /// leaves claimable is frozen separately (see its `settled_accrued`
    /// field); only `withdraw` pays against that.
    pub fn calculate_accrued(&self, stream_id: u64, now: u64) -> (r: Result<i128, Error>)
        requires
            self.wf(),
        ensures
            self.has_stream(stream_id) ==> r == Ok::<i128, Error>(
                accrued_at(self.stream_at(stream_id), now) as i128,
            ),
            !self.has_stream(stream_id) ==> r == Err::<i128, Error>(Error::StreamNotFound),
    {
        if stream_id >= self.streams.len() as u64 {
            return Err(Error::StreamNotFound);
        }
        let stream = self.streams[stream_id as usize];
        Ok(accrued_amount(&stream, now))
    }
}

} // verus!
