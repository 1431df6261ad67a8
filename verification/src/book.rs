//! The streams that one contract holds, and the instructions on them.
//!
//! Each instruction takes what the ledger supplies (the time, the caller, a
//! balance) as arguments, updates the streams, and returns the token transfers
//! to make and the events to publish, in order. Nothing here moves tokens: the
//! caller makes the transfers, and keeps the new state only if they all succeed.
use crate::events::StreamEvent;
use crate::types::{AccountId, Stream, StreamError, StreamStatus};
use crate::vesting_math::{
    accrued,
    claimable_amount,
    compute_claimable,
    compute_earned,
    compute_refund,
    flowing_seconds,
    lemma_rate_times_fewer_seconds,
    min_time,
    refund_amount,
};
use vstd::prelude::*;

verus! {

/// Something an instruction asks its caller to do.
#[derive(Clone, Copy, Debug, PartialEq, Eq, Structural)]
pub enum Effect {
    /// Move `amount` of `token` from `from` to `to`.
    Transfer { token: AccountId, from: AccountId, to: AccountId, amount: i128 },
    /// Publish an event.
    Event(StreamEvent),
}

/// The streams of a contract, by id, and the `(sender, nonce)` pairs that
/// created them. The stream with id `i` is at index `i`; ids count up from zero
/// and are never reused.
pub struct StreamBook {
    contract: AccountId,
    streams: Vec<Stream>,
    nonces: Vec<(AccountId, u64)>,
}

/// What a `StreamBook` holds.
pub struct BookState {
    /// The contract's own account, which holds the deposits.
    pub contract: AccountId,
    pub streams: Seq<Stream>,
    /// `nonces[i]` is the `(sender, nonce)` pair that created stream `i`.
    pub nonces: Seq<(AccountId, u64)>,
}

impl View for StreamBook {
    type V = BookState;

    closed spec fn view(&self) -> BookState {
        BookState { contract: self.contract, streams: self.streams@, nonces: self.nonces@ }
    }
}

/// A stream's own invariant: a positive rate, times in order, and a deposit
/// that covers the whole schedule.
pub open spec fn valid_stream(s: Stream) -> bool {
    &&& s.flow_rate > 0
    &&& s.start_time <= s.cliff_time <= s.end_time
    &&& s.start_time < s.end_time
    &&& s.start_time <= s.last_withdraw_time <= s.end_time
    &&& s.flow_rate * (s.end_time - s.start_time) <= s.deposit
}

/// The rate at which `amount` flows over `duration` seconds (`amount > 0`).
pub open spec fn rate_for(amount: i128, duration: u64) -> i128 {
    ((amount as int) / (duration as int)) as i128
}

/// A transfer of `amount`, or nothing when the amount is zero.
pub open spec fn pay(token: AccountId, from: AccountId, to: AccountId, amount: int) -> Seq<Effect> {
    if amount > 0 {
        seq![Effect::Transfer { token, from, to, amount: amount as i128 }]
    } else {
        seq![]
    }
}

/// Whether a stream that has reached its end starts another period: it renews
/// automatically, the sender holds at least the deposit, and the new end time
/// is a valid timestamp.
pub open spec fn renews(s: Stream, now: u64, sender_balance: i128) -> bool {
    &&& s.auto_renew
    &&& sender_balance >= s.deposit
    &&& now + (s.end_time - s.start_time) <= u64::MAX
}

/// A stream after a withdrawal at `now`. Once past the cliff, the last
/// withdrawal time moves up to `now`, but not past the end. Before the end the
/// stream stays active; at or after it, it either starts a new period of the
/// same length at `now` or completes.
pub open spec fn withdrawn(s: Stream, now: u64, sender_balance: i128) -> Stream {
    let capped = min_time(now, s.end_time);
    let last = if now >= s.cliff_time && capped > s.last_withdraw_time {
        capped
    } else {
        s.last_withdraw_time
    };
    if now < s.end_time {
        Stream { last_withdraw_time: last, ..s }
    } else if renews(s, now, sender_balance) {
        Stream {
            start_time: now,
            cliff_time: (now + (s.cliff_time - s.start_time)) as u64,
            end_time: (now + (s.end_time - s.start_time)) as u64,
            last_withdraw_time: now,
            ..s
        }
    } else {
        Stream { last_withdraw_time: last, status: StreamStatus::Completed, ..s }
    }
}

/// The part of a top-up that the stream accepts: whole seconds of flow. The
/// rest stays with the sender.
pub open spec fn accepted_amount(s: Stream, amount: i128) -> int {
    (amount / s.flow_rate) * s.flow_rate
}

/// The new deposit and end time of a top-up are within their types.
pub open spec fn top_up_fits(s: Stream, amount: i128) -> bool {
    &&& s.deposit + accepted_amount(s, amount) <= i128::MAX
    &&& s.end_time + amount / s.flow_rate <= u64::MAX
}

/// A stream after a top-up: the accepted amount joins the deposit and the end
/// moves out by as many seconds as it pays for.
pub open spec fn topped_up(s: Stream, amount: i128) -> Stream {
    Stream {
        deposit: (s.deposit + accepted_amount(s, amount)) as i128,
        end_time: (s.end_time + amount / s.flow_rate) as u64,
        ..s
    }
}

/// From a time at or after the start, a valid stream accrues at most its whole
/// schedule, which its deposit covers.
proof fn lemma_accrued_within_deposit(s: Stream, now: u64, from: u64)
    requires
        valid_stream(s),
        s.start_time <= from,
    ensures
        0 <= accrued(s.flow_rate, now, s.end_time, from) <= s.flow_rate * (s.end_time
            - s.start_time) <= s.deposit,
{
    let k = flowing_seconds(now, s.end_time, from);
    let d = s.end_time - s.start_time;
    assert(0 <= k <= d);
    lemma_rate_times_fewer_seconds(s.flow_rate as int, k, d);
}

impl BookState {
    /// The state's invariant.
    pub open spec fn wf(self) -> bool {
        &&& self.streams.len() <= u64::MAX
        &&& self.nonces.len() == self.streams.len()
        &&& forall|i: int|
            0 <= i < self.streams.len() ==> {
                &&& (#[trigger] self.streams[i]).id == i
                &&& valid_stream(self.streams[i])
                &&& self.nonces[i].0 == self.streams[i].sender
            }
        &&& forall|i: int, j: int|
            0 <= i < j < self.nonces.len() ==> self.nonces[i] != self.nonces[j]
    }

    /// `sender` has already created a stream with `nonce`.
    pub open spec fn nonce_used(self, sender: AccountId, nonce: u64) -> bool {
        exists|i: int| 0 <= i < self.nonces.len() && self.nonces[i] == (sender, nonce)
    }

    /// There is a stream with id `id`.
    pub open spec fn has_stream(self, id: u64) -> bool {
        id < self.streams.len()
    }

    /// The stream with id `id`.
    pub open spec fn stream(self, id: u64) -> Stream {
        self.streams[id as int]
    }

    // ---- create_stream ----
    /// Why `create_stream` refuses, if it does; the checks come in this order.
    pub open spec fn create_error(
        self,
        sender: AccountId,
        amount: i128,
        duration_seconds: u64,
        nonce: u64,
        now: u64,
    ) -> Option<StreamError> {
        if self.nonce_used(sender, nonce) {
            Some(StreamError::DuplicateStream)
        } else if amount <= 0 {
            Some(StreamError::ZeroAmount)
        } else if duration_seconds == 0 || now + duration_seconds > u64::MAX {
            Some(StreamError::InvalidDuration)
        } else if amount / (duration_seconds as i128) == 0 {
            Some(StreamError::ZeroFlowRate)
        } else {
            None
        }
    }

    /// The stream that `create_stream` adds.
    pub open spec fn new_stream(
        self,
        sender: AccountId,
        recipient: AccountId,
        token: AccountId,
        amount: i128,
        duration_seconds: u64,
        auto_renew: bool,
        now: u64,
    ) -> Stream {
        Stream {
            id: self.streams.len() as u64,
            sender,
            recipient,
            token,
            deposit: amount,
            flow_rate: rate_for(amount, duration_seconds),
            start_time: now,
            cliff_time: now,
            end_time: (now + duration_seconds) as u64,
            last_withdraw_time: now,
            status: StreamStatus::Active,
            auto_renew,
        }
    }

    /// The state after `create_stream` succeeds.
    pub open spec fn created(
        self,
        sender: AccountId,
        recipient: AccountId,
        token: AccountId,
        amount: i128,
        duration_seconds: u64,
        nonce: u64,
        auto_renew: bool,
        now: u64,
    ) -> BookState {
        BookState {
            contract: self.contract,
            streams: self.streams.push(
                self.new_stream(sender, recipient, token, amount, duration_seconds, auto_renew, now),
            ),
            nonces: self.nonces.push((sender, nonce)),
        }
    }

    /// What `create_stream` asks for: the deposit moves from the sender to the
    /// contract, and the new stream is announced.
    pub open spec fn create_effects(
        self,
        sender: AccountId,
        recipient: AccountId,
        token: AccountId,
        amount: i128,
        duration_seconds: u64,
        now: u64,
    ) -> Seq<Effect> {
        let s = self.new_stream(sender, recipient, token, amount, duration_seconds, false, now);
        seq![
            Effect::Transfer { token, from: sender, to: self.contract, amount },
            Effect::Event(
                StreamEvent::Created {
                    stream_id: s.id,
                    sender,
                    recipient,
                    amount,
                    flow_rate: s.flow_rate,
                    end_time: s.end_time,
                },
            ),
        ]
    }

    // ---- withdraw ----
    /// Why `withdraw` refuses, if it does; the checks come in this order.
    pub open spec fn withdraw_error(self, stream_id: u64, caller: AccountId) -> Option<
        StreamError,
    > {
        if !self.has_stream(stream_id) {
            Some(StreamError::StreamNotFound)
        } else if caller != self.stream(stream_id).recipient {
            Some(StreamError::NotRecipient)
        } else if self.stream(stream_id).status != StreamStatus::Active {
            Some(StreamError::StreamNotActive)
        } else {
            None
        }
    }

    /// The state after `withdraw` succeeds.
    pub open spec fn after_withdraw(self, stream_id: u64, now: u64, sender_balance: i128) -> BookState {
        BookState {
            contract: self.contract,
            streams: self.streams.update(
                stream_id as int,
                withdrawn(self.stream(stream_id), now, sender_balance),
            ),
            nonces: self.nonces,
        }
    }

    /// What `withdraw` asks for: the claimable amount moves to the recipient,
    /// if there is any; then, at or after the end, either the next period's
    /// deposit moves from the sender to the contract or the stream completes.
    pub open spec fn withdraw_effects(self, stream_id: u64, now: u64, sender_balance: i128) -> Seq<
        Effect,
    > {
        let s = self.stream(stream_id);
        let c = claimable_amount(s.flow_rate, now, s.cliff_time, s.end_time, s.last_withdraw_time);
        let paid = if c > 0 {
            seq![
                Effect::Transfer {
                    token: s.token,
                    from: self.contract,
                    to: s.recipient,
                    amount: c as i128,
                },
                Effect::Event(
                    StreamEvent::Withdrawn {
                        stream_id,
                        recipient: s.recipient,
                        amount: c as i128,
                        timestamp: now,
                    },
                ),
            ]
        } else {
            seq![]
        };
        let ending = if now < s.end_time {
            seq![]
        } else if renews(s, now, sender_balance) {
            seq![
                Effect::Transfer {
                    token: s.token,
                    from: s.sender,
                    to: self.contract,
                    amount: s.deposit,
                },
            ]
        } else if s.auto_renew {
            seq![
                Effect::Event(
                    StreamEvent::AutoRenewFailed {
                        stream_id,
                        sender: s.sender,
                        required_amount: s.deposit,
                    },
                ),
                Effect::Event(StreamEvent::Completed { stream_id }),
            ]
        } else {
            seq![Effect::Event(StreamEvent::Completed { stream_id })]
        };
        paid + ending
    }

    // ---- cancel_stream ----
    /// Why `cancel_stream` refuses, if it does; the checks come in this order.
    pub open spec fn cancel_error(self, stream_id: u64, caller: AccountId) -> Option<StreamError> {
        if !self.has_stream(stream_id) {
            Some(StreamError::StreamNotFound)
        } else if caller != self.stream(stream_id).sender {
            Some(StreamError::NotSender)
        } else if self.stream(stream_id).status != StreamStatus::Active {
            Some(StreamError::StreamNotActive)
        } else {
            None
        }
    }

    /// The state after `cancel_stream` succeeds: the stream is cancelled.
    pub open spec fn after_cancel(self, stream_id: u64) -> BookState {
        let s = self.stream(stream_id);
        BookState {
            contract: self.contract,
            streams: self.streams.update(
                stream_id as int,
                Stream { status: StreamStatus::Cancelled, ..s },
            ),
            nonces: self.nonces,
        }
    }

    /// What `cancel_stream` asks for: what has accrued since the last
    /// withdrawal goes to the recipient, the deposit less everything streamed
    /// goes back to the sender, and the cancellation is announced.
    pub open spec fn cancel_effects(self, stream_id: u64, now: u64) -> Seq<Effect> {
        let s = self.stream(stream_id);
        let earned = accrued(s.flow_rate, now, s.end_time, s.last_withdraw_time);
        let refund = refund_amount(s.deposit, s.flow_rate, now, s.end_time, s.start_time);
        pay(s.token, self.contract, s.recipient, earned) + pay(
            s.token,
            self.contract,
            s.sender,
            refund,
        ) + seq![
            Effect::Event(
                StreamEvent::Cancelled {
                    stream_id,
                    sender: s.sender,
                    refund_amount: refund as i128,
                    recipient_amount: earned as i128,
                },
            ),
        ]
    }

    // ---- top_up ----
    /// Why `top_up` refuses, if it does; the checks come in this order.
    pub open spec fn top_up_error(self, stream_id: u64, caller: AccountId, amount: i128) -> Option<
        StreamError,
    > {
        if !self.has_stream(stream_id) {
            Some(StreamError::StreamNotFound)
        } else if caller != self.stream(stream_id).sender {
            Some(StreamError::NotSender)
        } else if self.stream(stream_id).status != StreamStatus::Active {
            Some(StreamError::StreamNotActive)
        } else if amount <= 0 {
            Some(StreamError::ZeroAmount)
        } else if !top_up_fits(self.stream(stream_id), amount) {
            Some(StreamError::InvalidDuration)
        } else {
            None
        }
    }

    /// The state after `top_up` succeeds.
    pub open spec fn after_top_up(self, stream_id: u64, amount: i128) -> BookState {
        BookState {
            contract: self.contract,
            streams: self.streams.update(
                stream_id as int,
                topped_up(self.stream(stream_id), amount),
            ),
            nonces: self.nonces,
        }
    }

    /// What `top_up` asks for: the accepted part of the amount moves from the
    /// sender to the contract, and the new end is announced.
    pub open spec fn top_up_effects(self, stream_id: u64, amount: i128) -> Seq<Effect> {
        let s = self.stream(stream_id);
        let t = topped_up(s, amount);
        pay(s.token, s.sender, self.contract, accepted_amount(s, amount)) + seq![
            Effect::Event(
                StreamEvent::ToppedUp {
                    stream_id,
                    added_amount: accepted_amount(s, amount) as i128,
                    new_end_time: t.end_time,
                },
            ),
        ]
    }

    // ---- queries ----
    /// What `get_claimable` reports: the claimable amount of an active
    /// stream, zero for any other.
    pub open spec fn claimable_now(self, stream_id: u64, now: u64) -> int {
        let s = self.stream(stream_id);
        if s.status == StreamStatus::Active {
            claimable_amount(s.flow_rate, now, s.cliff_time, s.end_time, s.last_withdraw_time)
        } else {
            0
        }
    }
}

/// Whether a stream satisfies its own invariant.
fn stream_is_valid(s: &Stream) -> (ok: bool)
    ensures
        ok == valid_stream(*s),
{
    if s.flow_rate <= 0 || s.start_time >= s.end_time {
        return false;
    }
    if s.start_time > s.cliff_time || s.cliff_time > s.end_time {
        return false;
    }
    if s.start_time > s.last_withdraw_time || s.last_withdraw_time > s.end_time {
        return false;
    }
    match s.flow_rate.checked_mul((s.end_time - s.start_time) as i128) {
        Some(p) => p <= s.deposit,
        None => false,
    }
}

impl StreamBook {
    /// An empty book for the contract whose account is `contract`.
    pub fn new(contract: AccountId) -> (b: StreamBook)
        ensures
            b@.wf(),
            b@.contract == contract,
            b@.streams.len() == 0,
            b@.nonces.len() == 0,
    {
        StreamBook { contract, streams: Vec::new(), nonces: Vec::new() }
    }

    /// The contract's own account.
    pub fn contract(&self) -> (c: AccountId)
        ensures
            c == self@.contract,
    {
        self.contract
    }

    /// How many streams have been created.
    pub fn stream_count(&self) -> (n: u64)
        ensures
            n == self@.streams.len(),
    {
        self.streams.len() as u64
    }

    /// Whether `sender` has already created a stream with `nonce`.
    pub fn is_nonce_used(&self, sender: AccountId, nonce: u64) -> (used: bool)
        ensures
            used == self@.nonce_used(sender, nonce),
    {
        let n = self.nonces.len();
        for i in 0..n
            invariant
                n == self.nonces@.len(),
                forall|j: int| 0 <= j < i ==> self.nonces@[j] != (sender, nonce),
        {
            let (s, k) = self.nonces[i];
            if s == sender && k == nonce {
                assert(self@.nonces[i as int] == (sender, nonce));
                assert(self@.nonce_used(sender, nonce));
                return true;
            }
        }
        false
    }

    /// The streams, by id.
    pub fn streams(&self) -> (r: &Vec<Stream>)
        ensures
            r@ == self@.streams,
    {
        &self.streams
    }

    /// The `(sender, nonce)` pair that created each stream, by id.
    pub fn nonces(&self) -> (r: &Vec<(AccountId, u64)>)
        ensures
            r@ == self@.nonces,
    {
        &self.nonces
    }

    /// Rebuilds a book from stored parts, or `None` when the parts do not make
    /// a valid book.
    pub fn from_parts(contract: AccountId, streams: Vec<Stream>, nonces: Vec<(AccountId, u64)>) -> (r:
        Option<StreamBook>)
        ensures
            match r {
                Some(b) => b@ == (BookState {
                    contract,
                    streams: streams@,
                    nonces: nonces@,
                }) && b@.wf(),
                None => !(BookState { contract, streams: streams@, nonces: nonces@ }).wf(),
            },
    {
        let ghost state = BookState { contract, streams: streams@, nonces: nonces@ };
        let n = streams.len();
        if nonces.len() != n {
            return None;
        }
        for i in 0..n
            invariant
                n == streams@.len(),
                n == nonces@.len(),
                n <= u64::MAX,
                state == (BookState { contract, streams: streams@, nonces: nonces@ }),
                forall|k: int|
                    0 <= k < i ==> {
                        &&& (#[trigger] streams@[k]).id == k
                        &&& valid_stream(streams@[k])
                        &&& nonces@[k].0 == streams@[k].sender
                    },
        {
            let s = streams[i];
            if s.id != i as u64 || !stream_is_valid(&s) || nonces[i].0 != s.sender {
                assert(!state.wf()) by {
                    assert(streams@[i as int] == s);
                }
                return None;
            }
        }
        for i in 0..n
            invariant
                n == nonces@.len(),
                forall|a: int, b: int| 0 <= a < i && a < b < n ==> nonces@[a] != nonces@[b],
        {
            for j in i + 1..n
                invariant
                    n == nonces@.len(),
                    i < n,
                    forall|a: int, b: int| 0 <= a < i && a < b < n ==> nonces@[a] != nonces@[b],
                    forall|b: int| i < b < j ==> nonces@[i as int] != nonces@[b],
            {
                if nonces[i].0 == nonces[j].0 && nonces[i].1 == nonces[j].1 {
                    assert(nonces@[i as int] == nonces@[j as int]);
                    return None;
                }
            }
        }
        Some(StreamBook { contract, streams, nonces })
    }

    /// The stream with id `stream_id`.
    pub fn get_stream(&self, stream_id: u64) -> (r: Result<Stream, StreamError>)
        ensures
            match r {
                Ok(s) => self@.has_stream(stream_id) && s == self@.stream(stream_id),
                Err(e) => !self@.has_stream(stream_id) && e == StreamError::StreamNotFound,
            },
    {
        if stream_id < self.streams.len() as u64 {
            Ok(self.streams[stream_id as usize])
        } else {
            Err(StreamError::StreamNotFound)
        }
    }

    /// Creates a stream: `amount` of `token` from `sender`, released to
    /// `recipient` at `amount / duration_seconds` per second from `now` on.
    /// Each `(sender, nonce)` pair creates at most one stream. Returns the new
    /// stream's id, which is the number of streams created before it; there
    /// must be an id left to give.
    pub fn create_stream(
        &mut self,
        sender: AccountId,
        recipient: AccountId,
        token: AccountId,
        amount: i128,
        duration_seconds: u64,
        nonce: u64,
        auto_renew: bool,
        now: u64,
    ) -> (r: Result<(u64, Vec<Effect>), StreamError>)
        requires
            old(self)@.wf(),
            old(self)@.streams.len() < u64::MAX,
        ensures
            final(self)@.wf(),
            match r {
                Ok((id, fx)) => {
                    &&& old(self)@.create_error(sender, amount, duration_seconds, nonce, now)
                        is None
                    &&& id == old(self)@.streams.len()
                    &&& final(self)@ == old(self)@.created(
                        sender,
                        recipient,
                        token,
                        amount,
                        duration_seconds,
                        nonce,
                        auto_renew,
                        now,
                    )
                    &&& fx@ == old(self)@.create_effects(
                        sender,
                        recipient,
                        token,
                        amount,
                        duration_seconds,
                        now,
                    )
                },
                Err(e) => {
                    &&& old(self)@.create_error(sender, amount, duration_seconds, nonce, now)
                        == Some(e)
                    &&& final(self)@ == old(self)@
                },
            },
    {
        if self.is_nonce_used(sender, nonce) {
            return Err(StreamError::DuplicateStream);
        }
        if amount <= 0 {
            return Err(StreamError::ZeroAmount);
        }
        if duration_seconds == 0 || now > u64::MAX - duration_seconds {
            return Err(StreamError::InvalidDuration);
        }
        let flow_rate = amount / (duration_seconds as i128);
        if flow_rate == 0 {
            return Err(StreamError::ZeroFlowRate);
        }
        let ghost pre = self@;
        let id = self.streams.len() as u64;
        let end_time = now + duration_seconds;
        proof {
            let d = duration_seconds as int;
            vstd::arithmetic::div_mod::lemma_fundamental_div_mod(amount as int, d);
            vstd::arithmetic::div_mod::lemma_mod_pos_bound(amount as int, d);
            vstd::arithmetic::mul::lemma_mul_is_commutative(d, flow_rate as int);
        }
        let stream = Stream {
            id,
            sender,
            recipient,
            token,
            deposit: amount,
            flow_rate,
            start_time: now,
            cliff_time: now,
            end_time,
            last_withdraw_time: now,
            status: StreamStatus::Active,
            auto_renew,
        };
        self.streams.push(stream);
        self.nonces.push((sender, nonce));
        let mut fx: Vec<Effect> = Vec::new();
        fx.push(Effect::Transfer { token, from: sender, to: self.contract, amount });
        fx.push(
            Effect::Event(
                crate::events::stream_created(id, sender, recipient, amount, flow_rate, end_time),
            ),
        );
        proof {
            assert(self@.streams =~= pre.streams.push(stream));
            assert(self@.nonces =~= pre.nonces.push((sender, nonce)));
            assert forall|i: int, j: int|
                0 <= i < j < self@.nonces.len() implies self@.nonces[i] != self@.nonces[j] by {
                if j == self@.nonces.len() - 1 {
                    assert(pre.nonces[i] != (sender, nonce));
                }
            }
            assert(fx@ =~= pre.create_effects(
                sender,
                recipient,
                token,
                amount,
                duration_seconds,
                now,
            ));
        }
        Ok((id, fx))
    }

    /// Pays the recipient what is claimable now. Once the stream has reached
    /// its end it either starts another period of the same length at `now`,
    /// taking a new deposit from the sender (when it renews automatically and
    /// `sender_balance`, the sender's balance of the token, covers the
    /// deposit), or completes.
    pub fn withdraw(&mut self, stream_id: u64, caller: AccountId, now: u64, sender_balance: i128) -> (r:
        Result<Vec<Effect>, StreamError>)
        requires
            old(self)@.wf(),
        ensures
            final(self)@.wf(),
            match r {
                Ok(fx) => {
                    &&& old(self)@.withdraw_error(stream_id, caller) is None
                    &&& final(self)@ == old(self)@.after_withdraw(stream_id, now, sender_balance)
                    &&& fx@ == old(self)@.withdraw_effects(stream_id, now, sender_balance)
                },
                Err(e) => {
                    &&& old(self)@.withdraw_error(stream_id, caller) == Some(e)
                    &&& final(self)@ == old(self)@
                },
            },
    {
        if stream_id >= self.streams.len() as u64 {
            return Err(StreamError::StreamNotFound);
        }
        let idx = stream_id as usize;
        let s = self.streams[idx];
        if caller != s.recipient {
            return Err(StreamError::NotRecipient);
        }
        if s.status != StreamStatus::Active {
            return Err(StreamError::StreamNotActive);
        }
        let ghost pre = self@;
        proof {
            lemma_accrued_within_deposit(s, now, s.last_withdraw_time);
        }
        let claimable = compute_claimable(
            s.flow_rate,
            now,
            s.cliff_time,
            s.end_time,
            s.last_withdraw_time,
        );
        let mut fx: Vec<Effect> = Vec::new();
        if claimable > 0 {
            fx.push(
                Effect::Transfer {
                    token: s.token,
                    from: self.contract,
                    to: s.recipient,
                    amount: claimable,
                },
            );
            fx.push(
                Effect::Event(
                    crate::events::stream_withdrawn(stream_id, s.recipient, claimable, now),
                ),
            );
        }
        let ghost paid = fx@;
        let capped = if now < s.end_time {
            now
        } else {
            s.end_time
        };
        let last = if now >= s.cliff_time && capped > s.last_withdraw_time {
            capped
        } else {
            s.last_withdraw_time
        };
        let updated;
        if now < s.end_time {
            updated = Stream { last_withdraw_time: last, ..s };
        } else {
            let duration = s.end_time - s.start_time;
            if s.auto_renew && sender_balance >= s.deposit && now <= u64::MAX - duration {
                let cliff_offset = s.cliff_time - s.start_time;
                updated =
                Stream {
                    start_time: now,
                    cliff_time: now + cliff_offset,
                    end_time: now + duration,
                    last_withdraw_time: now,
                    ..s
                };
                fx.push(
                    Effect::Transfer {
                        token: s.token,
                        from: s.sender,
                        to: self.contract,
                        amount: s.deposit,
                    },
                );
            } else {
                if s.auto_renew {
                    fx.push(
                        Effect::Event(
                            crate::events::stream_auto_renew_failed(stream_id, s.sender, s.deposit),
                        ),
                    );
                }
                fx.push(Effect::Event(crate::events::stream_completed(stream_id)));
                updated = Stream { last_withdraw_time: last, status: StreamStatus::Completed, ..s };
            }
        }
        self.streams.set(idx, updated);
        proof {
            assert(updated == withdrawn(s, now, sender_balance));
            assert(self@.streams =~= pre.streams.update(stream_id as int, updated));
            assert(self@ == pre.after_withdraw(stream_id, now, sender_balance));
            assert(fx@ =~= pre.withdraw_effects(stream_id, now, sender_balance));
        }
        Ok(fx)
    }

    /// Stops an active stream: the recipient receives what has accrued since
    /// the last withdrawal, the sender the deposit less everything streamed
    /// since the start, and the stream is cancelled.
    pub fn cancel_stream(&mut self, stream_id: u64, caller: AccountId, now: u64) -> (r: Result<
        Vec<Effect>,
        StreamError,
    >)
        requires
            old(self)@.wf(),
        ensures
            final(self)@.wf(),
            match r {
                Ok(fx) => {
                    &&& old(self)@.cancel_error(stream_id, caller) is None
                    &&& final(self)@ == old(self)@.after_cancel(stream_id)
                    &&& fx@ == old(self)@.cancel_effects(stream_id, now)
                },
                Err(e) => {
                    &&& old(self)@.cancel_error(stream_id, caller) == Some(e)
                    &&& final(self)@ == old(self)@
                },
            },
    {
        if stream_id >= self.streams.len() as u64 {
            return Err(StreamError::StreamNotFound);
        }
        let idx = stream_id as usize;
        let s = self.streams[idx];
        if caller != s.sender {
            return Err(StreamError::NotSender);
        }
        if s.status != StreamStatus::Active {
            return Err(StreamError::StreamNotActive);
        }
        let ghost pre = self@;
        proof {
            lemma_accrued_within_deposit(s, now, s.last_withdraw_time);
            lemma_accrued_within_deposit(s, now, s.start_time);
        }
        let recipient_amount = compute_earned(s.flow_rate, now, s.end_time, s.last_withdraw_time);
        let refund = compute_refund(s.deposit, s.flow_rate, now, s.end_time, s.start_time);
        let mut fx: Vec<Effect> = Vec::new();
        if recipient_amount > 0 {
            fx.push(
                Effect::Transfer {
                    token: s.token,
                    from: self.contract,
                    to: s.recipient,
                    amount: recipient_amount,
                },
            );
        }
        if refund > 0 {
            fx.push(
                Effect::Transfer { token: s.token, from: self.contract, to: s.sender, amount: refund },
            );
        }
        fx.push(
            Effect::Event(
                crate::events::stream_cancelled(stream_id, s.sender, refund, recipient_amount),
            ),
        );
        let updated = Stream { status: StreamStatus::Cancelled, ..s };
        self.streams.set(idx, updated);
        proof {
            assert(self@.streams =~= pre.streams.update(stream_id as int, updated));
            assert(self@ == pre.after_cancel(stream_id));
            assert(fx@ =~= pre.cancel_effects(stream_id, now));
        }
        Ok(fx)
    }

    /// Adds to an active stream's deposit and moves its end out. Only whole
    /// seconds of flow are accepted: `amount - amount % flow_rate` joins the
    /// deposit and the end moves by that over the rate.
    pub fn top_up(&mut self, stream_id: u64, caller: AccountId, amount: i128) -> (r: Result<
        Vec<Effect>,
        StreamError,
    >)
        requires
            old(self)@.wf(),
        ensures
            final(self)@.wf(),
            match r {
                Ok(fx) => {
                    &&& old(self)@.top_up_error(stream_id, caller, amount) is None
                    &&& final(self)@ == old(self)@.after_top_up(stream_id, amount)
                    &&& fx@ == old(self)@.top_up_effects(stream_id, amount)
                },
                Err(e) => {
                    &&& old(self)@.top_up_error(stream_id, caller, amount) == Some(e)
                    &&& final(self)@ == old(self)@
                },
            },
    {
        if stream_id >= self.streams.len() as u64 {
            return Err(StreamError::StreamNotFound);
        }
        let idx = stream_id as usize;
        let s = self.streams[idx];
        if caller != s.sender {
            return Err(StreamError::NotSender);
        }
        if s.status != StreamStatus::Active {
            return Err(StreamError::StreamNotActive);
        }
        if amount <= 0 {
            return Err(StreamError::ZeroAmount);
        }
        let ghost pre = self@;
        let rate = s.flow_rate;
        let effective = amount - amount % rate;
        let extra = effective / rate;
        proof {
            let q = (amount as int) / (rate as int);
            vstd::arithmetic::div_mod::lemma_fundamental_div_mod(amount as int, rate as int);
            vstd::arithmetic::div_mod::lemma_mod_pos_bound(amount as int, rate as int);
            vstd::arithmetic::div_mod::lemma_div_pos_is_pos(amount as int, rate as int);
            vstd::arithmetic::mul::lemma_mul_is_commutative(rate as int, q);
            assert(effective == q * rate);
            vstd::arithmetic::div_mod::lemma_div_multiples_vanish(q, rate as int);
            assert(extra == q);
            vstd::arithmetic::mul::lemma_mul_nonnegative(q, rate as int);
        }
        if s.deposit > i128::MAX - effective || extra > (u64::MAX - s.end_time) as i128 {
            return Err(StreamError::InvalidDuration);
        }
        let new_end = s.end_time + (extra as u64);
        let updated = Stream { deposit: s.deposit + effective, end_time: new_end, ..s };
        proof {
            let d = s.end_time - s.start_time;
            vstd::arithmetic::mul::lemma_mul_is_distributive_add(rate as int, d, extra as int);
            vstd::arithmetic::mul::lemma_mul_is_commutative(rate as int, extra as int);
            assert(valid_stream(updated));
        }
        let mut fx: Vec<Effect> = Vec::new();
        if effective > 0 {
            fx.push(
                Effect::Transfer { token: s.token, from: s.sender, to: self.contract, amount: effective },
            );
        }
        fx.push(Effect::Event(crate::events::stream_topped_up(stream_id, effective, new_end)));
        self.streams.set(idx, updated);
        proof {
            assert(updated == topped_up(s, amount));
            assert(self@.streams =~= pre.streams.update(stream_id as int, updated));
            assert(self@ == pre.after_top_up(stream_id, amount));
            assert(fx@ =~= pre.top_up_effects(stream_id, amount));
        }
        Ok(fx)
    }

    /// What the recipient of a stream could withdraw at `now`: zero before
    /// the cliff and for a stream that is no longer active.
    pub fn get_claimable(&self, stream_id: u64, now: u64) -> (r: Result<i128, StreamError>)
        requires
            self@.wf(),
        ensures
            match r {
                Ok(c) => self@.has_stream(stream_id) && c == self@.claimable_now(stream_id, now),
                Err(e) => !self@.has_stream(stream_id) && e == StreamError::StreamNotFound,
            },
    {
        if stream_id >= self.streams.len() as u64 {
            return Err(StreamError::StreamNotFound);
        }
        let s = self.streams[stream_id as usize];
        if s.status != StreamStatus::Active {
            return Ok(0);
        }
        proof {
            lemma_accrued_within_deposit(s, now, s.last_withdraw_time);
        }
        Ok(compute_claimable(s.flow_rate, now, s.cliff_time, s.end_time, s.last_withdraw_time))
    }

    /// The streams created by `sender`, in order of id.
    pub fn get_streams_by_sender(&self, sender: AccountId) -> (r: Vec<Stream>)
        ensures
            r@ == self@.streams.filter(|s: Stream| s.sender == sender),
    {
        let ghost pred = |s: Stream| s.sender == sender;
        let mut r: Vec<Stream> = Vec::new();
        let n = self.streams.len();
        for i in 0..n
            invariant
                n == self.streams@.len(),
                pred == (|s: Stream| s.sender == sender),
                r@ == self.streams@.take(i as int).filter(pred),
        {
            let s = self.streams[i];
            proof {
                assert(self.streams@.take(i + 1) =~= self.streams@.take(i as int).push(s));
                self.streams@.take(i as int).lemma_filter_push(s, pred);
            }
            if s.sender == sender {
                r.push(s);
            }
        }
        proof {
            assert(self.streams@.take(n as int) =~= self.streams@);
        }
        r
    }

    /// The streams paying `recipient`, in order of id.
    pub fn get_streams_by_recipient(&self, recipient: AccountId) -> (r: Vec<Stream>)
        ensures
            r@ == self@.streams.filter(|s: Stream| s.recipient == recipient),
    {
        let ghost pred = |s: Stream| s.recipient == recipient;
        let mut r: Vec<Stream> = Vec::new();
        let n = self.streams.len();
        for i in 0..n
            invariant
                n == self.streams@.len(),
                pred == (|s: Stream| s.recipient == recipient),
                r@ == self.streams@.take(i as int).filter(pred),
        {
            let s = self.streams[i];
            proof {
                assert(self.streams@.take(i + 1) =~= self.streams@.take(i as int).push(s));
                self.streams@.take(i as int).lemma_filter_push(s, pred);
            }
            if s.recipient == recipient {
                r.push(s);
            }
        }
        proof {
            assert(self.streams@.take(n as int) =~= self.streams@);
        }
        r
    }
}

} // verus!
