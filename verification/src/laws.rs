//! Properties of the stream book that span its instructions.
use crate::book::{valid_stream, BookState};
use crate::types::{AccountId, StreamError, StreamStatus};
use crate::vesting_math::{
    accrued,
    flowing_seconds,
    lemma_rate_times_fewer_seconds,
    refund_amount,
};
use vstd::prelude::*;

verus! {

/// Law: a `(sender, nonce)` pair creates at most one stream. Once a stream has
/// been created with it, any later creation with the same pair is refused as a
/// duplicate, whatever its other arguments.
pub proof fn law_nonce_creates_at_most_one_stream(
    state: BookState,
    sender: AccountId,
    recipient: AccountId,
    token: AccountId,
    amount: i128,
    duration_seconds: u64,
    nonce: u64,
    auto_renew: bool,
    now: u64,
    later_amount: i128,
    later_duration_seconds: u64,
    later_now: u64,
)
    requires
        state.wf(),
        state.create_error(sender, amount, duration_seconds, nonce, now) is None,
    ensures
        state.created(
            sender,
            recipient,
            token,
            amount,
            duration_seconds,
            nonce,
            auto_renew,
            now,
        ).create_error(sender, later_amount, later_duration_seconds, nonce, later_now) == Some(
            StreamError::DuplicateStream,
        ),
{
    let next = state.created(
        sender,
        recipient,
        token,
        amount,
        duration_seconds,
        nonce,
        auto_renew,
        now,
    );
    assert(next.nonces[state.nonces.len() as int] == (sender, nonce));
}

/// Law: nonces belong to their sender. Creating a stream leaves every other
/// sender's creations exactly as they were: two senders may use the same nonce.
pub proof fn law_nonces_are_per_sender(
    state: BookState,
    sender: AccountId,
    recipient: AccountId,
    token: AccountId,
    amount: i128,
    duration_seconds: u64,
    nonce: u64,
    auto_renew: bool,
    now: u64,
    other: AccountId,
    other_amount: i128,
    other_duration_seconds: u64,
    other_nonce: u64,
    other_now: u64,
)
    requires
        state.wf(),
        other != sender,
    ensures
        state.created(
            sender,
            recipient,
            token,
            amount,
            duration_seconds,
            nonce,
            auto_renew,
            now,
        ).create_error(other, other_amount, other_duration_seconds, other_nonce, other_now)
            == state.create_error(other, other_amount, other_duration_seconds, other_nonce, other_now),
{
    let next = state.created(
        sender,
        recipient,
        token,
        amount,
        duration_seconds,
        nonce,
        auto_renew,
        now,
    );
    if next.nonce_used(other, other_nonce) {
        let i = choose|i: int|
            0 <= i < next.nonces.len() && next.nonces[i] == (other, other_nonce);
        assert(i < state.nonces.len());
        assert(state.nonces[i] == (other, other_nonce));
    }
    if state.nonce_used(other, other_nonce) {
        let i = choose|i: int|
            0 <= i < state.nonces.len() && state.nonces[i] == (other, other_nonce);
        assert(next.nonces[i] == (other, other_nonce));
    }
}

/// Law: stream ids are never reused. A new stream's id is the number of
/// streams before it, larger than every existing id, and the existing streams
/// are left as they were.
pub proof fn law_new_stream_id_is_fresh(
    state: BookState,
    sender: AccountId,
    recipient: AccountId,
    token: AccountId,
    amount: i128,
    duration_seconds: u64,
    nonce: u64,
    auto_renew: bool,
    now: u64,
)
    requires
        state.wf(),
    ensures
        ({
            let next = state.created(
                sender,
                recipient,
                token,
                amount,
                duration_seconds,
                nonce,
                auto_renew,
                now,
            );
            let id = state.new_stream(
                sender,
                recipient,
                token,
                amount,
                duration_seconds,
                auto_renew,
                now,
            ).id;
            &&& id == state.streams.len()
            &&& next.streams.len() == state.streams.len() + 1
            &&& forall|i: int|
                0 <= i < state.streams.len() ==> #[trigger] state.streams[i].id < id
                    && next.streams[i] == state.streams[i]
        }),
{
}

/// Law: the instructions on an existing stream never add or remove streams,
/// and never change any stream's id, sender or recipient.
pub proof fn law_instructions_keep_ids(
    state: BookState,
    stream_id: u64,
    now: u64,
    sender_balance: i128,
    amount: i128,
)
    requires
        state.wf(),
        state.has_stream(stream_id),
    ensures
        ({
            let after = state.after_withdraw(stream_id, now, sender_balance);
            &&& after.streams.len() == state.streams.len()
            &&& forall|i: int|
                0 <= i < state.streams.len() ==> {
                    &&& (#[trigger] after.streams[i]).id == state.streams[i].id
                    &&& after.streams[i].sender == state.streams[i].sender
                    &&& after.streams[i].recipient == state.streams[i].recipient
                }
        }),
        ({
            let after = state.after_cancel(stream_id);
            &&& after.streams.len() == state.streams.len()
            &&& forall|i: int|
                0 <= i < state.streams.len() ==> {
                    &&& (#[trigger] after.streams[i]).id == state.streams[i].id
                    &&& after.streams[i].sender == state.streams[i].sender
                    &&& after.streams[i].recipient == state.streams[i].recipient
                }
        }),
        ({
            let after = state.after_top_up(stream_id, amount);
            &&& after.streams.len() == state.streams.len()
            &&& forall|i: int|
                0 <= i < state.streams.len() ==> {
                    &&& (#[trigger] after.streams[i]).id == state.streams[i].id
                    &&& after.streams[i].sender == state.streams[i].sender
                    &&& after.streams[i].recipient == state.streams[i].recipient
                }
        }),
{
}

/// Law: `Cancelled` and `Completed` are final. Withdrawing, cancelling and
/// topping up are all refused on a stream in either state, whoever asks, so
/// (an instruction that is refused changing nothing) such a stream never
/// changes again.
pub proof fn law_final_states_are_final(
    state: BookState,
    stream_id: u64,
    caller: AccountId,
    amount: i128,
)
    requires
        state.wf(),
        state.has_stream(stream_id),
        state.stream(stream_id).status != StreamStatus::Active,
    ensures
        state.withdraw_error(stream_id, caller) is Some,
        state.cancel_error(stream_id, caller) is Some,
        state.top_up_error(stream_id, caller, amount) is Some,
{
}

/// Law: a cancellation splits the deposit exactly. What the recipient was
/// paid since the stream (re)started, what it receives on cancelling, and the
/// refund to the sender add up to the deposit, as long as the clock has not
/// gone back before the last withdrawal.
pub proof fn law_cancel_splits_deposit(state: BookState, stream_id: u64, now: u64)
    requires
        state.wf(),
        state.has_stream(stream_id),
        state.stream(stream_id).last_withdraw_time <= now,
    ensures
        ({
            let s = state.stream(stream_id);
            s.flow_rate * (s.last_withdraw_time - s.start_time) + accrued(
                s.flow_rate,
                now,
                s.end_time,
                s.last_withdraw_time,
            ) + refund_amount(s.deposit, s.flow_rate, now, s.end_time, s.start_time)
                == s.deposit
        }),
{
    let s = state.stream(stream_id);
    assert(valid_stream(s));
    let r = s.flow_rate as int;
    let paid = s.last_withdraw_time - s.start_time;
    let later = flowing_seconds(now, s.end_time, s.last_withdraw_time);
    let total = flowing_seconds(now, s.end_time, s.start_time);
    let d = s.end_time - s.start_time;
    assert(total == paid + later);
    assert(0 <= total <= d);
    vstd::arithmetic::mul::lemma_mul_is_distributive_add(r, paid, later);
    lemma_rate_times_fewer_seconds(r, total, d);
}

/// Law: after a withdrawal nothing more is claimable at the same moment,
/// whether the stream went on, started a new period or completed.
pub proof fn law_withdraw_leaves_nothing_claimable(
    state: BookState,
    stream_id: u64,
    caller: AccountId,
    now: u64,
    sender_balance: i128,
)
    requires
        state.wf(),
        state.withdraw_error(stream_id, caller) is None,
    ensures
        state.after_withdraw(stream_id, now, sender_balance).claimable_now(stream_id, now) == 0,
{
    let after = state.after_withdraw(stream_id, now, sender_balance);
    let t = after.stream(stream_id);
    assert(t.flow_rate * 0int == 0) by (nonlinear_arith);
    if t.status == StreamStatus::Active && now >= t.cliff_time {
        assert(flowing_seconds(now, t.end_time, t.last_withdraw_time) == 0);
    }
}

/// Law: what is claimable from a stream never exceeds its deposit and is never
/// negative.
pub proof fn law_claimable_within_stream_deposit(state: BookState, stream_id: u64, now: u64)
    requires
        state.wf(),
        state.has_stream(stream_id),
    ensures
        0 <= state.claimable_now(stream_id, now) <= state.stream(stream_id).deposit,
{
    let s = state.stream(stream_id);
    assert(valid_stream(s));
    let k = flowing_seconds(now, s.end_time, s.last_withdraw_time);
    let d = s.end_time - s.start_time;
    assert(0 <= k <= d);
    lemma_rate_times_fewer_seconds(s.flow_rate as int, k, d);
}

/// Law: before a stream's cliff nothing is claimable from it.
pub proof fn law_nothing_claimable_before_cliff(state: BookState, stream_id: u64, now: u64)
    requires
        state.wf(),
        state.has_stream(stream_id),
        now < state.stream(stream_id).cliff_time,
    ensures
        state.claimable_now(stream_id, now) == 0,
{
}

} // verus!
