//! What each instruction pays, and to whom, stated from the stream's fields.
//!
//! `paid(fx, token, from, to)` adds up the transfers of `token` from `from` to
//! `to` among the effects `fx`. The laws below give that total for each
//! instruction in terms of the flow rate, the deposit and the stream's times.
use crate::book::{valid_stream, BookState, Effect};
use crate::types::{AccountId, StreamStatus};
use crate::vesting_math::{lemma_rate_times_fewer_seconds, min_time};
use vstd::prelude::*;

verus! {

/// The amount an effect moves of `token` from `from` to `to`: its amount if it
/// is such a transfer, else zero.
pub open spec fn moved(e: Effect, token: AccountId, from: AccountId, to: AccountId) -> int {
    match e {
        Effect::Transfer { token: t, from: f, to: g, amount } => if t == token && f == from && g
            == to {
            amount as int
        } else {
            0
        },
        Effect::Event(_) => 0,
    }
}

/// The total moved of `token` from `from` to `to` by the effects `fx`.
pub open spec fn paid(fx: Seq<Effect>, token: AccountId, from: AccountId, to: AccountId) -> int
    decreases fx.len(),
{
    if fx.len() == 0 {
        0
    } else {
        paid(fx.drop_last(), token, from, to) + moved(fx.last(), token, from, to)
    }
}

/// Appending one effect adds what it moves.
pub proof fn lemma_paid_push(
    fx: Seq<Effect>,
    e: Effect,
    token: AccountId,
    from: AccountId,
    to: AccountId,
)
    ensures
        paid(fx.push(e), token, from, to) == paid(fx, token, from, to) + moved(e, token, from, to),
{
    assert(fx.push(e).drop_last() =~= fx);
}

/// The total over two sequences of effects is the sum of their totals.
pub proof fn lemma_paid_append(
    a: Seq<Effect>,
    b: Seq<Effect>,
    token: AccountId,
    from: AccountId,
    to: AccountId,
)
    ensures
        paid(a + b, token, from, to) == paid(a, token, from, to) + paid(b, token, from, to),
    decreases b.len(),
{
    if b.len() == 0 {
        assert(a + b =~= a);
    } else {
        lemma_paid_append(a, b.drop_last(), token, from, to);
        assert(a + b =~= (a + b.drop_last()).push(b.last()));
        lemma_paid_push(a + b.drop_last(), b.last(), token, from, to);
    }
}

/// The totals of sequences of one and two effects.
pub proof fn lemma_paid_short(
    x: Effect,
    y: Effect,
    token: AccountId,
    from: AccountId,
    to: AccountId,
)
    ensures
        paid(Seq::<Effect>::empty(), token, from, to) == 0,
        paid(seq![x], token, from, to) == moved(x, token, from, to),
        paid(seq![x, y], token, from, to) == moved(x, token, from, to) + moved(
            y,
            token,
            from,
            to,
        ),
{
    lemma_paid_push(Seq::<Effect>::empty(), x, token, from, to);
    assert(seq![x] =~= Seq::<Effect>::empty().push(x));
    lemma_paid_push(seq![x], y, token, from, to);
    assert(seq![x, y] =~= seq![x].push(y));
}

/// What a stream owes its recipient at `now`: nothing before the cliff, else
/// the flow rate times the seconds from the last withdrawal until `now`, the
/// count stopping at the end time.
pub open spec fn owed_to_recipient(
    flow_rate: i128,
    now: u64,
    cliff_time: u64,
    end_time: u64,
    last_withdraw_time: u64,
) -> int {
    let until = if now < end_time {
        now
    } else {
        end_time
    };
    if now < cliff_time || until <= last_withdraw_time {
        0
    } else {
        flow_rate * (until - last_withdraw_time)
    }
}

/// The withdrawal payout is what the stream owes at `now`, as a number at
/// least zero.
proof fn lemma_withdraw_payout(state: BookState, stream_id: u64, now: u64, sender_balance: i128)
    requires
        state.wf(),
        state.has_stream(stream_id),
        state.stream(stream_id).sender != state.contract,
    ensures
        ({
            let s = state.stream(stream_id);
            let fx = state.withdraw_effects(stream_id, now, sender_balance);
            &&& paid(fx, s.token, state.contract, s.recipient) == owed_to_recipient(
                s.flow_rate,
                now,
                s.cliff_time,
                s.end_time,
                s.last_withdraw_time,
            )
            &&& 0 <= owed_to_recipient(
                s.flow_rate,
                now,
                s.cliff_time,
                s.end_time,
                s.last_withdraw_time,
            ) <= s.deposit
        }),
{
    let s = state.stream(stream_id);
    assert(valid_stream(s));
    let c = state.contract;
    let until = min_time(now, s.end_time);
    let k = if until > s.last_withdraw_time {
        until - s.last_withdraw_time
    } else {
        0
    };
    lemma_rate_times_fewer_seconds(s.flow_rate as int, k, s.end_time - s.start_time);
    assert(s.flow_rate * 0int == 0) by (nonlinear_arith);
    let owed = owed_to_recipient(s.flow_rate, now, s.cliff_time, s.end_time, s.last_withdraw_time);
    let cl = crate::vesting_math::claimable_amount(
        s.flow_rate,
        now,
        s.cliff_time,
        s.end_time,
        s.last_withdraw_time,
    );
    assert(cl == owed);
    let fx = state.withdraw_effects(stream_id, now, sender_balance);
    let x = Effect::Transfer { token: s.token, from: s.sender, to: c, amount: s.deposit };
    let w = Effect::Event(
        crate::events::StreamEvent::Withdrawn {
            stream_id,
            recipient: s.recipient,
            amount: owed as i128,
            timestamp: now,
        },
    );
    let t = Effect::Transfer { token: s.token, from: c, to: s.recipient, amount: owed as i128 };
    let a = Effect::Event(
        crate::events::StreamEvent::AutoRenewFailed {
            stream_id,
            sender: s.sender,
            required_amount: s.deposit,
        },
    );
    let d = Effect::Event(crate::events::StreamEvent::Completed { stream_id });
    lemma_paid_short(t, w, s.token, c, s.recipient);
    lemma_paid_short(x, x, s.token, c, s.recipient);
    lemma_paid_short(a, d, s.token, c, s.recipient);
    lemma_paid_short(d, d, s.token, c, s.recipient);
    let head = if owed > 0 {
        seq![t, w]
    } else {
        Seq::<Effect>::empty()
    };
    let ending = if now < s.end_time {
        Seq::<Effect>::empty()
    } else if crate::book::renews(s, now, sender_balance) {
        seq![x]
    } else if s.auto_renew {
        seq![a, d]
    } else {
        seq![d]
    };
    assert(paid(head, s.token, c, s.recipient) == owed);
    assert(paid(ending, s.token, c, s.recipient) == 0);
    assert(fx == head + ending);
    lemma_paid_append(head, ending, s.token, c, s.recipient);
}

/// Law: a withdrawal pays the recipient exactly what the stream owes at that
/// moment: nothing before the cliff, else the flow rate times the seconds from
/// the last withdrawal until `now`, counted no further than the end time. That
/// is never more than the deposit.
pub proof fn law_withdraw_pays_what_is_owed(
    state: BookState,
    stream_id: u64,
    caller: AccountId,
    now: u64,
    sender_balance: i128,
)
    requires
        state.wf(),
        state.withdraw_error(stream_id, caller) is None,
        state.stream(stream_id).sender != state.contract,
    ensures
        ({
            let s = state.stream(stream_id);
            let fx = state.withdraw_effects(stream_id, now, sender_balance);
            let until = if now < s.end_time {
                now
            } else {
                s.end_time
            };
            &&& now < s.cliff_time ==> paid(fx, s.token, state.contract, s.recipient) == 0
            &&& now >= s.cliff_time && until > s.last_withdraw_time ==> paid(
                fx,
                s.token,
                state.contract,
                s.recipient,
            ) == s.flow_rate * (until - s.last_withdraw_time)
            &&& until <= s.last_withdraw_time ==> paid(fx, s.token, state.contract, s.recipient)
                == 0
            &&& 0 <= paid(fx, s.token, state.contract, s.recipient) <= s.deposit
        }),
{
    lemma_withdraw_payout(state, stream_id, now, sender_balance);
}

/// Law: two withdrawals in a row, the first before the end and after the
/// cliff, pay together the flow rate times the seconds from the last
/// withdrawal before them until the second one (counted no further than the
/// end), and never more than the deposit.
pub proof fn law_two_withdrawals_add_up(
    state: BookState,
    stream_id: u64,
    caller: AccountId,
    first: u64,
    second: u64,
    sender_balance: i128,
    later_sender_balance: i128,
)
    requires
        state.wf(),
        state.withdraw_error(stream_id, caller) is None,
        state.stream(stream_id).sender != state.contract,
        state.stream(stream_id).cliff_time <= first,
        state.stream(stream_id).last_withdraw_time <= first,
        first < state.stream(stream_id).end_time,
        first <= second,
    ensures
        ({
            let s = state.stream(stream_id);
            let after = state.after_withdraw(stream_id, first, sender_balance);
            let fx1 = state.withdraw_effects(stream_id, first, sender_balance);
            let fx2 = after.withdraw_effects(stream_id, second, later_sender_balance);
            let until = if second < s.end_time {
                second
            } else {
                s.end_time
            };
            &&& after.withdraw_error(stream_id, caller) is None
            &&& paid(fx1, s.token, state.contract, s.recipient) + paid(
                fx2,
                s.token,
                state.contract,
                s.recipient,
            ) == s.flow_rate * (until - s.last_withdraw_time)
            &&& paid(fx1, s.token, state.contract, s.recipient) + paid(
                fx2,
                s.token,
                state.contract,
                s.recipient,
            ) <= s.deposit
        }),
{
    let s = state.stream(stream_id);
    let after = state.after_withdraw(stream_id, first, sender_balance);
    let t = after.stream(stream_id);
    assert(valid_stream(s));
    assert(t == (crate::types::Stream { last_withdraw_time: first, ..s }));
    assert(after.wf()) by {
        assert forall|i: int| 0 <= i < after.streams.len() implies {
            &&& (#[trigger] after.streams[i]).id == i
            &&& valid_stream(after.streams[i])
            &&& after.nonces[i].0 == after.streams[i].sender
        } by {
            if i == stream_id {
                assert(after.streams[i] == t);
            } else {
                assert(after.streams[i] == state.streams[i]);
            }
        }
    }
    lemma_withdraw_payout(state, stream_id, first, sender_balance);
    lemma_withdraw_payout(after, stream_id, second, later_sender_balance);
    let until = min_time(second, s.end_time);
    let r = s.flow_rate as int;
    vstd::arithmetic::mul::lemma_mul_is_distributive_add(
        r,
        first - s.last_withdraw_time,
        until - first,
    );
    lemma_rate_times_fewer_seconds(r, until - s.last_withdraw_time, s.end_time - s.start_time);
}

/// Law: what `get_claimable` reports for an active stream is what a
/// withdrawal by its recipient at the same moment would pay: nothing before
/// the cliff, else the flow rate times the seconds from the last withdrawal
/// until `now`, counted no further than the end time.
pub proof fn law_claimable_is_what_withdraw_pays(
    state: BookState,
    stream_id: u64,
    now: u64,
    sender_balance: i128,
)
    requires
        state.wf(),
        state.has_stream(stream_id),
        state.stream(stream_id).status == StreamStatus::Active,
        state.stream(stream_id).sender != state.contract,
    ensures
        ({
            let s = state.stream(stream_id);
            &&& state.withdraw_error(stream_id, s.recipient) is None
            &&& state.claimable_now(stream_id, now) == paid(
                state.withdraw_effects(stream_id, now, sender_balance),
                s.token,
                state.contract,
                s.recipient,
            )
            &&& state.claimable_now(stream_id, now) == owed_to_recipient(
                s.flow_rate,
                now,
                s.cliff_time,
                s.end_time,
                s.last_withdraw_time,
            )
        }),
{
    let s = state.stream(stream_id);
    assert(valid_stream(s));
    lemma_withdraw_payout(state, stream_id, now, sender_balance);
    assert(s.flow_rate * 0int == 0) by (nonlinear_arith);
}

/// Law: a cancellation pays the recipient the flow rate times the seconds
/// from the last withdrawal until `now` (counted no further than the end), and
/// refunds the sender the deposit less the flow rate times the seconds from the
/// start until then, never less than zero. The stream is then cancelled.
pub proof fn law_cancel_pays_both_parties(
    state: BookState,
    stream_id: u64,
    caller: AccountId,
    now: u64,
)
    requires
        state.wf(),
        state.cancel_error(stream_id, caller) is None,
        state.stream(stream_id).sender != state.stream(stream_id).recipient,
    ensures
        ({
            let s = state.stream(stream_id);
            let fx = state.cancel_effects(stream_id, now);
            let until = if now < s.end_time {
                now
            } else {
                s.end_time
            };
            let earned = if until > s.last_withdraw_time {
                s.flow_rate * (until - s.last_withdraw_time)
            } else {
                0
            };
            let streamed = if until > s.start_time {
                s.flow_rate * (until - s.start_time)
            } else {
                0
            };
            &&& paid(fx, s.token, state.contract, s.recipient) == earned
            &&& paid(fx, s.token, state.contract, s.sender) == if s.deposit > streamed {
                s.deposit - streamed
            } else {
                0
            }
            &&& state.after_cancel(stream_id).stream(stream_id).status == StreamStatus::Cancelled
        }),
{
    let s = state.stream(stream_id);
    assert(valid_stream(s));
    let c = state.contract;
    let until = min_time(now, s.end_time);
    let d = s.end_time - s.start_time;
    let k1 = if until > s.last_withdraw_time {
        until - s.last_withdraw_time
    } else {
        0
    };
    let k2 = if until > s.start_time {
        until - s.start_time
    } else {
        0
    };
    lemma_rate_times_fewer_seconds(s.flow_rate as int, k1, d);
    lemma_rate_times_fewer_seconds(s.flow_rate as int, k2, d);
    assert(s.flow_rate * 0int == 0) by (nonlinear_arith);
    let earned = crate::vesting_math::accrued(s.flow_rate, now, s.end_time, s.last_withdraw_time);
    let refund = crate::vesting_math::refund_amount(
        s.deposit,
        s.flow_rate,
        now,
        s.end_time,
        s.start_time,
    );
    let fx = state.cancel_effects(stream_id, now);
    let p1 = crate::book::pay(s.token, c, s.recipient, earned);
    let p2 = crate::book::pay(s.token, c, s.sender, refund);
    let ev = Effect::Event(
        crate::events::StreamEvent::Cancelled {
            stream_id,
            sender: s.sender,
            refund_amount: refund as i128,
            recipient_amount: earned as i128,
        },
    );
    let t1 = Effect::Transfer { token: s.token, from: c, to: s.recipient, amount: earned as i128 };
    let t2 = Effect::Transfer { token: s.token, from: c, to: s.sender, amount: refund as i128 };
    assert(fx == p1 + p2 + seq![ev]);
    lemma_paid_append(p1 + p2, seq![ev], s.token, c, s.recipient);
    lemma_paid_append(p1, p2, s.token, c, s.recipient);
    lemma_paid_append(p1 + p2, seq![ev], s.token, c, s.sender);
    lemma_paid_append(p1, p2, s.token, c, s.sender);
    lemma_paid_short(ev, ev, s.token, c, s.recipient);
    lemma_paid_short(ev, ev, s.token, c, s.sender);
    lemma_paid_short(t1, t1, s.token, c, s.recipient);
    lemma_paid_short(t1, t1, s.token, c, s.sender);
    lemma_paid_short(t2, t2, s.token, c, s.recipient);
    lemma_paid_short(t2, t2, s.token, c, s.sender);
}

/// Law: a top-up by the sender of an active stream with a positive amount is
/// refused only when the new deposit or the new end time would not fit their
/// types. Otherwise it adds `amount - amount % flow_rate` to the deposit and
/// `amount / flow_rate` seconds to the end, moves that much from the sender to
/// the contract, and changes nothing else in the stream.
pub proof fn law_top_up_extends_by_whole_seconds(
    state: BookState,
    stream_id: u64,
    amount: i128,
)
    requires
        state.wf(),
        state.has_stream(stream_id),
        state.stream(stream_id).status == StreamStatus::Active,
        state.stream(stream_id).sender != state.contract,
        amount > 0,
        state.stream(stream_id).deposit + (amount - amount % state.stream(stream_id).flow_rate)
            <= i128::MAX,
        state.stream(stream_id).end_time + amount / state.stream(stream_id).flow_rate <= u64::MAX,
    ensures
        ({
            let s = state.stream(stream_id);
            let t = state.after_top_up(stream_id, amount).stream(stream_id);
            let fx = state.top_up_effects(stream_id, amount);
            &&& state.top_up_error(stream_id, s.sender, amount) is None
            &&& t == (crate::types::Stream {
                deposit: (s.deposit + (amount - amount % s.flow_rate)) as i128,
                end_time: (s.end_time + amount / s.flow_rate) as u64,
                ..s
            })
            &&& paid(fx, s.token, s.sender, state.contract) == amount - amount % s.flow_rate
        }),
{
    let s = state.stream(stream_id);
    assert(valid_stream(s));
    let r = s.flow_rate as int;
    vstd::arithmetic::div_mod::lemma_fundamental_div_mod(amount as int, r);
    vstd::arithmetic::mul::lemma_mul_is_commutative(r, (amount as int) / r);
    let accepted = crate::book::accepted_amount(s, amount);
    assert(accepted == amount - amount % s.flow_rate);
    vstd::arithmetic::div_mod::lemma_mod_pos_bound(amount as int, r);
    let c = state.contract;
    let fx = state.top_up_effects(stream_id, amount);
    let p = crate::book::pay(s.token, s.sender, c, accepted);
    let ev = Effect::Event(
        crate::events::StreamEvent::ToppedUp {
            stream_id,
            added_amount: accepted as i128,
            new_end_time: (s.end_time + amount / s.flow_rate) as u64,
        },
    );
    let tr = Effect::Transfer { token: s.token, from: s.sender, to: c, amount: accepted as i128 };
    assert(fx == p + seq![ev]);
    lemma_paid_append(p, seq![ev], s.token, s.sender, c);
    lemma_paid_short(ev, ev, s.token, s.sender, c);
    lemma_paid_short(tr, tr, s.token, s.sender, c);
}

/// Law: a withdrawal at or after the end of an active stream that renews
/// automatically, when the sender holds at least the deposit and the new end
/// time fits, starts a new period of the same length at `now`: the stream
/// stays active, its start, end and last withdrawal move to `now`,
/// `now + duration` and `now`, and the deposit moves again from the sender to
/// the contract.
pub proof fn law_auto_renew_restarts(
    state: BookState,
    stream_id: u64,
    now: u64,
    sender_balance: i128,
)
    requires
        state.wf(),
        state.has_stream(stream_id),
        state.stream(stream_id).status == StreamStatus::Active,
        state.stream(stream_id).auto_renew,
        state.stream(stream_id).sender != state.contract,
        now >= state.stream(stream_id).end_time,
        sender_balance >= state.stream(stream_id).deposit,
        now + (state.stream(stream_id).end_time - state.stream(stream_id).start_time) <= u64::MAX,
    ensures
        ({
            let s = state.stream(stream_id);
            let t = state.after_withdraw(stream_id, now, sender_balance).stream(stream_id);
            let fx = state.withdraw_effects(stream_id, now, sender_balance);
            &&& state.withdraw_error(stream_id, s.recipient) is None
            &&& t.status == StreamStatus::Active
            &&& t.start_time == now
            &&& t.end_time == now + (s.end_time - s.start_time)
            &&& t.last_withdraw_time == now
            &&& t.deposit == s.deposit
            &&& t.flow_rate == s.flow_rate
            &&& paid(fx, s.token, s.sender, state.contract) == s.deposit
        }),
{
    let s = state.stream(stream_id);
    assert(valid_stream(s));
    let c = state.contract;
    let owed = crate::vesting_math::claimable_amount(
        s.flow_rate,
        now,
        s.cliff_time,
        s.end_time,
        s.last_withdraw_time,
    );
    let fx = state.withdraw_effects(stream_id, now, sender_balance);
    let x = Effect::Transfer { token: s.token, from: s.sender, to: c, amount: s.deposit };
    let t = Effect::Transfer { token: s.token, from: c, to: s.recipient, amount: owed as i128 };
    let w = Effect::Event(
        crate::events::StreamEvent::Withdrawn {
            stream_id,
            recipient: s.recipient,
            amount: owed as i128,
            timestamp: now,
        },
    );
    lemma_paid_short(x, x, s.token, s.sender, c);
    lemma_paid_short(t, w, s.token, s.sender, c);
    let head = if owed > 0 {
        seq![t, w]
    } else {
        Seq::<Effect>::empty()
    };
    assert(fx == head + seq![x]);
    lemma_paid_append(head, seq![x], s.token, s.sender, c);
}

} // verus!
