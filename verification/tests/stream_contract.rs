use sorostream::book::{Effect, StreamBook};
use sorostream::events::StreamEvent;
use sorostream::types::{AccountId, Stream, StreamError, StreamStatus};
use std::collections::HashMap;

const CONTRACT: AccountId = 1_000;

/// A ledger around a stream book: token balances, a clock and the published
/// events. It makes the transfers that the book asks for.
struct TestEnv {
    book: StreamBook,
    balances: HashMap<(AccountId, AccountId), i128>,
    events: Vec<StreamEvent>,
    now: u64,
    next_account: AccountId,
    token_id: AccountId,
    sender: AccountId,
    recipient: AccountId,
}

impl TestEnv {
    fn empty() -> TestEnv {
        TestEnv {
            book: StreamBook::new(CONTRACT),
            balances: HashMap::new(),
            events: Vec::new(),
            now: 0,
            next_account: 1,
            token_id: 0,
            sender: 0,
            recipient: 0,
        }
    }

    fn generate_address(&mut self) -> AccountId {
        let a = self.next_account;
        self.next_account += 1;
        a
    }

    fn mint(&mut self, token: AccountId, to: AccountId, amount: i128) {
        *self.balances.entry((token, to)).or_insert(0) += amount;
    }

    fn balance(&self, token: AccountId, who: AccountId) -> i128 {
        *self.balances.get(&(token, who)).unwrap_or(&0)
    }

    fn set_timestamp(&mut self, t: u64) {
        self.now = t;
    }

    fn apply(&mut self, fx: Vec<Effect>) {
        for e in fx {
            match e {
                Effect::Transfer { token, from, to, amount } => {
                    assert!(amount > 0);
                    let have = self.balance(token, from);
                    assert!(have >= amount, "balance is not sufficient to spend");
                    self.balances.insert((token, from), have - amount);
                    self.mint(token, to, amount);
                }
                Effect::Event(ev) => self.events.push(ev),
            }
        }
    }

    fn create_stream(
        &mut self,
        sender: AccountId,
        recipient: AccountId,
        token: AccountId,
        amount: i128,
        duration_seconds: u64,
        nonce: u64,
        auto_renew: bool,
    ) -> Result<u64, StreamError> {
        let now = self.now;
        let (id, fx) = self.book.create_stream(
            sender,
            recipient,
            token,
            amount,
            duration_seconds,
            nonce,
            auto_renew,
            now,
        )?;
        self.apply(fx);
        Ok(id)
    }

    fn withdraw(&mut self, stream_id: u64, recipient: AccountId) -> Result<(), StreamError> {
        let sender_balance = match self.book.get_stream(stream_id) {
            Ok(s) => self.balance(s.token, s.sender),
            Err(_) => 0,
        };
        let now = self.now;
        let fx = self.book.withdraw(stream_id, recipient, now, sender_balance)?;
        self.apply(fx);
        Ok(())
    }

    fn cancel_stream(&mut self, stream_id: u64, sender: AccountId) -> Result<(), StreamError> {
        let now = self.now;
        let fx = self.book.cancel_stream(stream_id, sender, now)?;
        self.apply(fx);
        Ok(())
    }

    fn top_up(&mut self, stream_id: u64, sender: AccountId, amount: i128) -> Result<(), StreamError> {
        let fx = self.book.top_up(stream_id, sender, amount)?;
        self.apply(fx);
        Ok(())
    }

    fn get_stream(&self, stream_id: u64) -> Stream {
        self.book.get_stream(stream_id).unwrap()
    }

    fn get_claimable(&self, stream_id: u64) -> i128 {
        self.book.get_claimable(stream_id, self.now).unwrap()
    }

    fn get_streams_by_sender(&self, sender: AccountId) -> Vec<Stream> {
        self.book.get_streams_by_sender(sender)
    }
}

fn setup() -> TestEnv {
    let mut t = TestEnv::empty();
    let token_admin = t.generate_address();
    let _ = token_admin;
    t.token_id = t.generate_address();
    t.sender = t.generate_address();
    t.recipient = t.generate_address();
    let (token, sender) = (t.token_id, t.sender);
    t.mint(token, sender, 1_000_000);
    t
}

#[test]
fn test_create_stream_success() {
    let mut t = setup();
    let (s, r, k) = (t.sender, t.recipient, t.token_id);

    let stream_id = t.create_stream(s, r, k, 100_000, 1000, 1, false).unwrap();
    assert_eq!(stream_id, 0);

    let stream = t.get_stream(stream_id);
    assert_eq!(stream.deposit, 100_000);
    assert_eq!(stream.flow_rate, 100);
    assert_eq!(stream.status, StreamStatus::Active);
}

#[test]
fn test_withdraw_partial() {
    let mut t = setup();
    let (s, r, k) = (t.sender, t.recipient, t.token_id);
    t.set_timestamp(0);

    let stream_id = t.create_stream(s, r, k, 100_000, 1000, 1, false).unwrap();

    t.set_timestamp(500);
    t.withdraw(stream_id, r).unwrap();

    let balance = t.balance(k, r);
    assert_eq!(balance, 50_000);
}

#[test]
fn test_withdraw_full() {
    let mut t = setup();
    let (s, r, k) = (t.sender, t.recipient, t.token_id);
    t.set_timestamp(0);

    let stream_id = t.create_stream(s, r, k, 100_000, 1000, 1, false).unwrap();

    t.set_timestamp(1000);
    t.withdraw(stream_id, r).unwrap();

    let balance = t.balance(k, r);
    assert_eq!(balance, 100_000);

    let stream = t.get_stream(stream_id);
    assert_eq!(stream.status, StreamStatus::Completed);
}

#[test]
fn test_cancel_stream_splits_correctly() {
    let mut t = setup();
    let (s, r, k) = (t.sender, t.recipient, t.token_id);
    t.set_timestamp(0);

    let stream_id = t.create_stream(s, r, k, 100_000, 1000, 1, false).unwrap();

    t.set_timestamp(300);
    t.cancel_stream(stream_id, s).unwrap();

    let recipient_bal = t.balance(k, r);
    let sender_bal = t.balance(k, s);

    assert_eq!(recipient_bal, 30_000);
    assert_eq!(sender_bal, 970_000);

    let stream = t.get_stream(stream_id);
    assert_eq!(stream.status, StreamStatus::Cancelled);
}

#[test]
fn test_top_up_extends_duration() {
    let mut t = setup();
    let (s, r, k) = (t.sender, t.recipient, t.token_id);
    t.set_timestamp(0);

    let stream_id = t.create_stream(s, r, k, 100_000, 1000, 1, false).unwrap();
    let stream_before = t.get_stream(stream_id);

    t.top_up(stream_id, s, 50_000).unwrap();

    let stream_after = t.get_stream(stream_id);
    assert_eq!(stream_after.end_time, stream_before.end_time + 500);
    assert_eq!(stream_after.deposit, 150_000);
}

#[test]
fn test_auto_renew_restarts_on_completion() {
    let mut t = TestEnv::empty();
    let token_admin = t.generate_address();
    let _ = token_admin;
    let token_id = t.generate_address();
    let sender = t.generate_address();
    let recipient = t.generate_address();

    t.mint(token_id, sender, 200_000);

    t.set_timestamp(0);

    let stream_id = t.create_stream(sender, recipient, token_id, 100_000, 1000, 1, true).unwrap();

    t.set_timestamp(1000);
    t.withdraw(stream_id, recipient).unwrap();

    let stream = t.get_stream(stream_id);
    assert_eq!(stream.status, StreamStatus::Active);
    assert_eq!(stream.start_time, 1000);
    assert_eq!(stream.end_time, 2000);
    assert_eq!(stream.last_withdraw_time, 1000);
}

#[test]
fn test_cannot_withdraw_if_not_recipient() {
    let mut t = setup();
    let (s, r, k) = (t.sender, t.recipient, t.token_id);

    let stream_id = t.create_stream(s, r, k, 100_000, 1000, 1, false).unwrap();
    let other = t.generate_address();

    let result = t.withdraw(stream_id, other);
    assert!(result.is_err());
}

#[test]
fn test_cannot_cancel_if_not_sender() {
    let mut t = setup();
    let (s, r, k) = (t.sender, t.recipient, t.token_id);

    let stream_id = t.create_stream(s, r, k, 100_000, 1000, 1, false).unwrap();
    let other = t.generate_address();

    let result = t.cancel_stream(stream_id, other);
    assert!(result.is_err());
}

#[test]
fn test_zero_amount_fails() {
    let mut t = setup();
    let (s, r, k) = (t.sender, t.recipient, t.token_id);

    let result = t.create_stream(s, r, k, 0, 1000, 1, false);
    assert!(result.is_err());
}

#[test]
fn test_get_claimable_calculates_correctly() {
    let mut t = setup();
    let (s, r, k) = (t.sender, t.recipient, t.token_id);
    t.set_timestamp(0);

    let stream_id = t.create_stream(s, r, k, 100_000, 1000, 1, false).unwrap();

    t.set_timestamp(250);
    let claimable = t.get_claimable(stream_id);
    assert_eq!(claimable, 25_000);
}

/// Happy path: unique nonce succeeds and stream is created.
#[test]
fn test_idempotency_unique_nonce_succeeds() {
    let mut t = setup();
    let (s, r, k) = (t.sender, t.recipient, t.token_id);

    let id = t.create_stream(s, r, k, 100_000, 1000, 42, false).unwrap();
    let stream = t.get_stream(id);
    assert_eq!(stream.status, StreamStatus::Active);
}

/// Duplicate prevention: same sender + same nonce → DuplicateStream error.
#[test]
fn test_idempotency_duplicate_nonce_rejected() {
    let mut t = setup();
    let (s, r, k) = (t.sender, t.recipient, t.token_id);

    t.create_stream(s, r, k, 100_000, 1000, 42, false).unwrap();

    // Second call with identical nonce must fail.
    let result = t.create_stream(s, r, k, 100_000, 1000, 42, false);
    assert!(result.is_err());

    // Only one stream was created.
    let streams = t.get_streams_by_sender(s);
    assert_eq!(streams.len(), 1);
}

/// Multi-tenant isolation: two different senders can use the same nonce without conflict.
#[test]
fn test_idempotency_same_nonce_different_senders_allowed() {
    let mut t = TestEnv::empty();

    let token_admin = t.generate_address();
    let _ = token_admin;
    let token_id = t.generate_address();

    let sender_a = t.generate_address();
    let sender_b = t.generate_address();
    let recipient = t.generate_address();

    t.mint(token_id, sender_a, 200_000);
    t.mint(token_id, sender_b, 200_000);

    // Both use nonce=99 — must both succeed independently.
    let id_a = t.create_stream(sender_a, recipient, token_id, 100_000, 1000, 99, false).unwrap();
    let id_b = t.create_stream(sender_b, recipient, token_id, 100_000, 1000, 99, false).unwrap();

    assert_ne!(id_a, id_b);
    assert_eq!(t.get_stream(id_a).status, StreamStatus::Active);
    assert_eq!(t.get_stream(id_b).status, StreamStatus::Active);
}

// ── Further cases ────────────────────────────────────────────────────────────

#[test]
fn create_moves_deposit_and_announces_stream() {
    let mut t = setup();
    let (s, r, k) = (t.sender, t.recipient, t.token_id);
    t.set_timestamp(10);
    let id = t.create_stream(s, r, k, 100_500, 1000, 1, false).unwrap();
    assert_eq!(t.balance(k, s), 899_500);
    assert_eq!(t.balance(k, CONTRACT), 100_500);
    assert_eq!(
        t.events,
        vec![StreamEvent::Created {
            stream_id: id,
            sender: s,
            recipient: r,
            amount: 100_500,
            flow_rate: 100,
            end_time: 1010,
        }]
    );
    let stream = t.get_stream(id);
    assert_eq!(stream.start_time, 10);
    assert_eq!(stream.cliff_time, 10);
    assert_eq!(stream.last_withdraw_time, 10);
    assert_eq!(stream.end_time, 1010);
    assert_eq!(stream.id, id);
    assert_eq!(t.book.stream_count(), 1);
    assert!(t.book.is_nonce_used(s, 1));
    assert!(!t.book.is_nonce_used(r, 1));
}

#[test]
fn create_errors_in_order() {
    let mut t = setup();
    let (s, r, k) = (t.sender, t.recipient, t.token_id);
    assert_eq!(t.create_stream(s, r, k, -5, 1000, 1, false), Err(StreamError::ZeroAmount));
    assert_eq!(t.create_stream(s, r, k, 100, 0, 1, false), Err(StreamError::InvalidDuration));
    t.set_timestamp(u64::MAX - 10);
    assert_eq!(t.create_stream(s, r, k, 100, 11, 1, false), Err(StreamError::InvalidDuration));
    t.set_timestamp(0);
    assert_eq!(t.create_stream(s, r, k, 999, 1000, 1, false), Err(StreamError::ZeroFlowRate));
    t.create_stream(s, r, k, 1000, 1000, 1, false).unwrap();
    // The nonce check comes first.
    assert_eq!(t.create_stream(s, r, k, 0, 0, 1, false), Err(StreamError::DuplicateStream));
    assert_eq!(t.book.stream_count(), 1);
}

#[test]
fn unknown_stream_is_not_found() {
    let mut t = setup();
    let (s, r) = (t.sender, t.recipient);
    assert_eq!(t.book.get_stream(3), Err(StreamError::StreamNotFound));
    assert_eq!(t.book.get_claimable(3, 0), Err(StreamError::StreamNotFound));
    assert_eq!(t.withdraw(3, r), Err(StreamError::StreamNotFound));
    assert_eq!(t.cancel_stream(3, s), Err(StreamError::StreamNotFound));
    assert_eq!(t.top_up(3, s, 10), Err(StreamError::StreamNotFound));
}

#[test]
fn wrong_callers_are_refused() {
    let mut t = setup();
    let (s, r, k) = (t.sender, t.recipient, t.token_id);
    let id = t.create_stream(s, r, k, 100_000, 1000, 1, false).unwrap();
    assert_eq!(t.withdraw(id, s), Err(StreamError::NotRecipient));
    assert_eq!(t.cancel_stream(id, r), Err(StreamError::NotSender));
    assert_eq!(t.top_up(id, r, 100), Err(StreamError::NotSender));
}

#[test]
fn final_streams_refuse_every_instruction() {
    let mut t = setup();
    let (s, r, k) = (t.sender, t.recipient, t.token_id);
    let id = t.create_stream(s, r, k, 100_000, 1000, 1, false).unwrap();
    t.set_timestamp(400);
    t.cancel_stream(id, s).unwrap();
    let before = t.get_stream(id);
    assert_eq!(t.withdraw(id, r), Err(StreamError::StreamNotActive));
    assert_eq!(t.cancel_stream(id, s), Err(StreamError::StreamNotActive));
    assert_eq!(t.top_up(id, s, 100), Err(StreamError::StreamNotActive));
    assert_eq!(t.get_claimable(id), 0);
    assert_eq!(t.get_stream(id), before);

    let id2 = t.create_stream(s, r, k, 100_000, 1000, 2, false).unwrap();
    t.set_timestamp(5000);
    t.withdraw(id2, r).unwrap();
    assert_eq!(t.get_stream(id2).status, StreamStatus::Completed);
    assert_eq!(t.withdraw(id2, r), Err(StreamError::StreamNotActive));
}

#[test]
fn top_up_keeps_only_whole_seconds() {
    let mut t = setup();
    let (s, r, k) = (t.sender, t.recipient, t.token_id);
    let id = t.create_stream(s, r, k, 100_000, 1000, 1, false).unwrap();
    t.events.clear();
    t.top_up(id, s, 250).unwrap();
    let stream = t.get_stream(id);
    assert_eq!(stream.deposit, 100_200);
    assert_eq!(stream.end_time, 1002);
    assert_eq!(t.balance(k, s), 899_800);
    assert_eq!(
        t.events,
        vec![StreamEvent::ToppedUp { stream_id: id, added_amount: 200, new_end_time: 1002 }]
    );
    assert_eq!(t.top_up(id, s, 0), Err(StreamError::ZeroAmount));
    // Less than one second of flow: nothing moves, the end stays.
    t.top_up(id, s, 99).unwrap();
    assert_eq!(t.get_stream(id).end_time, 1002);
    assert_eq!(t.balance(k, s), 899_800);
}

#[test]
fn top_up_past_the_last_timestamp_is_refused() {
    let mut t = setup();
    let (s, r, k) = (t.sender, t.recipient, t.token_id);
    t.mint(k, s, i128::MAX / 2);
    t.set_timestamp(u64::MAX - 1000);
    let id = t.create_stream(s, r, k, 1000, 1000, 1, false).unwrap();
    assert_eq!(t.top_up(id, s, 1), Err(StreamError::InvalidDuration));
    assert_eq!(t.get_stream(id).deposit, 1000);
}

#[test]
fn withdraw_after_end_completes_and_announces() {
    let mut t = setup();
    let (s, r, k) = (t.sender, t.recipient, t.token_id);
    let id = t.create_stream(s, r, k, 100_000, 1000, 1, false).unwrap();
    t.events.clear();
    t.set_timestamp(1500);
    t.withdraw(id, r).unwrap();
    assert_eq!(t.balance(k, r), 100_000);
    assert_eq!(
        t.events,
        vec![
            StreamEvent::Withdrawn { stream_id: id, recipient: r, amount: 100_000, timestamp: 1500 },
            StreamEvent::Completed { stream_id: id },
        ]
    );
    assert_eq!(t.get_stream(id).last_withdraw_time, 1000);
}

#[test]
fn auto_renew_fails_without_balance() {
    let mut t = setup();
    let (s, r, k) = (t.sender, t.recipient, t.token_id);
    let id = t.create_stream(s, r, k, 1_000_000, 1000, 1, true).unwrap();
    assert_eq!(t.balance(k, s), 0);
    t.events.clear();
    t.set_timestamp(1000);
    t.withdraw(id, r).unwrap();
    assert_eq!(t.get_stream(id).status, StreamStatus::Completed);
    assert_eq!(
        t.events,
        vec![
            StreamEvent::Withdrawn { stream_id: id, recipient: r, amount: 1_000_000, timestamp: 1000 },
            StreamEvent::AutoRenewFailed { stream_id: id, sender: s, required_amount: 1_000_000 },
            StreamEvent::Completed { stream_id: id },
        ]
    );
}

#[test]
fn auto_renew_takes_a_new_deposit() {
    let mut t = setup();
    let (s, r, k) = (t.sender, t.recipient, t.token_id);
    let id = t.create_stream(s, r, k, 100_000, 1000, 1, true).unwrap();
    t.set_timestamp(1200);
    t.withdraw(id, r).unwrap();
    assert_eq!(t.balance(k, r), 100_000);
    assert_eq!(t.balance(k, s), 800_000);
    assert_eq!(t.balance(k, CONTRACT), 100_000);
    let stream = t.get_stream(id);
    assert_eq!((stream.start_time, stream.end_time, stream.last_withdraw_time), (1200, 2200, 1200));
    assert_eq!(t.get_claimable(id), 0);
    t.set_timestamp(1700);
    assert_eq!(t.get_claimable(id), 50_000);
}

#[test]
fn withdraws_add_up_and_leave_nothing_claimable() {
    let mut t = setup();
    let (s, r, k) = (t.sender, t.recipient, t.token_id);
    let id = t.create_stream(s, r, k, 100_000, 1000, 1, false).unwrap();
    for now in [100, 100, 350, 999] {
        t.set_timestamp(now);
        t.withdraw(id, r).unwrap();
        assert_eq!(t.get_claimable(id), 0);
    }
    assert_eq!(t.balance(k, r), 99_900);
    t.set_timestamp(1000);
    assert_eq!(t.get_claimable(id), 100);
}

#[test]
fn cancel_splits_remaining_deposit() {
    let mut t = setup();
    let (s, r, k) = (t.sender, t.recipient, t.token_id);
    let id = t.create_stream(s, r, k, 100_999, 1000, 1, false).unwrap();
    t.set_timestamp(200);
    t.withdraw(id, r).unwrap();
    t.events.clear();
    t.set_timestamp(700);
    t.cancel_stream(id, s).unwrap();
    // paid 20_000 earlier, 50_000 now, refund 30_999: all of the deposit.
    assert_eq!(t.balance(k, r), 70_000);
    assert_eq!(t.balance(k, s), 1_000_000 - 100_999 + 30_999);
    assert_eq!(t.balance(k, CONTRACT), 0);
    assert_eq!(
        t.events,
        vec![StreamEvent::Cancelled {
            stream_id: id,
            sender: s,
            refund_amount: 30_999,
            recipient_amount: 50_000,
        }]
    );
}

#[test]
fn streams_by_sender_and_recipient_in_id_order() {
    let mut t = setup();
    let (s, r, k) = (t.sender, t.recipient, t.token_id);
    let other = t.generate_address();
    t.mint(k, other, 1_000_000);
    let a = t.create_stream(s, r, k, 1000, 10, 1, false).unwrap();
    let b = t.create_stream(other, s, k, 1000, 10, 1, false).unwrap();
    let c = t.create_stream(s, other, k, 1000, 10, 2, false).unwrap();
    let ids = |v: Vec<Stream>| v.iter().map(|x| x.id).collect::<Vec<u64>>();
    assert_eq!(ids(t.book.get_streams_by_sender(s)), vec![a, c]);
    assert_eq!(ids(t.book.get_streams_by_sender(other)), vec![b]);
    assert_eq!(ids(t.book.get_streams_by_recipient(s)), vec![b]);
    assert_eq!(ids(t.book.get_streams_by_recipient(other)), vec![c]);
    assert_eq!(ids(t.book.get_streams_by_recipient(r)), vec![a]);
    assert!(t.book.get_streams_by_sender(r).is_empty());
}

#[test]
fn book_round_trips_through_its_parts() {
    let mut t = setup();
    let (s, r, k) = (t.sender, t.recipient, t.token_id);
    t.create_stream(s, r, k, 1000, 10, 1, false).unwrap();
    t.create_stream(s, r, k, 5000, 10, 2, true).unwrap();
    let streams = t.book.streams().clone();
    let nonces = t.book.nonces().clone();
    let again = StreamBook::from_parts(t.book.contract(), streams.clone(), nonces.clone()).unwrap();
    assert_eq!(again.streams(), &streams);
    assert_eq!(again.nonces(), &nonces);

    let mut dup = nonces.clone();
    dup[1] = dup[0];
    assert!(StreamBook::from_parts(CONTRACT, streams.clone(), dup).is_none());
    let mut bad = streams.clone();
    bad[0].flow_rate = 1000;
    assert!(StreamBook::from_parts(CONTRACT, bad, nonces.clone()).is_none());
    let mut renumbered = streams.clone();
    renumbered[1].id = 7;
    assert!(StreamBook::from_parts(CONTRACT, renumbered, nonces.clone()).is_none());
    assert!(StreamBook::from_parts(CONTRACT, streams, vec![]).is_none());
}

#[test]
fn error_codes() {
    assert_eq!(StreamError::StreamNotFound.code(), 1);
    assert_eq!(StreamError::NotRecipient.code(), 2);
    assert_eq!(StreamError::NotSender.code(), 3);
    assert_eq!(StreamError::StreamNotActive.code(), 4);
    assert_eq!(StreamError::ZeroAmount.code(), 5);
    assert_eq!(StreamError::InvalidDuration.code(), 6);
    assert_eq!(StreamError::DuplicateStream.code(), 11);
    assert_eq!(StreamError::ZeroFlowRate.code(), 15);
}

#[test]
fn test_top_up_after_partial_elapsed() {
    let mut t = setup();
    let (s, r, k) = (t.sender, t.recipient, t.token_id);
    t.set_timestamp(0);
    let id = t.create_stream(s, r, k, 100_000, 1000, 1, false).unwrap();
    t.set_timestamp(500);
    t.top_up(id, s, 50_000).unwrap();
    let stream = t.get_stream(id);
    assert_eq!(stream.end_time, 1500);
    assert_eq!(stream.deposit, 150_000);
    assert_eq!(t.get_claimable(id), 50_000);
    t.set_timestamp(1500);
    t.withdraw(id, r).unwrap();
    assert_eq!(t.balance(k, r), 150_000);
    assert_eq!(t.get_stream(id).status, StreamStatus::Completed);
}

#[test]
fn stream_ids_count_up_and_are_never_reused() {
    let mut t = setup();
    let (s, r, k) = (t.sender, t.recipient, t.token_id);
    let a = t.create_stream(s, r, k, 1000, 10, 1, false).unwrap();
    let b = t.create_stream(s, r, k, 1000, 10, 2, false).unwrap();
    t.cancel_stream(a, s).unwrap();
    t.set_timestamp(20);
    t.withdraw(b, r).unwrap();
    let c = t.create_stream(s, r, k, 1000, 10, 3, false).unwrap();
    assert_eq!((a, b, c), (0, 1, 2));
    assert_eq!(t.book.stream_count(), 3);
    for id in [a, b, c] {
        assert_eq!(t.get_stream(id).id, id);
    }
}
