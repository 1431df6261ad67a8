# sorostream

Payment streams, verified with Verus: a sender locks a deposit of a token and
the recipient withdraws it second by second at a fixed flow rate until the
stream ends. A stream can be cancelled (the recipient keeps what it earned, the
sender gets the rest back), topped up (the end moves out), and can renew itself
when it ends.

- `src/vesting_math.rs` — claimable, earned, streamed and refunded amounts, and
  their laws (never more than the deposit, monotonic in time, nothing before
  the cliff, streamed plus refund is the deposit).
- `src/differential.rs` — the same amounts computed from deposit and duration;
  each contract states that they agree with `vesting_math`.
- `src/types.rs`, `src/events.rs` — streams, errors and the published events.
- `src/book.rs` — the streams of one contract and its instructions
  (`create_stream`, `withdraw`, `cancel_stream`, `top_up`, queries). Each one
  takes the time, the caller and balances as arguments and returns the token
  transfers and events to carry out.
- `src/laws.rs` — properties across instructions: nonces, stream ids, final
  states, the split on cancellation, nothing claimable after a withdrawal.
- `app/lib.rs` — the Soroban contract around the book: storage, authorisation,
  token transfers and event publishing.
