# treasury

A treasury contract for the Soroban platform, written and verified in Verus. It
records protocol fees in whitelisted tokens and pays them out under an
administrator, a withdrawal cap per 24-hour epoch, a reentrancy lock and
timelocks on changes of the cap and of the code.

- `src/host.rs`: the trusted boundary, one wrapper per `soroban_sdk` call.
- `src/data_key.rs`, `src/state.rs`: storage keys, and the state that the
  contracts speak of.
- `src/model.rs`: what each call does to the state and what it answers.
- `src/treasury.rs`: the calls, each proved to do what the model says, with
  `src/events.rs`, `src/reentrancy.rs`, `src/validation.rs` and `src/error.rs`.
- `src/laws.rs`: what holds over every call and every sequence of calls.
- `tests/`: the calls on a test host.
- `app/`: the deployable contract around the library.
