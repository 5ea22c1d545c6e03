# tenda_escrow

The rules of the Tenda single-escrow payment program for Solana, written in
Verus and verified.

- `src/` — the verified library. Every instruction is a function from the
  account values it reads to either a `TendaError` or the new account state
  plus the funds that must move (`Payout`). Each function's contract is an
  exact specification (`spec_*`), and the laws of the escrow lifecycle
  (invariant preservation, lifecycle graph, finality of settled escrows,
  conservation of vault funds, authorization, rightful recipients, dispute
  economics, deadline windows) and of the platform configuration are proved
  in `src/lifecycle.rs` and `src/configuration.rs`.
- `src/instructions/user/` — the user ledger: opening it, the gas-subsidy
  airdrop (single and batched, the batch atomic as a whole, one airdrop per
  ledger) and withdrawals, which keep the airdrop locked until a gig is
  completed.
- `app/` — the Anchor program around it: account sets, clock and rent reads,
  lamport and token transfers, events.
- `tests/` — tests of the library on concrete values.
