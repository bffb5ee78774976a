# holderscan_dca

Dollar-cost-average orders on Solana, as a verified library. Owners lock
wrapped SOL into a per-order escrow; a keeper debits one equal slice per
cycle on a fixed schedule and can undo a cycle whose swap failed; owners can
cancel at any time and take back the remaining escrow. An admin tunes fees and
schedule defaults within fixed caps and hands over the role in two steps.

Layout:

- `src/` — the library. `state/` holds the config and order accounts,
  `instructions/` each instruction's accounts, account checks and body,
  `holderscan_dca.rs` the instructions as clients invoke them, `laws.rs`
  the properties that span instructions, `pda.rs` the program-derived
  addresses, `token.rs` token accounts and the account operations an
  instruction asks for.
- `tests/` — instruction-level scenarios on an in-memory ledger, and unit tests.
- `app/` — the on-chain program: Anchor account declarations, clock reads,
  token CPIs and events around the library.
