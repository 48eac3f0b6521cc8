# tokenlottery

A ticket lottery on Solana, with its rules verified by Verus.

- `src/` is the verified library:
  - `lottery.rs`: the lottery account (`TokenLottery`), its errors, and each
    instruction (`initialize_config`, `initialize_lottery`, `buy_ticket`,
    `commit_randomness`, `choose_winner`, `claim_prize`) as a transition of the
    account, with a spec function per transition;
  - `naming.rs`: ticket names (`NAME` followed by the ticket number in decimal)
    and the NUL-insensitive comparison of stored metadata names;
  - `randomness.rs`: reading a Switchboard on-demand randomness account
    through `switchboard_on_demand::RandomnessAccountData::parse`;
  - `laws.rs`: the account invariant and what holds across instructions.
- `app/` is the Anchor program: account validation, the token-metadata and
  system-program invocations, and the lamport moves, around the library's
  decisions.
- `tests/` runs the library on concrete lotteries.
