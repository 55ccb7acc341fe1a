# kitchen

Verified models, in Verus, of two small blockchain components:

- `shared_balance`: a token ledger. The first signed `init` credits its signer with the whole
  supply; `transfer` moves tokens between signed accounts. Its contracts are stated over
  `LedgerState`, and its laws (one-shot initialization, conservation of the supply by
  transfers between distinct accounts, absence of overflow while the supply is consistent,
  and the one exception, a transfer to oneself) are proof functions in the same file.
- `frameless_runtime`: a runtime whose only state is one boolean, changed by the
  transactions `SetTrue`, `Clear` and `Toggle`, with the runtime API answers it gives.
- `origin`: who a call comes from, and `ensure_signed`.
- `balances_s`: the `Traitz` interface of a balance module.
- `ledger_sum`: the sum of all balances and the lemmas about it.

`app/` holds the SCALE encoding of transactions and events (parity-scale-codec) and a
dispatch of `transfer` that checks at run time what the contract asks of its caller.
