# gun_wallet

The commands of a command line Bitcoin wallet, verified with Verus: the balance, the addresses,
the transactions, the unspent outputs, and the payments that spend them.

The library works on plain values. What a command needs from the wallet's database is read
beforehand; what has to be done in the world is named in a value that the caller carries out.

- `src/types.rs`, `src/text.rs`, `src/output.rs`: the data, texts, and answers.
- `src/encoding.rs`: scripts, addresses and ids, and their texts. The only module that calls an
  outside crate (`bdk::bitcoin`); its contracts on those calls are trusted.
- `src/values.rs`, `src/index.rs`: the value of outputs, and finding them by script.
- `src/balance.rs`, `src/addresses.rs`, `src/transactions.rs`, `src/utxos.rs`: the commands that
  show something.
- `src/plan.rs`, `src/payments.rs`, `src/spend.rs`: payments, from a plan to a transaction that is
  broadcast, one step after the other. `src/spend_laws.rs` states what holds of every course that
  this can take.
- `app/`: the commands on a `bdk` wallet.
