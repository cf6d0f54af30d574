# wolf_power_up

A power-up contract for a wolf-pack NFT collection on Secret Network, with its
decisions verified by Verus.

- `src/` is the verified library: the contract's handlers as functions from what
  storage held and what the NFT contracts answered to what to store, what to send and
  what to refuse (`contract`), the trait and level arithmetic of a power-up
  (`metadata`), decimal text of `i32` (`decimal`), the viewing key derivation
  (`encoding`), the message and state types (`msg`, `state`), and properties that span
  the handlers (`laws`).
- `app/` holds the chain entry points: storage, permit validation, queries to the NFT
  contracts, and the encoding of outgoing SNIP-721 messages.
- `tests/` runs the library on concrete values.
