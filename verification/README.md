# ipfs_pallets

Two runtime modules backed by a node's IPFS service:

- the storage miner (`src/storage_miner.rs`, its off-chain worker in
  `src/storage_worker.rs`): accounts pay a flat fee to have data stored and
  pinned, may unpin it for a flat refund, ask for its availability to be
  checked, and are refunded when stored data is reported unavailable;
- Mugwort (`src/mugwort_ipfs.rs`, its off-chain worker in
  `src/art_worker.rs`): accounts conjure artwork whose data the worker stores
  on IPFS, submitting the content identifier to be recorded as metadata of
  artwork still in the spell-cast state.

`src/` is verified with Verus. Each dispatchable call takes the caller's
account and, where money moves, a transfer closure; each off-chain worker is
a state machine that hands out one action at a time (an IPFS request, a
signed transaction, a refund) and is resumed with its outcome. The laws of
the modules are proof functions next to the code they speak of; the laws
over whole worker runs are in `src/storage_run.rs` and `src/art_run.rs`.

`app/` holds what runs around the library: SCALE-encodable forms of the
stored types, the dispatch of calls from signed origins with event
deposit, and the loops that drive the off-chain workers against a host
that performs the IPFS requests, signed transactions and transfers.
