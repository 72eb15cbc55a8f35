# bosminer

The decision logic of the bOSminer Stratum V2 mining client, with its contracts and proofs.

- `src/messages.rs`: the Stratum V2 mining messages.
- `src/job.rs`: `StratumJob`, a mining job paired with the previous-hash announcement of its block.
- `src/handler.rs`: `StratumEventHandler`, which stores jobs, pairs them with announcements and turns each
  message of the pool into an action for the miner; its behaviour is stated as a transition model
  (`next_view`, `next_action`) with the laws that the model keeps.
- `src/solution.rs`: numbering of submitted shares.
- `src/connection.rs`: the setup and channel requests.
- `src/stringify.rs`: which messages get a trace rendering (the text itself is made in `app/`).
- `src/hashes.rs`: the `bitcoin_hashes` items the library calls, with their contracts.
- `app/`: the frontend's display name and the loops that drive a framed connection.
