# astrix

Verified core of the astrix node's coinbase handling and RPC message plumbing.

- `subsidy_table`, `coinbase`: the deflationary subsidy schedule, its per-block-rate
  derivation, block subsidy lookup, the coinbase payload format (write, rewrite, read) and the
  coinbase transaction of a block.
- `payload`, `tx`, `reward`: the data that a coinbase payload and transaction hold, block
  hashes, and the reward map of a mergeset.
- `coinbase_laws`: round trips of the payload format and properties of the schedule.
- `protowire`, `notify`, `ext`: RPC requests and responses, notification scopes, and which
  messages are subscriptions or notifications.
- `payload_type`: kinds of peer-to-peer messages.
- `interface`: the RPC server's method table.

`app/` holds the command-line amount parsers, which work in floating point.
