# kilogram-cli

The command line member of a peer-to-peer messenger. A device proves to a listener that its
account authorizes it, then delivers a message, synchronizes a conversation, or recovers history
from another device of the same account.

- `src/` is the verified library: tickets, recovery links and plans, deliveries and
  acknowledgements, synchronization rounds, history rewrap and its reconciliation, the recovery
  scheduler and worker, the runtime with its outbox, the local state's transactions and vault
  mirror, discovery datagrams and QR codes. Verus proves the contracts of its functions, but for
  those of the few that only call other crates, which it takes on trust: `blake3_digest`,
  `encode_base64` and `decode_base64` in `codec.rs`; `draw_qr`, `encode_png`, `guess_format`,
  `decode_gray` and `read_qr` in `recovery_qr.rs`; `utf8_text` in `recovery_discovery.rs`; and what
  `text.rs` states of `String::push`. Cryptography, storage and the network come in as plain
  values: whether a signature holds, what a peer answered, what a file contained.
- `tests/` runs the library on concrete values, with the real QR, image, hash and base64 crates.
- `app/` is the program around it: arguments, files, sockets and the calls into the workspace's
  identity, protocol, ratchet, session, store, state and transport crates.
