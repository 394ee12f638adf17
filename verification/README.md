# routines

The verified core of Jamii Routines: passkey enrolment and login for a web
server, e-mail verification codes and session cookies, the secp256r1
precompile data of a Solana transaction, and the JSON-RPC request bodies of a
Solana client.

- `src/` is the library, verified with Verus. Each decision is a function from
  plain values (stored records, the browser's answer, the current time, random
  bytes) to plain values (the record to store, the answer to send), with a
  contract that states the answer for every input. Calls into `tai64`, `p256`,
  `passkey`, `serde_json`, `base64ct`, `bs58`, `faster-hex`, `jzon` and
  `random-detached` stand behind small trusted wrappers whose contracts say
  what those crates compute.
- `app/` is the program around it: the axum server with its SQLite store and
  mailer, the Solana client's HTTP calls and transaction, and the on-chain
  program's entry. It reads and writes, and leaves every decision to the
  library.
- `tests/` runs the library on concrete values, with the real outside crates.
