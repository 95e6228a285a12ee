# sign_ur_code

A code-signing library and command-line tool: Ed25519 keys whose private half
is stored sealed under a passphrase (Argon2id, 64 MiB, 3 passes, 4 lanes;
XChaCha20-Poly1305), detached signatures stored as hex.

- `src/` is the library, verified with Verus:
  - `backends.rs`: the calls into `ed25519-dalek`, `argon2`, `chacha20poly1305`,
    `base64`, `hex`, `zeroize` and `rand`, with the contracts they are trusted to meet;
  - `keys.rs`: signing keys, verifying keys (always points of the curve), signatures;
  - `keystore.rs`: the stored form of an encrypted key;
  - `crypto.rs`: key generation, sealing and unsealing of private keys, signing, verifying;
  - `text.rs`: hex and whitespace, with the proof that hex reads back;
  - `commands.rs`: the passphrase policy, signature paths, reading stored keys and signatures;
  - `panels.rs`: the decisions and status lines of the graphical tool.
- `app/` is the command-line tool (prompts, files, JSON).
- `tests/` runs the library.
