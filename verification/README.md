# licensegen

A deterministic license generator: it reads products, editions and
application requests, keeps them in a MariaDB database, builds a canonical
JSON payload for an application, signs it with RSA (PKCS#1 v1.5 over
SHA-256, Base64), and validates signed licenses.

The library under `src/` is verified with Verus:

- `license/` — canonical payload JSON, signing, validation of envelopes,
  the rules that decide whether a license is reused, issued or valid, and the
  properties these rules keep (`license/laws.rs`).
- `vault/` — reading Ansible vault texts (AES-256-CTR and AES-256-CBC
  layouts) and PKCS#7 padding.
- `config/`, `util/` — configuration paths, dates and validity arithmetic.
- `db/`, `product/`, `signing/` — database rows, products and editions,
  keypairs and message signatures.

Calls into outside crates (serde_json, rsa, sha2, base64, chrono, pbkdf2,
aes/ctr/cbc, hex, shellexpand, dirs) stand behind small trusted wrappers
whose contracts name what the crates compute.

`app/` is the program around the library: reading files and YAML, the
database connection and queries, and the command flow.
