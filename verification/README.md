# valqeron

A verified library for the reference data of securities markets, with the
command line built on it.

- `src/identifiers`: ISIN, LEI, CNPJ, CFI, MIC, ISO 3166-1 country codes and
  ISO 4217 currency codes: normalization, validation (check digits, the CFI
  taxonomy, the country and market registries, the currency code's format)
  and their texts, with round-trip laws.
- `src/domain`: issuers, venues, securities and listings: names, statuses,
  builders with their cross-field rules, patches, and the registration
  rules against a repository.
- `src/tasks.rs`: background tasks, their typed lifecycle and retry budget.
- `src/common.rs`, `src/storage.rs`, `src/text.rs`: shared values (ids,
  versions, calendar dates) and text helpers.
- `src/engine_client.rs`: what a client of the engine decides: options,
  errors, the handshake, the socket location, and reading the engine's
  messages.
- `src/cli`: the command line's flags, configuration, payloads, commands
  and problem documents.
- `app/`: the program: argument parsing, logging, file and socket I/O, and
  the gRPC transport.

Every executable function under `src/` carries a contract that Verus
proves. Calls into `uuid`, `chrono`, `prost-types` and `serde_json` stand
behind small trusted wrappers whose contracts say what those crates
document. The repository traits are for a persistence backend to
implement: their contracts name the store's answer to each call, and the
services are proved against those names. That a write leaves the store
changed is the backend's part and is not modelled.

The market registry in `src/identifiers/mic.rs` holds a selection of ISO
10383 codes, not the whole list.
