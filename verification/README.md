# furniture_shop

The business rules of an offline furniture-shop back office, written in Verus
and proved against their contracts: stock movements and FIFO costing,
purchases and supplier returns, sales, deliveries, sales returns and damage
records, customer receipts and statements, expenses and owner transfers,
catalogue and product records, backups, first-run setup, sessions, and the
offline licence.

Layout:

- `src/` — the verified library, one module per area. Each command of the
  shop is split into the decisions and computations it makes (here, with
  contracts over spec functions) and the database and file work around them.
  Public `law_*` proof functions state properties that span several
  operations (a void undoing a posting, a transfer conserving stock, a
  statement reconciling, the licence gate failing closed).
- Calls into outside crates (base64, chrono, chrono-tz, rsa, sha2, serde_json,
  std path handling) stand behind small `#[verifier::external_body]`
  wrappers whose contracts are documented where they are declared.
- `tests/` — scenarios run against the compiled library.
- `app/` — the unverified shell: licence files on disk, the setup wizard's
  folder creation, product image files.
