# vl-api

The decision logic of the VieLang IoT platform's HTTP API, written in Verus and
proved against its contracts.

- `src/` is the verified library: paging, access rules, the login, signup,
  checkout, webhook and bulk-import flows as state machines (the caller performs
  each requested store or service call and hands back the answer), the
  token-refresh decision, billing periods and plan changes, CSV
  reading and writing, device claiming and QR payloads, dashboard customer lists,
  cluster partition layout, and the text and number formatting the answers use.
  Calls into `chrono`, `csv`, `rand`, `uuid`, `sha2`, `serde_json`, `qrcode` and
  `image` go through small trusted wrappers whose contracts say what those crates
  document.
- `tests/` runs the library on concrete values.
- `app/` holds the drivers of the login, signup, checkout, webhook and
  bulk-import flows, written against
  traits for the stores and services they call (the storage layer itself is not
  part of this crate), and what rests on floating point or on the host machine:
  expression testing with `evalexpr`, system figures from `sysinfo`, and reading
  key-value cells as JSON numbers.
