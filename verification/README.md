# baia_core

The core of the Baia WAF administration service, written in Verus.

- `src/` is the verified library: the reverse-proxy configuration generator,
  the Cloudflare DNS plan, the platform configuration rules, the component
  catalog, the admin bootstrap and the decisions of the administrative API
  (login throttling, sessions, CSRF checks, password policy, cookies).
  Every function there carries a contract.  Verus proves the contracts of
  all of them except the eight `#[verifier::external_body]` wrappers around
  `rand`, `argon2` and a few std string and character functions
  (`src/auth.rs`, `src/text.rs`): their contracts are trusted, taken from
  the documentation and source of the called code.
- `tests/` runs the library on concrete values.
- `app/` is the executable around it: the HTTP server, the clock, the
  configuration file on disk and the JSON and YAML encodings.

Run `verus` on `src/lib.rs` to check the proofs.
