# cups_rs

Printing through CUPS (the Common UNIX Printing System) from Rust, with the
library's decisions proved correct by Verus.

- `src/` is the verified library: destinations and their options, printer and
  job states, print options, option lists, error classification, encryption
  modes, and the small decisions taken around each CUPS call (which
  destination is the default, which enumerated destinations to keep, how a
  document is cut into writes, what a missing setting defaults to).
- `app/` calls libcups: it declares the C interface, converts C structures to
  the library's types and back, keeps the per-thread authentication
  callbacks, and gives the error type its messages.
- `tests/` exercises the library on concrete values.

Run `verus` on `src/lib.rs` to check the proofs.
