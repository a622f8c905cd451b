# gir code writers, verified

The shared code writers of the `gir` binding generator, written in Verus:
the header comments of generated files, `use` items with their cfg
conditions, version and deprecation attributes, derive and doc attributes,
the `wrapper!` declarations of object, interface, boxed and shared types,
`Default` impls from `new`, and escaping of string literals.

Each writer appends to a `String`; its contract states the exact text it
appends, as a sequence of characters built by spec functions.

- `src/general.rs` — the writers, the texts they produce, and the laws
  relating them (escaping, version gates, complementary guards).
- `src/enums.rs` — analysed enumerations and the marking of enumeration
  functions as methods.
- `src/version.rs` — versions, their order and their cargo features.
- `src/text.rs` — indentation, decimal numbers and joined lists.
- `src/analysis.rs`, `src/config.rs`, `src/env.rs`, `src/library.rs` — the
  data the writers read.
- `app/` — the same writers on `std::io::Write` sinks.
