# orchard_keys

The keys of the Orchard shielded protocol as a verified library: spending keys and
what derives from them, viewing keys, diversifiers, transmission keys and ephemeral
public keys, with their Bech32 texts and byte encodings. Every function states in
its contract what it returns, and Verus proves it, except for the few functions
that call an outside crate.

## Layout

- `src/keys/` has one module for each kind of key. `src/keys/laws.rs` states what
  holds of the keys as a whole: that a key is its encoding, that reading undoes
  writing, and what derivation depends on.
- `src/pallas.rs` and `src/redpallas.rs` hold field elements, points and
  verification keys as their canonical encodings.
- `src/prf.rs` holds the pseudorandom functions.
- `src/base32.rs` and `src/text.rs` hold the text encoding.
- `src/bytes.rs`, `src/network.rs`, `src/serialization.rs` and `src/debug.rs` hold
  what the rest shares.
- `app/` adds what cannot be verified: random generation, `std::fmt` and
  `std::str` traits, readers and writers, and serde.

## What is taken on trust

Curve and field arithmetic, BLAKE2b, Bech32 and hexadecimal are those of the crates
`halo2_proofs` (for `pasta_curves`), `blake2b_simd`, `bech32` and `hex`. Each call
stands in a small function whose doc comment says what is claimed of it.

A text can be well formed and still not hold a key: too few bytes, an integer that
is not reduced, a point that is not on the curve. `from_str` asks its caller for a
text that can be read; `try_from_str` takes any text and gives `None` for such a
one.
