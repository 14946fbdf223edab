//! A tweakable hash over the Baby Bear field, built on the Poseidon2
//! permutation: tweak encoding, the permutation's modes of operation
//! (padded permutation, compression, sponge, domain separation) and the
//! combinator that picks a mode by the number of message blocks.
//!
//! A field element is a `field::BabyBear`, which holds its canonical
//! representative; contracts speak of elements by these representatives.
//!
//! Everything here is proved against its contract, but for three things that
//! are called and not proved: the permutation itself (`p3_poseidon2`), the
//! tables of round constants (`zkhash`) and arithmetic on numbers of any size
//! (`num_bigint`). What is assumed of them is written down in
//! `poseidon2_config` and in `bigint`.

pub mod bigint;
pub mod field;
pub mod poseidon2;
pub mod poseidon2_config;
pub mod tweak;
pub mod tweak_hash;
