//! A verified boundary for contexts of a memory-hard, table-backed hash.
//!
//! A context is created once from a seed, lends its table to any number of
//! digest computations, and is released once. The protocol's parameters are
//! constants of this crate.

pub mod context;
pub mod params;

pub use context::{ash_ctx, ash_free, ash_hash, ash_new};
pub use params::{
    HashPlan, RomPlan, DIGEST_SIZE, MIXING_NUMBERS, NB_INSTRS, NB_LOOPS, PRE_SIZE, ROM_SIZE,
};
