//! The context that owns a generated table, and the three operations on it:
//! create, hash against, release.
//!
//! The table generator and the digest function are handed in by the caller.
//! What is fixed here is everything around them: when they are called, with
//! which arguments, and where their results go.

use std::sync::Arc;
use vstd::prelude::*;
use crate::params::{HashPlan, RomPlan};

verus! {

/// Owns a generated table of type `R` and lends it, read-only, to digest
/// computations. It is never changed after construction.
#[allow(non_camel_case_types)]
pub struct ash_ctx<R> {
    rom: Arc<R>,
}

impl<R> ash_ctx<R> {
    /// The table this context owns.
    pub closed spec fn rom(&self) -> R {
        *self.rom
    }
}

/// True when the table that `generate` returns depends on nothing but the
/// bytes of the seed and the plan.
pub open spec fn generation_is_function<R, G: FnOnce(&[u8], RomPlan) -> R>(generate: G) -> bool {
    forall|seed_a: &[u8], seed_b: &[u8], plan: RomPlan, rom_a: R, rom_b: R|
        seed_a@ == seed_b@ && #[trigger] generate.ensures((seed_a, plan), rom_a)
            && #[trigger] generate.ensures((seed_b, plan), rom_b) ==> rom_a == rom_b
}

/// True when the digest that `hash` returns depends on nothing but the bytes of
/// the preimage, the table and the plan.
pub open spec fn hashing_is_function<R, H: FnOnce(&[u8], &R, HashPlan) -> [u8; 64]>(
    hash: H,
) -> bool {
    forall|pre_a: &[u8], pre_b: &[u8], rom: &R, plan: HashPlan, out_a: [u8; 64], out_b: [u8; 64]|
        pre_a@ == pre_b@ && #[trigger] hash.ensures((pre_a, rom, plan), out_a)
            && #[trigger] hash.ensures((pre_b, rom, plan), out_b) ==> out_a == out_b
}

/// Creates a context for `seed`.
///
/// Without a seed there is no context and `generate` is not called. With one,
/// of any length, `generate` is called once on that seed and the protocol's
/// generation plan, and the context owns the table it returned.
pub fn ash_new<R, G>(seed: Option<&[u8]>, generate: G) -> (ctx: Option<Box<ash_ctx<R>>>) where
    G: FnOnce(&[u8], RomPlan) -> R,

    requires
        seed matches Some(s) ==> generate.requires((s, RomPlan::protocol_spec())),
    ensures
        match seed {
            None => ctx is None,
            Some(s) => ctx matches Some(c) && generate.ensures(
                (s, RomPlan::protocol_spec()),
                c.rom(),
            ),
        },
{
    match seed {
        None => None,
        Some(seed_bytes) => {
            let rom = generate(seed_bytes, RomPlan::protocol());
            let ctx = ash_ctx { rom: Arc::new(rom) };
            Some(Box::new(ctx))
        },
    }
}

/// Computes the digest of `input` against the table of `ctx` and stores it in
/// `out64`.
///
/// If the context, the preimage or the output buffer is missing, nothing
/// happens: `hash` is not called and a buffer that is there keeps its bytes.
/// Otherwise `hash` is called once on the preimage (which may be empty), the
/// context's table and the protocol's hashing plan, and all 64 bytes of the
/// buffer are replaced by what it returned.
pub fn ash_hash<R, H>(
    ctx: Option<&ash_ctx<R>>,
    input: Option<&[u8]>,
    out64: Option<&mut [u8; 64]>,
    hash: H,
) where H: FnOnce(&[u8], &R, HashPlan) -> [u8; 64]
    requires
        match (ctx, input, out64) {
            (Some(c), Some(p), Some(_)) => hash.requires((p, &c.rom(), HashPlan::protocol_spec())),
            _ => true,
        },
    ensures
        match (ctx, input, out64) {
            (Some(c), Some(p), Some(o)) => {
                &&& hash.ensures((p, &c.rom(), HashPlan::protocol_spec()), *final(o))
                &&& final(o)@.len() == 64
            },
            (_, _, Some(o)) => *final(o) == *o,
            _ => true,
        },
{
    match (ctx, input, out64) {
        (Some(c), Some(preimage), Some(output)) => {
            let digest = hash(preimage, &*c.rom, HashPlan::protocol());
            *output = digest;
        },
        _ => {},
    }
}

/// Releases a context. Taking it by value is what ends its use: the handle
/// cannot be hashed against or released again afterwards. Releasing no
/// context does nothing.
pub fn ash_free<R>(ctx: Option<Box<ash_ctx<R>>>) {
    let _released = ctx;
}

/// Digests are reproducible. Let the generator and the digest function each be
/// a function of their arguments. Then two contexts created independently from
/// seeds with the same bytes give the same digest for preimages with the same
/// bytes; in particular hashing twice against one context does.
pub proof fn lemma_digest_reproducible<R, G, H>(
    generate: G,
    hash: H,
    seed_a: &[u8],
    seed_b: &[u8],
    ctx_a: ash_ctx<R>,
    ctx_b: ash_ctx<R>,
    pre_a: &[u8],
    pre_b: &[u8],
    out_a: [u8; 64],
    out_b: [u8; 64],
) where G: FnOnce(&[u8], RomPlan) -> R, H: FnOnce(&[u8], &R, HashPlan) -> [u8; 64]
    requires
        generation_is_function(generate),
        hashing_is_function(hash),
        seed_a@ == seed_b@,
        pre_a@ == pre_b@,
        generate.ensures((seed_a, RomPlan::protocol_spec()), ctx_a.rom()),
        generate.ensures((seed_b, RomPlan::protocol_spec()), ctx_b.rom()),
        hash.ensures((pre_a, &ctx_a.rom(), HashPlan::protocol_spec()), out_a),
        hash.ensures((pre_b, &ctx_b.rom(), HashPlan::protocol_spec()), out_b),
    ensures
        out_a == out_b,
{
    assert(ctx_a.rom() == ctx_b.rom());
}

} // verus!
