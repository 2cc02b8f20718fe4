//! The fixed protocol parameters and the two plans built from them.

use vstd::prelude::*;

verus! {

/// Size of the read-only table in bytes (1 GiB).
pub const ROM_SIZE: usize = 1_073_741_824;

/// Size of the seed-derived buffer the table is grown from, in bytes (16 MiB).
pub const PRE_SIZE: usize = 16_777_216;

/// Number of full diffusion passes over the table.
pub const MIXING_NUMBERS: usize = 4;

/// Number of mixing loops per digest.
pub const NB_LOOPS: u32 = 8;

/// Number of instructions executed in each mixing loop.
pub const NB_INSTRS: u32 = 256;

/// Size of a digest in bytes.
pub const DIGEST_SIZE: usize = 64;

/// How a table is generated: its size, the size of the buffer it is expanded
/// from, and the number of diffusion passes.
#[derive(Clone, Copy, Debug, PartialEq, Eq, Structural)]
pub struct RomPlan {
    pub rom_size: usize,
    pub pre_size: usize,
    pub mixing_numbers: usize,
}

/// How a digest is computed: the number of loops and of instructions per loop.
#[derive(Clone, Copy, Debug, PartialEq, Eq, Structural)]
pub struct HashPlan {
    pub nb_loops: u32,
    pub nb_instrs: u32,
}

impl RomPlan {
    /// The one generation plan the protocol allows.
    pub open spec fn protocol_spec() -> RomPlan {
        RomPlan { rom_size: 1_073_741_824, pre_size: 16_777_216, mixing_numbers: 4 }
    }

    /// Returns the protocol's generation plan.
    pub fn protocol() -> (plan: RomPlan)
        ensures
            plan == Self::protocol_spec(),
    {
        RomPlan { rom_size: ROM_SIZE, pre_size: PRE_SIZE, mixing_numbers: MIXING_NUMBERS }
    }
}

impl HashPlan {
    /// The one hashing plan the protocol allows.
    pub open spec fn protocol_spec() -> HashPlan {
        HashPlan { nb_loops: 8, nb_instrs: 256 }
    }

    /// Returns the protocol's hashing plan.
    pub fn protocol() -> (plan: HashPlan)
        ensures
            plan == Self::protocol_spec(),
    {
        HashPlan { nb_loops: NB_LOOPS, nb_instrs: NB_INSTRS }
    }
}

} // verus!
