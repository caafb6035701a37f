//! Data model of the mining pipeline: work items, solutions, the pair handed
//! upstream, the running statistics, and the capability set a chip-family
//! driver must provide.

use vstd::prelude::*;

use crate::error::Error;

verus! {

/// A 256-bit SHA-256 midstate, one per parallel search lane of a work item,
/// stored as eight 32-bit words (most significant first).
#[derive(Clone, Copy, Debug)]
pub struct Midstate {
    pub words: [u32; 8],
}

/// Describes actual mining work for submission to the hashing hardware.
/// Starting with `merkel_root_lsw` the data goes to chunk 2 of SHA-256.
///
/// Version and extranonce 2 are already folded into the midstates, but the
/// upstream submission protocol needs them as explicit fields too.
#[derive(Debug)]
pub struct MiningWork {
    /// Version field used for calculating the midstate.
    pub version: u32,
    /// Extranonce 2 used for calculating the merkle root.
    pub extranonce_2: u32,
    /// Multiple midstates can be generated for each work; never empty, its
    /// length equals the midstate count the hash chain was configured with.
    pub midstates: Vec<Midstate>,
    /// Least-significant word of the merkle root that goes to chunk 2 of SHA-256.
    pub merkel_root_lsw: u32,
    /// Start value for nTime; hardware may roll nTime further.
    pub ntime: u32,
    /// Network difficulty encoded as nbits.
    pub nbits: u32,
}

/// Field-by-field agreement of two work items, with the midstate sequences
/// compared by their views.
pub open spec fn work_matches(a: MiningWork, b: MiningWork) -> bool {
    &&& a.version == b.version
    &&& a.extranonce_2 == b.extranonce_2
    &&& a.midstates@ == b.midstates@
    &&& a.merkel_root_lsw == b.merkel_root_lsw
    &&& a.ntime == b.ntime
    &&& a.nbits == b.nbits
}

impl Clone for MiningWork {
    /// A clone agrees with the original field by field.
    fn clone(&self) -> (r: Self)
        ensures
            work_matches(r, *self),
    {
        let mut midstates: Vec<Midstate> = Vec::new();
        let mut i: usize = 0;
        while i < self.midstates.len()
            invariant
                i <= self.midstates@.len(),
                midstates@ == self.midstates@.subrange(0, i as int),
            decreases self.midstates@.len() - i,
        {
            midstates.push(self.midstates[i]);
            i = i + 1;
        }
        proof {
            assert(midstates@ =~= self.midstates@);
        }
        MiningWork {
            version: self.version,
            extranonce_2: self.extranonce_2,
            midstates,
            merkel_root_lsw: self.merkel_root_lsw,
            ntime: self.ntime,
            nbits: self.nbits,
        }
    }
}

/// Represents a raw solution from the mining hardware.
#[derive(Clone, Copy, Debug)]
pub struct MiningWorkSolution {
    /// Actual nonce.
    pub nonce: u32,
    /// nTime of the solution in case the hardware also rolls the nTime field.
    pub ntime: Option<u32>,
    /// Index of the midstate that corresponds to the found nonce.
    pub midstate_idx: usize,
    /// Hardware-assigned identity used to correlate the solution back to the
    /// originating work through the driver's registry.
    pub solution_id: u32,
}

/// Container with mining work and a corresponding solution received at a
/// particular time. This is the unit posted upstream; it is created exactly
/// once per accepted, non-duplicate solution and never mutated afterwards.
#[derive(Clone, Debug)]
pub struct UniqueMiningWorkSolution {
    /// Capture time in nanoseconds, supplied by the embedder's clock when the
    /// solution was fetched from the hardware queue.
    pub timestamp: u64,
    /// Original mining work associated with this solution.
    pub work: MiningWork,
    /// Solution of the proof-of-work puzzle.
    pub solution: MiningWorkSolution,
}

/// Holds all hardware-related statistics for a hash chain. All counters start
/// at zero and only ever grow.
#[derive(Clone, Copy, Debug, PartialEq, Eq, Structural)]
pub struct MiningStats {
    /// Number of work items generated for the hardware.
    pub work_generated: usize,
    /// Number of stale solutions received from the hardware.
    pub stale_solutions: u64,
    /// Feeding the hardware too slowly lets several chips search the same
    /// work, which shows up as duplicate solutions.
    pub duplicate_solutions: u64,
    /// Nonces whose midstate index did not fit the originating work; after
    /// filtering hardware errors this should stay at zero.
    pub mismatched_solution_nonces: u64,
    /// Counter of unique solutions.
    pub unique_solutions: u64,
}

impl MiningStats {
    /// Every solution ever retrieved from the hardware queue lands in exactly
    /// one of these four counters.
    pub open spec fn solutions_total(&self) -> int {
        self.stale_solutions + self.duplicate_solutions + self.mismatched_solution_nonces
            + self.unique_solutions
    }

    pub open spec fn all_zero(&self) -> bool {
        &&& self.work_generated == 0
        &&& self.stale_solutions == 0
        &&& self.duplicate_solutions == 0
        &&& self.mismatched_solution_nonces == 0
        &&& self.unique_solutions == 0
    }

    /// Counter-wise order: `other` has seen at least everything `self` has.
    pub open spec fn leq(&self, other: &MiningStats) -> bool {
        &&& self.work_generated <= other.work_generated
        &&& self.stale_solutions <= other.stale_solutions
        &&& self.duplicate_solutions <= other.duplicate_solutions
        &&& self.mismatched_solution_nonces <= other.mismatched_solution_nonces
        &&& self.unique_solutions <= other.unique_solutions
    }

    pub fn new() -> (r: Self)
        ensures
            r.all_zero(),
    {
        Self {
            work_generated: 0,
            stale_solutions: 0,
            duplicate_solutions: 0,
            mismatched_solution_nonces: 0,
            unique_solutions: 0,
        }
    }
}

/// Law: statistics never decrease across any sequence of operations. Every
/// mutating operation of the controller ensures `leq` between the statistics
/// before and after it; chaining those facts over a whole run is this
/// transitivity step.
pub proof fn lemma_stats_monotone_transitive(a: MiningStats, b: MiningStats, c: MiningStats)
    requires
        a.leq(&b),
        b.leq(&c),
    ensures
        a.leq(&c),
{
}

/// Fault and status events the controller emits towards the monitoring
/// collaborator; they carry no mining data.
#[derive(Clone, Copy, Debug, PartialEq, Eq, Structural)]
pub enum MonitorEvent {
    /// The hardware link failed; the chain has entered its faulted state.
    TransportFault,
    /// A solution named a midstate lane its work never had; counted as
    /// mismatched and worth escalating if it recurs.
    CorrelationAnomaly,
    /// The chain is shutting down cooperatively.
    ShuttingDown,
}

/// Any hardware mining controller should implement at least these methods.
pub trait HardwareCtl {
    /// Sends work to the hash chain.
    ///
    /// Returns a unique identifier that can be used for registering the work
    /// within a hardware-specific registry, or a transport error if the
    /// hardware queue is full or the link is down.
    fn send_work(&mut self, work: &MiningWork) -> Result<u32, Error>;

    /// Receives at most one mining work solution; absence is not an error.
    fn recv_solution(&mut self) -> Result<Option<MiningWorkSolution>, Error>;

    /// Extracts the original work identifier for a mining solution.
    fn get_work_id_from_solution(&self, solution: &MiningWorkSolution) -> u32;

    /// Returns the number of detected chips.
    fn get_chip_count(&self) -> usize;
}

} // verus!
