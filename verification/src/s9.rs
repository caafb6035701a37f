//! S9 hashboard platform: communication timing math and the hash chain
//! controller. The timing functions are pure; a miscomputed divisor silently
//! corrupts communication with the chips, so their contracts pin the result
//! down exactly.

use vstd::prelude::*;

use vstd::arithmetic::div_mod::lemma_div_by_multiple;
use vstd::arithmetic::div_mod::lemma_div_denominator;
use vstd::arithmetic::div_mod::lemma_div_is_ordered;
use vstd::arithmetic::div_mod::lemma_div_nonincreasing;
use vstd::arithmetic::div_mod::lemma_div_pos_is_pos;
use vstd::arithmetic::div_mod::lemma_fundamental_div_mod;
use vstd::arithmetic::div_mod::lemma_mod_division_less_than_divisor;
use vstd::arithmetic::mul::lemma_mul_is_associative;

use crate::bm1387::valid_midstate_count;
use crate::bm1387::CHIP_OSC_CLK_BASE_BAUD_DIV;
use crate::error::Error;
use crate::gpio::ControlPinManager;
use crate::gpio::valid_hashboard_idx;
use crate::hal::HardwareCtl;
use crate::hal::MiningStats;
use crate::hal::MiningWork;
use crate::hal::MiningWorkSolution;
use crate::hal::MonitorEvent;
use crate::hal::UniqueMiningWorkSolution;
use crate::hal::work_matches;
use crate::power::SharedBackend;
use crate::power::VoltageCtrlBackend;
use crate::registry::RegisteredWork;
use crate::registry::SolutionClass;
use crate::registry::WorkRegistry;
use crate::registry::classify;

verus! {

/// Oscillator frequency feeding every chip on an S9 hashboard, in Hz.
pub const CHIP_OSC_CLK_HZ: usize = 25_000_000;

/// Baud rate the chips come up with after reset; communication timing is
/// programmed against it.
pub const INIT_CHIP_BAUD_RATE: usize = 115_200;

/// Default operating frequency of the chips' phase-locked loop, in Hz.
pub const DEFAULT_PLL_FREQUENCY: usize = 650_000_000;

/// Largest relative error, in percent, tolerated between the requested baud
/// rate and the one the chosen integer divisor actually achieves.
pub const MAX_BAUD_RATE_ERR_PERC: usize = 5;

/// Clock rate of the FPGA IP core that counts the work-rotation timer, in Hz.
pub const FPGA_IPCORE_F_CLK_SPEED_HZ: u64 = 50_000_000;

/// Nanoseconds per second; the work delay is carried in nanoseconds so the
/// timing math stays in integers.
pub const NANOS_PER_SEC: u64 = 1_000_000_000;

/// Nonce subspace one hashing core walks for one work item: the 32-bit nonce
/// space divided among 64 chip addresses and 128 core addresses.
pub const WORK_SPACE_PER_CORE: u64 = 524_288;

/// The per-core search time is scaled by this margin, in nanoseconds per
/// second of search time: work is rotated after nine tenths of the time the
/// space nominally takes, so the chips never sit idle on an exhausted item.
pub const WORK_DELAY_MARGIN_NANOS_PER_SEC: u64 = 900_000_000;

/// The divisor the chip's baud register gets, before the register bias of
/// one is subtracted: the rational divisor
/// `base_clock_hz / (base_clock_div * baud_rate)`, rounded to the nearest
/// integer (half rounds up).
pub open spec fn rounded_baud_divisor(
    base_clock_hz: int,
    base_clock_div: int,
    baud_rate: int,
) -> int
    recommends
        base_clock_div >= 1,
        baud_rate >= 1,
{
    (2 * base_clock_hz + base_clock_div * baud_rate) / (2 * base_clock_div * baud_rate)
}

/// The baud rate a divisor register value actually produces.
pub open spec fn achieved_baud_rate(base_clock_hz: int, base_clock_div: int, divisor: int) -> int
    recommends
        base_clock_div >= 1,
        divisor >= 0,
{
    base_clock_hz / (base_clock_div * (divisor + 1))
}

/// Absolute difference between a requested and an achieved baud rate.
pub open spec fn baud_rate_distance(requested: int, achieved: int) -> int {
    if achieved >= requested {
        achieved - requested
    } else {
        requested - achieved
    }
}

/// Whether a requested baud rate is achievable: the rounded divisor must be
/// at least one (so the register value, after the bias of one is subtracted,
/// stays non-negative) and the achieved rate must lie within the tolerated
/// relative error of the request.
pub open spec fn baud_rate_supported(
    base_clock_hz: int,
    base_clock_div: int,
    baud_rate: int,
) -> bool
    recommends
        base_clock_div >= 1,
        baud_rate >= 1,
{
    let rounded = rounded_baud_divisor(base_clock_hz, base_clock_div, baud_rate);
    &&& rounded >= 1
    &&& baud_rate_distance(baud_rate, achieved_baud_rate(base_clock_hz, base_clock_div, rounded - 1))
        * 100 / baud_rate <= MAX_BAUD_RATE_ERR_PERC
}

/// Helper method that calculates baud rate clock divisor value for the
/// specified baud rate.
///
/// The calculation follows the same scheme for the hashing chips as well as
/// for the FPGA IP core: `baud_rate = base_clock_hz / (base_clock_div *
/// (divisor + 1))`. The divisor is the rational solution rounded to the
/// nearest integer; the achieved rate is recomputed from the chosen integer
/// and is reported alongside, never treated as an error as long as it stays
/// within tolerance. A request the oscillator cannot serve within tolerance
/// fails with a baud rate error and is never silently clamped.
///
/// * `baud_rate` - requested baud rate
/// * `base_clock_hz` - base clock for the UART peripheral
/// * `base_clock_div` - divisor to the base clock
///
/// Returns the baud divisor register value and the actual baud rate.
pub fn calc_baud_clock_div(baud_rate: usize, base_clock_hz: usize, base_clock_div: usize) -> (r:
    Result<(usize, usize), Error>)
    requires
        baud_rate >= 1,
        base_clock_div >= 1,
        2 * base_clock_hz + 2 * base_clock_div * baud_rate <= usize::MAX,
        base_clock_hz * 100 <= usize::MAX,
        baud_rate * 100 <= usize::MAX,
    ensures
        match r {
            Ok(p) => {
                &&& baud_rate_supported(
                    base_clock_hz as int,
                    base_clock_div as int,
                    baud_rate as int,
                )
                &&& p.0 == rounded_baud_divisor(
                    base_clock_hz as int,
                    base_clock_div as int,
                    baud_rate as int,
                ) - 1
                &&& p.1 == achieved_baud_rate(
                    base_clock_hz as int,
                    base_clock_div as int,
                    p.0 as int,
                )
            },
            Err(e) => {
                &&& !baud_rate_supported(
                    base_clock_hz as int,
                    base_clock_div as int,
                    baud_rate as int,
                )
                &&& e == Error::BaudRate
            },
        },
{
    proof {
        assert(base_clock_div * baud_rate >= 1) by (nonlinear_arith)
            requires
                base_clock_div >= 1,
                baud_rate >= 1,
        ;
        lemma_mul_is_associative(2, base_clock_div as int, baud_rate as int);
    }
    let denom = base_clock_div * baud_rate;
    let rounded = (2 * base_clock_hz + denom) / (2 * denom);
    proof {
        lemma_div_pos_is_pos(2 * base_clock_hz + denom, 2 * denom);
        lemma_fundamental_div_mod(2 * base_clock_hz + denom, 2 * denom);
        lemma_mod_division_less_than_divisor(2 * base_clock_hz + denom, 2 * denom);
        assert(base_clock_div * rounded <= 2 * base_clock_hz + denom) by (nonlinear_arith)
            requires
                (2 * denom) * rounded <= 2 * base_clock_hz + denom,
                denom == base_clock_div * baud_rate,
                base_clock_div >= 1,
                baud_rate >= 1,
                rounded >= 0,
                base_clock_hz >= 0,
        ;
    }
    if rounded == 0 {
        return Err(Error::BaudRate);
    }
    let divisor = rounded - 1;
    proof {
        assert(base_clock_div * (divisor + 1) >= 1) by (nonlinear_arith)
            requires
                base_clock_div >= 1,
                divisor + 1 >= 1,
        ;
    }
    let actual_baud_rate = base_clock_hz / (base_clock_div * (divisor + 1));
    proof {
        lemma_div_nonincreasing(base_clock_hz as int, (base_clock_div * (divisor + 1)) as int);
    }
    let distance = if actual_baud_rate >= baud_rate {
        actual_baud_rate - baud_rate
    } else {
        baud_rate - actual_baud_rate
    };
    if distance * 100 / baud_rate > MAX_BAUD_RATE_ERR_PERC {
        return Err(Error::BaudRate);
    }
    Ok((divisor, actual_baud_rate))
}

/// Law: for one oscillator and one base divisor, requesting a higher baud
/// rate never yields a larger rounded divisor than requesting a lower one;
/// the divisor register value is antitone in the requested rate.
pub proof fn lemma_baud_divisor_monotonic(
    base_clock_hz: int,
    base_clock_div: int,
    baud_lo: int,
    baud_hi: int,
)
    requires
        base_clock_hz >= 0,
        base_clock_div >= 1,
        1 <= baud_lo <= baud_hi,
    ensures
        rounded_baud_divisor(base_clock_hz, base_clock_div, baud_hi) <= rounded_baud_divisor(
            base_clock_hz,
            base_clock_div,
            baud_lo,
        ),
{
    let h = base_clock_hz;
    let d = base_clock_div;
    let lo = d * baud_lo;
    let hi = d * baud_hi;
    assert(lo >= 1 && hi >= 1 && lo <= hi) by (nonlinear_arith)
        requires
            d >= 1,
            1 <= baud_lo <= baud_hi,
            lo == d * baud_lo,
            hi == d * baud_hi,
    ;
    lemma_mul_is_associative(2, d, baud_lo);
    lemma_mul_is_associative(2, d, baud_hi);
    let q_hi = (2 * h + hi) / (2 * hi);
    lemma_div_pos_is_pos(2 * h + hi, 2 * hi);
    lemma_fundamental_div_mod(2 * h + hi, 2 * hi);
    lemma_mod_division_less_than_divisor(2 * h + hi, 2 * hi);
    assert((2 * hi) * q_hi <= 2 * h + hi);
    assert(lo * baud_hi == hi * baud_lo) by (nonlinear_arith)
        requires
            lo == d * baud_lo,
            hi == d * baud_hi,
    ;
    assert(q_hi * (2 * lo) <= 2 * h + lo) by (nonlinear_arith)
        requires
            (2 * hi) * q_hi <= 2 * h + hi,
            h >= 0,
            q_hi >= 0,
            1 <= lo <= hi,
            lo * baud_hi == hi * baud_lo,
            baud_lo >= 1,
            baud_hi >= 1,
    ;
    lemma_div_by_multiple(q_hi, 2 * lo);
    lemma_div_is_ordered(q_hi * (2 * lo), 2 * h + lo, 2 * lo);
}

/// Law: the divisor the calculation picks is the closest integer
/// approximation of the exact rational divisor
/// `base_clock_hz / (base_clock_div * baud_rate)`: no other register choice
/// lies nearer to it. Both distances are measured after scaling by twice the
/// denominator, which keeps the comparison in integers.
pub proof fn lemma_rounded_divisor_is_closest(
    base_clock_hz: int,
    base_clock_div: int,
    baud_rate: int,
    other: int,
)
    requires
        base_clock_hz >= 0,
        base_clock_div >= 1,
        baud_rate >= 1,
    ensures
        ({
            let b = base_clock_div * baud_rate;
            let q = rounded_baud_divisor(base_clock_hz, base_clock_div, baud_rate);
            baud_rate_distance(2 * base_clock_hz, 2 * b * q) <= baud_rate_distance(
                2 * base_clock_hz,
                2 * b * other,
            )
        }),
{
    let a = 2 * base_clock_hz;
    let b = base_clock_div * baud_rate;
    assert(b >= 1) by (nonlinear_arith)
        requires
            base_clock_div >= 1,
            baud_rate >= 1,
            b == base_clock_div * baud_rate,
    ;
    lemma_mul_is_associative(2, base_clock_div, baud_rate);
    let q = (a + b) / (2 * b);
    assert(rounded_baud_divisor(base_clock_hz, base_clock_div, baud_rate) == q);
    lemma_fundamental_div_mod(a + b, 2 * b);
    lemma_mod_division_less_than_divisor(a + b, 2 * b);
    let m = (a + b) % (2 * b);
    assert(a - 2 * b * q == m - b);
    if other < q {
        assert(2 * b * other <= 2 * b * (q - 1)) by (nonlinear_arith)
            requires
                other <= q - 1,
                b >= 1,
        ;
        assert(2 * b * (q - 1) == 2 * b * q - 2 * b) by (nonlinear_arith);
        assert(a - 2 * b * other >= b);
    } else if other > q {
        assert(2 * b * other >= 2 * b * (q + 1)) by (nonlinear_arith)
            requires
                other >= q + 1,
                b >= 1,
        ;
        assert(2 * b * (q + 1) == 2 * b * q + 2 * b) by (nonlinear_arith);
        assert(a - 2 * b * other <= m - b - 2 * b);
        assert(a - 2 * b * other < -b);
    }
}

/// The work-rotation delay for one work item, in nanoseconds: the time the
/// configured midstate lanes take to walk one per-core nonce subspace at the
/// given PLL frequency, scaled by the safety margin. More midstates per work
/// item proportionally lengthen the per-item search, the clock shortens it.
pub open spec fn work_delay_nanos(midstate_count: int, pll_frequency: int) -> int
    recommends
        pll_frequency >= 1,
{
    midstate_count * (WORK_SPACE_PER_CORE as int) * (WORK_DELAY_MARGIN_NANOS_PER_SEC as int) / pll_frequency
}

/// Helper method to calculate the time to finish one piece of work.
///
/// * `midstate_count` - number of midstates
/// * `pll_frequency` - frequency of the chip in Hz
///
/// Returns the work delay in nanoseconds.
pub fn calculate_work_delay_for_pll(midstate_count: usize, pll_frequency: usize) -> (r: u64)
    requires
        valid_midstate_count(midstate_count),
        pll_frequency >= 1,
    ensures
        r == work_delay_nanos(midstate_count as int, pll_frequency as int),
{
    let numerator: u64 = (midstate_count as u64) * WORK_SPACE_PER_CORE
        * WORK_DELAY_MARGIN_NANOS_PER_SEC;
    numerator / (pll_frequency as u64)
}

/// Ticks of the FPGA IP core clock that fit into a delay given in
/// nanoseconds; the truncation stays within the already margin-scaled safe
/// interval.
pub open spec fn fpga_ticks_of_nanos(nanos: int) -> int
    recommends
        nanos >= 0,
{
    nanos * (FPGA_IPCORE_F_CLK_SPEED_HZ as int) / (NANOS_PER_SEC as int)
}

/// Converts a work delay, carried in nanoseconds, into the tick count
/// programmed into the FPGA's work-rotation timer.
pub fn secs_to_fpga_ticks(delay_nanos: u64) -> (r: u64)
    ensures
        r == fpga_ticks_of_nanos(delay_nanos as int),
{
    proof {
        let n = delay_nanos as int;
        lemma_div_by_multiple(n, 50_000_000);
        lemma_div_denominator(n * 50_000_000, 50_000_000, 20);
        assert(n * 50_000_000 / 1_000_000_000 == n / 20);
    }
    delay_nanos / 20
}

/// How many midstates the chips of this chain search in parallel; only the
/// counts the BM1387 supports can be represented.
#[derive(Clone, Copy, Debug, PartialEq, Eq, Structural)]
pub struct MidstateCount {
    count: usize,
}

impl MidstateCount {
    pub closed spec fn spec_count(&self) -> usize {
        self.count
    }

    pub open spec fn valid(&self) -> bool {
        valid_midstate_count(self.spec_count())
    }

    pub fn new(count: usize) -> (r: Self)
        requires
            valid_midstate_count(count),
        ensures
            r.spec_count() == count,
            r.valid(),
    {
        MidstateCount { count }
    }

    pub fn to_count(&self) -> (r: usize)
        ensures
            r == self.spec_count(),
    {
        self.count
    }
}

/// Lifecycle of one hashboard's controller.
#[derive(Clone, Copy, Debug, PartialEq, Eq, Structural)]
pub enum ChainState {
    /// No resources touched yet.
    Uninitialized,
    /// Construction succeeded: GPIO checked, power engaged, chips detected;
    /// communication timing not yet programmed.
    Configuring,
    /// Steady state: generating work, draining solutions.
    Running,
    /// Unrecoverable transport or power fault; no new work is issued and the
    /// chain awaits external teardown.
    Faulted,
    /// Cooperative shutdown was requested; handles are released on drop.
    ShuttingDown,
}

/// The one step the controller takes for one retrieved solution: exactly one
/// classification counter grows, the registry records a unique solution's
/// (nonce, midstate) pair, a mismatch is reported towards monitoring, and a
/// unique solution is emitted upstream paired with its originating work.
pub open spec fn solution_step(
    pre_registry: Map<u32, RegisteredWork>,
    pre_stats: MiningStats,
    pre_events: Seq<MonitorEvent>,
    post_registry: Map<u32, RegisteredWork>,
    post_stats: MiningStats,
    post_events: Seq<MonitorEvent>,
    solution: MiningWorkSolution,
    work_id: u32,
    now_nanos: u64,
    emitted: Option<UniqueMiningWorkSolution>,
) -> bool {
    let class = classify(pre_registry, work_id, solution);
    &&& post_stats.work_generated == pre_stats.work_generated
    &&& post_stats.solutions_total() == pre_stats.solutions_total() + 1
    &&& (class == SolutionClass::Stale ==> {
        &&& post_stats.stale_solutions == pre_stats.stale_solutions + 1
        &&& post_stats.duplicate_solutions == pre_stats.duplicate_solutions
        &&& post_stats.mismatched_solution_nonces == pre_stats.mismatched_solution_nonces
        &&& post_stats.unique_solutions == pre_stats.unique_solutions
        &&& post_registry == pre_registry
        &&& post_events == pre_events
        &&& emitted is None
    })
    &&& (class == SolutionClass::Mismatched ==> {
        &&& post_stats.mismatched_solution_nonces == pre_stats.mismatched_solution_nonces + 1
        &&& post_stats.stale_solutions == pre_stats.stale_solutions
        &&& post_stats.duplicate_solutions == pre_stats.duplicate_solutions
        &&& post_stats.unique_solutions == pre_stats.unique_solutions
        &&& post_registry == pre_registry
        &&& post_events == pre_events.push(MonitorEvent::CorrelationAnomaly)
        &&& emitted is None
    })
    &&& (class == SolutionClass::Duplicate ==> {
        &&& post_stats.duplicate_solutions == pre_stats.duplicate_solutions + 1
        &&& post_stats.stale_solutions == pre_stats.stale_solutions
        &&& post_stats.mismatched_solution_nonces == pre_stats.mismatched_solution_nonces
        &&& post_stats.unique_solutions == pre_stats.unique_solutions
        &&& post_registry == pre_registry
        &&& post_events == pre_events
        &&& emitted is None
    })
    &&& (class == SolutionClass::Unique ==> {
        &&& post_stats.unique_solutions == pre_stats.unique_solutions + 1
        &&& post_stats.stale_solutions == pre_stats.stale_solutions
        &&& post_stats.duplicate_solutions == pre_stats.duplicate_solutions
        &&& post_stats.mismatched_solution_nonces == pre_stats.mismatched_solution_nonces
        &&& (emitted matches Some(u) && {
            &&& u.timestamp == now_nanos
            &&& u.solution == solution
            &&& work_matches(u.work, pre_registry[work_id].work)
        })
        &&& post_registry.dom() == pre_registry.dom()
        &&& post_registry[work_id].work == pre_registry[work_id].work
        &&& post_registry[work_id].seen@ == pre_registry[work_id].seen@.push(
            (solution.nonce, solution.midstate_idx),
        )
        &&& forall|k: u32|
            k != work_id && pre_registry.contains_key(k) ==> post_registry[k] == pre_registry[k]
        &&& post_events == pre_events
    })
}

/// Hash chain controller: owns one hashboard's lifecycle, from bring-up
/// through the steady work/solution loop to fault or shutdown. It is generic
/// over the regulator-bus adapter and over the chip-family driver; it never
/// touches a concrete chip type.
pub struct HashChain<B: VoltageCtrlBackend, H: HardwareCtl> {
    /// Where in its lifecycle this chain stands.
    pub state: ChainState,
    /// Which connector the board sits in.
    pub hashboard_idx: usize,
    /// How many midstates each work item must carry.
    pub midstate_count: MidstateCount,
    /// Difficulty the ASICs filter solutions against.
    pub asic_difficulty: usize,
    /// Operating frequency of the chips' PLL, in Hz.
    pub pll_frequency: usize,
    /// Shared regulator-bus handle; other chains on the same bus keep being
    /// served after this one shuts down.
    pub voltage_ctrl: SharedBackend<B>,
    /// The chip-family driver for this chain.
    pub driver: H,
    /// Work still in flight, keyed by driver-assigned identifier.
    pub registry: WorkRegistry,
    /// Running counters; they never decrease.
    pub stats: MiningStats,
    /// Outbound monitoring events, oldest first; drained by the embedder,
    /// which must never let a slow consumer stall this chain.
    pub events: Vec<MonitorEvent>,
    /// Work-rotation timeout in FPGA ticks, programmed during configuration.
    pub work_time: u64,
    /// Baud divisor register value, programmed during configuration.
    pub baud_divisor: usize,
}

/// The acceptance rule construction applies to the chip count the driver
/// reports: an empty bus means the board is absent or dead, and the chain
/// must refuse to start rather than silently degrade.
pub fn validate_chip_count(chip_count: usize) -> (r: Result<(), Error>)
    ensures
        r is Ok <==> chip_count >= 1,
        r is Err ==> r == Err::<(), Error>(Error::Instantiation),
{
    if chip_count == 0 {
        Err(Error::Instantiation)
    } else {
        Ok(())
    }
}

impl<B: VoltageCtrlBackend, H: HardwareCtl> HashChain<B, H> {
    pub open spec fn wf(&self) -> bool {
        &&& self.midstate_count.valid()
        &&& valid_hashboard_idx(self.hashboard_idx)
        &&& self.pll_frequency >= 1
    }

    /// Creates a new hash chain controller for one hashboard.
    ///
    /// Construction checks the board's plug sensor, engages the power
    /// backend and requires at least one detected chip; any of these failing
    /// is reported as an instantiation error and the chain never starts.
    pub fn new(
        gpio_mgr: &ControlPinManager,
        voltage_ctrl_backend: SharedBackend<B>,
        hashboard_idx: usize,
        midstate_count: MidstateCount,
        asic_difficulty: usize,
        driver: H,
    ) -> (r: Result<Self, Error>)
        requires
            gpio_mgr.wf(),
            midstate_count.valid(),
        ensures
            match r {
                Ok(chain) => {
                    &&& chain.wf()
                    &&& chain.state == ChainState::Configuring
                    &&& chain.hashboard_idx == hashboard_idx
                    &&& chain.midstate_count == midstate_count
                    &&& chain.asic_difficulty == asic_difficulty
                    &&& chain.pll_frequency == DEFAULT_PLL_FREQUENCY
                    &&& chain.stats.all_zero()
                    &&& chain.registry@ == Map::<u32, RegisteredWork>::empty()
                    &&& chain.events@ == Seq::<MonitorEvent>::empty()
                    &&& chain.driver == driver
                    &&& gpio_mgr.spec_plugged(hashboard_idx)
                },
                Err(e) => e == Error::Instantiation,
            },
            !valid_hashboard_idx(hashboard_idx) ==> r is Err,
            valid_hashboard_idx(hashboard_idx) && !gpio_mgr.spec_plugged(hashboard_idx)
                ==> r is Err,
    {
        if hashboard_idx < 1 || hashboard_idx > crate::gpio::HASHBOARD_COUNT {
            return Err(Error::Instantiation);
        }
        if !gpio_mgr.is_plugged(hashboard_idx) {
            return Err(Error::Instantiation);
        }
        let mut voltage_ctrl = voltage_ctrl_backend;
        match voltage_ctrl.init(hashboard_idx) {
            Ok(()) => {},
            Err(_) => {
                return Err(Error::Instantiation);
            },
        }
        let chip_count = driver.get_chip_count();
        match validate_chip_count(chip_count) {
            Ok(()) => {},
            Err(e) => {
                return Err(e);
            },
        }
        Ok(
            HashChain {
                state: ChainState::Configuring,
                hashboard_idx,
                midstate_count,
                asic_difficulty,
                pll_frequency: DEFAULT_PLL_FREQUENCY,
                voltage_ctrl,
                driver,
                registry: WorkRegistry::new(),
                stats: MiningStats::new(),
                events: Vec::new(),
                work_time: 0,
                baud_divisor: 0,
            },
        )
    }

    /// Finishes configuration: computes the communication timing for the
    /// configured oscillator and the work-rotation timeout for the
    /// configured PLL frequency, and enters the running state. An
    /// unsupported baud rate is surfaced, never clamped.
    pub fn init(&mut self) -> (r: Result<(), Error>)
        requires
            old(self).wf(),
            old(self).state == ChainState::Configuring,
        ensures
            final(self).wf(),
            final(self).hashboard_idx == old(self).hashboard_idx,
            final(self).midstate_count == old(self).midstate_count,
            final(self).asic_difficulty == old(self).asic_difficulty,
            final(self).pll_frequency == old(self).pll_frequency,
            final(self).stats == old(self).stats,
            old(self).stats.leq(&final(self).stats),
            final(self).registry@ == old(self).registry@,
            final(self).events@ == old(self).events@,
            final(self).voltage_ctrl == old(self).voltage_ctrl,
            final(self).driver == old(self).driver,
            match r {
                Ok(()) => {
                    &&& baud_rate_supported(
                        CHIP_OSC_CLK_HZ as int,
                        CHIP_OSC_CLK_BASE_BAUD_DIV as int,
                        INIT_CHIP_BAUD_RATE as int,
                    )
                    &&& final(self).state == ChainState::Running
                    &&& final(self).baud_divisor == rounded_baud_divisor(
                        CHIP_OSC_CLK_HZ as int,
                        CHIP_OSC_CLK_BASE_BAUD_DIV as int,
                        INIT_CHIP_BAUD_RATE as int,
                    ) - 1
                    &&& final(self).work_time == fpga_ticks_of_nanos(
                        work_delay_nanos(
                            old(self).midstate_count.spec_count() as int,
                            old(self).pll_frequency as int,
                        ),
                    )
                },
                Err(e) => {
                    &&& e == Error::BaudRate
                    &&& !baud_rate_supported(
                        CHIP_OSC_CLK_HZ as int,
                        CHIP_OSC_CLK_BASE_BAUD_DIV as int,
                        INIT_CHIP_BAUD_RATE as int,
                    )
                    &&& final(self).state == old(self).state
                    &&& final(self).baud_divisor == old(self).baud_divisor
                    &&& final(self).work_time == old(self).work_time
                },
            },
    {
        let baud_divisor = match calc_baud_clock_div(
            INIT_CHIP_BAUD_RATE,
            CHIP_OSC_CLK_HZ,
            CHIP_OSC_CLK_BASE_BAUD_DIV,
        ) {
            Ok(p) => p.0,
            Err(e) => {
                return Err(e);
            },
        };
        let delay_nanos = calculate_work_delay_for_pll(
            self.midstate_count.to_count(),
            self.pll_frequency,
        );
        self.work_time = secs_to_fpga_ticks(delay_nanos);
        self.baud_divisor = baud_divisor;
        self.state = ChainState::Running;
        Ok(())
    }

    /// Submits one work item to the chips and registers it for later
    /// solution correlation. A transport failure faults the chain: it stops
    /// issuing work and reports on the monitoring channel.
    pub fn submit_work(&mut self, work: MiningWork) -> (r: Result<u32, Error>)
        requires
            old(self).wf(),
            old(self).state == ChainState::Running,
            work.midstates@.len() == old(self).midstate_count.spec_count(),
            old(self).stats.work_generated < usize::MAX,
        ensures
            final(self).wf(),
            old(self).stats.leq(&final(self).stats),
            final(self).hashboard_idx == old(self).hashboard_idx,
            final(self).midstate_count == old(self).midstate_count,
            final(self).asic_difficulty == old(self).asic_difficulty,
            final(self).pll_frequency == old(self).pll_frequency,
            final(self).work_time == old(self).work_time,
            final(self).baud_divisor == old(self).baud_divisor,
            final(self).voltage_ctrl == old(self).voltage_ctrl,
            match r {
                Ok(work_id) => {
                    &&& final(self).state == ChainState::Running
                    &&& final(self).stats.work_generated == old(self).stats.work_generated + 1
                    &&& final(self).stats.stale_solutions == old(self).stats.stale_solutions
                    &&& final(self).stats.duplicate_solutions == old(
                        self,
                    ).stats.duplicate_solutions
                    &&& final(self).stats.mismatched_solution_nonces == old(
                        self,
                    ).stats.mismatched_solution_nonces
                    &&& final(self).stats.unique_solutions == old(self).stats.unique_solutions
                    &&& final(self).registry@.dom() == old(self).registry@.dom().insert(work_id)
                    &&& final(self).registry@[work_id].work == work
                    &&& final(self).registry@[work_id].seen@ == Seq::<(u32, usize)>::empty()
                    &&& forall|k: u32|
                        k != work_id && old(self).registry@.contains_key(k) ==> final(self).registry@[k] == old(self).registry@[k]
                    &&& final(self).events@ == old(self).events@
                },
                Err(e) => {
                    &&& e == Error::Transport
                    &&& final(self).state == ChainState::Faulted
                    &&& final(self).stats == old(self).stats
                    &&& final(self).registry@ == old(self).registry@
                    &&& final(self).events@ == old(self).events@.push(
                        MonitorEvent::TransportFault,
                    )
                },
            },
    {
        match self.driver.send_work(&work) {
            Ok(work_id) => {
                self.registry.register(work_id, work);
                self.stats.work_generated = self.stats.work_generated + 1;
                Ok(work_id)
            },
            Err(_) => {
                self.state = ChainState::Faulted;
                self.events.push(MonitorEvent::TransportFault);
                Err(Error::Transport)
            },
        }
    }

    /// Classifies one retrieved solution against the in-flight work and
    /// updates the statistics: exactly one of the four counters grows, and
    /// only a first-seen solution is paired with its work and returned for
    /// emission upstream.
    pub fn process_solution(
        &mut self,
        solution: MiningWorkSolution,
        work_id: u32,
        now_nanos: u64,
    ) -> (r: Option<UniqueMiningWorkSolution>)
        requires
            old(self).wf(),
            old(self).state == ChainState::Running,
            old(self).stats.solutions_total() < u64::MAX,
        ensures
            final(self).wf(),
            old(self).stats.leq(&final(self).stats),
            solution_step(
                old(self).registry@,
                old(self).stats,
                old(self).events@,
                final(self).registry@,
                final(self).stats,
                final(self).events@,
                solution,
                work_id,
                now_nanos,
                r,
            ),
            final(self).state == old(self).state,
            final(self).hashboard_idx == old(self).hashboard_idx,
            final(self).midstate_count == old(self).midstate_count,
            final(self).asic_difficulty == old(self).asic_difficulty,
            final(self).pll_frequency == old(self).pll_frequency,
            final(self).work_time == old(self).work_time,
            final(self).baud_divisor == old(self).baud_divisor,
            final(self).voltage_ctrl == old(self).voltage_ctrl,
            final(self).driver == old(self).driver,
    {
        let (class, work_opt) = self.registry.classify_and_record(work_id, &solution);
        match class {
            SolutionClass::Stale => {
                self.stats.stale_solutions = self.stats.stale_solutions + 1;
                None
            },
            SolutionClass::Mismatched => {
                self.stats.mismatched_solution_nonces = self.stats.mismatched_solution_nonces + 1;
                self.events.push(MonitorEvent::CorrelationAnomaly);
                None
            },
            SolutionClass::Duplicate => {
                self.stats.duplicate_solutions = self.stats.duplicate_solutions + 1;
                None
            },
            SolutionClass::Unique => {
                self.stats.unique_solutions = self.stats.unique_solutions + 1;
                let work = work_opt.unwrap();
                Some(UniqueMiningWorkSolution { timestamp: now_nanos, work, solution })
            },
        }
    }

    /// Polls the driver for at most one solution and, when one arrived,
    /// classifies it. A transport failure faults the chain; an empty poll
    /// changes nothing, absence of a solution is not an error.
    pub fn poll_solution(&mut self, now_nanos: u64) -> (r: Result<
        Option<UniqueMiningWorkSolution>,
        Error,
    >)
        requires
            old(self).wf(),
            old(self).state == ChainState::Running,
            old(self).stats.solutions_total() < u64::MAX,
        ensures
            final(self).wf(),
            old(self).stats.leq(&final(self).stats),
            final(self).hashboard_idx == old(self).hashboard_idx,
            final(self).midstate_count == old(self).midstate_count,
            final(self).asic_difficulty == old(self).asic_difficulty,
            final(self).pll_frequency == old(self).pll_frequency,
            final(self).work_time == old(self).work_time,
            final(self).baud_divisor == old(self).baud_divisor,
            final(self).voltage_ctrl == old(self).voltage_ctrl,
            match r {
                Ok(emitted) => {
                    &&& final(self).state == ChainState::Running
                    &&& ((final(self).stats == old(self).stats && final(self).registry@ == old(
                        self,
                    ).registry@ && final(self).events@ == old(self).events@ && emitted is None)
                        || (exists|solution: MiningWorkSolution, work_id: u32|
                        #[trigger] solution_step(
                            old(self).registry@,
                            old(self).stats,
                            old(self).events@,
                            final(self).registry@,
                            final(self).stats,
                            final(self).events@,
                            solution,
                            work_id,
                            now_nanos,
                            emitted,
                        )))
                },
                Err(e) => {
                    &&& e == Error::Transport
                    &&& final(self).state == ChainState::Faulted
                    &&& final(self).stats == old(self).stats
                    &&& final(self).registry@ == old(self).registry@
                    &&& final(self).events@ == old(self).events@.push(
                        MonitorEvent::TransportFault,
                    )
                },
            },
    {
        match self.driver.recv_solution() {
            Err(_) => {
                self.state = ChainState::Faulted;
                self.events.push(MonitorEvent::TransportFault);
                Err(Error::Transport)
            },
            Ok(None) => Ok(None),
            Ok(Some(solution)) => {
                let work_id = self.driver.get_work_id_from_solution(&solution);
                let emitted = self.process_solution(solution, work_id, now_nanos);
                Ok(emitted)
            },
        }
    }

    /// Purges a superseded work item from the registry; solutions that still
    /// name it will be counted stale.
    pub fn retire_work(&mut self, work_id: u32)
        requires
            old(self).wf(),
        ensures
            final(self).wf(),
            old(self).stats.leq(&final(self).stats),
            final(self).registry@ == old(self).registry@.remove(work_id),
            final(self).stats == old(self).stats,
            final(self).state == old(self).state,
            final(self).hashboard_idx == old(self).hashboard_idx,
            final(self).midstate_count == old(self).midstate_count,
            final(self).asic_difficulty == old(self).asic_difficulty,
            final(self).pll_frequency == old(self).pll_frequency,
            final(self).work_time == old(self).work_time,
            final(self).baud_divisor == old(self).baud_divisor,
            final(self).voltage_ctrl == old(self).voltage_ctrl,
            final(self).driver == old(self).driver,
            final(self).events@ == old(self).events@,
    {
        self.registry.retire(work_id);
    }

    /// Requests cooperative shutdown: the chain leaves the work loop at the
    /// next safe point and reports it; a shared power backend keeps serving
    /// sibling chains.
    pub fn shutdown(&mut self)
        requires
            old(self).wf(),
        ensures
            final(self).wf(),
            old(self).stats.leq(&final(self).stats),
            final(self).state == ChainState::ShuttingDown,
            final(self).stats == old(self).stats,
            final(self).registry@ == old(self).registry@,
            final(self).events@ == old(self).events@.push(MonitorEvent::ShuttingDown),
            final(self).hashboard_idx == old(self).hashboard_idx,
            final(self).midstate_count == old(self).midstate_count,
            final(self).asic_difficulty == old(self).asic_difficulty,
            final(self).pll_frequency == old(self).pll_frequency,
            final(self).work_time == old(self).work_time,
            final(self).baud_divisor == old(self).baud_divisor,
            final(self).voltage_ctrl == old(self).voltage_ctrl,
            final(self).driver == old(self).driver,
    {
        self.state = ChainState::ShuttingDown;
        self.events.push(MonitorEvent::ShuttingDown);
    }

    /// Hands out the oldest pending monitoring event, if any; delivery is
    /// the embedder's concern and must never block the mining loop.
    pub fn pop_event(&mut self) -> (r: Option<MonitorEvent>)
        ensures
            old(self).stats.leq(&final(self).stats),
            final(self).stats == old(self).stats,
            final(self).state == old(self).state,
            final(self).registry@ == old(self).registry@,
            final(self).hashboard_idx == old(self).hashboard_idx,
            final(self).midstate_count == old(self).midstate_count,
            final(self).asic_difficulty == old(self).asic_difficulty,
            final(self).pll_frequency == old(self).pll_frequency,
            final(self).work_time == old(self).work_time,
            final(self).baud_divisor == old(self).baud_divisor,
            final(self).voltage_ctrl == old(self).voltage_ctrl,
            final(self).driver == old(self).driver,
            old(self).events@.len() == 0 ==> r is None && final(self).events@ == old(
                self,
            ).events@,
            old(self).events@.len() > 0 ==> r == Some(old(self).events@[0]) && final(self).events@ == old(self).events@.remove(0),
    {
        if self.events.len() == 0 {
            None
        } else {
            Some(self.events.remove(0))
        }
    }
}

} // verus!
