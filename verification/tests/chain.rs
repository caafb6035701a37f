//! Hash chain controller: construction, the work/solution pipeline, the
//! classification counters and the monitoring events.

use bosminer::config;
use bosminer::error::Error;
use bosminer::gpio;
use bosminer::hal::HardwareCtl;
use bosminer::hal::Midstate;
use bosminer::hal::MiningStats;
use bosminer::hal::MiningWork;
use bosminer::hal::MiningWorkSolution;
use bosminer::hal::MonitorEvent;
use bosminer::power;
use bosminer::registry::SolutionClass;
use bosminer::registry::WorkRegistry;
use bosminer::s9::ChainState;
use bosminer::s9::HashChain;
use bosminer::s9::MidstateCount;

struct TestDriver {
    chip_count: usize,
    next_id: u32,
    fail: bool,
    pending: Vec<MiningWorkSolution>,
}

impl TestDriver {
    fn healthy() -> Self {
        TestDriver { chip_count: 63, next_id: 0, fail: false, pending: Vec::new() }
    }
}

impl HardwareCtl for TestDriver {
    fn send_work(&mut self, _work: &MiningWork) -> Result<u32, Error> {
        if self.fail {
            return Err(Error::Transport);
        }
        let id = self.next_id;
        self.next_id += 1;
        Ok(id)
    }

    fn recv_solution(&mut self) -> Result<Option<MiningWorkSolution>, Error> {
        if self.fail {
            return Err(Error::Transport);
        }
        Ok(self.pending.pop())
    }

    fn get_work_id_from_solution(&self, solution: &MiningWorkSolution) -> u32 {
        solution.solution_id
    }

    fn get_chip_count(&self) -> usize {
        self.chip_count
    }
}

struct FailingBackend;

impl power::VoltageCtrlBackend for FailingBackend {
    fn init(&mut self, _hashboard_idx: usize) -> Result<(), Error> {
        Err(Error::Instantiation)
    }
}

fn make_work(midstates: usize) -> MiningWork {
    let mut ms = Vec::new();
    let mut i = 0usize;
    while i < midstates {
        ms.push(Midstate { words: [0u32; 8] });
        i += 1;
    }
    MiningWork {
        version: 0x2000_0000,
        extranonce_2: 7,
        midstates: ms,
        merkel_root_lsw: 0xcafe_babe,
        ntime: 0x5d10_bc25,
        nbits: 0x1723_792c,
    }
}

fn running_chain() -> HashChain<power::I2cBackend, TestDriver> {
    let gpio_mgr = gpio::ControlPinManager::new();
    let backend = power::SharedBackend::new(power::I2cBackend::new(0));
    let mut chain = HashChain::new(
        &gpio_mgr,
        backend,
        config::S9_HASHBOARD_INDEX,
        MidstateCount::new(1),
        config::ASIC_DIFFICULTY,
        TestDriver::healthy(),
    )
    .unwrap();
    chain.init().unwrap();
    chain
}

fn stats_snapshot(stats: &MiningStats) -> (usize, u64, u64, u64, u64) {
    (
        stats.work_generated,
        stats.stale_solutions,
        stats.duplicate_solutions,
        stats.mismatched_solution_nonces,
        stats.unique_solutions,
    )
}

fn leq(a: (usize, u64, u64, u64, u64), b: (usize, u64, u64, u64, u64)) -> bool {
    a.0 <= b.0 && a.1 <= b.1 && a.2 <= b.2 && a.3 <= b.3 && a.4 <= b.4
}

#[test]
fn test_hchain_ctl_instance() {
    let gpio_mgr = gpio::ControlPinManager::new();
    let voltage_ctrl_backend = power::I2cBackend::new(0);
    let voltage_ctrl_backend = power::SharedBackend::new(voltage_ctrl_backend);
    let hash_chain = HashChain::new(
        &gpio_mgr,
        voltage_ctrl_backend,
        config::S9_HASHBOARD_INDEX,
        MidstateCount::new(1),
        config::ASIC_DIFFICULTY,
        TestDriver::healthy(),
    );
    match hash_chain {
        Ok(_) => assert!(true),
        Err(e) => assert!(false, "Failed to instantiate hash chain, error: {}", e.describe()),
    }
}

#[test]
fn test_hchain_ctl_instance_failing_power_backend() {
    let gpio_mgr = gpio::ControlPinManager::new();
    let backend = power::SharedBackend::new(FailingBackend);
    let hash_chain = HashChain::new(
        &gpio_mgr,
        backend,
        config::S9_HASHBOARD_INDEX,
        MidstateCount::new(1),
        config::ASIC_DIFFICULTY,
        TestDriver::healthy(),
    );
    assert_eq!(hash_chain.err(), Some(Error::Instantiation));
}

#[test]
fn test_hchain_ctl_instance_unplugged_board() {
    let mut gpio_mgr = gpio::ControlPinManager::new();
    gpio_mgr.set_plugged(config::S9_HASHBOARD_INDEX, false);
    let backend = power::SharedBackend::new(power::I2cBackend::new(0));
    let hash_chain = HashChain::new(
        &gpio_mgr,
        backend,
        config::S9_HASHBOARD_INDEX,
        MidstateCount::new(1),
        config::ASIC_DIFFICULTY,
        TestDriver::healthy(),
    );
    assert_eq!(hash_chain.err(), Some(Error::Instantiation));
}

#[test]
fn test_hchain_ctl_instance_no_chips_detected() {
    let gpio_mgr = gpio::ControlPinManager::new();
    let backend = power::SharedBackend::new(power::I2cBackend::new(0));
    let mut driver = TestDriver::healthy();
    driver.chip_count = 0;
    let hash_chain = HashChain::new(
        &gpio_mgr,
        backend,
        config::S9_HASHBOARD_INDEX,
        MidstateCount::new(1),
        config::ASIC_DIFFICULTY,
        driver,
    );
    assert_eq!(hash_chain.err(), Some(Error::Instantiation));
}

#[test]
fn test_hchain_ctl_instance_invalid_connector() {
    let gpio_mgr = gpio::ControlPinManager::new();
    for idx in [0usize, 10, 255] {
        let backend = power::SharedBackend::new(power::I2cBackend::new(0));
        let hash_chain = HashChain::new(
            &gpio_mgr,
            backend,
            idx,
            MidstateCount::new(1),
            config::ASIC_DIFFICULTY,
            TestDriver::healthy(),
        );
        assert_eq!(hash_chain.err(), Some(Error::Instantiation));
    }
}

#[test]
fn test_chain_init_programs_timing() {
    let chain = running_chain();
    assert_eq!(chain.state, ChainState::Running);
    assert_eq!(chain.baud_divisor, 26);
    assert_eq!(chain.work_time, 36296);
    assert!(chain.stats == MiningStats::new());
}

#[test]
fn test_solution_classification_accounts_for_every_solution() {
    let mut chain = running_chain();
    let work_id = chain.submit_work(make_work(1)).unwrap();
    assert_eq!(chain.stats.work_generated, 1);

    let sol = MiningWorkSolution { nonce: 42, ntime: None, midstate_idx: 0, solution_id: work_id };
    assert!(chain.process_solution(sol, work_id, 1_000).is_some());
    assert!(chain.process_solution(sol, work_id, 2_000).is_none());
    let mismatched =
        MiningWorkSolution { nonce: 43, ntime: None, midstate_idx: 5, solution_id: work_id };
    assert!(chain.process_solution(mismatched, work_id, 3_000).is_none());
    let stale = MiningWorkSolution { nonce: 44, ntime: None, midstate_idx: 0, solution_id: 999 };
    assert!(chain.process_solution(stale, 999, 4_000).is_none());

    assert_eq!(chain.stats.unique_solutions, 1);
    assert_eq!(chain.stats.duplicate_solutions, 1);
    assert_eq!(chain.stats.mismatched_solution_nonces, 1);
    assert_eq!(chain.stats.stale_solutions, 1);
    let total = chain.stats.unique_solutions
        + chain.stats.duplicate_solutions
        + chain.stats.stale_solutions
        + chain.stats.mismatched_solution_nonces;
    assert_eq!(total, 4);
}

#[test]
fn test_resubmitted_solution_is_duplicate() {
    let mut chain = running_chain();
    let work_id = chain.submit_work(make_work(1)).unwrap();
    let sol = MiningWorkSolution { nonce: 7, ntime: None, midstate_idx: 0, solution_id: work_id };

    assert!(chain.process_solution(sol, work_id, 10).is_some());
    assert_eq!(chain.stats.unique_solutions, 1);
    assert_eq!(chain.stats.duplicate_solutions, 0);

    assert!(chain.process_solution(sol, work_id, 20).is_none());
    assert_eq!(chain.stats.unique_solutions, 1);
    assert_eq!(chain.stats.duplicate_solutions, 1);
}

#[test]
fn test_out_of_range_midstate_idx_is_mismatched_never_unique() {
    let mut chain = running_chain();
    let work_id = chain.submit_work(make_work(1)).unwrap();
    let sol = MiningWorkSolution { nonce: 9, ntime: None, midstate_idx: 1, solution_id: work_id };
    assert!(chain.process_solution(sol, work_id, 10).is_none());
    assert_eq!(chain.stats.mismatched_solution_nonces, 1);
    assert_eq!(chain.stats.unique_solutions, 0);
    assert_eq!(chain.pop_event(), Some(MonitorEvent::CorrelationAnomaly));
}

#[test]
fn test_stale_solution_after_work_retired() {
    let mut chain = running_chain();
    let work_id = chain.submit_work(make_work(1)).unwrap();
    chain.retire_work(work_id);
    let sol = MiningWorkSolution { nonce: 3, ntime: None, midstate_idx: 0, solution_id: work_id };
    assert!(chain.process_solution(sol, work_id, 10).is_none());
    assert_eq!(chain.stats.stale_solutions, 1);
}

#[test]
fn test_stats_never_decrease() {
    let mut chain = running_chain();
    let mut last = stats_snapshot(&chain.stats);
    let work_id = chain.submit_work(make_work(1)).unwrap();
    let mut check = |stats: &MiningStats, last: &mut (usize, u64, u64, u64, u64)| {
        let now = stats_snapshot(stats);
        assert!(leq(*last, now), "statistics decreased: {:?} -> {:?}", last, now);
        *last = now;
    };
    check(&chain.stats, &mut last);
    let sol = MiningWorkSolution { nonce: 1, ntime: None, midstate_idx: 0, solution_id: work_id };
    chain.process_solution(sol, work_id, 1);
    check(&chain.stats, &mut last);
    chain.process_solution(sol, work_id, 2);
    check(&chain.stats, &mut last);
    let bad = MiningWorkSolution { nonce: 2, ntime: None, midstate_idx: 9, solution_id: work_id };
    chain.process_solution(bad, work_id, 3);
    check(&chain.stats, &mut last);
    chain.retire_work(work_id);
    check(&chain.stats, &mut last);
    chain.process_solution(sol, work_id, 4);
    check(&chain.stats, &mut last);
    chain.shutdown();
    check(&chain.stats, &mut last);
}

#[test]
fn test_unique_solution_pairs_work_and_timestamp() {
    let mut chain = running_chain();
    let work = make_work(1);
    let work_id = chain.submit_work(work).unwrap();
    let sol = MiningWorkSolution { nonce: 42, ntime: Some(77), midstate_idx: 0, solution_id: work_id };
    let unique = chain.process_solution(sol, work_id, 123_456).unwrap();
    assert_eq!(unique.timestamp, 123_456);
    assert_eq!(unique.solution.nonce, 42);
    assert_eq!(unique.solution.ntime, Some(77));
    assert_eq!(unique.work.merkel_root_lsw, 0xcafe_babe);
    assert_eq!(unique.work.midstates.len(), 1);
}

#[test]
fn test_transport_fault_on_submit() {
    let gpio_mgr = gpio::ControlPinManager::new();
    let backend = power::SharedBackend::new(power::I2cBackend::new(0));
    let mut driver = TestDriver::healthy();
    driver.fail = true;
    let mut chain = HashChain::new(
        &gpio_mgr,
        backend,
        config::S9_HASHBOARD_INDEX,
        MidstateCount::new(1),
        config::ASIC_DIFFICULTY,
        driver,
    )
    .unwrap();
    chain.init().unwrap();
    assert_eq!(chain.submit_work(make_work(1)).err(), Some(Error::Transport));
    assert_eq!(chain.state, ChainState::Faulted);
    assert_eq!(chain.stats.work_generated, 0);
    assert_eq!(chain.pop_event(), Some(MonitorEvent::TransportFault));
}

#[test]
fn test_poll_solution_empty_is_no_error() {
    let mut chain = running_chain();
    let polled = chain.poll_solution(5).unwrap();
    assert!(polled.is_none());
    assert_eq!(chain.stats, MiningStats::new());
}

#[test]
fn test_poll_solution_drains_driver_queue() {
    let mut chain = running_chain();
    let work_id = chain.submit_work(make_work(1)).unwrap();
    chain.driver.pending.push(MiningWorkSolution {
        nonce: 11,
        ntime: None,
        midstate_idx: 0,
        solution_id: work_id,
    });
    let polled = chain.poll_solution(55).unwrap();
    let unique = polled.unwrap();
    assert_eq!(unique.solution.nonce, 11);
    assert_eq!(chain.stats.unique_solutions, 1);
    assert!(chain.poll_solution(56).unwrap().is_none());
}

#[test]
fn test_poll_solution_transport_fault() {
    let mut chain = running_chain();
    chain.driver.fail = true;
    assert_eq!(chain.poll_solution(5).err(), Some(Error::Transport));
    assert_eq!(chain.state, ChainState::Faulted);
    assert_eq!(chain.pop_event(), Some(MonitorEvent::TransportFault));
}

#[test]
fn test_shutdown_reports_in_order() {
    let mut chain = running_chain();
    chain.driver.fail = true;
    let _ = chain.poll_solution(1);
    chain.shutdown();
    assert_eq!(chain.state, ChainState::ShuttingDown);
    // events come out oldest first
    assert_eq!(chain.pop_event(), Some(MonitorEvent::TransportFault));
    assert_eq!(chain.pop_event(), Some(MonitorEvent::ShuttingDown));
    assert_eq!(chain.pop_event(), None);
}

#[test]
fn test_mining_stats_new_is_all_zero() {
    let stats = MiningStats::new();
    assert_eq!(stats.work_generated, 0);
    assert_eq!(stats.stale_solutions, 0);
    assert_eq!(stats.duplicate_solutions, 0);
    assert_eq!(stats.mismatched_solution_nonces, 0);
    assert_eq!(stats.unique_solutions, 0);
}

#[test]
fn test_work_registry_classification_cycle() {
    let mut registry = WorkRegistry::new();
    assert!(!registry.contains(5));
    registry.register(5, make_work(2));
    assert!(registry.contains(5));
    let sol = MiningWorkSolution { nonce: 21, ntime: None, midstate_idx: 1, solution_id: 5 };

    let (first, work) = registry.classify_and_record(5, &sol);
    assert_eq!(first, SolutionClass::Unique);
    assert_eq!(work.unwrap().merkel_root_lsw, 0xcafe_babe);

    let (second, none) = registry.classify_and_record(5, &sol);
    assert_eq!(second, SolutionClass::Duplicate);
    assert!(none.is_none());

    let wild = MiningWorkSolution { nonce: 21, ntime: None, midstate_idx: 2, solution_id: 5 };
    let (third, _) = registry.classify_and_record(5, &wild);
    assert_eq!(third, SolutionClass::Mismatched);

    registry.retire(5);
    assert!(!registry.contains(5));
    let (fourth, _) = registry.classify_and_record(5, &sol);
    assert_eq!(fourth, SolutionClass::Stale);
    assert_eq!(registry.len(), 0);
}

#[test]
fn test_control_pin_manager_lines() {
    let mut pins = gpio::ControlPinManager::new();
    assert!(pins.is_plugged(1));
    assert!(!pins.is_in_reset(1));
    pins.set_reset(1, true);
    pins.set_start(2, true);
    assert!(pins.is_in_reset(1));
    assert!(pins.is_started(2));
    // disjoint connectors do not interfere
    assert!(!pins.is_in_reset(2));
    assert!(!pins.is_started(1));
    pins.set_reset(1, false);
    assert!(!pins.is_in_reset(1));
}

#[test]
fn test_validate_chip_count_rule() {
    assert_eq!(bosminer::s9::validate_chip_count(0), Err(Error::Instantiation));
    assert_eq!(bosminer::s9::validate_chip_count(1), Ok(()));
    assert_eq!(bosminer::s9::validate_chip_count(63), Ok(()));
}

#[test]
fn test_gpio_reset_sequence_brings_board_up() {
    let mut pins = gpio::ControlPinManager::new();
    pins.set_reset(3, true);
    pins.apply_reset_sequence(config::S9_HASHBOARD_INDEX);
    assert!(!pins.is_in_reset(config::S9_HASHBOARD_INDEX));
    assert!(pins.is_started(config::S9_HASHBOARD_INDEX));
    // disjoint connectors keep their state
    assert!(pins.is_in_reset(3));
    assert!(!pins.is_started(3));
    assert!(pins.is_plugged(config::S9_HASHBOARD_INDEX));
}

#[test]
fn test_midstate_count_round_trip() {
    assert_eq!(MidstateCount::new(1).to_count(), 1);
    assert_eq!(MidstateCount::new(2).to_count(), 2);
    assert_eq!(MidstateCount::new(4).to_count(), 4);
}
