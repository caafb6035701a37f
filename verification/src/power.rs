//! Voltage/power control: the capability a regulator-bus adapter must
//! provide, and the sharing wrapper handed to each hash chain that sits on
//! one physical bus. Wire-level I2C details are outside the core; the model
//! backend below stands in for a healthy bus, and an embedder plugs its own
//! adapter in through the same trait.

use vstd::prelude::*;

use crate::error::Error;

verus! {

/// Contract of a regulator-bus adapter: bring one hashboard's regulator to
/// its initial operating voltage. The controller checks the outcome at run
/// time and promises nothing about it, so any adapter may stand here.
pub trait VoltageCtrlBackend {
    /// Powers the regulator of the given hashboard up to its initial
    /// operating voltage, or reports why it could not.
    fn init(&mut self, hashboard_idx: usize) -> Result<(), Error>;
}

/// Model of a working I2C regulator bus, addressed by bus index. Register
/// transactions beyond bring-up are not part of the core's surface.
pub struct I2cBackend {
    /// Which physical I2C bus the regulators sit on.
    pub bus_idx: usize,
}

impl I2cBackend {
    pub fn new(bus_idx: usize) -> (r: Self)
        ensures
            r.bus_idx == bus_idx,
    {
        I2cBackend { bus_idx }
    }
}

impl VoltageCtrlBackend for I2cBackend {
    /// On a healthy bus, bring-up succeeds for every connector.
    fn init(&mut self, hashboard_idx: usize) -> Result<(), Error> {
        Ok(())
    }
}

/// Exclusive-access sharing of one backend across the hash chains of one
/// physical bus: at most one chain is mid-transaction at any instant. Within
/// the verified core the wrapper owns the backend; an embedder that runs
/// chains on separate threads adds its mutual exclusion around this wrapper,
/// outside the verified surface.
pub struct SharedBackend<B: VoltageCtrlBackend> {
    backend: B,
}

impl<B: VoltageCtrlBackend> SharedBackend<B> {
    /// The adapter currently behind the wrapper.
    pub closed spec fn spec_backend(&self) -> B {
        self.backend
    }

    pub fn new(backend: B) -> (r: Self)
        ensures
            r.spec_backend() == backend,
    {
        SharedBackend { backend }
    }

    /// One short bus transaction: regulator bring-up for one hashboard.
    pub fn init(&mut self, hashboard_idx: usize) -> Result<(), Error> {
        self.backend.init(hashboard_idx)
    }
}

} // verus!
