//! Control-pin manager: the process-wide abstraction over the board
//! reset/start lines and the plug-detect sensors. Each controller borrows pin
//! control for its own hashboard only; boards are addressed by connector
//! index, starting at one. Electrical pin driving beyond this reset/enable
//! capability is outside the core and left to the embedder.

use vstd::prelude::*;

verus! {

/// How many hashboard connectors one control board offers.
pub const HASHBOARD_COUNT: usize = 9;

/// Whether a connector index addresses an existing hashboard slot.
pub open spec fn valid_hashboard_idx(idx: usize) -> bool {
    1 <= idx <= HASHBOARD_COUNT
}

/// One manager is created at process start and shared by every hash chain;
/// chains touching disjoint connectors do not interfere.
pub struct ControlPinManager {
    /// Plug-detect sensor per connector, index `idx - 1`.
    plugged: Vec<bool>,
    /// Reset line per connector, active when `true`.
    reset: Vec<bool>,
    /// Start (enable) line per connector.
    start: Vec<bool>,
}

impl ControlPinManager {
    pub closed spec fn wf(&self) -> bool {
        &&& self.plugged@.len() == HASHBOARD_COUNT
        &&& self.reset@.len() == HASHBOARD_COUNT
        &&& self.start@.len() == HASHBOARD_COUNT
    }

    pub closed spec fn spec_plugged(&self, idx: usize) -> bool {
        self.plugged@[idx - 1]
    }

    pub closed spec fn spec_in_reset(&self, idx: usize) -> bool {
        self.reset@[idx - 1]
    }

    pub closed spec fn spec_started(&self, idx: usize) -> bool {
        self.start@[idx - 1]
    }

    /// A fresh manager: every connector reports a plugged board, no board is
    /// held in reset and none is started yet.
    pub fn new() -> (r: Self)
        ensures
            r.wf(),
            forall|idx: usize| valid_hashboard_idx(idx) ==> r.spec_plugged(idx),
            forall|idx: usize| valid_hashboard_idx(idx) ==> !r.spec_in_reset(idx),
            forall|idx: usize| valid_hashboard_idx(idx) ==> !r.spec_started(idx),
    {
        let mut plugged: Vec<bool> = Vec::new();
        let mut reset: Vec<bool> = Vec::new();
        let mut start: Vec<bool> = Vec::new();
        let mut i: usize = 0;
        while i < HASHBOARD_COUNT
            invariant
                i <= HASHBOARD_COUNT,
                plugged@.len() == i,
                reset@.len() == i,
                start@.len() == i,
                forall|j: int| 0 <= j < i ==> plugged@[j],
                forall|j: int| 0 <= j < i ==> !reset@[j],
                forall|j: int| 0 <= j < i ==> !start@[j],
            decreases HASHBOARD_COUNT - i,
        {
            plugged.push(true);
            reset.push(false);
            start.push(false);
            i = i + 1;
        }
        ControlPinManager { plugged, reset, start }
    }

    /// Reads the plug-detect sensor of one connector.
    pub fn is_plugged(&self, hashboard_idx: usize) -> (r: bool)
        requires
            self.wf(),
            valid_hashboard_idx(hashboard_idx),
        ensures
            r == self.spec_plugged(hashboard_idx),
    {
        self.plugged[hashboard_idx - 1]
    }

    /// Reads back the reset line of one connector.
    pub fn is_in_reset(&self, hashboard_idx: usize) -> (r: bool)
        requires
            self.wf(),
            valid_hashboard_idx(hashboard_idx),
        ensures
            r == self.spec_in_reset(hashboard_idx),
    {
        self.reset[hashboard_idx - 1]
    }

    /// Reads back the start (enable) line of one connector.
    pub fn is_started(&self, hashboard_idx: usize) -> (r: bool)
        requires
            self.wf(),
            valid_hashboard_idx(hashboard_idx),
        ensures
            r == self.spec_started(hashboard_idx),
    {
        self.start[hashboard_idx - 1]
    }

    /// Model control: records a board being seated in or pulled from a
    /// connector, which is what the plug sensor reflects.
    pub fn set_plugged(&mut self, hashboard_idx: usize, present: bool)
        requires
            old(self).wf(),
            valid_hashboard_idx(hashboard_idx),
        ensures
            final(self).wf(),
            final(self).spec_plugged(hashboard_idx) == present,
            forall|idx: usize|
                valid_hashboard_idx(idx) && idx != hashboard_idx ==> final(self).spec_plugged(idx)
                    == old(self).spec_plugged(idx),
            forall|idx: usize|
                valid_hashboard_idx(idx) ==> final(self).spec_in_reset(idx) == old(
                    self,
                ).spec_in_reset(idx),
            forall|idx: usize|
                valid_hashboard_idx(idx) ==> final(self).spec_started(idx) == old(
                    self,
                ).spec_started(idx),
    {
        self.plugged[hashboard_idx - 1] = present;
    }

    /// Drives the reset line of one connector.
    pub fn set_reset(&mut self, hashboard_idx: usize, active: bool)
        requires
            old(self).wf(),
            valid_hashboard_idx(hashboard_idx),
        ensures
            final(self).wf(),
            final(self).spec_in_reset(hashboard_idx) == active,
            forall|idx: usize|
                valid_hashboard_idx(idx) && idx != hashboard_idx ==> final(self).spec_in_reset(idx)
                    == old(self).spec_in_reset(idx),
            forall|idx: usize|
                valid_hashboard_idx(idx) ==> final(self).spec_plugged(idx) == old(
                    self,
                ).spec_plugged(idx),
            forall|idx: usize|
                valid_hashboard_idx(idx) ==> final(self).spec_started(idx) == old(
                    self,
                ).spec_started(idx),
    {
        self.reset[hashboard_idx - 1] = active;
    }

    /// The bring-up sequence of one hashboard's control pins, applied during
    /// the configuring step: pulse the reset line, then raise the start
    /// (enable) line. Afterwards the board is out of reset and enabled;
    /// every other connector's lines and every plug sensor are untouched.
    pub fn apply_reset_sequence(&mut self, hashboard_idx: usize)
        requires
            old(self).wf(),
            valid_hashboard_idx(hashboard_idx),
        ensures
            final(self).wf(),
            !final(self).spec_in_reset(hashboard_idx),
            final(self).spec_started(hashboard_idx),
            forall|idx: usize|
                valid_hashboard_idx(idx) && idx != hashboard_idx ==> final(self).spec_in_reset(idx)
                    == old(self).spec_in_reset(idx),
            forall|idx: usize|
                valid_hashboard_idx(idx) && idx != hashboard_idx ==> final(self).spec_started(idx)
                    == old(self).spec_started(idx),
            forall|idx: usize|
                valid_hashboard_idx(idx) ==> final(self).spec_plugged(idx) == old(
                    self,
                ).spec_plugged(idx),
    {
        self.set_reset(hashboard_idx, true);
        self.set_reset(hashboard_idx, false);
        self.set_start(hashboard_idx, true);
    }

    /// Drives the start (enable) line of one connector.
    pub fn set_start(&mut self, hashboard_idx: usize, active: bool)
        requires
            old(self).wf(),
            valid_hashboard_idx(hashboard_idx),
        ensures
            final(self).wf(),
            final(self).spec_started(hashboard_idx) == active,
            forall|idx: usize|
                valid_hashboard_idx(idx) && idx != hashboard_idx ==> final(self).spec_started(idx)
                    == old(self).spec_started(idx),
            forall|idx: usize|
                valid_hashboard_idx(idx) ==> final(self).spec_plugged(idx) == old(
                    self,
                ).spec_plugged(idx),
            forall|idx: usize|
                valid_hashboard_idx(idx) ==> final(self).spec_in_reset(idx) == old(
                    self,
                ).spec_in_reset(idx),
    {
        self.start[hashboard_idx - 1] = active;
    }
}

} // verus!
