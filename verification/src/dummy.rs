//! The synthetic device variant: no hardware dependency, used for testing
//! the sampling machinery.  Its known-id set is empty, so it never claims
//! a candidate.

use vstd::prelude::*;

use crate::device::{DeviceInterface, UsbCandidate, INITIAL_VALUE};

verus! {

/// A synthetic session with no hardware behind it.
#[derive(Clone, Copy, Debug, PartialEq, Eq, Structural)]
pub struct DummyDevice {
    /// The cached sample value the placeholder loop advances.
    pub current_value: i32,
    /// The cooperative-stop flag; `true` is its terminating state.
    pub stop_flag: bool,
}

/// The synthetic variant's known-id set: empty, it claims no candidate.
pub open spec fn spec_dummy_id(id: u16) -> bool {
    false
}

impl DummyDevice {
    /// A fresh synthetic session, directly constructed for tests.
    pub fn init() -> (r: DummyDevice)
        ensures
            r.current_value == INITIAL_VALUE,
            !r.stop_flag,
    {
        DummyDevice { current_value: INITIAL_VALUE, stop_flag: false }
    }
}

impl DeviceInterface for DummyDevice {
    open spec fn known_product_id(id: u16) -> bool {
        spec_dummy_id(id)
    }

    open spec fn value(&self) -> int {
        self.current_value as int
    }

    open spec fn stop_requested(&self) -> bool {
        self.stop_flag
    }

    open spec fn valid(&self) -> bool {
        true
    }

    fn try_create(candidate: UsbCandidate) -> (r: Result<DummyDevice, UsbCandidate>) {
        Err(candidate)
    }

    fn sample(&self) -> (r: i32) {
        self.current_value
    }

    fn sampling_cycle(&mut self) -> (cont: bool) {
        self.current_value = self.current_value + 1;
        !self.stop_flag
    }

    fn stop_sampling(&mut self) {
        self.stop_flag = true;
    }
}

} // verus!
