//! The motor controller's supervisory state: operating state, latched
//! faults, calibration, control-frame sequencing and fault debouncing.

use vstd::prelude::*;
use crate::interfaces::{ControlMode, FaultFlags, MotorState};
use crate::profile::{is_valid_cell_count, valid_cell_count};

verus! {

/// The state, latched faults and calibration status of the controller.
///
/// Faults latch: they are only cleared by an accepted clear, and while
/// any is latched the controller is in the fault state. The bridge only
/// runs once calibration is complete.
#[derive(Clone, Copy, Debug)]
pub struct MotorSupervisor {
    state: MotorState,
    faults: FaultFlags,
    calibration_complete: bool,
    previous_sequence: Option<u32>,
}

impl MotorSupervisor {
    #[verifier::type_invariant]
    spec fn consistent(self) -> bool {
        &&& self.faults.flags() != 0 ==> self.state == MotorState::Fault
        &&& self.state is Running ==> self.calibration_complete
        &&& self.state == MotorState::Idle ==> self.calibration_complete
    }

    pub closed spec fn spec_state(&self) -> MotorState {
        self.state
    }

    pub closed spec fn spec_faults(&self) -> FaultFlags {
        self.faults
    }

    pub closed spec fn spec_calibrated(&self) -> bool {
        self.calibration_complete
    }

    /// The sequence number of the last control frame, if sequencing is
    /// running.
    pub closed spec fn spec_previous_sequence(&self) -> Option<u32> {
        self.previous_sequence
    }

    /// A supervisor at power-up: calibrating, no faults.
    pub fn new() -> (supervisor: Self)
        ensures
            supervisor.spec_state() == MotorState::Calibrating,
            supervisor.spec_faults().flags() == 0,
            !supervisor.spec_calibrated(),
            supervisor.spec_previous_sequence() is None,
    {
        MotorSupervisor {
            state: MotorState::Calibrating,
            faults: FaultFlags::empty(),
            calibration_complete: false,
            previous_sequence: None,
        }
    }

    /// The operating state. Whatever happened before, a latched fault
    /// means the fault state, and idle or running means calibrated.
    pub fn state(&self) -> (state: MotorState)
        ensures
            state == self.spec_state(),
            self.spec_faults().flags() != 0 ==> state == MotorState::Fault,
            state is Running ==> self.spec_calibrated(),
            state == MotorState::Idle ==> self.spec_calibrated(),
    {
        proof {
            use_type_invariant(self);
        }
        self.state
    }

    pub fn faults(&self) -> (faults: FaultFlags)
        ensures
            faults == self.spec_faults(),
    {
        self.faults
    }

    pub fn calibration_complete(&self) -> (complete: bool)
        ensures
            complete == self.spec_calibrated(),
    {
        self.calibration_complete
    }

    /// Whether the bridge is asked to switch.
    pub open spec fn spec_bridge_requested(&self) -> bool {
        self.spec_state() is Running
    }

    pub fn bridge_requested(&self) -> (requested: bool)
        ensures
            requested == self.spec_bridge_requested(),
    {
        match self.state {
            MotorState::Running(_) => true,
            _ => false,
        }
    }

    /// Whether a direct command may change the battery cell count: the
    /// count is supported and the bridge is not requested.
    pub fn accepts_cell_count(&self, cells: u8) -> (accepted: bool)
        ensures
            accepted == (valid_cell_count(cells) && !self.spec_bridge_requested()),
    {
        is_valid_cell_count(cells) && !self.bridge_requested()
    }

    /// The supervisory part of "safe to write flash or change the live
    /// profile": idle, calibrated and without faults.
    pub open spec fn spec_storage_ready(&self) -> bool {
        &&& self.spec_state() == MotorState::Idle
        &&& self.spec_calibrated()
        &&& self.spec_faults().flags() == 0
    }

    pub fn storage_ready(&self) -> (ready: bool)
        ensures
            ready == self.spec_storage_ready(),
    {
        self.state == MotorState::Idle && self.calibration_complete && self.faults.is_empty()
    }

    /// Latches `fault` and enters the fault state.
    pub fn trip(&mut self, fault: FaultFlags)
        ensures
            final(self).spec_state() == MotorState::Fault,
            final(self).spec_faults().flags() == old(self).spec_faults().flags() | fault.flags(),
            final(self).spec_calibrated() == old(self).spec_calibrated(),
            final(self).spec_previous_sequence() == old(self).spec_previous_sequence(),
    {
        let mut faults = self.faults;
        faults.insert(fault);
        self.state = MotorState::Fault;
        self.faults = faults;
    }

    /// Stops the bridge: a running controller goes idle; calibration and
    /// the fault state are left as they are.
    pub fn enter_idle(&mut self)
        ensures
            final(self).spec_state() == (if old(self).spec_state() == MotorState::Calibrating
                || old(self).spec_state() == MotorState::Fault {
                old(self).spec_state()
            } else {
                MotorState::Idle
            }),
            final(self).spec_faults() == old(self).spec_faults(),
            final(self).spec_calibrated() == old(self).spec_calibrated(),
            final(self).spec_previous_sequence() == old(self).spec_previous_sequence(),
    {
        proof {
            use_type_invariant(&*self);
        }
        if self.state != MotorState::Calibrating && self.state != MotorState::Fault {
            self.state = MotorState::Idle;
        }
    }

    /// The offsets are measured: a calibrating controller goes idle.
    pub fn calibration_done(&mut self)
        requires
            old(self).spec_state() == MotorState::Calibrating,
        ensures
            final(self).spec_state() == MotorState::Idle,
            final(self).spec_faults() == old(self).spec_faults(),
            final(self).spec_calibrated(),
            final(self).spec_previous_sequence() == old(self).spec_previous_sequence(),
    {
        proof {
            use_type_invariant(&*self);
        }
        self.calibration_complete = true;
        self.state = MotorState::Idle;
    }

    /// Clears the latched faults when the controller is in the fault state
    /// and `safe` (cool, bus not over voltage, phase currents settled).
    /// An accepted clear returns to idle when calibration was complete and
    /// restarts calibration otherwise.
    pub fn clear_fault(&mut self, safe: bool) -> (accepted: bool)
        ensures
            accepted == (old(self).spec_state() == MotorState::Fault && safe),
            accepted ==> final(self).spec_faults().flags() == 0 && final(self).spec_state() == (
            if old(self).spec_calibrated() {
                MotorState::Idle
            } else {
                MotorState::Calibrating
            }),
            !accepted ==> final(self).spec_state() == old(self).spec_state() && final(self).spec_faults() == old(self).spec_faults(),
            final(self).spec_calibrated() == old(self).spec_calibrated(),
            final(self).spec_previous_sequence() == old(self).spec_previous_sequence(),
    {
        if self.state != MotorState::Fault || !safe {
            return false;
        }
        let mut faults = self.faults;
        faults.clear();
        let state = if self.calibration_complete {
            MotorState::Idle
        } else {
            MotorState::Calibrating
        };
        *self = MotorSupervisor { state, faults, ..*self };
        true
    }

    /// Starts the bridge in `mode` when idle without faults, the bus
    /// voltage is within the cell limits (`bus_in_range`) and, for the
    /// modes that need the rotor position, the sensor reads valid.
    /// Returns whether the controller went from idle to running.
    pub fn enable(&mut self, mode: ControlMode, bus_in_range: bool, sensor_valid: bool) -> (started: bool)
        ensures
            started == (old(self).spec_state() == MotorState::Idle && old(self).spec_faults().flags()
                == 0 && mode != ControlMode::Idle && bus_in_range && (mode == ControlMode::OpenLoop
                || sensor_valid)),
            started ==> final(self).spec_state() == MotorState::Running(mode),
            !started ==> final(self).spec_state() == old(self).spec_state(),
            final(self).spec_faults() == old(self).spec_faults(),
            final(self).spec_calibrated() == old(self).spec_calibrated(),
            final(self).spec_previous_sequence() == old(self).spec_previous_sequence(),
    {
        proof {
            use_type_invariant(&*self);
        }
        if self.state != MotorState::Idle || !self.faults.is_empty() || mode == ControlMode::Idle {
            return false;
        }
        let needs_sensor = mode == ControlMode::Current || mode == ControlMode::Velocity;
        if !bus_in_range || (needs_sensor && !sensor_valid) {
            return false;
        }
        self.state = MotorState::Running(mode);
        true
    }

    /// Checks that control frames arrive in unbroken sequence: a frame
    /// whose number does not follow the previous one (wrapping) latches a
    /// control overrun.
    pub fn check_sequence(&mut self, sequence: u32) -> (tripped: bool)
        ensures
            tripped == (old(self).spec_previous_sequence() matches Some(previous) && sequence as int
                != (previous as int + 1) % 0x1_0000_0000),
            final(self).spec_previous_sequence() == Some(sequence),
            final(self).spec_calibrated() == old(self).spec_calibrated(),
            match old(self).spec_previous_sequence() {
                Some(previous) if sequence as int != (previous as int + 1) % 0x1_0000_0000 => {
                    &&& final(self).spec_state() == MotorState::Fault
                    &&& final(self).spec_faults().flags() == old(self).spec_faults().flags()
                        | 128u32
                },
                _ => final(self).spec_state() == old(self).spec_state() && final(self).spec_faults() == old(self).spec_faults(),
            },
    {
        let mut tripped = false;
        if let Some(previous) = self.previous_sequence {
            if sequence != previous.wrapping_add(1) {
                self.trip(FaultFlags::control_overrun());
                tripped = true;
            }
        }
        proof {
            use_type_invariant(&*self);
        }
        self.previous_sequence = Some(sequence);
        tripped
    }

    /// Forgets the last frame number, so the next frame starts a new run.
    pub fn resynchronize_control_input(&mut self)
        ensures
            final(self).spec_previous_sequence() is None,
            final(self).spec_state() == old(self).spec_state(),
            final(self).spec_faults() == old(self).spec_faults(),
            final(self).spec_calibrated() == old(self).spec_calibrated(),
    {
        proof {
            use_type_invariant(&*self);
        }
        self.previous_sequence = None;
    }
}

/// One sample of a debounced fault condition: the count of consecutive
/// samples with the condition active, saturating, and whether it has now
/// lasted `limit` samples (at least one).
pub open spec fn debounced(count: u16, active: bool, limit: u16) -> (u16, bool) {
    if active {
        let next = if count == u16::MAX { u16::MAX } else { (count + 1) as u16 };
        (next, next >= (if limit == 0 { 1 } else { limit }))
    } else {
        (0, false)
    }
}

/// Advances a debounce count by one sample.
pub fn debounce(count: &mut u16, active: bool, limit: u16) -> (tripped: bool)
    ensures
        (*final(count), tripped) == debounced(*old(count), active, limit),
{
    if active {
        *count = count.saturating_add(1);
        *count >= if limit == 0 { 1 } else { limit }
    } else {
        *count = 0;
        false
    }
}

} // verus!
