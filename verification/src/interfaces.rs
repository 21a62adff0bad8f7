//! Types shared by the control, parameter and communication layers.

use vstd::prelude::*;
use crate::parameters::{ParameterId, ParameterValue};

verus! {

#[derive(Clone, Copy, Debug, PartialEq, Eq, Structural)]
pub enum ControlMode {
    Idle,
    OpenLoop,
    Current,
    Velocity,
}

impl Default for ControlMode {
    fn default() -> (mode: Self)
        ensures
            mode == ControlMode::Idle,
    {
        ControlMode::Idle
    }
}

#[derive(Clone, Copy, Debug, PartialEq, Eq, Structural)]
pub enum MotorState {
    Calibrating,
    Idle,
    Running(ControlMode),
    Fault,
}

impl Default for MotorState {
    fn default() -> (state: Self)
        ensures
            state == MotorState::Calibrating,
    {
        MotorState::Calibrating
    }
}

/// A set of latched fault conditions, one bit each.
#[derive(Clone, Copy, Debug, PartialEq, Eq, Structural)]
pub struct FaultFlags(u32);

impl FaultFlags {
    pub fn over_current() -> (flag: Self)
        ensures
            flag.flags() == 1,
    {
        FaultFlags(1)
    }

    pub fn current_residual() -> (flag: Self)
        ensures
            flag.flags() == 2,
    {
        FaultFlags(2)
    }

    pub fn under_voltage() -> (flag: Self)
        ensures
            flag.flags() == 4,
    {
        FaultFlags(4)
    }

    pub fn over_voltage() -> (flag: Self)
        ensures
            flag.flags() == 8,
    {
        FaultFlags(8)
    }

    pub fn over_temperature() -> (flag: Self)
        ensures
            flag.flags() == 16,
    {
        FaultFlags(16)
    }

    pub fn stall() -> (flag: Self)
        ensures
            flag.flags() == 32,
    {
        FaultFlags(32)
    }

    pub fn sensor() -> (flag: Self)
        ensures
            flag.flags() == 64,
    {
        FaultFlags(64)
    }

    pub fn control_overrun() -> (flag: Self)
        ensures
            flag.flags() == 128,
    {
        FaultFlags(128)
    }

    pub fn invalid_command() -> (flag: Self)
        ensures
            flag.flags() == 256,
    {
        FaultFlags(256)
    }


    /// The bit pattern of the set.
    pub closed spec fn flags(self) -> u32 {
        self.0
    }

    /// Every flag of `other` is set in `self`.
    pub open spec fn holds(self, other: FaultFlags) -> bool {
        self.flags() & other.flags() == other.flags()
    }

    pub fn empty() -> (none: Self)
        ensures
            none.flags() == 0,
    {
        FaultFlags(0)
    }

    pub fn bits(self) -> (bits: u32)
        ensures
            bits == self.flags(),
    {
        self.0
    }

    pub fn is_empty(self) -> (empty: bool)
        ensures
            empty == (self.flags() == 0),
    {
        self.0 == 0
    }

    pub fn contains(self, other: Self) -> (found: bool)
        ensures
            found == self.holds(other),
    {
        self.0 & other.0 == other.0
    }

    pub fn insert(&mut self, other: Self)
        ensures
            final(self).flags() == old(self).flags() | other.flags(),
    {
        self.0 = self.0 | other.0;
    }

    pub fn clear(&mut self)
        ensures
            final(self).flags() == 0,
    {
        self.0 = 0;
    }

    /// The set with exactly the given bit pattern.
    pub fn from_bits(bits: u32) -> (flags: Self)
        ensures
            flags.flags() == bits,
    {
        FaultFlags(bits)
    }
}

impl Default for FaultFlags {
    fn default() -> (none: Self)
        ensures
            none.flags() == 0,
    {
        FaultFlags(0)
    }
}

/// Inserting flags latches them: afterwards the set holds the inserted
/// flags and every flag it held before, and an emptied set holds nothing
/// but the empty set.
pub proof fn lemma_fault_flags_latch(before: u32, inserted: u32, earlier: u32)
    ensures
        (before | inserted) & inserted == inserted,
        before & earlier == earlier ==> (before | inserted) & earlier == earlier,
        (0u32 & earlier == earlier) ==> earlier == 0,
{
    assert((before | inserted) & inserted == inserted) by (bit_vector);
    assert(before & earlier == earlier ==> (before | inserted) & earlier == earlier) by (bit_vector);
    assert((0u32 & earlier == earlier) ==> earlier == 0) by (bit_vector);
}

/// One set of ADC conversions triggered by the PWM timer.
#[derive(Clone, Copy, Debug, PartialEq, Eq, Structural)]
pub struct RawAdcFrame {
    pub phase_a: u16,
    pub phase_b: u16,
    pub phase_c: u16,
    pub bus_voltage: u16,
    pub ntc: u16,
    pub sequence: u32,
    pub overrun: bool,
}

/// PID gains and limits, each carried as its IEEE-754 binary32 encoding.
#[derive(Clone, Copy, Debug, PartialEq, Eq, Structural)]
pub struct PidBits {
    pub kp: u32,
    pub ki: u32,
    pub kd: u32,
    pub output_limit: u32,
    pub output_ramp: u32,
}

/// A command for the motor controller. Single-precision arguments are
/// carried as their IEEE-754 binary32 encoding.
#[derive(Clone, Copy, Debug, PartialEq, Eq, Structural)]
pub enum Command {
    Enable(ControlMode),
    Disable,
    ClearFault,
    SetIq(u32),
    SetVelocity(u32),
    SetOpenLoop { electrical_velocity: u32, q_voltage: u32 },
    SetCellCount(u8),
    SetElectricalZero(u32),
    SetCurrentPid(PidBits),
    SetVelocityPid(PidBits),
    AutoTuneStart,
    AutoTuneStop,
    ReportControlOverrun,
}

/// Where a parameter request came from and where its answer goes.
#[derive(Clone, Copy, Debug, PartialEq, Eq)]
pub enum ParameterRoute {
    Uart,
    Can { transaction: u8, request_id: u16, request_data: [u8; 8] },
}

#[derive(Clone, Copy, Debug, PartialEq, Eq, Structural)]
pub enum ParameterAction {
    Get(ParameterId),
    SetValue(ParameterId, ParameterValue),
    Status,
    Save,
    Load,
    Defaults,
    FactoryReset,
}

#[derive(Clone, Copy, Debug, PartialEq, Eq)]
pub struct ParameterRequest {
    pub route: ParameterRoute,
    pub action: ParameterAction,
}

#[derive(Clone, Copy, Debug, PartialEq, Eq, Structural)]
pub struct ParameterStorageStatus {
    pub persisted_valid: bool,
    pub source_defaults: bool,
    pub generation: u32,
    pub dirty: bool,
    pub restart_required: bool,
}

impl Default for ParameterStorageStatus {
    fn default() -> (status: Self)
        ensures
            status == (ParameterStorageStatus {
                persisted_valid: false,
                source_defaults: false,
                generation: 0,
                dirty: false,
                restart_required: false,
            }),
    {
        ParameterStorageStatus {
            persisted_valid: false,
            source_defaults: false,
            generation: 0,
            dirty: false,
            restart_required: false,
        }
    }
}

#[derive(Clone, Copy, Debug, PartialEq, Eq, Structural)]
pub enum ParameterResultCode {
    Success,
    Unchanged,
    Busy,
    Invalid,
    NoValidRecord,
    FlashRead,
    FlashErase,
    FlashProgram,
    Verify,
    Unknown,
    QueueFull,
    Conflict,
}

impl ParameterResultCode {
    /// The wire code of the result: its position in the list above.
    pub open spec fn spec_code(self) -> u8 {
        match self {
            ParameterResultCode::Success => 0,
            ParameterResultCode::Unchanged => 1,
            ParameterResultCode::Busy => 2,
            ParameterResultCode::Invalid => 3,
            ParameterResultCode::NoValidRecord => 4,
            ParameterResultCode::FlashRead => 5,
            ParameterResultCode::FlashErase => 6,
            ParameterResultCode::FlashProgram => 7,
            ParameterResultCode::Verify => 8,
            ParameterResultCode::Unknown => 9,
            ParameterResultCode::QueueFull => 10,
            ParameterResultCode::Conflict => 11,
        }
    }

    pub fn code(self) -> (code: u8)
        ensures
            code == self.spec_code(),
    {
        match self {
            ParameterResultCode::Success => 0,
            ParameterResultCode::Unchanged => 1,
            ParameterResultCode::Busy => 2,
            ParameterResultCode::Invalid => 3,
            ParameterResultCode::NoValidRecord => 4,
            ParameterResultCode::FlashRead => 5,
            ParameterResultCode::FlashErase => 6,
            ParameterResultCode::FlashProgram => 7,
            ParameterResultCode::Verify => 8,
            ParameterResultCode::Unknown => 9,
            ParameterResultCode::QueueFull => 10,
            ParameterResultCode::Conflict => 11,
        }
    }
}

#[derive(Clone, Copy, Debug, PartialEq, Eq)]
pub struct ParameterResponse {
    pub route: ParameterRoute,
    pub action: ParameterAction,
    pub result: ParameterResultCode,
    pub value: Option<ParameterValue>,
    pub storage: ParameterStorageStatus,
}

} // verus!
