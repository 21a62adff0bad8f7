//! Verified core of the FOC drive firmware: the dual-slot parameter store,
//! the parameter catalogue, the UART and CAN protocol codecs and the small
//! state enumerations shared by the control and communication layers.

pub mod autotune;
pub mod bytes;
pub mod comm;
pub mod console;
pub mod crc;
pub mod hall;
pub mod interfaces;
pub mod motor_param;
pub mod parameters;
pub mod parameter_service;
pub mod parameter_store;
pub mod profile;
pub mod queue;
pub mod requests;
pub mod supervisor;
pub mod text;
