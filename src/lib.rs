//! A driver for the ICM-42670 six-axis inertial sensor (three-axis
//! accelerometer and three-axis gyroscope) on an I2C bus.
//!
//! The driver performs no I/O itself. Each operation is a [`Transfer`]: a
//! verified state machine that names the next bus transaction to perform and
//! consumes its result, until it completes with the values read or an error.

pub mod access;
pub mod config;
pub mod device;
pub mod error;
pub mod lemmas;
pub mod register;

pub use access::{BusOp, Request, Step, Transfer};
pub use config::{
    AccelOdr, AccelRange, Address, FifoBypass, FifoCountEndian, FifoCountFormat, FifoMode,
    GyroOdr, GyroRange, PowerMode,
};
pub use device::{signed, Icm42670};
pub use error::{Error, SensorError};
pub use register::{Reg, Register, RegisterBank};
