use vstd::prelude::*;

verus! {

/// Failures detected by the driver itself, independent of the bus.
#[derive(Clone, Copy, Debug, PartialEq, Eq, Structural)]
pub enum SensorError {
    /// The identity register held none of the accepted device identifiers.
    BadChip,
    /// A write or update was attempted on a read-only register.
    WriteToReadOnly,
    /// A range, rate or power-mode field held a reserved bit pattern.
    InvalidDiscriminant,
    /// A FIFO configuration flag held a bit pattern of no known setting.
    BadConfig,
}

/// Any failure of a driver operation: either the bus transport failed, or the
/// driver rejected the operation or the data it read back.
#[derive(Debug, PartialEq)]
pub enum Error<E> {
    /// The bus transport reported an error, passed on unchanged.
    BusError(E),
    /// The driver rejected the operation.
    SensorError(SensorError),
}

} // verus!
