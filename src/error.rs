use vstd::prelude::*;

verus! {

/// Why a generator could not be built or could not issue an identifier.
#[derive(Clone, Copy, Debug, PartialEq, Eq, Structural)]
pub enum SnowflakeError {
    /// The worker id given does not fit `WORKER_ID_BITS` bits.
    InvalidWorkerId(i64),
    /// The datacenter id given does not fit `DATACENTER_ID_BITS` bits.
    InvalidDatacenterId(i64),
    /// No worker id could be derived from the environment.
    WorkerIdUnavailable,
    /// The clock reads earlier than the last timestamp used, which is carried.
    ClockMovedBackwards(i64),
    /// The clock reading, which is carried, lies outside what the timestamp
    /// field can hold.
    ClockOutOfRange(i64),
    /// While every sequence number of the carried millisecond was used, the
    /// clock never moved past it within the polling budget.
    ClockStalled(i64),
}

} // verus!
