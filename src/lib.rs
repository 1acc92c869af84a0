//! Time-ordered 64-bit identifiers in the Snowflake layout: a millisecond
//! timestamp, a datacenter id, a worker id and a per-millisecond sequence
//! packed into one non-negative `i64`.
use vstd::prelude::*;

pub mod clock;
pub mod error;
pub mod generator;
pub mod laws;
pub mod layout;

pub use error::SnowflakeError;
pub use generator::{GeneratorState, SnowFlakeId, Step};
pub use layout::{decode, encode, IdParts};

verus! {

use crate::generator::{transition, worker_id_of_address};
use crate::laws::lemma_step;
use crate::layout::{
    datacenter_id_field, lemma_decode_encode, sequence_field, timestamp_field, timestamp_in_range,
    worker_id_field, MAX_WORKER_ID,
};

/// One identifier from a fresh generator in datacenter 1 whose worker id is
/// taken from the host's outbound IPv4 address (`None`: it could not be
/// found).
pub fn id(address: Option<[u8; 4]>) -> (r: Result<i64, SnowflakeError>)
    ensures
        address is None ==> r == Err::<i64, SnowflakeError>(SnowflakeError::WorkerIdUnavailable),
        address matches Some(a) ==> ({
            let w = worker_id_of_address(a);
            &&& w > MAX_WORKER_ID ==> r == Err::<i64, SnowflakeError>(SnowflakeError::InvalidWorkerId(w as i64))
            &&& w <= MAX_WORKER_ID ==> match r {
                Ok(id) => {
                    &&& id >= 0
                    &&& datacenter_id_field(id) == 1
                    &&& worker_id_field(id) == w
                    &&& sequence_field(id) == 0
                    &&& timestamp_in_range(timestamp_field(id))
                },
                Err(e) => e is ClockMovedBackwards || e is ClockOutOfRange || e is ClockStalled,
            }
        }),
{
    let mut id_gen = match SnowFlakeId::kubernetes(1, address) {
        Ok(g) => g,
        Err(e) => return Err(e),
    };
    let ghost before = id_gen@;
    let r = id_gen.generate_id();
    proof {
        if let Ok(id) = r {
            let now = choose|now: i64| #[trigger] transition(before, now) == (id_gen@, Ok::<Step, SnowflakeError>(Step::Id(id)));
            lemma_step(before, now);
            lemma_decode_encode(
                id_gen@.last_timestamp as int,
                id_gen@.datacenter_id as int,
                id_gen@.worker_id as int,
                id_gen@.sequence as int,
            );
        }
    }
    r
}

} // verus!
