//! The fixed bit layout of an identifier, from the most significant bit down:
//! one sign bit (always zero), 41 bits of milliseconds since `EPOCH_MILLIS`,
//! 5 bits of datacenter id, 5 bits of worker id and 12 bits of sequence.
use vstd::prelude::*;

verus! {

/// The reference instant of the timestamp field, in milliseconds since the
/// Unix epoch (2018-01-01T00:00:00+08:00).
pub const EPOCH_MILLIS: i64 = 1514736000000;

pub const WORKER_ID_BITS: u64 = 5;

pub const DATACENTER_ID_BITS: u64 = 5;

pub const SEQUENCE_BITS: u64 = 12;

pub const TIMESTAMP_BITS: u64 = 41;

pub const WORKER_ID_SHIFT: u64 = SEQUENCE_BITS;

pub const DATACENTER_ID_SHIFT: u64 = WORKER_ID_BITS + SEQUENCE_BITS;

pub const TIMESTAMP_SHIFT: u64 = DATACENTER_ID_BITS + WORKER_ID_BITS + SEQUENCE_BITS;

/// The largest worker id, `2^WORKER_ID_BITS - 1`.
pub const MAX_WORKER_ID: i64 = 31;

/// The largest datacenter id, `2^DATACENTER_ID_BITS - 1`.
pub const MAX_DATACENTER_ID: i64 = 31;

/// `2^SEQUENCE_BITS - 1`: the largest sequence number and the mask of the
/// sequence field.
pub const SEQUENCE_MASK: i64 = 4095;

/// `2^TIMESTAMP_BITS`: the number of milliseconds the timestamp field can hold.
pub const TIMESTAMP_SPAN: i64 = 2199023255552;

/// A clock reading that the timestamp field can hold.
pub open spec fn timestamp_in_range(timestamp: int) -> bool {
    EPOCH_MILLIS <= timestamp < EPOCH_MILLIS + TIMESTAMP_SPAN
}

/// All four fields fit their widths.
pub open spec fn fields_fit(timestamp: int, datacenter_id: int, worker_id: int, sequence: int) -> bool {
    &&& timestamp_in_range(timestamp)
    &&& 0 <= datacenter_id <= MAX_DATACENTER_ID
    &&& 0 <= worker_id <= MAX_WORKER_ID
    &&& 0 <= sequence <= SEQUENCE_MASK
}

/// The identifier of the four fields, as an integer:
/// `(timestamp - EPOCH_MILLIS) << 22 | datacenter_id << 17 | worker_id << 12 | sequence`,
/// written with the products that the shifts amount to on fields that fit.
pub open spec fn id_value(timestamp: int, datacenter_id: int, worker_id: int, sequence: int) -> int {
    (timestamp - EPOCH_MILLIS) * 0x40_0000 + datacenter_id * 0x2_0000 + worker_id * 0x1000 + sequence
}

/// The timestamp field of an identifier, in milliseconds since the Unix epoch.
pub open spec fn timestamp_field(id: i64) -> int {
    (id >> 22u64) + EPOCH_MILLIS
}

pub open spec fn datacenter_id_field(id: i64) -> i64 {
    (id >> 17u64) & 31i64
}

pub open spec fn worker_id_field(id: i64) -> i64 {
    (id >> 12u64) & 31i64
}

pub open spec fn sequence_field(id: i64) -> i64 {
    id & 4095i64
}

/// The four fields of an identifier.
#[derive(Clone, Copy, Debug, PartialEq, Eq, Structural)]
pub struct IdParts {
    /// Milliseconds since the Unix epoch.
    pub timestamp: i64,
    pub datacenter_id: i64,
    pub worker_id: i64,
    pub sequence: i64,
}

proof fn lemma_fields_of_value(x: i64, t: i64, d: i64, w: i64, s: i64)
    by (bit_vector)
    requires
        0 <= t < 0x200_0000_0000,
        0 <= d < 32,
        0 <= w < 32,
        0 <= s < 4096,
        x == t * 0x40_0000 + d * 0x2_0000 + w * 0x1000 + s,
    ensures
        x >> 22u64 == t,
        (x >> 17u64) & 31i64 == d,
        (x >> 12u64) & 31i64 == w,
        x & 4095i64 == s,
{
}

/// Packing the fields of an identifier and reading them back gives the
/// same fields.
pub proof fn lemma_decode_encode(timestamp: int, datacenter_id: int, worker_id: int, sequence: int)
    requires
        fields_fit(timestamp, datacenter_id, worker_id, sequence),
    ensures
        0 <= id_value(timestamp, datacenter_id, worker_id, sequence) <= i64::MAX,
        ({
            let id = id_value(timestamp, datacenter_id, worker_id, sequence) as i64;
            &&& timestamp_field(id) == timestamp
            &&& datacenter_id_field(id) == datacenter_id
            &&& worker_id_field(id) == worker_id
            &&& sequence_field(id) == sequence
        }),
{
    let x = id_value(timestamp, datacenter_id, worker_id, sequence);
    assert(0 <= x <= i64::MAX);
    lemma_fields_of_value(
        x as i64,
        (timestamp - EPOCH_MILLIS) as i64,
        datacenter_id as i64,
        worker_id as i64,
        sequence as i64,
    );
}

/// Two identifiers made of fields that fit are equal only when all their
/// fields are.
pub proof fn lemma_encode_injective(
    t1: int, d1: int, w1: int, s1: int,
    t2: int, d2: int, w2: int, s2: int,
)
    requires
        fields_fit(t1, d1, w1, s1),
        fields_fit(t2, d2, w2, s2),
        id_value(t1, d1, w1, s1) == id_value(t2, d2, w2, s2),
    ensures
        t1 == t2,
        d1 == d2,
        w1 == w2,
        s1 == s2,
{
    lemma_decode_encode(t1, d1, w1, s1);
    lemma_decode_encode(t2, d2, w2, s2);
}

/// Identifiers of one datacenter and worker order as their
/// (timestamp, sequence) pairs do.
pub proof fn lemma_encode_ordered(t1: int, s1: int, t2: int, s2: int, datacenter_id: int, worker_id: int)
    requires
        fields_fit(t1, datacenter_id, worker_id, s1),
        fields_fit(t2, datacenter_id, worker_id, s2),
        t1 < t2 || (t1 == t2 && s1 < s2),
    ensures
        id_value(t1, datacenter_id, worker_id, s1) < id_value(t2, datacenter_id, worker_id, s2),
{
}

/// Packs the four fields into an identifier.
pub fn encode(timestamp: i64, datacenter_id: i64, worker_id: i64, sequence: i64) -> (r: i64)
    requires
        fields_fit(timestamp as int, datacenter_id as int, worker_id as int, sequence as int),
    ensures
        r == id_value(timestamp as int, datacenter_id as int, worker_id as int, sequence as int),
        r >= 0,
        timestamp_field(r) == timestamp,
        datacenter_id_field(r) == datacenter_id,
        worker_id_field(r) == worker_id,
        sequence_field(r) == sequence,
{
    proof {
        lemma_decode_encode(timestamp as int, datacenter_id as int, worker_id as int, sequence as int);
    }
    (timestamp - EPOCH_MILLIS) * 0x40_0000 + datacenter_id * 0x2_0000 + worker_id * 0x1000 + sequence
}

/// Reads the four fields out of an identifier with the layout's shifts and
/// masks.
pub fn decode(id: i64) -> (r: IdParts)
    ensures
        r.timestamp == timestamp_field(id),
        r.datacenter_id == datacenter_id_field(id),
        r.worker_id == worker_id_field(id),
        r.sequence == sequence_field(id),
{
    let offset = id >> 22u64;
    assert(-0x200_0000_0000 <= offset < 0x200_0000_0000) by (bit_vector)
        requires
            offset == id >> 22u64,
    ;
    IdParts {
        timestamp: offset + EPOCH_MILLIS,
        datacenter_id: (id >> 17u64) & 31i64,
        worker_id: (id >> 12u64) & 31i64,
        sequence: id & 4095i64,
    }
}

} // verus!
