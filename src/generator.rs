//! The generator: a (datacenter, worker) pair with the last timestamp used
//! and the sequence number issued in it. `&mut self` on every mutating
//! method makes the whole (timestamp, sequence) pair single-owner state; to
//! share a generator between threads, put the whole generator behind one lock.
use vstd::prelude::*;
use crate::clock::{curr_time, til_next_millis};
use crate::error::SnowflakeError;
use crate::laws::lemma_step;
use crate::layout::{
    encode, id_value, timestamp_in_range, EPOCH_MILLIS, MAX_DATACENTER_ID,
    MAX_WORKER_ID, SEQUENCE_MASK, TIMESTAMP_SPAN,
};

verus! {

/// What a generator holds, as plain values.
#[derive(Clone, Copy, Debug, PartialEq, Eq, Structural)]
pub struct GeneratorState {
    pub worker_id: i64,
    pub datacenter_id: i64,
    /// The sequence number last issued in `last_timestamp`.
    pub sequence: i64,
    /// Milliseconds since the Unix epoch of the last identifier issued; 0
    /// before the first.
    pub last_timestamp: i64,
}

impl GeneratorState {
    pub open spec fn wf(self) -> bool {
        &&& 0 <= self.worker_id <= MAX_WORKER_ID
        &&& 0 <= self.datacenter_id <= MAX_DATACENTER_ID
        &&& 0 <= self.sequence <= SEQUENCE_MASK
    }

    /// Whether the state records an identifier issued.
    pub open spec fn has_issued(self) -> bool {
        timestamp_in_range(self.last_timestamp as int)
    }

    /// The identifier of the last timestamp and sequence.
    pub open spec fn last_id(self) -> int {
        id_value(
            self.last_timestamp as int,
            self.datacenter_id as int,
            self.worker_id as int,
            self.sequence as int,
        )
    }

    /// The state with `timestamp` and `sequence` as the last ones used.
    pub open spec fn with_last(self, timestamp: i64, sequence: i64) -> GeneratorState {
        GeneratorState { sequence, last_timestamp: timestamp, ..self }
    }
}

/// What a generation step at one clock reading came to, short of an error.
#[derive(Clone, Copy, Debug, PartialEq, Eq, Structural)]
pub enum Step {
    /// An identifier was issued.
    Id(i64),
    /// Every sequence number of the carried millisecond is used: try again
    /// with a clock reading later than it.
    WaitPast(i64),
}

/// One generation step from `s` at clock reading `now`: the next state and
/// what the step returns.
pub open spec fn transition(s: GeneratorState, now: i64) -> (GeneratorState, Result<Step, SnowflakeError>) {
    if now < s.last_timestamp {
        (s, Err(SnowflakeError::ClockMovedBackwards(s.last_timestamp)))
    } else if !timestamp_in_range(now as int) {
        (s, Err(SnowflakeError::ClockOutOfRange(now)))
    } else if now == s.last_timestamp && s.sequence == SEQUENCE_MASK {
        (s, Ok(Step::WaitPast(s.last_timestamp)))
    } else {
        let sequence = if now == s.last_timestamp { (s.sequence + 1) as i64 } else { 0i64 };
        let t = s.with_last(now, sequence);
        (t, Ok(Step::Id(t.last_id() as i64)))
    }
}

/// Whether a step result issued an identifier.
pub open spec fn issued(r: Result<Step, SnowflakeError>) -> bool {
    r matches Ok(Step::Id(_))
}

/// The identifier that a step result issued.
pub open spec fn issued_id(r: Result<Step, SnowflakeError>) -> i64 {
    match r {
        Ok(Step::Id(id)) => id,
        _ => 0,
    }
}

/// The results of steps at the clock readings `nows`, in order, from `s`.
pub open spec fn run(s: GeneratorState, nows: Seq<i64>) -> Seq<Result<Step, SnowflakeError>>
    decreases nows.len(),
{
    if nows.len() == 0 {
        Seq::empty()
    } else {
        let (t, r) = transition(s, nows[0]);
        seq![r] + run(t, nows.subrange(1, nows.len() as int))
    }
}

/// The state after `k` steps at clock reading `t` from a state whose last
/// timestamp is earlier than `t`, for `k` up to `2^SEQUENCE_BITS`.
pub open spec fn after_calls_at(s: GeneratorState, t: i64, k: int) -> GeneratorState {
    if k == 0 {
        s
    } else {
        s.with_last(t, (k - 1) as i64)
    }
}

/// What a call of `generate_id` comes to, whatever the clock read: the
/// (datacenter, worker) pair is kept and the last timestamp never goes back.
/// An identifier issued is recorded as the last one and is greater than the
/// last one issued before; an error changes nothing.
pub open spec fn call_outcome(before: GeneratorState, after: GeneratorState, r: Result<i64, SnowflakeError>) -> bool {
    &&& after.wf()
    &&& after.worker_id == before.worker_id
    &&& after.datacenter_id == before.datacenter_id
    &&& after.last_timestamp >= before.last_timestamp
    &&& match r {
        Ok(id) => {
            &&& after.has_issued()
            &&& id == after.last_id()
            &&& before.has_issued() ==> id > before.last_id()
        },
        Err(_) => after == before,
    }
}

/// A generator of identifiers for one (datacenter, worker) pair.
#[derive(Debug)]
pub struct SnowFlakeId {
    worker_id: i64,
    datacenter_id: i64,
    sequence: i64,
    last_timestamp: i64,
}

impl View for SnowFlakeId {
    type V = GeneratorState;

    closed spec fn view(&self) -> GeneratorState {
        GeneratorState {
            worker_id: self.worker_id,
            datacenter_id: self.datacenter_id,
            sequence: self.sequence,
            last_timestamp: self.last_timestamp,
        }
    }
}

impl Default for SnowFlakeId {
    /// The generator of worker 1 in datacenter 1.
    fn default() -> (r: Self)
        ensures
            r@ == (GeneratorState { worker_id: 1, datacenter_id: 1, sequence: 0, last_timestamp: 0 }),
    {
        SnowFlakeId { worker_id: 1, datacenter_id: 1, sequence: 0, last_timestamp: 0 }
    }
}

/// The worker id taken from a host's IPv4 address: its low 16 bits, the
/// third octet shifted left by 8 and or-ed with the fourth.
pub open spec fn worker_id_of_address(address: [u8; 4]) -> int {
    address@[2] * 256 + address@[3]
}

impl SnowFlakeId {
    /// A generator of `worker_id` in `datacenter_id`, with no identifier
    /// issued yet.
    pub fn new(worker_id: i64, datacenter_id: i64) -> (r: Result<SnowFlakeId, SnowflakeError>)
        ensures
            !(0 <= worker_id <= MAX_WORKER_ID) ==> r == Err::<SnowFlakeId, SnowflakeError>(
                SnowflakeError::InvalidWorkerId(worker_id),
            ),
            0 <= worker_id <= MAX_WORKER_ID && !(0 <= datacenter_id <= MAX_DATACENTER_ID) ==> r
                == Err::<SnowFlakeId, SnowflakeError>(SnowflakeError::InvalidDatacenterId(datacenter_id)),
            0 <= worker_id <= MAX_WORKER_ID && 0 <= datacenter_id <= MAX_DATACENTER_ID ==> (r matches Ok(g)
                && g@ == (GeneratorState { worker_id, datacenter_id, sequence: 0, last_timestamp: 0 })),
    {
        if worker_id < 0 || worker_id > MAX_WORKER_ID {
            return Err(SnowflakeError::InvalidWorkerId(worker_id));
        }
        if datacenter_id < 0 || datacenter_id > MAX_DATACENTER_ID {
            return Err(SnowflakeError::InvalidDatacenterId(datacenter_id));
        }
        Ok(SnowFlakeId { worker_id, datacenter_id, ..Default::default() })
    }

    /// A generator in `datacenter_id` whose worker id is taken from the host's
    /// outbound IPv4 address; `None` when that address could not be found.
    pub fn kubernetes(datacenter_id: i64, address: Option<[u8; 4]>) -> (r: Result<SnowFlakeId, SnowflakeError>)
        ensures
            address is None ==> r == Err::<SnowFlakeId, SnowflakeError>(SnowflakeError::WorkerIdUnavailable),
            address matches Some(a) ==> ({
                let w = worker_id_of_address(a);
                &&& w > MAX_WORKER_ID ==> r == Err::<SnowFlakeId, SnowflakeError>(
                    SnowflakeError::InvalidWorkerId(w as i64),
                )
                &&& w <= MAX_WORKER_ID && !(0 <= datacenter_id <= MAX_DATACENTER_ID) ==> r
                    == Err::<SnowFlakeId, SnowflakeError>(SnowflakeError::InvalidDatacenterId(datacenter_id))
                &&& w <= MAX_WORKER_ID && 0 <= datacenter_id <= MAX_DATACENTER_ID ==> (r matches Ok(g)
                    && g@ == (GeneratorState { worker_id: w as i64, datacenter_id, sequence: 0, last_timestamp: 0 }))
            }),
    {
        match address {
            None => Err(SnowflakeError::WorkerIdUnavailable),
            Some(a) => {
                let worker_id: i64 = (a[2] as i64) * 256 + a[3] as i64;
                SnowFlakeId::new(worker_id, datacenter_id)
            },
        }
    }

    /// The generator's state as plain values.
    pub fn state(&self) -> (r: GeneratorState)
        ensures
            r == self@,
    {
        GeneratorState {
            worker_id: self.worker_id,
            datacenter_id: self.datacenter_id,
            sequence: self.sequence,
            last_timestamp: self.last_timestamp,
        }
    }

    /// One generation step at clock reading `now`. A reading earlier than the
    /// last timestamp, or one the timestamp field cannot hold, is an error and
    /// changes nothing. In the last millisecond the sequence goes up by one;
    /// when all of it is used, the step asks for a later reading and changes
    /// nothing. In a later millisecond the sequence starts again at 0.
    pub fn generate_id_at(&mut self, now: i64) -> (r: Result<Step, SnowflakeError>)
        requires
            old(self)@.wf(),
        ensures
            (final(self)@, r) == transition(old(self)@, now),
            final(self)@.wf(),
    {
        if now < self.last_timestamp {
            return Err(SnowflakeError::ClockMovedBackwards(self.last_timestamp));
        }
        if now < EPOCH_MILLIS || now - EPOCH_MILLIS >= TIMESTAMP_SPAN {
            return Err(SnowflakeError::ClockOutOfRange(now));
        }
        if now == self.last_timestamp {
            if self.sequence == SEQUENCE_MASK {
                return Ok(Step::WaitPast(self.last_timestamp));
            }
            self.sequence = self.sequence + 1;
        } else {
            self.sequence = 0;
        }
        self.last_timestamp = now;
        Ok(Step::Id(encode(now, self.datacenter_id, self.worker_id, self.sequence)))
    }

    /// Issues the next identifier at the current time. When every sequence
    /// number of the last millisecond is used, it polls the clock until it
    /// moves past that millisecond. Whatever the clock reads, the result is
    /// that of a step at some reading, and an error changes nothing.
    pub fn generate_id(&mut self) -> (r: Result<i64, SnowflakeError>)
        requires
            old(self)@.wf(),
        ensures
            final(self)@.wf(),
            r matches Ok(id) ==> exists|now: i64|
                #[trigger] transition(old(self)@, now) == (final(self)@, Ok::<Step, SnowflakeError>(Step::Id(id))),
            call_outcome(old(self)@, final(self)@, r),
            r matches Err(e) ==> (e is ClockStalled || exists|now: i64|
                #[trigger] transition(old(self)@, now) == (old(self)@, Err::<Step, SnowflakeError>(e))),
            r matches Err(SnowflakeError::ClockStalled(l)) ==> l == old(self)@.last_timestamp
                && old(self)@.sequence == SEQUENCE_MASK,
    {
        let ghost before = self@;
        let now = curr_time();
        let r = self.issue_from_reading(now);
        proof {
            if let Ok(id) = r {
                let n = choose|n: i64| #[trigger] transition(before, n) == (self@, Ok::<Step, SnowflakeError>(Step::Id(id)));
                lemma_step(before, n);
            } else {
                lemma_step(before, now);
            }
        }
        r
    }

    /// A step at clock reading `now`, with its id or error; when the
    /// millisecond of `now` is used up, waits for a later reading and issues
    /// sequence 0 there.
    pub fn issue_from_reading(&mut self, now: i64) -> (r: Result<i64, SnowflakeError>)
        requires
            old(self)@.wf(),
        ensures
            final(self)@.wf(),
            transition(old(self)@, now).1 matches Ok(Step::Id(id)) ==> r == Ok::<i64, SnowflakeError>(id)
                && final(self)@ == transition(old(self)@, now).0,
            transition(old(self)@, now).1 matches Err(e) ==> r == Err::<i64, SnowflakeError>(e)
                && final(self)@ == old(self)@,
            transition(old(self)@, now).1 matches Ok(Step::WaitPast(l)) ==> {
                &&& l == old(self)@.last_timestamp
                &&& r matches Ok(id) ==> {
                    &&& final(self)@ == old(self)@.with_last(final(self)@.last_timestamp, 0)
                    &&& final(self)@.last_timestamp > l
                    &&& final(self)@.has_issued()
                    &&& id == final(self)@.last_id()
                    &&& transition(old(self)@, final(self)@.last_timestamp)
                        == (final(self)@, Ok::<Step, SnowflakeError>(Step::Id(id)))
                }
                &&& r matches Err(e) ==> final(self)@ == old(self)@ && (e == SnowflakeError::ClockStalled(l)
                    || (e is ClockOutOfRange && exists|t: i64|
                    #[trigger] transition(old(self)@, t) == (old(self)@, Err::<Step, SnowflakeError>(e))))
            },
    {
        match self.generate_id_at(now) {
            Ok(Step::Id(id)) => Ok(id),
            Ok(Step::WaitPast(last)) => match til_next_millis(last) {
                None => Err(SnowflakeError::ClockStalled(last)),
                Some(later) => match self.generate_id_at(later) {
                    Ok(Step::Id(id)) => Ok(id),
                    Ok(Step::WaitPast(l)) => {
                        proof {
                            assert(false);
                        }
                        Err(SnowflakeError::ClockStalled(l))
                    },
                    Err(e) => Err(e),
                },
            },
            Err(e) => Err(e),
        }
    }
}

} // verus!
