//! What holds of every run of generation steps.
use vstd::prelude::*;
use crate::error::SnowflakeError;
use crate::generator::{after_calls_at, call_outcome, issued, issued_id, run, transition, GeneratorState, Step};
use crate::layout::{
    datacenter_id_field, id_value, lemma_decode_encode, lemma_encode_ordered, timestamp_field,
    timestamp_in_range, worker_id_field, SEQUENCE_MASK,
};

verus! {

/// A step keeps the generator well formed and its (datacenter, worker)
/// pair. A step that issues nothing changes nothing. A step that issues an
/// identifier records it as the last one, and it is greater than the last
/// one issued before.
pub proof fn lemma_step(s: GeneratorState, now: i64)
    requires
        s.wf(),
    ensures
        ({
            let (t, r) = transition(s, now);
            &&& t.wf()
            &&& t.worker_id == s.worker_id
            &&& t.datacenter_id == s.datacenter_id
            &&& !issued(r) ==> t == s
            &&& issued(r) ==> {
                &&& t.has_issued()
                &&& t.last_timestamp == now
                &&& 0 <= t.last_id() <= i64::MAX
                &&& issued_id(r) == t.last_id()
                &&& s.has_issued() ==> t.last_id() > s.last_id()
            }
        }),
{
    let (t, r) = transition(s, now);
    if issued(r) {
        lemma_decode_encode(
            t.last_timestamp as int,
            t.datacenter_id as int,
            t.worker_id as int,
            t.sequence as int,
        );
        if s.has_issued() {
            lemma_encode_ordered(
                s.last_timestamp as int,
                s.sequence as int,
                t.last_timestamp as int,
                t.sequence as int,
                s.datacenter_id as int,
                s.worker_id as int,
            );
        }
    }
}

/// The identifiers issued in a run of steps strictly increase in call
/// order, and all exceed the last identifier issued before the run.
pub proof fn lemma_run_increasing(s: GeneratorState, nows: Seq<i64>)
    requires
        s.wf(),
    ensures
        run(s, nows).len() == nows.len(),
        forall|i: int, j: int|
            0 <= i < j < nows.len() && issued(#[trigger] run(s, nows)[i]) && issued(
                #[trigger] run(s, nows)[j],
            ) ==> issued_id(run(s, nows)[i]) < issued_id(run(s, nows)[j]),
        forall|j: int|
            0 <= j < nows.len() && s.has_issued() && issued(#[trigger] run(s, nows)[j]) ==> issued_id(
                run(s, nows)[j],
            ) > s.last_id(),
    decreases nows.len(),
{
    if nows.len() > 0 {
        let (t, r) = transition(s, nows[0]);
        let rest = nows.subrange(1, nows.len() as int);
        lemma_step(s, nows[0]);
        lemma_run_increasing(t, rest);
        let rs = run(s, nows);
        assert(rs == seq![r] + run(t, rest));
        assert forall|i: int, j: int|
            0 <= i < j < nows.len() && issued(#[trigger] rs[i]) && issued(#[trigger] rs[j]) implies issued_id(
                rs[i],
            ) < issued_id(rs[j]) by {
            assert(rs[j] == run(t, rest)[j - 1]);
            if i > 0 {
                assert(rs[i] == run(t, rest)[i - 1]);
            }
        }
        assert forall|j: int|
            0 <= j < nows.len() && s.has_issued() && issued(#[trigger] rs[j]) implies issued_id(rs[j])
                > s.last_id() by {
            if j > 0 {
                assert(rs[j] == run(t, rest)[j - 1]);
            }
        }
    }
}

/// A generator never issues the same identifier twice.
pub proof fn lemma_run_unique(s: GeneratorState, nows: Seq<i64>)
    requires
        s.wf(),
    ensures
        forall|i: int, j: int|
            0 <= i < nows.len() && 0 <= j < nows.len() && i != j && issued(#[trigger] run(s, nows)[i])
                && issued(#[trigger] run(s, nows)[j]) ==> issued_id(run(s, nows)[i]) != issued_id(
                run(s, nows)[j],
            ),
{
    lemma_run_increasing(s, nows);
    assert forall|i: int, j: int|
        0 <= i < nows.len() && 0 <= j < nows.len() && i != j && issued(#[trigger] run(s, nows)[i])
            && issued(#[trigger] run(s, nows)[j]) implies issued_id(run(s, nows)[i]) != issued_id(
            run(s, nows)[j],
        ) by {
        if i < j {
            assert(issued_id(run(s, nows)[i]) < issued_id(run(s, nows)[j]));
        } else {
            assert(issued_id(run(s, nows)[j]) < issued_id(run(s, nows)[i]));
        }
    }
}

/// Every identifier issued in a run decodes to the generator's datacenter
/// and worker ids, to a sequence number that fits, and to the clock reading
/// of its step.
pub proof fn lemma_run_fields(s: GeneratorState, nows: Seq<i64>)
    requires
        s.wf(),
    ensures
        run(s, nows).len() == nows.len(),
        forall|j: int|
            0 <= j < nows.len() && issued(#[trigger] run(s, nows)[j]) ==> {
                let id = issued_id(run(s, nows)[j]);
                &&& id >= 0
                &&& datacenter_id_field(id) == s.datacenter_id
                &&& worker_id_field(id) == s.worker_id
                &&& timestamp_field(id) == nows[j]
            },
    decreases nows.len(),
{
    if nows.len() > 0 {
        let (t, r) = transition(s, nows[0]);
        let rest = nows.subrange(1, nows.len() as int);
        lemma_step(s, nows[0]);
        lemma_run_fields(t, rest);
        let rs = run(s, nows);
        assert(rs == seq![r] + run(t, rest));
        if issued(r) {
            lemma_decode_encode(
                t.last_timestamp as int,
                t.datacenter_id as int,
                t.worker_id as int,
                t.sequence as int,
            );
        }
        assert forall|j: int| 0 <= j < nows.len() && issued(#[trigger] rs[j]) implies {
            let id = issued_id(rs[j]);
            &&& id >= 0
            &&& datacenter_id_field(id) == s.datacenter_id
            &&& worker_id_field(id) == s.worker_id
            &&& timestamp_field(id) == nows[j]
        } by {
            if j > 0 {
                assert(rs[j] == run(t, rest)[j - 1]);
                assert(rest[j - 1] == nows[j]);
            }
        }
    }
}

/// Two generators with different worker ids never issue the same
/// identifier, whatever clock readings their steps see.
pub proof fn lemma_distinct_workers(s1: GeneratorState, nows1: Seq<i64>, s2: GeneratorState, nows2: Seq<i64>)
    requires
        s1.wf(),
        s2.wf(),
        s1.worker_id != s2.worker_id,
    ensures
        forall|i: int, j: int|
            0 <= i < nows1.len() && 0 <= j < nows2.len() && issued(#[trigger] run(s1, nows1)[i])
                && issued(#[trigger] run(s2, nows2)[j]) ==> issued_id(run(s1, nows1)[i]) != issued_id(
                run(s2, nows2)[j],
            ),
{
    lemma_run_fields(s1, nows1);
    lemma_run_fields(s2, nows2);
}

/// After an identifier is issued at clock reading `t`, a step at `t - 1`
/// fails with `ClockMovedBackwards(t)` and leaves the last timestamp at `t`.
pub proof fn lemma_clock_rollback(s: GeneratorState, t: i64)
    requires
        s.wf(),
        issued(transition(s, t).1),
    ensures
        ({
            let u = transition(s, t).0;
            &&& u.last_timestamp == t
            &&& transition(u, (t - 1) as i64) == (u, Err::<Step, SnowflakeError>(
                SnowflakeError::ClockMovedBackwards(t),
            ))
        }),
{
    lemma_step(s, t);
}

/// Within one millisecond `t` later than the last timestamp, the calls
/// issue sequence numbers 0 to `SEQUENCE_MASK` in order; the next call at
/// `t` waits for a later reading, and a call at any later reading that fits
/// issues sequence 0 there.
pub proof fn lemma_sequence_rollover(s: GeneratorState, t: i64)
    requires
        s.wf(),
        s.last_timestamp < t,
        timestamp_in_range(t as int),
    ensures
        forall|k: int|
            0 <= k <= SEQUENCE_MASK ==> transition(#[trigger] after_calls_at(s, t, k), t) == (
            after_calls_at(s, t, k + 1),
            Ok::<Step, SnowflakeError>(
                Step::Id(id_value(t as int, s.datacenter_id as int, s.worker_id as int, k) as i64),
            ),
        ),
        ({
            let full = after_calls_at(s, t, SEQUENCE_MASK + 1);
            &&& full.last_timestamp == t
            &&& full.sequence == SEQUENCE_MASK
            &&& transition(full, t) == (full, Ok::<Step, SnowflakeError>(Step::WaitPast(t)))
        }),
        forall|t2: i64|
            t < t2 && timestamp_in_range(t2 as int) ==> #[trigger] transition(
                after_calls_at(s, t, SEQUENCE_MASK + 1),
                t2,
            ) == (
                after_calls_at(s, t, SEQUENCE_MASK + 1).with_last(t2, 0),
                Ok::<Step, SnowflakeError>(
                    Step::Id(id_value(t2 as int, s.datacenter_id as int, s.worker_id as int, 0) as i64),
                ),
            ),
{
}

proof fn lemma_history_from(
    states: Seq<GeneratorState>,
    results: Seq<Result<i64, SnowflakeError>>,
    i: int,
    j: int,
)
    requires
        states.len() == results.len() + 1,
        forall|k: int| 0 <= k < results.len() ==> call_outcome(states[k], states[k + 1], #[trigger] results[k]),
        0 <= i < j <= results.len(),
        results[i] is Ok,
    ensures
        states[j].has_issued(),
        states[j].last_id() >= results[i]->Ok_0,
    decreases j - i,
{
    if j > i + 1 {
        lemma_history_from(states, results, i, j - 1);
        assert(call_outcome(states[j - 1], states[j], results[j - 1]));
    } else {
        assert(call_outcome(states[i], states[i + 1], results[i]));
    }
}

/// Over any history of `generate_id` calls on one generator, failed calls
/// included, the identifiers issued strictly increase in call order, so no
/// two of them are equal.
pub proof fn lemma_history_increasing(states: Seq<GeneratorState>, results: Seq<Result<i64, SnowflakeError>>)
    requires
        states.len() == results.len() + 1,
        forall|k: int| 0 <= k < results.len() ==> call_outcome(states[k], states[k + 1], #[trigger] results[k]),
    ensures
        forall|i: int, j: int|
            0 <= i < j < results.len() && #[trigger] results[i] is Ok && #[trigger] results[j] is Ok
                ==> results[i]->Ok_0 < results[j]->Ok_0,
        forall|i: int, j: int|
            0 <= i < results.len() && 0 <= j < results.len() && i != j && #[trigger] results[i] is Ok
                && #[trigger] results[j] is Ok ==> results[i]->Ok_0 != results[j]->Ok_0,
{
    assert forall|i: int, j: int|
        0 <= i < j < results.len() && #[trigger] results[i] is Ok && #[trigger] results[j] is Ok
            implies results[i]->Ok_0 < results[j]->Ok_0 by {
        lemma_history_from(states, results, i, j);
        assert(call_outcome(states[j], states[j + 1], results[j]));
    }
    assert forall|i: int, j: int|
        0 <= i < results.len() && 0 <= j < results.len() && i != j && #[trigger] results[i] is Ok
            && #[trigger] results[j] is Ok implies results[i]->Ok_0 != results[j]->Ok_0 by {
        if i < j {
            assert(results[i]->Ok_0 < results[j]->Ok_0);
        } else {
            assert(results[j]->Ok_0 < results[i]->Ok_0);
        }
    }
}

} // verus!
