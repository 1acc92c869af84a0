use snowflake_multi_threaded::layout::{EPOCH_MILLIS, SEQUENCE_MASK, TIMESTAMP_SPAN};
use snowflake_multi_threaded::{decode, encode, id, GeneratorState, SnowFlakeId, SnowflakeError, Step};

const T: i64 = 1_700_000_000_000;

fn issue(g: &mut SnowFlakeId, now: i64) -> i64 {
    match g.generate_id_at(now) {
        Ok(Step::Id(id)) => id,
        other => panic!("expected an id at {}, got {:?}", now, other),
    }
}

#[test]
fn loop_test() {
    let mut id_gen = SnowFlakeId::new(2, 2).unwrap();
    println!("{:?}", &id_gen);
    for _ in 1..1000 {
        let t = &mut id_gen;
        assert!(t.generate_id().is_ok());
    }
}

#[test]
fn same_millisecond_scenario() {
    let mut g = SnowFlakeId::new(2, 2).unwrap();
    for expected_sequence in 0..3 {
        let parts = decode(issue(&mut g, T));
        assert_eq!(parts.sequence, expected_sequence);
        assert_eq!(parts.timestamp, T);
        assert_eq!(parts.datacenter_id, 2);
        assert_eq!(parts.worker_id, 2);
    }
}

#[test]
fn sequence_rollover_waits_for_next_millisecond() {
    let mut g = SnowFlakeId::new(1, 1).unwrap();
    for expected_sequence in 0..4096 {
        let parts = decode(issue(&mut g, T));
        assert_eq!(parts.sequence, expected_sequence);
        assert_eq!(parts.timestamp, T);
    }
    assert_eq!(g.generate_id_at(T), Ok(Step::WaitPast(T)));
    assert_eq!(g.state().sequence, SEQUENCE_MASK);
    let parts = decode(issue(&mut g, T + 1));
    assert_eq!(parts.sequence, 0);
    assert!(parts.timestamp > T);
}

#[test]
fn clock_rollback_fails_and_keeps_state() {
    let mut g = SnowFlakeId::new(3, 4).unwrap();
    issue(&mut g, T);
    let before = g.state();
    assert_eq!(g.generate_id_at(T - 1), Err(SnowflakeError::ClockMovedBackwards(T)));
    assert_eq!(g.state(), before);
    assert_eq!(g.state().last_timestamp, T);
    let parts = decode(issue(&mut g, T));
    assert_eq!(parts.sequence, 1);
}

#[test]
fn ids_strictly_increase_with_mocked_clock() {
    let mut g = SnowFlakeId::new(7, 9).unwrap();
    let nows = [T, T, T + 1, T + 1, T + 1, T + 5, T + 5];
    let mut last: i64 = -1;
    for now in nows {
        let id = issue(&mut g, now);
        assert!(id > last);
        last = id;
    }
}

#[test]
fn ids_strictly_increase_with_wall_clock() {
    let mut g = SnowFlakeId::new(0, 0).unwrap();
    let mut last = g.generate_id().unwrap();
    for _ in 0..20000 {
        let next = g.generate_id().unwrap();
        assert!(next > last);
        last = next;
    }
}

#[test]
fn wall_clock_timestamp_is_current() {
    let before = std::time::SystemTime::now()
        .duration_since(std::time::UNIX_EPOCH)
        .unwrap()
        .as_millis() as i64;
    let mut g = SnowFlakeId::new(5, 6).unwrap();
    let parts = decode(g.generate_id().unwrap());
    let after = std::time::SystemTime::now()
        .duration_since(std::time::UNIX_EPOCH)
        .unwrap()
        .as_millis() as i64;
    assert!(before <= parts.timestamp && parts.timestamp <= after);
    assert_eq!(parts.worker_id, 5);
    assert_eq!(parts.datacenter_id, 6);
}

#[test]
fn distinct_workers_never_collide() {
    let mut a = SnowFlakeId::new(1, 3).unwrap();
    let mut b = SnowFlakeId::new(2, 3).unwrap();
    let mut from_a = Vec::new();
    let mut from_b = Vec::new();
    for k in 0..100 {
        let now = T + k / 10;
        from_a.push(issue(&mut a, now));
        from_b.push(issue(&mut b, now));
    }
    for x in &from_a {
        assert!(!from_b.contains(x));
    }
}

#[test]
fn decode_recovers_construction_ids() {
    for (w, d) in [(0, 0), (31, 31), (17, 4)] {
        let mut g = SnowFlakeId::new(w, d).unwrap();
        let parts = decode(g.generate_id().unwrap());
        assert_eq!(parts.worker_id, w);
        assert_eq!(parts.datacenter_id, d);
    }
}

#[test]
fn encode_exact_values() {
    assert_eq!(encode(EPOCH_MILLIS + 1, 1, 1, 1), 4_194_304 + 131_072 + 4_096 + 1);
    assert_eq!(encode(EPOCH_MILLIS, 0, 0, 0), 0);
    assert_eq!(encode(EPOCH_MILLIS + TIMESTAMP_SPAN - 1, 31, 31, 4095), i64::MAX);
    let parts = decode(encode(T, 21, 9, 300));
    assert_eq!((parts.timestamp, parts.datacenter_id, parts.worker_id, parts.sequence), (T, 21, 9, 300));
}

#[test]
fn new_rejects_ids_out_of_width() {
    assert_eq!(SnowFlakeId::new(32, 0).unwrap_err(), SnowflakeError::InvalidWorkerId(32));
    assert_eq!(SnowFlakeId::new(-1, 0).unwrap_err(), SnowflakeError::InvalidWorkerId(-1));
    assert_eq!(SnowFlakeId::new(0, 32).unwrap_err(), SnowflakeError::InvalidDatacenterId(32));
    assert_eq!(SnowFlakeId::new(0, -5).unwrap_err(), SnowflakeError::InvalidDatacenterId(-5));
    let g = SnowFlakeId::new(31, 31).unwrap();
    assert_eq!(
        g.state(),
        GeneratorState { worker_id: 31, datacenter_id: 31, sequence: 0, last_timestamp: 0 }
    );
}

#[test]
fn clock_out_of_range_is_rejected() {
    let mut g = SnowFlakeId::new(1, 1).unwrap();
    assert_eq!(g.generate_id_at(0), Err(SnowflakeError::ClockOutOfRange(0)));
    assert_eq!(g.generate_id_at(EPOCH_MILLIS - 1), Err(SnowflakeError::ClockOutOfRange(EPOCH_MILLIS - 1)));
    let too_late = EPOCH_MILLIS + TIMESTAMP_SPAN;
    assert_eq!(g.generate_id_at(too_late), Err(SnowflakeError::ClockOutOfRange(too_late)));
    assert_eq!(g.state().last_timestamp, 0);
    assert_eq!(issue(&mut g, EPOCH_MILLIS), 131_072 + 4_096);
}

#[test]
fn kubernetes_takes_worker_from_address() {
    let g = SnowFlakeId::kubernetes(3, Some([10, 0, 0, 5])).unwrap();
    assert_eq!(g.state().worker_id, 5);
    assert_eq!(g.state().datacenter_id, 3);
    assert_eq!(
        SnowFlakeId::kubernetes(3, Some([10, 0, 1, 5])).unwrap_err(),
        SnowflakeError::InvalidWorkerId(261)
    );
    assert_eq!(SnowFlakeId::kubernetes(3, None).unwrap_err(), SnowflakeError::WorkerIdUnavailable);
    assert_eq!(
        SnowFlakeId::kubernetes(40, Some([10, 0, 0, 5])).unwrap_err(),
        SnowflakeError::InvalidDatacenterId(40)
    );
}

#[test]
fn id_from_address() {
    let parts = decode(id(Some([192, 168, 0, 7])).unwrap());
    assert_eq!(parts.worker_id, 7);
    assert_eq!(parts.datacenter_id, 1);
    assert_eq!(id(None), Err(SnowflakeError::WorkerIdUnavailable));
}

#[test]
fn default_generator_is_worker_one_of_datacenter_one() {
    let g = SnowFlakeId::default();
    assert_eq!(
        g.state(),
        GeneratorState { worker_id: 1, datacenter_id: 1, sequence: 0, last_timestamp: 0 }
    );
}

#[test]
fn issue_from_reading_follows_the_reading() {
    let mut g = SnowFlakeId::new(2, 2).unwrap();
    for expected_sequence in 0..3 {
        let parts = decode(g.issue_from_reading(T).unwrap());
        assert_eq!((parts.timestamp, parts.datacenter_id, parts.worker_id), (T, 2, 2));
        assert_eq!(parts.sequence, expected_sequence);
    }
    assert_eq!(g.issue_from_reading(T - 1), Err(SnowflakeError::ClockMovedBackwards(T)));
    assert_eq!(g.state().last_timestamp, T);
    assert_eq!(g.issue_from_reading(T + 3), Ok(encode(T + 3, 2, 2, 0)));
}

#[test]
fn issue_from_reading_waits_after_rollover() {
    let mut g = SnowFlakeId::new(4, 8).unwrap();
    for expected_sequence in 0..4096 {
        assert_eq!(g.issue_from_reading(T), Ok(encode(T, 8, 4, expected_sequence)));
    }
    let parts = decode(g.issue_from_reading(T).unwrap());
    assert!(parts.timestamp > T);
    assert_eq!(parts.sequence, 0);
    assert_eq!(g.state().last_timestamp, parts.timestamp);
}

#[test]
fn later_reading_values() {
    assert_eq!(snowflake_multi_threaded::clock::later_reading(5, 4), Some(5));
    assert_eq!(snowflake_multi_threaded::clock::later_reading(4, 4), None);
    assert_eq!(snowflake_multi_threaded::clock::later_reading(3, 4), None);
}

#[test]
fn first_id_has_sequence_zero() {
    let parts = decode(id(Some([10, 1, 0, 3])).unwrap());
    assert_eq!(parts.sequence, 0);
    assert_eq!(parts.worker_id, 3);
}
