use snowsched::snowflake::IdError;
use snowsched::snowflake::Snowflake;
use snowsched::snowflake::CUSTOM_EPOCH;
use snowsched::snowflake::DATACENTER_ID_SHIFT;
use snowsched::snowflake::MAX_DATACENTER_ID;
use snowsched::snowflake::MAX_WORKER_ID;
use snowsched::snowflake::SEQUENCE_MASK;
use snowsched::snowflake::TIMESTAMP_SHIFT;
use snowsched::snowflake::WORKER_ID_SHIFT;
use std::collections::HashSet;

#[test]
fn test_new_with_valid_ids() {
    let generator = Snowflake::new(0, 0).unwrap();
    assert_eq!(generator.worker_id, 0);
    assert_eq!(generator.datacenter_id, 0);

    let generator = Snowflake::new(31, 31).unwrap();
    assert_eq!(generator.worker_id, 31);
    assert_eq!(generator.datacenter_id, 31);
}

#[test]
fn test_new_with_invalid_worker_id() {
    let result = Snowflake::new(32, 0);
    assert!(matches!(result, Err(IdError::ConfigError)));
}

#[test]
fn test_new_with_invalid_datacenter_id() {
    let result = Snowflake::new(0, 32);
    assert!(matches!(result, Err(IdError::ConfigError)));
}

#[test]
fn test_id_deconstruction() {
    let worker_id = 5;
    let datacenter_id = 10;
    let mut generator = Snowflake::new(worker_id, datacenter_id).unwrap();
    let id = generator.next_id().unwrap();

    let sequence = id & SEQUENCE_MASK;
    let decoded_worker_id = (id >> WORKER_ID_SHIFT) & MAX_WORKER_ID;
    let decoded_datacenter_id = (id >> DATACENTER_ID_SHIFT) & MAX_DATACENTER_ID;
    println!("{}", id);
    assert_eq!(sequence, 0);
    assert_eq!(decoded_worker_id, worker_id);
    assert_eq!(decoded_datacenter_id, datacenter_id);
}

#[test]
fn test_sequence_increment() {
    let mut generator = Snowflake::new(1, 1).unwrap();
    let id1 = generator.next_id().unwrap();
    let id2 = generator.next_id().unwrap();

    assert!(id2 > id1);
    if (id1 >> TIMESTAMP_SHIFT) == (id2 >> TIMESTAMP_SHIFT) {
        assert_eq!(id2 - id1, 1);
    }
}

#[test]
fn test_uniqueness_single_thread() {
    let mut generator = Snowflake::new(2, 2).unwrap();
    let num_ids = 50_000;
    let mut id_set = HashSet::with_capacity(num_ids);

    for _ in 0..num_ids {
        let id = generator.next_id().unwrap();
        assert!(id_set.insert(id), "Duplicate ID generated: {}", id);
    }
    assert_eq!(id_set.len(), num_ids);
}

#[test]
fn test_sequence_reset_across_millis() {
    let mut generator = Snowflake::new(4, 4).unwrap();

    let id1 = generator.next_id_at(CUSTOM_EPOCH + 1_000_000).unwrap();
    let id2 = generator.next_id_at(CUSTOM_EPOCH + 1_000_002).unwrap();

    let timestamp1 = id1 >> TIMESTAMP_SHIFT;
    let timestamp2 = id2 >> TIMESTAMP_SHIFT;
    let sequence2 = id2 & SEQUENCE_MASK;

    assert!(timestamp2 > timestamp1);
    assert_eq!(sequence2, 0);
}

#[test]
fn test_clock_moving_backwards() {
    let mut generator = Snowflake::new(5, 5).unwrap();

    let future_timestamp = Snowflake::get_time_ms() + 100;
    generator.last_timestamp = future_timestamp;

    let result = generator.next_id();
    assert!(result.is_err());
    assert_eq!(result.err().unwrap().message(), "Clock moved backwards. Refusing to generate id.");
}

#[test]
fn test_emulated_clock_regression() {
    let mut generator = Snowflake::new(3, 7).unwrap();
    generator.next_id_at(CUSTOM_EPOCH + 500).unwrap();
    let result = generator.next_id_at(CUSTOM_EPOCH + 400);
    assert!(matches!(result, Err(IdError::ClockRegression)));
    let recovered = generator.next_id_at(CUSTOM_EPOCH + 600);
    assert!(recovered.is_ok());
}

#[test]
fn test_same_millisecond_sequences() {
    let mut generator = Snowflake::new(1, 2).unwrap();
    let now = CUSTOM_EPOCH + 42;
    let id0 = generator.next_id_at(now).unwrap();
    let id1 = generator.next_id_at(now).unwrap();
    let id2 = generator.next_id_at(now).unwrap();
    assert_eq!(id0 & SEQUENCE_MASK, 0);
    assert_eq!(id1 & SEQUENCE_MASK, 1);
    assert_eq!(id2 & SEQUENCE_MASK, 2);
    assert_eq!(id0 >> TIMESTAMP_SHIFT, 42);
    assert_eq!(id1 >> TIMESTAMP_SHIFT, 42);
    assert_eq!(id2 >> TIMESTAMP_SHIFT, 42);
}

#[test]
fn test_sequence_exhaustion_refused() {
    let mut generator = Snowflake::new(0, 0).unwrap();
    let now = CUSTOM_EPOCH + 9;
    generator.next_id_at(now).unwrap();
    generator.sequence = SEQUENCE_MASK;
    let result = generator.next_id_at(now);
    assert!(matches!(result, Err(IdError::SequenceExhausted)));
    let next = generator.next_id_at(now + 1).unwrap();
    assert_eq!(next & SEQUENCE_MASK, 0);
    assert_eq!(next >> TIMESTAMP_SHIFT, 10);
}

#[test]
fn test_error_messages() {
    assert_eq!(
        IdError::ConfigError.message(),
        "Worker ID and Datacenter ID must be between 0 and 31"
    );
    assert_eq!(
        IdError::ClockRegression.message(),
        "Clock moved backwards. Refusing to generate id."
    );
    assert_eq!(
        IdError::SequenceExhausted.message(),
        "Sequence exhausted for the current millisecond"
    );
    assert_eq!(
        IdError::ClockOutOfRange.message(),
        "Clock outside the representable timestamp range"
    );
}

#[test]
fn test_exact_packing() {
    let mut generator = Snowflake::new(5, 10).unwrap();
    let id = generator.next_id_at(CUSTOM_EPOCH + 1).unwrap();
    // 1 << 22 | 10 << 17 | 5 << 12 | 0
    assert_eq!(id, 4_194_304 + 1_310_720 + 20_480);
}
