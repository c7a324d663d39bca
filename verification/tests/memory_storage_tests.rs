use v_individual_model::onto::individual::Individual;
use v_storage::{MemoryStorage, Storage, StorageId, StorageResult};

#[test]
fn test_basic_operations() {
    let mut storage = MemoryStorage::new();

    // Test put and get
    assert!(storage.put_value(StorageId::Individuals, "key1", "value1").is_ok());
    let get_result = storage.get_value(StorageId::Individuals, "key1");
    assert!(get_result.is_ok(), "Expected Success, got: {:?}", get_result);
    assert_eq!(get_result.unwrap_or_default(), "value1");

    // Test raw operations
    let raw_data = vec![1, 2, 3, 4];
    assert!(storage.put_raw_value(StorageId::Individuals, "key2", raw_data.clone()).is_ok());
    let raw_result = storage.get_raw_value(StorageId::Individuals, "key2");
    assert!(raw_result.is_ok(), "Expected Success, got: {:?}", raw_result);
    assert_eq!(raw_result.unwrap_or_default(), raw_data);

    // Test remove
    assert!(storage.remove_value(StorageId::Individuals, "key1").is_ok());
    let removed_result = storage.get_value(StorageId::Individuals, "key1");
    assert_eq!(removed_result, StorageResult::NotFound, "Expected NotFound, got: {:?}", removed_result);

    // Test count
    let count_result = storage.count(StorageId::Individuals);
    assert!(count_result.is_ok(), "Expected Success count, got: {:?}", count_result);
    assert_eq!(count_result.unwrap_or_default(), 1);
}

#[test]
fn test_individual() {
    let mut storage = MemoryStorage::new();
    let mut individual = Individual::default();

    // Test non-existent individual
    assert_eq!(storage.get_individual(StorageId::Individuals, "non-existent", &mut individual), StorageResult::NotFound);

    // Test with properly formatted Individual data
    let valid_individual_data = r#"{"@": "test:individual", "rdf:type": [{"type": "Uri", "data": "test:Class"}]}"#;
    let put_result = storage.put_value(StorageId::Individuals, "test:individual", valid_individual_data);
    assert!(put_result.is_ok(), "Failed to put individual data: {:?}", put_result);

    let get_result = storage.get_individual(StorageId::Individuals, "test:individual", &mut individual);
    assert!(get_result == StorageResult::Success(()) || get_result == StorageResult::UnprocessableEntity,
            "Expected Success or UnprocessableEntity, got: {:?}", get_result);

    // Test with invalid data
    let invalid_data = "invalid json";
    assert!(storage.put_value(StorageId::Individuals, "test:invalid", invalid_data).is_ok());
    let invalid_result = storage.get_individual(StorageId::Individuals, "test:invalid", &mut individual);
    assert_eq!(invalid_result, StorageResult::UnprocessableEntity, "Expected UnprocessableEntity for invalid data");
}

#[test]
fn memory_storage_test_backward_compatibility() {
    let mut storage = MemoryStorage::new();

    // Test legacy methods still work
    assert!(storage.put_kv(StorageId::Individuals, "key", "value"));
    assert_eq!(storage.get_v(StorageId::Individuals, "key"), Some("value".to_string()));
    assert!(storage.remove(StorageId::Individuals, "key"));
}

#[test]
fn test_edge_cases() {
    let mut storage = MemoryStorage::new();

    // Test with very long keys and values
    let long_key = "a".repeat(1000);
    let long_value = "b".repeat(10000);
    assert!(storage.put_value(StorageId::Individuals, &long_key, &long_value).is_ok());

    let long_result = storage.get_value(StorageId::Individuals, &long_key);
    assert!(long_result.is_ok());
    if let StorageResult::Success(value) = long_result {
        assert_eq!(value.len(), 10000);
        assert_eq!(value, long_value);
    }

    // Test with special characters
    let special_key = "тест-ключ!@#$%^&*()_+{}|:\"<>?";
    let special_value = "тест-значение\n\t\r\\\"'";
    assert!(storage.put_value(StorageId::Individuals, special_key, special_value).is_ok());

    let special_result = storage.get_value(StorageId::Individuals, special_key);
    assert!(special_result.is_ok());
    if let StorageResult::Success(value) = special_result {
        assert_eq!(value, special_value);
    }

    // Test binary data in raw operations
    let binary_data = vec![0u8, 255u8, 128u8, 42u8];
    assert!(storage.put_raw_value(StorageId::Individuals, "binary", binary_data.clone()).is_ok());

    let binary_result = storage.get_raw_value(StorageId::Individuals, "binary");
    assert!(binary_result.is_ok());
    if let StorageResult::Success(data) = binary_result {
        assert_eq!(data, binary_data);
    }

    // Test overwriting existing keys
    assert!(storage.put_value(StorageId::Individuals, "overwrite", "first").is_ok());
    assert!(storage.put_value(StorageId::Individuals, "overwrite", "second").is_ok());

    let overwrite_result = storage.get_value(StorageId::Individuals, "overwrite");
    assert!(overwrite_result.is_ok());
    if let StorageResult::Success(value) = overwrite_result {
        assert_eq!(value, "second");
    }
}

#[test]
fn test_different_storage_types() {
    let mut storage = MemoryStorage::new();

    // Test that different StorageId types are isolated
    assert!(storage.put_value(StorageId::Individuals, "same_key", "individuals_value").is_ok());
    assert!(storage.put_value(StorageId::Tickets, "same_key", "tickets_value").is_ok());
    assert!(storage.put_value(StorageId::Az, "same_key", "az_value").is_ok());

    let individuals_result = storage.get_value(StorageId::Individuals, "same_key");
    let tickets_result = storage.get_value(StorageId::Tickets, "same_key");
    let az_result = storage.get_value(StorageId::Az, "same_key");

    assert!(individuals_result.is_ok() && tickets_result.is_ok() && az_result.is_ok());

    if let (StorageResult::Success(ind_val), StorageResult::Success(tick_val), StorageResult::Success(az_val)) =
        (individuals_result, tickets_result, az_result) {
        assert_eq!(ind_val, "individuals_value");
        assert_eq!(tick_val, "tickets_value");
        assert_eq!(az_val, "az_value");
    }

    // Test counts are separate
    let ind_count = storage.count(StorageId::Individuals);
    let tick_count = storage.count(StorageId::Tickets);
    let az_count = storage.count(StorageId::Az);

    assert!(ind_count.is_ok() && tick_count.is_ok() && az_count.is_ok());
    if let (StorageResult::Success(ic), StorageResult::Success(tc), StorageResult::Success(ac)) = (ind_count, tick_count, az_count) {
        assert_eq!(ic, 1);
        assert_eq!(tc, 1);
        assert_eq!(ac, 1);
    }
}

#[test]
fn test_scenario_put_get_remove_count() {
    let mut storage = MemoryStorage::new();

    assert!(storage.put_value(StorageId::Individuals, "user:1", "Ivan").is_ok());
    assert_eq!(storage.get_value(StorageId::Individuals, "user:1"), StorageResult::Success("Ivan".to_string()));
    assert_eq!(storage.remove_value(StorageId::Individuals, "user:1"), StorageResult::Success(()));
    assert_eq!(storage.get_value(StorageId::Individuals, "user:1"), StorageResult::NotFound);
    assert_eq!(storage.count(StorageId::Individuals), StorageResult::Success(0));
}

#[test]
fn test_counts_do_not_interfere() {
    let mut storage = MemoryStorage::new();

    // N distinct keys in one namespace give count N
    for i in 0..5 {
        let key = format!("key{}", i);
        assert!(storage.put_value(StorageId::Individuals, &key, "x").is_ok());
    }
    assert_eq!(storage.count(StorageId::Individuals), StorageResult::Success(5));

    // the same key in two namespaces: both counts are 1, the values differ
    let mut fresh = MemoryStorage::new();
    assert!(fresh.put_value(StorageId::Individuals, "k", "ind").is_ok());
    assert!(fresh.put_value(StorageId::Tickets, "k", "tck").is_ok());
    assert_eq!(fresh.count(StorageId::Individuals), StorageResult::Success(1));
    assert_eq!(fresh.count(StorageId::Tickets), StorageResult::Success(1));
    assert_eq!(fresh.count(StorageId::Az), StorageResult::Success(0));
    assert_eq!(fresh.get_value(StorageId::Individuals, "k"), StorageResult::Success("ind".to_string()));
    assert_eq!(fresh.get_value(StorageId::Tickets, "k"), StorageResult::Success("tck".to_string()));
}

#[test]
fn test_invalid_utf8_value_is_error() {
    let mut storage = MemoryStorage::new();

    // 0xFF never occurs in UTF-8
    assert!(storage.put_raw_value(StorageId::Individuals, "bin", vec![0xFFu8, 0xFEu8]).is_ok());
    match storage.get_value(StorageId::Individuals, "bin") {
        StorageResult::Error(msg) => assert_eq!(msg, "Invalid UTF-8 data"),
        other => panic!("Expected Error for invalid UTF-8, got: {:?}", other),
    }
    // the same key read raw still succeeds
    assert_eq!(storage.get_raw_value(StorageId::Individuals, "bin"), StorageResult::Success(vec![0xFFu8, 0xFEu8]));
}

#[test]
fn test_unparsable_bytes_never_ok() {
    let mut storage = MemoryStorage::new();
    let mut individual = Individual::default();

    // bytes that are not valid domain-format data
    let junk: Vec<u8> = vec![1u8, 2, 3, 4, 5];
    assert!(storage.put_raw_value(StorageId::Individuals, "junk", junk).is_ok());
    let r = storage.get_individual(StorageId::Individuals, "junk", &mut individual);
    assert_eq!(r, StorageResult::UnprocessableEntity);

    assert!(storage.put_value(StorageId::Individuals, "text", "not valid domain json").is_ok());
    let r2 = storage.get_individual(StorageId::Individuals, "text", &mut individual);
    assert_eq!(r2, StorageResult::UnprocessableEntity);
}

#[test]
fn test_insert_and_get_test_data() {
    let storage_ref = {
        let mut storage = MemoryStorage::new();
        storage.insert_test_data(StorageId::Az, "seeded", vec![9u8, 8u8]);
        assert_eq!(storage.get_test_data(StorageId::Az, "seeded"), Some(vec![9u8, 8u8]));
        assert_eq!(storage.get_test_data(StorageId::Az, "missing"), None);
        assert_eq!(storage.get_test_data(StorageId::Individuals, "seeded"), None);
        storage
    };
    drop(storage_ref);
}

#[test]
fn test_result_to_bool() {
    assert!(bool::from(StorageResult::Success(5u32)));
    assert!(!bool::from(StorageResult::<u32>::NotFound));
    assert!(!bool::from(StorageResult::<u32>::NotReady));
    assert!(!bool::from(StorageResult::<u32>::Error("x".to_string())));
}

#[test]
fn test_result_combinators() {
    let ok: StorageResult<usize> = StorageResult::Success(2);
    assert!(ok.is_ok());
    assert!(!ok.clone().is_error());
    assert_eq!(ok.clone().map(|n| n + 1), StorageResult::Success(3));
    assert_eq!(ok.and_then(|n| if n > 1 { StorageResult::Success(n * 10) } else { StorageResult::NotFound }), StorageResult::Success(20));

    let missing: StorageResult<usize> = StorageResult::NotFound;
    assert!(missing.is_error());
    assert_eq!(missing.clone().map(|n| n + 1), StorageResult::NotFound);
    assert_eq!(missing.clone().unwrap_or_default(), 0);
    let err: StorageResult<usize> = StorageResult::Error("boom".to_string());
    assert_eq!(err.map(|n| n + 1), StorageResult::Error("boom".to_string()));
}
