use v_individual_model::onto::individual::Individual;
use v_storage::{
    MemoryStorage, Storage, StorageId, StorageResult, VMemoryStorage, VStorage, VStorageEnum,
    VStorageGeneric,
};
use v_storage::storage_factory::StorageConfig;

#[test]
fn test_enum_storage_performance() {
    let mut enum_storage = VStorageEnum::memory();

    // Test enum dispatch operations
    assert!(enum_storage.put_value(StorageId::Individuals, "key1", "value1").is_ok());
    let get_result = enum_storage.get_value(StorageId::Individuals, "key1");
    assert!(get_result.is_ok(), "Expected Success, got: {:?}", get_result);
    if let StorageResult::Success(value) = get_result {
        assert_eq!(value, "value1");
    }

    // Test count
    let count_result = enum_storage.count(StorageId::Individuals);
    assert!(count_result.is_ok(), "Expected Success count, got: {:?}", count_result);
    if let StorageResult::Success(count) = count_result {
        assert_eq!(count, 1);
    }
}

#[test]
fn test_enum_storage_empty() {
    let mut storage = VStorageEnum::default();
    assert!(storage.is_empty());

    // Operations on empty storage should return NotReady
    let get_result = storage.get_value(StorageId::Individuals, "key");
    assert_eq!(get_result, StorageResult::NotReady, "Expected NotReady, got: {:?}", get_result);

    // Test other operations on empty storage
    let put_result = storage.put_value(StorageId::Individuals, "key", "value");
    assert_eq!(put_result, StorageResult::NotReady, "Expected NotReady for put, got: {:?}", put_result);

    let count_result = storage.count(StorageId::Individuals);
    assert_eq!(count_result, StorageResult::NotReady, "Expected NotReady for count, got: {:?}", count_result);
}

#[test]
fn test_memory_storage_builder() {
    let storage_result = VStorage::builder()
        .memory()
        .build();

    assert!(storage_result.is_ok(), "Failed to build storage");
    if let Ok(storage_box) = storage_result {
        let mut storage = VStorage::new(storage_box);

        // Test new unified API
        assert!(storage.put_value(StorageId::Individuals, "test_key", "test_value").is_ok());
        let get_result = storage.get_value(StorageId::Individuals, "test_key");
        assert!(get_result.is_ok(), "Expected Success, got: {:?}", get_result);
        if let StorageResult::Success(value) = get_result {
            assert_eq!(value, "test_value");
        }
    }
}

#[test]
fn test_storage_from_config() {
    let config = StorageConfig::Memory;
    let storage_result = VStorage::from_config(config);

    assert!(storage_result.is_ok(), "Failed to create storage from config");
    if let Ok(mut storage) = storage_result {
        // Test unified API
        assert!(storage.put_value(StorageId::Individuals, "test_key", "test_value").is_ok());
        let get_result = storage.get_value(StorageId::Individuals, "test_key");
        assert!(get_result.is_ok(), "Expected Success, got: {:?}", get_result);
        if let StorageResult::Success(value) = get_result {
            assert_eq!(value, "test_value");
        }
    }
}

#[test]
fn test_empty_storage() {
    let storage = VStorage::none();
    assert!(storage.is_empty());
}

#[test]
fn test_individual_operations() {
    let storage_box = VStorage::builder()
        .memory()
        .build()
        .unwrap();
    let mut storage = VStorage::new(storage_box);
    let mut individual = Individual::default();

    // Test with non-existent individual
    assert_eq!(storage.get_individual("non-existent", &mut individual), StorageResult::NotFound);
}

#[test]
fn vstorage_test_backward_compatibility() {
    let storage_box = VStorage::builder()
        .memory()
        .build()
        .unwrap();
    let mut storage = VStorage::new(storage_box);

    // Test legacy methods still work
    assert!(storage.put_kv(StorageId::Individuals, "key", "value"));
    assert_eq!(storage.get_v(StorageId::Individuals, "key"), Some("value".to_string()));
    assert!(storage.remove(StorageId::Individuals, "key"));
}

#[test]
fn test_generic_memory_storage() {
    let mut storage = VMemoryStorage::new(MemoryStorage::new());

    // Test unified API
    assert!(storage.put_value(StorageId::Individuals, "test_key", "test_value").is_ok());
    let get_result = storage.get_value(StorageId::Individuals, "test_key");
    assert!(get_result.is_ok(), "Expected Success, got: {:?}", get_result);
    if let StorageResult::Success(value) = get_result {
        assert_eq!(value, "test_value");
    }

    // Test count
    let count_result = storage.count(StorageId::Individuals);
    assert!(count_result.is_ok(), "Expected Success count, got: {:?}", count_result);
    if let StorageResult::Success(count) = count_result {
        assert_eq!(count, 1);
    }

    // Test remove
    assert!(storage.remove_value(StorageId::Individuals, "test_key").is_ok());
    let count_after_remove = storage.count(StorageId::Individuals);
    assert!(count_after_remove.is_ok(), "Expected Success count after remove, got: {:?}", count_after_remove);
    if let StorageResult::Success(count) = count_after_remove {
        assert_eq!(count, 0);
    }

    // Test edge case: remove non-existent key
    let remove_result = storage.remove_value(StorageId::Individuals, "non-existent");
    assert_eq!(remove_result, StorageResult::NotFound, "Expected NotFound for non-existent key");
}

#[test]
fn test_generic_storage_creation() {
    // Creation through the constructor
    let memory_storage = MemoryStorage::new();
    let mut generic_storage = VStorageGeneric::new(memory_storage);

    assert!(!generic_storage.is_empty());
    assert!(generic_storage.put_value(StorageId::Individuals, "key", "value").is_ok());

    // Moving the backend out
    let extracted = generic_storage.take_storage();
    assert!(extracted.is_some());
}

#[test]
fn test_generic_storage_none() {
    let storage: VStorageGeneric<MemoryStorage> = VStorageGeneric::none();
    assert!(storage.is_empty());
}

#[test]
fn test_generic_storage_individual_operations() {
    let mut storage = VMemoryStorage::new(MemoryStorage::new());
    let mut individual = Individual::default();

    // Test with non-existent individual
    assert_eq!(storage.get_individual("non-existent", &mut individual), StorageResult::NotFound);
}

#[test]
fn test_unified_api_consistency() {
    // All three wrapper kinds expose the same API with the same outcomes
    let mut dynamic_storage = VStorage::new(Box::new(VStorageEnum::Memory(MemoryStorage::new())));
    let mut generic_storage = VMemoryStorage::new(MemoryStorage::new());
    let mut enum_storage = VStorageEnum::memory();

    // The same operations must behave the same
    assert!(dynamic_storage.put_value(StorageId::Individuals, "key", "value").is_ok());
    assert!(generic_storage.put_value(StorageId::Individuals, "key", "value").is_ok());
    assert!(enum_storage.put_value(StorageId::Individuals, "key", "value").is_ok());

    let dynamic_result = dynamic_storage.get_value(StorageId::Individuals, "key");
    let generic_result = generic_storage.get_value(StorageId::Individuals, "key");
    let enum_result = enum_storage.get_value(StorageId::Individuals, "key");

    // All results must be successes
    assert!(dynamic_result.is_ok(), "Dynamic storage should return Success");
    assert!(generic_result.is_ok(), "Generic storage should return Success");
    assert!(enum_result.is_ok(), "Enum storage should return Success");

    // All values must agree
    if let (StorageResult::Success(val1), StorageResult::Success(val2), StorageResult::Success(val3)) =
        (dynamic_result, generic_result, enum_result) {
        assert_eq!(val1, val2, "Dynamic and generic storage values should match");
        assert_eq!(val2, val3, "Generic and enum storage values should match");
    }

    // Test count consistency
    let count1 = dynamic_storage.count(StorageId::Individuals);
    let count2 = generic_storage.count(StorageId::Individuals);
    let count3 = enum_storage.count(StorageId::Individuals);

    assert!(count1.is_ok() && count2.is_ok() && count3.is_ok(), "All counts should be Success");
    if let (StorageResult::Success(c1), StorageResult::Success(c2), StorageResult::Success(c3)) = (count1, count2, count3) {
        assert_eq!(c1, c2);
        assert_eq!(c2, c3);
    }
}

#[test]
fn test_empty_wrappers_all_operations() {
    // Every one of the seven operations returns NotReady on each of the
    // three wrapper kinds when no backend is held.
    let mut individual = Individual::default();

    let mut dynamic_storage = VStorage::none();
    assert_eq!(dynamic_storage.get_individual_from_storage(StorageId::Az, "k", &mut individual), StorageResult::NotReady);
    assert_eq!(dynamic_storage.get_value(StorageId::Az, "k"), StorageResult::NotReady);
    assert_eq!(dynamic_storage.get_raw_value(StorageId::Az, "k"), StorageResult::NotReady);
    assert_eq!(dynamic_storage.put_value(StorageId::Az, "k", "v"), StorageResult::NotReady);
    assert_eq!(dynamic_storage.put_raw_value(StorageId::Az, "k", vec![1u8]), StorageResult::NotReady);
    assert_eq!(dynamic_storage.remove_value(StorageId::Az, "k"), StorageResult::NotReady);
    assert_eq!(dynamic_storage.count(StorageId::Az), StorageResult::NotReady);

    let mut generic_storage: VStorageGeneric<MemoryStorage> = VStorageGeneric::none();
    assert_eq!(generic_storage.get_individual_from_storage(StorageId::Az, "k", &mut individual), StorageResult::NotReady);
    assert_eq!(generic_storage.get_value(StorageId::Az, "k"), StorageResult::NotReady);
    assert_eq!(generic_storage.get_raw_value(StorageId::Az, "k"), StorageResult::NotReady);
    assert_eq!(generic_storage.put_value(StorageId::Az, "k", "v"), StorageResult::NotReady);
    assert_eq!(generic_storage.put_raw_value(StorageId::Az, "k", vec![1u8]), StorageResult::NotReady);
    assert_eq!(generic_storage.remove_value(StorageId::Az, "k"), StorageResult::NotReady);
    assert_eq!(generic_storage.count(StorageId::Az), StorageResult::NotReady);

    let mut enum_storage = VStorageEnum::default();
    assert_eq!(enum_storage.get_individual(StorageId::Az, "k", &mut individual), StorageResult::NotReady);
    assert_eq!(enum_storage.get_value(StorageId::Az, "k"), StorageResult::NotReady);
    assert_eq!(enum_storage.get_raw_value(StorageId::Az, "k"), StorageResult::NotReady);
    assert_eq!(enum_storage.put_value(StorageId::Az, "k", "v"), StorageResult::NotReady);
    assert_eq!(enum_storage.put_raw_value(StorageId::Az, "k", vec![1u8]), StorageResult::NotReady);
    assert_eq!(enum_storage.remove_value(StorageId::Az, "k"), StorageResult::NotReady);
    assert_eq!(enum_storage.count(StorageId::Az), StorageResult::NotReady);
}
