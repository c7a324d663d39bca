use v_individual_model::onto::individual::Individual;
use v_storage::remote_storage_client::{apply_reply, encode_request, StorageROClient};
use v_storage::{Storage, StorageId, StorageResult};

#[test]
fn test_remote_request_framing() {
    assert_eq!(encode_request(StorageId::Individuals, "user:1"), b"i,user:1".to_vec());
    assert_eq!(encode_request(StorageId::Az, "acl:1"), b"i,acl:1".to_vec());
    assert_eq!(encode_request(StorageId::Tickets, "ticket:9"), b"t,ticket:9".to_vec());
    assert_eq!(encode_request(StorageId::Individuals, ""), b"i,".to_vec());
}

#[test]
fn test_remote_reply_interpretation() {
    let mut individual = Individual::default();

    // the two-byte literal means the record is absent
    assert_eq!(apply_reply(&mut individual, b"[]"), StorageResult::NotFound);

    // the payload after the five-byte header is what the record receives:
    // a header-only reply carries the empty payload, which parses
    assert_eq!(apply_reply(&mut individual, b"HDR00"), StorageResult::Success(()));

    // an unparsable payload after the header is reported, never accepted
    assert_eq!(apply_reply(&mut individual, b"HDR00not a record"), StorageResult::UnprocessableEntity);

    // a reply too short to carry the header is unprocessable
    assert_eq!(apply_reply(&mut individual, b"[] "), StorageResult::UnprocessableEntity);
    assert_eq!(apply_reply(&mut individual, b"abcd"), StorageResult::UnprocessableEntity);
}

#[test]
fn test_remote_client_is_read_only() {
    let mut client = StorageROClient::new("tcp://127.0.0.1:9999");
    assert_eq!(client.addr, "tcp://127.0.0.1:9999");
    assert!(!client.is_ready);

    assert_eq!(
        client.put_value(StorageId::Individuals, "k", "v"),
        StorageResult::Error("Remote storage is read-only".to_string())
    );
    assert_eq!(
        client.put_raw_value(StorageId::Individuals, "k", vec![1u8]),
        StorageResult::Error("Remote storage is read-only".to_string())
    );
    assert_eq!(
        client.remove_value(StorageId::Individuals, "k"),
        StorageResult::Error("Remote storage is read-only".to_string())
    );
    assert_eq!(
        client.get_value(StorageId::Individuals, "k"),
        StorageResult::Error("Remote storage does not support get_value".to_string())
    );
    assert_eq!(
        client.get_raw_value(StorageId::Individuals, "k"),
        StorageResult::Error("Remote storage does not support get_raw_value".to_string())
    );
    assert_eq!(
        Storage::count(&mut client, StorageId::Individuals),
        StorageResult::Error("Remote storage does not support count".to_string())
    );
    assert_eq!(
        client.count(StorageId::Individuals),
        StorageResult::Error("Remote storage does not support count".to_string())
    );
}

#[test]
fn test_remote_exchange_steps() {
    let mut client = StorageROClient::new("tcp://127.0.0.1:9999");
    client.set_connected(true);
    let mut individual = Individual::default();

    // a failed round trip downgrades readiness
    assert_eq!(client.handle_exchange(None, &mut individual), StorageResult::NotReady);
    assert!(!client.is_ready);

    // a reply keeps readiness and goes through the wire protocol
    client.set_connected(true);
    assert_eq!(client.handle_exchange(Some(b"[]"), &mut individual), StorageResult::NotFound);
    assert!(client.is_ready);
    assert_eq!(client.handle_exchange(Some(b"HDR00"), &mut individual), StorageResult::Success(()));
}

#[test]
fn test_remote_client_not_ready_without_transport() {
    let mut client = StorageROClient::default();
    assert_eq!(client.addr, "");
    assert!(!client.is_ready);

    let mut individual = Individual::default();
    assert_eq!(
        client.get_individual(StorageId::Individuals, "any", &mut individual),
        StorageResult::NotReady
    );
    assert_eq!(
        client.get_individual_from_db(StorageId::Tickets, "any", &mut individual),
        StorageResult::NotReady
    );

    client.set_connected(true);
    assert!(client.is_ready);
    client.set_connected(false);
    assert!(!client.is_ready);
}
