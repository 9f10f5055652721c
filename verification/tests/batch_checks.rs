use eventhubs_producer::ErrorKind;
use eventhubs_producer::EventDataBatchOptions;
use eventhubs_producer::ProducerClient;
use eventhubs_producer::ProducerClientOptions;

#[test]
fn batch_paths_follow_partition_choice() {
    let c = ProducerClient::new("ns.example.com".to_string(), "eh1".to_string(), None);
    assert_eq!(c.base_url(), "amqps://ns.example.com/eh1");

    let plain = c.create_batch(None);
    assert_eq!(plain.get_batch_path(), "amqps://ns.example.com/eh1");

    let options = EventDataBatchOptions {
        max_size_in_bytes: None,
        partition_id: Some("3".to_string()),
    };
    let pinned = c.create_batch(Some(options));
    assert_eq!(pinned.get_batch_path(), "amqps://ns.example.com/eh1/Partitions/3");
}

#[test]
fn batch_size_bound_is_enforced() {
    let c = ProducerClient::new("ns.example.com".to_string(), "eh1".to_string(), None);
    let options = EventDataBatchOptions {
        max_size_in_bytes: Some(10),
        partition_id: None,
    };
    let mut batch = c.create_batch(Some(options));

    assert!(batch.try_add_event_data(vec![0; 6]));
    // 6 + 5 would exceed the bound of 10: refused, batch unchanged.
    assert!(!batch.try_add_event_data(vec![0; 5]));
    assert!(batch.try_add_event_data(vec![0; 4]));
    assert!(!batch.try_add_event_data(vec![0; 1]));

    assert_eq!(batch.len(), 2);
    assert_eq!(batch.size_in_bytes(), 10);
    let messages = batch.get_messages();
    assert_eq!(messages.len(), 2);
    assert_eq!(messages[0].len(), 6);
    assert_eq!(messages[1].len(), 4);
}

#[test]
fn batch_bound_defaults_to_client_bound() {
    let options = ProducerClientOptions {
        application_id: None,
        retry_options: None,
        max_message_size: Some(4),
    };
    let c = ProducerClient::new("ns.example.com".to_string(), "eh1".to_string(), Some(options));
    let mut batch = c.create_batch(None);
    assert!(batch.try_add_event_data(vec![0; 4]));
    assert!(!batch.try_add_event_data(vec![0; 1]));
}

#[test]
fn error_messages_name_each_failure() {
    assert_eq!(ErrorKind::MissingConnection.message(), "missing connection");
    assert_eq!(ErrorKind::MissingManagementLink.message(), "missing management link");
    assert_eq!(ErrorKind::MissingSenderLink.message(), "missing sender link");
    assert_eq!(ErrorKind::AuthorizationFailed.message(), "authorization failed");
    assert_eq!(ErrorKind::InvalidUrl.message(), "invalid endpoint url");
}
