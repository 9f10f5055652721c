use eventhubs_producer::AccessToken;
use eventhubs_producer::ConnectionPlan;
use eventhubs_producer::ErrorKind;
use eventhubs_producer::ManagementPlan;
use eventhubs_producer::ProducerClient;
use eventhubs_producer::ProducerClientOptions;
use eventhubs_producer::RetryOptions;
use eventhubs_producer::SenderLinkHandles;
use eventhubs_producer::SenderPlan;

fn token(secret: &str) -> AccessToken {
    AccessToken::new(secret.to_string(), 1_700_000_000)
}

/// Drives the sender-creation protocol for `path` until a pair exists,
/// counting how many opens, authorizations and attaches were performed.
fn drive_sender(c: &mut ProducerClient, path: &str) -> (SenderLinkHandles, u32, u32, u32) {
    let mut opens = 0u32;
    let mut authorizes = 0u32;
    let mut attaches = 0u32;
    loop {
        match c.plan_sender(path).unwrap() {
            SenderPlan::Existing(h) => return (h, opens, authorizes, attaches),
            SenderPlan::NeedConnection(_) => {
                opens += 1;
                c.complete_open().unwrap();
            }
            SenderPlan::NeedAuthorization(req) => {
                authorizes += 1;
                c.complete_authorize(&req.path, token("secret")).unwrap();
            }
            SenderPlan::Attach(_) => {
                attaches += 1;
                c.complete_sender(path).unwrap();
            }
        }
    }
}

#[test]
fn test_producer_client_options_builder() {
    let options = ProducerClientOptions {
        application_id: Some("application_id".to_string()),
        retry_options: Some(RetryOptions::default()),
        ..Default::default()
    };

    assert_eq!(options.application_id.unwrap(), "application_id");
}

#[test]
fn connection_opens_exactly_once() {
    let mut c = ProducerClient::new("ns.example.com".to_string(), "eh1".to_string(), None);
    let req = match c.plan_open().unwrap() {
        ConnectionPlan::Open(req) => req,
        _ => panic!("a fresh client must plan an open"),
    };
    assert_eq!(req.url, "amqps://ns.example.com/eh1");
    let handle = c.complete_open().unwrap();

    // Every later ensure observes the same connection, whatever the url.
    match c.plan_open().unwrap() {
        ConnectionPlan::AlreadyOpen { handle: h } => assert_eq!(h, handle),
        _ => panic!("an open client must not plan a second open"),
    }
    match c.plan_ensure_connection("amqps://other.example.com/x").unwrap() {
        ConnectionPlan::AlreadyOpen { handle: h } => assert_eq!(h, handle),
        _ => panic!("an open client must not plan a second open"),
    }
    // A second report of an open is refused.
    assert_eq!(c.complete_open(), Err(ErrorKind::MissingConnection));
}

#[test]
fn open_request_carries_identity_and_properties() {
    let options = ProducerClientOptions {
        application_id: Some("app1".to_string()),
        retry_options: None,
        max_message_size: None,
    };
    let c = ProducerClient::new("ns.example.com".to_string(), "eh1".to_string(), Some(options));
    let req = match c.plan_open().unwrap() {
        ConnectionPlan::Open(req) => req,
        _ => panic!("a fresh client must plan an open"),
    };
    assert_eq!(req.client_id, "app1");
    let props: Vec<(String, String)> = req.properties;
    assert_eq!(props.len(), 4);
    assert_eq!(props[0], ("user-agent".to_string(), "app1".to_string()));
    assert_eq!(props[1], ("version".to_string(), "0.1.0".to_string()));
    assert_eq!(props[2], ("platform".to_string(), "rust".to_string()));
    assert_eq!(props[3], ("product".to_string(), "eventhubs_producer".to_string()));
}

#[test]
fn generated_client_id_when_no_application_id() {
    let c = ProducerClient::new("ns.example.com".to_string(), "eh1".to_string(), None);
    let req = match c.plan_open().unwrap() {
        ConnectionPlan::Open(req) => req,
        _ => panic!("a fresh client must plan an open"),
    };
    assert_eq!(req.client_id.len(), 36);
    // The generated identity really is a UUID, not some fixed string.
    uuid::Uuid::parse_str(&req.client_id).unwrap();
}

#[test]
fn malformed_endpoint_is_rejected() {
    let c = ProducerClient::new("not a host".to_string(), "eh1".to_string(), None);
    assert!(matches!(c.plan_open(), Err(ErrorKind::InvalidUrl)));
    let ok = ProducerClient::new("ns.example.com".to_string(), "eh1".to_string(), None);
    assert!(matches!(ok.plan_open(), Ok(ConnectionPlan::Open(_))));
}

#[test]
fn authorize_idempotent_and_first_writer_wins() {
    let mut c = ProducerClient::new("ns.example.com".to_string(), "eh1".to_string(), None);
    c.complete_open().unwrap();
    let path = "amqps://ns.example.com/eh1";

    let req = match c.plan_authorize(path).unwrap() {
        eventhubs_producer::AuthorizePlan::Acquire(req) => req,
        _ => panic!("a fresh path needs a token acquisition"),
    };
    assert_eq!(req.path, path);
    assert_eq!(req.scope, "https://eventhubs.azure.net/.default");

    let stored = c.complete_authorize(path, token("s1")).unwrap();
    assert_eq!(stored.secret, "s1");

    // Repeated authorization returns the cached token without another
    // claims handshake.
    match c.plan_authorize(path).unwrap() {
        eventhubs_producer::AuthorizePlan::Cached(t) => assert_eq!(t.secret, "s1"),
        _ => panic!("a cached path must not plan another acquisition"),
    }

    // A racing duplicate insertion is refused, not silently overwritten.
    assert!(matches!(
        c.complete_authorize(path, token("s2")),
        Err(ErrorKind::AuthorizationFailed)
    ));
    match c.plan_authorize(path).unwrap() {
        eventhubs_producer::AuthorizePlan::Cached(t) => assert_eq!(t.secret, "s1"),
        _ => panic!("the first writer's token must survive the race"),
    }
}

#[test]
fn sender_creation_opens_connection_on_demand() {
    let mut c = ProducerClient::new("ns.example.com".to_string(), "eh1".to_string(), None);
    let path = "amqps://ns.example.com/eh1";

    // With no connection yet, the pool asks for one first, opened against
    // the destination path itself.
    match c.plan_sender(path).unwrap() {
        SenderPlan::NeedConnection(req) => assert_eq!(req.url, path),
        _ => panic!("an unopened client must open the connection first"),
    }
    // A destination that is not a well-formed URL cannot open a connection.
    assert!(matches!(c.plan_sender("not a url"), Err(ErrorKind::InvalidUrl)));

    let (_, opens, authorizes, attaches) = drive_sender(&mut c, path);
    assert_eq!((opens, authorizes, attaches), (1, 1, 1));
}

#[test]
fn cached_token_keeps_secret_and_expiry() {
    let mut c = ProducerClient::new("ns.example.com".to_string(), "eh1".to_string(), None);
    c.complete_open().unwrap();
    let path = "amqps://ns.example.com/eh1";
    c.complete_authorize(path, AccessToken::new("s1".to_string(), 1_234_567)).unwrap();
    match c.plan_authorize(path).unwrap() {
        eventhubs_producer::AuthorizePlan::Cached(t) => {
            assert_eq!(t.secret, "s1");
            assert_eq!(t.expires_on, 1_234_567);
        }
        _ => panic!("the cached token must be returned as it was stored"),
    }
}

#[test]
fn submit_before_open_is_missing_connection() {
    let c = ProducerClient::new("ns.example.com".to_string(), "eh1".to_string(), None);
    let batch = c.create_batch(None);
    assert_eq!(c.plan_submit(&batch), Err(ErrorKind::MissingConnection));
    assert_eq!(c.plan_get_eventhub_properties().err(), Some(ErrorKind::MissingConnection));
    assert_eq!(c.plan_get_partition_properties("0").err(), Some(ErrorKind::MissingConnection));
    assert_eq!(c.plan_close(), Err(ErrorKind::MissingConnection));
}

#[test]
fn submit_batch_reuses_link_and_token() {
    let mut c = ProducerClient::new("ns.example.com".to_string(), "eh1".to_string(), None);
    c.complete_open().unwrap();

    let mut batch = c.create_batch(None);
    assert_eq!(batch.get_batch_path(), "amqps://ns.example.com/eh1");
    assert!(batch.try_add_event_data(vec![1, 2, 3]));
    assert!(batch.try_add_event_data(vec![4, 5]));
    assert_eq!(batch.len(), 2);

    // First submission: exactly one authorize and one attach, no extra open.
    let path = "amqps://ns.example.com/eh1".to_string();
    let (handles, opens, authorizes, attaches) = drive_sender(&mut c, &path);
    assert_eq!((opens, authorizes, attaches), (0, 1, 1));
    let send = c.plan_submit(&batch).unwrap();
    assert_eq!(send.sender, handles.sender);
    assert_eq!(send.message_format, 0x8001_3700);

    // Second submission to the same path: zero additional work, same link.
    let (again, opens2, authorizes2, attaches2) = drive_sender(&mut c, &path);
    assert_eq!((opens2, authorizes2, attaches2), (0, 0, 0));
    assert_eq!(again, handles);
    assert_eq!(c.plan_submit(&batch).unwrap(), send);
}

#[test]
fn two_paths_two_links_no_interference() {
    let mut c = ProducerClient::new("ns.example.com".to_string(), "eh1".to_string(), None);
    c.complete_open().unwrap();

    let p = "amqps://ns.example.com/eh1/Partitions/0".to_string();
    let q = "amqps://ns.example.com/eh1/Partitions/1".to_string();
    let (hp, _, authorizes_p, attaches_p) = drive_sender(&mut c, &p);
    assert_eq!((authorizes_p, attaches_p), (1, 1));
    let (hq, _, authorizes_q, attaches_q) = drive_sender(&mut c, &q);
    assert_eq!((authorizes_q, attaches_q), (1, 1));

    // Two distinct entries, and the first is untouched by the second's
    // creation.
    assert_ne!(hp.sender, hq.sender);
    match c.plan_sender(&p).unwrap() {
        SenderPlan::Existing(h) => assert_eq!(h, hp),
        _ => panic!("the first path's link must survive the second's creation"),
    }
}

#[test]
fn attach_request_carries_configuration() {
    let options = ProducerClientOptions {
        application_id: Some("app1".to_string()),
        retry_options: None,
        max_message_size: Some(1_048_576),
    };
    let mut c = ProducerClient::new("ns.example.com".to_string(), "eh1".to_string(), Some(options));
    c.complete_open().unwrap();
    let path = "amqps://ns.example.com/eh1";
    c.complete_authorize(path, token("s")).unwrap();
    let req = match c.plan_sender(path).unwrap() {
        SenderPlan::Attach(req) => req,
        _ => panic!("an authorized, linkless path must plan an attach"),
    };
    assert_eq!(req.path, path);
    assert_eq!(req.sender_name, "app1-rust-sender");
    assert_eq!(req.max_message_size, 1_048_576);
    assert_eq!(req.incoming_window, u32::MAX);
    assert_eq!(req.outgoing_window, u32::MAX);
}

#[test]
fn attach_without_authorization_refused() {
    let mut c = ProducerClient::new("ns.example.com".to_string(), "eh1".to_string(), None);
    c.complete_open().unwrap();
    assert!(matches!(
        c.complete_sender("amqps://ns.example.com/eh1"),
        Err(ErrorKind::AuthorizationFailed)
    ));
    assert!(matches!(c.complete_management(), Err(ErrorKind::AuthorizationFailed)));
}

#[test]
fn racing_sender_creation_observes_single_entry() {
    let mut c = ProducerClient::new("ns.example.com".to_string(), "eh1".to_string(), None);
    c.complete_open().unwrap();
    let path = "amqps://ns.example.com/eh1";
    c.complete_authorize(path, token("s")).unwrap();
    let first = c.complete_sender(path).unwrap();
    let second = c.complete_sender(path).unwrap();
    assert_eq!(first, second);
}

#[test]
fn management_flow_and_queries() {
    let mut c = ProducerClient::new("ns.example.com".to_string(), "eh1".to_string(), None);
    c.complete_open().unwrap();

    // No management link yet: queries are refused.
    assert_eq!(c.plan_get_eventhub_properties().err(), Some(ErrorKind::MissingManagementLink));

    let auth = match c.plan_management().unwrap() {
        ManagementPlan::NeedAuthorization(req) => req,
        _ => panic!("the management path must be authorized first"),
    };
    assert_eq!(auth.path, "amqps://ns.example.com/eh1/$management");
    c.complete_authorize(&auth.path, token("s")).unwrap();

    let attach = match c.plan_management().unwrap() {
        ManagementPlan::Attach(req) => req,
        _ => panic!("an authorized management path must plan an attach"),
    };
    assert_eq!(attach.management_path, "amqps://ns.example.com/eh1/$management");
    assert_eq!(attach.node_name, "eventhubs_management");
    let link = c.complete_management().unwrap();

    match c.plan_management().unwrap() {
        ManagementPlan::AlreadyAttached(m) => assert_eq!(m, link),
        _ => panic!("the management link must be reused once attached"),
    }
    // The cell is write-once: a second report observes the single link.
    assert_eq!(c.complete_management().unwrap(), link);

    let q = c.plan_get_eventhub_properties().unwrap();
    assert_eq!(q.link, link.link);
    assert_eq!(q.eventhub, "eh1");
    assert_eq!(q.partition_id, None);

    let qp = c.plan_get_partition_properties("0").unwrap();
    assert_eq!(qp.link, link.link);
    assert_eq!(qp.partition_id.as_deref(), Some("0"));
}

#[test]
fn close_is_terminal() {
    let mut c = ProducerClient::new("ns.example.com".to_string(), "eh1".to_string(), None);
    let opened = c.complete_open().unwrap();
    let path = "amqps://ns.example.com/eh1".to_string();
    drive_sender(&mut c, &path);

    // Close succeeds once, against the open connection.
    assert_eq!(c.plan_close(), Ok(opened));
    c.complete_close().unwrap();

    // Everything afterwards is refused: the connection is gone.
    assert_eq!(c.plan_close(), Err(ErrorKind::MissingConnection));
    assert_eq!(c.complete_close(), Err(ErrorKind::MissingConnection));
    let batch = c.create_batch(None);
    assert_eq!(c.plan_submit(&batch), Err(ErrorKind::MissingConnection));
    assert!(matches!(c.plan_open(), Err(ErrorKind::MissingConnection)));
    assert!(matches!(c.plan_authorize(&path), Err(ErrorKind::MissingConnection)));
    assert!(matches!(c.plan_sender(&path), Err(ErrorKind::MissingConnection)));
    assert_eq!(c.plan_get_eventhub_properties().err(), Some(ErrorKind::MissingConnection));
    assert_eq!(c.complete_open(), Err(ErrorKind::MissingConnection));
}
