use std::str::FromStr;
use valqeron::common::{
    proto_timestamp_fits, UtcInstant, WriteOutcome, INSTANT_MAX_SECONDS, INSTANT_MIN_SECONDS,
};
use valqeron::domain::issuer::{Issuer, IssuerId, IssuerName, IssuerPatch, IssuerStatus};
use valqeron::engine_client::{
    background_task_detail, background_task_from_message, background_tasks_from_messages,
    classify_connect_error,
    map_status, patch_issuer_message, delete_issuer_message, BackgroundTaskMessage, ProtoTimestamp, IoFailure, IoFailureKind, RpcCode,
    check_handshake, issuer_from_message, issuer_to_register_message, parse_issuer_id,
    parse_timestamp, write_outcome_from_message, ClientError, ClientOptions, DeleteIssuerRequest,
    EngineInfo, IssuerMappingError, IssuerMessage, PatchIssuerRequest, RegisterIssuerRequest,
    SocketPath, WriteOutcomeMessage,
};
use valqeron::identifiers::{Cnpj, CountryCode, Lei};

const SAMPLE_ID: &str = "018f6e80-8e2b-7b00-a54b-d7d8e9f01234";
const SAMPLE_CREATED_AT: UtcInstant = UtcInstant { seconds: 1_788_206_400, nanos: 0 };

fn sample_issuer() -> Issuer {
    Issuer::builder()
        .id(parse_issuer_id(SAMPLE_ID).unwrap())
        .status(IssuerStatus::Active)
        .created_at(parse_timestamp("2026-08-31T20:00:00Z").unwrap())
        .name(IssuerName::new("Valqeron Corp").unwrap())
        .cnpj(Cnpj::parse("11222333000181").unwrap())
        .lei(Lei::parse("5493006MHB84DD0ZWV18").unwrap())
        .country_code(CountryCode::parse("BR").unwrap())
        .build()
        .unwrap()
}

fn sample_issuer_message() -> IssuerMessage {
    IssuerMessage {
        id: SAMPLE_ID.to_string(),
        version: 1,
        name: Some("Valqeron Corp".to_string()),
        status: "ACTIVE".to_string(),
        cnpj: Some("11222333000181".to_string()),
        lei: Some("5493006MHB84DD0ZWV18".to_string()),
        country_code: Some("BR".to_string()),
        created_at: "2026-08-31T20:00:00Z".to_string(),
    }
}

#[test]
fn register_request_builder() {
    let issuer = sample_issuer();
    let req = RegisterIssuerRequest::new(issuer.clone());
    assert!(!req.is_dry_run());

    let req = req.dry_run();
    assert!(req.is_dry_run());

    let req = req.dry_run_if(false);
    assert!(!req.is_dry_run());

    let req = req.dry_run_if(true);
    assert!(req.is_dry_run());

    let cloned = req.clone();
    assert!(cloned.is_dry_run());
}

#[test]
fn patch_request_builder() {
    let patch = IssuerPatch::builder().status(IssuerStatus::Retired).build();
    let req = PatchIssuerRequest::new(5, patch);
    assert_eq!(req.expected_version(), 5);
    assert!(!req.is_dry_run());

    let req = req.dry_run();
    assert!(req.is_dry_run());

    let cloned = req.clone();
    assert_eq!(cloned.expected_version(), 5);
    assert!(cloned.is_dry_run());
}

#[test]
fn delete_request_builder() {
    let req = DeleteIssuerRequest::new(3);
    assert_eq!(req.expected_version(), 3);
    assert!(!req.is_dry_run());

    let req = req.dry_run();
    assert!(req.is_dry_run());

    let copied = req;
    assert_eq!(copied.expected_version(), 3);
    assert!(copied.is_dry_run());
}

#[test]
fn write_outcome_from_proto_mapping() {
    assert_eq!(
        write_outcome_from_message(Some(WriteOutcomeMessage::Applied)).unwrap(),
        WriteOutcome::Applied
    );
    assert_eq!(
        write_outcome_from_message(Some(WriteOutcomeMessage::VersionMismatch {
            expected: 2,
            actual: 4,
        }))
        .unwrap(),
        WriteOutcome::VersionMismatch { expected: 2, actual: 4 }
    );
    assert_eq!(
        write_outcome_from_message(Some(WriteOutcomeMessage::Missing)).unwrap(),
        WriteOutcome::Missing
    );
    assert!(matches!(
        write_outcome_from_message(None).unwrap_err(),
        IssuerMappingError::MissingField("outcome")
    ));
}

#[test]
fn issuer_from_proto_full_and_minimal() {
    let msg = sample_issuer_message();
    let versioned = issuer_from_message(&msg).unwrap();
    assert_eq!(versioned.version, 1);
    assert_eq!(versioned.data.id().value(), SAMPLE_ID);
    assert_eq!(versioned.data.status(), IssuerStatus::Active);
    assert_eq!(versioned.data.name().map(IssuerName::as_str), Some("Valqeron Corp"));
    assert_eq!(versioned.data.cnpj().map(Cnpj::as_str), Some("11222333000181"));
    assert_eq!(versioned.data.lei().map(Lei::as_str), Some("5493006MHB84DD0ZWV18"));
    assert_eq!(versioned.data.country_code().map(CountryCode::as_str), Some("BR"));

    let minimal = IssuerMessage {
        id: SAMPLE_ID.to_string(),
        version: 2,
        name: None,
        status: "RETIRED".to_string(),
        cnpj: None,
        lei: None,
        country_code: None,
        created_at: "2026-08-31T20:00:00Z".to_string(),
    };
    let min_versioned = issuer_from_message(&minimal).unwrap();
    assert_eq!(min_versioned.version, 2);
    assert_eq!(min_versioned.data.status(), IssuerStatus::Retired);
    assert!(min_versioned.data.name().is_none());
    assert!(min_versioned.data.cnpj().is_none());
    assert!(min_versioned.data.lei().is_none());
    assert!(min_versioned.data.country_code().is_none());
}

#[test]
fn issuer_from_proto_invalid_fields() {
    let valid = sample_issuer_message();

    let mut invalid_id = valid.clone();
    invalid_id.id = "not-a-uuid".to_string();
    assert!(matches!(
        issuer_from_message(&invalid_id).unwrap_err(),
        IssuerMappingError::InvalidId(_)
    ));

    let mut invalid_ts = valid.clone();
    invalid_ts.created_at = "not-a-timestamp".to_string();
    assert!(matches!(
        issuer_from_message(&invalid_ts).unwrap_err(),
        IssuerMappingError::InvalidTimestamp(_)
    ));

    let mut invalid_status = valid.clone();
    invalid_status.status = "UNKNOWN_STATUS".to_string();
    assert!(matches!(
        issuer_from_message(&invalid_status).unwrap_err(),
        IssuerMappingError::Status(_)
    ));

    let mut invalid_cnpj = valid.clone();
    invalid_cnpj.cnpj = Some("123".to_string());
    assert!(matches!(
        issuer_from_message(&invalid_cnpj).unwrap_err(),
        IssuerMappingError::Cnpj(_)
    ));

    let mut invalid_lei = valid.clone();
    invalid_lei.lei = Some("invalid-lei".to_string());
    assert!(matches!(
        issuer_from_message(&invalid_lei).unwrap_err(),
        IssuerMappingError::Lei(_)
    ));

    let mut invalid_cc = valid.clone();
    invalid_cc.country_code = Some("INVALID".to_string());
    assert!(matches!(
        issuer_from_message(&invalid_cc).unwrap_err(),
        IssuerMappingError::CountryCode(_)
    ));

    let mut invalid_name = valid.clone();
    invalid_name.name = Some("".to_string());
    assert!(matches!(
        issuer_from_message(&invalid_name).unwrap_err(),
        IssuerMappingError::Name(_)
    ));
}

#[test]
fn issuer_from_message_rejects_cnpj_outside_brazil() {
    let mut msg = sample_issuer_message();
    msg.country_code = Some("US".to_string());
    assert!(matches!(
        issuer_from_message(&msg).unwrap_err(),
        IssuerMappingError::Builder(_)
    ));
}

#[test]
fn issuer_from_message_defaults_country_for_cnpj() {
    let mut msg = sample_issuer_message();
    msg.country_code = None;
    let versioned = issuer_from_message(&msg).unwrap();
    assert_eq!(versioned.data.country_code().map(CountryCode::as_str), Some("BR"));
}

#[test]
fn parse_issuer_id_and_timestamp() {
    assert_eq!(parse_issuer_id(SAMPLE_ID).unwrap().value(), SAMPLE_ID);
    assert!(parse_issuer_id("invalid").is_err());

    assert_eq!(
        parse_timestamp("2026-08-31T20:00:00Z").unwrap(),
        SAMPLE_CREATED_AT
    );
    assert_eq!(
        parse_timestamp("2026-08-31T22:00:00+02:00").unwrap(),
        SAMPLE_CREATED_AT
    );

    assert!(parse_timestamp("bad-time").is_err());
}

#[test]
fn parsed_timestamps_keep_nanoseconds() {
    assert_eq!(
        parse_timestamp("2026-08-31T20:00:00.123456789Z").unwrap(),
        UtcInstant { seconds: 1_788_206_400, nanos: 123_456_789 }
    );
    assert_eq!(
        parse_timestamp("1969-12-31T23:59:59.5Z").unwrap(),
        UtcInstant { seconds: -1, nanos: 500_000_000 }
    );
}

#[test]
fn parse_issuer_id_reads_back_a_printed_id() {
    let id = IssuerId::new();
    let text = id.value();
    assert_eq!(parse_issuer_id(&text).unwrap(), id);
}

#[test]
fn issuer_to_register_request_mapping() {
    let issuer = sample_issuer();
    let msg = issuer_to_register_message(&issuer, true);
    assert!(msg.dry_run);
    assert_eq!(msg.name.as_deref(), Some("Valqeron Corp"));
    assert_eq!(msg.status.as_deref(), Some("ACTIVE"));
    assert_eq!(msg.cnpj.as_deref(), Some("11222333000181"));
    assert_eq!(msg.lei.as_deref(), Some("5493006MHB84DD0ZWV18"));
    assert_eq!(msg.country_code.as_deref(), Some("BR"));

    let msg_false = issuer_to_register_message(&issuer, false);
    assert!(!msg_false.dry_run);
}

#[test]
fn error_display_messages() {
    let err_id = IssuerMappingError::InvalidId("abc".to_string());
    assert!(err_id.to_string().contains("invalid issuer id: abc"));

    let err_ts = IssuerMappingError::InvalidTimestamp("xyz".to_string());
    assert!(err_ts.to_string().contains("invalid created_at timestamp: xyz"));

    let err_field = IssuerMappingError::MissingField("outcome");
    assert_eq!(err_field.to_string(), "missing required field `outcome`");

    let err_name: IssuerMappingError = IssuerName::new("").unwrap_err().into();
    assert!(err_name.to_string().contains("empty"));

    let err_status: IssuerMappingError = IssuerStatus::from_str("INVALID").unwrap_err().into();
    assert!(err_status.to_string().contains("Invalid status"));

    let err_cnpj: IssuerMappingError = Cnpj::parse("123").unwrap_err().into();
    assert!(!err_cnpj.to_string().is_empty());

    let err_lei: IssuerMappingError = Lei::parse("bad").unwrap_err().into();
    assert!(!err_lei.to_string().is_empty());

    let err_cc: IssuerMappingError = CountryCode::parse("XYZ").unwrap_err().into();
    assert!(!err_cc.to_string().is_empty());
}

#[test]
fn error_display_names_both_protocol_versions() {
    let err = ClientError::VersionMismatch {
        client_protocol: 1,
        engine_protocol: 2,
        client_version: "0.1.0".into(),
        engine_version: "0.9.0".into(),
    };
    let text = err.to_string();
    assert!(text.contains("protocol v2"), "{text}");
    assert!(text.contains("protocol v1"), "{text}");
    assert!(text.contains("0.9.0"), "{text}");
}

#[test]
fn handshake_accepts_matching_protocol_and_names_both_sides_otherwise() {
    let ok = check_handshake(
        1,
        "0.1.0",
        EngineInfo { engine_version: "0.1.0".to_string(), protocol_version: 1 },
    );
    assert_eq!(ok.unwrap().protocol_version, 1);

    let err = check_handshake(
        1,
        "0.1.0",
        EngineInfo { engine_version: "0.2.0".to_string(), protocol_version: 2 },
    )
    .unwrap_err();
    match err {
        ClientError::VersionMismatch {
            client_protocol,
            engine_protocol,
            client_version,
            engine_version,
        } => {
            assert_eq!(client_protocol, 1);
            assert_eq!(engine_protocol, 2);
            assert_eq!(client_version, "0.1.0");
            assert_eq!(engine_version, "0.2.0");
        }
        other => panic!("unexpected error {other:?}"),
    }
}

#[test]
fn not_running_error_is_recognised_and_names_the_socket() {
    let err = ClientError::NotRunning { socket: "/tmp/x.sock".to_string() };
    assert!(err.is_not_running());
    assert!(err.to_string().starts_with("no engine is running on /tmp/x.sock"));
    let other = ClientError::Config("bad".to_string());
    assert!(!other.is_not_running());
    assert_eq!(other.to_string(), "client configuration error: bad");
}

#[test]
fn socket_resolution_prefers_the_environment_then_the_data_dir() {
    let from_env = SocketPath::resolve_with(Some("/run/v.sock"), Some("/data")).unwrap();
    assert_eq!(from_env.as_str(), "/run/v.sock");
    let from_dir = SocketPath::resolve_with(None, Some("/data")).unwrap();
    assert_eq!(from_dir.as_str(), "/data/valqeron.sock");
    assert!(SocketPath::resolve_with(None, None).is_err());
    let trailing = SocketPath::resolve_with(None, Some("/data/")).unwrap();
    assert_eq!(trailing.as_str(), "/data/valqeron.sock");
}

#[test]
fn client_options_setters_keep_other_fields() {
    let options = ClientOptions::default()
        .with_socket("/tmp/e.sock")
        .with_connect_timeout(std::time::Duration::from_millis(250));
    assert_eq!(options.socket.as_deref(), Some("/tmp/e.sock"));
    assert_eq!(options.connect_timeout, Some(std::time::Duration::from_millis(250)));
    assert_eq!(options.request_timeout, None);
}

fn instant(seconds: i64, nanos: u32) -> UtcInstant {
    UtcInstant { seconds, nanos }
}

fn ts(seconds: i64, nanos: i32) -> ProtoTimestamp {
    ProtoTimestamp { seconds, nanos }
}

fn task_message(id_len: usize, created_at: Option<ProtoTimestamp>) -> BackgroundTaskMessage {
    BackgroundTaskMessage { id: vec![7u8; id_len], name: "sync".to_string(), created_at }
}

#[test]
fn background_task_detail_follows_the_reading_of_its_time() {
    let id = vec![7u8; 16];
    let name = "sync".to_string();
    let ok = background_task_detail(&id, &name, Some(Ok(instant(42, 123_456_789)))).unwrap();
    assert_eq!(ok.id, [7u8; 16]);
    assert_eq!(ok.name, "sync");
    assert_eq!(ok.created_at, instant(42, 123_456_789));

    match background_task_detail(&vec![7u8; 3], &name, Some(Ok(instant(42, 0)))) {
        Err(ClientError::InvalidResponse(m)) => {
            assert_eq!(m, "Malformed UUID: invalid length: expected 16 bytes, found 3")
        }
        other => panic!("unexpected {other:?}"),
    }
    match background_task_detail(&id, &name, None) {
        Err(ClientError::InvalidResponse(m)) => assert_eq!(m, "Missing created_at timestamp"),
        other => panic!("unexpected {other:?}"),
    }
    match background_task_detail(&id, &name, Some(Err("too far".to_string()))) {
        Err(ClientError::InvalidResponse(m)) => assert_eq!(m, "Invalid timestamp range: too far"),
        other => panic!("unexpected {other:?}"),
    }
}

#[test]
fn background_tasks_read_from_the_reply() {
    let ok = background_task_from_message(&task_message(16, Some(ts(42, 123_456_789)))).unwrap();
    assert_eq!(ok.id, [7u8; 16]);
    assert_eq!(ok.name, "sync");
    assert_eq!(ok.created_at, instant(42, 123_456_789));

    // Nanoseconds outside one second are carried into the seconds.
    let carried = background_task_from_message(&task_message(16, Some(ts(42, -1)))).unwrap();
    assert_eq!(carried.created_at, instant(41, 999_999_999));
    let carried = background_task_from_message(&task_message(16, Some(ts(42, 1_500_000_000)))).unwrap();
    assert_eq!(carried.created_at, instant(43, 500_000_000));

    match background_task_from_message(&task_message(3, Some(ts(42, 0)))) {
        Err(ClientError::InvalidResponse(m)) => {
            assert_eq!(m, "Malformed UUID: invalid length: expected 16 bytes, found 3")
        }
        other => panic!("unexpected {other:?}"),
    }
    match background_task_from_message(&task_message(16, None)) {
        Err(ClientError::InvalidResponse(m)) => assert_eq!(m, "Missing created_at timestamp"),
        other => panic!("unexpected {other:?}"),
    }

    let all = background_tasks_from_messages(vec![
        task_message(16, Some(ts(1, 0))),
        task_message(16, Some(ts(2, 5))),
    ])
    .unwrap();
    assert_eq!(all.len(), 2);
    assert_eq!(all[1].created_at, instant(2, 5));
    assert!(background_tasks_from_messages(vec![task_message(16, Some(ts(1, 0))), task_message(2, None)])
        .is_err());
}

#[test]
fn proto_timestamp_range_is_that_of_date_time() {
    assert!(proto_timestamp_fits(0, 0));
    assert!(proto_timestamp_fits(INSTANT_MAX_SECONDS, 999_999_999));
    assert!(!proto_timestamp_fits(INSTANT_MAX_SECONDS, 1_000_000_000));
    assert!(proto_timestamp_fits(INSTANT_MIN_SECONDS, 0));
    assert!(!proto_timestamp_fits(INSTANT_MIN_SECONDS, -1));
    assert!(!proto_timestamp_fits(i64::MAX, 0));
    assert!(chrono::DateTime::from_timestamp(INSTANT_MAX_SECONDS, 999_999_999).is_some());
    assert!(chrono::DateTime::from_timestamp(INSTANT_MAX_SECONDS + 1, 0).is_none());
    assert!(chrono::DateTime::from_timestamp(INSTANT_MIN_SECONDS, 0).is_some());
    assert!(chrono::DateTime::from_timestamp(INSTANT_MIN_SECONDS - 1, 0).is_none());
}

#[test]
fn call_status_maps_to_client_errors() {
    match map_status("/tmp/e.sock", RpcCode::Unavailable, "down") {
        ClientError::Unreachable { socket, message } => {
            assert_eq!(socket, "/tmp/e.sock");
            assert_eq!(message, "down");
        }
        other => panic!("unexpected {other:?}"),
    }
    match map_status("/tmp/e.sock", RpcCode::AlreadyExists, "already exists") {
        ClientError::Rpc { code, message } => {
            assert_eq!(code, "AlreadyExists");
            assert_eq!(message, "already exists");
        }
        other => panic!("unexpected {other:?}"),
    }
    assert_eq!(RpcCode::Success.as_str(), "Ok");
}

#[test]
fn connect_failures_are_classified() {
    let refused = IoFailure { kind: IoFailureKind::ConnectionRefused, message: "refused".into() };
    assert!(classify_connect_error("/s", Some(refused), "x").is_not_running());
    let missing = IoFailure { kind: IoFailureKind::NotFound, message: "no such file".into() };
    assert!(classify_connect_error("/s", Some(missing), "x").is_not_running());
    let other = IoFailure { kind: IoFailureKind::Other, message: "permission denied".into() };
    match classify_connect_error("/s", Some(other), "x") {
        ClientError::Unreachable { message, .. } => assert_eq!(message, "permission denied"),
        e => panic!("unexpected {e:?}"),
    }
    match classify_connect_error("/s", None, "transport error") {
        ClientError::Unreachable { message, .. } => assert_eq!(message, "transport error"),
        e => panic!("unexpected {e:?}"),
    }
}

#[test]
fn patch_and_delete_messages_carry_the_request() {
    let id = parse_issuer_id(SAMPLE_ID).unwrap();
    let patch = IssuerPatch::builder().name(IssuerName::new("New Name").unwrap()).build();
    let msg = patch_issuer_message(&id, &PatchIssuerRequest::new(1, patch).dry_run());
    assert_eq!(msg.id, SAMPLE_ID);
    assert_eq!(msg.expected_version, 1);
    assert_eq!(msg.name.as_deref(), Some("New Name"));
    assert!(msg.status.is_none());
    assert!(msg.dry_run);

    let status_only = IssuerPatch::builder().status(IssuerStatus::Retired).build();
    let msg = patch_issuer_message(&id, &PatchIssuerRequest::new(2, status_only));
    assert_eq!(msg.status.as_deref(), Some("RETIRED"));
    assert!(!msg.dry_run);

    let del = delete_issuer_message(&id, &DeleteIssuerRequest::new(4).dry_run());
    assert_eq!(del.id, SAMPLE_ID);
    assert_eq!(del.expected_version, 4);
    assert!(del.dry_run);
}
