use app_store_connect::error::ClientError;
use app_store_connect::status::DevIdPlus;
use app_store_connect::status::DevIdPlusInfoResponse;
use app_store_connect::status::LegacyProgress;
use app_store_connect::status::MoreInfo;
use app_store_connect::strfmt::dec_i64;
use app_store_connect::strfmt::dec_u64;
use app_store_connect::strfmt::json_escape;
use app_store_connect::strfmt::str_eq;
use app_store_connect::wire::HttpMethod;
use app_store_connect::wire::NewSubmissionRequest;
use app_store_connect::wire::bearer_header_value;
use app_store_connect::wire::NewSubmissionRequestNotification;
use app_store_connect::wire::NewSubmissionResponse;
use app_store_connect::wire::NewSubmissionResponseData;
use app_store_connect::wire::NewSubmissionResponseDataAttributes;
use app_store_connect::wire::create_submission_plan;
use app_store_connect::wire::encode_new_submission_request;
use app_store_connect::wire::fetch_log_document_plan;
use app_store_connect::wire::get_submission_log_plan;
use app_store_connect::wire::get_submission_plan;
use app_store_connect::wire::legacy_lookup_plan;
use app_store_connect::wire::legacy_lookup_plan_fresh;

#[test]
fn decimal_rendering() {
    assert_eq!(dec_u64(0), "0");
    assert_eq!(dec_u64(7), "7");
    assert_eq!(dec_u64(66), "66");
    assert_eq!(dec_u64(12045), "12045");
    assert_eq!(dec_u64(u64::MAX), u64::MAX.to_string());
    assert_eq!(dec_i64(0), "0");
    assert_eq!(dec_i64(-1), "-1");
    assert_eq!(dec_i64(i64::MIN), i64::MIN.to_string());
}

#[test]
fn bearer_header() {
    assert_eq!(bearer_header_value("abc.def.ghi"), "Bearer abc.def.ghi");
    assert_eq!(bearer_header_value(""), "Bearer ");
}

#[test]
fn string_equality() {
    assert!(str_eq("", ""));
    assert!(str_eq("Accepted", "Accepted"));
    assert!(!str_eq("Accepted", "Accepte"));
    assert!(!str_eq("Accepted", "accepted"));
}

#[test]
fn escaping_matches_the_json_encoder() {
    for s in [
        "plain",
        "",
        "with \"quotes\" and \\backslash\\",
        "line\nbreak\ttab\rreturn",
        "control \u{1} \u{1f} \u{8} \u{c}",
        "unicode \u{e9}\u{4e2d}",
    ] {
        let expected = serde_json::to_string(s).unwrap();
        let got = format!("\"{}\"", json_escape(s));
        assert_eq!(got, expected);
    }
}

#[test]
fn new_submission_body_round_trip() {
    let req = NewSubmissionRequest {
        notifications: Vec::new(),
        sha256: "5a1e4c2b".to_string(),
        submission_name: "My App.zip".to_string(),
    };
    let body = encode_new_submission_request(&req);
    assert_eq!(
        body,
        "{\"notifications\":[],\"sha256\":\"5a1e4c2b\",\"submissionName\":\"My App.zip\"}"
    );
    // The body must decode back to the very fields it was built from.
    let value: serde_json::Value = serde_json::from_str(&body).unwrap();
    assert_eq!(value.get("sha256").and_then(|v| v.as_str()), Some("5a1e4c2b"));
    assert_eq!(value.get("submissionName").and_then(|v| v.as_str()), Some("My App.zip"));
    assert_eq!(value.get("notifications").and_then(|v| v.as_array()).map(|a| a.len()), Some(0));
}

#[test]
fn new_submission_body_with_notifications() {
    let req = NewSubmissionRequest {
        notifications: vec![
            NewSubmissionRequestNotification {
                channel: "webhook".to_string(),
                target: "https://hooks.example/a".to_string(),
            },
            NewSubmissionRequestNotification {
                channel: "mail".to_string(),
                target: "ops@example.com".to_string(),
            },
        ],
        sha256: "00ff".to_string(),
        submission_name: "n".to_string(),
    };
    let body = encode_new_submission_request(&req);
    assert_eq!(
        body,
        "{\"notifications\":[{\"channel\":\"webhook\",\"target\":\"https://hooks.example/a\"},{\"channel\":\"mail\",\"target\":\"ops@example.com\"}],\"sha256\":\"00ff\",\"submissionName\":\"n\"}"
    );
}

#[test]
fn create_submission_fixture_round_trip() {
    let plan = create_submission_plan("tok-1", "5a1e4c2b", "My App.zip");
    assert_eq!(plan.method, HttpMethod::Post);
    assert_eq!(plan.url, "https://appstoreconnect.apple.com/notary/v2/submissions");
    assert_eq!(plan.bearer_token.as_deref(), Some("tok-1"));
    assert!(plan.accept_json);
    assert!(plan.content_type_json);
    assert_eq!(
        plan.body.as_deref(),
        Some("{\"notifications\":[],\"sha256\":\"5a1e4c2b\",\"submissionName\":\"My App.zip\"}")
    );

    // A fixture response, decoded the way the transport shell decodes it.
    let fixture = "{\"data\":{\"attributes\":{\"awsAccessKeyId\":\"AKIAFIXTURE\",\"awsSecretAccessKey\":\"SECRETFIXTURE\",\"awsSessionToken\":\"SESSIONFIXTURE\",\"bucket\":\"notary-bucket\",\"object\":\"uploads/1\"},\"id\":\"sub-9\",\"type\":\"newSubmissions\"},\"meta\":{}}";
    let value: serde_json::Value = serde_json::from_str(fixture).unwrap();
    let data = value.get("data").unwrap();
    let attributes = data.get("attributes").unwrap();
    let field = |name: &str| attributes.get(name).unwrap().as_str().unwrap().to_string();
    let response = NewSubmissionResponse {
        data: NewSubmissionResponseData {
            attributes: NewSubmissionResponseDataAttributes {
                aws_access_key_id: field("awsAccessKeyId"),
                aws_secret_access_key: field("awsSecretAccessKey"),
                aws_session_token: field("awsSessionToken"),
                bucket: field("bucket"),
                object: field("object"),
            },
            id: data.get("id").unwrap().as_str().unwrap().to_string(),
            type_: data.get("type").unwrap().as_str().unwrap().to_string(),
        },
        meta: value.get("meta").unwrap().clone(),
    };
    assert_eq!(response.data.attributes.aws_access_key_id, "AKIAFIXTURE");
    assert_eq!(response.data.attributes.aws_secret_access_key, "SECRETFIXTURE");
    assert_eq!(response.data.attributes.aws_session_token, "SESSIONFIXTURE");
    assert_eq!(response.data.attributes.bucket, "notary-bucket");
    assert_eq!(response.data.attributes.object, "uploads/1");
    assert_eq!(response.data.id, "sub-9");
}

#[test]
fn submission_urls() {
    let plan = get_submission_plan("tok", "sub-123");
    assert_eq!(plan.method, HttpMethod::Get);
    assert_eq!(plan.url, "https://appstoreconnect.apple.com/notary/v2/submissions/sub-123");
    assert_eq!(plan.bearer_token.as_deref(), Some("tok"));
    assert!(plan.accept_json);
    assert!(!plan.content_type_json);
    assert!(plan.body.is_none());

    let plan = get_submission_log_plan("tok", "sub-123");
    assert_eq!(plan.url, "https://appstoreconnect.apple.com/notary/v2/submissions/sub-123/logs");

    let plan = fetch_log_document_plan("https://elsewhere.example/log.json");
    assert_eq!(plan.method, HttpMethod::Get);
    assert_eq!(plan.url, "https://elsewhere.example/log.json");
    assert!(plan.bearer_token.is_none());
    assert!(!plan.accept_json);
}

#[test]
fn legacy_lookup_body_matches_the_json_encoder() {
    let plan = legacy_lookup_plan("tok", "rpc-id-1", "req-uuid-1");
    assert_eq!(plan.method, HttpMethod::Post);
    assert_eq!(
        plan.url,
        "https://contentdelivery.itunes.apple.com/WebObjects/MZLabelService.woa/json/MZITunesProducerService"
    );
    let body = plan.body.unwrap();

    // Build the same envelope with the JSON encoder; its map renders keys in
    // sorted order, which is the order the body states.
    let mut params = serde_json::Map::new();
    params.insert("Application".into(), serde_json::Value::from("apple-codesign"));
    params.insert("ApplicationBundleId".into(), serde_json::Value::from("com.gregoryszorc.rcs"));
    params.insert("DS_PLIST".into(), serde_json::Value::from(""));
    params.insert("RequestUUID".into(), serde_json::Value::from("req-uuid-1"));
    let mut envelope = serde_json::Map::new();
    envelope.insert("id".into(), serde_json::Value::from("rpc-id-1"));
    envelope.insert("jsonrpc".into(), serde_json::Value::from("2.0"));
    envelope.insert(
        "method".into(),
        serde_json::Value::from("developerIDPlusInfoForPackageWithArguments"),
    );
    envelope.insert("params".into(), serde_json::Value::Object(params));
    let expected = serde_json::to_string(&serde_json::Value::Object(envelope)).unwrap();
    assert_eq!(body, expected);
}

#[test]
fn fresh_lookup_ids_are_embedded_and_distinct() {
    let (id1, plan1) = legacy_lookup_plan_fresh("tok", "req-uuid-1");
    let (id2, plan2) = legacy_lookup_plan_fresh("tok", "req-uuid-1");
    assert_eq!(id1.len(), 36);
    assert_eq!(id2.len(), 36);
    assert_ne!(id1, id2);
    assert!(plan1.body.unwrap().contains(&id1));
    assert!(plan2.body.unwrap().contains(&id2));
}

fn legacy_doc_from_json(json: &str) -> DevIdPlusInfoResponse {
    let value: serde_json::Value = serde_json::from_str(json).unwrap();
    let inner = value.get("DevIDPlus").unwrap();
    let text = |name: &str| inner.get(name).and_then(|v| v.as_str()).map(|s| s.to_string());
    DevIdPlusInfoResponse {
        dev_id_plus: DevIdPlus {
            date_str: text("DateStr").unwrap_or_default(),
            log_file_url: text("LogFileURL"),
            more_info: inner.get("MoreInfo").and_then(|v| v.as_object()).map(|m| MoreInfo {
                hash: m.get("Hash").and_then(|v| v.as_str()).map(|s| s.to_string()),
            }),
            request_status: inner.get("RequestStatus").and_then(|v| v.as_i64()).unwrap_or(0),
            request_uuid: text("RequestUUID").unwrap_or_default(),
            status_code: inner.get("StatusCode").and_then(|v| v.as_i64()),
            status_message: text("StatusMessage"),
        },
    }
}

#[test]
fn two_poll_scenario_initial_then_complete() {
    // A stub transport answers the same request id with a stage-one document
    // first and a stage-five document on the next poll; no intermediate call
    // has to succeed.
    let first = legacy_doc_from_json(
        "{\"DevIDPlus\":{\"DateStr\":\"2022-03-01\",\"RequestStatus\":1,\"RequestUUID\":\"req-uuid-1\"}}",
    );
    let second = legacy_doc_from_json(
        "{\"DevIDPlus\":{\"DateStr\":\"2022-03-01\",\"RequestStatus\":1,\"RequestUUID\":\"req-uuid-1\",\"MoreInfo\":{\"Hash\":\"abc123\"},\"StatusCode\":0,\"StatusMessage\":\"Package Approved\",\"LogFileURL\":\"https://logs.example/1\"}}",
    );

    let (_, plan1) = legacy_lookup_plan_fresh("tok", "req-uuid-1");
    assert_eq!(plan1.method, HttpMethod::Post);
    assert_eq!(first.classify(), LegacyProgress::Initial);
    assert!(!first.is_done());
    assert_eq!(first.into_result().err().unwrap(), ClientError::NotarizeIncomplete);

    let (_, plan2) = legacy_lookup_plan_fresh("tok", "req-uuid-1");
    assert_eq!(plan2.method, HttpMethod::Post);
    assert_eq!(second.classify(), LegacyProgress::LogAvailable);
    assert!(second.is_done());
    assert!(second.into_result().is_ok());
}
