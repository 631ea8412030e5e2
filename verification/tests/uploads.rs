use pinata_gateway::errors::ApiError;
use pinata_gateway::models::{GroupInfo, PhotoMetadata, PhotoUpload, UploadedFileInfo};
use pinata_gateway::uploads::{
    build_form, build_form_for, build_upload_response, plan_group_resolution,
    run_upload_attempts, upload_submit_step, GroupPlan, RetryDecision,
};

fn metadata() -> PhotoMetadata {
    PhotoMetadata {
        title: "Sunset".to_string(),
        description: "Evening light".to_string(),
        category: "landscape".to_string(),
        camera: "A7".to_string(),
        lens: String::new(),
        iso: "100".to_string(),
        aperture: String::new(),
        shutter_speed: "1/250".to_string(),
    }
}

fn accepted(id: &str, group: Option<&str>) -> UploadedFileInfo {
    UploadedFileInfo {
        id: id.to_string(),
        name: format!("{id}.jpg"),
        cid: format!("cid-{id}"),
        group_id: group.map(|g| g.to_string()),
    }
}

fn timeout_error() -> ApiError {
    ApiError::Request { timeout: true, connect: false, message: "timed out".to_string() }
}

#[test]
fn form_building_is_idempotent() {
    let data = vec![1u8, 2, 3];
    let name = "sunset.jpg".to_string();
    let meta = metadata();
    let gid = Some("g1".to_string());
    let f1 = build_form(&data, &name, &meta, &gid);
    let f2 = build_form(&data, &name, &meta, &gid);
    assert_eq!(f1.network, f2.network);
    assert_eq!(f1.file_data, f2.file_data);
    assert_eq!(f1.file_name, f2.file_name);
    assert_eq!(f1.name, f2.name);
    assert_eq!(f1.group_id, f2.group_id);
    assert_eq!(f1.keyvalues_json, f2.keyvalues_json);
}

#[test]
fn form_fields_come_from_the_request() {
    let data = vec![9u8];
    let name = "a.jpg".to_string();
    let meta = metadata();
    let form = build_form(&data, &name, &meta, &None);
    assert_eq!(form.network, "public");
    assert_eq!(form.file_data, vec![9u8]);
    assert_eq!(form.file_name, "a.jpg");
    assert_eq!(form.name, "Sunset");
    assert!(form.group_id.is_none());
}

#[test]
fn empty_metadata_fields_are_omitted_from_keyvalues() {
    let data = Vec::new();
    let name = "a.jpg".to_string();
    let meta = metadata();
    let form = build_form(&data, &name, &meta, &None);
    // lens and aperture are empty and must be absent; keys come out in
    // the encoder's sorted order.
    assert_eq!(
        form.keyvalues_json,
        r#"{"camera":"A7","category":"landscape","description":"Evening light","iso":"100","shutterSpeed":"1/250"}"#
    );
}

#[test]
fn category_is_always_present_in_keyvalues() {
    let meta = PhotoMetadata {
        title: "T".to_string(),
        description: String::new(),
        category: String::new(),
        camera: String::new(),
        lens: String::new(),
        iso: String::new(),
        aperture: String::new(),
        shutter_speed: String::new(),
    };
    let form = build_form(&Vec::new(), &"a".to_string(), &meta, &None);
    assert_eq!(form.keyvalues_json, r#"{"category":""}"#);
}

#[test]
fn form_for_upload_payload_matches_piecewise_build() {
    let upload = PhotoUpload {
        file: vec![5u8, 6],
        filename: "b.jpg".to_string(),
        content_type: "image/jpeg".to_string(),
        metadata: metadata(),
    };
    let gid = Some("g7".to_string());
    let whole = build_form_for(&upload, &gid);
    let pieces = build_form(&upload.file, &upload.filename, &upload.metadata, &gid);
    assert_eq!(whole, pieces);
}

#[test]
fn creating_a_group_needs_a_name() {
    let info = GroupInfo { create_new_group: true, group_id: None, group_name: None };
    match plan_group_resolution(&info) {
        Err(ApiError::Api(msg)) => {
            assert_eq!(msg, "Group name is needed for new group creations");
        }
        other => panic!("expected the missing-name error, got {other:?}"),
    }
}

#[test]
fn group_plan_follows_the_intent() {
    let create = GroupInfo {
        create_new_group: true,
        group_id: None,
        group_name: Some("My Group".to_string()),
    };
    assert_eq!(
        plan_group_resolution(&create).unwrap(),
        GroupPlan::CreateGroup("My Group".to_string())
    );

    let existing = GroupInfo {
        create_new_group: false,
        group_id: Some("g1".to_string()),
        group_name: None,
    };
    assert_eq!(
        plan_group_resolution(&existing).unwrap(),
        GroupPlan::Resolved(Some("g1".to_string()))
    );

    let none = GroupInfo { create_new_group: false, group_id: None, group_name: None };
    assert_eq!(plan_group_resolution(&none).unwrap(), GroupPlan::Resolved(None));
}

#[test]
fn three_timeouts_fail_after_three_backoffs_and_no_fourth_attempt() {
    let outcomes = vec![
        Err(timeout_error()),
        Err(timeout_error()),
        Err(ApiError::Request { timeout: false, connect: true, message: "refused".to_string() }),
    ];
    let run = run_upload_attempts(outcomes);
    assert_eq!(run.attempts, 3);
    assert_eq!(run.delays_ms, vec![2000, 4000, 8000]);
    match run.result {
        Err(ApiError::Request { message, .. }) => assert_eq!(message, "refused"),
        other => panic!("expected the last transport error, got {other:?}"),
    }
}

#[test]
fn a_non_transient_failure_is_terminal_at_once() {
    let outcomes = vec![
        Err(ApiError::Api("Pinata API error (400): bad".to_string())),
        Ok(accepted("f1", None)),
        Ok(accepted("f2", None)),
    ];
    let run = run_upload_attempts(outcomes);
    assert_eq!(run.attempts, 1);
    assert!(run.delays_ms.is_empty());
    match run.result {
        Err(ApiError::Api(msg)) => assert_eq!(msg, "Pinata API error (400): bad"),
        other => panic!("expected the upstream error, got {other:?}"),
    }
}

#[test]
fn success_after_one_timeout_keeps_one_backoff() {
    let outcomes = vec![
        Err(timeout_error()),
        Ok(accepted("f1", Some("g1"))),
        Err(timeout_error()),
    ];
    let run = run_upload_attempts(outcomes);
    assert_eq!(run.attempts, 2);
    assert_eq!(run.delays_ms, vec![2000]);
    assert_eq!(run.result.unwrap().id, "f1");
}

#[test]
fn immediate_success_needs_no_backoff() {
    let outcomes = vec![Ok(accepted("f1", None)), Ok(accepted("f2", None)), Ok(accepted("f3", None))];
    let run = run_upload_attempts(outcomes);
    assert_eq!(run.attempts, 1);
    assert!(run.delays_ms.is_empty());
    assert_eq!(run.result.unwrap().id, "f1");
}

#[test]
fn submit_step_classifies_each_outcome() {
    let (r, d) = upload_submit_step(0, Ok(accepted("f1", None)));
    assert_eq!(r, 0);
    assert!(matches!(d, RetryDecision::Succeed(_)));

    let (r, d) = upload_submit_step(0, Err(ApiError::Json("bad body".to_string())));
    assert_eq!(r, 0);
    assert!(matches!(d, RetryDecision::FailNow(ApiError::Json(_))));

    let (r, d) = upload_submit_step(0, Err(timeout_error()));
    assert_eq!(r, 1);
    assert!(matches!(d, RetryDecision::SleepThenRetry { delay_ms: 2000 }));

    let (r, d) = upload_submit_step(1, Err(timeout_error()));
    assert_eq!(r, 2);
    assert!(matches!(d, RetryDecision::SleepThenRetry { delay_ms: 4000 }));

    let (r, d) = upload_submit_step(2, Err(timeout_error()));
    assert_eq!(r, 3);
    assert!(matches!(d, RetryDecision::SleepThenFail { delay_ms: 8000, .. }));
}

#[test]
fn upload_response_reports_the_first_created_group() {
    let files = vec![accepted("f1", None), accepted("f2", Some("g-new")), accepted("f3", Some("g-other"))];
    let response = build_upload_response(true, None, files);
    assert!(response.success);
    assert_eq!(response.group_id.as_deref(), Some("g-new"));
    assert_eq!(response.files.len(), 3);
    assert!(response.message.is_none());
}

#[test]
fn upload_response_keeps_the_caller_group_when_none_created() {
    let files = vec![accepted("f1", Some("g-upstream"))];
    let response = build_upload_response(false, Some("g-mine".to_string()), files);
    assert_eq!(response.group_id.as_deref(), Some("g-mine"));
}

#[test]
fn error_classification_and_reporting() {
    assert!(timeout_error().is_retryable());
    assert!(ApiError::Request { timeout: false, connect: true, message: String::new() }.is_retryable());
    assert!(!ApiError::Request { timeout: false, connect: false, message: String::new() }.is_retryable());
    assert!(!ApiError::Api("x".to_string()).is_retryable());
    assert!(!ApiError::Env("missing".to_string()).is_retryable());
    assert!(!ApiError::Json("x".to_string()).is_retryable());
    assert!(!ApiError::UrlParse("x".to_string()).is_retryable());

    let (status, message) = ApiError::Env("PINATA_JWT".to_string()).response_parts();
    assert_eq!((status, message.as_str()), (500, "Server configuration error"));
    let (status, message) = timeout_error().response_parts();
    assert_eq!((status, message.as_str()), (502, "Error communicating with external service"));
    let (status, message) = ApiError::Api("x".to_string()).response_parts();
    assert_eq!((status, message.as_str()), (502, "External API error"));
    let (status, message) = ApiError::UrlParse("x".to_string()).response_parts();
    assert_eq!((status, message.as_str()), (500, "URL parsing error"));
    let (status, message) = ApiError::Json("x".to_string()).response_parts();
    assert_eq!((status, message.as_str()), (500, "JSON parsing error"));

    assert_eq!(timeout_error().detail(), "timed out");
    assert_eq!(ApiError::from("oops".to_string()), ApiError::Api("oops".to_string()));
}
