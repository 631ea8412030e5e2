use pinata_gateway::errors::ApiError;
use pinata_gateway::models::{PhotoMetadata, PinataUploadData, PinataUploadResponse};
use pinata_gateway::multipart::{
    classify_field, collect_upload_batch, parse_bool_flag, FieldKind, ParsedField,
};

fn metadata(title: &str) -> PhotoMetadata {
    PhotoMetadata {
        title: title.to_string(),
        description: String::new(),
        category: "cats".to_string(),
        camera: String::new(),
        lens: String::new(),
        iso: String::new(),
        aperture: String::new(),
        shutter_speed: String::new(),
    }
}

#[test]
fn field_names_dispatch_by_name_and_prefix() {
    assert_eq!(classify_field("createNewGroup"), FieldKind::CreateNewGroup);
    assert_eq!(classify_field("groupId"), FieldKind::GroupId);
    assert_eq!(classify_field("groupName"), FieldKind::GroupName);
    assert_eq!(
        classify_field("file_abc"),
        FieldKind::FileData { file_id: "file_abc".to_string() }
    );
    assert_eq!(
        classify_field("metadata_file_abc"),
        FieldKind::Metadata { file_id: "file_abc".to_string() }
    );
    assert_eq!(classify_field("somethingElse"), FieldKind::Other);
    assert_eq!(classify_field(""), FieldKind::Other);
}

#[test]
fn only_the_exact_text_true_sets_the_flag() {
    assert!(parse_bool_flag("true"));
    assert!(!parse_bool_flag("false"));
    assert!(!parse_bool_flag("TRUE"));
    assert!(!parse_bool_flag("yes"));
    assert!(!parse_bool_flag(""));
}

#[test]
fn batch_pairs_files_with_their_metadata() {
    let fields = vec![
        ParsedField::CreateNewGroup("true".to_string()),
        ParsedField::GroupName("Holidays".to_string()),
        ParsedField::FileData {
            file_id: "file_1".to_string(),
            file_name: "a.jpg".to_string(),
            data: vec![1, 2],
        },
        ParsedField::Metadata { file_id: "file_1".to_string(), metadata: metadata("A") },
        ParsedField::Metadata { file_id: "file_2".to_string(), metadata: metadata("B") },
        ParsedField::FileData {
            file_id: "file_2".to_string(),
            file_name: "b.jpg".to_string(),
            data: vec![3],
        },
        ParsedField::Other,
    ];
    let batch = collect_upload_batch(fields).unwrap();
    assert!(batch.create_new_group);
    assert!(batch.group_id.is_none());
    assert_eq!(batch.group_name.as_deref(), Some("Holidays"));
    assert_eq!(batch.jobs.len(), 2);
    assert_eq!(batch.jobs[0].file_id, "file_1");
    assert_eq!(batch.jobs[0].file_name, "a.jpg");
    assert_eq!(batch.jobs[0].data, vec![1, 2]);
    assert_eq!(batch.jobs[0].metadata.title, "A");
    assert_eq!(batch.jobs[1].file_id, "file_2");
    assert_eq!(batch.jobs[1].metadata.title, "B");
}

#[test]
fn a_file_without_metadata_fails_the_batch() {
    let fields = vec![ParsedField::FileData {
        file_id: "file_9".to_string(),
        file_name: "x.jpg".to_string(),
        data: Vec::new(),
    }];
    match collect_upload_batch(fields) {
        Err(ApiError::Api(msg)) => assert_eq!(msg, "Missing metadata for file: file_9"),
        other => panic!("expected the missing-metadata error, got {other:?}"),
    }
}

#[test]
fn a_repeated_file_id_replaces_the_stored_part_in_place() {
    let fields = vec![
        ParsedField::FileData {
            file_id: "file_1".to_string(),
            file_name: "old.jpg".to_string(),
            data: vec![1],
        },
        ParsedField::FileData {
            file_id: "file_2".to_string(),
            file_name: "other.jpg".to_string(),
            data: vec![2],
        },
        ParsedField::FileData {
            file_id: "file_1".to_string(),
            file_name: "new.jpg".to_string(),
            data: vec![9],
        },
        ParsedField::Metadata { file_id: "file_1".to_string(), metadata: metadata("A") },
        ParsedField::Metadata { file_id: "file_2".to_string(), metadata: metadata("B") },
    ];
    let batch = collect_upload_batch(fields).unwrap();
    assert_eq!(batch.jobs.len(), 2);
    assert_eq!(batch.jobs[0].file_id, "file_1");
    assert_eq!(batch.jobs[0].file_name, "new.jpg");
    assert_eq!(batch.jobs[0].data, vec![9]);
    assert_eq!(batch.jobs[1].file_id, "file_2");
}

#[test]
fn the_last_control_field_wins() {
    let fields = vec![
        ParsedField::CreateNewGroup("true".to_string()),
        ParsedField::CreateNewGroup("false".to_string()),
        ParsedField::GroupId("g1".to_string()),
        ParsedField::GroupId("g2".to_string()),
    ];
    let batch = collect_upload_batch(fields).unwrap();
    assert!(!batch.create_new_group);
    assert_eq!(batch.group_id.as_deref(), Some("g2"));
    assert!(batch.jobs.is_empty());
}

#[test]
fn upstream_upload_record_projects_to_the_visible_one() {
    let response = PinataUploadResponse {
        data: PinataUploadData {
            id: "id1".to_string(),
            name: "a.jpg".to_string(),
            cid: "cid1".to_string(),
            created_at: "2024-01-01".to_string(),
            size: 12,
            number_of_files: 1,
            mime_type: "image/jpeg".to_string(),
            group_id: Some("g1".to_string()),
            keyvalues: None,
        },
    };
    let info = response.data.to_uploaded_file_info();
    assert_eq!(info.id, "id1");
    assert_eq!(info.name, "a.jpg");
    assert_eq!(info.cid, "cid1");
    assert_eq!(info.group_id.as_deref(), Some("g1"));
}
