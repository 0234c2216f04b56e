use storage_gateway::config::{AwsConfig, Env};
use storage_gateway::listing::{process_listing, sort_files_desc, FileInfo, RawObject};
use storage_gateway::naming::{copy_source, make_object_key, public_url, u64_to_decimal};
use storage_gateway::ops::{
    assemble_post_response, complete_multipart_upload, copy_to_clipboard,
    finish_initiate_multipart, generate_presigned_post, generate_presigned_url_for_part,
    get_app_info, initiate_multipart_upload, plan_delete_file, plan_list_files, plan_rename_file,
    plan_set_object_acl,
};
use storage_gateway::order::str_le;
use storage_gateway::requests::S3Request;

fn full_env() -> Env {
    Env {
        access_key: Some("AKIDEXAMPLE".to_string()),
        secret_key: Some("SECRET-REDACTED".to_string()),
        region: Some("eu-central-1".to_string()),
        bucket: Some("my-bucket".to_string()),
    }
}

#[test]
fn decimal_rendering() {
    assert_eq!(u64_to_decimal(0), "0");
    assert_eq!(u64_to_decimal(7), "7");
    assert_eq!(u64_to_decimal(42), "42");
    assert_eq!(u64_to_decimal(1700000000), "1700000000");
    assert_eq!(u64_to_decimal(u64::MAX), "18446744073709551615");
}

#[test]
fn object_key_is_timestamp_underscore_filename() {
    assert_eq!(make_object_key(1700000000, "photo.png"), "1700000000_photo.png");
    assert_eq!(make_object_key(0, ""), "0_");
    // No escaping, no truncation, whatever the filename holds.
    assert_eq!(
        make_object_key(123, "a b%c_d+e.tar.gz"),
        "123_a b%c_d+e.tar.gz"
    );
}

#[test]
fn public_url_format() {
    assert_eq!(
        public_url("eu-central-1", "my-bucket", "k.png"),
        "https://s3.eu-central-1.amazonaws.com/my-bucket/k.png"
    );
}

#[test]
fn copy_source_format() {
    assert_eq!(copy_source("my-bucket", "old"), "my-bucket/old");
}

#[test]
fn config_resolves_when_complete() {
    let cfg = AwsConfig::new(&full_env()).unwrap();
    assert_eq!(cfg.access_key, "AKIDEXAMPLE");
    assert_eq!(cfg.secret_key, "SECRET-REDACTED");
    assert_eq!(cfg.region, "eu-central-1");
    assert_eq!(cfg.bucket, "my-bucket");
}

#[test]
fn missing_access_key_named_first() {
    let mut env = full_env();
    env.access_key = None;
    assert_eq!(AwsConfig::new(&env).unwrap_err(), "AWS_ACCESS_KEY_ID not found");
    // Even when every value is absent, the access key is named first.
    let empty = Env { access_key: None, secret_key: None, region: None, bucket: None };
    assert_eq!(AwsConfig::new(&empty).unwrap_err(), "AWS_ACCESS_KEY_ID not found");
}

#[test]
fn each_missing_value_is_named() {
    let mut env = full_env();
    env.secret_key = None;
    assert_eq!(AwsConfig::new(&env).unwrap_err(), "AWS_SECRET_ACCESS_KEY not found");
    let mut env = full_env();
    env.region = None;
    assert_eq!(AwsConfig::new(&env).unwrap_err(), "AWS_REGION not found");
    let mut env = full_env();
    env.bucket = None;
    assert_eq!(AwsConfig::new(&env).unwrap_err(), "AWS_BUCKET not found");
}

#[test]
fn every_operation_fails_without_credentials_and_plans_nothing() {
    let mut env = full_env();
    env.secret_key = None;
    let expected = "AWS_SECRET_ACCESS_KEY not found";
    assert_eq!(get_app_info(&env, "1.0.0").unwrap_err(), expected);
    assert_eq!(
        generate_presigned_post(&env, "a.png", "image/png", 1).unwrap_err(),
        expected
    );
    assert_eq!(plan_list_files(&env).unwrap_err(), expected);
    assert_eq!(plan_delete_file(&env, "k").unwrap_err(), expected);
    assert_eq!(plan_rename_file(&env, "old", "new").unwrap_err(), expected);
    assert_eq!(plan_set_object_acl(&env, "k").unwrap_err(), expected);
    assert_eq!(
        initiate_multipart_upload(&env, "a.png", "image/png", 1).unwrap_err(),
        expected
    );
    assert_eq!(
        generate_presigned_url_for_part(&env, "uid", 1, "k").unwrap_err(),
        expected
    );
    assert_eq!(
        complete_multipart_upload(&env, "uid", "k", vec![(1, "e".to_string())]).unwrap_err(),
        expected
    );
}

#[test]
fn app_info_reports_version_and_bucket() {
    let (version, bucket) = get_app_info(&full_env(), "0.3.1").unwrap();
    assert_eq!(version, "0.3.1");
    assert_eq!(bucket, "my-bucket");
}

#[test]
fn presigned_post_fields_hold_exactly_key_and_content_type() {
    let plan = generate_presigned_post(&full_env(), "a.png", "image/png", 1700000000).unwrap();
    assert_eq!(plan.key, "1700000000_a.png");
    assert_eq!(plan.fields.len(), 2);
    assert_eq!(plan.fields[0], ("key".to_string(), "1700000000_a.png".to_string()));
    assert_eq!(
        plan.fields[1],
        ("Content-Type".to_string(), "image/png".to_string())
    );
    assert_eq!(
        plan.file_url,
        "https://s3.eu-central-1.amazonaws.com/my-bucket/1700000000_a.png"
    );
    match &plan.request {
        S3Request::PresignPutObject { bucket, key, content_type, expires_secs } => {
            assert_eq!(bucket, "my-bucket");
            assert_eq!(key, "1700000000_a.png");
            assert_eq!(content_type, "image/png");
            assert_eq!(*expires_secs, 3600);
        },
        _ => panic!("wrong request kind"),
    }
    let resp = assemble_post_response(plan, "https://signed.example".to_string());
    assert_eq!(resp.url, "https://signed.example");
    assert_eq!(resp.key, "1700000000_a.png");
    assert_eq!(resp.fields.len(), 2);
}

fn raw(key: Option<&str>, size: Option<i64>, modified: Option<&str>) -> RawObject {
    RawObject {
        key: key.map(|s| s.to_string()),
        size,
        last_modified: modified.map(|s| s.to_string()),
    }
}

#[test]
fn listing_sorts_descending_by_modified_string() {
    let objects = vec![
        raw(Some("a"), Some(10), Some("2024-01-02T00:00:00Z")),
        raw(Some("b"), Some(20), Some("2024-01-03T00:00:00Z")),
    ];
    let files = process_listing(&objects, "eu-central-1", "my-bucket");
    assert_eq!(files.len(), 2);
    assert_eq!(files[0].key, "b");
    assert_eq!(files[0].last_modified, "2024-01-03T00:00:00Z");
    assert_eq!(files[1].key, "a");
    assert_eq!(files[1].last_modified, "2024-01-02T00:00:00Z");
    assert_eq!(
        files[0].url,
        "https://s3.eu-central-1.amazonaws.com/my-bucket/b"
    );
}

#[test]
fn listing_defaults_and_dropped_entries() {
    let objects = vec![
        raw(None, Some(5), Some("2024-01-01T00:00:00Z")),
        raw(Some("k"), None, None),
    ];
    let files = process_listing(&objects, "us-east-1", "b");
    assert_eq!(files.len(), 1);
    assert_eq!(files[0].key, "k");
    assert_eq!(files[0].size, 0);
    assert_eq!(files[0].last_modified, "Unknown");
    assert_eq!(files[0].url, "https://s3.us-east-1.amazonaws.com/b/k");
}

#[test]
fn sort_keeps_equal_modified_strings() {
    let mk = |key: &str, modified: &str| FileInfo {
        key: key.to_string(),
        size: 0,
        last_modified: modified.to_string(),
        url: String::new(),
    };
    let sorted = sort_files_desc(vec![
        mk("one", "2024-01-01"),
        mk("two", "2024-01-02"),
        mk("three", "2024-01-01"),
    ]);
    assert_eq!(sorted.len(), 3);
    assert_eq!(sorted[0].last_modified, "2024-01-02");
    assert_eq!(sorted[1].last_modified, "2024-01-01");
    assert_eq!(sorted[2].last_modified, "2024-01-01");
    let keys: Vec<&str> = sorted.iter().map(|f| f.key.as_str()).collect();
    assert!(keys.contains(&"one") && keys.contains(&"two") && keys.contains(&"three"));
    let empty = sort_files_desc(Vec::new());
    assert!(empty.is_empty());
}

#[test]
fn string_order_is_lexicographic() {
    assert!(str_le("2024-01-02", "2024-01-03"));
    assert!(!str_le("2024-01-03", "2024-01-02"));
    assert!(str_le("", "anything"));
    assert!(str_le("abc", "abc"));
    assert!(str_le("abc", "abcd"));
    assert!(!str_le("abcd", "abc"));
}

#[test]
fn delete_and_acl_and_list_plans() {
    match plan_delete_file(&full_env(), "k1").unwrap() {
        S3Request::DeleteObject { bucket, key } => {
            assert_eq!(bucket, "my-bucket");
            assert_eq!(key, "k1");
        },
        _ => panic!("wrong request kind"),
    }
    match plan_set_object_acl(&full_env(), "k2").unwrap() {
        S3Request::PutObjectAcl { bucket, key, public_read } => {
            assert_eq!(bucket, "my-bucket");
            assert_eq!(key, "k2");
            assert!(public_read);
        },
        _ => panic!("wrong request kind"),
    }
    match plan_list_files(&full_env()).unwrap() {
        S3Request::ListObjects { bucket } => assert_eq!(bucket, "my-bucket"),
        _ => panic!("wrong request kind"),
    }
}

#[test]
fn rename_plans_copy_then_delete() {
    let reqs = plan_rename_file(&full_env(), "old", "new").unwrap();
    assert_eq!(reqs.len(), 2);
    match &reqs[0] {
        S3Request::CopyObject { bucket, copy_source, key, public_read } => {
            assert_eq!(bucket, "my-bucket");
            assert_eq!(copy_source, "my-bucket/old");
            assert_eq!(key, "new");
            assert!(*public_read);
        },
        _ => panic!("rename must copy first"),
    }
    match &reqs[1] {
        S3Request::DeleteObject { bucket, key } => {
            assert_eq!(bucket, "my-bucket");
            assert_eq!(key, "old");
        },
        _ => panic!("rename must delete second"),
    }
}

#[test]
fn clipboard_passthrough_reports_success() {
    assert_eq!(copy_to_clipboard("some text"), Ok(()));
}

#[test]
fn initiate_multipart_generates_key_and_request() {
    let plan = initiate_multipart_upload(&full_env(), "big.iso", "application/octet-stream", 99)
        .unwrap();
    assert_eq!(plan.key, "99_big.iso");
    match &plan.request {
        S3Request::CreateMultipartUpload { bucket, key, content_type } => {
            assert_eq!(bucket, "my-bucket");
            assert_eq!(key, "99_big.iso");
            assert_eq!(content_type, "application/octet-stream");
        },
        _ => panic!("wrong request kind"),
    }
    let (upload_id, key) = finish_initiate_multipart(
        Some("uid-1".to_string()),
        plan.key.clone(),
    );
    assert_eq!(upload_id, "uid-1");
    assert_eq!(key, "99_big.iso");
}

#[test]
fn presign_part_plan_names_session_and_part() {
    match generate_presigned_url_for_part(&full_env(), "uid-7", 3, "k").unwrap() {
        S3Request::PresignUploadPart { bucket, key, upload_id, part_number, expires_secs } => {
            assert_eq!(bucket, "my-bucket");
            assert_eq!(key, "k");
            assert_eq!(upload_id, "uid-7");
            assert_eq!(part_number, 3);
            assert_eq!(expires_secs, 3600);
        },
        _ => panic!("wrong request kind"),
    }
}

#[test]
fn complete_multipart_finalizes_then_sets_policy() {
    let parts = vec![(1, "etagA".to_string()), (2, "etagB".to_string())];
    let plan = complete_multipart_upload(&full_env(), "uid-9", "99_big.iso", parts).unwrap();
    assert_eq!(plan.requests.len(), 2);
    match &plan.requests[0] {
        S3Request::CompleteMultipartUpload { bucket, key, upload_id, parts } => {
            assert_eq!(bucket, "my-bucket");
            assert_eq!(key, "99_big.iso");
            assert_eq!(upload_id, "uid-9");
            assert_eq!(parts.len(), 2);
            assert_eq!(parts[0], (1, "etagA".to_string()));
            assert_eq!(parts[1], (2, "etagB".to_string()));
        },
        _ => panic!("completion must finalize first"),
    }
    match &plan.requests[1] {
        S3Request::PutObjectAcl { bucket, key, public_read } => {
            assert_eq!(bucket, "my-bucket");
            assert_eq!(key, "99_big.iso");
            assert!(*public_read);
        },
        _ => panic!("completion must set the policy second"),
    }
    assert_eq!(
        plan.file_url,
        "https://s3.eu-central-1.amazonaws.com/my-bucket/99_big.iso"
    );
}
