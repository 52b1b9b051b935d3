use nebo_cli::configuration::{Configuration, Credentials, S3Configuration};
use nebo_cli::error::NeboError;
use nebo_cli::files::{file_name, is_nebo_file, uuid_from_path};
use nebo_cli::logs::{log_settings, LevelChoice};
use nebo_cli::share::{file_share_input, page_date, page_signature, page_title};
use nebo_cli::text::{decimal_i64, decimal_u64};
use nebo_cli::transfer::{transfer_step_exec, TransferAction, TransferEvent, TransferState};
use nebo_cli::upload::{
    collect_parts, generate_metadata, part_plan, identity_region, is_local_test, monopart_outcome, upload_region, CompletedPart,
    RegionChoice, TransferManager, TransferMode, READ_BUFFER_SIZE,
};

fn s3(kms: &str, endpoint: Option<&str>) -> S3Configuration {
    S3Configuration {
        bucket: "bucket".to_string(),
        client_directory_prefix: "client/".to_string(),
        region: "EUWEST1".to_string(),
        kms_key: kms.to_string(),
        service_endpoint: endpoint.map(|e| e.to_string()),
    }
}

fn configuration(pool: &str, identity_region: &str, s3_config: S3Configuration) -> Configuration {
    Configuration {
        sharing_url_prefix: "https://share/".to_string(),
        s3: s3_config,
        credentials: Credentials {
            access_token: "at".to_string(),
            identity_pool_id: pool.to_string(),
            region: identity_region.to_string(),
            identity_id: "id".to_string(),
            identity_provider: "provider".to_string(),
        },
    }
}

fn pairs(v: &[(&str, &str)]) -> Vec<(String, String)> {
    v.iter().map(|(k, v)| (k.to_string(), v.to_string())).collect()
}

fn part(n: i64, tag: &str) -> Result<CompletedPart, String> {
    Ok(CompletedPart { e_tag: Some(tag.to_string()), part_number: n })
}

#[test]
fn decimal_renderings() {
    assert_eq!(decimal_u64(0), "0");
    assert_eq!(decimal_u64(1234567890), "1234567890");
    assert_eq!(decimal_u64(u64::MAX), "18446744073709551615");
    assert_eq!(decimal_i64(-42), "-42");
    assert_eq!(decimal_i64(i64::MIN), "-9223372036854775808");
    assert_eq!(decimal_i64(i64::MAX), "9223372036854775807");
}

#[test]
fn signature_title_and_date_of_a_page() {
    assert_eq!(page_signature(Some("sig"), 17), "sig");
    assert_eq!(page_signature(None, 1600000000), "1600000000");
    assert_eq!(page_title("u1", Some("T")), "T");
    assert_eq!(page_title("u1", None), "the page u1");
    assert_eq!(page_date(0).unwrap(), "1970-01-01T00:00:00Z");
    assert_eq!(page_date(1600000000).unwrap(), "2020-09-13T12:26:40Z");
    assert!(matches!(page_date(i64::MAX), Err(NeboError::ClockOutOfRange)));
}

#[test]
fn metadata_holds_what_is_given() {
    assert_eq!(generate_metadata(None, "sig", None), pairs(&[("x-amz-meta-content-sha256", "sig")]));
    assert_eq!(
        generate_metadata(Some("me"), "sig", Some("yes")),
        pairs(&[
            ("x-amz-meta-content-sha256", "sig"),
            ("x-amz-meta-share-with-myscript", "yes"),
            ("x-amz-meta-login", "me"),
        ])
    );
}

#[test]
fn transfer_plan_with_and_without_encryption() {
    let m = TransferManager::init("u1", "sig", &s3("key-1", None), Some("yes"), None);
    assert_eq!(m.key, "client/u1_sig.nebo");
    assert_eq!(m.bucket, "bucket");
    assert_eq!(m.content_type.as_deref(), Some("application/vnd.myscript.nebo"));
    assert_eq!(m.content_disposition.as_deref(), Some("attachment; filename=page.nebo; filename*=UTF-8''page.nebo"));
    assert_eq!(m.server_side_encryption.as_deref(), Some("aws:kms"));
    assert_eq!(m.ssekms_key_id.as_deref(), Some("key-1"));
    assert_eq!(
        m.metadata,
        Some(pairs(&[("x-amz-meta-content-sha256", "sig"), ("x-amz-meta-share-with-myscript", "yes")]))
    );
    assert!(!m.needs_abort());

    let m = TransferManager::init("u1", "sig", &s3("NO_KMS_KEY", None), None, Some("me"));
    assert!(m.server_side_encryption.is_none());
    assert!(m.ssekms_key_id.is_none());
}

#[test]
fn transfer_mode_by_size() {
    assert_eq!(TransferManager::transfer(0), TransferMode::Monopart);
    assert_eq!(TransferManager::transfer(READ_BUFFER_SIZE), TransferMode::Monopart);
    assert_eq!(TransferManager::transfer(READ_BUFFER_SIZE + 1), TransferMode::Multipart);
    assert_eq!(READ_BUFFER_SIZE, 5 * 1024 * 1024);
}

#[test]
fn multipart_progress_and_abort() {
    let mut m = TransferManager::init("u1", "sig", &s3("NO_KMS_KEY", None), None, None);
    assert!(matches!(m.part_upload_id(), Err(NeboError::MissingUploadId)));
    m.record_upload_id(Some("up-1".to_string()));
    assert_eq!(m.part_upload_id().unwrap(), "up-1");
    assert!(m.needs_abort());
    m.mark_done();
    assert!(!m.needs_abort());
}

#[test]
fn monopart_outcomes() {
    assert!(monopart_outcome(Ok(())).is_ok());
    assert!(monopart_outcome(Err("Expected EndElement PutObjectResponse got Start".to_string())).is_ok());
    match monopart_outcome(Err("Access denied".to_string())) {
        Err(NeboError::Transport(m)) => assert_eq!(m, "Access denied"),
        other => panic!("unexpected {:?}", other),
    }
}

#[test]
fn collect_parts_sorts_by_number() {
    let parts = collect_parts(0, vec![part(3, "c"), part(1, "a"), part(2, "b")]).unwrap();
    let numbers: Vec<i64> = parts.iter().map(|p| p.part_number).collect();
    assert_eq!(numbers, vec![1, 2, 3]);
    assert_eq!(parts[0].e_tag.as_deref(), Some("a"));
    assert_eq!(parts[2].e_tag.as_deref(), Some("c"));
    assert!(collect_parts(0, Vec::new()).unwrap().is_empty());
}

#[test]
fn collect_parts_reports_first_failure_and_panics() {
    match collect_parts(0, vec![part(1, "a"), Err("first".to_string()), Err("second".to_string())]) {
        Err(NeboError::Transport(m)) => assert_eq!(m, "first"),
        other => panic!("unexpected {:?}", other),
    }
    let e = collect_parts(1, vec![part(1, "a")]).unwrap_err();
    assert!(matches!(e, NeboError::MultipartPanicked));
    assert_eq!(e.message(), "a multipart thread panicked");
}

#[test]
fn regions_of_the_configuration() {
    assert_eq!(identity_region(&configuration("pool", "EUWEST1", s3("k", None))).unwrap(), "eu-west-1");
    match identity_region(&configuration("pool", "Mars-1", s3("k", None))) {
        Err(NeboError::InvalidRegion(m)) => assert_eq!(m, "Not a valid AWS region: mars-1"),
        other => panic!("unexpected {:?}", other),
    }
    match upload_region(&configuration("pool", "us-east-1", s3("k", None))).unwrap() {
        RegionChoice::Named(n) => assert_eq!(n, "eu-west-1"),
        other => panic!("unexpected {:?}", other),
    }
    match upload_region(&configuration("LOCAL_TEST", "us-east-1", s3("k", Some("http://localhost:4572")))).unwrap() {
        RegionChoice::Custom { name, endpoint } => {
            assert_eq!(name, "EUWEST1");
            assert_eq!(endpoint, "http://localhost:4572");
        },
        other => panic!("unexpected {:?}", other),
    }
    let e = upload_region(&configuration("LOCAL_TEST", "us-east-1", s3("k", None))).unwrap_err();
    assert_eq!(e.message(), "missing service endpoint for local test");
    assert!(is_local_test("LOCAL_TEST"));
    assert!(!is_local_test("local_test"));
}

#[test]
fn file_names_and_page_identifiers() {
    assert_eq!(file_name("dir/sub/abc.nebo").as_deref(), Some("abc.nebo"));
    assert_eq!(file_name("abc.nebo/").as_deref(), Some("abc.nebo"));
    assert_eq!(file_name("dir/.").as_deref(), Some("dir"));
    assert_eq!(file_name("dir/.."), None);
    assert_eq!(file_name("/"), None);
    assert_eq!(uuid_from_path("dir/sub/abc.def.nebo").as_deref(), Some("abc"));
    assert_eq!(uuid_from_path("dir/abc").as_deref(), Some("abc"));
    assert_eq!(uuid_from_path("dir/.hidden.nebo").as_deref(), Some(""));
    assert!(is_nebo_file("x.nebo"));
    assert!(is_nebo_file(".nebo"));
    assert!(!is_nebo_file("x.nebo.bak"));
    assert!(!is_nebo_file("nebo"));
}

#[test]
fn log_settings_by_verbosity() {
    let s = log_settings(0);
    assert_eq!(s.nebo_cli, LevelChoice::Off);
    assert_eq!(s.all, LevelChoice::Off);
    assert_eq!(s.pattern, "{m}{n}");
    let s = log_settings(1);
    assert_eq!(s.nebo_cli, LevelChoice::Info);
    assert_eq!(s.pattern, "{m}{n}");
    let s = log_settings(2);
    assert_eq!(s.nebo_cli, LevelChoice::Debug);
    assert_eq!(s.all, LevelChoice::Off);
    assert_eq!(s.pattern, "{h({M} - {m}{n})}");
    let s = log_settings(3);
    assert_eq!(s.all, LevelChoice::Debug);
    let s = log_settings(7);
    assert_eq!(s.nebo_cli, LevelChoice::Debug);
    assert_eq!(s.all, LevelChoice::Off);
}

#[test]
fn part_plan_covers_the_file() {
    let b = READ_BUFFER_SIZE;
    assert!(part_plan(0).is_empty());
    assert_eq!(part_plan(1), vec![(1, 0, 1)]);
    assert_eq!(part_plan(b), vec![(1, 0, b)]);
    assert_eq!(part_plan(b + 1), vec![(1, 0, b), (2, b, 1)]);
    assert_eq!(part_plan(3 * b), vec![(1, 0, b), (2, b, b), (3, 2 * b, b)]);
    let plan = part_plan(12_345_678);
    assert_eq!(plan.len(), 3);
    assert_eq!(plan[2], (3, 2 * b, 12_345_678 - 2 * b));
}

#[test]
fn share_input_of_a_found_file() {
    let i = file_share_input("/data/sub/abc.def.nebo", Some("a@b.c"), 42).unwrap();
    assert_eq!(i.uuid, "abc");
    assert_eq!(i.filename, "/data/sub/abc.def.nebo");
    assert_eq!(i.email.as_deref(), Some("a@b.c"));
    assert_eq!(i.now, 42);
    assert!(i.signature.is_none() && i.title.is_none());
    assert!(i.share_with_myscript.is_none() && i.collect_login.is_none());
    let i = file_share_input("x.nebo", None, 0).unwrap();
    assert_eq!(i.uuid, "x");
    assert!(i.email.is_none());
    assert!(file_share_input("/data/..", None, 0).is_none());
}

fn fresh_plan() -> TransferManager {
    TransferManager::init("u1", "sig", &s3("NO_KMS_KEY", None), None, None)
}

#[test]
fn transfer_of_a_small_file_in_one_request() {
    let mut m = fresh_plan();
    let (s, a) = transfer_step_exec(&mut m, TransferState::Start, TransferEvent::Begin(10));
    assert!(matches!(s, TransferState::Putting));
    assert!(matches!(a, TransferAction::Put));
    let (s, a) = transfer_step_exec(&mut m, s, TransferEvent::Put(Err("Expected EndElement PutObjectResponse".to_string())));
    assert!(matches!(s, TransferState::Finished));
    assert!(matches!(a, TransferAction::Finish(Ok(()))));
    let (_, a) = transfer_step_exec(&mut m, TransferState::Putting, TransferEvent::Put(Err("denied".to_string())));
    assert!(matches!(a, TransferAction::Finish(Err(NeboError::Transport(ref e))) if e == "denied"));
}

#[test]
fn transfer_of_a_large_file_in_parts() {
    let b = READ_BUFFER_SIZE;
    let mut m = fresh_plan();
    let (s, a) = transfer_step_exec(&mut m, TransferState::Start, TransferEvent::Begin(2 * b + 3));
    assert!(matches!(a, TransferAction::Create));
    let (s, a) = transfer_step_exec(&mut m, s, TransferEvent::Created(Ok(Some("up".to_string()))));
    assert_eq!(m.upload_id.as_deref(), Some("up"));
    assert!(m.needs_abort());
    match a {
        TransferAction::SendParts { upload_id, plan } => {
            assert_eq!(upload_id, "up");
            assert_eq!(plan, vec![(1, 0, b), (2, b, b), (3, 2 * b, 3)]);
        },
        other => panic!("unexpected {:?}", other),
    }
    let (s, a) = transfer_step_exec(
        &mut m,
        s,
        TransferEvent::PartsSent { panicked: 0, results: vec![part(2, "b"), part(3, "c"), part(1, "a")] },
    );
    match a {
        TransferAction::Complete { upload_id, parts } => {
            assert_eq!(upload_id, "up");
            let numbers: Vec<i64> = parts.iter().map(|p| p.part_number).collect();
            assert_eq!(numbers, vec![1, 2, 3]);
        },
        other => panic!("unexpected {:?}", other),
    }
    assert!(!m.transfert_done);
    let (s, a) = transfer_step_exec(&mut m, s, TransferEvent::Completed(Ok(())));
    assert!(matches!(s, TransferState::Finished));
    assert!(matches!(a, TransferAction::Finish(Ok(()))));
    assert!(m.transfert_done);
    assert!(!m.needs_abort());
}

#[test]
fn failed_part_aborts_the_upload_first() {
    let mut m = fresh_plan();
    let (s, _) = transfer_step_exec(&mut m, TransferState::Creating { len: READ_BUFFER_SIZE + 1 }, TransferEvent::Created(Ok(Some("up".to_string()))));
    let (s, a) = transfer_step_exec(&mut m, s, TransferEvent::PartsSent { panicked: 0, results: vec![Err("lost".to_string())] });
    assert!(matches!(s, TransferState::Aborting(_)));
    assert!(matches!(a, TransferAction::Abort { ref upload_id } if upload_id == "up"));
    let (s, a) = transfer_step_exec(&mut m, s, TransferEvent::Aborted);
    assert!(matches!(s, TransferState::Finished));
    assert!(matches!(a, TransferAction::Finish(Err(NeboError::Transport(ref e))) if e == "lost"));
    assert!(!m.transfert_done);
}

#[test]
fn multipart_without_identifier_fails_without_abort() {
    let mut m = fresh_plan();
    let (s, a) = transfer_step_exec(&mut m, TransferState::Creating { len: READ_BUFFER_SIZE + 1 }, TransferEvent::Created(Ok(None)));
    assert!(matches!(s, TransferState::Finished));
    assert!(matches!(a, TransferAction::Finish(Err(NeboError::MissingUploadId))));
    let (_, a) = transfer_step_exec(&mut fresh_plan(), TransferState::Creating { len: 1 }, TransferEvent::Created(Err("denied".to_string())));
    assert!(matches!(a, TransferAction::Finish(Err(NeboError::Transport(_)))));
}

#[test]
fn collect_parts_keeps_arrival_order_of_equal_numbers() {
    let parts = collect_parts(0, vec![part(2, "x"), part(1, "a"), part(2, "y")]).unwrap();
    let tags: Vec<&str> = parts.iter().map(|p| p.e_tag.as_deref().unwrap()).collect();
    assert_eq!(tags, vec!["a", "x", "y"]);
}
