use converty::db::jobs::{create_job as store_job, delete_job, get_job, JobRecord, JobStore};
use converty::models::job::{JobStatus, ProgressUpdate};
use converty::services::progress::{ProgressHub, RecvOutcome};
use converty::services::stats::{can_mask, mask_api_key};
use converty::error::AppError;
use converty::handlers::image::{image_format_for, ImageFormat};
use converty::handlers::pdf::run_pdftoppm;
use converty::models::auth::AuthInfo;
use converty::models::request::{ConversionType, CreateJobRequest, JobPriority};
use converty::paths::contains_separator;
use converty::routes::jobs::crud::{cancel_job, create_job, retry_job};
use converty::services::queue::{
    create_job_queue, process_job, ConversionOutcome, DispatchAction, DispatchEvent,
    JobQueueInner,
};
use converty::services::webhooks::send_webhook;
use converty::utils::content_type::content_type_for;
use converty::utils::encoding::{encoding_for, ImageEncoding};

fn stored(id: &str, status: &str) -> JobRecord {
    JobRecord {
        id: id.to_string(),
        api_key_id: None,
        conversion_type: "image".to_string(),
        input_format: "png".to_string(),
        output_format: "jpg".to_string(),
        quality: None,
        status: status.to_string(),
        progress: 0,
        progress_message: None,
        input_path: format!("/in/{}", id),
        result_path: None,
        error: None,
        file_size_bytes: Some(1),
        created_at: "2024-01-01T00:00:00+00:00".to_string(),
        started_at: None,
        completed_at: None,
        updated_at: "2024-01-01T00:00:00+00:00".to_string(),
        priority: Some("normal".to_string()),
        webhook_url: None,
        source_url: None,
        expires_at: None,
        retry_count: Some(0),
        original_filename: None,
        drive_file_id: None,
    }
}

fn submit(queue: &mut JobQueueInner, owner: Option<&str>) -> Result<converty::ident::JobId, AppError> {
    queue.create_job(
        ConversionType::Image,
        10,
        "png".to_string(),
        "jpg".to_string(),
        Some(80),
        owner.map(|s| s.to_string()),
        None,
        None,
        None,
        None,
        None,
    )
}

#[test]
fn test_fresh_engine_accepts_a_job() {
    let mut queue = create_job_queue("/tmp/jobs".to_string());
    let job = submit(&mut queue, None).unwrap();
    let rec = get_job(queue.db(), &job.to_string()).unwrap();
    assert_eq!(rec.status, "pending");
    assert_eq!(rec.progress, 0);
    assert_eq!(rec.api_key_id, None);
    assert!(rec.is_valid());

    let query = CreateJobRequest {
        output_format: "jpg".to_string(),
        conversion_type: ConversionType::Image,
        quality: None,
        width: None,
        height: None,
        source_url: None,
        priority: JobPriority::default(),
        webhook_url: None,
        expires_in_hours: None,
    };
    let created = create_job(&mut queue, &AuthInfo::default(), &query, 10, "png".to_string(), None).unwrap();
    assert_eq!(created.message, "Job creato e in elaborazione");
    assert_ne!(created.id, job.to_string());
    assert_eq!(get_job(queue.db(), &created.id).unwrap().status, "pending");
    assert_eq!(queue.db().jobs.len(), 2);
}

#[test]
fn test_owner_is_accepted_again_after_a_job_ended() {
    let mut queue = create_job_queue("/tmp/jobs".to_string());
    queue.db.set_job_limit("key-1", None);
    let mut jobs = Vec::new();
    for _ in 0..5 {
        jobs.push(submit(&mut queue, Some("key-1")).unwrap());
    }
    match submit(&mut queue, Some("key-1")) {
        Err(AppError::TooManyJobs(text)) => assert_eq!(text, "Limite job raggiunto: 5/5"),
        other => panic!("unexpected: {:?}", other),
    }
    assert!(submit(&mut queue, Some("key-2")).is_err());
    assert!(submit(&mut queue, None).is_ok());

    assert!(matches!(process_job(&mut queue, &jobs[0], DispatchEvent::Start), DispatchAction::Convert(_)));
    assert!(submit(&mut queue, Some("key-1")).is_err());
    let failed = ConversionOutcome::Failed("no codec".to_string());
    assert!(matches!(
        process_job(&mut queue, &jobs[0], DispatchEvent::Converted(failed)),
        DispatchAction::Finish(_)
    ));
    let again = submit(&mut queue, Some("key-1")).unwrap();
    let rec = get_job(queue.db(), &again.to_string()).unwrap();
    assert_eq!(rec.status, "pending");
    assert_eq!(rec.api_key_id.as_deref(), Some("key-1"));
    assert!(submit(&mut queue, Some("key-1")).is_err());

    assert!(cancel_job(&mut queue, &jobs[1].to_string()).is_ok());
    assert!(submit(&mut queue, Some("key-1")).is_ok());
}

#[test]
fn test_a_text_that_is_no_identifier_touches_no_record() {
    let mut queue = create_job_queue("/tmp/jobs".to_string());
    let mut failed = stored("job-one", "failed");
    failed.error = Some("boom".to_string());
    store_job(&mut queue.db, &failed).unwrap();
    store_job(&mut queue.db, &stored("job-two", "pending")).unwrap();
    let mut rx = queue.subscribe();

    match retry_job(&mut queue, "job-one") {
        Err(AppError::JobNotFound(text)) => assert_eq!(text, "job-one"),
        other => panic!("unexpected: {:?}", other.map(|a| a.retry_count)),
    }
    let rec = get_job(queue.db(), "job-one").unwrap();
    assert_eq!(rec.status, "failed");
    assert_eq!(rec.error.as_deref(), Some("boom"));
    assert_eq!(rec.retry_count, Some(0));

    match cancel_job(&mut queue, "job-two") {
        Err(AppError::JobNotFound(text)) => assert_eq!(text, "job-two"),
        other => panic!("unexpected: {:?}", other),
    }
    let rec = get_job(queue.db(), "job-two").unwrap();
    assert_eq!(rec.status, "pending");
    assert_eq!(rec.completed_at, None);
    assert!(matches!(queue.hub.recv(&mut rx), RecvOutcome::Empty));
}

#[test]
fn test_record_validity() {
    assert!(stored("a", "pending").is_valid());
    assert!(!stored("a", "waiting").is_valid());
    assert!(!stored("a", "completed").is_valid());
    assert!(!stored("a", "failed").is_valid());
    assert!(stored("a", "cancelled").is_valid());

    let mut done = stored("a", "completed");
    done.result_path = Some("/out/a.jpg".to_string());
    done.progress = 100;
    assert!(done.is_valid());
    done.error = Some("x".to_string());
    assert!(!done.is_valid());

    let mut broken = stored("a", "failed");
    broken.error = Some("x".to_string());
    broken.progress = 80;
    assert!(broken.is_valid());
    broken.progress = 101;
    assert!(!broken.is_valid());
    broken.progress = -1;
    assert!(!broken.is_valid());

    let mut running = stored("a", "processing");
    running.progress = 30;
    assert!(running.is_valid());
    running.retry_count = None;
    assert!(running.is_valid());
    running.retry_count = Some(-1);
    assert!(!running.is_valid());
    running.retry_count = Some(2);
    running.result_path = Some("/out".to_string());
    assert!(!running.is_valid());

    let mut waiting = stored("a", "pending");
    waiting.progress = 10;
    assert!(!waiting.is_valid());
}

#[test]
fn test_path_separators() {
    assert!(!contains_separator(""));
    assert!(!contains_separator("png"));
    assert!(!contains_separator("tar.gz"));
    assert!(contains_separator("a/b"));
    assert!(contains_separator("/"));
    assert!(contains_separator("a\\b"));
    assert!(contains_separator("png/"));
}

#[test]
fn test_pdftoppm_refuses_a_name_with_a_separator() {
    for name in ["a/b", "png/", "..\\png", "/png"] {
        match run_pdftoppm("/in/a.pdf", "/tmp/x/output", name, 1, 72) {
            Err(AppError::UnsupportedFormat(text)) => {
                assert_eq!(text, format!("Formato non supportato: {}", name))
            }
            other => panic!("unexpected: {:?}", other.map(|r| r.output_path)),
        }
    }
    let run = run_pdftoppm("/in/a.pdf", "/tmp/x/output", "Png", 1, 72).unwrap();
    assert_eq!(run.output_path, "/tmp/x/output.Png");
}

#[test]
fn test_tables_on_lowercase_names() {
    assert_eq!(content_type_for("png"), "image/png");
    assert_eq!(content_type_for("jpeg"), "image/jpeg");
    assert_eq!(content_type_for("mkv"), "video/x-matroska");
    assert_eq!(content_type_for("PNG"), "application/octet-stream");
    assert_eq!(content_type_for(""), "application/octet-stream");

    assert_eq!(JobPriority::from_lowercase("high"), JobPriority::High);
    assert_eq!(JobPriority::from_lowercase("low"), JobPriority::Low);
    assert_eq!(JobPriority::from_lowercase("normal"), JobPriority::Normal);
    assert_eq!(JobPriority::from_lowercase("HIGH"), JobPriority::Normal);
    assert_eq!(JobPriority::from_str("HIGH"), JobPriority::High);

    assert_eq!(encoding_for("jpg", None), Some(ImageEncoding::Jpeg(85)));
    assert_eq!(encoding_for("jpeg", Some(7)), Some(ImageEncoding::Jpeg(7)));
    assert_eq!(encoding_for("tif", None), Some(ImageEncoding::Tiff));
    assert_eq!(encoding_for("png", Some(7)), Some(ImageEncoding::Png));
    assert_eq!(encoding_for("JPG", None), None);
    assert_eq!(encoding_for("ico", None), None);

    assert_eq!(converty::services::google_drive::upload_mime_for("svg"), "image/svg+xml");
    assert_eq!(converty::services::google_drive::upload_mime_for("SVG"), "application/octet-stream");
    assert_eq!(converty::db::api_keys::ApiKeyRole::from_lowercase("admin"), converty::db::api_keys::ApiKeyRole::Admin);
    assert_eq!(converty::db::api_keys::ApiKeyRole::from_lowercase("Admin"), converty::db::api_keys::ApiKeyRole::User);

    assert_eq!(image_format_for("ico"), Some(ImageFormat::Ico));
    assert_eq!(image_format_for("jpg"), Some(ImageFormat::Jpeg));
    assert_eq!(image_format_for("tif"), None);
    assert_eq!(image_format_for("PNG"), None);
}

#[test]
fn test_webhook_is_stamped() {
    let id = converty::ident::JobId::from_u128(5);
    let call = send_webhook("http://hooks.example/x", &id, "completed", None);
    assert_eq!(call.url, "http://hooks.example/x");
    assert_eq!(call.job_id, "00000000-0000-0000-0000-000000000005");
    assert_eq!(call.status, "completed");
    assert_eq!(call.error, None);
    let stamp = converty::clock::Timestamp::parse(&call.timestamp).unwrap();
    assert_eq!(stamp.to_rfc3339(), call.timestamp);
}

#[test]
fn test_keys_that_can_be_masked() {
    assert!(can_mask(""));
    assert!(can_mask("12345678"));
    assert!(can_mask("key-0123456789"));
    assert!(can_mask("éééé"));
    assert!(can_mask("abcdé-fghi"));
    assert!(!can_mask("abcé-fghij"));
    assert!(!can_mask("abcdeféhij"));
    assert!(can_mask("abcd-fghéij"));
    assert_eq!(mask_api_key("abcd-fghéij"), "abcd...éij");
    assert_eq!(mask_api_key("abcdé-fghi"), "abcd...fghi");
    assert_eq!(mask_api_key("éééé"), "****");
}

#[test]
fn test_hub_keeps_the_newest_events() {
    let mut hub = ProgressHub::new(3);
    let mut early = hub.subscribe();
    let at = converty::clock::Timestamp::from_parts(0, 0).unwrap();
    for n in 0..5u8 {
        let id = converty::ident::JobId::from_u128(n as u128);
        assert!(hub.send(ProgressUpdate::at(id, JobStatus::Processing, n, None, &at)));
    }
    assert_eq!(hub.total(), 5);
    match hub.recv(&mut early) {
        RecvOutcome::Lagged(missed) => assert_eq!(missed, 2),
        _ => panic!("a receiver that fell behind is told so"),
    }
    assert_eq!(early.next, 2);
    for n in 2..5u8 {
        match hub.recv(&mut early) {
            RecvOutcome::Update(u) => assert_eq!(u.progress, n),
            _ => panic!("the kept events are read in order"),
        }
    }
    assert!(matches!(hub.recv(&mut early), RecvOutcome::Empty));
}

#[test]
fn test_deleted_job_is_gone() {
    let mut store = JobStore::new();
    store_job(&mut store, &stored("a", "pending")).unwrap();
    store_job(&mut store, &stored("b", "pending")).unwrap();
    assert!(store_job(&mut store, &stored("a", "failed")).is_err());
    assert_eq!(store.jobs.len(), 2);
    assert!(delete_job(&mut store, "a"));
    assert!(get_job(&store, "a").is_none());
    assert!(get_job(&store, "b").is_some());
    assert!(!delete_job(&mut store, "a"));
}
