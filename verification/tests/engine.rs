use converty::clock::Timestamp;
use converty::db::jobs::{get_job, JobStore};
use converty::db::stats::GuestConfig;
use converty::error::AppError;
use converty::ident::JobId;
use converty::models::auth::AuthInfo;
use converty::models::job::{JobStatus, ProgressUpdate};
use converty::models::request::{ConversionType, CreateJobRequest, JobPriority};
use converty::routes::convert::guest::check_guest_limits;
use converty::routes::jobs::crud::{
    cancel_job, cancel_job_at, create_job, delete_job, download_job_result, get_job_status,
    retry_job, retry_job_at,
};
use converty::routes::jobs::stream::{job_progress_stream, StreamPoll};
use converty::services::converter::convert_pdf_file_smart;
use converty::services::progress::{ProgressHub, ProgressReceiver, RecvOutcome};
use converty::services::queue::{
    create_job_queue, get_job_result, process_job, process_job_at, ConversionOutcome,
    DispatchAction, DispatchEvent, JobQueueInner, JobRequest, MAX_CONCURRENT_JOBS,
};

fn at(secs: i64) -> Timestamp {
    Timestamp::from_parts(secs, 0).unwrap()
}

fn id(n: u128) -> JobId {
    JobId::from_u128(n)
}

fn request(owner: Option<&str>) -> JobRequest {
    JobRequest {
        conversion_type: ConversionType::Image,
        file_size: 1234,
        input_format: "png".to_string(),
        output_format: "jpg".to_string(),
        quality: Some(80),
        api_key_id: owner.map(|s| s.to_string()),
        priority: None,
        webhook_url: None,
        source_url: None,
        expires_in_hours: None,
        original_filename: Some("photo.png".to_string()),
    }
}

fn record(queue: &JobQueueInner, job: &JobId) -> converty::db::jobs::JobRecord {
    get_job(queue.db(), &job.to_string()).unwrap()
}

fn drain(queue: &JobQueueInner, rx: &mut ProgressReceiver) -> Vec<ProgressUpdate> {
    let mut out = Vec::new();
    loop {
        match queue.hub.recv(rx) {
            RecvOutcome::Update(u) => out.push(u),
            RecvOutcome::Lagged(_) => {}
            RecvOutcome::Empty => return out,
        }
    }
}

#[test]
fn test_guest_image_job_completes() {
    let guests = GuestConfig {
        enabled: true,
        rate_limit_per_minute: 10,
        daily_limit: 5,
        max_file_size_mb: 5,
        allowed_types: vec!["image".to_string(), "document".to_string()],
    };
    let auth = AuthInfo {
        client_ip: Some("203.0.113.7".to_string()),
        ..AuthInfo::default()
    };
    assert!(check_guest_limits(&guests, &auth, "image", 0).is_ok());

    let mut queue = create_job_queue("/tmp/converty/jobs".to_string());
    let mut rx = queue.subscribe();
    let query = CreateJobRequest {
        output_format: "jpg".to_string(),
        conversion_type: ConversionType::Image,
        quality: Some(80),
        width: None,
        height: None,
        source_url: None,
        priority: JobPriority::default(),
        webhook_url: None,
        expires_in_hours: None,
    };
    let created = create_job(
        &mut queue,
        &auth,
        &query,
        2048,
        "png".to_string(),
        Some("photo.png".to_string()),
    )
    .unwrap();
    assert_eq!(created.message, "Job creato e in elaborazione");
    let job = JobId::parse_str(&created.id).unwrap();
    assert_eq!(get_job_status(&queue, &created.id).unwrap().status, JobStatus::Pending);

    let plan = match process_job(&mut queue, &job, DispatchEvent::Start) {
        DispatchAction::Convert(plan) => plan,
        _ => panic!("the job should start"),
    };
    assert_eq!(plan.job_id, job);
    assert_eq!(plan.output_format, "jpg");
    assert_eq!(plan.quality, Some(80));
    assert_eq!(plan.conversion_type, ConversionType::Image);
    assert!(!plan.is_pdf);
    assert_eq!(plan.input_path, format!("/tmp/converty/jobs/{}/input.png", created.id));
    assert_eq!(plan.output_dir, format!("/tmp/converty/jobs/{}", created.id));
    assert_eq!(plan.output_path, format!("/tmp/converty/jobs/{}/output.jpg", created.id));
    assert_eq!(queue.semaphore().available_permits(), MAX_CONCURRENT_JOBS - 1);
    assert_eq!(record(&queue, &job).status, "processing");
    assert_eq!(record(&queue, &job).progress, 30);

    let outcome = ConversionOutcome::Converted(plan.output_path.clone());
    let effects = match process_job(&mut queue, &job, DispatchEvent::Converted(outcome)) {
        DispatchAction::Finish(effects) => effects,
        _ => panic!("the job should finish"),
    };
    assert!(effects.webhook.is_none());
    assert!(effects.upload.is_none());
    assert_eq!(queue.semaphore().available_permits(), MAX_CONCURRENT_JOBS);

    let done = record(&queue, &job);
    assert_eq!(done.status, "completed");
    assert_eq!(done.progress, 100);
    assert_eq!(done.result_path, Some(plan.output_path.clone()));
    assert!(!done.result_path.unwrap().is_empty());
    assert_eq!(done.error, None);
    assert!(done.started_at.is_some());
    assert!(done.completed_at.is_some());
    assert_eq!(get_job_result(&queue, &job).unwrap(), plan.output_path);
    let response = get_job_status(&queue, &created.id).unwrap();
    assert_eq!(response.status, JobStatus::Completed);
    assert_eq!(response.conversion_type, "image");
    assert_eq!(response.id, created.id);

    let seen: Vec<(JobStatus, u8)> =
        drain(&queue, &mut rx).iter().map(|u| (u.status, u.progress)).collect();
    assert_eq!(
        seen,
        vec![
            (JobStatus::Pending, 0),
            (JobStatus::Processing, 0),
            (JobStatus::Processing, 10),
            (JobStatus::Processing, 30),
            (JobStatus::Processing, 80),
            (JobStatus::Completed, 100),
        ]
    );
}

#[test]
fn test_cancel_pending_job_is_never_dispatched() {
    let mut queue = create_job_queue("/tmp/jobs".to_string());
    let mut req = request(None);
    req.webhook_url = Some("http://hooks.example/done".to_string());
    let job = queue.submit(req, id(7), &at(1_700_000_000)).unwrap();
    let mut rx = queue.subscribe();

    assert!(cancel_job(&mut queue, &job.to_string()).is_ok());
    let rec = record(&queue, &job);
    assert_eq!(rec.status, "cancelled");
    assert_eq!(rec.result_path, None);
    assert_eq!(rec.progress, 0);
    assert_eq!(rec.progress_message, Some("Job cancellato dall'utente".to_string()));
    assert!(rec.completed_at.is_some());

    let events = drain(&queue, &mut rx);
    assert_eq!(events.len(), 1);
    assert_eq!(events[0].job_id, job);
    assert_eq!(events[0].status, JobStatus::Cancelled);
    assert_eq!(events[0].message, Some("Job cancellato dall'utente".to_string()));

    assert!(matches!(process_job(&mut queue, &job, DispatchEvent::Start), DispatchAction::Discard));
    assert_eq!(queue.semaphore().available_permits(), MAX_CONCURRENT_JOBS);
    assert_eq!(record(&queue, &job).status, "cancelled");

    let late = ConversionOutcome::Converted("/tmp/jobs/out.jpg".to_string());
    match process_job(&mut queue, &job, DispatchEvent::Converted(late)) {
        DispatchAction::Finish(effects) => {
            assert!(effects.webhook.is_none());
            assert!(effects.upload.is_none());
        }
        _ => panic!("a finished conversion is always answered with its side effects"),
    }
    assert_eq!(record(&queue, &job).status, "cancelled");
    assert_eq!(record(&queue, &job).result_path, None);
    assert!(drain(&queue, &mut rx).is_empty());

    match cancel_job(&mut queue, &job.to_string()) {
        Err(AppError::InvalidTransition(text)) => {
            assert_eq!(text, "Il job con stato 'cancelled' non può essere cancellato")
        }
        other => panic!("unexpected: {:?}", other),
    }
}

#[test]
fn test_cancel_while_processing_discards_the_result() {
    let mut queue = create_job_queue("/tmp/jobs".to_string());
    let mut req = request(Some("key-1"));
    req.webhook_url = Some("http://hooks.example/done".to_string());
    queue.db.set_job_limit("key-1", None);
    let job = queue.submit(req, id(8), &at(1_700_000_000)).unwrap();
    assert!(matches!(
        process_job_at(&mut queue, &job, DispatchEvent::Start, &at(1_700_000_001)),
        DispatchAction::Convert(_)
    ));
    let mut rx = queue.subscribe();
    assert!(cancel_job_at(&mut queue, &job.to_string(), &at(1_700_000_002)).is_ok());
    let events = drain(&queue, &mut rx);
    assert_eq!(events.len(), 1);
    assert_eq!(events[0].status, JobStatus::Cancelled);
    assert_eq!(events[0].progress, 30);
    assert_eq!(events[0].timestamp.to_rfc3339(), "2023-11-14T22:13:22+00:00");

    let outcome = ConversionOutcome::Converted("/tmp/jobs/out.jpg".to_string());
    match process_job_at(&mut queue, &job, DispatchEvent::Converted(outcome), &at(1_700_000_003)) {
        DispatchAction::Finish(effects) => {
            assert!(effects.webhook.is_none());
            assert!(effects.upload.is_none());
        }
        _ => panic!("expected the side effects"),
    }
    let rec = record(&queue, &job);
    assert_eq!(rec.status, "cancelled");
    assert_eq!(rec.progress, 30);
    assert_eq!(rec.result_path, None);
    assert_eq!(queue.semaphore().available_permits(), MAX_CONCURRENT_JOBS);
}

#[test]
fn test_failed_job_reports_webhook_and_keeps_progress() {
    let mut queue = create_job_queue("/tmp/jobs".to_string());
    queue.db.set_job_limit("key-1", Some(2));
    let mut req = request(Some("key-1"));
    req.webhook_url = Some("http://hooks.example/done".to_string());
    let job = queue.submit(req, id(9), &at(1_700_000_000)).unwrap();
    assert!(matches!(
        process_job_at(&mut queue, &job, DispatchEvent::Start, &at(1_700_000_001)),
        DispatchAction::Convert(_)
    ));
    let outcome = ConversionOutcome::Failed("Errore di conversione: boom".to_string());
    let effects =
        match process_job_at(&mut queue, &job, DispatchEvent::Converted(outcome), &at(1_700_000_005)) {
            DispatchAction::Finish(effects) => effects,
            _ => panic!("expected the side effects"),
        };
    let hook = effects.webhook.unwrap();
    assert_eq!(hook.url, "http://hooks.example/done");
    assert_eq!(hook.job_id, job.to_string());
    assert_eq!(hook.status, "failed");
    assert_eq!(hook.error, Some("Errore di conversione: boom".to_string()));
    assert_eq!(hook.timestamp, "2023-11-14T22:13:25+00:00");
    assert!(effects.upload.is_none());

    let rec = record(&queue, &job);
    assert_eq!(rec.status, "failed");
    assert_eq!(rec.progress, 80);
    assert_eq!(rec.error, Some("Errore di conversione: boom".to_string()));
    assert_eq!(
        rec.progress_message,
        Some("Errore: Errore di conversione: boom".to_string())
    );
    assert_eq!(rec.result_path, None);
    assert_eq!(rec.completed_at, Some("2023-11-14T22:13:25+00:00".to_string()));
    assert_eq!(rec.started_at, Some("2023-11-14T22:13:21+00:00".to_string()));
    match get_job_result(&queue, &job) {
        Err(AppError::JobNotCompleted) => {}
        other => panic!("unexpected: {:?}", other),
    }
}

#[test]
fn test_completed_job_of_an_owner_offers_upload_and_webhook() {
    let mut queue = create_job_queue("/tmp/jobs".to_string());
    queue.db.set_job_limit("key-1", None);
    let mut req = request(Some("key-1"));
    req.webhook_url = Some("http://hooks.example/done".to_string());
    req.conversion_type = ConversionType::Pdf;
    req.input_format = "pdf".to_string();
    req.output_format = "png".to_string();
    req.original_filename = Some("report.pdf".to_string());
    let job = queue.submit(req, id(10), &at(1_700_000_000)).unwrap();
    let plan = match process_job_at(&mut queue, &job, DispatchEvent::Start, &at(1_700_000_001)) {
        DispatchAction::Convert(plan) => plan,
        _ => panic!("the job should start"),
    };
    assert!(plan.is_pdf);
    assert_eq!(plan.conversion_type, ConversionType::Pdf);

    let (result, is_zip) = convert_pdf_file_smart(&plan.output_dir, &plan.output_format, Some(3));
    assert!(is_zip);
    let outcome = ConversionOutcome::Converted(result.clone());
    let effects =
        match process_job_at(&mut queue, &job, DispatchEvent::Converted(outcome), &at(1_700_000_009)) {
            DispatchAction::Finish(effects) => effects,
            _ => panic!("expected the side effects"),
        };
    let hook = effects.webhook.unwrap();
    assert_eq!(hook.status, "completed");
    assert_eq!(hook.error, None);
    let upload = effects.upload.unwrap();
    assert_eq!(upload.job_id, job.to_string());
    assert_eq!(upload.api_key_id, "key-1");
    assert_eq!(upload.result_path, result);
    assert_eq!(upload.original_filename, Some("report.pdf".to_string()));
    assert_eq!(upload.output_format, "png");
    assert_eq!(upload.conversion_type, "pdf");

    let download = download_job_result(&queue, &job.to_string()).unwrap();
    assert_eq!(download.path, result);
    assert_eq!(download.content_type, "application/zip");
    assert_eq!(download.filename, "converted.zip");
}

#[test]
fn test_multi_page_pdf_gives_one_archive() {
    let (path, is_zip) = convert_pdf_file_smart("/tmp/jobs/j1", "png", Some(12));
    assert_eq!(path, "/tmp/jobs/j1/output.zip");
    assert!(is_zip);
    let (path, is_zip) = convert_pdf_file_smart("/tmp/jobs/j1", "png", Some(1));
    assert_eq!(path, "/tmp/jobs/j1/output.png");
    assert!(!is_zip);
    let (path, is_zip) = convert_pdf_file_smart("/tmp/jobs/j1", "jpg", None);
    assert_eq!(path, "/tmp/jobs/j1/output.jpg");
    assert!(!is_zip);
    let (path, is_zip) = convert_pdf_file_smart("/tmp/jobs/j1", "jpg", Some(0));
    assert_eq!(path, "/tmp/jobs/j1/output.jpg");
    assert!(!is_zip);
}

#[test]
fn test_admission_follows_active_count() {
    let mut queue = create_job_queue("/tmp/jobs".to_string());
    queue.db.set_job_limit("key-1", None);
    let owner = Some("key-1".to_string());
    let mut jobs = Vec::new();
    for n in 0..5u128 {
        assert!(queue.check_admission(&owner).is_ok());
        jobs.push(queue.submit(request(Some("key-1")), id(100 + n), &at(1_700_000_000)).unwrap());
    }
    match queue.check_admission(&owner) {
        Err(AppError::TooManyJobs(text)) => assert_eq!(text, "Limite job raggiunto: 5/5"),
        other => panic!("unexpected: {:?}", other),
    }
    match queue.submit(request(Some("key-1")), id(200), &at(1_700_000_000)) {
        Err(AppError::TooManyJobs(_)) => {}
        other => panic!("unexpected: {:?}", other),
    }
    assert_eq!(queue.db.jobs.len(), 5);
    assert!(queue.check_admission(&None).is_ok());
    assert!(queue.submit(request(None), id(201), &at(1_700_000_000)).is_ok());

    assert!(cancel_job(&mut queue, &jobs[2].to_string()).is_ok());
    assert!(queue.check_admission(&owner).is_ok());
    assert!(queue.submit(request(Some("key-1")), id(202), &at(1_700_000_000)).is_ok());
    assert!(queue.check_admission(&owner).is_err());

    assert!(matches!(
        process_job(&mut queue, &jobs[0], DispatchEvent::Start),
        DispatchAction::Convert(_)
    ));
    assert!(queue.check_admission(&owner).is_err());
    let failed = ConversionOutcome::Failed("no".to_string());
    assert!(matches!(
        process_job(&mut queue, &jobs[0], DispatchEvent::Converted(failed)),
        DispatchAction::Finish(_)
    ));
    assert!(queue.check_admission(&owner).is_ok());
}

#[test]
fn test_admission_of_unknown_key_and_custom_limit() {
    let mut queue = create_job_queue("/tmp/jobs".to_string());
    match queue.check_admission(&Some("ghost".to_string())) {
        Err(AppError::Internal(text)) => {
            assert_eq!(text, "no rows returned by a query that expected to return at least one row")
        }
        other => panic!("unexpected: {:?}", other),
    }
    queue.db.set_job_limit("key-2", Some(1));
    assert!(queue.submit(request(Some("key-2")), id(1), &at(0)).is_ok());
    match queue.check_admission(&Some("key-2".to_string())) {
        Err(AppError::TooManyJobs(text)) => assert_eq!(text, "Limite job raggiunto: 1/1"),
        other => panic!("unexpected: {:?}", other),
    }
    queue.db.set_job_limit("key-3", Some(0));
    match queue.check_admission(&Some("key-3".to_string())) {
        Err(AppError::TooManyJobs(text)) => assert_eq!(text, "Limite job raggiunto: 0/0"),
        other => panic!("unexpected: {:?}", other),
    }
    queue.db.set_job_limit("key-2", Some(2));
    assert!(queue.check_admission(&Some("key-2".to_string())).is_ok());
}

#[test]
fn test_submit_stores_the_pending_record() {
    let mut queue = create_job_queue("/tmp/jobs".to_string());
    let mut req = request(None);
    req.priority = Some("high".to_string());
    req.source_url = Some("http://files.example/a.png?x=1".to_string());
    req.expires_in_hours = Some(24);
    let job = queue.submit(req, id(0x550e8400_e29b_41d4_a716_446655440000), &at(1_700_000_000)).unwrap();
    assert_eq!(job.to_string(), "550e8400-e29b-41d4-a716-446655440000");
    let rec = record(&queue, &job);
    assert_eq!(rec.id, "550e8400-e29b-41d4-a716-446655440000");
    assert_eq!(rec.api_key_id, None);
    assert_eq!(rec.conversion_type, "image");
    assert_eq!(rec.input_format, "png");
    assert_eq!(rec.output_format, "jpg");
    assert_eq!(rec.quality, Some(80));
    assert_eq!(rec.status, "pending");
    assert_eq!(rec.progress, 0);
    assert_eq!(rec.progress_message, None);
    assert_eq!(rec.input_path, "/tmp/jobs/550e8400-e29b-41d4-a716-446655440000/input.png");
    assert_eq!(rec.result_path, None);
    assert_eq!(rec.error, None);
    assert_eq!(rec.file_size_bytes, Some(1234));
    assert_eq!(rec.created_at, "2023-11-14T22:13:20+00:00");
    assert_eq!(rec.updated_at, "2023-11-14T22:13:20+00:00");
    assert_eq!(rec.started_at, None);
    assert_eq!(rec.completed_at, None);
    assert_eq!(rec.priority, Some("high".to_string()));
    assert_eq!(rec.source_url, Some("http://files.example/a.png?x=1".to_string()));
    assert_eq!(rec.expires_at, Some("2023-11-15T22:13:20+00:00".to_string()));
    assert_eq!(rec.retry_count, Some(0));
    assert_eq!(rec.original_filename, Some("photo.png".to_string()));
    assert_eq!(rec.drive_file_id, None);

    let other = queue.submit(request(None), id(2), &at(1_700_000_000)).unwrap();
    assert_eq!(record(&queue, &other).priority, Some("normal".to_string()));
    assert_eq!(record(&queue, &other).expires_at, None);
}

#[test]
fn test_submit_refuses_duplicates_and_bad_expiry() {
    let mut queue = create_job_queue("/tmp/jobs".to_string());
    assert!(queue.submit(request(None), id(1), &at(0)).is_ok());
    match queue.submit(request(None), id(1), &at(0)) {
        Err(AppError::Internal(text)) => assert_eq!(text, "UNIQUE constraint failed: jobs.id"),
        other => panic!("unexpected: {:?}", other),
    }
    let mut req = request(None);
    req.expires_in_hours = Some(i64::MAX);
    match queue.submit(req, id(2), &at(0)) {
        Err(AppError::BadRequest(text)) => assert_eq!(text, "Scadenza del risultato non valida"),
        other => panic!("unexpected: {:?}", other),
    }
    assert_eq!(queue.db.jobs.len(), 1);
    assert_eq!(queue.hub.total(), 1);
}

#[test]
fn test_retry_counts_and_stops_after_three() {
    let mut queue = create_job_queue("/tmp/jobs".to_string());
    let job = queue.submit(request(None), id(5), &at(1_700_000_000)).unwrap();
    let text = job.to_string();
    match retry_job(&mut queue, &text) {
        Err(AppError::InvalidTransition(t)) => {
            assert_eq!(t, "Solo i job falliti possono essere ritentati")
        }
        other => panic!("unexpected: {:?}", other.map(|a| a.retry_count)),
    }
    for attempt in 1..=3i64 {
        assert!(matches!(
            process_job(&mut queue, &job, DispatchEvent::Start),
            DispatchAction::Convert(_)
        ));
        let failed = ConversionOutcome::Failed(format!("failure {}", attempt));
        assert!(matches!(
            process_job(&mut queue, &job, DispatchEvent::Converted(failed)),
            DispatchAction::Finish(_)
        ));
        assert_eq!(record(&queue, &job).status, "failed");
        assert_eq!(record(&queue, &job).retry_count, Some(attempt - 1));
        assert_eq!(record(&queue, &job).progress, 80);

        let accepted = retry_job_at(&mut queue, &text, &at(1_700_000_100)).unwrap();
        assert_eq!(accepted.job_id, job);
        assert_eq!(accepted.retry_count, attempt);
        assert_eq!(accepted.message, format!("Job rimesso in coda (retry {}/3)", attempt));
        let rec = record(&queue, &job);
        assert_eq!(rec.status, "pending");
        assert_eq!(rec.retry_count, Some(attempt));
        assert_eq!(rec.error, None);
        assert_eq!(rec.progress, 0);
        assert_eq!(rec.progress_message, Some("In coda per retry...".to_string()));
        assert_eq!(rec.started_at, None);
        assert_eq!(rec.completed_at, None);
        assert_eq!(rec.updated_at, "2023-11-14T22:15:00+00:00");
    }
    assert!(matches!(
        process_job(&mut queue, &job, DispatchEvent::Start),
        DispatchAction::Convert(_)
    ));
    let failed = ConversionOutcome::Failed("last".to_string());
    assert!(matches!(
        process_job(&mut queue, &job, DispatchEvent::Converted(failed)),
        DispatchAction::Finish(_)
    ));
    match retry_job(&mut queue, &text) {
        Err(AppError::InvalidTransition(t)) => {
            assert_eq!(t, "Numero massimo di retry raggiunto (3/3)")
        }
        other => panic!("unexpected: {:?}", other.map(|a| a.retry_count)),
    }
    let rec = record(&queue, &job);
    assert_eq!(rec.status, "failed");
    assert_eq!(rec.retry_count, Some(3));
    assert_eq!(rec.error, Some("last".to_string()));
}

#[test]
fn test_unknown_jobs_are_not_found() {
    let mut queue = create_job_queue("/tmp/jobs".to_string());
    let missing = "550e8400-e29b-41d4-a716-446655440000";
    for result in [
        retry_job(&mut queue, missing).map(|_| ()),
        cancel_job(&mut queue, missing),
        delete_job(&mut queue, missing).map(|_| ()),
        get_job_status(&queue, missing).map(|_| ()),
        download_job_result(&queue, missing).map(|_| ()),
        job_progress_stream(&queue, missing).map(|_| ()),
        get_job_status(&queue, "not-an-id").map(|_| ()),
        delete_job(&mut queue, "not-an-id").map(|_| ()),
    ] {
        match result {
            Err(AppError::JobNotFound(_)) => {}
            other => panic!("unexpected: {:?}", other),
        }
    }
    match get_job_result(&queue, &id(1)) {
        Err(AppError::JobNotFound(text)) => {
            assert_eq!(text, "00000000-0000-0000-0000-000000000001")
        }
        other => panic!("unexpected: {:?}", other),
    }
    assert!(queue.get_job(&id(1)).is_none());
    assert!(!queue.mark_job_processing(&id(1)));
    assert!(!queue.update_job_progress(&id(1), 50, None));
    assert!(!queue.mark_job_completed(&id(1), "x".to_string()));
    assert!(!queue.mark_job_failed(&id(1), "x".to_string()));
    assert!(matches!(process_job(&mut queue, &id(1), DispatchEvent::Start), DispatchAction::Discard));
    assert!(matches!(process_job(&mut queue, &id(1), DispatchEvent::Aborted), DispatchAction::Discard));
    assert_eq!(queue.semaphore().available_permits(), MAX_CONCURRENT_JOBS);
}

#[test]
fn test_delete_returns_the_files() {
    let mut queue = create_job_queue("/tmp/jobs".to_string());
    let job = queue.submit(request(None), id(3), &at(0)).unwrap();
    let other = queue.submit(request(None), id(4), &at(0)).unwrap();
    assert!(matches!(process_job(&mut queue, &job, DispatchEvent::Start), DispatchAction::Convert(_)));
    let done = ConversionOutcome::Converted("/tmp/jobs/r.jpg".to_string());
    assert!(matches!(
        process_job(&mut queue, &job, DispatchEvent::Converted(done)),
        DispatchAction::Finish(_)
    ));
    let files = delete_job(&mut queue, &job.to_string()).unwrap();
    assert_eq!(files.job_dir, format!("/tmp/jobs/{}", job.to_string()));
    assert_eq!(files.result_path, Some("/tmp/jobs/r.jpg".to_string()));
    assert!(queue.get_job(&job).is_none());
    assert!(queue.get_job(&other).is_some());
    assert!(delete_job(&mut queue, &job.to_string()).is_err());
    let files = queue.delete_job(&other).unwrap();
    assert_eq!(files.result_path, None);
    assert_eq!(queue.db.jobs.len(), 0);
}

#[test]
fn test_engine_status_steps_follow_the_lifecycle() {
    let mut queue = create_job_queue("/tmp/jobs".to_string());
    let job = queue.submit(request(None), id(11), &at(0)).unwrap();
    assert!(!queue.update_job_progress(&job, 10, None));
    assert!(!queue.mark_job_completed(&job, "r".to_string()));
    assert!(!queue.mark_job_failed(&job, "e".to_string()));
    assert!(queue.mark_job_processing(&job));
    assert!(!queue.mark_job_processing(&job));
    assert!(queue.update_job_progress(&job, 40, Some("a".to_string())));
    assert!(!queue.update_job_progress(&job, 39, Some("b".to_string())));
    assert!(queue.update_job_progress(&job, 40, Some("c".to_string())));
    assert!(queue.update_job_progress(&job, 250, Some("d".to_string())));
    assert_eq!(record(&queue, &job).progress, 100);
    assert_eq!(record(&queue, &job).progress_message, Some("d".to_string()));
    assert!(queue.mark_job_completed(&job, "r".to_string()));
    assert!(!queue.mark_job_completed(&job, "again".to_string()));
    assert!(!queue.mark_job_failed(&job, "e".to_string()));
    assert!(!queue.update_job_progress(&job, 100, None));
    assert_eq!(record(&queue, &job).result_path, Some("r".to_string()));
    let view = queue.get_job(&job).unwrap();
    assert_eq!(view.id, job);
    assert_eq!(view.status, JobStatus::Completed);
    assert_eq!(view.progress, 100);
    assert_eq!(view.quality, Some(80));
    assert_eq!(view.created_at.to_rfc3339(), "1970-01-01T00:00:00+00:00");
    assert!(view.completed_at.is_some());
}

#[test]
fn test_permits_bound_the_running_jobs() {
    let mut queue = create_job_queue("/tmp/jobs".to_string());
    let mut jobs = Vec::new();
    for n in 0..12u128 {
        jobs.push(queue.submit(request(None), id(n + 1), &at(0)).unwrap());
    }
    for job in jobs.iter().take(10) {
        assert!(matches!(process_job(&mut queue, job, DispatchEvent::Start), DispatchAction::Convert(_)));
    }
    assert_eq!(queue.semaphore().available_permits(), 0);
    assert!(matches!(process_job(&mut queue, &jobs[10], DispatchEvent::Start), DispatchAction::Wait));
    assert_eq!(record(&queue, &jobs[10]).status, "pending");
    assert!(matches!(process_job(&mut queue, &jobs[0], DispatchEvent::Aborted), DispatchAction::Discard));
    assert_eq!(record(&queue, &jobs[0]).status, "processing");
    assert_eq!(queue.semaphore().available_permits(), 1);
    assert!(matches!(
        process_job(&mut queue, &jobs[10], DispatchEvent::Start),
        DispatchAction::Convert(_)
    ));
    assert!(matches!(process_job(&mut queue, &jobs[11], DispatchEvent::Start), DispatchAction::Wait));
}

#[test]
fn test_late_subscriber_sees_the_stored_state_first() {
    let mut queue = create_job_queue("/tmp/jobs".to_string());
    let job = queue.submit(request(None), id(21), &at(0)).unwrap();
    let other = queue.submit(request(None), id(22), &at(0)).unwrap();
    assert!(matches!(process_job(&mut queue, &job, DispatchEvent::Start), DispatchAction::Convert(_)));

    let mut stream = job_progress_stream(&queue, &job.to_string()).unwrap();
    assert!(matches!(process_job(&mut queue, &other, DispatchEvent::Start), DispatchAction::Convert(_)));
    assert!(queue.update_job_progress(&job, 55, Some("half".to_string())));
    match stream.poll_next(&queue.hub) {
        StreamPoll::Event(u) => {
            assert_eq!(u.job_id, job);
            assert_eq!(u.status, JobStatus::Processing);
            assert_eq!(u.progress, 30);
            assert_eq!(u.message, Some("Conversione in corso...".to_string()));
        }
        _ => panic!("the stored state comes first"),
    }
    match stream.poll_next(&queue.hub) {
        StreamPoll::Event(u) => {
            assert_eq!(u.job_id, job);
            assert_eq!(u.progress, 55);
        }
        _ => panic!("then the live events of the job"),
    }
    assert!(matches!(stream.poll_next(&queue.hub), StreamPoll::Pending));
    let done = ConversionOutcome::Converted("/r".to_string());
    assert!(matches!(
        process_job(&mut queue, &job, DispatchEvent::Converted(done)),
        DispatchAction::Finish(_)
    ));
    match stream.poll_next(&queue.hub) {
        StreamPoll::Event(u) => assert_eq!((u.status, u.progress), (JobStatus::Processing, 80)),
        _ => panic!("expected the checkpoint"),
    }
    match stream.poll_next(&queue.hub) {
        StreamPoll::Event(u) => assert_eq!((u.status, u.progress), (JobStatus::Completed, 100)),
        _ => panic!("expected the completion"),
    }
    assert!(matches!(stream.poll_next(&queue.hub), StreamPoll::Finished));
    assert!(queue.update_job_progress(&other, 60, None));
    assert!(matches!(stream.poll_next(&queue.hub), StreamPoll::Finished));

    let mut late = job_progress_stream(&queue, &job.to_string()).unwrap();
    match late.poll_next(&queue.hub) {
        StreamPoll::Event(u) => {
            assert_eq!(u.status, JobStatus::Completed);
            assert_eq!(u.progress, 100);
            assert_eq!(u.message, Some("Conversione completata!".to_string()));
        }
        _ => panic!("a completed job is replayed too"),
    }
    assert!(matches!(late.poll_next(&queue.hub), StreamPoll::Finished));
}

#[test]
fn test_stream_ends_on_cancellation() {
    let mut queue = create_job_queue("/tmp/jobs".to_string());
    let job = queue.submit(request(None), id(31), &at(0)).unwrap();
    let mut stream = job_progress_stream(&queue, &job.to_string()).unwrap();
    assert!(matches!(stream.poll_next(&queue.hub), StreamPoll::Event(_)));
    assert!(matches!(stream.poll_next(&queue.hub), StreamPoll::Pending));
    assert!(cancel_job(&mut queue, &job.to_string()).is_ok());
    match stream.poll_next(&queue.hub) {
        StreamPoll::Event(u) => assert_eq!(u.status, JobStatus::Cancelled),
        _ => panic!("expected the cancellation"),
    }
    assert!(matches!(stream.poll_next(&queue.hub), StreamPoll::Finished));
}

#[test]
fn test_stream_reports_lag_and_a_fresh_stream_resynchronizes() {
    let mut queue = create_job_queue("/tmp/jobs".to_string());
    let job = queue.submit(request(None), id(41), &at(0)).unwrap();
    let other = queue.submit(request(None), id(42), &at(0)).unwrap();
    assert!(queue.mark_job_processing(&job));
    assert!(queue.mark_job_processing(&other));
    let mut stream = job_progress_stream(&queue, &job.to_string()).unwrap();
    assert!(matches!(stream.poll_next(&queue.hub), StreamPoll::Event(_)));
    assert!(queue.update_job_progress(&job, 1, None));
    for n in 0..100u8 {
        assert!(queue.update_job_progress(&other, n, None));
    }
    assert!(queue.mark_job_completed(&job, "/r".to_string()));
    for _ in 0..160 {
        assert!(queue.update_job_progress(&other, 100, None));
    }
    match stream.poll_next(&queue.hub) {
        StreamPoll::Lagged(missed) => assert_eq!(missed, 162),
        _ => panic!("the stream fell behind"),
    }
    assert!(matches!(stream.poll_next(&queue.hub), StreamPoll::Pending));
    let mut fresh = job_progress_stream(&queue, &job.to_string()).unwrap();
    match fresh.poll_next(&queue.hub) {
        StreamPoll::Event(u) => assert_eq!((u.status, u.progress), (JobStatus::Completed, 100)),
        _ => panic!("the stored state comes first"),
    }
    assert!(matches!(fresh.poll_next(&queue.hub), StreamPoll::Finished));
}

#[test]
fn test_hub_drops_the_oldest_and_reports_lag() {
    let mut hub = ProgressHub::new(3);
    let mut early = hub.subscribe();
    for n in 0..5u8 {
        assert!(hub.send(ProgressUpdate::at(id(1), JobStatus::Processing, n, None, &at(0))));
    }
    let mut late = hub.subscribe();
    assert_eq!(hub.total(), 5);
    match hub.recv(&mut early) {
        RecvOutcome::Lagged(missed) => assert_eq!(missed, 2),
        _ => panic!("the receiver fell behind"),
    }
    for expected in 2..5u8 {
        match hub.recv(&mut early) {
            RecvOutcome::Update(u) => assert_eq!(u.progress, expected),
            _ => panic!("expected an event"),
        }
    }
    assert!(matches!(hub.recv(&mut early), RecvOutcome::Empty));
    assert!(matches!(hub.recv(&mut late), RecvOutcome::Empty));
    assert!(hub.send(ProgressUpdate::at(id(1), JobStatus::Completed, 100, None, &at(0))));
    match hub.recv(&mut late) {
        RecvOutcome::Update(u) => assert_eq!(u.status, JobStatus::Completed),
        _ => panic!("expected an event"),
    }
    let mut small = ProgressHub::new(0);
    let mut rx = small.subscribe();
    assert!(small.send(ProgressUpdate::new(id(2), JobStatus::Pending, 0, None)));
    assert!(small.send(ProgressUpdate::new(id(2), JobStatus::Processing, 1, None)));
    assert!(matches!(small.recv(&mut rx), RecvOutcome::Lagged(1)));
    assert!(matches!(small.recv(&mut rx), RecvOutcome::Update(_)));
}

#[test]
fn test_empty_store_has_nothing() {
    let store = JobStore::new();
    assert!(get_job(&store, "x").is_none());
    assert_eq!(store.position("x"), 0);
}
