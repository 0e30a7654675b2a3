//! What is sent outside the engine when a job has ended: the notification
//! of its webhook and the upload of its result.

use vstd::prelude::*;
use crate::clock::{compact_text, Timestamp};
use crate::db::user_settings::{
    filter_allows, should_save_to_drive, UserSettings, UserSettingsView,
};
use crate::ident::JobId;
use crate::services::queue::{DriveUpload, DriveUploadView, WebhookCall, WebhookCallView};
use crate::text::{
    chars_of, find_after_last, glue, glue3, last_index, lemma_last_index, string_from_range,
};

verus! {

/// How long the delivery of a webhook may take, in seconds.
pub const WEBHOOK_TIMEOUT_SECS: u64 = 10;

/// The notification for the webhook of a job, stamped now.
pub fn send_webhook(webhook_url: &str, job_id: &JobId, status: &str, error: Option<&str>) -> (r:
    WebhookCall)
    ensures
        r@.url == webhook_url@,
        r@.job_id == job_id.text(),
        r@.status == status@,
        r@.error == error.deep_view(),
        exists|now: Timestamp| r@.timestamp == #[trigger] now.text(),
{
    let now = Timestamp::now();
    send_webhook_at(webhook_url, job_id, status, error, &now)
}

/// The notification for the webhook of a job: the identifier, the status, the
/// error where there is one, and the time.
pub fn send_webhook_at(
    webhook_url: &str,
    job_id: &JobId,
    status: &str,
    error: Option<&str>,
    now: &Timestamp,
) -> (r: WebhookCall)
    ensures
        r@ == (WebhookCallView {
            url: webhook_url@,
            job_id: job_id.text(),
            status: status@,
            error: error.deep_view(),
            timestamp: now.text(),
        }),
{
    WebhookCall {
        url: webhook_url.to_string(),
        job_id: job_id.to_string(),
        status: status.to_string(),
        error: match error {
            Some(e) => Some(e.to_string()),
            None => None,
        },
        timestamp: now.to_rfc3339(),
    }
}

/// A file name without its last extension; the whole name where it has none.
pub open spec fn base_name(name: Seq<char>) -> Seq<char> {
    if last_index(name, '.') >= 0 {
        name.subrange(0, last_index(name, '.'))
    } else {
        name
    }
}

/// The name under which a result is uploaded: the original name with the
/// extension of the output where the user keeps original names and the job has
/// one, `converted` with that extension where the job has none, and
/// `converted_` with the time of the upload where the user does not keep
/// original names.
pub open spec fn upload_filename(
    keep_original: bool,
    original_filename: Option<Seq<char>>,
    output_format: Seq<char>,
    now: Timestamp,
) -> Seq<char> {
    if keep_original {
        match original_filename {
            Some(name) => base_name(name) + "."@ + output_format,
            None => "converted."@ + output_format,
        }
    } else {
        "converted_"@ + compact_text(now.secs(), now.nanos()) + "."@ + output_format
    }
}

/// An upload that is to be carried out.
pub struct PlannedUpload {
    pub job_id: String,
    pub folder_name: String,
    pub filename: String,
    pub result_path: String,
}

/// What a `PlannedUpload` holds.
pub struct PlannedUploadView {
    pub job_id: Seq<char>,
    pub folder_name: Seq<char>,
    pub filename: Seq<char>,
    pub result_path: Seq<char>,
}

impl View for PlannedUpload {
    type V = PlannedUploadView;

    open spec fn view(&self) -> PlannedUploadView {
        PlannedUploadView {
            job_id: self.job_id@,
            folder_name: self.folder_name@,
            filename: self.filename@,
            result_path: self.result_path@,
        }
    }
}

impl DeepView for PlannedUpload {
    type V = PlannedUploadView;

    open spec fn deep_view(&self) -> PlannedUploadView {
        self@
    }
}

/// Whether a result is uploaded, and how: the owner has settings, has the
/// export enabled, and the filter of the settings lets the category through.
pub open spec fn planned_upload(
    settings: Option<UserSettingsView>,
    upload: DriveUploadView,
    now: Timestamp,
) -> Option<PlannedUploadView> {
    match settings {
        Some(s) => if s.save_to_drive_enabled && filter_allows(
            s.drive_filter_types,
            upload.conversion_type,
        ) {
            Some(
                PlannedUploadView {
                    job_id: upload.job_id,
                    folder_name: s.drive_folder_name,
                    filename: upload_filename(
                        s.auto_save_original_filename,
                        upload.original_filename,
                        upload.output_format,
                        now,
                    ),
                    result_path: upload.result_path,
                },
            )
        } else {
            None
        },
        None => None,
    }
}

/// What the settings of an owner hold, where the owner has settings.
pub open spec fn settings_of(settings: Option<&UserSettings>) -> Option<UserSettingsView> {
    match settings {
        Some(s) => Some(s@),
        None => None,
    }
}

fn file_base(name: &str) -> (r: String)
    ensures
        r@ == base_name(name@),
{
    let v: Vec<char> = chars_of(name);
    let after: usize = find_after_last(&v, 0, v.len(), '.');
    proof {
        assert(v@.subrange(0, v.len() as int) =~= v@);
        lemma_last_index(v@, '.');
    }
    if after == 0 {
        name.to_string()
    } else {
        string_from_range(&v, 0, after - 1)
    }
}

/// Decides now whether the result of a completed job goes to the external
/// storage of its owner. See `upload_to_drive_if_enabled_at`.
pub fn upload_to_drive_if_enabled(settings: Option<&UserSettings>, upload: &DriveUpload) -> (r:
    Option<PlannedUpload>)
    ensures
        exists|now: Timestamp|
            r.deep_view() == #[trigger] planned_upload(settings_of(settings), upload@, now),
{
    let now = Timestamp::now();
    let r = upload_to_drive_if_enabled_at(settings, upload, &now);
    assert(r.deep_view() == planned_upload(settings_of(settings), upload@, now));
    r
}

/// Decides whether the result of a completed job goes to the external storage
/// of its owner, and under which name.
pub fn upload_to_drive_if_enabled_at(
    settings: Option<&UserSettings>,
    upload: &DriveUpload,
    now: &Timestamp,
) -> (r: Option<PlannedUpload>)
    ensures
        r.deep_view() == planned_upload(settings_of(settings), upload@, *now),
{
    let s: &UserSettings = match settings {
        Some(s) => s,
        None => {
            return None;
        },
    };
    if !s.save_to_drive_enabled {
        return None;
    }
    if !should_save_to_drive(s.drive_filter_types.as_str(), upload.conversion_type.as_str()) {
        return None;
    }
    let filename: String = if s.auto_save_original_filename {
        match &upload.original_filename {
            Some(name) => glue3(
                file_base(name.as_str()).as_str(),
                ".",
                upload.output_format.as_str(),
            ),
            None => glue("converted.", upload.output_format.as_str()),
        }
    } else {
        let mut text = glue3("converted_", now.to_compact().as_str(), ".");
        text.append(upload.output_format.as_str());
        text
    };
    Some(
        PlannedUpload {
            job_id: upload.job_id.clone(),
            folder_name: s.drive_folder_name.clone(),
            filename,
            result_path: upload.result_path.clone(),
        },
    )
}

} // verus!
