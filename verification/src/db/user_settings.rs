//! What a user has set for the export of results to external storage.

use vstd::prelude::*;
use crate::clock::Timestamp;
use crate::text::{
    chars_of, clone_opt, find_first, first_index, lemma_first_index, lowercase, str_eq,
    string_from_range, to_lowercase, trim_range, trimmed,
};

verus! {

/// The settings of a user.
#[derive(Debug)]
pub struct UserSettings {
    pub user_id: String,
    pub save_to_drive_enabled: bool,
    pub drive_folder_id: Option<String>,
    pub drive_folder_name: String,
    pub auto_save_original_filename: bool,
    /// Which categories are exported: `all`, or names separated by commas.
    pub drive_filter_types: String,
    pub created_at: String,
    pub updated_at: String,
}

/// What a `UserSettings` holds, with texts as sequences of characters.
pub struct UserSettingsView {
    pub user_id: Seq<char>,
    pub save_to_drive_enabled: bool,
    pub drive_folder_id: Option<Seq<char>>,
    pub drive_folder_name: Seq<char>,
    pub auto_save_original_filename: bool,
    pub drive_filter_types: Seq<char>,
    pub created_at: Seq<char>,
    pub updated_at: Seq<char>,
}

impl View for UserSettings {
    type V = UserSettingsView;

    open spec fn view(&self) -> UserSettingsView {
        UserSettingsView {
            user_id: self.user_id@,
            save_to_drive_enabled: self.save_to_drive_enabled,
            drive_folder_id: self.drive_folder_id.deep_view(),
            drive_folder_name: self.drive_folder_name@,
            auto_save_original_filename: self.auto_save_original_filename,
            drive_filter_types: self.drive_filter_types@,
            created_at: self.created_at@,
            updated_at: self.updated_at@,
        }
    }
}

/// The changes that a user asks for; an absent field stays as it is.
#[derive(Debug)]
pub struct UpdateSettingsRequest {
    pub save_to_drive_enabled: Option<bool>,
    pub drive_folder_id: Option<String>,
    pub drive_folder_name: Option<String>,
    pub auto_save_original_filename: Option<bool>,
    pub drive_filter_types: Option<String>,
}

/// What an upload to external storage needs to know of the settings.
#[derive(Debug)]
pub struct DriveUploadSettings {
    pub folder_name: String,
    pub folder_id: Option<String>,
    pub filter_types: String,
}

/// The name of the folder that results are exported to by default.
pub open spec fn default_folder_name() -> Seq<char> {
    "Converty Exports"@
}

impl UserSettingsView {
    /// The settings of a user who has set nothing, created at `now`.
    pub open spec fn initial(user_id: Seq<char>, now: Seq<char>) -> UserSettingsView {
        UserSettingsView {
            user_id,
            save_to_drive_enabled: false,
            drive_folder_id: None,
            drive_folder_name: default_folder_name(),
            auto_save_original_filename: true,
            drive_filter_types: "all"@,
            created_at: now,
            updated_at: now,
        }
    }

    /// The settings after the requested changes were applied at `now`.
    pub open spec fn changed(
        self,
        save_to_drive_enabled: Option<bool>,
        drive_folder_id: Option<Seq<char>>,
        drive_folder_name: Option<Seq<char>>,
        auto_save_original_filename: Option<bool>,
        drive_filter_types: Option<Seq<char>>,
        now: Seq<char>,
    ) -> UserSettingsView {
        UserSettingsView {
            save_to_drive_enabled: match save_to_drive_enabled {
                Some(b) => b,
                None => self.save_to_drive_enabled,
            },
            drive_folder_id: match drive_folder_id {
                Some(id) => Some(id),
                None => self.drive_folder_id,
            },
            drive_folder_name: match drive_folder_name {
                Some(n) => n,
                None => self.drive_folder_name,
            },
            auto_save_original_filename: match auto_save_original_filename {
                Some(b) => b,
                None => self.auto_save_original_filename,
            },
            drive_filter_types: match drive_filter_types {
                Some(t) => t,
                None => self.drive_filter_types,
            },
            updated_at: now,
            ..self
        }
    }
}

impl UserSettings {
    /// The settings of a user who has set nothing, created now.
    pub fn new(user_id: String) -> (r: UserSettings)
        ensures
            exists|now: Timestamp| r@ == UserSettingsView::initial(user_id@, #[trigger] now.text()),
    {
        let now = Timestamp::now();
        let r = UserSettings::new_at(user_id, &now);
        assert(r@ == UserSettingsView::initial(user_id@, now.text()));
        r
    }

    /// The settings of a user who has set nothing, created at `now`.
    pub fn new_at(user_id: String, now: &Timestamp) -> (r: UserSettings)
        ensures
            r@ == UserSettingsView::initial(user_id@, now.text()),
    {
        UserSettings {
            user_id,
            save_to_drive_enabled: false,
            drive_folder_id: None,
            drive_folder_name: "Converty Exports".to_string(),
            auto_save_original_filename: true,
            drive_filter_types: "all".to_string(),
            created_at: now.to_rfc3339(),
            updated_at: now.to_rfc3339(),
        }
    }
}

/// Applies the requested changes to the settings at `now`.
pub fn update_settings(settings: &mut UserSettings, update: &UpdateSettingsRequest, now: &Timestamp)
    ensures
        final(settings)@ == old(settings)@.changed(
            update.save_to_drive_enabled,
            update.drive_folder_id.deep_view(),
            update.drive_folder_name.deep_view(),
            update.auto_save_original_filename,
            update.drive_filter_types.deep_view(),
            now.text(),
        ),
{
    match update.save_to_drive_enabled {
        Some(enabled) => {
            settings.save_to_drive_enabled = enabled;
        },
        None => {},
    }
    match &update.drive_folder_id {
        Some(id) => {
            settings.drive_folder_id = Some(id.clone());
        },
        None => {},
    }
    match &update.drive_folder_name {
        Some(name) => {
            settings.drive_folder_name = name.clone();
        },
        None => {},
    }
    match update.auto_save_original_filename {
        Some(auto) => {
            settings.auto_save_original_filename = auto;
        },
        None => {},
    }
    match &update.drive_filter_types {
        Some(types) => {
            settings.drive_filter_types = types.clone();
        },
        None => {},
    }
    settings.updated_at = now.to_rfc3339();
}

/// What an upload needs of the settings, where the export is enabled.
pub fn get_drive_upload_settings(settings: &UserSettings) -> (r: Option<DriveUploadSettings>)
    ensures
        r is Some <==> settings.save_to_drive_enabled,
        r matches Some(s) ==> s.folder_name@ == settings.drive_folder_name@
            && s.folder_id.deep_view() == settings.drive_folder_id.deep_view() && s.filter_types@
            == settings.drive_filter_types@,
{
    if settings.save_to_drive_enabled {
        Some(
            DriveUploadSettings {
                folder_name: settings.drive_folder_name.clone(),
                folder_id: clone_opt(&settings.drive_folder_id),
                filter_types: settings.drive_filter_types.clone(),
            },
        )
    } else {
        None
    }
}

/// Whether one of the names of a comma-separated list, trimmed and in
/// lowercase, is the wanted one.
pub open spec fn names_include(list: Seq<char>, wanted: Seq<char>) -> bool
    decreases list.len(),
{
    let i = first_index(list, ',');
    lowercase(trimmed(list.subrange(0, i))) == wanted || (0 <= i < list.len() && names_include(
        list.subrange(i + 1, list.len() as int),
        wanted,
    ))
}

/// Whether a filter lets a category through: the filter `all` and the empty
/// filter let everything through, any other filter the categories that it
/// names, whatever their case and the blanks around them.
pub open spec fn filter_allows(filter_types: Seq<char>, conversion_type: Seq<char>) -> bool {
    filter_types == "all"@ || filter_types.len() == 0 || names_include(
        filter_types,
        lowercase(conversion_type),
    )
}

/// Whether results of the category are exported under the filter.
pub fn should_save_to_drive(filter_types: &str, conversion_type: &str) -> (r: bool)
    ensures
        r == filter_allows(filter_types@, conversion_type@),
{
    if str_eq(filter_types, "all") {
        return true;
    }
    let v: Vec<char> = chars_of(filter_types);
    if v.len() == 0 {
        return true;
    }
    let wanted: String = to_lowercase(conversion_type);
    let n: usize = v.len();
    let mut start: usize = 0;
    assert(v@.subrange(0, n as int) =~= v@);
    loop
        invariant
            start <= n,
            n == v.len(),
            n > 0,
            filter_types@ != "all"@,
            v@ == filter_types@,
            wanted@ == lowercase(conversion_type@),
            names_include(v@, wanted@) == names_include(v@.subrange(start as int, n as int), wanted@),
        decreases n - start,
    {
        let ghost rest = v@.subrange(start as int, n as int);
        let end: usize = find_first(&v, start, n, ',');
        let (a, b) = trim_range(&v, start, end);
        let name: String = to_lowercase(string_from_range(&v, a, b).as_str());
        proof {
            lemma_first_index(rest, ',');
            assert(rest.subrange(0, first_index(rest, ',')) =~= v@.subrange(
                start as int,
                end as int,
            ));
        }
        if str_eq(name.as_str(), wanted.as_str()) {
            return true;
        }
        if end >= n {
            return false;
        }
        proof {
            assert(rest.subrange(first_index(rest, ',') + 1, rest.len() as int) =~= v@.subrange(
                end + 1,
                n as int,
            ));
        }
        start = end + 1;
    }
}

} // verus!
