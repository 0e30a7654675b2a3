//! Server settings and the formats that each kind of conversion supports.

use vstd::prelude::*;

pub mod formats;

verus! {

/// The settings of the server.
#[derive(Debug)]
pub struct Config {
    pub host: String,
    pub port: u16,
    pub max_file_size_mb: u64,
    pub temp_dir: String,
    pub job_retention_hours: u64,
    pub google_client_id: Option<String>,
    pub google_client_secret: Option<String>,
    pub frontend_url: String,
}

/// How many bytes a megabyte holds.
pub const BYTES_PER_MB: u64 = 1048576;

impl Config {
    /// The settings of a server that was not configured, with its files under
    /// `converty` in the given directory for temporary files.
    pub fn with_temp_root(temp_root: &str) -> (r: Config)
        ensures
            r.host@ == "0.0.0.0"@,
            r.port == 4000,
            r.max_file_size_mb == 50,
            r.temp_dir@ == crate::paths::joined(temp_root@, "converty"@),
            r.job_retention_hours == 24,
            r.google_client_id is None,
            r.google_client_secret is None,
            r.frontend_url@ == "http://localhost:3000"@,
    {
        Config {
            host: "0.0.0.0".to_string(),
            port: 4000,
            max_file_size_mb: 50,
            temp_dir: crate::paths::join(temp_root, "converty"),
            job_retention_hours: 24,
            google_client_id: None,
            google_client_secret: None,
            frontend_url: "http://localhost:3000".to_string(),
        }
    }

    /// The settings with the given values in place of the defaults. A port or
    /// a size that is no number of its kind leaves the default in place.
    pub fn from_vars(
        temp_root: &str,
        host: Option<String>,
        port: Option<String>,
        max_file_size_mb: Option<String>,
        temp_dir: Option<String>,
        google_client_id: Option<String>,
        google_client_secret: Option<String>,
        frontend_url: Option<String>,
    ) -> (r: Config)
        ensures
            r.host@ == (match host {
                Some(h) => h@,
                None => "0.0.0.0"@,
            }),
            r.port == (match port {
                Some(p) => match crate::text::unsigned_of(p@, u16::MAX as nat) {
                    Some(n) => n as u16,
                    None => 4000u16,
                },
                None => 4000u16,
            }),
            r.max_file_size_mb == (match max_file_size_mb {
                Some(s) => match crate::text::unsigned_of(s@, u64::MAX as nat) {
                    Some(n) => n as u64,
                    None => 50u64,
                },
                None => 50u64,
            }),
            r.temp_dir@ == (match temp_dir {
                Some(d) => d@,
                None => crate::paths::joined(temp_root@, "converty"@),
            }),
            r.job_retention_hours == 24,
            r.google_client_id.deep_view() == google_client_id.deep_view(),
            r.google_client_secret.deep_view() == google_client_secret.deep_view(),
            r.frontend_url@ == (match frontend_url {
                Some(u) => u@,
                None => "http://localhost:3000"@,
            }),
    {
        let mut config = Config::with_temp_root(temp_root);
        match host {
            Some(h) => {
                config.host = h;
            },
            None => {},
        }
        match port {
            Some(p) => match crate::text::str_to_unsigned(p.as_str(), 65535) {
                Some(n) => {
                    config.port = n as u16;
                },
                None => {},
            },
            None => {},
        }
        match max_file_size_mb {
            Some(s) => match crate::text::str_to_unsigned(s.as_str(), 18446744073709551615) {
                Some(n) => {
                    config.max_file_size_mb = n;
                },
                None => {},
            },
            None => {},
        }
        match temp_dir {
            Some(d) => {
                config.temp_dir = d;
            },
            None => {},
        }
        config.google_client_id = google_client_id;
        config.google_client_secret = google_client_secret;
        match frontend_url {
            Some(u) => {
                config.frontend_url = u;
            },
            None => {},
        }
        config
    }

    /// The largest accepted file, in bytes.
    pub fn max_file_size_bytes(&self) -> (r: u64)
        requires
            self.max_file_size_mb * BYTES_PER_MB <= u64::MAX,
        ensures
            r == self.max_file_size_mb * BYTES_PER_MB,
    {
        self.max_file_size_mb * 1024 * 1024
    }
}

} // verus!
