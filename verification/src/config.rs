//! Configuration: the settings held in `config.toml`, their defaults, and
//! the database path they resolve to.
//!
//! Reading and writing the file happens outside the library; it hands the
//! parsed sections over as a [`RawConfig`].

use vstd::prelude::*;
use crate::domain::copy_opt_string;
use crate::text::{push_str, string_of};

verus! {

/// Which sync provider is active.
#[derive(Debug, Clone, Copy, PartialEq, Eq, Structural)]
pub enum SyncProvider {
    /// GitHub Gist-backed sync (the default).
    Gist,
    /// Amazon S3-compatible object storage.
    S3,
    /// Apple iCloud Drive file sync.
    ICloud,
    /// JSONBin.io cloud storage.
    JsonBin,
    /// Dropbox file sync.
    Dropbox,
    /// Custom REST server sync.
    Rest,
    /// Local or network file path sync.
    File,
}

impl Default for SyncProvider {
    fn default() -> (r: Self)
        ensures
            r == SyncProvider::Gist,
    {
        SyncProvider::Gist
    }
}

/// Role of this machine in the REST sync model.
#[derive(Debug, Clone, Copy, PartialEq, Eq, Structural)]
pub enum RestRole {
    /// Receives state from a master node (the default).
    Client,
    /// Acts as the authoritative source of truth.
    Master,
}

impl Default for RestRole {
    fn default() -> (r: Self)
        ensures
            r == RestRole::Client,
    {
        RestRole::Client
    }
}

/// Settings of the GitHub Gist provider.
#[derive(Debug)]
pub struct SyncGistConfig {
    /// Id of the gist holding the sync state document.
    pub gist_id: String,
}

/// Settings of the S3-compatible provider.
#[derive(Debug)]
pub struct SyncS3Config {
    /// Endpoint URL.
    pub endpoint: String,
    /// Bucket holding the sync state document.
    pub bucket: String,
    /// Object key of the sync state document.
    pub key: String,
    /// AWS region name.
    pub region: String,
}

/// Settings of the iCloud Drive provider.
#[derive(Debug)]
pub struct SyncICloudConfig {
    /// Path of the sync state document inside iCloud Drive.
    pub path: String,
}

/// Settings of the JSONBin.io provider.
#[derive(Debug)]
pub struct SyncJsonBinConfig {
    /// Id of the bin holding the sync state document.
    pub bin_id: String,
}

/// Settings of the Dropbox provider.
#[derive(Debug)]
pub struct SyncDropboxConfig {
    /// Dropbox path of the sync state document.
    pub path: String,
}

/// Settings of the custom REST provider.
#[derive(Debug)]
pub struct SyncRestConfig {
    /// Base URL of the REST sync server.
    pub url: String,
    /// Role of this machine.
    pub role: RestRole,
    /// TCP port the REST server listens on.
    pub port: u16,
}

/// Settings of the file provider.
#[derive(Debug)]
pub struct SyncFileConfig {
    /// Filesystem path of the sync state document.
    pub path: String,
}

/// The `[sync]` section.
#[derive(Debug)]
pub struct SyncConfig {
    /// Whether sync is active.
    pub enabled: bool,
    /// Which provider to use.
    pub provider: SyncProvider,
    /// Seconds between polls for remote changes.
    pub interval_secs: u64,
    /// Gist settings.
    pub gist: SyncGistConfig,
    /// S3 settings.
    pub s3: SyncS3Config,
    /// iCloud settings.
    pub icloud: SyncICloudConfig,
    /// JSONBin settings.
    pub jsonbin: SyncJsonBinConfig,
    /// Dropbox settings.
    pub dropbox: SyncDropboxConfig,
    /// REST settings.
    pub rest: SyncRestConfig,
    /// File settings.
    pub file: SyncFileConfig,
}

/// Default object key of the S3 sync document.
pub open spec fn default_s3_key() -> Seq<char> {
    "scribe-state.json"@
}

/// Default S3 region.
pub open spec fn default_s3_region() -> Seq<char> {
    "us-east-1"@
}

/// Default iCloud path of the sync document.
pub open spec fn default_icloud_path() -> Seq<char> {
    "~/Library/Mobile Documents/com~apple~CloudDocs/scribe-state.json"@
}

/// Default Dropbox path of the sync document.
pub open spec fn default_dropbox_path() -> Seq<char> {
    "/scribe-state.json"@
}

/// Default REST port.
pub const DEFAULT_REST_PORT: u16 = 7171;

/// Default seconds between sync polls.
pub const DEFAULT_SYNC_INTERVAL_SECS: u64 = 60;

/// `c` holds the default sync settings: disabled, Gist, polling every
/// minute, empty identifiers and the default paths, key, region and port.
pub open spec fn is_default_sync(c: SyncConfig) -> bool {
    &&& !c.enabled
    &&& c.provider == SyncProvider::Gist
    &&& c.interval_secs == DEFAULT_SYNC_INTERVAL_SECS
    &&& c.gist.gist_id@.len() == 0
    &&& c.s3.endpoint@.len() == 0
    &&& c.s3.bucket@.len() == 0
    &&& c.s3.key@ == default_s3_key()
    &&& c.s3.region@ == default_s3_region()
    &&& c.icloud.path@ == default_icloud_path()
    &&& c.jsonbin.bin_id@.len() == 0
    &&& c.dropbox.path@ == default_dropbox_path()
    &&& c.rest.url@.len() == 0
    &&& c.rest.role == RestRole::Client
    &&& c.rest.port == DEFAULT_REST_PORT
    &&& c.file.path@.len() == 0
}

impl Default for SyncConfig {
    fn default() -> (r: Self)
        ensures
            is_default_sync(r),
    {
        SyncConfig {
            enabled: false,
            provider: SyncProvider::Gist,
            interval_secs: DEFAULT_SYNC_INTERVAL_SECS,
            gist: SyncGistConfig { gist_id: String::new() },
            s3: SyncS3Config {
                endpoint: String::new(),
                bucket: String::new(),
                key: "scribe-state.json".to_owned(),
                region: "us-east-1".to_owned(),
            },
            icloud: SyncICloudConfig {
                path: "~/Library/Mobile Documents/com~apple~CloudDocs/scribe-state.json".to_owned(),
            },
            jsonbin: SyncJsonBinConfig { bin_id: String::new() },
            dropbox: SyncDropboxConfig { path: "/scribe-state.json".to_owned() },
            rest: SyncRestConfig { url: String::new(), role: RestRole::Client, port: DEFAULT_REST_PORT },
            file: SyncFileConfig { path: String::new() },
        }
    }
}

impl SyncConfig {
    /// A field-by-field copy.
    pub fn duplicate(&self) -> (r: SyncConfig)
        ensures
            r == *self,
    {
        SyncConfig {
            enabled: self.enabled,
            provider: self.provider,
            interval_secs: self.interval_secs,
            gist: SyncGistConfig { gist_id: self.gist.gist_id.clone() },
            s3: SyncS3Config {
                endpoint: self.s3.endpoint.clone(),
                bucket: self.s3.bucket.clone(),
                key: self.s3.key.clone(),
                region: self.s3.region.clone(),
            },
            icloud: SyncICloudConfig { path: self.icloud.path.clone() },
            jsonbin: SyncJsonBinConfig { bin_id: self.jsonbin.bin_id.clone() },
            dropbox: SyncDropboxConfig { path: self.dropbox.path.clone() },
            rest: SyncRestConfig { url: self.rest.url.clone(), role: self.rest.role, port: self.rest.port },
            file: SyncFileConfig { path: self.file.path.clone() },
        }
    }
}

/// The `[data]` section as written in the file.
#[derive(Debug)]
pub struct DataConfig {
    /// Override for the database path; an empty string means the default.
    pub db_path: Option<String>,
}

/// The `[notifications]` section as written in the file.
#[derive(Debug)]
pub struct NotificationsConfig {
    /// Whether desktop notifications are enabled.
    pub enabled: bool,
}

/// The `[display]` section as written in the file.
#[derive(Debug)]
pub struct DisplayConfig {
    /// `strftime` date pattern.
    pub date_format: String,
    /// `strftime` time pattern.
    pub time_format: String,
}

/// The `[setup]` section: which optional setup steps are done.
#[derive(Debug, Clone, Copy, PartialEq, Eq)]
pub struct SetupConfig {
    /// Whether the background service is installed.
    pub daemon_service_installed: bool,
    /// Whether the agent skill files are installed.
    pub agent_installed: bool,
}

/// Every section of `config.toml` as written in the file.
#[derive(Debug)]
pub struct RawConfig {
    /// `[data]`.
    pub data: DataConfig,
    /// `[notifications]`.
    pub notifications: NotificationsConfig,
    /// `[display]`.
    pub display: DisplayConfig,
    /// `[setup]`.
    pub setup: SetupConfig,
    /// `[sync]`.
    pub sync: SyncConfig,
}

/// The defaults of a file that says nothing: no database override,
/// notifications on, ISO dates, 24-hour times, no setup done, sync off.
pub open spec fn is_default_raw(r: RawConfig) -> bool {
    &&& r.data.db_path is None
    &&& r.notifications.enabled
    &&& r.display.date_format@ == "%Y-%m-%d"@
    &&& r.display.time_format@ == "%H:%M"@
    &&& !r.setup.daemon_service_installed
    &&& !r.setup.agent_installed
    &&& is_default_sync(r.sync)
}

impl Default for RawConfig {
    fn default() -> (r: Self)
        ensures
            is_default_raw(r),
    {
        RawConfig {
            data: DataConfig { db_path: None },
            notifications: NotificationsConfig { enabled: true },
            display: DisplayConfig { date_format: "%Y-%m-%d".to_owned(), time_format: "%H:%M".to_owned() },
            setup: SetupConfig { daemon_service_installed: false, agent_installed: false },
            sync: SyncConfig::default(),
        }
    }
}

/// Application configuration.
#[derive(Debug)]
pub struct Config {
    /// Explicit database path, if any.
    pub db_path: Option<String>,
    /// Whether desktop notifications are enabled.
    pub notifications_enabled: bool,
    /// `strftime` date pattern, e.g. `%Y-%m-%d`.
    pub date_format: String,
    /// `strftime` time pattern, e.g. `%H:%M`.
    pub time_format: String,
    /// Setup completion state.
    pub setup: SetupConfig,
    /// Cloud sync settings.
    pub sync: SyncConfig,
}

/// The configuration the file sections `raw` describe: an empty database
/// path counts as none.
pub open spec fn config_of_raw(raw: RawConfig) -> Config {
    Config {
        db_path: match raw.data.db_path {
            Some(s) => if s@.len() == 0 { None } else { Some(s) },
            None => None,
        },
        notifications_enabled: raw.notifications.enabled,
        date_format: raw.display.date_format,
        time_format: raw.display.time_format,
        setup: raw.setup,
        sync: raw.sync,
    }
}

/// The file sections that describe configuration `c`.
pub open spec fn raw_of_config(c: Config) -> RawConfig {
    RawConfig {
        data: DataConfig { db_path: c.db_path },
        notifications: NotificationsConfig { enabled: c.notifications_enabled },
        display: DisplayConfig { date_format: c.date_format, time_format: c.time_format },
        setup: c.setup,
        sync: c.sync,
    }
}

/// Writing a configuration to file sections and reading it back gives the
/// same configuration, unless its database path is the empty string.
pub proof fn lemma_config_round_trip(c: Config)
    requires
        match c.db_path {
            Some(p) => p@.len() > 0,
            None => true,
        },
    ensures
        config_of_raw(raw_of_config(c)) == c,
{
}

/// `dir` joined with the relative file name `name`, as a path join does:
/// a separator goes between them unless `dir` is empty or already ends
/// with one.
pub open spec fn joined(dir: Seq<char>, name: Seq<char>) -> Seq<char> {
    if dir.len() == 0 {
        name
    } else if dir.last() == '/' {
        dir + name
    } else {
        dir + "/"@ + name
    }
}

/// The database path used when neither the file nor the platform gives one.
pub open spec fn fallback_db_path() -> Seq<char> {
    ".local/share/scribe/scribe.db"@
}

/// The data directory of the application, `ProjectDirs::from("", "",
/// "scribe")` then `data_dir()`, written as a string (lossily). It depends
/// on the environment, so nothing is promised of it; `None` where no home
/// directory is known.
#[verifier::external_body]
fn project_data_dir() -> (r: Option<String>) {
    match directories::ProjectDirs::from("", "", "scribe") {
        Some(d) => Some(d.data_dir().to_string_lossy().into_owned()),
        None => None,
    }
}

/// `dir` joined with `name`.
pub fn join_path(dir: &str, name: &str) -> (r: String)
    ensures
        r@ == joined(dir@, name@),
{
    let cs = crate::text::chars_of(dir);
    let mut out: Vec<char> = Vec::new();
    push_str(&mut out, dir);
    if cs.len() > 0 && cs[cs.len() - 1] != '/' {
        out.push('/');
    }
    push_str(&mut out, name);
    proof {
        reveal_strlit("/");
        if dir@.len() == 0 {
            assert(out@ =~= joined(dir@, name@));
        } else if dir@.last() == '/' {
            assert(out@ =~= joined(dir@, name@));
        } else {
            assert(out@ =~= joined(dir@, name@));
        }
    }
    string_of(&out)
}

/// The database path for the platform data directory `data_dir`:
/// `scribe.db` in it, or [`fallback_db_path`] when there is none.
pub open spec fn db_path_for(data_dir: Option<Seq<char>>) -> Seq<char> {
    match data_dir {
        Some(d) => joined(d, "scribe.db"@),
        None => fallback_db_path(),
    }
}

/// The database path for the platform data directory `data_dir`, as
/// [`db_path_for`] states.
pub fn db_path_in(data_dir: Option<&str>) -> (r: String)
    ensures
        r@ == db_path_for(match data_dir { Some(d) => Some(d@), None => None::<Seq<char>> }),
{
    match data_dir {
        Some(d) => join_path(d, "scribe.db"),
        None => {
            let mut out: Vec<char> = Vec::new();
            push_str(&mut out, ".local/share/scribe/scribe.db");
            assert(out@ =~= fallback_db_path());
            string_of(&out)
        },
    }
}

/// The default database path: `scribe.db` in the platform data directory,
/// or [`fallback_db_path`] when there is none; see [`db_path_in`].
pub fn default_db_path() -> (r: String)
    ensures
        exists|d: Option<Seq<char>>| r@ == #[trigger] db_path_for(d),
{
    let dir = project_data_dir();
    let r = match &dir {
        Some(d) => db_path_in(Some(d.as_str())),
        None => db_path_in(None),
    };
    assert(r@ == db_path_for(match &dir { Some(d) => Some(d@), None => None::<Seq<char>> }));
    r
}

impl Default for Config {
    fn default() -> (r: Self)
        ensures
            is_default_raw(raw_of_config(r)),
    {
        Config::from_raw(RawConfig::default())
    }
}

impl Config {
    /// The configuration the file sections `raw` describe.
    pub fn from_raw(raw: RawConfig) -> (r: Config)
        ensures
            r == config_of_raw(raw),
    {
        let db_path = match raw.data.db_path {
            Some(s) => if s.as_str().is_empty() { None } else { Some(s) },
            None => None,
        };
        Config {
            db_path,
            notifications_enabled: raw.notifications.enabled,
            date_format: raw.display.date_format,
            time_format: raw.display.time_format,
            setup: raw.setup,
            sync: raw.sync,
        }
    }

    /// The file sections that describe this configuration.
    pub fn to_raw(&self) -> (r: RawConfig)
        ensures
            r == raw_of_config(*self),
    {
        RawConfig {
            data: DataConfig { db_path: copy_opt_string(&self.db_path) },
            notifications: NotificationsConfig { enabled: self.notifications_enabled },
            display: DisplayConfig {
                date_format: self.date_format.clone(),
                time_format: self.time_format.clone(),
            },
            setup: self.setup,
            sync: self.sync.duplicate(),
        }
    }

    /// The database path: the configured one when set, else the default
    /// (see [`default_db_path`]).
    pub fn db_path(&self) -> (r: String)
        ensures
            self.db_path matches Some(p) ==> r == p,
            self.db_path is None ==> exists|d: Option<Seq<char>>| r@ == #[trigger] db_path_for(d),
    {
        match &self.db_path {
            Some(p) => p.clone(),
            None => default_db_path(),
        }
    }
}

} // verus!
