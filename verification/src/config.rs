//! The user's settings, the monitor's published status, their defaults, and the
//! repair applied to settings read back from disk.
use vstd::prelude::*;
use crate::text::{trim, trim_str};

verus! {

/// The download clients that the monitor can drive.
#[derive(Clone, Copy, PartialEq, Eq, Structural, Debug)]
pub enum DownloadClientKind {
    QBittorrent,
    Transmission,
    Aria2,
    UTorrent,
    Deluge,
    BitComet,
}

impl Default for DownloadClientKind {
    fn default() -> (k: Self)
        ensures
            k == DownloadClientKind::QBittorrent,
    {
        DownloadClientKind::QBittorrent
    }
}

/// All settings of the limiter.
#[derive(Clone, Debug)]
pub struct AppConfig {
    pub download_client: DownloadClientKind,
    pub qbee_url: String,
    pub transmission_url: String,
    pub aria2_url: String,
    pub utorrent_url: String,
    pub deluge_url: String,
    pub bitcomet_url: String,
    pub username: String,
    pub password: String,
    pub aria2_secret: String,
    pub game_download_limit_kib: u64,
    pub game_upload_limit_kib: u64,
    pub game_folders: Vec<String>,
    pub game_processes: Vec<String>,
    pub exclude_processes: Vec<String>,
    pub exclude_path_keywords: Vec<String>,
    pub exclude_steam_app_keywords: Vec<String>,
    pub check_interval_seconds: u64,
    pub restore_on_exit: bool,
    pub start_with_windows: bool,
    pub auto_start_monitor: bool,
    pub log_file: String,
}

pub open spec fn default_qbee_url() -> Seq<char> {
    "http://127.0.0.1:8080"@
}

pub open spec fn default_transmission_url() -> Seq<char> {
    "http://127.0.0.1:9091/transmission/rpc"@
}

pub open spec fn default_aria2_url() -> Seq<char> {
    "http://127.0.0.1:6800/jsonrpc"@
}

pub open spec fn default_utorrent_url() -> Seq<char> {
    "http://127.0.0.1:8080/gui"@
}

pub open spec fn default_deluge_url() -> Seq<char> {
    "http://127.0.0.1:8112/json"@
}

pub open spec fn default_bitcomet_url() -> Seq<char> {
    "http://127.0.0.1:80"@
}

/// The check interval used when the stored one is zero.
pub const DEFAULT_CHECK_INTERVAL: u64 = 5;

pub open spec fn default_game_folders() -> Seq<Seq<char>> {
    seq!["C:\\Program Files (x86)\\Steam\\steamapps"@, "D:\\SteamLibrary\\steamapps"@]
}

pub open spec fn default_exclude_processes() -> Seq<Seq<char>> {
    seq![
        "steam.exe"@,
        "steamservice.exe"@,
        "steamwebhelper.exe"@,
        "wallpaper32.exe"@,
        "wallpaper64.exe"@,
        "wallpaper_engine.exe"@,
        "epicgameslauncher.exe"@,
        "goggalaxy.exe"@,
        "wegame.exe"@,
        "battle.net.exe"@,
    ]
}

pub open spec fn default_exclude_path_keywords() -> Seq<Seq<char>> {
    seq![
        "\\steamapps\\common\\steamworks shared\\"@,
        "\\steamapps\\common\\proton "@,
        "\\steamapps\\common\\steam linux runtime"@,
        "\\_commonredist\\"@,
        "\\redist\\"@,
        "\\redistributable\\"@,
        "\\installer\\"@,
        "\\uninstall\\"@,
        "\\launcher\\"@,
        "\\wallpaper_engine\\"@,
    ]
}

pub open spec fn default_exclude_steam_app_keywords() -> Seq<Seq<char>> {
    seq![
        "wallpaper"@,
        "dedicated server"@,
        "server tool"@,
        "server dedicated"@,
        "sdk"@,
        "tool"@,
        "tools"@,
        "benchmark"@,
        "editor"@,
        "modding"@,
        "workshop"@,
        "proton"@,
        "redistributable"@,
        "runtime"@,
    ]
}

/// An owned copy of a string slice.
pub fn owned(s: &str) -> (r: String)
    ensures
        r@ == s@,
{
    s.to_owned()
}

/// A list of owned strings copied from string slices.
fn owned_list(items: &[&str]) -> (r: Vec<String>)
    ensures
        r.deep_view() =~~= items@.map_values(|s: &str| s@),
{
    let mut r: Vec<String> = Vec::new();
    let mut i: usize = 0;
    while i < items.len()
        invariant
            i <= items.len(),
            r.deep_view() =~~= items@.take(i as int).map_values(|s: &str| s@),
        decreases items.len() - i,
    {
        let ghost before = r.deep_view();
        r.push(owned(items[i]));
        assert(r.deep_view() =~~= before.push(items@[i as int]@));
        assert(items@.take(i + 1).map_values(|s: &str| s@) =~~= items@.take(i as int).map_values(
            |s: &str| s@,
        ).push(items@[i as int]@));
        i += 1;
    }
    assert(items@.take(items.len() as int) =~= items@);
    r
}

/// The settings used when no configuration file can be read.
pub open spec fn is_default_config(c: AppConfig) -> bool {
    &&& c.download_client == DownloadClientKind::QBittorrent
    &&& c.qbee_url@ == default_qbee_url()
    &&& c.transmission_url@ == default_transmission_url()
    &&& c.aria2_url@ == default_aria2_url()
    &&& c.utorrent_url@ == default_utorrent_url()
    &&& c.deluge_url@ == default_deluge_url()
    &&& c.bitcomet_url@ == default_bitcomet_url()
    &&& c.username@ == "admin"@
    &&& c.password@ == Seq::<char>::empty()
    &&& c.aria2_secret@ == Seq::<char>::empty()
    &&& c.game_download_limit_kib == 512
    &&& c.game_upload_limit_kib == 128
    &&& c.game_folders.deep_view() == default_game_folders()
    &&& c.game_processes.deep_view() == Seq::<Seq<char>>::empty()
    &&& c.exclude_processes.deep_view() == default_exclude_processes()
    &&& c.exclude_path_keywords.deep_view() == default_exclude_path_keywords()
    &&& c.exclude_steam_app_keywords.deep_view() == default_exclude_steam_app_keywords()
    &&& c.check_interval_seconds == 5
    &&& c.restore_on_exit
    &&& !c.start_with_windows
    &&& c.auto_start_monitor
    &&& c.log_file@ == "download_client_game_speed_limiter.log"@
}

impl Default for AppConfig {
    /// The settings used when no configuration file can be read.
    fn default() -> (c: Self)
        ensures
            is_default_config(c),
    {
        let folders: [&str; 2] = ["C:\\Program Files (x86)\\Steam\\steamapps", "D:\\SteamLibrary\\steamapps"];
        let processes: [&str; 10] = [
            "steam.exe",
            "steamservice.exe",
            "steamwebhelper.exe",
            "wallpaper32.exe",
            "wallpaper64.exe",
            "wallpaper_engine.exe",
            "epicgameslauncher.exe",
            "goggalaxy.exe",
            "wegame.exe",
            "battle.net.exe",
        ];
        let keywords: [&str; 10] = [
            "\\steamapps\\common\\steamworks shared\\",
            "\\steamapps\\common\\proton ",
            "\\steamapps\\common\\steam linux runtime",
            "\\_commonredist\\",
            "\\redist\\",
            "\\redistributable\\",
            "\\installer\\",
            "\\uninstall\\",
            "\\launcher\\",
            "\\wallpaper_engine\\",
        ];
        let steam: [&str; 14] = [
            "wallpaper",
            "dedicated server",
            "server tool",
            "server dedicated",
            "sdk",
            "tool",
            "tools",
            "benchmark",
            "editor",
            "modding",
            "workshop",
            "proton",
            "redistributable",
            "runtime",
        ];
        let game_folders = owned_list(&folders);
        let exclude_processes = owned_list(&processes);
        let exclude_path_keywords = owned_list(&keywords);
        let exclude_steam_app_keywords = owned_list(&steam);
        let game_processes: Vec<String> = Vec::new();
        assert(game_processes.deep_view() =~~= Seq::<Seq<char>>::empty());
        assert(game_folders.deep_view() =~~= default_game_folders());
        assert(exclude_processes.deep_view() =~~= default_exclude_processes());
        assert(exclude_path_keywords.deep_view() =~~= default_exclude_path_keywords());
        assert(exclude_steam_app_keywords.deep_view() =~~= default_exclude_steam_app_keywords());
        AppConfig {
            download_client: DownloadClientKind::QBittorrent,
            qbee_url: owned("http://127.0.0.1:8080"),
            transmission_url: owned("http://127.0.0.1:9091/transmission/rpc"),
            aria2_url: owned("http://127.0.0.1:6800/jsonrpc"),
            utorrent_url: owned("http://127.0.0.1:8080/gui"),
            deluge_url: owned("http://127.0.0.1:8112/json"),
            bitcomet_url: owned("http://127.0.0.1:80"),
            username: owned("admin"),
            password: String::new(),
            aria2_secret: String::new(),
            game_download_limit_kib: 512,
            game_upload_limit_kib: 128,
            game_folders,
            game_processes,
            exclude_processes,
            exclude_path_keywords,
            exclude_steam_app_keywords,
            check_interval_seconds: 5,
            restore_on_exit: true,
            start_with_windows: false,
            auto_start_monitor: true,
            log_file: owned("download_client_game_speed_limiter.log"),
        }
    }
}

/// A stored URL, or the default one when the stored one is blank.
pub open spec fn url_or_default(stored: Seq<char>, fallback: Seq<char>) -> Seq<char> {
    if trim(stored).len() == 0 {
        fallback
    } else {
        stored
    }
}

/// Settings as `load_config` hands them out, and whether the defaults must be written
/// back because nothing usable was stored.
pub struct LoadedConfig {
    pub config: AppConfig,
    pub write_defaults: bool,
}

/// Every field of `r` but the six URLs and the interval equals that of `c`.
pub open spec fn same_except_repaired(r: AppConfig, c: AppConfig) -> bool {
    &&& r.download_client == c.download_client
    &&& r.username == c.username
    &&& r.password == c.password
    &&& r.aria2_secret == c.aria2_secret
    &&& r.game_download_limit_kib == c.game_download_limit_kib
    &&& r.game_upload_limit_kib == c.game_upload_limit_kib
    &&& r.game_folders == c.game_folders
    &&& r.game_processes == c.game_processes
    &&& r.exclude_processes == c.exclude_processes
    &&& r.exclude_path_keywords == c.exclude_path_keywords
    &&& r.exclude_steam_app_keywords == c.exclude_steam_app_keywords
    &&& r.restore_on_exit == c.restore_on_exit
    &&& r.start_with_windows == c.start_with_windows
    &&& r.auto_start_monitor == c.auto_start_monitor
    &&& r.log_file == c.log_file
}

/// `c` after the repair that loading applies: blank URLs take their defaults and a
/// zero interval becomes the default interval.
pub open spec fn is_repaired(r: AppConfig, c: AppConfig) -> bool {
    &&& same_except_repaired(r, c)
    &&& r.qbee_url@ == url_or_default(c.qbee_url@, default_qbee_url())
    &&& r.transmission_url@ == url_or_default(c.transmission_url@, default_transmission_url())
    &&& r.aria2_url@ == url_or_default(c.aria2_url@, default_aria2_url())
    &&& r.utorrent_url@ == url_or_default(c.utorrent_url@, default_utorrent_url())
    &&& r.deluge_url@ == url_or_default(c.deluge_url@, default_deluge_url())
    &&& r.bitcomet_url@ == url_or_default(c.bitcomet_url@, default_bitcomet_url())
    &&& r.check_interval_seconds == if c.check_interval_seconds == 0 {
        5
    } else {
        c.check_interval_seconds
    }
}

/// Whether a URL is blank once trimmed.
fn is_blank(s: &String) -> (b: bool)
    ensures
        b == (trim(s@).len() == 0),
{
    let t = trim_str(s.as_str());
    t.as_str().is_empty()
}

/// The settings that loading yields from what was read and parsed from disk (`None`
/// when the file was missing or unreadable): the stored settings with blank URLs and a
/// zero interval repaired, or the defaults, which are then to be written back.
pub fn load_config_from(parsed: Option<AppConfig>) -> (loaded: LoadedConfig)
    ensures
        match parsed {
            Some(c) => !loaded.write_defaults && is_repaired(loaded.config, c),
            None => loaded.write_defaults && is_default_config(loaded.config),
        },
{
    match parsed {
        Some(mut config) => {
            let defaults = AppConfig::default();
            if is_blank(&config.qbee_url) {
                config.qbee_url = defaults.qbee_url.clone();
            }
            if is_blank(&config.transmission_url) {
                config.transmission_url = defaults.transmission_url.clone();
            }
            if is_blank(&config.aria2_url) {
                config.aria2_url = defaults.aria2_url.clone();
            }
            if is_blank(&config.utorrent_url) {
                config.utorrent_url = defaults.utorrent_url.clone();
            }
            if is_blank(&config.deluge_url) {
                config.deluge_url = defaults.deluge_url.clone();
            }
            if is_blank(&config.bitcomet_url) {
                config.bitcomet_url = defaults.bitcomet_url.clone();
            }
            if config.check_interval_seconds == 0 {
                config.check_interval_seconds = DEFAULT_CHECK_INTERVAL;
            }
            LoadedConfig { config, write_defaults: false }
        },
        None => LoadedConfig { config: AppConfig::default(), write_defaults: true },
    }
}

/// One line of the self-check report.
#[derive(Clone, Debug)]
pub struct DiagnosticItem {
    pub level: String,
    pub title: String,
    pub message: String,
}

impl DiagnosticItem {
    pub open spec fn view_triple(self) -> (Seq<char>, Seq<char>, Seq<char>) {
        (self.level@, self.title@, self.message@)
    }
}

/// What the monitor publishes about itself.
#[derive(Clone, Debug)]
pub struct MonitorStatus {
    pub running: bool,
    pub game_running: bool,
    pub detected: String,
    pub message: String,
    pub updated_at: u64,
}

/// `SystemTime::elapsed` of `UNIX_EPOCH`, in whole seconds; `None` when the clock is
/// before the epoch. Nothing is known of the value, which is the time.
#[verifier::external_body]
fn seconds_since_epoch() -> (r: Option<u64>) {
    match std::time::UNIX_EPOCH.elapsed() {
        Ok(d) => Some(d.as_secs()),
        Err(_) => None,
    }
}

/// The current time in whole seconds since the Unix epoch (0 if the clock is before it).
pub fn now_unix() -> u64 {
    match seconds_since_epoch() {
        Some(s) => s,
        None => 0,
    }
}

impl Default for MonitorStatus {
    /// A monitor that is not running, stamped with the current time.
    fn default() -> (s: Self)
        ensures
            !s.running,
            !s.game_running,
            s.detected@ == Seq::<char>::empty(),
            s.message@ == "监控未运行"@,
    {
        MonitorStatus {
            running: false,
            game_running: false,
            detected: String::new(),
            message: owned("监控未运行"),
            updated_at: now_unix(),
        }
    }
}

/// The log file the monitor appends to: the configured one, or the default name when
/// none is set.
pub fn log_file_name(config: &AppConfig) -> (r: String)
    ensures
        r@ == (if config.log_file@.len() == 0 {
            "download_client_game_speed_limiter.log"@
        } else {
            config.log_file@
        }),
{
    if config.log_file.as_str().is_empty() {
        owned("download_client_game_speed_limiter.log")
    } else {
        config.log_file.clone()
    }
}

} // verus!
