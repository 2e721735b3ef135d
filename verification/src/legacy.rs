//! The single-window settings program: its own settings, the checks made before they are
//! saved, its qBittorrent-only monitor, and what its window shows.
use vstd::prelude::*;
use crate::config::{
    AppConfig, owned, default_qbee_url, default_game_folders, default_exclude_processes,
    default_exclude_path_keywords, default_exclude_steam_app_keywords, url_or_default,
};
use crate::text::{trim, starts_with, parse_u64, lowercase, trim_str, str_starts_with, chars_of, lower, str_eq, extend_str, string_of, push_decimal, decimal};

verus! {

// ---------------------------------------------------------------------------
// Settings
// ---------------------------------------------------------------------------

/// The window program's settings: qBittorrent only.
#[derive(Clone, Debug)]
pub struct LegacyConfig {
    pub qbee_url: String,
    pub username: String,
    pub password: String,
    pub game_folders: Vec<String>,
    pub game_processes: Vec<String>,
    pub exclude_processes: Vec<String>,
    pub exclude_path_keywords: Vec<String>,
    pub exclude_steam_app_keywords: Vec<String>,
    pub check_interval_seconds: u64,
    pub restore_on_exit: bool,
    pub start_with_windows: bool,
    pub auto_start_monitor: bool,
    pub log_file: String,
}

pub open spec fn legacy_log_default() -> Seq<char> {
    "qbee_game_speed_limiter.log"@
}

impl Default for LegacyConfig {
    /// The settings used when no configuration file can be read: the same address,
    /// account, folders and exclusions as the current settings, no automatic start, and
    /// the window program's own log file.
    fn default() -> (c: Self)
        ensures
            c.qbee_url@ == default_qbee_url(),
            c.username@ == "admin"@,
            c.password@ == Seq::<char>::empty(),
            c.game_folders.deep_view() == default_game_folders(),
            c.game_processes.deep_view() == Seq::<Seq<char>>::empty(),
            c.exclude_processes.deep_view() == default_exclude_processes(),
            c.exclude_path_keywords.deep_view() == default_exclude_path_keywords(),
            c.exclude_steam_app_keywords.deep_view() == default_exclude_steam_app_keywords(),
            c.check_interval_seconds == 5,
            c.restore_on_exit,
            !c.start_with_windows,
            !c.auto_start_monitor,
            c.log_file@ == legacy_log_default(),
    {
        let d = AppConfig::default();
        LegacyConfig {
            qbee_url: d.qbee_url,
            username: d.username,
            password: d.password,
            game_folders: d.game_folders,
            game_processes: d.game_processes,
            exclude_processes: d.exclude_processes,
            exclude_path_keywords: d.exclude_path_keywords,
            exclude_steam_app_keywords: d.exclude_steam_app_keywords,
            check_interval_seconds: 5,
            restore_on_exit: true,
            start_with_windows: false,
            auto_start_monitor: false,
            log_file: owned("qbee_game_speed_limiter.log"),
        }
    }
}

/// Every field of `r` but the address and the interval equals that of `c`.
pub open spec fn legacy_same_but_repaired(r: LegacyConfig, c: LegacyConfig) -> bool {
    &&& r.username == c.username
    &&& r.password == c.password
    &&& r.game_folders == c.game_folders
    &&& r.game_processes == c.game_processes
    &&& r.exclude_processes == c.exclude_processes
    &&& r.exclude_path_keywords == c.exclude_path_keywords
    &&& r.exclude_steam_app_keywords == c.exclude_steam_app_keywords
    &&& r.restore_on_exit == c.restore_on_exit
    &&& r.start_with_windows == c.start_with_windows
    &&& r.auto_start_monitor == c.auto_start_monitor
    &&& r.log_file == c.log_file
}

/// The settings as loading hands them out, given what could be read and parsed (if
/// anything), and whether the defaults are to be written back: a blank address takes
/// the default and a zero interval becomes 5.
pub fn load_legacy_config_from(stored: Option<LegacyConfig>) -> (r: (LegacyConfig, bool))
    ensures
        match stored {
            None => {
                &&& r.1
                &&& r.0.qbee_url@ == default_qbee_url()
                &&& r.0.username@ == "admin"@
                &&& r.0.password@ == Seq::<char>::empty()
                &&& r.0.game_folders.deep_view() == default_game_folders()
                &&& r.0.game_processes.deep_view() == Seq::<Seq<char>>::empty()
                &&& r.0.exclude_processes.deep_view() == default_exclude_processes()
                &&& r.0.exclude_path_keywords.deep_view() == default_exclude_path_keywords()
                &&& r.0.exclude_steam_app_keywords.deep_view() == default_exclude_steam_app_keywords()
                &&& r.0.check_interval_seconds == 5
                &&& r.0.restore_on_exit
                &&& !r.0.start_with_windows
                &&& !r.0.auto_start_monitor
                &&& r.0.log_file@ == legacy_log_default()
            },
            Some(c) => {
                &&& !r.1
                &&& legacy_same_but_repaired(r.0, c)
                &&& r.0.qbee_url@ == url_or_default(c.qbee_url@, default_qbee_url())
                &&& r.0.check_interval_seconds == if c.check_interval_seconds == 0 {
                    5
                } else {
                    c.check_interval_seconds
                }
            },
        },
{
    match stored {
        None => (LegacyConfig::default(), true),
        Some(mut c) => {
            let t = trim_str(c.qbee_url.as_str());
            if t.as_str().is_empty() {
                proof {
                    reveal_strlit("http://127.0.0.1:8080");
                }
                c.qbee_url = owned("http://127.0.0.1:8080");
            }
            if c.check_interval_seconds == 0 {
                c.check_interval_seconds = 5;
            }
            (c, false)
        },
    }
}

/// The log file the window program appends to.
pub fn legacy_log_file_name(config: &LegacyConfig) -> (r: String)
    ensures
        r@ == (if config.log_file@.len() == 0 { legacy_log_default() } else { config.log_file@ }),
{
    if config.log_file.as_str().is_empty() {
        owned("qbee_game_speed_limiter.log")
    } else {
        config.log_file.clone()
    }
}

// ---------------------------------------------------------------------------
// Saving what the window shows
// ---------------------------------------------------------------------------

/// What the window's fields and list hold when the user saves.
pub struct UiInput {
    pub url: String,
    pub username: String,
    pub password: String,
    pub interval: String,
    pub start_with_windows: bool,
    pub auto_start_monitor: bool,
    pub folders: Vec<String>,
}

/// Why the window's settings were not saved.
#[derive(PartialEq, Eq, Structural, Debug, Clone, Copy)]
pub enum UiInputError {
    /// The address does not start with `http://` or `https://`.
    BadUrl,
    /// No game library folder is listed.
    NoFolders,
}

impl UiInputError {
    /// The warning shown to the user.
    pub fn message(&self) -> (r: String)
        ensures
            r@ == (match *self {
                UiInputError::BadUrl => "请输入有效的 qB Web UI 地址。"@,
                UiInputError::NoFolders => "请至少添加一个游戏库文件夹，或点击“自动扫描”。"@,
            }),
    {
        match self {
            UiInputError::BadUrl => owned("请输入有效的 qB Web UI 地址。"),
            UiInputError::NoFolders => owned("请至少添加一个游戏库文件夹，或点击“自动扫描”。"),
        }
    }
}

/// The interval that the interval field gives: its number when it parses, else 5, and
/// at least 1.
pub open spec fn interval_from_text(text: Seq<char>) -> u64 {
    match parse_u64(text) {
        Some(n) => if n == 0 {
            1
        } else {
            n
        },
        None => 5,
    }
}

pub fn parse_interval(text: &str) -> (n: u64)
    ensures
        n == interval_from_text(text@),
        n >= 1,
{
    let v = chars_of(text);
    match crate::text::parse_u64_chars(&v) {
        Some(n) => if n == 0 {
            1
        } else {
            n
        },
        None => 5,
    }
}

/// An address the window accepts: `http://` or `https://` once trimmed.
pub open spec fn accepted_url(url: Seq<char>) -> bool {
    starts_with(trim(url), "http://"@) || starts_with(trim(url), "https://"@)
}

/// Takes the window's input into the settings, or refuses it: a bad address first, then
/// an empty folder list. A refused input leaves the settings as they were.
pub fn save_ui_input(config: &mut LegacyConfig, input: UiInput) -> (r: Result<(), UiInputError>)
    ensures
        !accepted_url(input.url@) ==> r == Err::<(), UiInputError>(UiInputError::BadUrl),
        accepted_url(input.url@) && input.folders@.len() == 0 ==> r == Err::<(), UiInputError>(
            UiInputError::NoFolders,
        ),
        r is Err ==> *final(config) == *old(config),
        r is Ok <==> (accepted_url(input.url@) && input.folders@.len() > 0),
        r is Ok ==> {
            &&& final(config).qbee_url@ == trim(input.url@)
            &&& final(config).username == input.username
            &&& final(config).password == input.password
            &&& final(config).check_interval_seconds == interval_from_text(input.interval@)
            &&& final(config).start_with_windows == input.start_with_windows
            &&& final(config).auto_start_monitor == input.auto_start_monitor
            &&& final(config).game_folders == input.folders
            &&& final(config).game_processes == old(config).game_processes
            &&& final(config).exclude_processes == old(config).exclude_processes
            &&& final(config).exclude_path_keywords == old(config).exclude_path_keywords
            &&& final(config).exclude_steam_app_keywords == old(config).exclude_steam_app_keywords
            &&& final(config).restore_on_exit == old(config).restore_on_exit
            &&& final(config).log_file == old(config).log_file
        },
{
    let url = trim_str(input.url.as_str());
    if !(str_starts_with(url.as_str(), "http://") || str_starts_with(url.as_str(), "https://")) {
        return Err(UiInputError::BadUrl);
    }
    if input.folders.len() == 0 {
        return Err(UiInputError::NoFolders);
    }
    let interval = parse_interval(input.interval.as_str());
    config.qbee_url = url;
    config.username = input.username;
    config.password = input.password;
    config.check_interval_seconds = interval;
    config.start_with_windows = input.start_with_windows;
    config.auto_start_monitor = input.auto_start_monitor;
    config.game_folders = input.folders;
    Ok(())
}

// ---------------------------------------------------------------------------
// The window program's monitor
// ---------------------------------------------------------------------------

/// What a check asks of qBittorrent.
#[derive(PartialEq, Eq, Structural, Debug, Clone, Copy)]
pub enum LegacyAction {
    /// Nothing changed since the last check.
    NoChange,
    /// First check, no game: only remember that.
    Settle,
    /// A game started: read the alternative-limit switch and turn it on if it is off.
    CheckThenEnable,
    /// The game ended and the monitor had turned the switch on: turn it off.
    TurnOff,
    /// The game ended and the switch was on already: leave it.
    LeaveOn,
}

/// The state the window program's monitor keeps between checks.
pub struct LegacyMonitor {
    /// The monitor itself turned the alternative limits on.
    pub app_enabled: bool,
    pub had_state: bool,
    pub last_game_running: bool,
    pub last_detected: String,
}

pub open spec fn legacy_action(app_enabled: bool, had_state: bool, last_game_running: bool, game_running: bool) -> LegacyAction {
    if had_state && game_running == last_game_running {
        LegacyAction::NoChange
    } else if game_running {
        LegacyAction::CheckThenEnable
    } else if had_state {
        if app_enabled {
            LegacyAction::TurnOff
        } else {
            LegacyAction::LeaveOn
        }
    } else {
        LegacyAction::Settle
    }
}

/// Whether the monitor has turned the switch on after acting on a change: only when a
/// game started and it found the switch off (and turning it on succeeded).
pub open spec fn legacy_enabled_after(game_running: bool, found_on: bool) -> bool {
    game_running && !found_on
}

impl LegacyMonitor {
    pub fn new() -> (m: Self)
        ensures
            !m.app_enabled,
            !m.had_state,
            !m.last_game_running,
            m.last_detected@ == Seq::<char>::empty(),
    {
        LegacyMonitor { app_enabled: false, had_state: false, last_game_running: false, last_detected: String::new() }
    }

    /// Remembers what was detected; true when it differs from the last check.
    pub fn observe(&mut self, detected: &str) -> (changed: bool)
        ensures
            changed == (detected@ != old(self).last_detected@),
            final(self).last_detected@ == detected@,
            final(self).app_enabled == old(self).app_enabled,
            final(self).had_state == old(self).had_state,
            final(self).last_game_running == old(self).last_game_running,
    {
        let changed = !str_eq(detected, self.last_detected.as_str());
        self.last_detected = owned(detected);
        changed
    }

    pub fn action(&self, game_running: bool) -> (a: LegacyAction)
        ensures
            a == legacy_action(self.app_enabled, self.had_state, self.last_game_running, game_running),
    {
        if self.had_state && game_running == self.last_game_running {
            LegacyAction::NoChange
        } else if game_running {
            LegacyAction::CheckThenEnable
        } else if self.had_state {
            if self.app_enabled {
                LegacyAction::TurnOff
            } else {
                LegacyAction::LeaveOn
            }
        } else {
            LegacyAction::Settle
        }
    }

    /// Records a change once it was acted on; `found_on` is what the switch read when a
    /// game started (and is false otherwise).
    pub fn finish(&mut self, game_running: bool, found_on: bool)
        ensures
            final(self).had_state,
            final(self).last_game_running == game_running,
            final(self).app_enabled == legacy_enabled_after(game_running, found_on),
            final(self).last_detected == old(self).last_detected,
    {
        self.app_enabled = game_running && !found_on;
        self.had_state = true;
        self.last_game_running = game_running;
    }

    /// Whether stopping turns the switch off: only what the monitor turned on, and only
    /// when the settings ask for it.
    pub fn off_on_stop(&self, restore_on_exit: bool) -> (b: bool)
        ensures
            b == (restore_on_exit && self.app_enabled),
    {
        restore_on_exit && self.app_enabled
    }
}

/// A game has started while the switch was already on: when it ends the switch stays
/// on, and stopping the monitor does not turn it off.
pub proof fn law_legacy_user_switch_preserved(had_state: bool, last: bool, app_enabled: bool, restore_on_exit: bool)
    requires
        legacy_action(app_enabled, had_state, last, true) == LegacyAction::CheckThenEnable,
    ensures
        legacy_action(legacy_enabled_after(true, true), true, true, false) == LegacyAction::LeaveOn,
        !(restore_on_exit && legacy_enabled_after(true, true)),
        !(restore_on_exit && legacy_enabled_after(false, false)),
{
}

/// A game has started while the switch was off, and the monitor turned it on: when the
/// game ends the monitor turns it off again, and afterwards holds nothing to undo.
pub proof fn law_legacy_turns_off_what_it_turned_on(had_state: bool, last: bool, app_enabled: bool)
    requires
        legacy_action(app_enabled, had_state, last, true) == LegacyAction::CheckThenEnable,
    ensures
        legacy_action(legacy_enabled_after(true, false), true, true, false) == LegacyAction::TurnOff,
        !legacy_enabled_after(false, false),
{
}

/// The status shown when a game starts.
pub fn legacy_start_message(found_on: bool) -> (r: String)
    ensures
        r@ == (if found_on { "检测到游戏运行，备用速度限制原本已打开。"@ } else { "检测到游戏运行，已打开备用速度限制。"@ }),
{
    if found_on {
        owned("检测到游戏运行，备用速度限制原本已打开。")
    } else {
        owned("检测到游戏运行，已打开备用速度限制。")
    }
}

/// The status shown when a game ends: whether the switch was turned off or kept.
pub fn legacy_exit_message(turned_off: bool) -> (r: String)
    ensures
        r@ == (if turned_off { "检测到游戏退出，已关闭备用速度限制。"@ } else { "检测到游戏退出，保留原本已打开的备用速度限制。"@ }),
{
    if turned_off {
        owned("检测到游戏退出，已关闭备用速度限制。")
    } else {
        owned("检测到游戏退出，保留原本已打开的备用速度限制。")
    }
}

/// The status and the log line for an error that ended the monitor.
pub fn legacy_error_texts(error: &str) -> (r: (String, String))
    ensures
        r.0@ == "监控出错："@ + error@,
        r.1@ == "Monitor error: "@ + error@,
{
    let mut status = chars_of("监控出错：");
    extend_str(&mut status, error);
    let mut log = chars_of("Monitor error: ");
    extend_str(&mut log, error);
    (string_of(&status), string_of(&log))
}

/// The status after testing the connection, from what reading the switch gave.
pub fn legacy_test_status(reading: Result<bool, String>) -> (r: String)
    ensures
        r@ == (match reading {
            Ok(true) => "连接成功，备用速度限制当前已打开。"@,
            Ok(false) => "连接成功，备用速度限制当前已关闭。"@,
            Err(e) => "连接失败："@ + e@,
        }),
{
    match reading {
        Ok(true) => owned("连接成功，备用速度限制当前已打开。"),
        Ok(false) => owned("连接成功，备用速度限制当前已关闭。"),
        Err(e) => {
            let mut v = chars_of("连接失败：");
            extend_str(&mut v, e.as_str());
            string_of(&v)
        },
    }
}

// ---------------------------------------------------------------------------
// The window
// ---------------------------------------------------------------------------

/// The label under the folder list.
pub fn detected_label(detected: &str) -> (r: String)
    ensures
        r@ == (if detected@.len() == 0 { "当前检测到：无"@ } else { "当前检测到："@ + detected@ }),
{
    if detected.is_empty() {
        owned("当前检测到：无")
    } else {
        let mut v = chars_of("当前检测到：");
        extend_str(&mut v, detected);
        string_of(&v)
    }
}

/// The scanned folders that are new, in order: those whose lower-case form is neither
/// among `seen` nor among those added before them.
pub open spec fn new_folders(seen: Seq<Seq<char>>, found: Seq<Seq<char>>) -> Seq<Seq<char>>
    decreases found.len(),
{
    if found.len() == 0 {
        Seq::empty()
    } else if seen.contains(lowercase(found[0])) {
        new_folders(seen, found.drop_first())
    } else {
        seq![found[0]] + new_folders(seen.push(lowercase(found[0])), found.drop_first())
    }
}

fn seen_contains(seen: &Vec<String>, s: &str) -> (b: bool)
    ensures
        b == seen.deep_view().contains(s@),
{
    let mut i: usize = 0;
    while i < seen.len()
        invariant
            i <= seen.len(),
            forall|k: int| 0 <= k < i ==> seen@[k]@ != s@,
        decreases seen.len() - i,
    {
        if str_eq(seen[i].as_str(), s) {
            assert(seen.deep_view()[i as int] == s@);
            return true;
        }
        i += 1;
    }
    assert(!seen.deep_view().contains(s@)) by {
        if seen.deep_view().contains(s@) {
            let k = choose|k: int| 0 <= k < seen.deep_view().len() && seen.deep_view()[k] == s@;
            assert(seen@[k]@ == s@);
        }
    }
    false
}

/// The folders a scan adds to the listed ones, compared in lower case.
pub fn merge_scanned(listed: &Vec<String>, found: &Vec<String>) -> (added: Vec<String>)
    ensures
        added.deep_view() == new_folders(listed.deep_view().map_values(|s: Seq<char>| lowercase(s)), found.deep_view()),
{
    let mut seen: Vec<String> = Vec::new();
    let mut i: usize = 0;
    while i < listed.len()
        invariant
            i <= listed.len(),
            seen.deep_view() == listed.deep_view().take(i as int).map_values(|s: Seq<char>| lowercase(s)),
        decreases listed.len() - i,
    {
        let ghost before = seen.deep_view();
        seen.push(lower(listed[i].as_str()));
        assert(seen.deep_view() =~= before.push(lowercase(listed@[i as int]@)));
        assert(listed.deep_view().take(i + 1).map_values(|s: Seq<char>| lowercase(s)) =~= listed.deep_view().take(
            i as int,
        ).map_values(|s: Seq<char>| lowercase(s)).push(lowercase(listed@[i as int]@)));
        i += 1;
    }
    assert(listed.deep_view().take(listed.len() as int) =~= listed.deep_view());
    let ghost seen0 = seen.deep_view();
    let ghost fv = found.deep_view();
    let mut added: Vec<String> = Vec::new();
    let mut j: usize = 0;
    assert(fv.skip(0) =~= fv);
    assert(added.deep_view() + new_folders(seen0, fv) =~= new_folders(seen0, fv));
    while j < found.len()
        invariant
            j <= found.len(),
            fv == found.deep_view(),
            added.deep_view() + new_folders(seen.deep_view(), fv.skip(j as int)) == new_folders(seen0, fv),
        decreases found.len() - j,
    {
        let key = lower(found[j].as_str());
        let ghost rest = fv.skip(j as int);
        assert(rest[0] == found@[j as int]@);
        assert(rest.drop_first() =~= fv.skip(j + 1));
        if !seen_contains(&seen, key.as_str()) {
            let ghost a0 = added.deep_view();
            let ghost s0 = seen.deep_view();
            added.push(found[j].clone());
            seen.push(key);
            assert(added.deep_view() =~= a0.push(found@[j as int]@));
            assert(seen.deep_view() =~= s0.push(lowercase(found@[j as int]@)));
            assert(a0 + (seq![rest[0]] + new_folders(s0.push(lowercase(rest[0])), rest.drop_first())) =~= a0.push(
                rest[0],
            ) + new_folders(s0.push(lowercase(rest[0])), rest.drop_first()));
        }
        j += 1;
    }
    assert(fv.skip(j as int) =~= Seq::<Seq<char>>::empty());
    assert(added.deep_view() + Seq::<Seq<char>>::empty() =~= added.deep_view());
    added
}

/// The status after a scan.
pub fn scan_done_message(added: usize) -> (r: String)
    ensures
        r@ == "自动扫描完成，新增 "@ + decimal(added as nat) + " 个游戏库。"@,
{
    let mut v = chars_of("自动扫描完成，新增 ");
    push_decimal(&mut v, added as u64);
    extend_str(&mut v, " 个游戏库。");
    string_of(&v)
}

// ---------------------------------------------------------------------------
// Controls, commands and colours
// ---------------------------------------------------------------------------

pub const ID_URL: isize = 1001;
pub const ID_USER: isize = 1002;
pub const ID_PASSWORD: isize = 1003;
pub const ID_INTERVAL: isize = 1004;
pub const ID_STARTUP: isize = 1005;
pub const ID_AUTOSTART: isize = 1006;
pub const ID_FOLDERS: isize = 1007;
pub const ID_TEST: isize = 1008;
pub const ID_SCAN: isize = 1009;
pub const ID_ADD: isize = 1010;
pub const ID_REMOVE: isize = 1011;
pub const ID_OPEN_CONFIG: isize = 1012;
pub const ID_SAVE: isize = 1013;
pub const ID_START: isize = 1014;
pub const ID_STOP: isize = 1015;

/// What a click on a control asks for.
#[derive(PartialEq, Eq, Structural, Debug, Clone, Copy)]
pub enum UiCommand {
    Test,
    Scan,
    AddFolder,
    RemoveFolder,
    OpenConfigFolder,
    Save,
    Start,
    Stop,
    /// Controls without a command.
    Other,
}

pub fn command_of(id: isize) -> (c: UiCommand)
    ensures
        c == (if id == ID_TEST {
            UiCommand::Test
        } else if id == ID_SCAN {
            UiCommand::Scan
        } else if id == ID_ADD {
            UiCommand::AddFolder
        } else if id == ID_REMOVE {
            UiCommand::RemoveFolder
        } else if id == ID_OPEN_CONFIG {
            UiCommand::OpenConfigFolder
        } else if id == ID_SAVE {
            UiCommand::Save
        } else if id == ID_START {
            UiCommand::Start
        } else if id == ID_STOP {
            UiCommand::Stop
        } else {
            UiCommand::Other
        }),
{
    if id == ID_TEST {
        UiCommand::Test
    } else if id == ID_SCAN {
        UiCommand::Scan
    } else if id == ID_ADD {
        UiCommand::AddFolder
    } else if id == ID_REMOVE {
        UiCommand::RemoveFolder
    } else if id == ID_OPEN_CONFIG {
        UiCommand::OpenConfigFolder
    } else if id == ID_SAVE {
        UiCommand::Save
    } else if id == ID_START {
        UiCommand::Start
    } else if id == ID_STOP {
        UiCommand::Stop
    } else {
        UiCommand::Other
    }
}

/// A Windows `COLORREF`: red in the low byte, then green, then blue.
pub open spec fn rgb_value(r: u8, g: u8, b: u8) -> int {
    r + 256 * g + 65536 * b
}

pub fn rgb(r: u8, g: u8, b: u8) -> (c: u32)
    ensures
        c == rgb_value(r, g, b),
{
    let c = (r as u32) | ((g as u32) << 8u32) | ((b as u32) << 16u32);
    assert(c == (r as u32) + (g as u32) * 256 + (b as u32) * 65536) by (bit_vector)
        requires
            c == (r as u32) | ((g as u32) << 8u32) | ((b as u32) << 16u32),
    ;
    c
}

/// The colours of the window.
#[derive(PartialEq, Eq, Structural, Debug, Clone, Copy)]
pub enum UiColor {
    Background,
    Card,
    Input,
    Border,
    Text,
    Muted,
    Primary,
    PrimaryHot,
    Button,
    ButtonDisabled,
    White,
}

pub open spec fn color_value(c: UiColor) -> int {
    match c {
        UiColor::Background => rgb_value(8, 10, 15),
        UiColor::Card => rgb_value(17, 19, 28),
        UiColor::Input => rgb_value(11, 13, 20),
        UiColor::Border => rgb_value(39, 45, 61),
        UiColor::Text => rgb_value(229, 231, 235),
        UiColor::Muted => rgb_value(156, 163, 175),
        UiColor::Primary => rgb_value(99, 102, 241),
        UiColor::PrimaryHot => rgb_value(129, 140, 248),
        UiColor::Button => rgb_value(28, 32, 44),
        UiColor::ButtonDisabled => rgb_value(31, 35, 46),
        UiColor::White => rgb_value(255, 255, 255),
    }
}

pub fn color(c: UiColor) -> (v: u32)
    ensures
        v == color_value(c),
{
    match c {
        UiColor::Background => rgb(8, 10, 15),
        UiColor::Card => rgb(17, 19, 28),
        UiColor::Input => rgb(11, 13, 20),
        UiColor::Border => rgb(39, 45, 61),
        UiColor::Text => rgb(229, 231, 235),
        UiColor::Muted => rgb(156, 163, 175),
        UiColor::Primary => rgb(99, 102, 241),
        UiColor::PrimaryHot => rgb(129, 140, 248),
        UiColor::Button => rgb(28, 32, 44),
        UiColor::ButtonDisabled => rgb(31, 35, 46),
        UiColor::White => rgb(255, 255, 255),
    }
}

/// How an owner-drawn button is painted.
#[derive(PartialEq, Eq, Structural, Debug, Clone, Copy)]
pub struct ButtonStyle {
    pub fill: UiColor,
    pub border: UiColor,
    pub text: UiColor,
}

/// The look of a button: test and start are the primary ones; a disabled button is
/// dimmed; focus, or pressing a primary button, lights the border.
pub fn button_style(id: isize, disabled: bool, pressed: bool, focused: bool) -> (st: ButtonStyle)
    ensures
        ({
            let primary = id == ID_START || id == ID_TEST;
            &&& st.fill == (if disabled {
                UiColor::ButtonDisabled
            } else if primary {
                UiColor::Primary
            } else {
                UiColor::Button
            })
            &&& st.border == (if focused || (pressed && primary) {
                UiColor::PrimaryHot
            } else {
                UiColor::Border
            })
            &&& st.text == (if disabled {
                UiColor::Muted
            } else if primary {
                UiColor::White
            } else {
                UiColor::Text
            })
        }),
{
    let primary = id == ID_START || id == ID_TEST;
    let fill = if disabled {
        UiColor::ButtonDisabled
    } else if primary {
        UiColor::Primary
    } else {
        UiColor::Button
    };
    let border = if focused || (pressed && primary) {
        UiColor::PrimaryHot
    } else {
        UiColor::Border
    };
    let text = if disabled {
        UiColor::Muted
    } else if primary {
        UiColor::White
    } else {
        UiColor::Text
    };
    ButtonStyle { fill, border, text }
}

// ---------------------------------------------------------------------------
// Shared pieces with the current program
// ---------------------------------------------------------------------------

impl LegacyConfig {
    /// The current settings that drive qBittorrent and game detection the same way:
    /// this program's address, account, folders, exclusions and interval, the other
    /// fields at their defaults.
    pub fn as_app_config(&self) -> (c: AppConfig)
        ensures
            c.download_client == crate::config::DownloadClientKind::QBittorrent,
            c.qbee_url == self.qbee_url,
            c.username == self.username,
            c.password == self.password,
            c.game_folders.deep_view() == self.game_folders.deep_view(),
            c.game_processes.deep_view() == self.game_processes.deep_view(),
            c.exclude_processes.deep_view() == self.exclude_processes.deep_view(),
            c.exclude_path_keywords.deep_view() == self.exclude_path_keywords.deep_view(),
            c.exclude_steam_app_keywords.deep_view() == self.exclude_steam_app_keywords.deep_view(),
            c.check_interval_seconds == self.check_interval_seconds,
            c.restore_on_exit == self.restore_on_exit,
            c.start_with_windows == self.start_with_windows,
            c.auto_start_monitor == self.auto_start_monitor,
            c.log_file == self.log_file,
    {
        let mut c = AppConfig::default();
        c.qbee_url = self.qbee_url.clone();
        c.username = self.username.clone();
        c.password = self.password.clone();
        c.game_folders = crate::text::copy_strings(&self.game_folders);
        c.game_processes = crate::text::copy_strings(&self.game_processes);
        c.exclude_processes = crate::text::copy_strings(&self.exclude_processes);
        c.exclude_path_keywords = crate::text::copy_strings(&self.exclude_path_keywords);
        c.exclude_steam_app_keywords = crate::text::copy_strings(&self.exclude_steam_app_keywords);
        c.check_interval_seconds = self.check_interval_seconds;
        c.restore_on_exit = self.restore_on_exit;
        c.start_with_windows = self.start_with_windows;
        c.auto_start_monitor = self.auto_start_monitor;
        c.log_file = self.log_file.clone();
        c
    }
}

/// The window program names qbee in its login failure; other errors pass unchanged.
pub fn legacy_login_error(error: String) -> (r: String)
    ensures
        r@ == (if error@ == crate::clients::qb_login_failed() {
            "qbee 登录失败，请检查 Web UI 用户名和密码。"@
        } else {
            error@
        }),
{
    if str_eq(error.as_str(), "qB 登录失败，请检查 Web UI 用户名和密码。") {
        owned("qbee 登录失败，请检查 Web UI 用户名和密码。")
    } else {
        error
    }
}

/// The folders below a drive's root that the window program's scan looks at.
pub open spec fn legacy_library_folders_spec() -> Seq<Seq<char>> {
    seq!["SteamLibrary\\steamapps"@, "Games"@, "Epic Games"@, "GOG Games"@, "WeGameApps"@, "XboxGames"@]
}

pub fn legacy_library_relative_folders() -> (r: Vec<String>)
    ensures
        r.deep_view() == legacy_library_folders_spec(),
{
    let mut r: Vec<String> = Vec::new();
    r.push(owned("SteamLibrary\\steamapps"));
    r.push(owned("Games"));
    r.push(owned("Epic Games"));
    r.push(owned("GOG Games"));
    r.push(owned("WeGameApps"));
    r.push(owned("XboxGames"));
    assert(r.deep_view() =~= legacy_library_folders_spec());
    r
}

/// The text of the status line.
pub fn status_line_text(text: &str) -> (r: String)
    ensures
        r@ == "状态："@ + text@,
{
    let mut v = chars_of("状态：");
    extend_str(&mut v, text);
    string_of(&v)
}

} // verus!
