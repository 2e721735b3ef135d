//! The download clients and the decisions of game mode: what to change when a game
//! starts, what to remember, and how to put things back when it exits.
//!
//! Talking to a client is not done here. The caller reads the client's current limits
//! into a [`LimitReading`], asks [`DownloadController::enable_game_mode`] or
//! [`DownloadController::restore`] for a plan, and carries out the plan's command.
use vstd::prelude::*;
use crate::config::{AppConfig, DownloadClientKind, owned};
use crate::text::{decimal, signed_decimal, trim_end_char, push_decimal, push_signed_decimal, extend_str, string_of, chars_of};
use crate::urls::{
    with_suffix, bare_url, int_limit_text, byte_limit_text, normalize_utorrent_url,
    normalize_deluge_url, normalize_bitcomet_url, qbee_base_url, format_int_limit, format_byte_limit,
};

verus! {

// ---------------------------------------------------------------------------
// Clients
// ---------------------------------------------------------------------------

/// qBittorrent Web UI session state.
pub struct QbeeClient {
    pub base_url: String,
    pub username: String,
    pub password: String,
    pub cookie: Option<String>,
    pub logged_in: bool,
}

/// Transmission RPC session state.
pub struct TransmissionClient {
    pub url: String,
    pub username: String,
    pub password: String,
    pub session_id: Option<String>,
}

/// aria2 JSON-RPC settings.
pub struct Aria2Client {
    pub url: String,
    pub secret: String,
}

/// µTorrent / BitTorrent Classic Web UI session state.
pub struct UTorrentClient {
    pub base_url: String,
    pub username: String,
    pub password: String,
    pub token: Option<String>,
    pub cookie: Option<String>,
}

/// Deluge Web JSON-RPC session state.
pub struct DelugeClient {
    pub url: String,
    pub password: String,
    pub cookie: Option<String>,
    pub logged_in: bool,
}

/// BitComet WebUI session state.
pub struct BitCometClient {
    pub base_url: String,
    pub username: String,
    pub password: String,
    pub token: Option<String>,
    pub client_id: String,
}

impl QbeeClient {
    pub fn new(config: &AppConfig) -> (c: Self)
        ensures
            c.base_url@ == trim_end_char(config.qbee_url@, '/'),
            c.username@ == config.username@,
            c.password@ == config.password@,
            c.cookie is None,
            !c.logged_in,
    {
        QbeeClient {
            base_url: qbee_base_url(config.qbee_url.as_str()),
            username: config.username.clone(),
            password: config.password.clone(),
            cookie: None,
            logged_in: false,
        }
    }

    /// Whether switching the alternative speed limits to `enabled` needs a toggle, the
    /// only operation the Web API offers: only when the current mode differs.
    pub fn set_speed_limits(current: bool, enabled: bool) -> (toggle: bool)
        ensures
            toggle == (current != enabled),
    {
        current != enabled
    }
}

impl TransmissionClient {
    pub fn new(config: &AppConfig) -> (c: Self)
        ensures
            c.url@ == config.transmission_url@,
            c.username@ == config.username@,
            c.password@ == config.password@,
            c.session_id is None,
    {
        TransmissionClient {
            url: config.transmission_url.clone(),
            username: config.username.clone(),
            password: config.password.clone(),
            session_id: None,
        }
    }
}

impl Aria2Client {
    pub fn new(config: &AppConfig) -> (c: Self)
        ensures
            c.url@ == config.aria2_url@,
            c.secret@ == config.aria2_secret@,
    {
        Aria2Client { url: config.aria2_url.clone(), secret: config.aria2_secret.clone() }
    }
}

impl UTorrentClient {
    pub fn new(config: &AppConfig) -> (c: Self)
        ensures
            c.base_url@ == with_suffix(config.utorrent_url@, "/gui"@),
            c.username@ == config.username@,
            c.password@ == config.password@,
            c.token is None,
            c.cookie is None,
    {
        UTorrentClient {
            base_url: normalize_utorrent_url(config.utorrent_url.as_str()),
            username: config.username.clone(),
            password: config.password.clone(),
            token: None,
            cookie: None,
        }
    }
}

impl DelugeClient {
    pub fn new(config: &AppConfig) -> (c: Self)
        ensures
            c.url@ == with_suffix(config.deluge_url@, "/json"@),
            c.password@ == config.password@,
            c.cookie is None,
            !c.logged_in,
    {
        DelugeClient {
            url: normalize_deluge_url(config.deluge_url.as_str()),
            password: config.password.clone(),
            cookie: None,
            logged_in: false,
        }
    }
}

impl BitCometClient {
    /// A client that identifies itself with `client_id` (see `bitcomet_client_id`).
    pub fn new(config: &AppConfig, client_id: String) -> (c: Self)
        ensures
            c.base_url@ == bare_url(config.bitcomet_url@),
            c.username@ == config.username@,
            c.password@ == config.password@,
            c.token is None,
            c.client_id == client_id,
    {
        BitCometClient {
            base_url: normalize_bitcomet_url(config.bitcomet_url.as_str()),
            username: config.username.clone(),
            password: config.password.clone(),
            token: None,
            client_id,
        }
    }
}

/// The client that the settings select.
pub enum DownloadController {
    QBittorrent(QbeeClient),
    Transmission(TransmissionClient),
    Aria2(Aria2Client),
    UTorrent(UTorrentClient),
    Deluge(DelugeClient),
    BitComet(BitCometClient),
}

// ---------------------------------------------------------------------------
// Readings, commands, snapshots, and their mathematical models
// ---------------------------------------------------------------------------

/// The current limits read from a client.
pub enum LimitReading {
    /// The alternative speed limit switch (qBittorrent, Transmission).
    Switch(bool),
    /// aria2's global limits, as the option strings it reports.
    Aria2 { download: String, upload: String },
    /// µTorrent's global limits in KiB/s.
    UTorrent { download: i64, upload: i64 },
    /// Deluge's global limits: the bit patterns of the floating-point KiB/s values, and
    /// their display text.
    Deluge { download_bits: u64, upload_bits: u64, download_text: String, upload_text: String },
    /// BitComet's global limits in bytes/s.
    BitComet { download: u64, upload: u64 },
}

/// A change to make on a client.
pub enum ClientCommand {
    /// Turn the alternative speed limit switch on or off.
    SetSwitch(bool),
    /// Set aria2's global option strings.
    Aria2SetLimits { download: String, upload: String },
    /// Set µTorrent's `max_dl_rate` / `max_ul_rate` settings to these texts.
    UTorrentSetLimits { download: String, upload: String },
    /// Set Deluge's limits to these KiB/s values, as floating-point numbers.
    DelugeSetKib { download: u64, upload: u64 },
    /// Set Deluge's limits to the floating-point numbers with these bit patterns.
    DelugeSetBits { download_bits: u64, upload_bits: u64 },
    /// Set BitComet's limits in bytes/s.
    BitCometSetBytes { download: u64, upload: u64 },
}

/// What game mode changed, so that it can be put back.
#[derive(Clone, Debug)]
pub enum DownloadLimitSnapshot {
    QBittorrent { changed: bool },
    Transmission { changed: bool },
    Aria2 { previous_download: String, previous_upload: String },
    UTorrent { previous_download: i64, previous_upload: i64 },
    /// Bit patterns of the floating-point values.
    Deluge { previous_download: u64, previous_upload: u64 },
    BitComet { previous_download: u64, previous_upload: u64 },
}

/// What entering game mode means to do.
pub struct GameModePlan {
    pub command: Option<ClientCommand>,
    pub snapshot: DownloadLimitSnapshot,
    pub message: String,
}

/// What leaving game mode means to do.
pub struct RestorePlan {
    pub command: Option<ClientCommand>,
    pub message: String,
}

/// A Deluge limit as last set: a float given by its bits, or a whole number of KiB/s.
pub enum DelugeSetting {
    Bits(u64),
    Kib(u64),
}

/// The limits of a client, as a value.
pub enum LimitsModel {
    Switch(bool),
    Text(Seq<char>, Seq<char>),
    Ints(int, int),
    Deluge(DelugeSetting, DelugeSetting),
}

pub enum CommandModel {
    SetSwitch(bool),
    SetText(Seq<char>, Seq<char>),
    SetDelugeKib(u64, u64),
    SetDelugeBits(u64, u64),
    SetInts(int, int),
}

pub enum SnapshotModel {
    QBittorrent(bool),
    Transmission(bool),
    Aria2(Seq<char>, Seq<char>),
    UTorrent(int, int),
    Deluge(u64, u64),
    BitComet(int, int),
}

impl LimitReading {
    pub open spec fn model(self) -> LimitsModel {
        match self {
            LimitReading::Switch(b) => LimitsModel::Switch(b),
            LimitReading::Aria2 { download, upload } => LimitsModel::Text(download@, upload@),
            LimitReading::UTorrent { download, upload } => LimitsModel::Text(
                signed_decimal(download as int),
                signed_decimal(upload as int),
            ),
            LimitReading::Deluge { download_bits, upload_bits, .. } => LimitsModel::Deluge(
                DelugeSetting::Bits(download_bits),
                DelugeSetting::Bits(upload_bits),
            ),
            LimitReading::BitComet { download, upload } => LimitsModel::Ints(download as int, upload as int),
        }
    }

    /// The reading is of the kind that a client of `kind` reports.
    pub open spec fn fits(self, kind: DownloadClientKind) -> bool {
        match kind {
            DownloadClientKind::QBittorrent => self is Switch,
            DownloadClientKind::Transmission => self is Switch,
            DownloadClientKind::Aria2 => self is Aria2,
            DownloadClientKind::UTorrent => self is UTorrent,
            DownloadClientKind::Deluge => self is Deluge,
            DownloadClientKind::BitComet => self is BitComet,
        }
    }

    /// Whether this reading is of the kind that `controller` reports.
    pub fn fits_controller(&self, controller: &DownloadController) -> (b: bool)
        ensures
            b == self.fits(controller.kind()),
    {
        match (controller, self) {
            (DownloadController::QBittorrent(_), LimitReading::Switch(_)) => true,
            (DownloadController::Transmission(_), LimitReading::Switch(_)) => true,
            (DownloadController::Aria2(_), LimitReading::Aria2 { .. }) => true,
            (DownloadController::UTorrent(_), LimitReading::UTorrent { .. }) => true,
            (DownloadController::Deluge(_), LimitReading::Deluge { .. }) => true,
            (DownloadController::BitComet(_), LimitReading::BitComet { .. }) => true,
            _ => false,
        }
    }
}

impl ClientCommand {
    pub open spec fn model(self) -> CommandModel {
        match self {
            ClientCommand::SetSwitch(b) => CommandModel::SetSwitch(b),
            ClientCommand::Aria2SetLimits { download, upload } => CommandModel::SetText(download@, upload@),
            ClientCommand::UTorrentSetLimits { download, upload } => CommandModel::SetText(download@, upload@),
            ClientCommand::DelugeSetKib { download, upload } => CommandModel::SetDelugeKib(download, upload),
            ClientCommand::DelugeSetBits { download_bits, upload_bits } => CommandModel::SetDelugeBits(
                download_bits,
                upload_bits,
            ),
            ClientCommand::BitCometSetBytes { download, upload } => CommandModel::SetInts(
                download as int,
                upload as int,
            ),
        }
    }
}

impl ClientCommand {
    /// The command is one that a client of `kind` takes.
    pub open spec fn fits(self, kind: DownloadClientKind) -> bool {
        match self {
            ClientCommand::SetSwitch(_) => kind == DownloadClientKind::QBittorrent || kind
                == DownloadClientKind::Transmission,
            ClientCommand::Aria2SetLimits { .. } => kind == DownloadClientKind::Aria2,
            ClientCommand::UTorrentSetLimits { .. } => kind == DownloadClientKind::UTorrent,
            ClientCommand::DelugeSetKib { .. } => kind == DownloadClientKind::Deluge,
            ClientCommand::DelugeSetBits { .. } => kind == DownloadClientKind::Deluge,
            ClientCommand::BitCometSetBytes { .. } => kind == DownloadClientKind::BitComet,
        }
    }
}

pub open spec fn command_model(c: Option<ClientCommand>) -> Option<CommandModel> {
    match c {
        Some(cmd) => Some(cmd.model()),
        None => None,
    }
}

impl DownloadLimitSnapshot {
    pub open spec fn model(self) -> SnapshotModel {
        match self {
            DownloadLimitSnapshot::QBittorrent { changed } => SnapshotModel::QBittorrent(changed),
            DownloadLimitSnapshot::Transmission { changed } => SnapshotModel::Transmission(changed),
            DownloadLimitSnapshot::Aria2 { previous_download, previous_upload } => SnapshotModel::Aria2(
                previous_download@,
                previous_upload@,
            ),
            DownloadLimitSnapshot::UTorrent { previous_download, previous_upload } => SnapshotModel::UTorrent(
                previous_download as int,
                previous_upload as int,
            ),
            DownloadLimitSnapshot::Deluge { previous_download, previous_upload } => SnapshotModel::Deluge(
                previous_download,
                previous_upload,
            ),
            DownloadLimitSnapshot::BitComet { previous_download, previous_upload } => SnapshotModel::BitComet(
                previous_download as int,
                previous_upload as int,
            ),
        }
    }
}

/// The client's limits after a command.
pub open spec fn apply(m: LimitsModel, c: CommandModel) -> LimitsModel {
    match (m, c) {
        (LimitsModel::Switch(_), CommandModel::SetSwitch(b)) => LimitsModel::Switch(b),
        (LimitsModel::Text(_, _), CommandModel::SetText(d, u)) => LimitsModel::Text(d, u),
        (LimitsModel::Deluge(_, _), CommandModel::SetDelugeKib(d, u)) => LimitsModel::Deluge(
            DelugeSetting::Kib(d),
            DelugeSetting::Kib(u),
        ),
        (LimitsModel::Deluge(_, _), CommandModel::SetDelugeBits(d, u)) => LimitsModel::Deluge(
            DelugeSetting::Bits(d),
            DelugeSetting::Bits(u),
        ),
        (LimitsModel::Ints(_, _), CommandModel::SetInts(d, u)) => LimitsModel::Ints(d, u),
        _ => m,
    }
}

pub open spec fn apply_opt(m: LimitsModel, c: Option<CommandModel>) -> LimitsModel {
    match c {
        Some(cmd) => apply(m, cmd),
        None => m,
    }
}

/// `kib * 1024`, saturating at `u64::MAX`.
pub open spec fn kib_to_bytes(kib: u64) -> int {
    if kib * 1024 > u64::MAX {
        u64::MAX as int
    } else {
        kib * 1024
    }
}

/// The aria2 option string for a limit in KiB/s.
pub open spec fn aria2_limit(kib: u64) -> Seq<char> {
    decimal(kib as nat) + "K"@
}

/// The limits a client of `kind` has in game mode.
pub open spec fn game_limits(kind: DownloadClientKind, c: AppConfig) -> LimitsModel {
    let d = c.game_download_limit_kib;
    let u = c.game_upload_limit_kib;
    match kind {
        DownloadClientKind::QBittorrent => LimitsModel::Switch(true),
        DownloadClientKind::Transmission => LimitsModel::Switch(true),
        DownloadClientKind::Aria2 => LimitsModel::Text(aria2_limit(d), aria2_limit(u)),
        DownloadClientKind::UTorrent => LimitsModel::Text(decimal(d as nat), decimal(u as nat)),
        DownloadClientKind::Deluge => LimitsModel::Deluge(DelugeSetting::Kib(d), DelugeSetting::Kib(u)),
        DownloadClientKind::BitComet => LimitsModel::Ints(kib_to_bytes(d), kib_to_bytes(u)),
    }
}

/// The command with which game mode starts, given the current reading.
pub open spec fn enable_command(kind: DownloadClientKind, r: LimitReading, c: AppConfig) -> Option<
    CommandModel,
> {
    let d = c.game_download_limit_kib;
    let u = c.game_upload_limit_kib;
    match kind {
        DownloadClientKind::QBittorrent | DownloadClientKind::Transmission => if r == LimitReading::Switch(
            true,
        ) {
            None
        } else {
            Some(CommandModel::SetSwitch(true))
        },
        DownloadClientKind::Aria2 => Some(CommandModel::SetText(aria2_limit(d), aria2_limit(u))),
        DownloadClientKind::UTorrent => Some(CommandModel::SetText(decimal(d as nat), decimal(u as nat))),
        DownloadClientKind::Deluge => Some(CommandModel::SetDelugeKib(d, u)),
        DownloadClientKind::BitComet => Some(CommandModel::SetInts(kib_to_bytes(d), kib_to_bytes(u))),
    }
}

/// What game mode remembers, given the reading taken before it started.
pub open spec fn enable_snapshot(kind: DownloadClientKind, r: LimitReading) -> SnapshotModel {
    match kind {
        DownloadClientKind::QBittorrent => SnapshotModel::QBittorrent(r != LimitReading::Switch(true)),
        DownloadClientKind::Transmission => SnapshotModel::Transmission(r != LimitReading::Switch(true)),
        DownloadClientKind::Aria2 => match r {
            LimitReading::Aria2 { download, upload } => SnapshotModel::Aria2(download@, upload@),
            _ => SnapshotModel::Aria2(Seq::empty(), Seq::empty()),
        },
        DownloadClientKind::UTorrent => match r {
            LimitReading::UTorrent { download, upload } => SnapshotModel::UTorrent(download as int, upload as int),
            _ => SnapshotModel::UTorrent(0, 0),
        },
        DownloadClientKind::Deluge => match r {
            LimitReading::Deluge { download_bits, upload_bits, .. } => SnapshotModel::Deluge(download_bits, upload_bits),
            _ => SnapshotModel::Deluge(0, 0),
        },
        DownloadClientKind::BitComet => match r {
            LimitReading::BitComet { download, upload } => SnapshotModel::BitComet(download as int, upload as int),
            _ => SnapshotModel::BitComet(0, 0),
        },
    }
}

/// The command with which leaving game mode puts a snapshot back.
pub open spec fn restore_command(kind: DownloadClientKind, s: SnapshotModel) -> Option<CommandModel> {
    match (kind, s) {
        (DownloadClientKind::QBittorrent, SnapshotModel::QBittorrent(changed)) => if changed {
            Some(CommandModel::SetSwitch(false))
        } else {
            None
        },
        (DownloadClientKind::Transmission, SnapshotModel::Transmission(changed)) => if changed {
            Some(CommandModel::SetSwitch(false))
        } else {
            None
        },
        (DownloadClientKind::Aria2, SnapshotModel::Aria2(d, u)) => Some(CommandModel::SetText(d, u)),
        (DownloadClientKind::UTorrent, SnapshotModel::UTorrent(d, u)) => Some(
            CommandModel::SetText(signed_decimal(d), signed_decimal(u)),
        ),
        (DownloadClientKind::Deluge, SnapshotModel::Deluge(d, u)) => Some(CommandModel::SetDelugeBits(d, u)),
        (DownloadClientKind::BitComet, SnapshotModel::BitComet(d, u)) => Some(CommandModel::SetInts(d, u)),
        _ => None,
    }
}

// ---------------------------------------------------------------------------
// Messages
// ---------------------------------------------------------------------------

/// `prefix + decimal(d) + "K / 上传 " + decimal(u) + "K。"`.
pub open spec fn switched_to(prefix: Seq<char>, d: u64, u: u64) -> Seq<char> {
    prefix + decimal(d as nat) + "K / 上传 "@ + decimal(u as nat) + "K。"@
}

pub open spec fn enable_message(kind: DownloadClientKind, r: LimitReading, c: AppConfig) -> Seq<char> {
    let d = c.game_download_limit_kib;
    let u = c.game_upload_limit_kib;
    let already = r == LimitReading::Switch(true);
    match kind {
        DownloadClientKind::QBittorrent => if already {
            "检测到游戏运行，qB 备用速度限制原本已打开。"@
        } else {
            "检测到游戏运行，已打开 qB 备用速度限制。"@
        },
        DownloadClientKind::Transmission => if already {
            "检测到游戏运行，Transmission 备用限速原本已打开。"@
        } else {
            "检测到游戏运行，已打开 Transmission 备用限速。"@
        },
        DownloadClientKind::Aria2 => switched_to("检测到游戏运行，已把 aria2 全局限速切换为下载 "@, d, u),
        DownloadClientKind::UTorrent => switched_to(
            "检测到游戏运行，已把 µTorrent/BitTorrent 全局限速切换为下载 "@,
            d,
            u,
        ),
        DownloadClientKind::Deluge => switched_to("检测到游戏运行，已把 Deluge 全局限速切换为下载 "@, d, u),
        DownloadClientKind::BitComet => switched_to("检测到游戏运行，已把 BitComet 全局限速切换为下载 "@, d, u),
    }
}

pub open spec fn restore_message(kind: DownloadClientKind, s: SnapshotModel) -> Seq<char> {
    match (kind, s) {
        (DownloadClientKind::QBittorrent, SnapshotModel::QBittorrent(changed)) => if changed {
            "检测到游戏退出，已关闭 qB 备用速度限制。"@
        } else {
            "检测到游戏退出，保留原本已打开的 qB 备用速度限制。"@
        },
        (DownloadClientKind::Transmission, SnapshotModel::Transmission(changed)) => if changed {
            "检测到游戏退出，已关闭 Transmission 备用限速。"@
        } else {
            "检测到游戏退出，保留原本已打开的 Transmission 备用限速。"@
        },
        (DownloadClientKind::Aria2, SnapshotModel::Aria2(_, _)) => "检测到游戏退出，已恢复 aria2 原来的全局限速。"@,
        (DownloadClientKind::UTorrent, SnapshotModel::UTorrent(_, _)) => "检测到游戏退出，已恢复 µTorrent/BitTorrent 原来的全局限速。"@,
        (DownloadClientKind::Deluge, SnapshotModel::Deluge(_, _)) => "检测到游戏退出，已恢复 Deluge 原来的全局限速。"@,
        (DownloadClientKind::BitComet, SnapshotModel::BitComet(_, _)) => "检测到游戏退出，已恢复 BitComet 原来的全局限速。"@,
        _ => "检测到游戏退出，当前下载器无需恢复。"@,
    }
}

/// `name + " 连接成功，当前全局限速：下载 " + down + "，上传 " + up + "。游戏中将切换为 " + d + "K / " + u + "K。"`.
pub open spec fn limits_report(name: Seq<char>, down: Seq<char>, up: Seq<char>, c: AppConfig) -> Seq<char> {
    name + " 连接成功，当前全局限速：下载 "@ + down + "，上传 "@ + up + "。游戏中将切换为 "@ + decimal(
        c.game_download_limit_kib as nat,
    ) + "K / "@ + decimal(c.game_upload_limit_kib as nat) + "K。"@
}

pub open spec fn connection_message(kind: DownloadClientKind, r: LimitReading, c: AppConfig) -> Seq<char> {
    let on = r == LimitReading::Switch(true);
    match (kind, r) {
        (DownloadClientKind::QBittorrent, _) => if on {
            "qB 连接成功，备用速度限制当前已开启。"@
        } else {
            "qB 连接成功，备用速度限制当前已关闭。"@
        },
        (DownloadClientKind::Transmission, _) => if on {
            "Transmission 连接成功，备用限速当前已开启。"@
        } else {
            "Transmission 连接成功，备用限速当前已关闭。"@
        },
        (DownloadClientKind::Aria2, LimitReading::Aria2 { download, upload }) => limits_report(
            "aria2"@,
            download@,
            upload@,
            c,
        ),
        (DownloadClientKind::UTorrent, LimitReading::UTorrent { download, upload }) => limits_report(
            "µTorrent/BitTorrent"@,
            int_limit_text(download),
            int_limit_text(upload),
            c,
        ),
        (DownloadClientKind::Deluge, LimitReading::Deluge { download_text, upload_text, .. }) => limits_report(
            "Deluge"@,
            download_text@,
            upload_text@,
            c,
        ),
        (DownloadClientKind::BitComet, LimitReading::BitComet { download, upload }) => limits_report(
            "BitComet"@,
            byte_limit_text(download),
            byte_limit_text(upload),
            c,
        ),
        _ => Seq::empty(),
    }
}

fn switched_to_text(prefix: &str, d: u64, u: u64) -> (r: String)
    ensures
        r@ == switched_to(prefix@, d, u),
{
    let mut v = chars_of(prefix);
    push_decimal(&mut v, d);
    extend_str(&mut v, "K / 上传 ");
    push_decimal(&mut v, u);
    extend_str(&mut v, "K。");
    string_of(&v)
}

fn limit_text(kib: u64) -> (r: String)
    ensures
        r@ == aria2_limit(kib),
{
    let mut v: Vec<char> = Vec::new();
    push_decimal(&mut v, kib);
    extend_str(&mut v, "K");
    string_of(&v)
}

fn limits_report_text(name: &str, down: &str, up: &str, c: &AppConfig) -> (r: String)
    ensures
        r@ == limits_report(name@, down@, up@, *c),
{
    let mut v = chars_of(name);
    extend_str(&mut v, " 连接成功，当前全局限速：下载 ");
    extend_str(&mut v, down);
    extend_str(&mut v, "，上传 ");
    extend_str(&mut v, up);
    extend_str(&mut v, "。游戏中将切换为 ");
    push_decimal(&mut v, c.game_download_limit_kib);
    extend_str(&mut v, "K / ");
    push_decimal(&mut v, c.game_upload_limit_kib);
    extend_str(&mut v, "K。");
    string_of(&v)
}

/// `kib * 1024`, saturating.
fn kib_to_bytes_exec(kib: u64) -> (r: u64)
    ensures
        r == kib_to_bytes(kib),
{
    match kib.checked_mul(1024) {
        Some(b) => b,
        None => u64::MAX,
    }
}

fn text_of_i64(n: i64) -> (r: String)
    ensures
        r@ == signed_decimal(n as int),
{
    let mut v: Vec<char> = Vec::new();
    push_signed_decimal(&mut v, n);
    assert(v@ =~= signed_decimal(n as int));
    string_of(&v)
}

fn text_of_u64(n: u64) -> (r: String)
    ensures
        r@ == decimal(n as nat),
{
    let mut v: Vec<char> = Vec::new();
    push_decimal(&mut v, n);
    assert(v@ =~= decimal(n as nat));
    string_of(&v)
}

// ---------------------------------------------------------------------------
// Decisions
// ---------------------------------------------------------------------------

impl DownloadController {
    pub open spec fn kind(&self) -> DownloadClientKind {
        match self {
            DownloadController::QBittorrent(_) => DownloadClientKind::QBittorrent,
            DownloadController::Transmission(_) => DownloadClientKind::Transmission,
            DownloadController::Aria2(_) => DownloadClientKind::Aria2,
            DownloadController::UTorrent(_) => DownloadClientKind::UTorrent,
            DownloadController::Deluge(_) => DownloadClientKind::Deluge,
            DownloadController::BitComet(_) => DownloadClientKind::BitComet,
        }
    }

    /// The client that `config` selects; a BitComet client identifies itself with
    /// `bitcomet_client_id`.
    pub fn new(config: &AppConfig, bitcomet_client_id: String) -> (c: Self)
        ensures
            c.kind() == config.download_client,
            c matches DownloadController::QBittorrent(q) ==> q.base_url@ == trim_end_char(config.qbee_url@, '/')
                && q.username@ == config.username@ && q.password@ == config.password@ && q.cookie is None
                && !q.logged_in,
            c matches DownloadController::Transmission(t) ==> t.url@ == config.transmission_url@
                && t.username@ == config.username@ && t.password@ == config.password@ && t.session_id is None,
            c matches DownloadController::Aria2(a) ==> a.url@ == config.aria2_url@ && a.secret@
                == config.aria2_secret@,
            c matches DownloadController::UTorrent(u) ==> u.base_url@ == with_suffix(config.utorrent_url@, "/gui"@)
                && u.username@ == config.username@ && u.password@ == config.password@ && u.token is None
                && u.cookie is None,
            c matches DownloadController::Deluge(d) ==> d.url@ == with_suffix(config.deluge_url@, "/json"@)
                && d.password@ == config.password@ && d.cookie is None && !d.logged_in,
            c matches DownloadController::BitComet(b) ==> b.base_url@ == bare_url(config.bitcomet_url@)
                && b.username@ == config.username@ && b.password@ == config.password@ && b.token is None
                && b.client_id == bitcomet_client_id,
    {
        match config.download_client {
            DownloadClientKind::QBittorrent => DownloadController::QBittorrent(QbeeClient::new(config)),
            DownloadClientKind::Transmission => DownloadController::Transmission(TransmissionClient::new(config)),
            DownloadClientKind::Aria2 => DownloadController::Aria2(Aria2Client::new(config)),
            DownloadClientKind::UTorrent => DownloadController::UTorrent(UTorrentClient::new(config)),
            DownloadClientKind::Deluge => DownloadController::Deluge(DelugeClient::new(config)),
            DownloadClientKind::BitComet => DownloadController::BitComet(
                BitCometClient::new(config, bitcomet_client_id),
            ),
        }
    }

    /// The plan for entering game mode, given the limits read from the client just before:
    /// the switch clients turn their alternative limits on unless they already were, and
    /// remember whether they changed it; the others remember the limits read and set the
    /// in-game limits of `config`.
    pub fn enable_game_mode(&self, current: &LimitReading, config: &AppConfig) -> (plan: GameModePlan)
        requires
            current.fits(self.kind()),
        ensures
            command_model(plan.command) == enable_command(self.kind(), *current, *config),
            plan.command matches Some(c) ==> c.fits(self.kind()),
            plan.snapshot.model() == enable_snapshot(self.kind(), *current),
            plan.message@ == enable_message(self.kind(), *current, *config),
    {
        let d = config.game_download_limit_kib;
        let u = config.game_upload_limit_kib;
        match (self, current) {
            (DownloadController::QBittorrent(_), LimitReading::Switch(already_enabled)) => {
                if *already_enabled {
                    GameModePlan {
                        command: None,
                        snapshot: DownloadLimitSnapshot::QBittorrent { changed: false },
                        message: owned("检测到游戏运行，qB 备用速度限制原本已打开。"),
                    }
                } else {
                    GameModePlan {
                        command: Some(ClientCommand::SetSwitch(true)),
                        snapshot: DownloadLimitSnapshot::QBittorrent { changed: true },
                        message: owned("检测到游戏运行，已打开 qB 备用速度限制。"),
                    }
                }
            },
            (DownloadController::Transmission(_), LimitReading::Switch(already_enabled)) => {
                if *already_enabled {
                    GameModePlan {
                        command: None,
                        snapshot: DownloadLimitSnapshot::Transmission { changed: false },
                        message: owned("检测到游戏运行，Transmission 备用限速原本已打开。"),
                    }
                } else {
                    GameModePlan {
                        command: Some(ClientCommand::SetSwitch(true)),
                        snapshot: DownloadLimitSnapshot::Transmission { changed: true },
                        message: owned("检测到游戏运行，已打开 Transmission 备用限速。"),
                    }
                }
            },
            (DownloadController::Aria2(_), LimitReading::Aria2 { download, upload }) => GameModePlan {
                command: Some(ClientCommand::Aria2SetLimits { download: limit_text(d), upload: limit_text(u) }),
                snapshot: DownloadLimitSnapshot::Aria2 {
                    previous_download: download.clone(),
                    previous_upload: upload.clone(),
                },
                message: switched_to_text("检测到游戏运行，已把 aria2 全局限速切换为下载 ", d, u),
            },
            (DownloadController::UTorrent(_), LimitReading::UTorrent { download, upload }) => GameModePlan {
                command: Some(ClientCommand::UTorrentSetLimits { download: text_of_u64(d), upload: text_of_u64(u) }),
                snapshot: DownloadLimitSnapshot::UTorrent { previous_download: *download, previous_upload: *upload },
                message: switched_to_text("检测到游戏运行，已把 µTorrent/BitTorrent 全局限速切换为下载 ", d, u),
            },
            (DownloadController::Deluge(_), LimitReading::Deluge { download_bits, upload_bits, .. }) => GameModePlan {
                command: Some(ClientCommand::DelugeSetKib { download: d, upload: u }),
                snapshot: DownloadLimitSnapshot::Deluge {
                    previous_download: *download_bits,
                    previous_upload: *upload_bits,
                },
                message: switched_to_text("检测到游戏运行，已把 Deluge 全局限速切换为下载 ", d, u),
            },
            (DownloadController::BitComet(_), LimitReading::BitComet { download, upload }) => GameModePlan {
                command: Some(
                    ClientCommand::BitCometSetBytes { download: kib_to_bytes_exec(d), upload: kib_to_bytes_exec(u) },
                ),
                snapshot: DownloadLimitSnapshot::BitComet { previous_download: *download, previous_upload: *upload },
                message: switched_to_text("检测到游戏运行，已把 BitComet 全局限速切换为下载 ", d, u),
            },
            _ => {
                assert(false);
                GameModePlan {
                    command: None,
                    snapshot: DownloadLimitSnapshot::QBittorrent { changed: false },
                    message: String::new(),
                }
            },
        }
    }

    /// The plan for leaving game mode with the snapshot taken when it started: what was
    /// changed is set back, and a switch that was already on is left on.
    pub fn restore(&self, snapshot: DownloadLimitSnapshot) -> (plan: RestorePlan)
        ensures
            command_model(plan.command) == restore_command(self.kind(), snapshot.model()),
            plan.command matches Some(c) ==> c.fits(self.kind()),
            plan.message@ == restore_message(self.kind(), snapshot.model()),
    {
        match (self, snapshot) {
            (DownloadController::QBittorrent(_), DownloadLimitSnapshot::QBittorrent { changed }) => {
                if changed {
                    RestorePlan {
                        command: Some(ClientCommand::SetSwitch(false)),
                        message: owned("检测到游戏退出，已关闭 qB 备用速度限制。"),
                    }
                } else {
                    RestorePlan { command: None, message: owned("检测到游戏退出，保留原本已打开的 qB 备用速度限制。") }
                }
            },
            (DownloadController::Transmission(_), DownloadLimitSnapshot::Transmission { changed }) => {
                if changed {
                    RestorePlan {
                        command: Some(ClientCommand::SetSwitch(false)),
                        message: owned("检测到游戏退出，已关闭 Transmission 备用限速。"),
                    }
                } else {
                    RestorePlan {
                        command: None,
                        message: owned("检测到游戏退出，保留原本已打开的 Transmission 备用限速。"),
                    }
                }
            },
            (
                DownloadController::Aria2(_),
                DownloadLimitSnapshot::Aria2 { previous_download, previous_upload },
            ) => RestorePlan {
                command: Some(ClientCommand::Aria2SetLimits { download: previous_download, upload: previous_upload }),
                message: owned("检测到游戏退出，已恢复 aria2 原来的全局限速。"),
            },
            (
                DownloadController::UTorrent(_),
                DownloadLimitSnapshot::UTorrent { previous_download, previous_upload },
            ) => RestorePlan {
                command: Some(
                    ClientCommand::UTorrentSetLimits {
                        download: text_of_i64(previous_download),
                        upload: text_of_i64(previous_upload),
                    },
                ),
                message: owned("检测到游戏退出，已恢复 µTorrent/BitTorrent 原来的全局限速。"),
            },
            (
                DownloadController::Deluge(_),
                DownloadLimitSnapshot::Deluge { previous_download, previous_upload },
            ) => RestorePlan {
                command: Some(
                    ClientCommand::DelugeSetBits { download_bits: previous_download, upload_bits: previous_upload },
                ),
                message: owned("检测到游戏退出，已恢复 Deluge 原来的全局限速。"),
            },
            (
                DownloadController::BitComet(_),
                DownloadLimitSnapshot::BitComet { previous_download, previous_upload },
            ) => RestorePlan {
                command: Some(ClientCommand::BitCometSetBytes { download: previous_download, upload: previous_upload }),
                message: owned("检测到游戏退出，已恢复 BitComet 原来的全局限速。"),
            },
            _ => RestorePlan { command: None, message: owned("检测到游戏退出，当前下载器无需恢复。") },
        }
    }

    /// The report of a successful connection test, given the limits read from the client.
    pub fn test_connection(&self, current: &LimitReading, config: &AppConfig) -> (message: String)
        requires
            current.fits(self.kind()),
        ensures
            message@ == connection_message(self.kind(), *current, *config),
    {
        match (self, current) {
            (DownloadController::QBittorrent(_), LimitReading::Switch(on)) => if *on {
                owned("qB 连接成功，备用速度限制当前已开启。")
            } else {
                owned("qB 连接成功，备用速度限制当前已关闭。")
            },
            (DownloadController::Transmission(_), LimitReading::Switch(on)) => if *on {
                owned("Transmission 连接成功，备用限速当前已开启。")
            } else {
                owned("Transmission 连接成功，备用限速当前已关闭。")
            },
            (DownloadController::Aria2(_), LimitReading::Aria2 { download, upload }) => limits_report_text(
                "aria2",
                download.as_str(),
                upload.as_str(),
                config,
            ),
            (DownloadController::UTorrent(_), LimitReading::UTorrent { download, upload }) => {
                let down = format_int_limit(*download);
                let up = format_int_limit(*upload);
                limits_report_text("µTorrent/BitTorrent", down.as_str(), up.as_str(), config)
            },
            (DownloadController::Deluge(_), LimitReading::Deluge { download_text, upload_text, .. }) => {
                limits_report_text("Deluge", download_text.as_str(), upload_text.as_str(), config)
            },
            (DownloadController::BitComet(_), LimitReading::BitComet { download, upload }) => {
                let down = format_byte_limit(*download);
                let up = format_byte_limit(*upload);
                limits_report_text("BitComet", down.as_str(), up.as_str(), config)
            },
            _ => {
                assert(false);
                String::new()
            },
        }
    }
}

// ---------------------------------------------------------------------------
// Laws
// ---------------------------------------------------------------------------

/// Entering game mode puts the client's limits into the in-game state of `config`,
/// whatever they were before.
pub proof fn law_game_mode_reaches_game_limits(kind: DownloadClientKind, r: LimitReading, c: AppConfig)
    requires
        r.fits(kind),
    ensures
        apply_opt(r.model(), enable_command(kind, r, c)) == game_limits(kind, c),
{
}

/// Leaving game mode with the snapshot taken on entering it gives the client back the
/// limits it had before the game started.
pub proof fn law_restore_undoes_game_mode(kind: DownloadClientKind, r: LimitReading, c: AppConfig)
    requires
        r.fits(kind),
    ensures
        apply_opt(
            apply_opt(r.model(), enable_command(kind, r, c)),
            restore_command(kind, enable_snapshot(kind, r)),
        ) == r.model(),
{
}

/// Alternative speed limits that the user had already switched on are neither touched on
/// entering game mode nor switched off on leaving it.
pub proof fn law_user_switch_preserved(kind: DownloadClientKind, c: AppConfig)
    requires
        kind == DownloadClientKind::QBittorrent || kind == DownloadClientKind::Transmission,
    ensures
        enable_command(kind, LimitReading::Switch(true), c) is None,
        restore_command(kind, enable_snapshot(kind, LimitReading::Switch(true))) is None,
{
}

/// The connection test of a switch client reports the switch as it was read: the report
/// of `Switch(b)` ends with `当前已开启。` when `b` holds and with `当前已关闭。` when it does
/// not.
pub proof fn law_connection_report_tells_the_switch(kind: DownloadClientKind, b: bool, c: AppConfig)
    requires
        kind == DownloadClientKind::QBittorrent || kind == DownloadClientKind::Transmission,
    ensures
        ({
            let m = connection_message(kind, LimitReading::Switch(b), c);
            let suffix = if b { "当前已开启。"@ } else { "当前已关闭。"@ };
            &&& suffix.len() <= m.len()
            &&& m.subrange(m.len() - suffix.len(), m.len() as int) == suffix
        }),
{
    reveal_strlit("当前已开启。");
    reveal_strlit("当前已关闭。");
    reveal_strlit("qB 连接成功，备用速度限制当前已开启。");
    reveal_strlit("qB 连接成功，备用速度限制当前已关闭。");
    reveal_strlit("Transmission 连接成功，备用限速当前已开启。");
    reveal_strlit("Transmission 连接成功，备用限速当前已关闭。");
    let m = connection_message(kind, LimitReading::Switch(b), c);
    let suffix = if b { "当前已开启。"@ } else { "当前已关闭。"@ };
    assert(m.subrange(m.len() - suffix.len(), m.len() as int) =~= suffix);
}

} // verus!
