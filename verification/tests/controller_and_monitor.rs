use qbee_limiter::config::{AppConfig, DownloadClientKind};
use qbee_limiter::controller::{ClientCommand, DownloadController, DownloadLimitSnapshot, LimitReading};
use qbee_limiter::monitor::{same_client, ActionResult, MonitorState, TickAction};

fn config_for(kind: DownloadClientKind) -> AppConfig {
    let mut c = AppConfig::default();
    c.download_client = kind;
    c.game_download_limit_kib = 300;
    c.game_upload_limit_kib = 50;
    c
}

fn controller(kind: DownloadClientKind) -> (DownloadController, AppConfig) {
    let c = config_for(kind);
    (DownloadController::new(&c, "id-1".into()), c)
}

#[test]
fn controller_follows_the_selected_client() {
    let mut c = config_for(DownloadClientKind::UTorrent);
    c.utorrent_url = " http://127.0.0.1:8080/ ".into();
    match DownloadController::new(&c, String::new()) {
        DownloadController::UTorrent(u) => assert_eq!(u.base_url, "http://127.0.0.1:8080/gui"),
        _ => panic!("wrong client"),
    }
    c.download_client = DownloadClientKind::Deluge;
    c.deluge_url = "http://h:8112/json/".into();
    match DownloadController::new(&c, String::new()) {
        DownloadController::Deluge(d) => assert_eq!(d.url, "http://h:8112/json"),
        _ => panic!("wrong client"),
    }
    c.download_client = DownloadClientKind::BitComet;
    c.bitcomet_url = "http://h:80///".into();
    match DownloadController::new(&c, "cid".into()) {
        DownloadController::BitComet(b) => {
            assert_eq!(b.base_url, "http://h:80");
            assert_eq!(b.client_id, "cid");
        }
        _ => panic!("wrong client"),
    }
    c.download_client = DownloadClientKind::QBittorrent;
    c.qbee_url = "http://127.0.0.1:8080/".into();
    match DownloadController::new(&c, String::new()) {
        DownloadController::QBittorrent(q) => assert_eq!(q.base_url, "http://127.0.0.1:8080"),
        _ => panic!("wrong client"),
    }
}

#[test]
fn qbittorrent_switch_already_on_is_left_alone() {
    let (ctl, c) = controller(DownloadClientKind::QBittorrent);
    let plan = ctl.enable_game_mode(&LimitReading::Switch(true), &c);
    assert!(plan.command.is_none());
    assert!(matches!(plan.snapshot, DownloadLimitSnapshot::QBittorrent { changed: false }));
    assert_eq!(plan.message, "检测到游戏运行，qB 备用速度限制原本已打开。");
    let back = ctl.restore(plan.snapshot);
    assert!(back.command.is_none());
    assert_eq!(back.message, "检测到游戏退出，保留原本已打开的 qB 备用速度限制。");
}

#[test]
fn qbittorrent_switch_turned_on_is_turned_off_again() {
    let (ctl, c) = controller(DownloadClientKind::QBittorrent);
    let plan = ctl.enable_game_mode(&LimitReading::Switch(false), &c);
    assert!(matches!(plan.command, Some(ClientCommand::SetSwitch(true))));
    assert_eq!(plan.message, "检测到游戏运行，已打开 qB 备用速度限制。");
    let back = ctl.restore(plan.snapshot);
    assert!(matches!(back.command, Some(ClientCommand::SetSwitch(false))));
    assert_eq!(back.message, "检测到游戏退出，已关闭 qB 备用速度限制。");
}

#[test]
fn transmission_messages() {
    let (ctl, c) = controller(DownloadClientKind::Transmission);
    let plan = ctl.enable_game_mode(&LimitReading::Switch(false), &c);
    assert_eq!(plan.message, "检测到游戏运行，已打开 Transmission 备用限速。");
    assert!(matches!(plan.snapshot, DownloadLimitSnapshot::Transmission { changed: true }));
    let back = ctl.restore(plan.snapshot);
    assert_eq!(back.message, "检测到游戏退出，已关闭 Transmission 备用限速。");
    assert_eq!(ctl.test_connection(&LimitReading::Switch(true), &c), "Transmission 连接成功，备用限速当前已开启。");
}

#[test]
fn aria2_game_limits_and_restore() {
    let (ctl, c) = controller(DownloadClientKind::Aria2);
    let reading = LimitReading::Aria2 { download: "0".into(), upload: "1M".into() };
    let plan = ctl.enable_game_mode(&reading, &c);
    match &plan.command {
        Some(ClientCommand::Aria2SetLimits { download, upload }) => {
            assert_eq!(download, "300K");
            assert_eq!(upload, "50K");
        }
        _ => panic!("expected aria2 limits"),
    }
    assert_eq!(plan.message, "检测到游戏运行，已把 aria2 全局限速切换为下载 300K / 上传 50K。");
    let back = ctl.restore(plan.snapshot);
    match back.command {
        Some(ClientCommand::Aria2SetLimits { download, upload }) => {
            assert_eq!(download, "0");
            assert_eq!(upload, "1M");
        }
        _ => panic!("expected aria2 limits"),
    }
    assert_eq!(back.message, "检测到游戏退出，已恢复 aria2 原来的全局限速。");
    assert_eq!(
        ctl.test_connection(&reading, &c),
        "aria2 连接成功，当前全局限速：下载 0，上传 1M。游戏中将切换为 300K / 50K。"
    );
}

#[test]
fn utorrent_game_limits_and_restore() {
    let (ctl, c) = controller(DownloadClientKind::UTorrent);
    let reading = LimitReading::UTorrent { download: -1, upload: 20 };
    let plan = ctl.enable_game_mode(&reading, &c);
    match &plan.command {
        Some(ClientCommand::UTorrentSetLimits { download, upload }) => {
            assert_eq!(download, "300");
            assert_eq!(upload, "50");
        }
        _ => panic!(),
    }
    let back = ctl.restore(plan.snapshot);
    match back.command {
        Some(ClientCommand::UTorrentSetLimits { download, upload }) => {
            assert_eq!(download, "-1");
            assert_eq!(upload, "20");
        }
        _ => panic!(),
    }
    assert_eq!(
        ctl.test_connection(&reading, &c),
        "µTorrent/BitTorrent 连接成功，当前全局限速：下载 不限速，上传 20K。游戏中将切换为 300K / 50K。"
    );
}

#[test]
fn deluge_restores_the_exact_float_bits() {
    let (ctl, c) = controller(DownloadClientKind::Deluge);
    let reading = LimitReading::Deluge {
        download_bits: (-1.0f64).to_bits(),
        upload_bits: 12.5f64.to_bits(),
        download_text: "不限速".into(),
        upload_text: "12K".into(),
    };
    let plan = ctl.enable_game_mode(&reading, &c);
    assert!(matches!(plan.command, Some(ClientCommand::DelugeSetKib { download: 300, upload: 50 })));
    assert_eq!(plan.message, "检测到游戏运行，已把 Deluge 全局限速切换为下载 300K / 上传 50K。");
    let back = ctl.restore(plan.snapshot);
    match back.command {
        Some(ClientCommand::DelugeSetBits { download_bits, upload_bits }) => {
            assert_eq!(f64::from_bits(download_bits), -1.0);
            assert_eq!(f64::from_bits(upload_bits), 12.5);
        }
        _ => panic!(),
    }
}

#[test]
fn bitcomet_limits_in_bytes() {
    let (ctl, mut c) = controller(DownloadClientKind::BitComet);
    let reading = LimitReading::BitComet { download: 0, upload: 2 * 1024 * 1024 };
    let plan = ctl.enable_game_mode(&reading, &c);
    assert!(matches!(plan.command, Some(ClientCommand::BitCometSetBytes { download: 307200, upload: 51200 })));
    let back = ctl.restore(plan.snapshot);
    assert!(matches!(back.command, Some(ClientCommand::BitCometSetBytes { download: 0, upload: 2097152 })));
    assert_eq!(back.message, "检测到游戏退出，已恢复 BitComet 原来的全局限速。");
    assert_eq!(
        ctl.test_connection(&reading, &c),
        "BitComet 连接成功，当前全局限速：下载 不限速，上传 2M。游戏中将切换为 300K / 50K。"
    );
    c.game_download_limit_kib = u64::MAX;
    let plan = ctl.enable_game_mode(&reading, &c);
    assert!(matches!(plan.command, Some(ClientCommand::BitCometSetBytes { download: u64::MAX, .. })));
}

#[test]
fn mismatched_snapshot_needs_no_restore() {
    let (ctl, _) = controller(DownloadClientKind::Aria2);
    let back = ctl.restore(DownloadLimitSnapshot::QBittorrent { changed: true });
    assert!(back.command.is_none());
    assert_eq!(back.message, "检测到游戏退出，当前下载器无需恢复。");
}

#[test]
fn reading_must_fit_the_client() {
    let (ctl, _) = controller(DownloadClientKind::Aria2);
    assert!(!LimitReading::Switch(true).fits_controller(&ctl));
    assert!(LimitReading::Aria2 { download: "0".into(), upload: "0".into() }.fits_controller(&ctl));
}

fn enabled(message: &str) -> ActionResult {
    ActionResult::Enabled {
        snapshot: DownloadLimitSnapshot::QBittorrent { changed: true },
        message: message.into(),
    }
}

#[test]
fn monitor_acts_only_on_transitions() {
    let mut m = MonitorState::new();
    // First check, no game.
    let a = m.begin_tick("");
    assert!(matches!(a, TickAction::NoGameAtStart));
    let r = m.finish_tick(String::new(), a, ActionResult::NotRun);
    assert_eq!(r.message, "未检测到游戏运行。");
    assert!(!r.failed);
    // Still no game: nothing to do.
    let a = m.begin_tick("");
    assert!(matches!(a, TickAction::Nothing));
    let r = m.finish_tick(String::new(), a, ActionResult::NotRun);
    assert_eq!(r.message, "未检测到游戏运行。");
    // A game starts.
    let a = m.begin_tick("game.exe");
    assert!(matches!(a, TickAction::EnableGameMode));
    let r = m.finish_tick("game.exe".into(), a, enabled("on"));
    assert_eq!(r.message, "on");
    assert!(m.active_limit.is_some());
    // It keeps running.
    let a = m.begin_tick("game.exe");
    assert!(matches!(a, TickAction::Nothing));
    let r = m.finish_tick("game.exe".into(), a, ActionResult::NotRun);
    assert_eq!(r.message, "检测到游戏运行。");
    // It exits: the snapshot is handed over.
    let a = m.begin_tick("");
    assert!(matches!(a, TickAction::Restore(DownloadLimitSnapshot::QBittorrent { changed: true })));
    assert!(m.active_limit.is_none());
    let r = m.finish_tick(String::new(), a, ActionResult::Restored { message: "off".into() });
    assert_eq!(r.message, "off");
}

#[test]
fn monitor_reports_failures_and_unrestorable_exits() {
    let mut m = MonitorState::new();
    let a = m.begin_tick("g");
    let r = m.finish_tick("g".into(), a, ActionResult::Failed { error: "boom".into() });
    assert_eq!(r.message, "监控出错：boom");
    assert!(r.failed);
    assert!(m.had_state && m.last_game_running);
    let a = m.begin_tick("");
    assert!(matches!(a, TickAction::NothingToRestore));
    let r = m.finish_tick(String::new(), a, ActionResult::NotRun);
    assert_eq!(r.message, "检测到游戏退出，当前下载器无需恢复。");
}

#[test]
fn shutdown_restores_only_when_asked() {
    let mut m = MonitorState::new();
    let a = m.begin_tick("g");
    m.finish_tick("g".into(), a, enabled("on"));
    assert!(m.shutdown(false).is_none());
    assert!(m.active_limit.is_some());
    assert!(m.shutdown(true).is_some());
    assert!(m.active_limit.is_none());
}

#[test]
fn settings_change_for_the_same_client_keeps_the_snapshot() {
    let mut m = MonitorState::new();
    let a = m.begin_tick("g");
    m.finish_tick("g".into(), a, enabled("on"));
    assert!(m.reload(true).is_none());
    assert!(m.active_limit.is_some());
    let a = m.begin_tick("");
    assert!(matches!(a, TickAction::Restore(DownloadLimitSnapshot::QBittorrent { changed: true })));
}

#[test]
fn settings_change_to_another_client_hands_the_snapshot_over() {
    let mut m = MonitorState::new();
    let a = m.begin_tick("g");
    m.finish_tick("g".into(), a, enabled("on"));
    assert!(matches!(m.reload(false), Some(DownloadLimitSnapshot::QBittorrent { changed: true })));
    assert!(m.active_limit.is_none());
    let a = m.begin_tick("g");
    assert!(matches!(a, TickAction::EnableGameMode));
}

#[test]
fn monitor_over_a_whole_run() {
    // Detected per check, and whether entering game mode succeeds when it is asked for.
    let checks: [(&str, bool); 9] = [
        ("g", true),
        ("g", true),
        ("", true),
        ("", true),
        ("g", false),
        ("", true),
        ("g", true),
        ("g", true),
        ("", true),
    ];
    let mut m = MonitorState::new();
    let mut enables = Vec::new();
    let mut restores = Vec::new();
    for (i, (detected, succeeds)) in checks.iter().enumerate() {
        let a = m.begin_tick(detected);
        let result = match a {
            TickAction::EnableGameMode => {
                enables.push(i);
                if *succeeds {
                    ActionResult::Enabled {
                        snapshot: DownloadLimitSnapshot::Aria2 { previous_download: format!("{i}"), previous_upload: "0".into() },
                        message: "on".into(),
                    }
                } else {
                    ActionResult::Failed { error: "down".into() }
                }
            },
            TickAction::Restore(ref s) => {
                match s {
                    DownloadLimitSnapshot::Aria2 { previous_download, .. } => restores.push((i, previous_download.clone())),
                    _ => panic!("unexpected snapshot"),
                }
                ActionResult::Restored { message: "off".into() }
            },
            _ => ActionResult::NotRun,
        };
        m.finish_tick(detected.to_string(), a, result);
    }
    // Game mode at each start of a game; a restore at each exit after a successful start,
    // with the snapshot of that start.
    assert_eq!(enables, vec![0, 4, 6]);
    assert_eq!(restores, vec![(2, "0".to_string()), (8, "6".to_string())]);
}

#[test]
fn same_client_means_same_kind_address_and_credentials() {
    let a = config_for(DownloadClientKind::Aria2);
    let mut b = config_for(DownloadClientKind::Aria2);
    b.game_download_limit_kib = 1;
    b.qbee_url = "http://elsewhere".into();
    b.username = "someone".into();
    assert!(same_client(&a, &b));
    b.aria2_secret = "s3cret".into();
    assert!(!same_client(&a, &b));
    let mut c = config_for(DownloadClientKind::Aria2);
    c.aria2_url = "http://127.0.0.1:6801/jsonrpc".into();
    assert!(!same_client(&a, &c));
    let q = config_for(DownloadClientKind::QBittorrent);
    assert!(!same_client(&a, &q));
    let mut q2 = config_for(DownloadClientKind::QBittorrent);
    q2.password = "other".into();
    assert!(!same_client(&q, &q2));
    let mut d = config_for(DownloadClientKind::Deluge);
    let mut d2 = config_for(DownloadClientKind::Deluge);
    d.username = "x".into();
    d2.username = "y".into();
    assert!(same_client(&d, &d2));
}
