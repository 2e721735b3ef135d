use qbee_limiter::legacy::{
    button_style, color, command_of, detected_label, legacy_error_texts, legacy_exit_message, legacy_log_file_name,
    legacy_start_message, legacy_test_status, load_legacy_config_from, merge_scanned, parse_interval, rgb,
    save_ui_input, scan_done_message, ButtonStyle, LegacyAction, LegacyConfig, LegacyMonitor, UiColor, UiCommand,
    UiInput, UiInputError, ID_SAVE, ID_START, ID_TEST, ID_STOP, legacy_login_error, legacy_library_relative_folders,
    status_line_text,
};
use qbee_limiter::config::DownloadClientKind;

fn input(url: &str, folders: Vec<&str>) -> UiInput {
    UiInput {
        url: url.into(),
        username: "admin".into(),
        password: "pw".into(),
        interval: "10".into(),
        start_with_windows: true,
        auto_start_monitor: true,
        folders: folders.into_iter().map(String::from).collect(),
    }
}

#[test]
fn legacy_defaults_and_loading() {
    let c = LegacyConfig::default();
    assert_eq!(c.qbee_url, "http://127.0.0.1:8080");
    assert!(!c.auto_start_monitor);
    assert_eq!(c.log_file, "qbee_game_speed_limiter.log");
    assert_eq!(c.exclude_processes.len(), 10);
    let (d, write) = load_legacy_config_from(None);
    assert!(write);
    assert_eq!(d.check_interval_seconds, 5);
    let mut stored = LegacyConfig::default();
    stored.qbee_url = " ".into();
    stored.check_interval_seconds = 0;
    stored.password = "x".into();
    let (r, write) = load_legacy_config_from(Some(stored));
    assert!(!write);
    assert_eq!(r.qbee_url, "http://127.0.0.1:8080");
    assert_eq!(r.check_interval_seconds, 5);
    assert_eq!(r.password, "x");
    let mut c = LegacyConfig::default();
    c.log_file = String::new();
    assert_eq!(legacy_log_file_name(&c), "qbee_game_speed_limiter.log");
}

#[test]
fn saving_the_window_checks_url_then_folders() {
    let mut c = LegacyConfig::default();
    assert_eq!(save_ui_input(&mut c, input("ftp://x", vec![])), Err(UiInputError::BadUrl));
    assert_eq!(save_ui_input(&mut c, input(" http://nas:8080 ", vec![])), Err(UiInputError::NoFolders));
    assert_eq!(c.qbee_url, "http://127.0.0.1:8080");
    assert_eq!(UiInputError::BadUrl.message(), "请输入有效的 qB Web UI 地址。");
    assert_eq!(UiInputError::NoFolders.message(), "请至少添加一个游戏库文件夹，或点击“自动扫描”。");
    assert_eq!(save_ui_input(&mut c, input(" https://nas:8080 ", vec!["D:\\Games"])), Ok(()));
    assert_eq!(c.qbee_url, "https://nas:8080");
    assert_eq!(c.check_interval_seconds, 10);
    assert_eq!(c.game_folders, vec!["D:\\Games"]);
    assert!(c.start_with_windows && c.auto_start_monitor);
    assert_eq!(c.password, "pw");
}

#[test]
fn interval_text() {
    assert_eq!(parse_interval("7"), 7);
    assert_eq!(parse_interval("0"), 1);
    assert_eq!(parse_interval(""), 5);
    assert_eq!(parse_interval("abc"), 5);
    assert_eq!(parse_interval(" 3"), 5);
}

#[test]
fn legacy_monitor_keeps_a_switch_the_user_turned_on() {
    let mut m = LegacyMonitor::new();
    assert!(m.observe("game.exe"));
    assert!(!m.observe("game.exe"));
    assert_eq!(m.action(true), LegacyAction::CheckThenEnable);
    // The switch was already on.
    m.finish(true, true);
    assert_eq!(legacy_start_message(true), "检测到游戏运行，备用速度限制原本已打开。");
    assert_eq!(m.action(true), LegacyAction::NoChange);
    assert!(!m.off_on_stop(true));
    assert_eq!(m.action(false), LegacyAction::LeaveOn);
    m.finish(false, false);
    assert_eq!(legacy_exit_message(false), "检测到游戏退出，保留原本已打开的备用速度限制。");
}

#[test]
fn legacy_monitor_turns_off_what_it_turned_on() {
    let mut m = LegacyMonitor::new();
    assert_eq!(m.action(false), LegacyAction::Settle);
    m.finish(false, false);
    assert_eq!(m.action(false), LegacyAction::NoChange);
    assert_eq!(m.action(true), LegacyAction::CheckThenEnable);
    m.finish(true, false);
    assert_eq!(legacy_start_message(false), "检测到游戏运行，已打开备用速度限制。");
    assert!(m.off_on_stop(true));
    assert!(!m.off_on_stop(false));
    assert_eq!(m.action(false), LegacyAction::TurnOff);
    m.finish(false, false);
    assert!(!m.off_on_stop(true));
    assert_eq!(legacy_exit_message(true), "检测到游戏退出，已关闭备用速度限制。");
}

#[test]
fn legacy_texts() {
    assert_eq!(legacy_error_texts("timeout"), ("监控出错：timeout".to_string(), "Monitor error: timeout".to_string()));
    assert_eq!(legacy_test_status(Ok(true)), "连接成功，备用速度限制当前已打开。");
    assert_eq!(legacy_test_status(Ok(false)), "连接成功，备用速度限制当前已关闭。");
    assert_eq!(legacy_test_status(Err("refused".into())), "连接失败：refused");
    assert_eq!(detected_label(""), "当前检测到：无");
    assert_eq!(detected_label("C:\\g.exe"), "当前检测到：C:\\g.exe");
    assert_eq!(scan_done_message(3), "自动扫描完成，新增 3 个游戏库。");
}

#[test]
fn scanned_folders_are_merged_case_insensitively() {
    let listed = vec!["D:\\SteamLibrary\\steamapps".to_string()];
    let found = vec![
        "d:\\steamlibrary\\STEAMAPPS".to_string(),
        "E:\\Games".to_string(),
        "e:\\games".to_string(),
        "F:\\Epic Games".to_string(),
    ];
    assert_eq!(merge_scanned(&listed, &found), vec!["E:\\Games", "F:\\Epic Games"]);
    assert!(merge_scanned(&listed, &vec![]).is_empty());
}

#[test]
fn window_controls() {
    assert_eq!(command_of(ID_TEST), UiCommand::Test);
    assert_eq!(command_of(ID_SAVE), UiCommand::Save);
    assert_eq!(command_of(ID_STOP), UiCommand::Stop);
    assert_eq!(command_of(1007), UiCommand::Other);
    assert_eq!(rgb(8, 10, 15), 0x000F0A08);
    assert_eq!(rgb(255, 255, 255), 0x00FFFFFF);
    assert_eq!(color(UiColor::Primary), 99 | (102 << 8) | (241 << 16));
    assert_eq!(
        button_style(ID_START, false, true, false),
        ButtonStyle { fill: UiColor::Primary, border: UiColor::PrimaryHot, text: UiColor::White }
    );
    assert_eq!(
        button_style(ID_SAVE, false, true, false),
        ButtonStyle { fill: UiColor::Button, border: UiColor::Border, text: UiColor::Text }
    );
    assert_eq!(
        button_style(ID_TEST, true, false, true),
        ButtonStyle { fill: UiColor::ButtonDisabled, border: UiColor::PrimaryHot, text: UiColor::Muted }
    );
}

#[test]
fn legacy_settings_drive_qbittorrent_and_detection() {
    let mut c = LegacyConfig::default();
    c.qbee_url = "http://nas:8080".into();
    c.game_processes = vec!["a.exe".into()];
    c.check_interval_seconds = 9;
    let a = c.as_app_config();
    assert_eq!(a.download_client, DownloadClientKind::QBittorrent);
    assert_eq!(a.qbee_url, "http://nas:8080");
    assert_eq!(a.game_processes, vec!["a.exe"]);
    assert_eq!(a.check_interval_seconds, 9);
    assert!(!a.auto_start_monitor);
    assert_eq!(a.log_file, "qbee_game_speed_limiter.log");
}

#[test]
fn legacy_login_failure_names_qbee() {
    assert_eq!(
        legacy_login_error("qB 登录失败，请检查 Web UI 用户名和密码。".into()),
        "qbee 登录失败，请检查 Web UI 用户名和密码。"
    );
    assert_eq!(legacy_login_error("timeout".into()), "timeout");
    assert_eq!(status_line_text("已保存"), "状态：已保存");
    assert_eq!(
        legacy_library_relative_folders(),
        vec!["SteamLibrary\\steamapps", "Games", "Epic Games", "GOG Games", "WeGameApps", "XboxGames"]
    );
}
