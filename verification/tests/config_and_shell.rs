use qbee_limiter::config::{load_config_from, log_file_name, AppConfig, DownloadClientKind, MonitorStatus};
use qbee_limiter::shell::{monitor_answered, poll_step, PollStep, MONITOR_START_POLLS, shortcut_content, startup_command, missing_config_program, missing_monitor_program};

#[test]
fn default_settings() {
    let c = AppConfig::default();
    assert_eq!(c.download_client, DownloadClientKind::QBittorrent);
    assert_eq!(c.qbee_url, "http://127.0.0.1:8080");
    assert_eq!(c.transmission_url, "http://127.0.0.1:9091/transmission/rpc");
    assert_eq!(c.aria2_url, "http://127.0.0.1:6800/jsonrpc");
    assert_eq!(c.utorrent_url, "http://127.0.0.1:8080/gui");
    assert_eq!(c.deluge_url, "http://127.0.0.1:8112/json");
    assert_eq!(c.bitcomet_url, "http://127.0.0.1:80");
    assert_eq!(c.username, "admin");
    assert_eq!(c.game_download_limit_kib, 512);
    assert_eq!(c.game_upload_limit_kib, 128);
    assert_eq!(c.game_folders, vec!["C:\\Program Files (x86)\\Steam\\steamapps", "D:\\SteamLibrary\\steamapps"]);
    assert!(c.game_processes.is_empty());
    assert_eq!(c.exclude_processes.len(), 10);
    assert_eq!(c.exclude_processes[0], "steam.exe");
    assert_eq!(c.exclude_path_keywords[3], "\\_commonredist\\");
    assert_eq!(c.exclude_steam_app_keywords.len(), 14);
    assert_eq!(c.check_interval_seconds, 5);
    assert!(c.restore_on_exit);
    assert!(!c.start_with_windows);
    assert!(c.auto_start_monitor);
    assert_eq!(c.log_file, "download_client_game_speed_limiter.log");
}

#[test]
fn loading_repairs_blank_urls_and_zero_interval() {
    let mut stored = AppConfig::default();
    stored.qbee_url = "   ".into();
    stored.deluge_url = String::new();
    stored.aria2_url = "http://nas:6800/jsonrpc".into();
    stored.check_interval_seconds = 0;
    stored.username = "me".into();
    let loaded = load_config_from(Some(stored));
    assert!(!loaded.write_defaults);
    assert_eq!(loaded.config.qbee_url, "http://127.0.0.1:8080");
    assert_eq!(loaded.config.deluge_url, "http://127.0.0.1:8112/json");
    assert_eq!(loaded.config.aria2_url, "http://nas:6800/jsonrpc");
    assert_eq!(loaded.config.check_interval_seconds, 5);
    assert_eq!(loaded.config.username, "me");
}

#[test]
fn loading_nothing_gives_defaults_to_write_back() {
    let loaded = load_config_from(None);
    assert!(loaded.write_defaults);
    assert_eq!(loaded.config.qbee_url, "http://127.0.0.1:8080");
    assert_eq!(loaded.config.check_interval_seconds, 5);
}

#[test]
fn log_file_falls_back_to_default_name() {
    let mut c = AppConfig::default();
    assert_eq!(log_file_name(&c), "download_client_game_speed_limiter.log");
    c.log_file = String::new();
    assert_eq!(log_file_name(&c), "download_client_game_speed_limiter.log");
    c.log_file = "x.log".into();
    assert_eq!(log_file_name(&c), "x.log");
}

#[test]
fn monitor_status_default_is_stopped() {
    let s = MonitorStatus::default();
    assert!(!s.running);
    assert!(!s.game_running);
    assert!(s.detected.is_empty());
}

#[test]
fn shortcut_file_text() {
    assert_eq!(
        shortcut_content("C:\\Tools\\download_limiter_config.exe"),
        "[InternetShortcut]\r\nURL=file:///C:/Tools/download_limiter_config.exe\r\nIconFile=C:\\Tools\\download_limiter_config.exe\r\nIconIndex=0\r\n"
    );
    assert_eq!(startup_command("C:\\a b\\m.exe"), "\"C:\\a b\\m.exe\"");
    assert_eq!(missing_config_program("X"), "找不到配置程序：X");
    assert_eq!(missing_monitor_program("Y"), "找不到后台监控程序：Y");
}

#[test]
fn started_monitor_answers_with_fresh_running_status() {
    let mut s = MonitorStatus::default();
    s.running = true;
    s.updated_at = 100;
    assert!(monitor_answered(&s, 100));
    assert!(!monitor_answered(&s, 101));
    s.running = false;
    assert!(!monitor_answered(&s, 50));
}

#[test]
fn started_monitor_is_polled_a_fixed_number_of_times() {
    let mut s = MonitorStatus::default();
    s.running = true;
    s.updated_at = 10;
    // A fresh running status ends the wait at any read.
    assert_eq!(poll_step(0, &s, 10), PollStep::Started);
    assert_eq!(poll_step(24, &s, 10), PollStep::Started);
    // Without an answer: wait until the last of the reads, then give up.
    assert_eq!(poll_step(0, &s, 11), PollStep::Wait);
    assert_eq!(poll_step(23, &s, 11), PollStep::Wait);
    assert_eq!(poll_step(24, &s, 11), PollStep::GiveUp);
    let mut reads = 0;
    let mut attempt = 0;
    loop {
        reads += 1;
        match poll_step(attempt, &s, 11) {
            PollStep::Wait => attempt += 1,
            step => {
                assert_eq!(step, PollStep::GiveUp);
                break;
            }
        }
    }
    assert_eq!(reads, MONITOR_START_POLLS);
}
