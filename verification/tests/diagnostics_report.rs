use qbee_limiter::config::{AppConfig, DownloadClientKind};
use qbee_limiter::diagnostics::{run_diagnostics, DiagnosticFacts};

fn facts(folder_exists: Vec<bool>) -> DiagnosticFacts {
    DiagnosticFacts {
        app_dir: "C:\\Tools".into(),
        monitor_exe_exists: true,
        monitor_exe_path: "C:\\Tools\\download_limiter_monitor.exe".into(),
        config_exists: false,
        folder_exists,
        status_running: true,
        status_updated_at: 1000,
        now: 1010,
    }
}

fn lines(config: &AppConfig, f: &DiagnosticFacts) -> Vec<(String, String, String)> {
    run_diagnostics(config, f).into_iter().map(|d| (d.level, d.title, d.message)).collect()
}

#[test]
fn report_for_default_settings() {
    let c = AppConfig::default();
    let got = lines(&c, &facts(vec![true, false]));
    let want: Vec<(String, String, String)> = vec![
        ("ok", "程序目录", "当前程序目录：C:\\Tools"),
        ("ok", "后台监控程序", "已找到 download_limiter_monitor.exe。"),
        ("warn", "配置文件未创建", "保存配置后会自动创建 download_client_game_speed_limiter.json。"),
        ("ok", "qB Web UI 地址", "http://127.0.0.1:8080"),
        ("ok", "游戏库目录", "已添加 2 个目录，其中 1 个存在。"),
        ("ok", "后台监控状态", "后台监控正在运行。"),
        ("info", "开机自启动", "未启用。需要长期使用时建议打开。"),
    ]
    .into_iter()
    .map(|(a, b, c)| (a.to_string(), b.to_string(), c.to_string()))
    .collect();
    assert_eq!(got, want);
}

#[test]
fn report_flags_bad_url_zero_limit_missing_folders_and_stale_status() {
    let mut c = AppConfig::default();
    c.download_client = DownloadClientKind::Aria2;
    c.aria2_url = "localhost:6800".into();
    c.game_upload_limit_kib = 0;
    c.game_folders = vec!["  ".into(), "D:\\Games".into()];
    c.start_with_windows = true;
    let mut f = facts(vec![true, false]);
    f.monitor_exe_exists = false;
    f.config_exists = true;
    f.now = 1000 + 5 * 4 + 10 + 1;
    let got = lines(&c, &f);
    assert_eq!(got[1].0, "error");
    assert_eq!(got[1].1, "后台监控程序缺失");
    assert_eq!(got[1].2, "没有找到：C:\\Tools\\download_limiter_monitor.exe。请把两个 exe 放在同一文件夹。");
    assert_eq!(got[2].1, "配置文件");
    assert_eq!(got[3], ("error".into(), "aria2 JSON-RPC 地址".into(), "地址应以 http:// 或 https:// 开头。".into()));
    assert_eq!(got[4], ("warn".into(), "游戏中限速值".into(), "下载/上传限速建议大于 0 KiB/s。".into()));
    assert_eq!(got[5].0, "warn");
    assert_eq!(got[5].2, "已添加目录，但当前没有一个路径存在。请检查盘符和目录层级。Steam 建议添加 steamapps。");
    assert_eq!(got[6].2, "状态文件较久没有更新，后台监控可能卡住或已经退出。");
    assert_eq!(got[7], ("ok".into(), "开机自启动".into(), "配置已勾选开机启动；保存后会写入当前用户启动项。".into()));
}

#[test]
fn report_game_limits_and_no_folders() {
    let mut c = AppConfig::default();
    c.download_client = DownloadClientKind::BitComet;
    c.bitcomet_url = "  https://h  ".into();
    c.game_folders = vec![];
    let mut f = facts(vec![]);
    f.status_running = false;
    let got = lines(&c, &f);
    assert_eq!(got[3], ("ok".into(), "BitComet WebUI 地址".into(), "https://h".into()));
    assert_eq!(got[4].2, "游戏中会切换为下载 512 KiB/s、上传 128 KiB/s。");
    assert_eq!(got[5].2, "还没有添加游戏库目录。请先自动扫描或手动添加。");
    assert_eq!(got[6].2, "后台监控未运行。点击“启动监控”或勾选保存后自动启动。");
}
