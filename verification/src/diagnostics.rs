//! The configuration self-check: what it reports for given settings and for the facts
//! about the machine (files present, monitor status) that were gathered for it.
use vstd::prelude::*;
use crate::config::{AppConfig, DiagnosticItem, DownloadClientKind, owned};
use crate::text::{decimal, starts_with, trim, chars_of, extend_str, string_of, trim_str, starts_with_exec, push_decimal};

verus! {

/// Facts about the machine that the self-check reports on. `folder_exists[i]` tells
/// whether `config.game_folders[i]` is an existing directory.
pub struct DiagnosticFacts {
    pub app_dir: String,
    pub monitor_exe_exists: bool,
    pub monitor_exe_path: String,
    pub config_exists: bool,
    pub folder_exists: Vec<bool>,
    pub status_running: bool,
    pub status_updated_at: u64,
    pub now: u64,
}

pub type DiagLine = (Seq<char>, Seq<char>, Seq<char>);

pub open spec fn line(level: Seq<char>, title: Seq<char>, message: Seq<char>) -> DiagLine {
    (level, title, message)
}

pub open spec fn items_view(items: Seq<DiagnosticItem>) -> Seq<DiagLine> {
    items.map_values(|d: DiagnosticItem| d.view_triple())
}

/// The report line on a URL: accepted when, trimmed, it starts with `http://` or `https://`.
pub open spec fn url_line(title: Seq<char>, value: Seq<char>) -> DiagLine {
    let t = trim(value);
    if starts_with(t, "http://"@) || starts_with(t, "https://"@) {
        line("ok"@, title, t)
    } else {
        line("error"@, title, "地址应以 http:// 或 https:// 开头。"@)
    }
}

/// The report line on the in-game limits.
pub open spec fn game_limit_line(download: u64, upload: u64) -> DiagLine {
    if download == 0 || upload == 0 {
        line("warn"@, "游戏中限速值"@, "下载/上传限速建议大于 0 KiB/s。"@)
    } else {
        line(
            "ok"@,
            "游戏中限速值"@,
            "游戏中会切换为下载 "@ + decimal(download as nat) + " KiB/s、上传 "@ + decimal(upload as nat)
                + " KiB/s。"@,
        )
    }
}

/// The report lines on the selected download client.
pub open spec fn client_lines(c: AppConfig) -> Seq<DiagLine> {
    let limits = game_limit_line(c.game_download_limit_kib, c.game_upload_limit_kib);
    match c.download_client {
        DownloadClientKind::QBittorrent => seq![url_line("qB Web UI 地址"@, c.qbee_url@)],
        DownloadClientKind::Transmission => seq![url_line("Transmission RPC 地址"@, c.transmission_url@)],
        DownloadClientKind::Aria2 => seq![url_line("aria2 JSON-RPC 地址"@, c.aria2_url@), limits],
        DownloadClientKind::UTorrent => seq![url_line("µTorrent/BitTorrent Web UI 地址"@, c.utorrent_url@), limits],
        DownloadClientKind::Deluge => seq![url_line("Deluge Web JSON 地址"@, c.deluge_url@), limits],
        DownloadClientKind::BitComet => seq![url_line("BitComet WebUI 地址"@, c.bitcomet_url@), limits],
    }
}

/// How many of the folders are not blank.
pub open spec fn nonblank_count(fs: Seq<Seq<char>>) -> nat
    decreases fs.len(),
{
    if fs.len() == 0 {
        0
    } else {
        nonblank_count(fs.drop_last()) + if trim(fs.last()).len() > 0 { 1nat } else { 0nat }
    }
}

/// How many of the folders are not blank and exist.
pub open spec fn existing_count(fs: Seq<Seq<char>>, exists: Seq<bool>) -> nat
    decreases fs.len(),
{
    if fs.len() == 0 {
        0
    } else {
        existing_count(fs.drop_last(), exists) + if trim(fs.last()).len() > 0 && fs.len() - 1
            < exists.len() && exists[fs.len() - 1] {
            1nat
        } else {
            0nat
        }
    }
}

/// The report line on the game library folders.
pub open spec fn folder_line(fs: Seq<Seq<char>>, exists: Seq<bool>) -> DiagLine {
    let total = nonblank_count(fs);
    let existing = existing_count(fs, exists);
    if total == 0 {
        line("warn"@, "游戏库目录"@, "还没有添加游戏库目录。请先自动扫描或手动添加。"@)
    } else if existing == 0 {
        line(
            "warn"@,
            "游戏库目录"@,
            "已添加目录，但当前没有一个路径存在。请检查盘符和目录层级。Steam 建议添加 steamapps。"@,
        )
    } else {
        line("ok"@, "游戏库目录"@, "已添加 "@ + decimal(total) + " 个目录，其中 "@ + decimal(existing) + " 个存在。"@)
    }
}

/// The age after which a running monitor's status counts as stale: four check intervals
/// (at least one second each) and ten seconds, computed in wrapping `u64` arithmetic.
pub open spec fn stale_after(interval: u64) -> u64 {
    let i: u64 = if interval == 0 { 1 } else { interval };
    vstd::wrapping::u64_specs::wrapping_add(vstd::wrapping::u64_specs::wrapping_mul(i, 4), 10)
}

/// The report line on the monitor's status.
pub open spec fn status_line(interval: u64, running: bool, updated_at: u64, now: u64) -> DiagLine {
    let age: int = if now >= updated_at { now - updated_at } else { 0 };
    if running {
        if age > stale_after(interval) {
            line("warn"@, "后台监控状态"@, "状态文件较久没有更新，后台监控可能卡住或已经退出。"@)
        } else {
            line("ok"@, "后台监控状态"@, "后台监控正在运行。"@)
        }
    } else {
        line("warn"@, "后台监控状态"@, "后台监控未运行。点击“启动监控”或勾选保存后自动启动。"@)
    }
}

/// The first lines of the report: program directory, monitor program, configuration file.
pub open spec fn diagnostics_head(f: DiagnosticFacts) -> Seq<DiagLine> {
    seq![line("ok"@, "程序目录"@, "当前程序目录："@ + f.app_dir@)] + seq![
        if f.monitor_exe_exists {
            line("ok"@, "后台监控程序"@, "已找到 download_limiter_monitor.exe。"@)
        } else {
            line(
                "error"@,
                "后台监控程序缺失"@,
                "没有找到："@ + f.monitor_exe_path@ + "。请把两个 exe 放在同一文件夹。"@,
            )
        },
    ] + seq![
        if f.config_exists {
            line("ok"@, "配置文件"@, "已找到 download_client_game_speed_limiter.json。"@)
        } else {
            line("warn"@, "配置文件未创建"@, "保存配置后会自动创建 download_client_game_speed_limiter.json。"@)
        },
    ]
}

/// The whole report, in order.
pub open spec fn diagnostics(c: AppConfig, f: DiagnosticFacts) -> Seq<DiagLine> {
    diagnostics_head(f) + client_lines(c) + seq![
        folder_line(c.game_folders.deep_view(), f.folder_exists@),
        status_line(c.check_interval_seconds, f.status_running, f.status_updated_at, f.now),
        if c.start_with_windows {
            line("ok"@, "开机自启动"@, "配置已勾选开机启动；保存后会写入当前用户启动项。"@)
        } else {
            line("info"@, "开机自启动"@, "未启用。需要长期使用时建议打开。"@)
        },
    ]
}

/// Adds one line to the report.
pub fn push_diag(items: &mut Vec<DiagnosticItem>, level: &str, title: &str, message: &str)
    ensures
        items_view(final(items)@) == items_view(old(items)@).push(line(level@, title@, message@)),
{
    let ghost before = items@;
    items.push(DiagnosticItem { level: owned(level), title: owned(title), message: owned(message) });
    assert(items_view(items@) =~= items_view(before).push(line(level@, title@, message@)));
}

/// Concatenation of string pieces.
fn join2(a: &str, b: &str) -> (r: String)
    ensures
        r@ == a@ + b@,
{
    let mut v = chars_of(a);
    extend_str(&mut v, b);
    string_of(&v)
}

fn join3(a: &str, b: &str, c: &str) -> (r: String)
    ensures
        r@ == a@ + b@ + c@,
{
    let mut v = chars_of(a);
    extend_str(&mut v, b);
    extend_str(&mut v, c);
    string_of(&v)
}

/// `a + decimal(x) + b + decimal(y) + c`.
fn two_numbers(a: &str, x: u64, b: &str, y: u64, c: &str) -> (r: String)
    ensures
        r@ == a@ + decimal(x as nat) + b@ + decimal(y as nat) + c@,
{
    let mut v = chars_of(a);
    push_decimal(&mut v, x);
    extend_str(&mut v, b);
    push_decimal(&mut v, y);
    extend_str(&mut v, c);
    string_of(&v)
}

/// Adds the line on a URL.
pub fn check_url(items: &mut Vec<DiagnosticItem>, title: &str, value: &str)
    ensures
        items_view(final(items)@) == items_view(old(items)@).push(url_line(title@, value@)),
{
    let trimmed = trim_str(value);
    let tv = chars_of(trimmed.as_str());
    let http = chars_of("http://");
    let https = chars_of("https://");
    if starts_with_exec(&tv, &http) || starts_with_exec(&tv, &https) {
        push_diag(items, "ok", title, trimmed.as_str());
    } else {
        push_diag(items, "error", title, "地址应以 http:// 或 https:// 开头。");
    }
}

/// Adds the line on the in-game limits.
pub fn push_game_limit_diag(items: &mut Vec<DiagnosticItem>, config: &AppConfig)
    ensures
        items_view(final(items)@) == items_view(old(items)@).push(
            game_limit_line(config.game_download_limit_kib, config.game_upload_limit_kib),
        ),
{
    if config.game_download_limit_kib == 0 || config.game_upload_limit_kib == 0 {
        push_diag(items, "warn", "游戏中限速值", "下载/上传限速建议大于 0 KiB/s。");
    } else {
        let message = two_numbers(
            "游戏中会切换为下载 ",
            config.game_download_limit_kib,
            " KiB/s、上传 ",
            config.game_upload_limit_kib,
            " KiB/s。",
        );
        push_diag(items, "ok", "游戏中限速值", message.as_str());
    }
}

/// Counts the non-blank folders and, among them, the existing ones.
fn count_folders(folders: &Vec<String>, exists: &Vec<bool>) -> (r: (u64, u64))
    ensures
        r.0 == nonblank_count(folders.deep_view()),
        r.1 == existing_count(folders.deep_view(), exists@),
{
    let mut total: u64 = 0;
    let mut existing: u64 = 0;
    let mut i: usize = 0;
    let ghost fs = folders.deep_view();
    assert(fs.take(0) =~= Seq::<Seq<char>>::empty());
    while i < folders.len()
        invariant
            i <= folders.len(),
            fs == folders.deep_view(),
            total == nonblank_count(fs.take(i as int)),
            existing == existing_count(fs.take(i as int), exists@),
            existing <= total <= i,
        decreases folders.len() - i,
    {
        let t = trim_str(folders[i].as_str());
        assert(fs.take(i + 1).drop_last() =~= fs.take(i as int));
        assert(fs.take(i + 1).last() == folders@[i as int]@);
        if !t.as_str().is_empty() {
            total += 1;
            if i < exists.len() && exists[i] {
                existing += 1;
            }
        }
        i += 1;
    }
    assert(fs.take(folders.len() as int) =~= fs);
    (total, existing)
}

/// The first three lines: program directory, monitor program, configuration file.
fn push_file_diags(items: &mut Vec<DiagnosticItem>, facts: &DiagnosticFacts)
    ensures
        items_view(final(items)@) == items_view(old(items)@) + diagnostics_head(*facts),
{
    let ghost v0 = items_view(items@);
    let dir_message = join2("当前程序目录：", facts.app_dir.as_str());
    push_diag(items, "ok", "程序目录", dir_message.as_str());
    if facts.monitor_exe_exists {
        push_diag(items, "ok", "后台监控程序", "已找到 download_limiter_monitor.exe。");
    } else {
        let message = join3("没有找到：", facts.monitor_exe_path.as_str(), "。请把两个 exe 放在同一文件夹。");
        push_diag(items, "error", "后台监控程序缺失", message.as_str());
    }
    if facts.config_exists {
        push_diag(items, "ok", "配置文件", "已找到 download_client_game_speed_limiter.json。");
    } else {
        push_diag(
            items,
            "warn",
            "配置文件未创建",
            "保存配置后会自动创建 download_client_game_speed_limiter.json。",
        );
    }
    assert(items_view(items@) =~= v0 + diagnostics_head(*facts));
}

/// The lines on the selected download client.
fn push_client_diags(items: &mut Vec<DiagnosticItem>, config: &AppConfig)
    ensures
        items_view(final(items)@) == items_view(old(items)@) + client_lines(*config),
{
    let ghost head = items_view(items@);
    match config.download_client {
        DownloadClientKind::QBittorrent => {
            check_url(items, "qB Web UI 地址", config.qbee_url.as_str());
        },
        DownloadClientKind::Transmission => {
            check_url(items, "Transmission RPC 地址", config.transmission_url.as_str());
        },
        DownloadClientKind::Aria2 => {
            check_url(items, "aria2 JSON-RPC 地址", config.aria2_url.as_str());
            push_game_limit_diag(items, config);
        },
        DownloadClientKind::UTorrent => {
            check_url(items, "µTorrent/BitTorrent Web UI 地址", config.utorrent_url.as_str());
            push_game_limit_diag(items, config);
        },
        DownloadClientKind::Deluge => {
            check_url(items, "Deluge Web JSON 地址", config.deluge_url.as_str());
            push_game_limit_diag(items, config);
        },
        DownloadClientKind::BitComet => {
            check_url(items, "BitComet WebUI 地址", config.bitcomet_url.as_str());
            push_game_limit_diag(items, config);
        },
    }
    assert(items_view(items@) =~= head + client_lines(*config));
}

/// The line on the game library folders.
fn push_folder_diag(items: &mut Vec<DiagnosticItem>, config: &AppConfig, facts: &DiagnosticFacts)
    ensures
        items_view(final(items)@) == items_view(old(items)@).push(
            folder_line(config.game_folders.deep_view(), facts.folder_exists@),
        ),
{
    let (total, existing) = count_folders(&config.game_folders, &facts.folder_exists);
    if total == 0 {
        push_diag(items, "warn", "游戏库目录", "还没有添加游戏库目录。请先自动扫描或手动添加。");
    } else if existing == 0 {
        push_diag(
            items,
            "warn",
            "游戏库目录",
            "已添加目录，但当前没有一个路径存在。请检查盘符和目录层级。Steam 建议添加 steamapps。",
        );
    } else {
        let message = two_numbers("已添加 ", total, " 个目录，其中 ", existing, " 个存在。");
        push_diag(items, "ok", "游戏库目录", message.as_str());
    }
}

/// The line on the monitor's status.
fn push_status_diag(items: &mut Vec<DiagnosticItem>, config: &AppConfig, facts: &DiagnosticFacts)
    ensures
        items_view(final(items)@) == items_view(old(items)@).push(
            status_line(config.check_interval_seconds, facts.status_running, facts.status_updated_at, facts.now),
        ),
{
    if facts.status_running {
        let age = facts.now.saturating_sub(facts.status_updated_at);
        let interval: u64 = if config.check_interval_seconds == 0 { 1 } else { config.check_interval_seconds };
        let threshold = interval.wrapping_mul(4).wrapping_add(10);
        if age > threshold {
            push_diag(items, "warn", "后台监控状态", "状态文件较久没有更新，后台监控可能卡住或已经退出。");
        } else {
            push_diag(items, "ok", "后台监控状态", "后台监控正在运行。");
        }
    } else {
        push_diag(items, "warn", "后台监控状态", "后台监控未运行。点击“启动监控”或勾选保存后自动启动。");
    }
}

/// The self-check report for `config`, given the facts gathered about the machine.
pub fn run_diagnostics(config: &AppConfig, facts: &DiagnosticFacts) -> (items: Vec<DiagnosticItem>)
    ensures
        items_view(items@) == diagnostics(*config, *facts),
{
    let mut items: Vec<DiagnosticItem> = Vec::new();
    assert(items_view(items@) =~= Seq::<DiagLine>::empty());
    push_file_diags(&mut items, facts);
    push_client_diags(&mut items, config);
    push_folder_diag(&mut items, config, facts);
    push_status_diag(&mut items, config, facts);
    if config.start_with_windows {
        push_diag(&mut items, "ok", "开机自启动", "配置已勾选开机启动；保存后会写入当前用户启动项。");
    } else {
        push_diag(&mut items, "info", "开机自启动", "未启用。需要长期使用时建议打开。");
    }
    assert(items_view(items@) =~= diagnostics(*config, *facts));
    items
}

} // verus!
