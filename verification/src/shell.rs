//! What the program writes into the system: the desktop shortcut, the start-up command,
//! and the check that a started monitor has answered.
use vstd::prelude::*;
use crate::config::{MonitorStatus, owned};
use crate::text::{chars_of, extend_str, string_of};

verus! {

/// `s` with every backslash turned into a forward slash.
pub open spec fn forward_slashes(s: Seq<char>) -> Seq<char> {
    s.map_values(|c: char| if c == '\\' { '/' } else { c })
}

/// The text of an Internet shortcut file that opens `exe` and shows its icon.
pub open spec fn shortcut_text(exe: Seq<char>) -> Seq<char> {
    "[InternetShortcut]\r\nURL=file:///"@ + forward_slashes(exe) + "\r\nIconFile="@ + exe + "\r\nIconIndex=0\r\n"@
}

pub fn shortcut_content(exe: &str) -> (r: String)
    ensures
        r@ == shortcut_text(exe@),
{
    let v = chars_of(exe);
    let mut out = chars_of("[InternetShortcut]\r\nURL=file:///");
    let ghost start = out@;
    let mut i: usize = 0;
    while i < v.len()
        invariant
            i <= v.len(),
            out@ == start + forward_slashes(v@.take(i as int)),
        decreases v.len() - i,
    {
        let c = v[i];
        if c == '\\' {
            out.push('/');
        } else {
            out.push(c);
        }
        assert(forward_slashes(v@.take(i + 1)) =~= forward_slashes(v@.take(i as int)).push(
            if c == '\\' { '/' } else { c },
        ));
        i += 1;
    }
    assert(v@.take(v.len() as int) =~= v@);
    extend_str(&mut out, "\r\nIconFile=");
    extend_str(&mut out, exe);
    extend_str(&mut out, "\r\nIconIndex=0\r\n");
    string_of(&out)
}

/// The name of the desktop shortcut file.
pub fn shortcut_file_name() -> (r: String)
    ensures
        r@ == "下载器游戏限速助手.url"@,
{
    owned("下载器游戏限速助手.url")
}

/// The command that the start-up registry value holds: the quoted program path.
pub fn startup_command(exe: &str) -> (r: String)
    ensures
        r@ == "\""@ + exe@ + "\""@,
{
    let mut out = chars_of("\"");
    extend_str(&mut out, exe);
    extend_str(&mut out, "\"");
    string_of(&out)
}

/// The error when the configuration program is missing.
pub fn missing_config_program(path: &str) -> (r: String)
    ensures
        r@ == "找不到配置程序："@ + path@,
{
    let mut out = chars_of("找不到配置程序：");
    extend_str(&mut out, path);
    string_of(&out)
}

/// The error when the monitor program is missing.
pub fn missing_monitor_program(path: &str) -> (r: String)
    ensures
        r@ == "找不到后台监控程序："@ + path@,
{
    let mut out = chars_of("找不到后台监控程序：");
    extend_str(&mut out, path);
    string_of(&out)
}

/// How often a started monitor's status is read before giving up.
pub const MONITOR_START_POLLS: u32 = 25;

/// A started monitor has answered: its status says it runs and was written at or after
/// the start.
pub fn monitor_answered(status: &MonitorStatus, started_at: u64) -> (b: bool)
    ensures
        b == (status.running && status.updated_at >= started_at),
{
    status.running && status.updated_at >= started_at
}

/// What to do after reading a started monitor's status.
#[derive(PartialEq, Eq, Structural, Debug, Clone, Copy)]
pub enum PollStep {
    /// The monitor has answered: it is running.
    Started,
    /// No answer yet: wait and read again.
    Wait,
    /// No answer at the last read: the start has failed.
    GiveUp,
}

/// The decision after read number `attempt` (counted from 0) of the status of a monitor
/// started at `started_at`: an answer ends the wait, and without one the monitor is
/// given up once `MONITOR_START_POLLS` reads have been made.
pub fn poll_step(attempt: u32, status: &MonitorStatus, started_at: u64) -> (step: PollStep)
    ensures
        step == if status.running && status.updated_at >= started_at {
            PollStep::Started
        } else if attempt + 1 >= MONITOR_START_POLLS {
            PollStep::GiveUp
        } else {
            PollStep::Wait
        },
{
    if monitor_answered(status, started_at) {
        PollStep::Started
    } else if attempt >= MONITOR_START_POLLS - 1 {
        PollStep::GiveUp
    } else {
        PollStep::Wait
    }
}

/// The error when a started monitor never answered.
pub fn monitor_silent_message() -> (r: String)
    ensures
        r@ == "后台监控启动后没有响应。可能已有旧版本监控程序正在运行，或 download_limiter_monitor.exe 启动后立即退出。请在任务管理器结束旧的 qbee_limiter_monitor.exe 后重试，或把新版本完整解压覆盖到原目录。"@,
{
    owned(
        "后台监控启动后没有响应。可能已有旧版本监控程序正在运行，或 download_limiter_monitor.exe 启动后立即退出。请在任务管理器结束旧的 qbee_limiter_monitor.exe 后重试，或把新版本完整解压覆盖到原目录。",
    )
}

} // verus!
