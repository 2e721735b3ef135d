//! The background monitor's decisions from one check to the next: when to enter game
//! mode, when to restore, what to report.
//!
//! Each check runs in two steps. [`MonitorState::begin_tick`] looks at what was detected
//! and says which action to carry out on the download client; the caller carries it out
//! and hands its result to [`MonitorState::finish_tick`], which updates the state and
//! gives the status message.
use vstd::prelude::*;
use crate::config::owned;
use crate::config::{AppConfig, DownloadClientKind};
use crate::controller::{
    DownloadLimitSnapshot, LimitReading, apply_opt, enable_command, enable_snapshot, restore_command,
    law_restore_undoes_game_mode,
};
use crate::text::{chars_of, extend_str, string_of, str_eq};

verus! {

/// What the monitor remembers between checks.
pub struct MonitorState {
    /// Whether a transition has been handled at least once.
    pub had_state: bool,
    /// Whether a game was running at the last handled transition.
    pub last_game_running: bool,
    /// The snapshot of the limits changed for the running game, to be restored.
    pub active_limit: Option<DownloadLimitSnapshot>,
    /// What was detected at the last check.
    pub last_detected: String,
}

/// The action a check asks for.
pub enum TickAction {
    /// Nothing changed since the last check.
    Nothing,
    /// A game started (or was running at the first check): enter game mode.
    EnableGameMode,
    /// The game exited: restore with this snapshot.
    Restore(DownloadLimitSnapshot),
    /// The game exited but nothing was changed for it.
    NothingToRestore,
    /// The first check found no game.
    NoGameAtStart,
}

/// What came of carrying out the action.
pub enum ActionResult {
    /// Game mode was entered; the snapshot and message of its plan.
    Enabled { snapshot: DownloadLimitSnapshot, message: String },
    /// The snapshot was restored; the message of the restore plan.
    Restored { message: String },
    /// Talking to the client failed.
    Failed { error: String },
    /// The action needed no client.
    NotRun,
}

/// The outcome of a check.
pub struct TickReport {
    /// The status message.
    pub message: String,
    /// Whether the message reports an error, which is to be logged.
    pub failed: bool,
}

pub open spec fn running_message(game_running: bool) -> Seq<char> {
    if game_running {
        "检测到游戏运行。"@
    } else {
        "未检测到游戏运行。"@
    }
}

pub open spec fn error_message(error: Seq<char>) -> Seq<char> {
    "监控出错："@ + error
}

/// The action to carry out, given the state before a check and whether a game is running.
pub open spec fn action_for(had_state: bool, last_game_running: bool, active: Option<DownloadLimitSnapshot>, game_running: bool) -> TickAction {
    if had_state && game_running == last_game_running {
        TickAction::Nothing
    } else if game_running {
        TickAction::EnableGameMode
    } else if had_state {
        match active {
            Some(s) => TickAction::Restore(s),
            None => TickAction::NothingToRestore,
        }
    } else {
        TickAction::NoGameAtStart
    }
}

/// The result fits the action: client actions end in success or failure, the others
/// ran nothing.
pub open spec fn result_fits(action: TickAction, result: ActionResult) -> bool {
    match action {
        TickAction::EnableGameMode => result is Enabled || result is Failed,
        TickAction::Restore(_) => result is Restored || result is Failed,
        _ => result is NotRun,
    }
}

/// The state `(had_state, last_game_running, active)` once a check has begun with `action`.
pub open spec fn after_begin(had_state: bool, last: bool, active: Option<DownloadLimitSnapshot>, action: TickAction) -> (bool, bool, Option<DownloadLimitSnapshot>) {
    if action is Restore {
        (had_state, last, None)
    } else {
        (had_state, last, active)
    }
}

/// The state once a check that found a game running or not has finished with the
/// action's result.
pub open spec fn after_finish(
    had_state: bool,
    last: bool,
    active: Option<DownloadLimitSnapshot>,
    action: TickAction,
    result: ActionResult,
    game_running: bool,
) -> (bool, bool, Option<DownloadLimitSnapshot>) {
    if action is Nothing {
        (had_state, last, active)
    } else {
        match result {
            ActionResult::Enabled { snapshot, .. } => (true, game_running, Some(snapshot)),
            _ => (true, game_running, active),
        }
    }
}

/// What the selected download client is reached with: its address and the credentials
/// it is built from.
pub open spec fn client_connection(c: AppConfig) -> Seq<Seq<char>> {
    match c.download_client {
        DownloadClientKind::QBittorrent => seq![c.qbee_url@, c.username@, c.password@],
        DownloadClientKind::Transmission => seq![c.transmission_url@, c.username@, c.password@],
        DownloadClientKind::Aria2 => seq![c.aria2_url@, c.aria2_secret@],
        DownloadClientKind::UTorrent => seq![c.utorrent_url@, c.username@, c.password@],
        DownloadClientKind::Deluge => seq![c.deluge_url@, c.password@],
        DownloadClientKind::BitComet => seq![c.bitcomet_url@, c.username@, c.password@],
    }
}

/// New settings `b` still talk to the client of `a`: the same kind of client, reached at
/// the same address with the same credentials. Only then is the game's snapshot kept
/// across a reload.
pub fn same_client(a: &AppConfig, b: &AppConfig) -> (r: bool)
    ensures
        r == (a.download_client == b.download_client && client_connection(*a) == client_connection(*b)),
{
    if a.download_client != b.download_client {
        return false;
    }
    let r = match a.download_client {
        DownloadClientKind::QBittorrent => str_eq(a.qbee_url.as_str(), b.qbee_url.as_str())
            && str_eq(a.username.as_str(), b.username.as_str())
            && str_eq(a.password.as_str(), b.password.as_str()),
        DownloadClientKind::Transmission => str_eq(a.transmission_url.as_str(), b.transmission_url.as_str())
            && str_eq(a.username.as_str(), b.username.as_str())
            && str_eq(a.password.as_str(), b.password.as_str()),
        DownloadClientKind::Aria2 => str_eq(a.aria2_url.as_str(), b.aria2_url.as_str())
            && str_eq(a.aria2_secret.as_str(), b.aria2_secret.as_str()),
        DownloadClientKind::UTorrent => str_eq(a.utorrent_url.as_str(), b.utorrent_url.as_str())
            && str_eq(a.username.as_str(), b.username.as_str())
            && str_eq(a.password.as_str(), b.password.as_str()),
        DownloadClientKind::Deluge => str_eq(a.deluge_url.as_str(), b.deluge_url.as_str())
            && str_eq(a.password.as_str(), b.password.as_str()),
        DownloadClientKind::BitComet => str_eq(a.bitcomet_url.as_str(), b.bitcomet_url.as_str())
            && str_eq(a.username.as_str(), b.username.as_str())
            && str_eq(a.password.as_str(), b.password.as_str()),
    };
    proof {
        let ca = client_connection(*a);
        let cb = client_connection(*b);
        if r {
            assert(ca =~= cb);
        } else if ca == cb {
            assert(forall|k: int| 0 <= k < ca.len() ==> ca[k] == cb[k]);
        }
    }
    r
}

impl MonitorState {
    /// The state of a monitor that has not checked yet.
    pub fn new() -> (s: Self)
        ensures
            !s.had_state,
            !s.last_game_running,
            s.active_limit is None,
            s.last_detected@ == Seq::<char>::empty(),
    {
        MonitorState { had_state: false, last_game_running: false, active_limit: None, last_detected: String::new() }
    }

    /// Starts a check. A game runs when something was detected. On a change since the
    /// last handled check (or at the first one), a starting game asks for game mode and
    /// an exiting one hands over the remembered snapshot, which is then forgotten.
    pub fn begin_tick(&mut self, detected: &str) -> (action: TickAction)
        ensures
            action == action_for(
                old(self).had_state,
                old(self).last_game_running,
                old(self).active_limit,
                detected@.len() > 0,
            ),
            final(self).had_state == old(self).had_state,
            final(self).last_game_running == old(self).last_game_running,
            final(self).last_detected == old(self).last_detected,
            final(self).active_limit == if action is Restore {
                None
            } else {
                old(self).active_limit
            },
            (final(self).had_state, final(self).last_game_running, final(self).active_limit) == after_begin(
                old(self).had_state,
                old(self).last_game_running,
                old(self).active_limit,
                action,
            ),
    {
        let game_running = !detected.is_empty();
        if self.had_state && game_running == self.last_game_running {
            TickAction::Nothing
        } else if game_running {
            TickAction::EnableGameMode
        } else if self.had_state {
            match self.active_limit.take() {
                Some(s) => TickAction::Restore(s),
                None => TickAction::NothingToRestore,
            }
        } else {
            TickAction::NoGameAtStart
        }
    }

    /// Finishes a check with the result of its action: a handled transition is
    /// remembered, a snapshot of entered game mode is kept, and the status message is
    /// the plan's message, the error, or the fixed message of the action.
    pub fn finish_tick(&mut self, detected: String, action: TickAction, result: ActionResult) -> (report: TickReport)
        requires
            result_fits(action, result),
        ensures
            final(self).last_detected == detected,
            action is Nothing ==> {
                &&& final(self).had_state == old(self).had_state
                &&& final(self).last_game_running == old(self).last_game_running
                &&& final(self).active_limit == old(self).active_limit
                &&& report.message@ == running_message(detected@.len() > 0)
                &&& !report.failed
            },
            !(action is Nothing) ==> {
                &&& final(self).had_state
                &&& final(self).last_game_running == (detected@.len() > 0)
            },
            action is NothingToRestore ==> report.message@ == "检测到游戏退出，当前下载器无需恢复。"@
                && !report.failed && final(self).active_limit == old(self).active_limit,
            action is NoGameAtStart ==> report.message@ == "未检测到游戏运行。"@ && !report.failed
                && final(self).active_limit == old(self).active_limit,
            result matches ActionResult::Enabled { snapshot, message } ==> report.message@ == message@
                && !report.failed && final(self).active_limit == Some(snapshot),
            result matches ActionResult::Restored { message } ==> report.message@ == message@
                && !report.failed && final(self).active_limit == old(self).active_limit,
            result matches ActionResult::Failed { error } ==> report.message@ == error_message(error@)
                && report.failed && final(self).active_limit == old(self).active_limit,
            (final(self).had_state, final(self).last_game_running, final(self).active_limit) == after_finish(
                old(self).had_state,
                old(self).last_game_running,
                old(self).active_limit,
                action,
                result,
                detected@.len() > 0,
            ),
    {
        let game_running = !detected.as_str().is_empty();
        let report = match action {
            TickAction::Nothing => {
                if game_running {
                    TickReport { message: owned("检测到游戏运行。"), failed: false }
                } else {
                    TickReport { message: owned("未检测到游戏运行。"), failed: false }
                }
            },
            _ => {
                let report = match result {
                    ActionResult::Enabled { snapshot, message } => {
                        self.active_limit = Some(snapshot);
                        TickReport { message, failed: false }
                    },
                    ActionResult::Restored { message } => TickReport { message, failed: false },
                    ActionResult::Failed { error } => {
                        let mut v = chars_of("监控出错：");
                        extend_str(&mut v, error.as_str());
                        TickReport { message: string_of(&v), failed: true }
                    },
                    ActionResult::NotRun => {
                        match action {
                            TickAction::NothingToRestore => TickReport {
                                message: owned("检测到游戏退出，当前下载器无需恢复。"),
                                failed: false,
                            },
                            _ => TickReport { message: owned("未检测到游戏运行。"), failed: false },
                        }
                    },
                };
                self.had_state = true;
                self.last_game_running = game_running;
                report
            },
        };
        self.last_detected = detected;
        report
    }

    /// Takes new settings. With the same download client the remembered snapshot is kept,
    /// so that the game's exit still restores it. With another client the snapshot is
    /// handed over, to be restored through the old client, and the monitor starts over,
    /// so that a running game puts the new client into game mode at the next check.
    pub fn reload(&mut self, same_client: bool) -> (to_restore: Option<DownloadLimitSnapshot>)
        ensures
            (final(self).had_state, final(self).last_game_running, final(self).active_limit) == after_reload(
                old(self).had_state,
                old(self).last_game_running,
                old(self).active_limit,
                same_client,
            ),
            to_restore == if same_client {
                None
            } else {
                old(self).active_limit
            },
            final(self).last_detected == old(self).last_detected,
    {
        if same_client {
            None
        } else {
            self.had_state = false;
            self.active_limit.take()
        }
    }

    /// On stopping: the snapshot to restore, if restoring on exit is enabled; it is
    /// then forgotten.
    pub fn shutdown(&mut self, restore_on_exit: bool) -> (to_restore: Option<DownloadLimitSnapshot>)
        ensures
            to_restore == if restore_on_exit {
                old(self).active_limit
            } else {
                None
            },
            final(self).active_limit == if restore_on_exit {
                None
            } else {
                old(self).active_limit
            },
    {
        if restore_on_exit {
            self.active_limit.take()
        } else {
            None
        }
    }
}

// ---------------------------------------------------------------------------
// Laws
// ---------------------------------------------------------------------------

/// The state after a check in which no action was needed or the action was not a
/// failure: `(had_state, last_game_running, active)`.
pub open spec fn after_quiet_check(had_state: bool, last: bool, active: Option<DownloadLimitSnapshot>, game_running: bool) -> (bool, bool, Option<DownloadLimitSnapshot>) {
    match action_for(had_state, last, active, game_running) {
        TickAction::Nothing => (had_state, last, active),
        TickAction::Restore(_) => (true, game_running, None),
        _ => (true, game_running, active),
    }
}

/// Game mode is asked for exactly on a check where a game runs and none ran at the last
/// handled check (or none was handled yet); a restore exactly on a check where no game
/// runs, one ran at the last handled check, and a snapshot is remembered.
pub proof fn law_actions_only_on_transitions(had_state: bool, last: bool, active: Option<DownloadLimitSnapshot>, running: bool)
    ensures
        (action_for(had_state, last, active, running) is EnableGameMode) <==> (running && !(had_state && last)),
        (action_for(had_state, last, active, running) is Restore) <==> (!running && had_state && last && active is Some),
        action_for(had_state, last, active, running) matches TickAction::Restore(s) ==> active == Some(s),
{
}

/// While the game keeps running, the snapshot taken when it started is kept, and the
/// first check after it exits hands exactly that snapshot over for restoring.
pub proof fn law_snapshot_restored_when_game_exits(s: DownloadLimitSnapshot, checks: nat)
    ensures
        ({
            let kept = keep_running(true, true, Some(s), checks);
            &&& kept == (true, true, Some(s))
            &&& action_for(kept.0, kept.1, kept.2, false) == TickAction::Restore(s)
        }),
    decreases checks,
{
    if checks > 0 {
        law_snapshot_restored_when_game_exits(s, (checks - 1) as nat);
    }
}

/// The state after `checks` further checks that all find a game running.
pub open spec fn keep_running(had_state: bool, last: bool, active: Option<DownloadLimitSnapshot>, checks: nat) -> (bool, bool, Option<DownloadLimitSnapshot>)
    decreases checks,
{
    if checks == 0 {
        (had_state, last, active)
    } else {
        let next = after_quiet_check(had_state, last, active, true);
        keep_running(next.0, next.1, next.2, (checks - 1) as nat)
    }
}

/// A whole game session as the monitor sees it: game mode starts with the snapshot its
/// plan takes of the client's limits, the snapshot is kept while the game runs, and the
/// first check after the game exits restores it, which gives the client back the limits
/// it had before the game started.
pub proof fn law_session_gives_limits_back(
    kind: DownloadClientKind,
    r: LimitReading,
    c: AppConfig,
    s: DownloadLimitSnapshot,
    checks: nat,
)
    requires
        r.fits(kind),
        s.model() == enable_snapshot(kind, r),
    ensures
        ({
            let kept = keep_running(true, true, Some(s), checks);
            &&& action_for(kept.0, kept.1, kept.2, false) == TickAction::Restore(s)
            &&& apply_opt(
                apply_opt(r.model(), enable_command(kind, r, c)),
                restore_command(kind, s.model()),
            ) == r.model()
        }),
{
    law_snapshot_restored_when_game_exits(s, checks);
    law_restore_undoes_game_mode(kind, r, c);
}

/// The state after taking new settings: `(had_state, last_game_running, active)`.
pub open spec fn after_reload(had_state: bool, last: bool, active: Option<DownloadLimitSnapshot>, same_client: bool) -> (bool, bool, Option<DownloadLimitSnapshot>) {
    if same_client {
        (had_state, last, active)
    } else {
        (false, last, None)
    }
}

/// New settings for the same client during a game keep its snapshot: the first check
/// after the game exits restores it. New settings for another client hand the snapshot
/// over, and a game still running puts the new client into game mode at the next check.
pub proof fn law_reload_keeps_restore(s: DownloadLimitSnapshot, checks: nat)
    ensures
        ({
            let same = after_reload(true, true, Some(s), true);
            let kept = keep_running(same.0, same.1, same.2, checks);
            action_for(kept.0, kept.1, kept.2, false) == TickAction::Restore(s)
        }),
        ({
            let other = after_reload(true, true, Some(s), false);
            &&& other.2 is None
            &&& action_for(other.0, other.1, other.2, true) == TickAction::EnableGameMode
        }),
{
    law_snapshot_restored_when_game_exits(s, checks);
}

/// The snapshot that entering game mode gave, when it succeeded.
pub open spec fn enabled_by(result: ActionResult) -> Option<DownloadLimitSnapshot> {
    match result {
        ActionResult::Enabled { snapshot, .. } => Some(snapshot),
        _ => None,
    }
}

/// The state after a whole check: `running` says whether a game was detected, and
/// `enabled` is the snapshot that entering game mode gave, if the check entered it
/// (`None` when doing so failed).
pub open spec fn after_check(
    had_state: bool,
    last: bool,
    active: Option<DownloadLimitSnapshot>,
    running: bool,
    enabled: Option<DownloadLimitSnapshot>,
) -> (bool, bool, Option<DownloadLimitSnapshot>) {
    match action_for(had_state, last, active, running) {
        TickAction::Nothing => (had_state, last, active),
        TickAction::EnableGameMode => (true, running, match enabled {
            Some(s) => Some(s),
            None => active,
        }),
        TickAction::Restore(_) => (true, running, None),
        _ => (true, running, active),
    }
}

/// A check is `begin_tick` followed by `finish_tick` with the result of the action that
/// `begin_tick` asked for; together they take the state to `after_check`.
pub proof fn law_check_is_begin_then_finish(
    had_state: bool,
    last: bool,
    active: Option<DownloadLimitSnapshot>,
    running: bool,
    result: ActionResult,
)
    requires
        result_fits(action_for(had_state, last, active, running), result),
    ensures
        ({
            let action = action_for(had_state, last, active, running);
            let begun = after_begin(had_state, last, active, action);
            after_finish(begun.0, begun.1, begun.2, action, result, running) == after_check(
                had_state,
                last,
                active,
                running,
                enabled_by(result),
            )
        }),
{
}

/// The state of a new monitor after the first `n` checks of a run: check `k` detected a
/// game exactly when `runs[k]`, and `enabled[k]` is what its entering of game mode gave.
pub open spec fn run_state(runs: Seq<bool>, enabled: Seq<Option<DownloadLimitSnapshot>>, n: nat) -> (bool, bool, Option<DownloadLimitSnapshot>)
    decreases n,
{
    if n == 0 {
        (false, false, None)
    } else {
        let before = run_state(runs, enabled, (n - 1) as nat);
        after_check(before.0, before.1, before.2, runs[n - 1], enabled[n - 1])
    }
}

/// The action that check `i` of a run asks for.
pub open spec fn run_action(runs: Seq<bool>, enabled: Seq<Option<DownloadLimitSnapshot>>, i: nat) -> TickAction {
    let st = run_state(runs, enabled, i);
    action_for(st.0, st.1, st.2, runs[i as int])
}

/// The first check of the stretch of checks that found a game, up to check `k`.
pub open spec fn stretch_start(runs: Seq<bool>, k: nat) -> nat
    decreases k,
{
    if k == 0 || !runs[k - 1] {
        k
    } else {
        stretch_start(runs, (k - 1) as nat)
    }
}

proof fn lemma_stretch_start(runs: Seq<bool>, k: nat)
    ensures
        stretch_start(runs, k) <= k,
        stretch_start(runs, k) == 0 || !runs[stretch_start(runs, k) - 1],
        forall|j: int| stretch_start(runs, k) <= j < k ==> #[trigger] runs[j],
    decreases k,
{
    if k > 0 && runs[k - 1] {
        lemma_stretch_start(runs, (k - 1) as nat);
    }
}

/// After at least one check the monitor has handled a check, remembers whether the last
/// one found a game, and holds a snapshot only while a game runs: the one that entering
/// game mode gave at the start of that stretch.
proof fn lemma_run_state(runs: Seq<bool>, enabled: Seq<Option<DownloadLimitSnapshot>>, n: nat)
    requires
        n <= runs.len(),
    ensures
        ({
            let st = run_state(runs, enabled, n);
            &&& n == 0 ==> st == (false, false, None::<DownloadLimitSnapshot>)
            &&& n > 0 ==> st == (true, runs[n - 1], if runs[n - 1] {
                enabled[stretch_start(runs, (n - 1) as nat) as int]
            } else {
                None
            })
        }),
    decreases n,
{
    if n > 0 {
        let k = (n - 1) as nat;
        lemma_run_state(runs, enabled, k);
        lemma_stretch_start(runs, k);
        let before = run_state(runs, enabled, k);
        assert(run_state(runs, enabled, n) == after_check(before.0, before.1, before.2, runs[k as int], enabled[k as int]));
        if k == 0 || !runs[k - 1] {
            assert(stretch_start(runs, k) == k);
        } else {
            assert(stretch_start(runs, k) == stretch_start(runs, (k - 1) as nat));
        }
    }
}

/// Over any run of checks of a new monitor: game mode is entered exactly at the checks
/// that find a game while the check before found none (or at the first check), and a
/// restore happens exactly at the checks that find no game while the check before found
/// one and entering game mode at the start of that stretch succeeded; it restores the
/// snapshot that entering game mode gave.
pub proof fn law_monitor_run(runs: Seq<bool>, enabled: Seq<Option<DownloadLimitSnapshot>>, i: nat)
    requires
        runs.len() == enabled.len(),
        i < runs.len(),
    ensures
        (run_action(runs, enabled, i) is EnableGameMode) <==> (runs[i as int] && (i == 0 || !runs[i - 1])),
        (run_action(runs, enabled, i) is Restore) <==> (!runs[i as int] && i > 0 && runs[i - 1]
            && enabled[stretch_start(runs, (i - 1) as nat) as int] is Some),
        run_action(runs, enabled, i) matches TickAction::Restore(s) ==> ({
            let start = stretch_start(runs, (i - 1) as nat);
            &&& enabled[start as int] == Some(s)
            &&& run_action(runs, enabled, start) is EnableGameMode
        }),
{
    lemma_run_state(runs, enabled, i);
    if i > 0 {
        let start = stretch_start(runs, (i - 1) as nat);
        lemma_stretch_start(runs, (i - 1) as nat);
        if runs[i - 1] {
            assert(runs[start as int]);
            lemma_run_state(runs, enabled, start);
        }
    }
}

/// Two settings talk to the same client exactly when they select the same kind of client
/// and agree on every field that kind's client is built from: its own address, and the
/// credentials it signs in with (user name and password, or aria2's secret; Deluge signs
/// in with a password alone). Another address or other credentials make another client.
pub proof fn law_same_client_is_same_address_and_credentials(a: AppConfig, b: AppConfig)
    requires
        a.download_client == b.download_client,
    ensures
        (client_connection(a) == client_connection(b)) <==> match a.download_client {
            DownloadClientKind::QBittorrent => a.qbee_url@ == b.qbee_url@ && a.username@ == b.username@
                && a.password@ == b.password@,
            DownloadClientKind::Transmission => a.transmission_url@ == b.transmission_url@
                && a.username@ == b.username@ && a.password@ == b.password@,
            DownloadClientKind::Aria2 => a.aria2_url@ == b.aria2_url@ && a.aria2_secret@ == b.aria2_secret@,
            DownloadClientKind::UTorrent => a.utorrent_url@ == b.utorrent_url@ && a.username@ == b.username@
                && a.password@ == b.password@,
            DownloadClientKind::Deluge => a.deluge_url@ == b.deluge_url@ && a.password@ == b.password@,
            DownloadClientKind::BitComet => a.bitcomet_url@ == b.bitcomet_url@ && a.username@ == b.username@
                && a.password@ == b.password@,
        },
{
    let ca = client_connection(a);
    let cb = client_connection(b);
    if ca == cb {
        assert(ca.len() == cb.len());
        assert(forall|k: int| 0 <= k < ca.len() ==> ca[k] == cb[k]);
    } else {
        if match a.download_client {
            DownloadClientKind::QBittorrent => a.qbee_url@ == b.qbee_url@ && a.username@ == b.username@
                && a.password@ == b.password@,
            DownloadClientKind::Transmission => a.transmission_url@ == b.transmission_url@
                && a.username@ == b.username@ && a.password@ == b.password@,
            DownloadClientKind::Aria2 => a.aria2_url@ == b.aria2_url@ && a.aria2_secret@ == b.aria2_secret@,
            DownloadClientKind::UTorrent => a.utorrent_url@ == b.utorrent_url@ && a.username@ == b.username@
                && a.password@ == b.password@,
            DownloadClientKind::Deluge => a.deluge_url@ == b.deluge_url@ && a.password@ == b.password@,
            DownloadClientKind::BitComet => a.bitcomet_url@ == b.bitcomet_url@ && a.username@ == b.username@
                && a.password@ == b.password@,
        } {
            assert(ca =~= cb);
        }
    }
}

} // verus!
