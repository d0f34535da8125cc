//! The decisions of the dashboard's event loop: what a key press does to the
//! view, and how the measurement pipeline's events move the test through its
//! phases and its transfer workers.
use vstd::prelude::*;
use crate::history::{
    DASHBOARD_HISTORY_STEP, newest_start, newest_window_start, window_len, window_start,
};
use crate::state::{Phase, Theme, toggle_spec, toggled_theme};

verus! {

// ─────────────────────────────────────────────────────────────────────────
// Keyboard
// ─────────────────────────────────────────────────────────────────────────

/// The keys the dashboard tells apart.
#[derive(Debug, Clone, Copy, PartialEq, Eq, Structural)]
pub enum KeyCode {
    Char(char),
    Esc,
    Up,
    Down,
    Left,
    Right,
    Home,
    End,
    Other,
}

/// A key press, with whether Control was held.
#[derive(Debug, Clone, Copy, PartialEq, Eq, Structural)]
pub struct KeyPress {
    pub code: KeyCode,
    pub ctrl: bool,
}

/// What the event loop does after a key press.
#[derive(Debug, Clone, Copy, PartialEq, Eq, Structural)]
pub enum KeyAction {
    /// Keep running the current test.
    Continue,
    /// Leave the program.
    Quit,
    /// Start a new test.
    Restart,
    /// Export the current result, then keep running.
    Export,
}

/// The part of the dashboard that keys move.
#[derive(Debug, Clone)]
pub struct Navigation {
    pub phase: Phase,
    pub theme: Theme,
    /// First row of the history table.
    pub history_scroll: usize,
    /// First result of the history graph when not following the newest.
    pub graph_start: usize,
    /// Whether the history graph shows the newest results.
    pub graph_follow_newest: bool,
}

/// Whether the phase is a full-screen overlay (history table or help).
pub open spec fn is_overlay(phase: Phase) -> bool {
    phase is History || phase is Help
}

/// The first result the history graph shows.
pub open spec fn shown_start(nav: Navigation, len: nat) -> nat {
    if nav.graph_follow_newest {
        newest_start(len)
    } else if nav.graph_start < newest_start(len) {
        nav.graph_start as nat
    } else {
        newest_start(len)
    }
}

/// `a - b`, or zero when `b` is larger.
pub open spec fn sat_sub(a: int, b: int) -> int {
    if a > b {
        a - b
    } else {
        0
    }
}

/// The smaller of two numbers.
pub open spec fn min_int(a: int, b: int) -> int {
    if a < b {
        a
    } else {
        b
    }
}

/// What a key press does to the view and what the loop does next, in a
/// history of `len` results, with or without a finished result.
pub open spec fn key_outcome(nav: Navigation, key: KeyPress, len: nat, has_result: bool) -> (
    Navigation,
    KeyAction,
) {
    match key.code {
        KeyCode::Char('q') | KeyCode::Esc => if is_overlay(nav.phase) {
            (
                Navigation {
                    phase: if has_result {
                        Phase::Results
                    } else {
                        Phase::Download
                    },
                    ..nav
                },
                KeyAction::Continue,
            )
        } else {
            (nav, KeyAction::Quit)
        },
        KeyCode::Char('c') if key.ctrl => (nav, KeyAction::Quit),
        KeyCode::Char('r') => (nav, KeyAction::Restart),
        KeyCode::Char('t') => (Navigation { theme: toggle_spec(nav.theme), ..nav }, KeyAction::Continue),
        KeyCode::Char('h') => (Navigation { phase: Phase::History, ..nav }, KeyAction::Continue),
        KeyCode::Char('?') => (Navigation { phase: Phase::Help, ..nav }, KeyAction::Continue),
        KeyCode::Char('e') => (
            nav,
            if has_result {
                KeyAction::Export
            } else {
                KeyAction::Continue
            },
        ),
        KeyCode::Up => if nav.phase is History {
            (
                Navigation { history_scroll: sat_sub(nav.history_scroll as int, 1) as usize, ..nav },
                KeyAction::Continue,
            )
        } else {
            (nav, KeyAction::Continue)
        },
        KeyCode::Down => if nav.phase is History {
            (
                Navigation {
                    history_scroll: min_int(nav.history_scroll + 1, sat_sub(len as int, 1)) as usize,
                    ..nav
                },
                KeyAction::Continue,
            )
        } else {
            (nav, KeyAction::Continue)
        },
        KeyCode::Left => if !is_overlay(nav.phase) {
            (
                Navigation {
                    graph_follow_newest: false,
                    graph_start: sat_sub(
                        shown_start(nav, len) as int,
                        DASHBOARD_HISTORY_STEP as int,
                    ) as usize,
                    ..nav
                },
                KeyAction::Continue,
            )
        } else {
            (nav, KeyAction::Continue)
        },
        KeyCode::Right => if !is_overlay(nav.phase) {
            let next = min_int(
                shown_start(nav, len) + DASHBOARD_HISTORY_STEP,
                newest_start(len) as int,
            );
            (
                Navigation {
                    graph_start: next as usize,
                    graph_follow_newest: next >= newest_start(len),
                    ..nav
                },
                KeyAction::Continue,
            )
        } else {
            (nav, KeyAction::Continue)
        },
        KeyCode::Home => if !is_overlay(nav.phase) {
            (
                Navigation { graph_start: 0, graph_follow_newest: false, ..nav },
                KeyAction::Continue,
            )
        } else {
            (nav, KeyAction::Continue)
        },
        KeyCode::End => if !is_overlay(nav.phase) {
            (Navigation { graph_follow_newest: true, ..nav }, KeyAction::Continue)
        } else {
            (nav, KeyAction::Continue)
        },
        _ => if nav.phase is Help {
            (Navigation { phase: Phase::Results, ..nav }, KeyAction::Continue)
        } else {
            (nav, KeyAction::Continue)
        },
    }
}

/// The first result the history graph shows.
fn current_graph_start(nav: &Navigation, len: usize) -> (r: usize)
    ensures
        r == shown_start(*nav, len as nat),
        r <= newest_start(len as nat),
{
    let newest = newest_window_start(len);
    if nav.graph_follow_newest {
        newest
    } else if nav.graph_start < newest {
        nav.graph_start
    } else {
        newest
    }
}

/// Applies a key press to the view, in a history of `history_len` results,
/// and says what the loop does next.
pub fn handle_key(nav: &mut Navigation, key: KeyPress, history_len: usize, has_result: bool) -> (r:
    KeyAction)
    requires
        key.code == KeyCode::Down && old(nav).phase is History ==> old(nav).history_scroll
            < usize::MAX,
    ensures
        (*final(nav), r) == key_outcome(*old(nav), key, history_len as nat, has_result),
{
    let overlay = match nav.phase {
        Phase::History | Phase::Help => true,
        _ => false,
    };
    match key.code {
        KeyCode::Char('q') | KeyCode::Esc => {
            if overlay {
                nav.phase = if has_result {
                    Phase::Results
                } else {
                    Phase::Download
                };
                KeyAction::Continue
            } else {
                KeyAction::Quit
            }
        },
        KeyCode::Char('c') if key.ctrl => KeyAction::Quit,
        KeyCode::Char('r') => KeyAction::Restart,
        KeyCode::Char('t') => {
            nav.theme = toggled_theme(nav.theme);
            KeyAction::Continue
        },
        KeyCode::Char('h') => {
            nav.phase = Phase::History;
            KeyAction::Continue
        },
        KeyCode::Char('?') => {
            nav.phase = Phase::Help;
            KeyAction::Continue
        },
        KeyCode::Char('e') => {
            if has_result {
                KeyAction::Export
            } else {
                KeyAction::Continue
            }
        },
        KeyCode::Up => {
            if let Phase::History = nav.phase {
                nav.history_scroll = nav.history_scroll.saturating_sub(1);
            }
            KeyAction::Continue
        },
        KeyCode::Down => {
            if let Phase::History = nav.phase {
                let next = nav.history_scroll + 1;
                let last = history_len.saturating_sub(1);
                nav.history_scroll = if next < last {
                    next
                } else {
                    last
                };
            }
            KeyAction::Continue
        },
        KeyCode::Left => {
            if !overlay {
                let current = current_graph_start(nav, history_len);
                nav.graph_follow_newest = false;
                nav.graph_start = current.saturating_sub(DASHBOARD_HISTORY_STEP);
            }
            KeyAction::Continue
        },
        KeyCode::Right => {
            if !overlay {
                let newest = newest_window_start(history_len);
                let current = current_graph_start(nav, history_len);
                let stepped = current + DASHBOARD_HISTORY_STEP;
                let next = if stepped < newest {
                    stepped
                } else {
                    newest
                };
                nav.graph_start = next;
                nav.graph_follow_newest = next >= newest;
            }
            KeyAction::Continue
        },
        KeyCode::Home => {
            if !overlay {
                nav.graph_start = 0;
                nav.graph_follow_newest = false;
            }
            KeyAction::Continue
        },
        KeyCode::End => {
            if !overlay {
                nav.graph_follow_newest = true;
            }
            KeyAction::Continue
        },
        _ => {
            if let Phase::Help = nav.phase {
                nav.phase = Phase::Results;
            }
            KeyAction::Continue
        },
    }
}

/// The history table's scroll position, once within the history, stays
/// within it whatever key is pressed.
pub proof fn lemma_scroll_stays_in_history(
    nav: Navigation,
    key: KeyPress,
    len: nat,
    has_result: bool,
)
    requires
        nav.history_scroll <= sat_sub(len as int, 1),
        len <= usize::MAX,
    ensures
        key_outcome(nav, key, len, has_result).0.history_scroll <= sat_sub(len as int, 1),
{
}

/// Panning the history graph one step back and then one step forward shows
/// the same results again, when there were a full step of older results to
/// go back to.
pub proof fn lemma_pan_back_and_forth(nav: Navigation, len: nat, has_result: bool)
    requires
        !is_overlay(nav.phase),
        shown_start(nav, len) >= DASHBOARD_HISTORY_STEP,
        len <= usize::MAX,
    ensures
        ({
            let left = KeyPress { code: KeyCode::Left, ctrl: false };
            let right = KeyPress { code: KeyCode::Right, ctrl: false };
            let back = key_outcome(nav, left, len, has_result).0;
            let forth = key_outcome(back, right, len, has_result).0;
            shown_start(forth, len) == shown_start(nav, len)
        }),
{
}

/// Leaving an overlay with `q` or Escape never quits the program, and from
/// the main view it always does.
pub proof fn lemma_quit_only_from_main_view(nav: Navigation, len: nat, has_result: bool)
    ensures
        is_overlay(nav.phase) ==> key_outcome(
            nav,
            KeyPress { code: KeyCode::Char('q'), ctrl: false },
            len,
            has_result,
        ).1 == KeyAction::Continue,
        !is_overlay(nav.phase) ==> key_outcome(
            nav,
            KeyPress { code: KeyCode::Esc, ctrl: false },
            len,
            has_result,
        ).1 == KeyAction::Quit,
        key_outcome(nav, KeyPress { code: KeyCode::Char('c'), ctrl: true }, len, has_result).1
            == KeyAction::Quit,
{
}

/// Pressing `t` twice gives back the view one started with.
pub proof fn lemma_theme_key_twice(nav: Navigation, len: nat, has_result: bool)
    ensures
        ({
            let t = KeyPress { code: KeyCode::Char('t'), ctrl: false };
            let once = key_outcome(nav, t, len, has_result);
            let twice = key_outcome(once.0, t, len, has_result);
            &&& once.0.theme != nav.theme
            &&& twice.0 == nav
            &&& once.1 == KeyAction::Continue
        }),
{
}

/// In the history table, Down moves the scroll position one row further
/// while that row is in the table, and otherwise leaves it on the last row
/// (on the first when the history is empty); Up moves it one row back,
/// stopping at the first. So Down then Up comes back to the same row unless
/// the table was already on its last row.
pub proof fn lemma_down_moves_one_row(nav: Navigation, len: nat, has_result: bool)
    requires
        nav.phase is History,
        len <= usize::MAX,
    ensures
        ({
            let down = key_outcome(nav, KeyPress { code: KeyCode::Down, ctrl: false }, len, has_result);
            let up = key_outcome(nav, KeyPress { code: KeyCode::Up, ctrl: false }, len, has_result);
            &&& down.1 == KeyAction::Continue
            &&& down.0.phase == nav.phase
            &&& down.0.theme == nav.theme
            &&& down.0.graph_start == nav.graph_start
            &&& down.0.graph_follow_newest == nav.graph_follow_newest
            &&& down.0.history_scroll <= nav.history_scroll + 1
            &&& nav.history_scroll + 1 < len ==> down.0.history_scroll == nav.history_scroll + 1
            &&& nav.history_scroll + 1 >= len && len > 0 ==> down.0.history_scroll + 1 == len
            &&& len == 0 ==> down.0.history_scroll == 0
            &&& up.1 == KeyAction::Continue
            &&& nav.history_scroll > 0 ==> up.0.history_scroll + 1 == nav.history_scroll
            &&& nav.history_scroll == 0 ==> up.0.history_scroll == 0
            &&& nav.history_scroll + 1 < len ==> key_outcome(
                down.0,
                KeyPress { code: KeyCode::Up, ctrl: false },
                len,
                has_result,
            ).0 == nav
        }),
{
}

/// The keys and the graph agree on the first result shown, and after Home
/// the graph shows the oldest results, while End follows the newest.
pub proof fn lemma_home_shows_oldest(nav: Navigation, len: nat, has_result: bool)
    requires
        !is_overlay(nav.phase),
    ensures
        shown_start(nav, len) == window_start(len, nav.graph_start as nat, nav.graph_follow_newest),
        ({
            let home = key_outcome(nav, KeyPress { code: KeyCode::Home, ctrl: false }, len, has_result).0;
            &&& !home.graph_follow_newest
            &&& window_start(len, home.graph_start as nat, home.graph_follow_newest) == 0
        }),
        ({
            let end = key_outcome(nav, KeyPress { code: KeyCode::End, ctrl: false }, len, has_result).0;
            window_start(len, end.graph_start as nat, end.graph_follow_newest) + window_len(len)
                == len
        }),
{
}

/// The history graph's first shown result never passes the newest full
/// window, whatever key is pressed.
pub proof fn lemma_graph_start_in_window(
    nav: Navigation,
    key: KeyPress,
    len: nat,
    has_result: bool,
)
    requires
        len <= usize::MAX,
    ensures
        shown_start(key_outcome(nav, key, len, has_result).0, len) <= newest_start(len),
        key.code == KeyCode::End && !is_overlay(nav.phase) ==> shown_start(
            key_outcome(nav, key, len, has_result).0,
            len,
        ) == newest_start(len),
{
}

// ─────────────────────────────────────────────────────────────────────────
// Measurement pipeline
// ─────────────────────────────────────────────────────────────────────────

/// Transfer workers shown per direction.
pub const WORKER_SLOTS: usize = 8;

/// One parallel transfer stream; `S` is the type speeds are measured in.
#[derive(Debug, Clone, Copy)]
pub struct WorkerState<S> {
    pub id: usize,
    pub speed_mbps: S,
    pub bytes_transferred: u64,
    pub active: bool,
    pub complete: bool,
}

/// Fresh, active workers with the given idle speed.
pub fn fresh_workers<S: Copy>(count: usize, idle: S) -> (r: Vec<WorkerState<S>>)
    ensures
        r@.len() == count,
        forall|i: int|
            0 <= i < count ==> (#[trigger] r@[i]) == (WorkerState {
                id: 0,
                speed_mbps: idle,
                bytes_transferred: 0,
                active: true,
                complete: false,
            }),
{
    let mut v: Vec<WorkerState<S>> = Vec::new();
    let mut i: usize = 0;
    while i < count
        invariant
            i <= count,
            v@.len() == i,
            forall|k: int|
                0 <= k < i ==> (#[trigger] v@[k]) == (WorkerState {
                    id: 0,
                    speed_mbps: idle,
                    bytes_transferred: 0,
                    active: true,
                    complete: false,
                }),
        decreases count - i,
    {
        v.push(WorkerState { id: 0, speed_mbps: idle, bytes_transferred: 0, active: true, complete: false });
        i = i + 1;
    }
    v
}

/// Records a worker's speed and marks it active; samples for workers that
/// are not shown are ignored.
pub fn record_worker_speed<S: Copy>(workers: &mut Vec<WorkerState<S>>, worker_id: usize, speed: S)
    ensures
        final(workers)@ == (if worker_id < old(workers)@.len() {
            old(workers)@.update(
                worker_id as int,
                WorkerState { speed_mbps: speed, active: true, ..old(workers)@[worker_id as int] },
            )
        } else {
            old(workers)@
        }),
{
    if worker_id < workers.len() {
        let mut w = workers[worker_id];
        w.speed_mbps = speed;
        w.active = true;
        workers.set(worker_id, w);
    }
}

/// Marks every worker as finished.
pub fn finish_workers<S: Copy>(workers: &mut Vec<WorkerState<S>>)
    ensures
        final(workers)@.len() == old(workers)@.len(),
        forall|i: int|
            0 <= i < old(workers)@.len() ==> (#[trigger] final(workers)@[i]) == (WorkerState {
                active: false,
                complete: true,
                ..old(workers)@[i]
            }),
{
    let n = workers.len();
    let mut i: usize = 0;
    while i < n
        invariant
            n == old(workers)@.len(),
            workers@.len() == n,
            i <= n,
            forall|k: int|
                0 <= k < i ==> (#[trigger] workers@[k]) == (WorkerState {
                    active: false,
                    complete: true,
                    ..old(workers)@[k]
                }),
            forall|k: int| i <= k < n ==> (#[trigger] workers@[k]) == old(workers)@[k],
        decreases n - i,
    {
        let mut w = workers[i];
        w.active = false;
        w.complete = true;
        workers.set(i, w);
        i = i + 1;
    }
}

/// What the measurement pipeline reports; `S` is the type speeds are
/// measured in.
#[derive(Debug, Clone, Copy)]
pub enum NetEvent<S> {
    IpInfoReceived,
    ServersReceived,
    PingSample,
    PingComplete,
    DownloadSample { worker_id: usize, speed: S },
    DownloadComplete,
    UploadSample { worker_id: usize, speed: S },
    UploadComplete,
}

/// The phase after an event: each stage's completion opens the next one,
/// the download's completion ends the test when the upload is skipped, and
/// samples leave the phase as it is.
pub open spec fn phase_after<S>(event: NetEvent<S>, skip_upload: bool, phase: Phase) -> Phase {
    match event {
        NetEvent::IpInfoReceived => Phase::ServerSelection,
        NetEvent::ServersReceived => Phase::LatencyMeasurement,
        NetEvent::PingComplete => Phase::Download,
        NetEvent::DownloadComplete => if skip_upload {
            Phase::Results
        } else {
            Phase::Upload
        },
        NetEvent::UploadComplete => Phase::Results,
        _ => phase,
    }
}

/// Whether the event ends the test, so that its result is recorded.
pub open spec fn ends_test<S>(event: NetEvent<S>, skip_upload: bool) -> bool {
    match event {
        NetEvent::DownloadComplete => skip_upload,
        NetEvent::UploadComplete => true,
        _ => false,
    }
}

/// The test ends, and its result is recorded, exactly when an event brings
/// the pipeline into its results: the completed upload, or the completed
/// download when the upload is skipped. Every earlier stage's completion
/// (the address lookup, the server list, the ping) and every sample leaves
/// the test running; in particular a completed ping opens the download and
/// ends nothing.
pub proof fn lemma_test_ends_only_at_results<S>(event: NetEvent<S>, skip_upload: bool, phase: Phase)
    ensures
        ends_test(event, skip_upload) ==> phase_after(event, skip_upload, phase) == Phase::Results,
        phase_after(event, skip_upload, phase) == Phase::Results && !(phase is Results)
            ==> ends_test(event, skip_upload),
        ends_test(event, skip_upload) <==> (event is UploadComplete || (event is DownloadComplete
            && skip_upload)),
        !ends_test(NetEvent::<S>::PingComplete, skip_upload),
        phase_after(NetEvent::<S>::PingComplete, skip_upload, phase) == Phase::Download,
        !skip_upload ==> phase_after(NetEvent::<S>::DownloadComplete, skip_upload, phase)
            == Phase::Upload,
{
}

/// Applies an event of the measurement pipeline to the phase and the
/// workers of both directions. A completed ping opens the download with
/// fresh workers; a completed download finishes its workers and opens the
/// upload with fresh workers (or ends the test when the upload is skipped);
/// a completed upload finishes its workers and ends the test; a sample
/// updates its worker. Gives whether the test has ended, so that its result
/// is to be recorded.
pub fn apply_network_event<S: Copy>(
    phase: &mut Phase,
    download_workers: &mut Vec<WorkerState<S>>,
    upload_workers: &mut Vec<WorkerState<S>>,
    skip_upload: bool,
    event: NetEvent<S>,
    idle: S,
) -> (finished: bool)
    ensures
        *final(phase) == phase_after(event, skip_upload, *old(phase)),
        finished == ends_test(event, skip_upload),
        match event {
            NetEvent::PingComplete => {
                &&& final(download_workers)@.len() == WORKER_SLOTS
                &&& forall|i: int|
                    0 <= i < WORKER_SLOTS ==> #[trigger] final(download_workers)@[i] == (WorkerState {
                        id: 0,
                        speed_mbps: idle,
                        bytes_transferred: 0,
                        active: true,
                        complete: false,
                    })
                &&& final(upload_workers)@ == old(upload_workers)@
            },
            NetEvent::DownloadSample { worker_id, speed } => {
                &&& final(download_workers)@ == (if worker_id < old(download_workers)@.len() {
                    old(download_workers)@.update(
                        worker_id as int,
                        WorkerState {
                            speed_mbps: speed,
                            active: true,
                            ..old(download_workers)@[worker_id as int]
                        },
                    )
                } else {
                    old(download_workers)@
                })
                &&& final(upload_workers)@ == old(upload_workers)@
            },
            NetEvent::DownloadComplete => {
                &&& final(download_workers)@.len() == old(download_workers)@.len()
                &&& forall|i: int|
                    0 <= i < old(download_workers)@.len() ==> #[trigger] final(download_workers)@[i]
                        == (WorkerState { active: false, complete: true, ..old(download_workers)@[i] })
                &&& skip_upload ==> final(upload_workers)@ == old(upload_workers)@
                &&& !skip_upload ==> final(upload_workers)@.len() == WORKER_SLOTS
                &&& !skip_upload ==> forall|i: int|
                    0 <= i < WORKER_SLOTS ==> #[trigger] final(upload_workers)@[i] == (WorkerState {
                        id: 0,
                        speed_mbps: idle,
                        bytes_transferred: 0,
                        active: true,
                        complete: false,
                    })
            },
            NetEvent::UploadSample { worker_id, speed } => {
                &&& final(upload_workers)@ == (if worker_id < old(upload_workers)@.len() {
                    old(upload_workers)@.update(
                        worker_id as int,
                        WorkerState {
                            speed_mbps: speed,
                            active: true,
                            ..old(upload_workers)@[worker_id as int]
                        },
                    )
                } else {
                    old(upload_workers)@
                })
                &&& final(download_workers)@ == old(download_workers)@
            },
            NetEvent::UploadComplete => {
                &&& final(upload_workers)@.len() == old(upload_workers)@.len()
                &&& forall|i: int|
                    0 <= i < old(upload_workers)@.len() ==> #[trigger] final(upload_workers)@[i]
                        == (WorkerState { active: false, complete: true, ..old(upload_workers)@[i] })
                &&& final(download_workers)@ == old(download_workers)@
            },
            _ => {
                &&& final(download_workers)@ == old(download_workers)@
                &&& final(upload_workers)@ == old(upload_workers)@
            },
        },
{
    match event {
        NetEvent::IpInfoReceived => {
            *phase = Phase::ServerSelection;
            false
        },
        NetEvent::ServersReceived => {
            *phase = Phase::LatencyMeasurement;
            false
        },
        NetEvent::PingSample => false,
        NetEvent::PingComplete => {
            *phase = Phase::Download;
            *download_workers = fresh_workers(WORKER_SLOTS, idle);
            false
        },
        NetEvent::DownloadSample { worker_id, speed } => {
            record_worker_speed(download_workers, worker_id, speed);
            false
        },
        NetEvent::DownloadComplete => {
            finish_workers(download_workers);
            if !skip_upload {
                *phase = Phase::Upload;
                *upload_workers = fresh_workers(WORKER_SLOTS, idle);
                false
            } else {
                *phase = Phase::Results;
                true
            }
        },
        NetEvent::UploadSample { worker_id, speed } => {
            record_worker_speed(upload_workers, worker_id, speed);
            false
        },
        NetEvent::UploadComplete => {
            finish_workers(upload_workers);
            *phase = Phase::Results;
            true
        },
    }
}

/// The phase after a sequence of events, from `phase`.
pub open spec fn phase_after_all<S>(events: Seq<NetEvent<S>>, skip_upload: bool, phase: Phase) -> Phase
    decreases events.len(),
{
    if events.len() == 0 {
        phase
    } else {
        phase_after_all(
            events.drop_first(),
            skip_upload,
            phase_after(events[0], skip_upload, phase),
        )
    }
}

/// The pipeline's stage completions, in the order they arrive, lead from the
/// connectivity check to the results, with or without the upload stage.
pub proof fn lemma_pipeline_reaches_results<S>(skip_upload: bool)
    ensures
        ({
            let stages = seq![
                NetEvent::<S>::IpInfoReceived,
                NetEvent::<S>::ServersReceived,
                NetEvent::<S>::PingComplete,
                NetEvent::<S>::DownloadComplete,
            ];
            let all = if skip_upload {
                stages
            } else {
                stages.push(NetEvent::<S>::UploadComplete)
            };
            phase_after_all(all, skip_upload, Phase::ConnectivityCheck) == Phase::Results
        }),
{
    let stages = seq![
        NetEvent::<S>::IpInfoReceived,
        NetEvent::<S>::ServersReceived,
        NetEvent::<S>::PingComplete,
        NetEvent::<S>::DownloadComplete,
    ];
    let all = if skip_upload {
        stages
    } else {
        stages.push(NetEvent::<S>::UploadComplete)
    };
    reveal_with_fuel(phase_after_all, 6);
    assert(all.drop_first()[0] == NetEvent::<S>::ServersReceived);
    assert(all.drop_first().drop_first()[0] == NetEvent::<S>::PingComplete);
    assert(all.drop_first().drop_first().drop_first()[0] == NetEvent::<S>::DownloadComplete);
    if !skip_upload {
        assert(all.drop_first().drop_first().drop_first().drop_first()[0]
            == NetEvent::<S>::UploadComplete);
        assert(all.drop_first().drop_first().drop_first().drop_first().drop_first().len() == 0);
    } else {
        assert(all.drop_first().drop_first().drop_first().drop_first().len() == 0);
    }
}

} // verus!
