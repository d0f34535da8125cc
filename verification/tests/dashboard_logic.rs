use speedtest_tui::control::{
    apply_network_event, finish_workers, fresh_workers, handle_key, record_worker_speed,
    KeyAction, KeyCode, KeyPress, Navigation, NetEvent, WorkerState, WORKER_SLOTS,
};
use speedtest_tui::history::{
    append_to_history, graph_footer, graph_left_label, graph_right_label, history_graph_window,
    history_table_rows, update_speed_history, DASHBOARD_HISTORY_STEP, DASHBOARD_HISTORY_WINDOW,
    HISTORY_LIMIT, ROLLING_WINDOW,
};
use speedtest_tui::quality::{grade_letter, star_count, stars_text, DimensionScores};
use speedtest_tui::state::{
    completion_export, initial_theme, prefers_light_background, preferred_server_id, toggled_theme,
    Cli, Config, ExportFormat, IpInfo, Phase, Theme, ThemeArg,
};

fn nav(phase: Phase) -> Navigation {
    Navigation {
        phase,
        theme: Theme::Dark,
        history_scroll: 0,
        graph_start: 0,
        graph_follow_newest: true,
    }
}

fn key(code: KeyCode) -> KeyPress {
    KeyPress { code, ctrl: false }
}

// ── quality ──────────────────────────────────────────────────────────────

#[test]
fn quality_grade_from_readme_example() {
    // ping 25 ms (4), download 14.52 Mbps (3), upload 5.30 Mbps (3), no loss (5)
    let s = DimensionScores { ping: 4, download: 3, upload: 3, loss: 5 };
    assert_eq!(s.total(), 15);
    assert_eq!(s.total() as f64 / 4.0, 3.75);
    assert_eq!(grade_letter(s.total()), "C");
}

#[test]
fn quality_grades_for_each_level() {
    assert_eq!(grade_letter(20), "A");
    assert_eq!(grade_letter(19), "B");
    assert_eq!(grade_letter(16), "B");
    assert_eq!(grade_letter(12), "C");
    assert_eq!(grade_letter(8), "D");
    assert_eq!(grade_letter(7), "F");
    assert_eq!(grade_letter(4), "F");
}

#[test]
fn stars_follow_truncated_score() {
    assert_eq!(star_count(13), 3); // 3.25
    assert_eq!(star_count(14), 3); // 3.5
    assert_eq!(star_count(15), 3); // 3.75, grade C
    assert_eq!(star_count(16), 4);
    assert_eq!(star_count(20), 5);
    assert_eq!(star_count(4), 1);
    assert_eq!(stars_text(star_count(15) as usize), "★★★☆☆");
    assert_eq!(stars_text(4), "★★★★☆");
    assert_eq!(stars_text(0), "☆☆☆☆☆");
    assert_eq!(stars_text(5), "★★★★★");
    assert_eq!(stars_text(7), "★★★★★★★");
}

// ── histories ────────────────────────────────────────────────────────────

#[test]
fn rolling_history_keeps_the_last_window() {
    let mut h: Vec<u32> = Vec::new();
    for i in 0..100u32 {
        update_speed_history(&mut h, i);
        assert!(h.len() <= ROLLING_WINDOW);
    }
    assert_eq!(h.len(), ROLLING_WINDOW);
    assert_eq!(h[0], 40);
    assert_eq!(*h.last().unwrap(), 99);
}

#[test]
fn saved_history_keeps_the_newest_thousand() {
    let mut h: Vec<usize> = (0..1005).collect();
    append_to_history(&mut h, 9999);
    assert_eq!(h.len(), HISTORY_LIMIT);
    assert_eq!(h[0], 6);
    assert_eq!(*h.last().unwrap(), 9999);

    let mut small = vec![1, 2];
    append_to_history(&mut small, 3);
    assert_eq!(small, vec![1, 2, 3]);
}

#[test]
fn graph_window_follows_newest_or_holds_start() {
    assert_eq!(history_graph_window(5, 0, true), (0, 5));
    assert_eq!(history_graph_window(50, 0, true), (30, 50));
    assert_eq!(history_graph_window(50, 7, false), (7, 27));
    assert_eq!(history_graph_window(50, 45, false), (30, 50));
    assert_eq!(DASHBOARD_HISTORY_WINDOW, 20);
}

#[test]
fn graph_labels_and_footer() {
    assert_eq!(graph_left_label(0), "oldest");
    assert_eq!(graph_left_label(7), "#8");
    assert_eq!(graph_right_label(50, 50), "newest");
    assert_eq!(graph_right_label(27, 50), "#27 →");
    assert_eq!(
        graph_footer(7, 27, 50, 200),
        "8-27 of 50  [← older] [→ newer] [Home oldest] [End newest]"
    );
    assert_eq!(graph_footer(7, 27, 50, 20), "8-27 of 50");
}

#[test]
fn history_table_skips_and_takes() {
    assert_eq!(history_table_rows(10, 2, 8), (2, 7));
    assert_eq!(history_table_rows(10, 8, 30), (8, 10));
    assert_eq!(history_table_rows(10, 20, 30), (10, 10));
    assert_eq!(history_table_rows(10, 0, 2), (0, 0));
}

// ── keys ─────────────────────────────────────────────────────────────────

#[test]
fn quit_from_main_view_and_close_overlays() {
    let mut n = nav(Phase::Download);
    assert_eq!(handle_key(&mut n, key(KeyCode::Char('q')), 0, false), KeyAction::Quit);
    let mut n = nav(Phase::History);
    assert_eq!(handle_key(&mut n, key(KeyCode::Esc), 0, true), KeyAction::Continue);
    assert_eq!(n.phase, Phase::Results);
    let mut n = nav(Phase::Help);
    assert_eq!(handle_key(&mut n, key(KeyCode::Char('q')), 0, false), KeyAction::Continue);
    assert_eq!(n.phase, Phase::Download);
    let mut n = nav(Phase::Help);
    let ctrl_c = KeyPress { code: KeyCode::Char('c'), ctrl: true };
    assert_eq!(handle_key(&mut n, ctrl_c, 0, false), KeyAction::Quit);
}

#[test]
fn letter_keys() {
    let mut n = nav(Phase::Results);
    assert_eq!(handle_key(&mut n, key(KeyCode::Char('r')), 0, true), KeyAction::Restart);
    assert_eq!(handle_key(&mut n, key(KeyCode::Char('t')), 0, true), KeyAction::Continue);
    assert_eq!(n.theme, Theme::Light);
    handle_key(&mut n, key(KeyCode::Char('t')), 0, true);
    assert_eq!(n.theme, Theme::Dark);
    assert_eq!(handle_key(&mut n, key(KeyCode::Char('e')), 0, true), KeyAction::Export);
    assert_eq!(handle_key(&mut n, key(KeyCode::Char('e')), 0, false), KeyAction::Continue);
    handle_key(&mut n, key(KeyCode::Char('h')), 0, true);
    assert_eq!(n.phase, Phase::History);
    handle_key(&mut n, key(KeyCode::Char('?')), 0, true);
    assert_eq!(n.phase, Phase::Help);
    handle_key(&mut n, key(KeyCode::Char('x')), 0, true);
    assert_eq!(n.phase, Phase::Results);
    // plain 'c' is an ordinary key
    let mut n = nav(Phase::Download);
    assert_eq!(handle_key(&mut n, key(KeyCode::Char('c')), 0, false), KeyAction::Continue);
}

#[test]
fn theme_key_twice_gives_back_the_view() {
    let mut n = nav(Phase::History);
    n.history_scroll = usize::MAX;
    let before = n.clone();
    handle_key(&mut n, key(KeyCode::Char('t')), 3, true);
    assert_ne!(n.theme, before.theme);
    handle_key(&mut n, key(KeyCode::Char('t')), 3, true);
    assert_eq!(n.theme, before.theme);
    assert_eq!(n.phase, before.phase);
    assert_eq!(n.history_scroll, before.history_scroll);
    assert_eq!((n.graph_start, n.graph_follow_newest), (before.graph_start, before.graph_follow_newest));
}

#[test]
fn history_scroll_stays_in_the_table() {
    let mut n = nav(Phase::History);
    handle_key(&mut n, key(KeyCode::Up), 3, false);
    assert_eq!(n.history_scroll, 0);
    for _ in 0..10 {
        handle_key(&mut n, key(KeyCode::Down), 3, false);
    }
    assert_eq!(n.history_scroll, 2);
    handle_key(&mut n, key(KeyCode::Up), 3, false);
    assert_eq!(n.history_scroll, 1);
    let mut main = nav(Phase::Results);
    handle_key(&mut main, key(KeyCode::Down), 3, false);
    assert_eq!(main.history_scroll, 0);
}

#[test]
fn panning_the_history_graph() {
    let len = 50;
    let mut n = nav(Phase::Results);
    handle_key(&mut n, key(KeyCode::Left), len, true);
    assert!(!n.graph_follow_newest);
    assert_eq!(n.graph_start, 30 - DASHBOARD_HISTORY_STEP);
    handle_key(&mut n, key(KeyCode::Right), len, true);
    assert_eq!(n.graph_start, 30);
    assert!(n.graph_follow_newest);
    handle_key(&mut n, key(KeyCode::Home), len, true);
    assert_eq!((n.graph_start, n.graph_follow_newest), (0, false));
    handle_key(&mut n, key(KeyCode::Left), len, true);
    assert_eq!(n.graph_start, 0);
    handle_key(&mut n, key(KeyCode::End), len, true);
    assert!(n.graph_follow_newest);
    let mut overlay = nav(Phase::History);
    handle_key(&mut overlay, key(KeyCode::Left), len, true);
    assert!(overlay.graph_follow_newest);
}

// ── measurement pipeline ─────────────────────────────────────────────────

#[test]
fn pipeline_runs_through_every_phase() {
    let mut phase = Phase::ConnectivityCheck;
    let mut dl: Vec<WorkerState<f64>> = Vec::new();
    let mut ul: Vec<WorkerState<f64>> = Vec::new();
    let mut step = |e: NetEvent<f64>, phase: &mut Phase, dl: &mut Vec<_>, ul: &mut Vec<_>| {
        apply_network_event(phase, dl, ul, false, e, 0.0)
    };
    assert!(!step(NetEvent::IpInfoReceived, &mut phase, &mut dl, &mut ul));
    assert_eq!(phase, Phase::ServerSelection);
    step(NetEvent::ServersReceived, &mut phase, &mut dl, &mut ul);
    assert_eq!(phase, Phase::LatencyMeasurement);
    step(NetEvent::PingSample, &mut phase, &mut dl, &mut ul);
    assert_eq!(phase, Phase::LatencyMeasurement);
    step(NetEvent::PingComplete, &mut phase, &mut dl, &mut ul);
    assert_eq!(phase, Phase::Download);
    assert_eq!(dl.len(), WORKER_SLOTS);
    assert!(dl.iter().all(|w| w.active && !w.complete && w.speed_mbps == 0.0));
    step(NetEvent::DownloadSample { worker_id: 3, speed: 12.5 }, &mut phase, &mut dl, &mut ul);
    assert_eq!(dl[3].speed_mbps, 12.5);
    step(NetEvent::DownloadSample { worker_id: 99, speed: 1.0 }, &mut phase, &mut dl, &mut ul);
    assert!(!step(NetEvent::DownloadComplete, &mut phase, &mut dl, &mut ul));
    assert_eq!(phase, Phase::Upload);
    assert!(dl.iter().all(|w| !w.active && w.complete));
    assert_eq!(ul.len(), WORKER_SLOTS);
    step(NetEvent::UploadSample { worker_id: 0, speed: 3.0 }, &mut phase, &mut dl, &mut ul);
    assert_eq!(ul[0].speed_mbps, 3.0);
    assert!(step(NetEvent::UploadComplete, &mut phase, &mut dl, &mut ul));
    assert_eq!(phase, Phase::Results);
    assert!(ul.iter().all(|w| w.complete));
}

#[test]
fn skipping_upload_ends_after_download() {
    let mut phase = Phase::Download;
    let mut dl = fresh_workers(WORKER_SLOTS, 0.0f64);
    let mut ul: Vec<WorkerState<f64>> = Vec::new();
    assert!(apply_network_event(&mut phase, &mut dl, &mut ul, true, NetEvent::DownloadComplete, 0.0));
    assert_eq!(phase, Phase::Results);
    assert!(ul.is_empty());
}

#[test]
fn worker_helpers() {
    let mut w = fresh_workers(2, 0u32);
    record_worker_speed(&mut w, 1, 7u32);
    assert_eq!(w[1].speed_mbps, 7);
    assert!(w[1].active);
    finish_workers(&mut w);
    assert!(w.iter().all(|x| x.complete && !x.active));
    assert_eq!(w[1].speed_mbps, 7);
}

// ── state ────────────────────────────────────────────────────────────────

#[test]
fn initial_theme_from_command_line_or_config() {
    assert_eq!(initial_theme(Some(ThemeArg::Light), "dark", false), Theme::Light);
    assert_eq!(initial_theme(Some(ThemeArg::Dark), "light", true), Theme::Dark);
    assert_eq!(initial_theme(None, "light", false), Theme::Light);
    assert_eq!(initial_theme(None, "dark", true), Theme::Dark);
    assert_eq!(initial_theme(None, "auto", false), Theme::Dark);
    assert_eq!(initial_theme(None, "auto", true), Theme::Light);
    assert_eq!(initial_theme(None, "Light", false), Theme::Dark);
    assert_eq!(toggled_theme(Theme::Dark), Theme::Light);
}

#[test]
fn config_defaults() {
    let c = Config::default();
    assert_eq!(c.theme, "auto");
    assert_eq!(c.parallel_workers, 8);
    assert_eq!(c.ping_count, 100);
    assert_eq!(c.test_duration_secs, 10);
    assert_eq!(c.preferred_server, "");
    assert_eq!(c.export_on_complete, "");
    assert_eq!(Phase::default(), Phase::Init);
}

#[test]
fn system_background_from_terminal_colours() {
    assert!(prefers_light_background("0;15"));
    assert!(prefers_light_background("0;default;7"));
    assert!(prefers_light_background("7"));
    assert!(!prefers_light_background("15;0"));
    assert!(!prefers_light_background("0;157"));
    assert!(!prefers_light_background(""));
}

#[test]
fn export_after_a_finished_test() {
    assert_eq!(completion_export(Some(ExportFormat::Csv), "json"), Some(ExportFormat::Csv));
    assert_eq!(completion_export(None, "json"), Some(ExportFormat::Json));
    assert_eq!(completion_export(None, "csv"), Some(ExportFormat::Csv));
    assert_eq!(completion_export(None, ""), None);
    assert_eq!(completion_export(None, "xml"), None);
}

#[test]
fn preferred_server_from_command_line_or_config() {
    let mut c = Config::default();
    c.preferred_server = "2".into();
    let cli = Cli { server: None, no_upload: false, quiet: false, export: None, theme: None };
    assert_eq!(preferred_server_id(&cli, &c), "2");
    let cli = Cli { server: Some("5".into()), ..cli };
    assert_eq!(preferred_server_id(&cli, &c), "5");
}

#[test]
fn ip_info_placeholders() {
    let u = IpInfo::unavailable();
    assert_eq!((u.ip.as_str(), u.isp.as_str()), ("Unavailable", "ISP lookup unavailable"));
    assert_eq!(u.location, "Unknown location");
    let k = IpInfo::unknown();
    assert_eq!((k.ip.as_str(), k.isp.as_str(), k.location.as_str()), ("Unknown", "Unknown", "Unknown"));
}
