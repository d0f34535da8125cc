use speedtest_tui::dashboard::{
    phase_status, pill_look, pill_pulse_bright, progress_dots, readout_glyph_layout,
    readout_width, server_card_text, spinner_frame, stage_label, stages, Glyph, PillLook, Stage,
};
use speedtest_tui::export::{csv_header, export_file, export_notice};
use speedtest_tui::layout::{
    bar_x, card_divider_x, centered_x, help_popup, inset_card, quality_row, readout_halves,
    readout_origin, right_aligned_x, shrink, worker_bar_layout, worker_panel_rows, BarLayout, Rect,
};
use speedtest_tui::state::{ExportFormat, IpInfo, Phase, Theme};
use speedtest_tui::theme::{mix, Rgb, ThemeColors};
use speedtest_tui::timestamps::{
    export_timestamp, history_timestamp, timestamp_or_dash, timestamp_or_empty,
};
use speedtest_tui::transfer::{
    download_test_url, download_url, preferred_server_index, probe_url, test_host,
    upload_body_size,
};

fn rect(x: u16, y: u16, width: u16, height: u16) -> Rect {
    Rect { x, y, width, height }
}

// ── transfers ────────────────────────────────────────────────────────────

#[test]
fn transfer_request_sizes() {
    assert_eq!(download_test_url(), "https://speed.cloudflare.com/__down?bytes=25000000");
    assert_eq!(upload_body_size(), 4_194_304);
}

#[test]
fn measurement_addresses() {
    assert_eq!(download_url(262_144), "https://speed.cloudflare.com/__down?bytes=262144");
    assert_eq!(probe_url("speed.cloudflare.com"), "https://speed.cloudflare.com/__down?bytes=1");
    assert_eq!(probe_url("example.net"), "https://example.net/__down?bytes=1");
    let host = "example.net".to_string();
    assert_eq!(test_host(Some(&host)), "example.net");
    assert_eq!(test_host(None), "speed.cloudflare.com");
}

#[test]
fn preferred_server_lookup() {
    let ids = vec!["1".to_string(), "2".to_string(), "2".to_string()];
    assert_eq!(preferred_server_index(&ids, "2"), Some(1));
    assert_eq!(preferred_server_index(&ids, "9"), None);
    assert_eq!(preferred_server_index(&ids, ""), None);
}

// ── palette ──────────────────────────────────────────────────────────────

#[test]
fn palettes() {
    let dark = ThemeColors::for_theme(&Theme::Dark);
    assert_eq!(dark.bg, Rgb { r: 13, g: 12, b: 22 });
    assert_eq!(dark.dl_primary, Rgb { r: 244, g: 152, b: 68 });
    assert_eq!(dark.download_color(), dark.dl_primary);
    assert_eq!(dark.upload_color(), dark.ul_primary);
    let light = ThemeColors::for_theme(&Theme::Light);
    assert_eq!(light.bg, Rgb { r: 248, g: 247, b: 255 });
    assert_eq!(light.accent_teal, Rgb { r: 0, g: 140, b: 125 });
    assert_eq!(light.quality_color("A"), light.accent_green);
    assert_eq!(light.quality_color("B"), mix(light.accent_green, light.accent_yellow));
    assert_ne!(light.quality_color("B"), light.accent_green);
    assert_ne!(light.quality_color("B"), light.accent_yellow);
    assert_eq!(
        mix(Rgb { r: 10, g: 200, b: 0 }, Rgb { r: 21, g: 100, b: 255 }),
        Rgb { r: 15, g: 150, b: 127 }
    );
    assert_eq!(light.quality_color("C"), light.accent_yellow);
    assert_eq!(light.quality_color("D"), light.dl_primary);
    assert_eq!(light.quality_color("F"), light.accent_red);
    assert_eq!(light.quality_color("N/A"), light.accent_red);
}

// ── panels ───────────────────────────────────────────────────────────────

#[test]
fn status_line_per_phase() {
    assert_eq!(phase_status(&Phase::Init), ("Initializing", true, false));
    assert_eq!(phase_status(&Phase::Download), ("↓  Download running", true, false));
    assert_eq!(phase_status(&Phase::Results), ("✓  Test complete", false, true));
    assert_eq!(phase_status(&Phase::Help), ("", false, false));
    assert_eq!(spinner_frame(23), 3);
    assert_eq!(progress_dots(6, true), "..");
    assert_eq!(progress_dots(6, false), "");
    assert!(pill_pulse_bright(2));
    assert!(!pill_pulse_bright(3));
}

#[test]
fn stage_pills_during_upload() {
    let looks: Vec<PillLook> = stages().iter().map(|s| pill_look(*s, &Phase::Upload)).collect();
    assert_eq!(
        looks,
        vec![PillLook::Reached, PillLook::Reached, PillLook::Reached, PillLook::Current, PillLook::Pending]
    );
    assert_eq!(pill_look(Stage::Connect, &Phase::ServerSelection), PillLook::Current);
    assert_eq!(pill_look(Stage::Done, &Phase::Results), PillLook::Reached);
    assert_eq!(pill_look(Stage::Connect, &Phase::Init), PillLook::Pending);
    assert_eq!(stage_label(Stage::Download), "DOWNLOAD");
}

#[test]
fn server_card_placeholders() {
    let empty = IpInfo::default();
    let t = server_card_text(None, &empty);
    assert_eq!(t.server, "Cloudflare");
    assert_eq!(t.location, "Unknown");
    assert_eq!(t.isp, "Unavailable");
    assert_eq!(t.ip, "Unavailable");

    let info = IpInfo { ip: "1.2.3.4".into(), isp: "ISP".into(), location: "Lagos".into() };
    let t = server_card_text(Some(("", "")), &info);
    assert_eq!((t.server.as_str(), t.location.as_str()), ("Cloudflare", "Lagos"));
    let t = server_card_text(Some(("Edge", "Global Anycast")), &info);
    assert_eq!((t.server.as_str(), t.location.as_str()), ("Edge", "Global Anycast"));
    assert_eq!((t.isp.as_str(), t.ip.as_str()), ("ISP", "1.2.3.4"));
}

#[test]
fn readout_glyphs() {
    let g = readout_glyph_layout("14.52");
    assert_eq!(
        g,
        vec![
            Glyph::Digit(1),
            Glyph::Gap,
            Glyph::Digit(4),
            Glyph::Gap,
            Glyph::Dot,
            Glyph::Gap,
            Glyph::Digit(5),
            Glyph::Gap,
            Glyph::Digit(2),
        ]
    );
    assert_eq!(readout_width(&g), 17);
    assert_eq!(readout_glyph_layout(""), vec![]);
}

// ── layout ───────────────────────────────────────────────────────────────

#[test]
fn shrink_and_center() {
    assert_eq!(shrink(rect(0, 0, 80, 24), 1), rect(1, 1, 78, 22));
    assert_eq!(shrink(rect(5, 5, 1, 1), 1), rect(6, 6, 0, 0));
    assert_eq!(centered_x(10, 20, 4), 18);
    assert_eq!(centered_x(10, 3, 4), 10);
    assert_eq!(right_aligned_x(10, 20, 4), 25);
    assert_eq!(right_aligned_x(10, 3, 4), 10);
}

#[test]
fn popups_and_cards() {
    assert_eq!(help_popup(rect(1, 1, 100, 40)), rect(22, 13, 58, 16));
    assert_eq!(help_popup(rect(0, 0, 30, 10)), rect(0, 0, 30, 10));
    assert_eq!(inset_card(rect(2, 3, 10, 1)), rect(3, 4, 8, 0));
    assert_eq!(readout_halves(rect(0, 0, 10, 7)), (rect(0, 0, 10, 3), rect(0, 3, 10, 4)));
    let rows = worker_panel_rows(rect(0, 0, 20, 14));
    assert_eq!(rows.chart, rect(1, 1, 18, 9));
    assert_eq!((rows.count_y, rows.total_y), (11, 12));
    assert_eq!(quality_row(rect(0, 0, 40, 10), true), Some(8));
    assert_eq!(quality_row(rect(0, 0, 40, 10), false), None);
    assert_eq!(quality_row(rect(0, 0, 40, 4), true), None);
}

#[test]
fn worker_bars_fit_the_panel() {
    let wide = worker_bar_layout(rect(0, 0, 30, 5), 8);
    assert_eq!(wide, BarLayout { bar_width: 2, gap: 1, x0: 3 });
    assert_eq!(bar_x(wide, 2), 9);
    assert_eq!(worker_bar_layout(rect(0, 0, 16, 5), 8), BarLayout { bar_width: 1, gap: 1, x0: 0 });
    assert_eq!(worker_bar_layout(rect(4, 0, 10, 5), 8), BarLayout { bar_width: 1, gap: 0, x0: 5 });
    assert_eq!(worker_bar_layout(rect(0, 0, 5, 5), 8), BarLayout { bar_width: 1, gap: 0, x0: 0 });
}

#[test]
fn server_card_divider() {
    assert_eq!(card_divider_x(rect(2, 0, 60, 10)), 2 + 20);
    assert_eq!(card_divider_x(rect(0, 0, 20, 10)), 8);
    assert_eq!(card_divider_x(rect(0, 0, 30, 10)), 11);
}

#[test]
fn speed_readout_placement() {
    assert_eq!(readout_origin(rect(0, 0, 40, 7), 17), Some((8, 1)));
    assert_eq!(readout_origin(rect(0, 0, 20, 7), 17), None);
    assert_eq!(readout_origin(rect(0, 0, 40, 4), 17), None);
}

// ── export and timestamps ────────────────────────────────────────────────

#[test]
fn export_files_and_notices() {
    assert_eq!(export_file(ExportFormat::Json, None), Some("speedtest-result.json".to_string()));
    assert_eq!(export_file(ExportFormat::Csv, None), Some("speedtest-results.csv".to_string()));
    assert_eq!(export_file(ExportFormat::Csv, Some("out.csv")), Some("out.csv".to_string()));
    assert_eq!(export_file(ExportFormat::Png, Some("x.png")), None);
    assert_eq!(export_notice(ExportFormat::Json, "a.json"), "Exported JSON to a.json");
    assert_eq!(export_notice(ExportFormat::Png, ""), "PNG export: not yet implemented.");
    let header = csv_header();
    assert_eq!(header.len(), 11);
    assert_eq!(header[0], "timestamp");
    assert_eq!(header[10], "grade");
}

#[test]
fn timestamps_are_rendered_by_chrono() {
    assert_eq!(history_timestamp(Some((0, 0))), "1970-01-01 00:00");
    assert_eq!(history_timestamp(Some((1_781_000_820, 5))), "2026-06-09 10:27");
    assert_eq!(history_timestamp(None), "—");
    assert_eq!(export_timestamp(Some((0, 0))), "1970-01-01T00:00:00+00:00");
    assert_eq!(export_timestamp(None), "");
    assert_eq!(history_timestamp(Some((i64::MAX, 0))), "—");
    assert_eq!(timestamp_or_dash(Some("x".into())), "x");
    assert_eq!(timestamp_or_empty(None), "");
}
