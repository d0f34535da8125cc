//! The plain data of a speed-test session: phases, theme, the client's
//! address information, configuration and command-line options.
use vstd::prelude::*;
use crate::text::text_eq;

verus! {

/// The stage the dashboard is in.
#[derive(Debug, Clone, PartialEq)]
pub enum Phase {
    Init,
    ConnectivityCheck,
    ServerSelection,
    LatencyMeasurement,
    Download,
    Upload,
    Results,
    History,
    Help,
    Error(String),
}

impl Default for Phase {
    fn default() -> (r: Self)
        ensures
            r is Init,
    {
        Phase::Init
    }
}

/// Which colour palette the dashboard is drawn with.
#[derive(Debug, Clone, Copy, PartialEq, Eq, Structural)]
pub enum Theme {
    Dark,
    Light,
}

/// The other palette.
pub open spec fn toggle_spec(theme: Theme) -> Theme {
    match theme {
        Theme::Dark => Theme::Light,
        Theme::Light => Theme::Dark,
    }
}

/// The other palette (what the `t` key switches to).
pub fn toggled_theme(theme: Theme) -> (r: Theme)
    ensures
        r == toggle_spec(theme),
{
    match theme {
        Theme::Dark => Theme::Light,
        Theme::Light => Theme::Dark,
    }
}

/// Switching palettes twice gives back the palette one started with.
pub proof fn lemma_toggle_twice(theme: Theme)
    ensures
        toggle_spec(toggle_spec(theme)) == theme,
{
}

/// The public address of the client, its provider and its location.
#[derive(Debug, Clone, Default)]
pub struct IpInfo {
    pub ip: String,
    pub isp: String,
    pub location: String,
}

impl IpInfo {
    /// What the dashboard shows while no lookup has answered.
    pub fn unavailable() -> (r: IpInfo)
        ensures
            r.ip@ == "Unavailable"@,
            r.isp@ == "ISP lookup unavailable"@,
            r.location@ == "Unknown location"@,
    {
        IpInfo {
            ip: String::from_str("Unavailable"),
            isp: String::from_str("ISP lookup unavailable"),
            location: String::from_str("Unknown location"),
        }
    }

    /// What the quiet mode reports when the lookup fails.
    pub fn unknown() -> (r: IpInfo)
        ensures
            r.ip@ == "Unknown"@,
            r.isp@ == "Unknown"@,
            r.location@ == "Unknown"@,
    {
        IpInfo {
            ip: String::from_str("Unknown"),
            isp: String::from_str("Unknown"),
            location: String::from_str("Unknown"),
        }
    }
}

/// Settings read from the configuration file.
#[derive(Debug, Clone)]
pub struct Config {
    pub theme: String,
    pub parallel_workers: usize,
    pub ping_count: usize,
    pub test_duration_secs: u64,
    pub preferred_server: String,
    /// Export after every completed test: `json`, `csv`, or empty for none.
    pub export_on_complete: String,
}

impl Default for Config {
    fn default() -> (r: Self)
        ensures
            r.theme@ == "auto"@,
            r.parallel_workers == 8,
            r.ping_count == 100,
            r.test_duration_secs == 10,
            r.preferred_server@ == Seq::<char>::empty(),
            r.export_on_complete@ == Seq::<char>::empty(),
    {
        Config {
            theme: String::from_str("auto"),
            parallel_workers: 8,
            ping_count: 100,
            test_duration_secs: 10,
            preferred_server: String::new(),
            export_on_complete: String::new(),
        }
    }
}

/// Export formats that can be asked for on the command line.
#[derive(Debug, Clone, Copy, PartialEq, Eq, Structural)]
pub enum ExportFormat {
    Json,
    Csv,
    Png,
}

/// Themes that can be forced on the command line.
#[derive(Debug, Clone, Copy, PartialEq, Eq, Structural)]
pub enum ThemeArg {
    Dark,
    Light,
}

/// The command-line options.
#[derive(Debug, Clone)]
pub struct Cli {
    /// Use a specific test server by ID
    pub server: Option<String>,
    /// Skip upload phase
    pub no_upload: bool,
    /// Run silently, print JSON result on exit
    pub quiet: bool,
    /// Export results: json | csv | png
    pub export: Option<ExportFormat>,
    /// Force theme: dark | light
    pub theme: Option<ThemeArg>,
}

/// The palette the first test starts with: the one forced on the command
/// line; else, from the configuration, light for `light`, the system's
/// preference for `auto`, and dark for anything else.
pub open spec fn initial_theme_spec(
    forced: Option<ThemeArg>,
    configured: Seq<char>,
    system_prefers_light: bool,
) -> Theme {
    match forced {
        Some(ThemeArg::Dark) => Theme::Dark,
        Some(ThemeArg::Light) => Theme::Light,
        None => if configured == "light"@ {
            Theme::Light
        } else if configured == "auto"@ && system_prefers_light {
            Theme::Light
        } else {
            Theme::Dark
        },
    }
}

/// The palette the first test starts with, given whether the system prefers
/// a light background.
pub fn initial_theme(forced: Option<ThemeArg>, configured: &str, system_prefers_light: bool) -> (r:
    Theme)
    ensures
        r == initial_theme_spec(forced, configured@, system_prefers_light),
{
    match forced {
        Some(ThemeArg::Dark) => Theme::Dark,
        Some(ThemeArg::Light) => Theme::Light,
        None => if text_eq(configured, "light") {
            Theme::Light
        } else if text_eq(configured, "auto") && system_prefers_light {
            Theme::Light
        } else {
            Theme::Dark
        },
    }
}

/// The text after the last `;` of `s` (all of `s` when it has none).
pub open spec fn last_field(s: Seq<char>) -> Seq<char>
    decreases s.len(),
{
    if s.len() == 0 {
        s
    } else if s.last() == ';' {
        Seq::empty()
    } else {
        last_field(s.drop_last()).push(s.last())
    }
}

/// Whether a terminal colour setting of the form `foreground;background`
/// (the `COLORFGBG` convention) names a light background: white (15) or
/// light grey (7).
pub open spec fn light_background_spec(colors: Seq<char>) -> bool {
    last_field(colors) == "15"@ || last_field(colors) == "7"@
}

/// Whether the terminal colour setting names a light background.
pub fn prefers_light_background(colors: &str) -> (r: bool)
    ensures
        r == light_background_spec(colors@),
{
    let n = colors.unicode_len();
    let mut i: usize = n;
    proof {
        assert(colors@.subrange(0, n as int) =~= colors@);
        assert(colors@.subrange(n as int, n as int) =~= Seq::<char>::empty());
        assert(last_field(colors@) + Seq::<char>::empty() =~= last_field(colors@));
    }
    while i > 0 && colors.get_char(i - 1) != ';'
        invariant
            n == colors@.len(),
            i <= n,
            last_field(colors@) == last_field(colors@.subrange(0, i as int)) + colors@.subrange(
                i as int,
                n as int,
            ),
        decreases i,
    {
        proof {
            let p = colors@.subrange(0, i as int);
            assert(p.drop_last() =~= colors@.subrange(0, i - 1));
            assert(colors@.subrange(i - 1, n as int) =~= seq![p.last()] + colors@.subrange(
                i as int,
                n as int,
            ));
            assert(last_field(colors@.subrange(0, i - 1)).push(p.last()) + colors@.subrange(
                i as int,
                n as int,
            ) =~= last_field(colors@.subrange(0, i - 1)) + colors@.subrange(i - 1, n as int));
        }
        i = i - 1;
    }
    proof {
        assert(last_field(colors@.subrange(0, i as int)) =~= Seq::<char>::empty());
        assert(last_field(colors@) =~= colors@.subrange(i as int, n as int));
    }
    let field = colors.substring_char(i, n);
    text_eq(field, "15") || text_eq(field, "7")
}

/// The format to export in when a test completes: the one asked for on the
/// command line, else the configured `json` or `csv`, else none.
pub fn completion_export(requested: Option<ExportFormat>, configured: &str) -> (r: Option<
    ExportFormat,
>)
    ensures
        r == (match requested {
            Some(f) => Some(f),
            None => if configured@ == "json"@ {
                Some(ExportFormat::Json)
            } else if configured@ == "csv"@ {
                Some(ExportFormat::Csv)
            } else {
                None
            },
        }),
{
    match requested {
        Some(f) => Some(f),
        None => if text_eq(configured, "json") {
            Some(ExportFormat::Json)
        } else if text_eq(configured, "csv") {
            Some(ExportFormat::Csv)
        } else {
            None
        },
    }
}

/// The server the user asked for: the one on the command line, else the one
/// in the configuration file.
pub fn preferred_server_id(cli: &Cli, config: &Config) -> (r: String)
    ensures
        r@ == (match cli.server {
            Some(s) => s@,
            None => config.preferred_server@,
        }),
{
    match &cli.server {
        Some(s) => s.clone(),
        None => config.preferred_server.clone(),
    }
}

} // verus!
