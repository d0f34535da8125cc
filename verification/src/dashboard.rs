//! What the dashboard panels say: the status line and stage pills, the
//! server card, and the glyph layout of the large speed readout.
use vstd::prelude::*;
use crate::control::{phase_after, NetEvent};
use crate::state::{IpInfo, Phase};

verus! {

// ─────────────────────────────────────────────────────────────────────────
// Status line and stage pills
// ─────────────────────────────────────────────────────────────────────────

/// The status line of a phase: its label, whether work is under way (the
/// spinner turns and dots run), and whether the test is done.
pub open spec fn phase_status_spec(phase: Phase) -> (Seq<char>, bool, bool) {
    match phase {
        Phase::Init => ("Initializing"@, true, false),
        Phase::ConnectivityCheck => ("Checking connectivity"@, true, false),
        Phase::ServerSelection => ("Selecting server"@, true, false),
        Phase::LatencyMeasurement => ("Measuring latency"@, true, false),
        Phase::Download => ("↓  Download running"@, true, false),
        Phase::Upload => ("↑  Upload running"@, true, false),
        Phase::Results => ("✓  Test complete"@, false, true),
        _ => (""@, false, false),
    }
}

/// The status line of a phase.
pub fn phase_status(phase: &Phase) -> (r: (&'static str, bool, bool))
    ensures
        (r.0@, r.1, r.2) == phase_status_spec(*phase),
{
    match phase {
        Phase::Init => ("Initializing", true, false),
        Phase::ConnectivityCheck => ("Checking connectivity", true, false),
        Phase::ServerSelection => ("Selecting server", true, false),
        Phase::LatencyMeasurement => ("Measuring latency", true, false),
        Phase::Download => ("↓  Download running", true, false),
        Phase::Upload => ("↑  Upload running", true, false),
        Phase::Results => ("✓  Test complete", false, true),
        _ => ("", false, false),
    }
}

/// Frames of the activity spinner.
pub const SPINNER_FRAMES: usize = 10;

/// The spinner frame shown at an animation tick.
pub fn spinner_frame(tick: u64) -> (r: usize)
    ensures
        r == tick % (SPINNER_FRAMES as u64),
        r < SPINNER_FRAMES,
{
    (tick % (SPINNER_FRAMES as u64)) as usize
}

/// The trailing dots of the status label: none, one, two or three in turn
/// while work is under way, none otherwise.
pub fn progress_dots(tick: u64, active: bool) -> (r: &'static str)
    ensures
        r@ == (if !active || tick % 4 == 0 {
            ""@
        } else if tick % 4 == 1 {
            "."@
        } else if tick % 4 == 2 {
            ".."@
        } else {
            "..."@
        }),
{
    if !active {
        ""
    } else {
        let m = tick % 4;
        if m == 0 {
            ""
        } else if m == 1 {
            "."
        } else if m == 2 {
            ".."
        } else {
            "..."
        }
    }
}

/// Whether the current stage's pill shows its bright colour at a tick (it
/// alternates every three ticks).
pub fn pill_pulse_bright(tick: u64) -> (r: bool)
    ensures
        r == ((tick / 3) % 2 == 0),
{
    (tick / 3) % 2 == 0
}

/// The stages shown as pills, in pipeline order.
#[derive(Debug, Clone, Copy, PartialEq, Eq, Structural)]
pub enum Stage {
    Connect,
    Ping,
    Download,
    Upload,
    Done,
}

/// The position of a stage in the pipeline.
pub open spec fn stage_order(stage: Stage) -> int {
    match stage {
        Stage::Connect => 0,
        Stage::Ping => 1,
        Stage::Download => 2,
        Stage::Upload => 3,
        Stage::Done => 4,
    }
}

/// How far along the pipeline a phase is (the pipeline phases only; other
/// phases are not along it).
pub open spec fn phase_progress(phase: Phase) -> int {
    match phase {
        Phase::ConnectivityCheck | Phase::ServerSelection => 0,
        Phase::LatencyMeasurement => 1,
        Phase::Download => 2,
        Phase::Upload => 3,
        Phase::Results => 4,
        _ => -1,
    }
}

/// Whether the pipeline has reached a stage in a phase.
pub open spec fn stage_reached_spec(stage: Stage, phase: Phase) -> bool {
    phase_progress(phase) >= stage_order(stage)
}

/// Whether a stage is the one running in a phase (the final stage never
/// runs).
pub open spec fn stage_current_spec(stage: Stage, phase: Phase) -> bool {
    phase_progress(phase) == stage_order(stage) && !(stage is Done)
}

/// The stages in pill order.
pub fn stages() -> (r: [Stage; 5])
    ensures
        r@ == seq![Stage::Connect, Stage::Ping, Stage::Download, Stage::Upload, Stage::Done],
{
    [Stage::Connect, Stage::Ping, Stage::Download, Stage::Upload, Stage::Done]
}

/// The name on a stage's pill.
pub fn stage_label(stage: Stage) -> (r: &'static str)
    ensures
        r@ == (match stage {
            Stage::Connect => "CONNECT"@,
            Stage::Ping => "PING"@,
            Stage::Download => "DOWNLOAD"@,
            Stage::Upload => "UPLOAD"@,
            Stage::Done => "DONE"@,
        }),
{
    match stage {
        Stage::Connect => "CONNECT",
        Stage::Ping => "PING",
        Stage::Download => "DOWNLOAD",
        Stage::Upload => "UPLOAD",
        Stage::Done => "DONE",
    }
}

/// How a stage's pill is drawn.
#[derive(Debug, Clone, Copy, PartialEq, Eq, Structural)]
pub enum PillLook {
    /// The stage is running.
    Current,
    /// The stage has been reached.
    Reached,
    /// The stage is still ahead.
    Pending,
}

/// How a stage's pill is drawn in a phase.
pub fn pill_look(stage: Stage, phase: &Phase) -> (r: PillLook)
    ensures
        stage_current_spec(stage, *phase) ==> r == PillLook::Current,
        !stage_current_spec(stage, *phase) && stage_reached_spec(stage, *phase) ==> r
            == PillLook::Reached,
        !stage_reached_spec(stage, *phase) ==> r == PillLook::Pending,
{
    let progress: i8 = match phase {
        Phase::ConnectivityCheck | Phase::ServerSelection => 0,
        Phase::LatencyMeasurement => 1,
        Phase::Download => 2,
        Phase::Upload => 3,
        Phase::Results => 4,
        _ => -1,
    };
    let order: i8 = match stage {
        Stage::Connect => 0,
        Stage::Ping => 1,
        Stage::Download => 2,
        Stage::Upload => 3,
        Stage::Done => 4,
    };
    let is_done = match stage {
        Stage::Done => true,
        _ => false,
    };
    if progress == order && !is_done {
        PillLook::Current
    } else if progress >= order {
        PillLook::Reached
    } else {
        PillLook::Pending
    }
}

/// The running stage has been reached, and a stage that has been reached
/// has every earlier stage reached too.
pub proof fn lemma_stages_in_order(stage: Stage, earlier: Stage, phase: Phase)
    ensures
        stage_current_spec(stage, phase) ==> stage_reached_spec(stage, phase),
        stage_reached_spec(stage, phase) && stage_order(earlier) <= stage_order(stage)
            ==> stage_reached_spec(earlier, phase),
        !(stage_current_spec(stage, phase) && stage_current_spec(earlier, phase) && stage
            != earlier),
{
}

/// The pills follow the pipeline: while connecting and choosing a server
/// only CONNECT is running; once the server list arrives the latency is
/// measured and PING is the running pill with CONNECT behind it; a completed
/// ping makes DOWNLOAD the running pill, a completed download makes UPLOAD
/// the running one (or, with the upload skipped, ends the test), and once
/// the test has ended every pill has been reached and none is running.
pub proof fn lemma_pills_follow_pipeline<S>(stage: Stage, skip_upload: bool, phase: Phase)
    ensures
        stage_current_spec(stage, Phase::ConnectivityCheck) <==> stage is Connect,
        stage_reached_spec(stage, Phase::ConnectivityCheck) <==> stage is Connect,
        ({
            let p = phase_after(NetEvent::<S>::IpInfoReceived, skip_upload, phase);
            &&& stage_current_spec(stage, p) <==> stage is Connect
            &&& stage_reached_spec(stage, p) <==> stage is Connect
        }),
        ({
            let p = phase_after(NetEvent::<S>::ServersReceived, skip_upload, phase);
            &&& stage_current_spec(stage, p) <==> stage is Ping
            &&& stage_reached_spec(stage, p) <==> (stage is Connect || stage is Ping)
        }),
        ({
            let p = phase_after(NetEvent::<S>::PingComplete, skip_upload, phase);
            &&& stage_current_spec(stage, p) <==> stage is Download
            &&& stage_reached_spec(stage, p) <==> (stage is Connect || stage is Ping
                || stage is Download)
        }),
        ({
            let p = phase_after(NetEvent::<S>::DownloadComplete, false, phase);
            &&& stage_current_spec(stage, p) <==> stage is Upload
            &&& stage_reached_spec(stage, p) <==> !(stage is Done)
        }),
        ({
            let p = phase_after(NetEvent::<S>::DownloadComplete, true, phase);
            &&& !stage_current_spec(stage, p)
            &&& stage_reached_spec(stage, p)
        }),
        ({
            let p = phase_after(NetEvent::<S>::UploadComplete, skip_upload, phase);
            &&& !stage_current_spec(stage, p)
            &&& stage_reached_spec(stage, p)
        }),
{
}

// ─────────────────────────────────────────────────────────────────────────
// Server card
// ─────────────────────────────────────────────────────────────────────────

/// The texts of the server card.
#[derive(Debug, Clone)]
pub struct ServerCardText {
    pub isp: String,
    pub ip: String,
    pub server: String,
    pub location: String,
}

/// `text` unless it is empty, `fallback` then.
pub open spec fn or_when_empty(text: Seq<char>, fallback: Seq<char>) -> Seq<char> {
    if text.len() == 0 {
        fallback
    } else {
        text
    }
}

/// The texts of the server card for the chosen server (its name and
/// location, when one is chosen) and the client's address information:
/// `Cloudflare` stands in for a missing server name, the client's location
/// (or `Unknown`) for a missing server location, and `Unavailable` for a
/// missing address or provider.
pub fn server_card_text(server: Option<(&str, &str)>, ip_info: &IpInfo) -> (r: ServerCardText)
    ensures
        r.server@ == (match server {
            Some((name, _)) => or_when_empty(name@, "Cloudflare"@),
            None => "Cloudflare"@,
        }),
        r.location@ == (match server {
            Some((_, location)) => or_when_empty(
                location@,
                or_when_empty(ip_info.location@, "Unknown"@),
            ),
            None => or_when_empty(ip_info.location@, "Unknown"@),
        }),
        r.isp@ == or_when_empty(ip_info.isp@, "Unavailable"@),
        r.ip@ == or_when_empty(ip_info.ip@, "Unavailable"@),
{
    let client_location = if ip_info.location.as_str().is_empty() {
        String::from_str("Unknown")
    } else {
        ip_info.location.clone()
    };
    let (server_name, server_location) = match server {
        Some((name, location)) => {
            let n = if name.is_empty() {
                String::from_str("Cloudflare")
            } else {
                String::from_str(name)
            };
            let l = if location.is_empty() {
                client_location
            } else {
                String::from_str(location)
            };
            (n, l)
        },
        None => (String::from_str("Cloudflare"), client_location),
    };
    let isp = if ip_info.isp.as_str().is_empty() {
        String::from_str("Unavailable")
    } else {
        ip_info.isp.clone()
    };
    let ip = if ip_info.ip.as_str().is_empty() {
        String::from_str("Unavailable")
    } else {
        ip_info.ip.clone()
    };
    ServerCardText { isp, ip, server: server_name, location: server_location }
}

// ─────────────────────────────────────────────────────────────────────────
// Large speed readout
// ─────────────────────────────────────────────────────────────────────────

/// One column group of the large speed readout.
#[derive(Debug, Clone, Copy, PartialEq, Eq, Structural)]
pub enum Glyph {
    /// A decimal digit, three columns wide.
    Digit(u32),
    /// The decimal point, one column wide.
    Dot,
    /// A one-column gap.
    Gap,
}

/// The columns a glyph takes.
pub open spec fn glyph_width(g: Glyph) -> int {
    match g {
        Glyph::Digit(_) => 3,
        _ => 1,
    }
}

/// The glyphs drawn for one character of the readout text, followed by a
/// gap: a digit, the decimal point, or nothing for any other character.
pub open spec fn glyphs_for_char(c: char) -> Seq<Glyph> {
    let u = c as u32;
    if 48 <= u <= 57 {
        seq![Glyph::Digit((u - 48) as u32), Glyph::Gap]
    } else if c == '.' {
        seq![Glyph::Dot, Glyph::Gap]
    } else {
        seq![Glyph::Gap]
    }
}

/// The glyphs of a text, every character followed by a gap.
pub open spec fn glyph_run(s: Seq<char>) -> Seq<Glyph>
    decreases s.len(),
{
    if s.len() == 0 {
        Seq::empty()
    } else {
        glyph_run(s.drop_last()) + glyphs_for_char(s.last())
    }
}

/// The glyphs of the readout text: each character's glyphs, without the
/// gap after the last character.
pub open spec fn readout_glyphs(s: Seq<char>) -> Seq<Glyph> {
    let run = glyph_run(s);
    if run.len() > 0 {
        run.drop_last()
    } else {
        run
    }
}

/// The total columns of a row of glyphs.
pub open spec fn glyphs_width(g: Seq<Glyph>) -> int
    decreases g.len(),
{
    if g.len() == 0 {
        0
    } else {
        glyphs_width(g.drop_last()) + glyph_width(g.last())
    }
}

/// The glyphs that draw a readout text such as `12.34`.
pub fn readout_glyph_layout(text: &str) -> (r: Vec<Glyph>)
    ensures
        r@ == readout_glyphs(text@),
{
    let n = text.unicode_len();
    let mut out: Vec<Glyph> = Vec::new();
    let mut i: usize = 0;
    while i < n
        invariant
            n == text@.len(),
            i <= n,
            out@ == glyph_run(text@.subrange(0, i as int)),
        decreases n - i,
    {
        let c = text.get_char(i);
        let u = c as u32;
        let ghost before = out@;
        if 48 <= u && u <= 57 {
            out.push(Glyph::Digit(u - 48));
        } else if c == '.' {
            out.push(Glyph::Dot);
        }
        out.push(Glyph::Gap);
        proof {
            let p = text@.subrange(0, i + 1);
            assert(p.drop_last() =~= text@.subrange(0, i as int));
            assert(p.last() == c);
            assert(out@ =~= before + glyphs_for_char(c));
        }
        i = i + 1;
    }
    assert(text@.subrange(0, n as int) =~= text@);
    if out.len() > 0 {
        out.pop();
        assert(out@ =~= glyph_run(text@).drop_last());
    }
    out
}

/// The values of the decimal digits `0` to `9` of a text, in order.
pub open spec fn digit_values(s: Seq<char>) -> Seq<u32>
    decreases s.len(),
{
    if s.len() == 0 {
        Seq::empty()
    } else if '0' as u32 <= s.last() as u32 <= '9' as u32 {
        digit_values(s.drop_last()).push((s.last() as u32 - '0' as u32) as u32)
    } else {
        digit_values(s.drop_last())
    }
}

/// The values of the digit glyphs of a row of glyphs, in order.
pub open spec fn digit_glyph_values(g: Seq<Glyph>) -> Seq<u32>
    decreases g.len(),
{
    if g.len() == 0 {
        Seq::empty()
    } else {
        match g.last() {
            Glyph::Digit(d) => digit_glyph_values(g.drop_last()).push(d),
            _ => digit_glyph_values(g.drop_last()),
        }
    }
}

proof fn lemma_digit_glyph_values_append(a: Seq<Glyph>, b: Seq<Glyph>)
    ensures
        digit_glyph_values(a + b) == digit_glyph_values(a) + digit_glyph_values(b),
    decreases b.len(),
{
    if b.len() == 0 {
        assert(a + b =~= a);
        assert(digit_glyph_values(a) + digit_glyph_values(b) =~= digit_glyph_values(a));
    } else {
        lemma_digit_glyph_values_append(a, b.drop_last());
        assert((a + b).drop_last() =~= a + b.drop_last());
        assert((a + b).last() == b.last());
        match b.last() {
            Glyph::Digit(d) => {
                assert(digit_glyph_values(a) + digit_glyph_values(b.drop_last()).push(d)
                    =~= (digit_glyph_values(a) + digit_glyph_values(b.drop_last())).push(d));
            },
            _ => {},
        }
    }
}

proof fn lemma_run_digits(s: Seq<char>)
    ensures
        digit_glyph_values(glyph_run(s)) == digit_values(s),
        glyph_run(s).len() > 0 ==> glyph_run(s).last() == Glyph::Gap,
    decreases s.len(),
{
    if s.len() > 0 {
        lemma_run_digits(s.drop_last());
        let g = glyphs_for_char(s.last());
        lemma_digit_glyph_values_append(glyph_run(s.drop_last()), g);
        reveal_with_fuel(digit_glyph_values, 3);
        let u = s.last() as u32;
        if 48 <= u <= 57 {
            assert(g.drop_last() =~= seq![Glyph::Digit((u - 48) as u32)]);
            assert(seq![Glyph::Digit((u - 48) as u32)].drop_last() =~= Seq::<Glyph>::empty());
            assert(digit_glyph_values(g) =~= seq![(u - 48) as u32]);
        } else if s.last() == '.' {
            assert(g.drop_last() =~= seq![Glyph::Dot]);
            assert(seq![Glyph::Dot].drop_last() =~= Seq::<Glyph>::empty());
            assert(digit_glyph_values(g) =~= Seq::<u32>::empty());
        } else {
            assert(g.drop_last() =~= Seq::<Glyph>::empty());
            assert(digit_glyph_values(g) =~= Seq::<u32>::empty());
        }
    }
}

/// Every decimal digit of the readout text, `0` included, is drawn as the
/// digit glyph of its value, in the order of the text, and no other glyph
/// is a digit: the digits read off the readout are the digits of the text.
pub proof fn lemma_readout_shows_every_digit(s: Seq<char>)
    ensures
        digit_glyph_values(readout_glyphs(s)) == digit_values(s),
        digit_glyph_values(readout_glyphs(s)).len() == digit_values(s).len(),
{
    lemma_run_digits(s);
    let run = glyph_run(s);
    if run.len() > 0 {
        assert(run =~= run.drop_last() + seq![Glyph::Gap]);
        lemma_digit_glyph_values_append(run.drop_last(), seq![Glyph::Gap]);
        assert(seq![Glyph::Gap].drop_last() =~= Seq::<Glyph>::empty());
        assert(digit_glyph_values(seq![Glyph::Gap]) =~= Seq::<u32>::empty());
        assert(digit_glyph_values(run.drop_last()) + Seq::<u32>::empty() =~= digit_glyph_values(
            run.drop_last(),
        ));
    }
}

/// The total columns a row of glyphs takes.
pub fn readout_width(glyphs: &Vec<Glyph>) -> (r: u64)
    requires
        glyphs@.len() <= u32::MAX,
    ensures
        r == glyphs_width(glyphs@),
{
    let mut total: u64 = 0;
    let mut i: usize = 0;
    while i < glyphs.len()
        invariant
            i <= glyphs@.len(),
            glyphs@.len() <= u32::MAX,
            total == glyphs_width(glyphs@.subrange(0, i as int)),
            total <= 3 * i,
        decreases glyphs@.len() - i,
    {
        let w: u64 = match glyphs[i] {
            Glyph::Digit(_) => 3,
            _ => 1,
        };
        proof {
            let p = glyphs@.subrange(0, i + 1);
            assert(p.drop_last() =~= glyphs@.subrange(0, i as int));
            assert(p.last() == glyphs@[i as int]);
        }
        total = total + w;
        i = i + 1;
    }
    assert(glyphs@.subrange(0, glyphs@.len() as int) =~= glyphs@);
    total
}

} // verus!
