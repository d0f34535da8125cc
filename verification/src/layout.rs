//! Screen geometry of the dashboard: where panels, bars, labels and
//! overlays go inside the cells of the terminal.
use vstd::prelude::*;

verus! {

/// A rectangle of terminal cells.
#[derive(Debug, Clone, Copy, PartialEq, Eq, Structural)]
pub struct Rect {
    pub x: u16,
    pub y: u16,
    pub width: u16,
    pub height: u16,
}

impl Rect {
    /// The rectangle lies within the coordinates a terminal can address:
    /// its right and bottom edges do not pass the largest coordinate.
    pub open spec fn wf(self) -> bool {
        &&& self.x + self.width <= u16::MAX
        &&& self.y + self.height <= u16::MAX
    }

    /// Whether `inner` lies within this rectangle.
    pub open spec fn contains_rect(self, inner: Rect) -> bool {
        &&& self.x <= inner.x
        &&& self.y <= inner.y
        &&& inner.x + inner.width <= self.x + self.width
        &&& inner.y + inner.height <= self.y + self.height
    }
}

/// `a - b`, or zero when `b` is larger.
pub open spec fn sub0(a: int, b: int) -> int {
    if a > b {
        a - b
    } else {
        0
    }
}

/// The rectangle `n` cells in from every edge (empty when too small).
pub fn shrink(r: Rect, n: u16) -> (s: Rect)
    requires
        r.x + n <= u16::MAX,
        r.y + n <= u16::MAX,
        2 * n <= u16::MAX,
    ensures
        s == (Rect {
            x: (r.x + n) as u16,
            y: (r.y + n) as u16,
            width: sub0(r.width as int, 2 * n) as u16,
            height: sub0(r.height as int, 2 * n) as u16,
        }),
        r.wf() && n <= r.width / 2 && n <= r.height / 2 ==> s.wf() && r.contains_rect(s),
{
    Rect {
        x: r.x + n,
        y: r.y + n,
        width: r.width.saturating_sub(n * 2),
        height: r.height.saturating_sub(n * 2),
    }
}

/// The first column of a text `len` cells long centred in the columns
/// `ax..ax + aw` (at `ax` when it is wider).
pub fn centered_x(ax: u16, aw: u16, len: u16) -> (r: u16)
    requires
        ax + sub0(aw as int, len as int) / 2 <= u16::MAX,
    ensures
        r == ax + sub0(aw as int, len as int) / 2,
        len <= aw ==> r + len <= ax + aw,
{
    ax + aw.saturating_sub(len) / 2
}

/// The first column of a text `len` cells long set against the right edge of
/// the columns `ax..ax + aw`, one cell in.
pub fn right_aligned_x(ax: u16, aw: u16, len: u16) -> (r: u16)
    requires
        len < u16::MAX,
        ax + sub0(aw as int, len + 1) <= u16::MAX,
    ensures
        r == ax + sub0(aw as int, len + 1),
        len < aw ==> r + len + 1 == ax + aw,
{
    ax + aw.saturating_sub(len + 1)
}

/// The help overlay: at most 58 columns by 16 rows, centred in the area.
pub fn help_popup(area: Rect) -> (r: Rect)
    requires
        area.wf(),
    ensures
        r.width == (if area.width < 58 {
            area.width
        } else {
            58
        }),
        r.height == (if area.height < 16 {
            area.height
        } else {
            16
        }),
        r.x == area.x + (area.width - r.width) / 2,
        r.y == area.y + (area.height - r.height) / 2,
        r.wf(),
        area.contains_rect(r),
{
    let pw = if area.width < 58 {
        area.width
    } else {
        58
    };
    let ph = if area.height < 16 {
        area.height
    } else {
        16
    };
    Rect {
        x: area.x + area.width.saturating_sub(pw) / 2,
        y: area.y + area.height.saturating_sub(ph) / 2,
        width: pw,
        height: ph,
    }
}

/// The card inside a panel: one cell in from the panel's inner edge at the
/// top and left, two cells narrower and shorter.
pub fn inset_card(inner: Rect) -> (r: Rect)
    requires
        inner.wf(),
        inner.x < u16::MAX,
        inner.y < u16::MAX,
    ensures
        r == (Rect {
            x: (inner.x + 1) as u16,
            y: (inner.y + 1) as u16,
            width: sub0(inner.width as int, 2) as u16,
            height: sub0(inner.height as int, 2) as u16,
        }),
{
    Rect {
        x: inner.x + 1,
        y: inner.y + 1,
        width: inner.width.saturating_sub(2),
        height: inner.height.saturating_sub(2),
    }
}

/// The download and upload halves of the live readout: the top half (rounded
/// down) and the rest.
pub fn readout_halves(inner: Rect) -> (r: (Rect, Rect))
    requires
        inner.wf(),
    ensures
        r.0 == (Rect { height: inner.height / 2, ..inner }),
        r.1 == (Rect {
            y: (inner.y + inner.height / 2) as u16,
            height: (inner.height - inner.height / 2) as u16,
            ..inner
        }),
        r.0.height + r.1.height == inner.height,
        inner.contains_rect(r.0),
        inner.contains_rect(r.1),
{
    let half = inner.height / 2;
    (
        Rect { x: inner.x, y: inner.y, width: inner.width, height: half },
        Rect { x: inner.x, y: inner.y + half, width: inner.width, height: inner.height - half },
    )
}

/// The rows of a worker panel: its bar chart (all but the last three rows
/// of the inner area), the worker-count line and the total-speed line.
pub struct WorkerPanelRows {
    pub chart: Rect,
    pub count_y: u16,
    pub total_y: u16,
}

/// The rows of a worker panel drawn in `area`.
pub fn worker_panel_rows(area: Rect) -> (r: WorkerPanelRows)
    requires
        area.wf(),
        area.x < u16::MAX,
        area.y < u16::MAX,
    ensures
        r.chart == (Rect {
            x: (area.x + 1) as u16,
            y: (area.y + 1) as u16,
            width: sub0(area.width as int, 2) as u16,
            height: sub0(sub0(area.height as int, 2), 3) as u16,
        }),
        r.count_y == area.y + 1 + sub0(sub0(area.height as int, 2), 2),
        r.total_y == area.y + 1 + sub0(sub0(area.height as int, 2), 1),
{
    let inner = shrink(area, 1);
    WorkerPanelRows {
        chart: Rect {
            x: inner.x,
            y: inner.y,
            width: inner.width,
            height: inner.height.saturating_sub(3),
        },
        count_y: inner.y + inner.height.saturating_sub(2),
        total_y: inner.y + inner.height.saturating_sub(1),
    }
}

/// How the bars of the worker chart are laid out.
#[derive(Debug, Clone, Copy, PartialEq, Eq, Structural)]
pub struct BarLayout {
    /// Columns per bar.
    pub bar_width: u16,
    /// Columns between bars.
    pub gap: u16,
    /// Column of the first bar.
    pub x0: u16,
}

/// The columns `n` bars take with a given bar width and gap (the bar count
/// and the gap count taken as 16-bit numbers).
pub open spec fn bars_span(n: int, bar_width: int, gap: int) -> int {
    (n as u16) * bar_width + ((n - 1) as u16) * gap
}

/// The bar layout for `n` bars in `area`: two-column bars with one-column
/// gaps when they fit, else one-column bars with gaps, else one-column bars
/// side by side; the bars are centred (from the left edge when they do not
/// fit).
pub fn worker_bar_layout(area: Rect, n: usize) -> (r: BarLayout)
    requires
        area.wf(),
        1 <= n,
        bars_span(n as int, 2, 1) <= u16::MAX,
    ensures
        bars_span(n as int, 2, 1) <= area.width ==> r.bar_width == 2 && r.gap == 1,
        bars_span(n as int, 2, 1) > area.width && bars_span(n as int, 1, 1) <= area.width
            ==> r.bar_width == 1 && r.gap == 1,
        bars_span(n as int, 1, 1) > area.width ==> r.bar_width == 1 && r.gap == 0,
        r.x0 == area.x + sub0(area.width as int, bars_span(n as int, r.bar_width as int, r.gap as int))
            / 2,
        bars_span(n as int, r.bar_width as int, r.gap as int) <= area.width ==> r.x0 + bars_span(
            n as int,
            r.bar_width as int,
            r.gap as int,
        ) <= area.x + area.width,
{
    let m = n as u16;
    let k = (n - 1) as u16;
    let needed_2_1 = m * 2 + k;
    let needed_1_1 = m + k;
    let (bw, gap, total) = if area.width >= needed_2_1 {
        (2u16, 1u16, needed_2_1)
    } else if area.width >= needed_1_1 {
        (1u16, 1u16, needed_1_1)
    } else {
        (1u16, 0u16, m)
    };
    BarLayout { bar_width: bw, gap, x0: area.x + area.width.saturating_sub(total) / 2 }
}

/// The first column of bar `i`.
pub fn bar_x(layout: BarLayout, i: u16) -> (r: u16)
    requires
        layout.bar_width + layout.gap <= u16::MAX,
        layout.x0 + i * (layout.bar_width + layout.gap) <= u16::MAX,
    ensures
        r == layout.x0 + i * (layout.bar_width + layout.gap),
{
    let step = layout.bar_width + layout.gap;
    proof {
        assert(0 <= i * step) by (nonlinear_arith)
            requires
                i >= 0,
                step >= 0,
        ;
    }
    layout.x0 + i * step
}

/// The column of the divider between the item and value columns of the
/// server card: a third of the way across, at least eleven cells in, and at
/// most twelve cells before the right edge.
pub fn card_divider_x(table: Rect) -> (r: u16)
    requires
        table.wf(),
    ensures
        ({
            let third = (if table.width * 34 > u16::MAX {
                u16::MAX as int
            } else {
                table.width * 34
            }) / 100;
            let at_least = if third < 11 {
                11
            } else {
                third
            };
            let room = sub0(table.width as int, 12);
            r == table.x + (if at_least < room {
                at_least
            } else {
                room
            })
        }),
        r <= table.x + table.width,
{
    let product = table.width as u32 * 34;
    let capped = if product > 65535 {
        65535
    } else {
        product
    };
    let third = (capped / 100) as u16;
    let at_least = if third < 11 {
        11
    } else {
        third
    };
    let room = table.width.saturating_sub(12);
    let offset = if at_least < room {
        at_least
    } else {
        room
    };
    table.x + offset
}

/// Where the large speed readout goes in `area` when its glyphs (`glyphs`
/// columns, plus six for the unit) fit: centred, five rows high. `None` when
/// the area is too small, in which case the plain text is drawn instead.
pub fn readout_origin(area: Rect, glyphs: u64) -> (r: Option<(u16, u16)>)
    requires
        area.wf(),
    ensures
        match r {
            Some((x0, y0)) => {
                &&& area.height >= 5
                &&& glyphs + 6 <= area.width
                &&& x0 == area.x + (area.width - (glyphs + 6)) / 2
                &&& y0 == area.y + (area.height - 5) / 2
            },
            None => area.height < 5 || glyphs + 6 > area.width,
        },
{
    if area.height >= 5 && glyphs <= 65535 && (glyphs as u16) <= area.width && 6 <= area.width
        - (glyphs as u16) {
        let total = glyphs as u16 + 6;
        Some((area.x + (area.width - total) / 2, area.y + (area.height - 5) / 2))
    } else {
        None
    }
}

/// The row of the quality line of the server card: the second-last row of
/// the table, shown only once the test is complete and when it has room
/// below the table rows.
pub fn quality_row(table: Rect, test_complete: bool) -> (r: Option<u16>)
    requires
        table.wf(),
        table.y + 2 <= u16::MAX,
    ensures
        ({
            let qy = table.y + sub0(table.height as int, 2);
            let room = qy > table.y + 2 && qy < table.y + table.height;
            match r {
                Some(y) => test_complete && room && y == qy,
                None => !(test_complete && room),
            }
        }),
        !test_complete ==> r is None,
{
    if !test_complete {
        return None;
    }
    let qy = table.y + table.height.saturating_sub(2);
    let body_top = table.y + 2;
    if qy > body_top && qy < table.y + table.height {
        Some(qy)
    } else {
        None
    }
}

} // verus!
