//! Text of the moments at which results were recorded. A moment is given as
//! whole seconds since the Unix epoch and the nanoseconds past that second,
//! in UTC; chrono renders it.
use vstd::prelude::*;

verus! {

/// What chrono's `DateTime::<Utc>::from_timestamp(secs, nanos)` rendered with
/// the pattern `%Y-%m-%d %H:%M` gives; `None` when chrono cannot represent
/// the moment.
pub uninterp spec fn utc_minute_text(secs: i64, nanos: u32) -> Option<Seq<char>>;

/// What chrono's `DateTime::<Utc>::from_timestamp(secs, nanos)` rendered by
/// `to_rfc3339` gives; `None` when chrono cannot represent the moment.
pub uninterp spec fn utc_rfc3339_text(secs: i64, nanos: u32) -> Option<Seq<char>>;

/// Calls chrono's `DateTime::<Utc>::from_timestamp` and, when it gives a
/// moment, renders it with `format("%Y-%m-%d %H:%M")`. The contract claims
/// only that the text depends on the two numbers alone.
#[verifier::external_body]
fn render_utc_minute(secs: i64, nanos: u32) -> (r: Option<String>)
    ensures
        match r {
            Some(s) => utc_minute_text(secs, nanos) == Some(s@),
            None => utc_minute_text(secs, nanos) is None,
        },
{
    chrono::DateTime::from_timestamp(secs, nanos).map(|t| t.format("%Y-%m-%d %H:%M").to_string())
}

/// Calls chrono's `DateTime::<Utc>::from_timestamp` and, when it gives a
/// moment, renders it with `to_rfc3339`. The contract claims only that the
/// text depends on the two numbers alone.
#[verifier::external_body]
fn render_utc_rfc3339(secs: i64, nanos: u32) -> (r: Option<String>)
    ensures
        match r {
            Some(s) => utc_rfc3339_text(secs, nanos) == Some(s@),
            None => utc_rfc3339_text(secs, nanos) is None,
        },
{
    chrono::DateTime::from_timestamp(secs, nanos).map(|t| t.to_rfc3339())
}

/// The timestamp column of the history table: the rendered moment, or a
/// dash when there is none.
pub fn timestamp_or_dash(rendered: Option<String>) -> (r: String)
    ensures
        r@ == (match rendered {
            Some(s) => s@,
            None => "—"@,
        }),
{
    match rendered {
        Some(s) => s,
        None => String::from_str("—"),
    }
}

/// The timestamp field of an exported row: the rendered moment, or nothing
/// when there is none.
pub fn timestamp_or_empty(rendered: Option<String>) -> (r: String)
    ensures
        r@ == (match rendered {
            Some(s) => s@,
            None => Seq::<char>::empty(),
        }),
{
    match rendered {
        Some(s) => s,
        None => String::new(),
    }
}

/// The timestamp column of the history table for a result recorded at
/// `moment` (seconds and nanoseconds since the epoch), if it was.
pub fn history_timestamp(moment: Option<(i64, u32)>) -> (r: String)
    ensures
        r@ == (match moment {
            Some((secs, nanos)) => match utc_minute_text(secs, nanos) {
                Some(t) => t,
                None => "—"@,
            },
            None => "—"@,
        }),
{
    match moment {
        Some((secs, nanos)) => timestamp_or_dash(render_utc_minute(secs, nanos)),
        None => timestamp_or_dash(None),
    }
}

/// The timestamp field of an exported row for a result recorded at
/// `moment`, if it was.
pub fn export_timestamp(moment: Option<(i64, u32)>) -> (r: String)
    ensures
        r@ == (match moment {
            Some((secs, nanos)) => match utc_rfc3339_text(secs, nanos) {
                Some(t) => t,
                None => Seq::<char>::empty(),
            },
            None => Seq::<char>::empty(),
        }),
{
    match moment {
        Some((secs, nanos)) => timestamp_or_empty(render_utc_rfc3339(secs, nanos)),
        None => timestamp_or_empty(None),
    }
}

} // verus!
