//! Everything the address lookup decides: when it may run, how a
//! `Retry-After` header is read, and how the service's reply becomes the
//! address information that the dashboard shows.
use vstd::prelude::*;
use crate::state::IpInfo;
use crate::text::{
    decimal, digit_char, is_blank, is_white_space, is_whitespace, lemma_trim_is_subrange,
    push_decimal, trim, trim_seq,
};

verus! {

// ─────────────────────────────────────────────────────────────────────────
// Location text
// ─────────────────────────────────────────────────────────────────────────

/// The location shown for a city and a country: both trimmed, joined by a
/// comma when both are present, one alone when the other is blank, and
/// `Unknown location` when both are blank.
pub open spec fn location_text(city: Seq<char>, country: Seq<char>) -> Seq<char> {
    let c = trim_seq(city);
    let k = trim_seq(country);
    if c.len() == 0 && k.len() == 0 {
        "Unknown location"@
    } else if c.len() == 0 {
        k
    } else if k.len() == 0 {
        c
    } else {
        c + ", "@ + k
    }
}

/// The location shown for a city and a country.
pub fn format_location(city: &str, country: &str) -> (r: String)
    ensures
        r@ == location_text(city@, country@),
{
    let c = trim(city);
    let k = trim(country);
    let c_empty = c.unicode_len() == 0;
    let k_empty = k.unicode_len() == 0;
    if c_empty && k_empty {
        String::from_str("Unknown location")
    } else if c_empty {
        String::from_str(k)
    } else if k_empty {
        String::from_str(c)
    } else {
        let mut s = String::from_str(c);
        s.append(", ");
        s.append(k);
        s
    }
}

/// The location text is never empty.
pub proof fn lemma_location_never_empty(city: Seq<char>, country: Seq<char>)
    ensures
        location_text(city, country).len() > 0,
{
    reveal_strlit("Unknown location");
}

// ─────────────────────────────────────────────────────────────────────────
// Errors of the lookup
// ─────────────────────────────────────────────────────────────────────────

/// Why a lookup gave no address information.
#[derive(Debug, Clone)]
pub enum IpLookupError {
    /// An earlier rate limit is still in force for this many more seconds.
    CooldownActive { wait_secs: u64 },
    /// The service answered that too many requests were made.
    RateLimited { wait_secs: u64 },
    /// The service answered, but reported a failure.
    Unsuccessful { message: String },
}

/// The text of a lookup error.
pub open spec fn error_text(e: IpLookupError) -> Seq<char> {
    match e {
        IpLookupError::CooldownActive { wait_secs } => "ip-api.com cooldown active for "@ + decimal(
            wait_secs as nat,
        ) + " more seconds"@,
        IpLookupError::RateLimited { wait_secs } => "ip-api.com rate limit reached; retry after "@
            + decimal(wait_secs as nat) + " seconds"@,
        IpLookupError::Unsuccessful { message } => message@,
    }
}

impl IpLookupError {
    /// The text of the error.
    pub fn message(&self) -> (r: String)
        ensures
            r@ == error_text(*self),
    {
        match self {
            IpLookupError::CooldownActive { wait_secs } => {
                let mut s = String::from_str("ip-api.com cooldown active for ");
                push_decimal(&mut s, *wait_secs);
                s.append(" more seconds");
                s
            },
            IpLookupError::RateLimited { wait_secs } => {
                let mut s = String::from_str("ip-api.com rate limit reached; retry after ");
                push_decimal(&mut s, *wait_secs);
                s.append(" seconds");
                s
            },
            IpLookupError::Unsuccessful { message } => message.clone(),
        }
    }
}

// ─────────────────────────────────────────────────────────────────────────
// Cooldown after a rate limit
// ─────────────────────────────────────────────────────────────────────────

/// Nanoseconds in one second.
pub const NANOS_PER_SEC: u64 = 1_000_000_000;

/// How long to wait after a rate limit that names no delay.
pub const RATE_LIMIT_FALLBACK_SECS: u64 = 300;

/// The rate-limit cooldown of the address lookup. Points in time are
/// nanoseconds on the process's monotonic clock.
#[derive(Debug, Clone)]
pub struct IpLookupCooldown {
    /// The moment before which no lookup may be made, if any.
    pub until: Option<u64>,
}

/// Whole seconds left until `until`, at least one.
pub open spec fn seconds_left(until: int, now: int) -> int {
    let s = (until - now) / (NANOS_PER_SEC as int);
    if s < 1 {
        1
    } else {
        s
    }
}

/// The moment a cooldown of `secs` seconds started at `now` ends, held at
/// the end of the clock when it lies beyond it.
pub open spec fn deadline_after(now: int, secs: int) -> int {
    let d = now + secs * (NANOS_PER_SEC as int);
    if d > u64::MAX {
        u64::MAX as int
    } else {
        d
    }
}

/// Whether a cooldown that ends at `until` refuses a lookup at `now`.
pub open spec fn cooldown_refuses(until: Option<u64>, now: int) -> bool {
    match until {
        Some(u) => now < u,
        None => false,
    }
}

/// The cooldown of a process that has not been rate-limited yet.
pub fn ip_lookup_cooldown() -> (r: IpLookupCooldown)
    ensures
        r.until is None,
{
    IpLookupCooldown { until: None }
}

impl IpLookupCooldown {
    /// Decides whether a lookup may be made at `now`. While a cooldown is in
    /// force the lookup is refused with the whole seconds left (at least
    /// one); once it has run out it is cleared.
    pub fn check(&mut self, now: u64) -> (r: Result<(), IpLookupError>)
        ensures
            cooldown_refuses(old(self).until, now as int) ==> {
                &&& r matches Err(IpLookupError::CooldownActive { wait_secs })
                &&& wait_secs == seconds_left(old(self).until->0 as int, now as int)
                &&& final(self).until == old(self).until
            },
            !cooldown_refuses(old(self).until, now as int) ==> r is Ok && final(self).until is None,
    {
        match self.until {
            Some(until) => {
                if now < until {
                    let s = (until - now) / NANOS_PER_SEC;
                    let wait = if s < 1 {
                        1
                    } else {
                        s
                    };
                    Err(IpLookupError::CooldownActive { wait_secs: wait })
                } else {
                    self.until = None;
                    Ok(())
                }
            },
            None => Ok(()),
        }
    }

    /// Starts a cooldown after the service answered "too many requests" at
    /// `now`, for the seconds the `Retry-After` header named, or for the
    /// fallback when it named none. Gives the error to report, which names
    /// those seconds (at least one).
    pub fn start_after_rate_limit(&mut self, now: u64, retry_after_secs: Option<u64>) -> (r:
        IpLookupError)
        ensures
            ({
                let secs = match retry_after_secs {
                    Some(s) => s,
                    None => RATE_LIMIT_FALLBACK_SECS,
                };
                &&& r matches IpLookupError::RateLimited { wait_secs }
                &&& wait_secs == if secs < 1 {
                    1
                } else {
                    secs
                }
                &&& final(self).until == Some(deadline_after(now as int, secs as int) as u64)
            }),
    {
        let secs = match retry_after_secs {
            Some(s) => s,
            None => RATE_LIMIT_FALLBACK_SECS,
        };
        let until = match secs.checked_mul(NANOS_PER_SEC) {
            Some(span) => match now.checked_add(span) {
                Some(d) => d,
                None => u64::MAX,
            },
            None => u64::MAX,
        };
        proof {
            if secs as int * (NANOS_PER_SEC as int) > u64::MAX {
                assert(now as int + secs as int * (NANOS_PER_SEC as int) > u64::MAX);
            }
        }
        self.until = Some(until);
        let wait = if secs < 1 {
            1
        } else {
            secs
        };
        IpLookupError::RateLimited { wait_secs: wait }
    }
}

/// After a rate limit with a delay of at least one second, a lookup is
/// refused at once and at every moment before the delay has passed, and
/// allowed from the deadline on.
pub proof fn lemma_rate_limit_then_check(now: u64, secs: u64, later: u64)
    requires
        now < u64::MAX,
        secs >= 1,
        now <= later,
    ensures
        cooldown_refuses(Some(deadline_after(now as int, secs as int) as u64), now as int),
        later < now + secs * (NANOS_PER_SEC as int) && later < u64::MAX ==> cooldown_refuses(
            Some(deadline_after(now as int, secs as int) as u64),
            later as int,
        ),
        later >= deadline_after(now as int, secs as int) ==> !cooldown_refuses(
            Some(deadline_after(now as int, secs as int) as u64),
            later as int,
        ),
{
    assert(secs * (NANOS_PER_SEC as int) >= NANOS_PER_SEC as int) by (nonlinear_arith)
        requires
            secs >= 1,
    ;
}

// ─────────────────────────────────────────────────────────────────────────
// Retry-After header
// ─────────────────────────────────────────────────────────────────────────

/// A byte that a header value may hold for it to be read as text: visible
/// ASCII or a tab.
pub open spec fn is_visible_ascii(b: u8) -> bool {
    (32 <= b && b < 127) || b == 9
}

/// The text of a header value, when every byte of it is visible ASCII.
pub open spec fn header_text(bytes: Seq<u8>) -> Option<Seq<char>> {
    if forall|k: int| 0 <= k < bytes.len() ==> is_visible_ascii(#[trigger] bytes[k]) {
        Some(bytes.map_values(|b: u8| b as char))
    } else {
        None
    }
}

/// Whether `c` is a decimal digit.
pub open spec fn is_digit(c: char) -> bool {
    48 <= (c as u32) <= 57
}

/// The number that a sequence of decimal digits denotes.
pub open spec fn digits_value(d: Seq<char>) -> nat
    decreases d.len(),
{
    if d.len() == 0 {
        0
    } else {
        digits_value(d.drop_last()) * 10 + ((d.last() as u32) - 48) as nat
    }
}

/// What `str::parse::<u64>` gives: an optional `+` followed by one or more
/// decimal digits whose value fits in 64 bits.
pub open spec fn parse_u64(s: Seq<char>) -> Option<u64> {
    if s.len() > 0 && s[0] == '+' {
        unsigned_digits(s.drop_first())
    } else {
        unsigned_digits(s)
    }
}

/// The number that one or more decimal digits denote, when it fits in 64
/// bits.
pub open spec fn unsigned_digits(d: Seq<char>) -> Option<u64> {
    if d.len() > 0 && (forall|k: int| 0 <= k < d.len() ==> is_digit(#[trigger] d[k]))
        && digits_value(d) <= u64::MAX {
        Some(digits_value(d) as u64)
    } else {
        None
    }
}

/// The delay that a `Retry-After` header value names, in seconds.
pub open spec fn retry_after_value(bytes: Seq<u8>) -> Option<u64> {
    match header_text(bytes) {
        Some(t) => parse_u64(trim_seq(t)),
        None => None,
    }
}

proof fn lemma_digits_value_step(d: Seq<char>, k: int)
    requires
        0 <= k < d.len(),
    ensures
        digits_value(d.subrange(0, k + 1)) == digits_value(d.subrange(0, k)) * 10 + ((d[k] as u32)
            - 48) as nat,
{
    let p = d.subrange(0, k + 1);
    assert(p.drop_last() =~= d.subrange(0, k));
}

proof fn lemma_digits_value_grows(d: Seq<char>, k: int)
    requires
        0 <= k <= d.len(),
        forall|m: int| 0 <= m < d.len() ==> is_digit(#[trigger] d[m]),
    ensures
        digits_value(d.subrange(0, k)) <= digits_value(d),
    decreases d.len() - k,
{
    if k < d.len() {
        lemma_digits_value_step(d, k);
        lemma_digits_value_grows(d, k + 1);
    } else {
        assert(d.subrange(0, k) =~= d);
    }
}

/// Reads the digits `b[from..to]` (with an optional leading `+`) as a
/// 64-bit number, as `str::parse::<u64>` reads them.
fn parse_digits(b: &[u8], from: usize, to: usize) -> (r: Option<u64>)
    requires
        from <= to <= b@.len(),
    ensures
        r == parse_u64(b@.map_values(|x: u8| x as char).subrange(from as int, to as int)),
{
    let ghost s = b@.map_values(|x: u8| x as char).subrange(from as int, to as int);
    let mut start = from;
    if from < to && b[from] == 43u8 {
        start = from + 1;
    }
    let ghost d = b@.map_values(|x: u8| x as char).subrange(start as int, to as int);
    proof {
        if from < to && b@[from as int] == 43u8 {
            assert(s[0] == '+');
            assert(s.drop_first() =~= d);
        } else {
            if s.len() > 0 {
                assert(s[0] == (b@[from as int] as char));
                assert(s[0] != '+');
            }
            assert(s =~= d);
        }
        assert(parse_u64(s) == unsigned_digits(d));
    }
    digits_in(b, start, to)
}

/// Reads the decimal digits `b[from..to]` as a 64-bit number.
fn digits_in(b: &[u8], start: usize, to: usize) -> (r: Option<u64>)
    requires
        start <= to <= b@.len(),
    ensures
        r == unsigned_digits(b@.map_values(|x: u8| x as char).subrange(start as int, to as int)),
{
    let ghost d = b@.map_values(|x: u8| x as char).subrange(start as int, to as int);
    if start == to {
        return None;
    }
    let mut acc: u64 = 0;
    let mut k: usize = start;
    while k < to
        invariant
            start < to <= b@.len(),
            start <= k <= to,
            d == b@.map_values(|x: u8| x as char).subrange(start as int, to as int),
            forall|m: int| 0 <= m < k - start ==> is_digit(#[trigger] d[m]),
            acc as nat == digits_value(d.subrange(0, k - start)),
        decreases to - k,
    {
        let c = b[k];
        assert(d[k - start] == (c as char));
        if c < 48u8 || c > 57u8 {
            assert(!is_digit(d[k - start]));
            assert(unsigned_digits(d) is None);
            return None;
        }
        proof {
            lemma_digits_value_step(d, k - start);
        }
        let digit = (c - 48u8) as u64;
        match acc.checked_mul(10) {
            Some(t) => match t.checked_add(digit) {
                Some(v) => {
                    acc = v;
                },
                None => {
                    proof {
                        if forall|m: int| 0 <= m < d.len() ==> is_digit(#[trigger] d[m]) {
                            lemma_digits_value_grows(d, k - start + 1);
                        }
                    }
                    return None;
                },
            },
            None => {
                proof {
                    if forall|m: int| 0 <= m < d.len() ==> is_digit(#[trigger] d[m]) {
                        lemma_digits_value_grows(d, k - start + 1);
                    }
                }
                return None;
            },
        }
        k = k + 1;
    }
    assert(d.subrange(0, to - start) =~= d);
    Some(acc)
}

/// The delay in seconds that a `Retry-After` header names, when it is there,
/// is text, and is a whole number of seconds that fits in 64 bits.
pub fn parse_retry_after_seconds(value: Option<&[u8]>) -> (r: Option<u64>)
    ensures
        match value {
            Some(b) => r == retry_after_value(b@),
            None => r is None,
        },
{
    match value {
        None => None,
        Some(b) => {
            let n = b.len();
            let mut v: usize = 0;
            while v < n
                invariant
                    value == Some(b),
                    n == b@.len(),
                    v <= n,
                    forall|k: int| 0 <= k < v ==> is_visible_ascii(#[trigger] b@[k]),
                decreases n - v,
            {
                if !((32u8 <= b[v] && b[v] < 127u8) || b[v] == 9u8) {
                    assert(!is_visible_ascii(b@[v as int]));
                    assert(header_text(b@) is None);
                    return None;
                }
                v = v + 1;
            }
            let ghost t = b@.map_values(|x: u8| x as char);
            assert(header_text(b@) == Some(t));
            let mut i: usize = 0;
            while i < n && is_whitespace(b[i] as char)
                invariant
                    n == b@.len(),
                    i <= n,
                    t == b@.map_values(|x: u8| x as char),
                    forall|k: int| 0 <= k < i ==> is_white_space(#[trigger] t[k]),
                decreases n - i,
            {
                assert(t[i as int] == (b@[i as int] as char));
                i = i + 1;
            }
            let mut j: usize = n;
            if i < n {
                assert(t[i as int] == (b@[i as int] as char));
                while j > i && is_whitespace(b[j - 1] as char)
                    invariant
                        n == b@.len(),
                        i < j <= n,
                        t == b@.map_values(|x: u8| x as char),
                        !is_white_space(t[i as int]),
                        forall|k: int| j <= k < n ==> is_white_space(#[trigger] t[k]),
                    decreases j,
                {
                    assert(t[j - 1] == (b@[j - 1] as char));
                    j = j - 1;
                }
                assert(t[j - 1] == (b@[j - 1] as char));
            }
            proof {
                lemma_trim_is_subrange(t, i as int, j as int);
            }
            parse_digits(b, i, j)
        },
    }
}

/// A number written out in decimal reads back as itself.
pub proof fn lemma_parse_decimal_roundtrip(n: u64)
    ensures
        parse_u64(decimal(n as nat)) == Some(n),
{
    lemma_decimal_digits(n as nat);
    let d = decimal(n as nat);
    assert(d[0] != '+');
}

proof fn lemma_decimal_digits(n: nat)
    ensures
        decimal(n).len() > 0,
        forall|k: int| 0 <= k < decimal(n).len() ==> is_digit(#[trigger] decimal(n)[k]),
        digits_value(decimal(n)) == n,
        decimal(n)[0] != '+',
    decreases n,
{
    let last = n % 10;
    assert(((48 + last) as char) as u32 == 48 + last);
    if n >= 10 {
        lemma_decimal_digits(n / 10);
        let d = decimal(n);
        let p = decimal(n / 10);
        assert(d == p + seq![digit_char((n % 10) as int)]);
        assert(d.drop_last() =~= p);
        assert(d.last() == digit_char(last as int));
        assert((d.last() as u32) - 48 == last);
        assert(digits_value(d) == digits_value(p) * 10 + last);
        assert(n == (n / 10) * 10 + last);
        assert(digits_value(d) == n);
        assert forall|k: int| 0 <= k < d.len() implies is_digit(#[trigger] d[k]) by {
            if k < p.len() {
                assert(d[k] == p[k]);
            }
        }
        assert(d[0] == p[0]);
    } else {
        let d = decimal(n);
        assert(d.drop_last() =~= Seq::<char>::empty());
        assert(d.last() == digit_char(n as int));
        assert((d.last() as u32) - 48 == n);
        assert(digits_value(d.drop_last()) == 0);
        assert(digits_value(d) == n);
    }
}

// ─────────────────────────────────────────────────────────────────────────
// Reply of the lookup service
// ─────────────────────────────────────────────────────────────────────────

/// The fields of the lookup service's reply that the dashboard reads; fields
/// missing from the reply are empty (and `success` false).
#[derive(Debug, Clone, Default)]
pub struct IpLookupReply {
    pub ip: String,
    pub success: bool,
    pub message: String,
    pub city: String,
    pub country: String,
    pub isp: String,
}

/// `text` unless it is blank, `fallback` then.
pub open spec fn or_when_blank(text: Seq<char>, fallback: Seq<char>) -> Seq<char> {
    if trim_seq(text).len() == 0 {
        fallback
    } else {
        text
    }
}

/// The address information in a reply: a reply that reports a failure gives
/// its trimmed message (or a generic one when it has none); otherwise the
/// address and provider are kept as given, `Unknown` and `Unknown ISP`
/// standing in for blank ones, and the location is made from the city and
/// the country.
pub fn interpret_ip_reply(reply: IpLookupReply) -> (r: Result<IpInfo, IpLookupError>)
    ensures
        !reply.success ==> (r matches Err(IpLookupError::Unsuccessful { message }) && message@
            == (if trim_seq(reply.message@).len() == 0 {
            "ip-api.com returned an unsuccessful response"@
        } else {
            trim_seq(reply.message@)
        })),
        reply.success ==> (r matches Ok(info) && info.ip@ == or_when_blank(reply.ip@, "Unknown"@)
            && info.isp@ == or_when_blank(reply.isp@, "Unknown ISP"@) && info.location@
            == location_text(reply.city@, reply.country@)),
{
    if !reply.success {
        let t = trim(reply.message.as_str());
        let message = if t.unicode_len() == 0 {
            String::from_str("ip-api.com returned an unsuccessful response")
        } else {
            String::from_str(t)
        };
        return Err(IpLookupError::Unsuccessful { message });
    }
    let location = format_location(reply.city.as_str(), reply.country.as_str());
    let ip = if is_blank(reply.ip.as_str()) {
        String::from_str("Unknown")
    } else {
        reply.ip
    };
    let isp = if is_blank(reply.isp.as_str()) {
        String::from_str("Unknown ISP")
    } else {
        reply.isp
    };
    Ok(IpInfo { ip, isp, location })
}

} // verus!
