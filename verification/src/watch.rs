//! The watch loop: one immutable request template captured over and over on
//! a fixed cadence. A failed attempt never stops the loop; only the capture
//! counter does, and only when a positive maximum is configured. The
//! interval text (`5s`, `1m`) is parsed by the humantime crate, whose
//! result is a function of the characters alone.

use vstd::prelude::*;

use crate::error::CliError;
use crate::error::CliResult;

verus! {

/// The parse of a duration string, as whole milliseconds; `None` when the
/// text is not a valid duration.
pub uninterp spec fn duration_millis(s: Seq<char>) -> Option<u64>;

/// The most decimal digits an interval text handed to the duration parser
/// may hold. With eleven digits every span total stays below ten to the
/// eleventh times the largest unit's seconds, far under the range whose
/// very end the parser's overflow abort needs, so the abort is out of reach
/// at any text length.
pub const MAX_INTERVAL_DIGITS: usize = 11;

/// How many decimal digits the text holds.
pub open spec fn digit_count(s: Seq<char>) -> nat
    decreases s.len(),
{
    if s.len() == 0 {
        0
    } else {
        digit_count(s.drop_last()) + if crate::config::is_digit(s.last()) {
            1nat
        } else {
            0nat
        }
    }
}

/// Counts the decimal digits of the text.
pub fn count_digits(s: &str) -> (n: usize)
    ensures
        n == digit_count(s@),
{
    let len = s.unicode_len();
    let mut n: usize = 0;
    let mut i: usize = 0;
    proof {
        assert(s@.subrange(0, 0) =~= Seq::<char>::empty());
    }
    while i < len
        invariant
            len == s@.len(),
            i <= len,
            n <= i,
            n == digit_count(s@.subrange(0, i as int)),
        decreases len - i,
    {
        let c = s.get_char(i);
        if c >= '0' && c <= '9' {
            n = n + 1;
        }
        i = i + 1;
        proof {
            let post = s@.subrange(0, i as int);
            assert(post.drop_last() =~= s@.subrange(0, i - 1));
            assert(post.last() == c);
        }
    }
    proof {
        assert(s@.subrange(0, len as int) =~= s@);
    }
    n
}

/// Relies on humantime::parse_duration: parses texts like `5s`, `30s` or
/// `1m`; the result depends on the characters alone. Durations beyond the
/// millisecond range of sixty-four bits are capped. On a digit-heavy text
/// the parser can abort — its carry step lets a sub-second total land
/// exactly on one second while the seconds already sit at their maximum —
/// so only texts whose digits cannot spell a second count that far are
/// admitted.
#[verifier::external_body]
fn parse_duration_raw(s: &str) -> (r: Option<u64>)
    requires
        digit_count(s@) <= MAX_INTERVAL_DIGITS,
    ensures
        r == duration_millis(s@),
{
    humantime::parse_duration(s).ok().map(
        |d| u64::try_from(d.as_millis()).unwrap_or(u64::MAX),
    )
}

/// Parses the watch interval, rejecting invalid duration texts before
/// anything else runs. A text with more digits than any sane interval
/// needs is rejected without consulting the parser.
pub fn parse_duration(s: &str) -> (r: CliResult<u64>)
    ensures
        digit_count(s@) <= MAX_INTERVAL_DIGITS ==> (r is Ok <==> duration_millis(s@) is Some),
        digit_count(s@) > MAX_INTERVAL_DIGITS ==> r is Err,
        r matches Ok(ms) ==> duration_millis(s@) == Some(ms),
        r matches Err(e) ==> e matches CliError::Other(m) && m@ == "Invalid duration '"@ + s@
            + "'. Examples: 5s, 30s, 1m, 5m"@,
{
    let parsed = if count_digits(s) <= MAX_INTERVAL_DIGITS {
        parse_duration_raw(s)
    } else {
        None
    };
    match parsed {
        Some(ms) => Ok(ms),
        None => Err(
            CliError::Other(
                String::from_str("Invalid duration '").concat(s).concat(
                    "'. Examples: 5s, 30s, 1m, 5m",
                ),
            ),
        ),
    }
}

/// One watch run: the immutable request template, the cadence, the optional
/// attempt bound (zero meaning unbounded), and the attempt counter that the
/// loop alone advances.
#[derive(Debug, Clone)]
pub struct WatchSession {
    pub url: String,
    pub device: Option<String>,
    pub format: String,
    pub full_page: bool,
    pub interval_ms: u64,
    pub max_captures: u32,
    pub count: u32,
}

impl WatchSession {
    /// A fresh session with no attempt made yet.
    pub fn new(
        url: String,
        device: Option<String>,
        format: String,
        full_page: bool,
        interval_ms: u64,
        max_captures: u32,
    ) -> (r: Self)
        ensures
            r.url == url,
            r.device == device,
            r.format == format,
            r.full_page == full_page,
            r.interval_ms == interval_ms,
            r.max_captures == max_captures,
            r.count == 0,
    {
        WatchSession { url, device, format, full_page, interval_ms, max_captures, count: 0 }
    }

    /// Counts one attempt, successful or not.
    pub fn record_attempt(&mut self)
        requires
            old(self).count < u32::MAX,
        ensures
            final(self).count == old(self).count + 1,
            final(self).url == old(self).url,
            final(self).device == old(self).device,
            final(self).format == old(self).format,
            final(self).full_page == old(self).full_page,
            final(self).interval_ms == old(self).interval_ms,
            final(self).max_captures == old(self).max_captures,
    {
        self.count = self.count + 1;
    }

    /// Whether the loop stops after the attempt just counted: only a
    /// positive maximum ever stops it.
    pub fn reached_limit(&self) -> (r: bool)
        ensures
            r == (self.max_captures > 0 && self.count >= self.max_captures),
    {
        self.max_captures > 0 && self.count >= self.max_captures
    }
}

/// Runs the watch decision loop over a given sequence of attempt outcomes
/// (whether each capture succeeded). The vector stands for what the remote
/// yields per attempt; it running out stands for an external interruption.
/// With a positive maximum the loop performs exactly that many attempts and
/// stops — even when every attempt fails; with a maximum of zero it never
/// stops on its own: every supplied outcome is consumed.
pub fn run_watch(session: &mut WatchSession, outcomes: &Vec<bool>) -> (attempts: usize)
    requires
        old(session).count == 0,
        outcomes@.len() < u32::MAX,
    ensures
        old(session).max_captures > 0 ==> attempts == if old(session).max_captures
            <= outcomes@.len() {
            old(session).max_captures as int
        } else {
            outcomes@.len() as int
        },
        old(session).max_captures == 0 ==> attempts == outcomes@.len(),
        final(session).count == attempts,
        final(session).max_captures == old(session).max_captures,
{
    let n = outcomes.len();
    let mut i: usize = 0;
    while i < n
        invariant
            n == outcomes@.len(),
            n < u32::MAX,
            i <= n,
            session.count == i,
            session.max_captures == old(session).max_captures,
            session.max_captures > 0 ==> i < session.max_captures,
        decreases n - i,
    {
        session.record_attempt();
        i = i + 1;
        if session.reached_limit() {
            return i;
        }
    }
    i
}

} // verus!
