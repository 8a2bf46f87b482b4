//! Human-readable rendering of sizes and durations, and URL shortening for
//! display. Scaled values are rendered from integer arithmetic: the value in
//! hundredths (or tenths), rounded half-up, carried into the whole part when
//! rounding reaches the next unit.

use vstd::prelude::*;

use crate::strutil::dec_seq;
use crate::strutil::digit_char;
use crate::strutil::push_char;
use crate::strutil::push_u64;

verus! {

pub const KB: u64 = 1024;

pub const MB: u64 = 1024 * 1024;

pub const GB: u64 = 1024 * 1024 * 1024;

/// A fraction below one hundred, always shown with two digits.
pub open spec fn pad2(f: nat) -> Seq<char> {
    if f < 10 {
        seq!['0', digit_char(f)]
    } else {
        dec_seq(f)
    }
}

/// `b / unit` in hundredths, rounded half-up.
pub open spec fn rounded_hundredths(b: nat, unit: nat) -> nat {
    (b % unit * 100 + unit / 2) / unit
}

/// The two-decimal rendering of `b / unit`.
pub open spec fn scaled_text(b: nat, unit: nat) -> Seq<char> {
    let h = rounded_hundredths(b, unit);
    let whole = if h == 100 {
        b / unit + 1
    } else {
        b / unit
    };
    let frac: nat = if h == 100 {
        0
    } else {
        h
    };
    dec_seq(whole) + "."@ + pad2(frac)
}

/// The full size text: scaled to the largest unit the value reaches.
pub open spec fn file_size_text(bytes: nat) -> Seq<char> {
    if bytes >= GB {
        scaled_text(bytes, GB as nat) + " GB"@
    } else if bytes >= MB {
        scaled_text(bytes, MB as nat) + " MB"@
    } else if bytes >= KB {
        scaled_text(bytes, KB as nat) + " KB"@
    } else {
        dec_seq(bytes) + " bytes"@
    }
}

/// Appends the two-decimal rendering of `b / unit` to `out`.
fn push_scaled(out: &mut String, b: u64, unit: u64)
    requires
        unit == KB || unit == MB || unit == GB,
        b >= unit,
    ensures
        final(out)@ == old(out)@ + scaled_text(b as nat, unit as nat),
{
    let mut whole = b / unit;
    let rem = b % unit;
    let h = (rem * 100 + unit / 2) / unit;
    assert(h == rounded_hundredths(b as nat, unit as nat));
    assert(h <= 100) by (nonlinear_arith)
        requires
            h as int == (rem as int * 100 + unit as int / 2) / (unit as int),
            0 <= rem < unit,
            unit >= 1024,
    ;
    let frac = if h == 100 {
        whole = whole + 1;
        0u64
    } else {
        h
    };
    push_u64(out, whole);
    push_char(out, '.');
    proof {
        reveal_strlit(".");
    }
    if frac < 10 {
        push_char(out, '0');
        let c: char = (0x30u8 + (frac as u8)) as char;
        assert(c == digit_char(frac as nat));
        push_char(out, c);
        assert(out@ =~= old(out)@ + scaled_text(b as nat, unit as nat));
    } else {
        push_u64(out, frac);
        assert(out@ =~= old(out)@ + scaled_text(b as nat, unit as nat));
    }
}

/// Formats a byte count in human-readable form.
pub fn format_file_size(bytes: u64) -> (r: String)
    ensures
        r@ == file_size_text(bytes as nat),
{
    let mut out = String::new();
    if bytes >= GB {
        push_scaled(&mut out, bytes, GB);
        out.append(" GB");
    } else if bytes >= MB {
        push_scaled(&mut out, bytes, MB);
        out.append(" MB");
    } else if bytes >= KB {
        push_scaled(&mut out, bytes, KB);
        out.append(" KB");
    } else {
        push_u64(&mut out, bytes);
        out.append(" bytes");
    }
    proof {
        assert(out@ =~= file_size_text(bytes as nat));
    }
    out
}

/// `ms / 1000` in tenths of a second, rounded half-up.
pub open spec fn rounded_tenths(ms: nat) -> nat {
    (ms % 1000 * 10 + 500) / 1000
}

/// The duration text: minutes and seconds above one minute, seconds with one
/// decimal above one second, else plain milliseconds.
pub open spec fn duration_text(ms: nat) -> Seq<char> {
    if ms >= 60000 {
        dec_seq(ms / 60000) + "m "@ + dec_seq(ms % 60000 / 1000) + "s"@
    } else if ms >= 1000 {
        let t = rounded_tenths(ms);
        let whole = if t == 10 {
            ms / 1000 + 1
        } else {
            ms / 1000
        };
        let tenth: nat = if t == 10 {
            0
        } else {
            t
        };
        dec_seq(whole) + "."@ + seq![digit_char(tenth)] + "s"@
    } else {
        dec_seq(ms) + "ms"@
    }
}

/// Formats a duration given in milliseconds in human-readable form.
pub fn format_duration_ms(ms: u64) -> (r: String)
    ensures
        r@ == duration_text(ms as nat),
{
    let mut out = String::new();
    if ms >= 60000 {
        push_u64(&mut out, ms / 60000);
        out.append("m ");
        push_u64(&mut out, ms % 60000 / 1000);
        out.append("s");
    } else if ms >= 1000 {
        let mut whole = ms / 1000;
        let t = (ms % 1000 * 10 + 500) / 1000;
        assert(t == rounded_tenths(ms as nat));
        assert(t <= 10) by (nonlinear_arith)
            requires
                t as int == ((ms as int % 1000) * 10 + 500) / 1000,
        ;
        let tenth = if t == 10 {
            whole = whole + 1;
            0u64
        } else {
            t
        };
        push_u64(&mut out, whole);
        push_char(&mut out, '.');
        proof {
            reveal_strlit(".");
        }
        let c: char = (0x30u8 + (tenth as u8)) as char;
        assert(c == digit_char(tenth as nat));
        push_char(&mut out, c);
        out.append("s");
    } else {
        push_u64(&mut out, ms);
        out.append("ms");
    }
    proof {
        assert(out@ =~= duration_text(ms as nat));
    }
    out
}

/// The URL unchanged when it fits, else its head with a trailing ellipsis.
pub open spec fn truncated_text(url: Seq<char>, max_len: nat) -> Seq<char> {
    if url.len() <= max_len {
        url
    } else {
        url.subrange(0, max_len - 3) + "..."@
    }
}

/// Shortens a URL for display to at most `max_len` characters.
pub fn truncate_url(url: &str, max_len: usize) -> (r: String)
    requires
        max_len >= 3,
    ensures
        r@ == truncated_text(url@, max_len as nat),
{
    let len = url.unicode_len();
    if len <= max_len {
        String::from_str(url)
    } else {
        let head = url.substring_char(0, max_len - 3);
        String::from_str(head).concat("...")
    }
}

} // verus!
