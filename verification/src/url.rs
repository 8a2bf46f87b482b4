//! URL validation and domain extraction. Whether a string is a well-formed
//! URL, and what its host is, are decided by the `url` crate; both results
//! are functions of the text alone and are given names here, so that every
//! caller's contract can speak of them exactly.

use vstd::prelude::*;

use crate::error::CliError;
use crate::error::CliResult;
use crate::strutil::is_prefix_of;
use crate::strutil::push_char;
use crate::strutil::starts_with;

verus! {

/// Whether the text parses as an absolute URL.
pub uninterp spec fn url_parses(s: Seq<char>) -> bool;

/// The host part of the text parsed as a URL: `None` when the text does not
/// parse, or the URL has no host.
pub uninterp spec fn url_host(s: Seq<char>) -> Option<Seq<char>>;

/// Relies on url::Url::parse: whether the text is a well-formed absolute URL.
#[verifier::external_body]
fn url_parse_ok(s: &str) -> (ok: bool)
    ensures
        ok == url_parses(s@),
{
    url::Url::parse(s).is_ok()
}

/// Relies on url::Url::parse and url::Url::host_str: the host text of the
/// parsed URL, `None` when parsing fails or the URL has no host.
#[verifier::external_body]
fn url_host_str(s: &str) -> (h: Option<String>)
    ensures
        h matches Some(x) ==> url_host(s@) == Some(x@),
        h is None ==> url_host(s@) is None,
{
    match url::Url::parse(s) {
        Ok(u) => u.host_str().map(|t| t.to_string()),
        Err(_) => None,
    }
}

/// The input with `https://` put in front unless a scheme is already there.
pub open spec fn prefixed_url(input: Seq<char>) -> Seq<char> {
    if is_prefix_of("http://"@, input) || is_prefix_of("https://"@, input) {
        input
    } else {
        "https://"@ + input
    }
}

/// Validates a URL, first adding `https://` if no scheme is present.
/// Returns the prefixed text exactly when it parses as a URL.
pub fn normalize_url(input: &str) -> (r: CliResult<String>)
    ensures
        r is Ok <==> url_parses(prefixed_url(input@)),
        r matches Ok(u) ==> u@ == prefixed_url(input@),
        r matches Err(e) ==> e matches CliError::InvalidUrl(t) && t@ == input@,
{
    let url_str: String = if starts_with(input, "http://") || starts_with(input, "https://") {
        String::from_str(input)
    } else {
        String::from_str("https://").concat(input)
    };
    if url_parse_ok(url_str.as_str()) {
        Ok(url_str)
    } else {
        Err(CliError::InvalidUrl(String::from_str(input)))
    }
}

/// The host with every `.` turned into `_`.
pub open spec fn underscored(s: Seq<char>) -> Seq<char> {
    s.map_values(|c: char| if c == '.' { '_' } else { c })
}

/// The label used in generated filenames: the URL's host with dots replaced,
/// or `screenshot` when no host can be extracted.
pub open spec fn domain_label(url: Seq<char>) -> Seq<char> {
    match url_host(url) {
        Some(h) => underscored(h),
        None => "screenshot"@,
    }
}

/// Turns every `.` of the input into `_`.
fn replace_dots(s: &str) -> (r: String)
    ensures
        r@ == underscored(s@),
{
    let len = s.unicode_len();
    let mut out = String::new();
    let mut i: usize = 0;
    while i < len
        invariant
            len == s@.len(),
            i <= len,
            out@ == underscored(s@.subrange(0, i as int)),
        decreases len - i,
    {
        let c = s.get_char(i);
        if c == '.' {
            push_char(&mut out, '_');
        } else {
            push_char(&mut out, c);
        }
        i = i + 1;
        proof {
            assert(out@ =~= underscored(s@.subrange(0, i as int)));
        }
    }
    proof {
        assert(s@.subrange(0, len as int) =~= s@);
    }
    out
}

/// Extracts the domain of a URL for filename generation.
pub fn extract_domain(url: &str) -> (r: String)
    ensures
        r@ == domain_label(url@),
{
    match url_host_str(url) {
        Some(h) => replace_dots(h.as_str()),
        None => String::from_str("screenshot"),
    }
}

} // verus!
