//! Filename generation and URL-list parsing. A URL list is plain text, one
//! URL per line; blank lines and lines opening with `#` are skipped, and
//! every kept line is trimmed of surrounding whitespace. Batch results are
//! written under a three-digit index and the URL's domain; watch captures
//! under the domain and a clock stamp.

use vstd::prelude::*;

use crate::error::CliError;
use crate::error::CliResult;
use crate::strutil::dec_seq;
use crate::strutil::digit_char;
use crate::strutil::push_char;
use crate::strutil::push_u64;
use crate::url::domain_label;
use crate::url::extract_domain;

verus! {

/// The characters trimmed from both ends of a line: the whitespace
/// characters, as Unicode assigns the property.
pub open spec fn is_space_char(c: char) -> bool {
    ||| c == ' '
    ||| c == '\t'
    ||| c == '\n'
    ||| c == '\u{000B}'
    ||| c == '\u{000C}'
    ||| c == '\r'
    ||| c == '\u{0085}'
    ||| c == '\u{00A0}'
    ||| c == '\u{1680}'
    ||| ('\u{2000}' <= c && c <= '\u{200A}')
    ||| c == '\u{2028}'
    ||| c == '\u{2029}'
    ||| c == '\u{202F}'
    ||| c == '\u{205F}'
    ||| c == '\u{3000}'
}

fn is_space(c: char) -> (r: bool)
    ensures
        r == is_space_char(c),
{
    c == ' ' || c == '\t' || c == '\n' || c == '\u{000B}' || c == '\u{000C}' || c == '\r'
        || c == '\u{0085}' || c == '\u{00A0}' || c == '\u{1680}' || ('\u{2000}' <= c && c
        <= '\u{200A}') || c == '\u{2028}' || c == '\u{2029}' || c == '\u{202F}'
        || c == '\u{205F}' || c == '\u{3000}'
}

/// The line with leading space characters dropped.
pub open spec fn trim_start_spec(s: Seq<char>) -> Seq<char>
    decreases s.len(),
{
    if s.len() > 0 && is_space_char(s[0]) {
        trim_start_spec(s.subrange(1, s.len() as int))
    } else {
        s
    }
}

/// The line with trailing space characters dropped.
pub open spec fn trim_end_spec(s: Seq<char>) -> Seq<char>
    decreases s.len(),
{
    if s.len() > 0 && is_space_char(s[s.len() - 1]) {
        trim_end_spec(s.subrange(0, s.len() - 1))
    } else {
        s
    }
}

/// The line with space characters dropped from both ends.
pub open spec fn trim_spec(s: Seq<char>) -> Seq<char> {
    trim_end_spec(trim_start_spec(s))
}

proof fn lemma_trim_start_at(s: Seq<char>, a: int)
    requires
        0 <= a <= s.len(),
        forall|j: int| 0 <= j < a ==> is_space_char(s[j]),
        a < s.len() ==> !is_space_char(s[a]),
    ensures
        trim_start_spec(s) == s.subrange(a, s.len() as int),
    decreases a,
{
    if a == 0 {
        assert(s.subrange(0, s.len() as int) =~= s);
    } else {
        assert(is_space_char(s[0]));
        let t = s.subrange(1, s.len() as int);
        lemma_trim_start_at(t, a - 1);
        assert(t.subrange(a - 1, t.len() as int) =~= s.subrange(a, s.len() as int));
    }
}

proof fn lemma_trim_end_at(s: Seq<char>, b: int)
    requires
        0 <= b <= s.len(),
        forall|j: int| b <= j < s.len() ==> is_space_char(s[j]),
        b > 0 ==> !is_space_char(s[b - 1]),
    ensures
        trim_end_spec(s) == s.subrange(0, b),
    decreases s.len() - b,
{
    if b == s.len() {
        assert(s.subrange(0, s.len() as int) =~= s);
    } else {
        assert(is_space_char(s[s.len() - 1]));
        let t = s.subrange(0, s.len() - 1);
        lemma_trim_end_at(t, b);
        assert(t.subrange(0, b) =~= s.subrange(0, b));
    }
}

/// Drops whitespace from both ends of the line.
pub fn trim_str(s: &str) -> (r: String)
    ensures
        r@ == trim_spec(s@),
{
    let len = s.unicode_len();
    let mut a: usize = 0;
    while a < len && is_space(s.get_char(a))
        invariant
            len == s@.len(),
            a <= len,
            forall|j: int| 0 <= j < a ==> is_space_char(s@[j]),
        decreases len - a,
    {
        a = a + 1;
    }
    proof {
        lemma_trim_start_at(s@, a as int);
    }
    if a == len {
        proof {
            assert(s@.subrange(len as int, len as int) =~= Seq::<char>::empty());
        }
        return String::new();
    }
    let mut b: usize = len;
    while is_space(s.get_char(b - 1))
        invariant
            len == s@.len(),
            a < len,
            !is_space_char(s@[a as int]),
            a < b <= len,
            forall|j: int| b <= j < len ==> is_space_char(s@[j]),
        decreases b,
    {
        b = b - 1;
    }
    proof {
        let t = s@.subrange(a as int, len as int);
        lemma_trim_end_at(t, b - a);
        assert(t.subrange(0, b - a) =~= s@.subrange(a as int, b as int));
    }
    let r = s.substring_char(a, b);
    String::from_str(r)
}

/// The pieces of the text split at every newline; the final piece (after the
/// last newline, possibly empty) is always present.
pub open spec fn pieces(s: Seq<char>) -> Seq<Seq<char>>
    decreases s.len(),
{
    if s.len() == 0 {
        seq![Seq::<char>::empty()]
    } else {
        let prev = pieces(s.drop_last());
        if s.last() == '\n' {
            prev.push(Seq::<char>::empty())
        } else {
            prev.update(prev.len() - 1, prev.last().push(s.last()))
        }
    }
}

proof fn lemma_pieces_len(s: Seq<char>)
    ensures
        pieces(s).len() >= 1,
    decreases s.len(),
{
    if s.len() > 0 {
        lemma_pieces_len(s.drop_last());
    }
}

/// Whether a trimmed line is kept: non-empty and not a comment.
pub open spec fn keep_line(t: Seq<char>) -> bool {
    t.len() > 0 && t[0] != '#'
}

fn keep_exec(t: &str) -> (r: bool)
    ensures
        r == keep_line(t@),
{
    t.unicode_len() > 0 && t.get_char(0) != '#'
}

/// The kept lines of a sequence of raw pieces: each trimmed, blank and
/// comment lines dropped, order preserved.
pub open spec fn clean_filter(ls: Seq<Seq<char>>) -> Seq<Seq<char>>
    decreases ls.len(),
{
    if ls.len() == 0 {
        Seq::<Seq<char>>::empty()
    } else {
        let prev = clean_filter(ls.drop_last());
        let t = trim_spec(ls.last());
        if keep_line(t) {
            prev.push(t)
        } else {
            prev
        }
    }
}

/// All URLs listed in the text: its lines, trimmed, with blank and comment
/// lines dropped. A final piece without a closing newline counts as a line;
/// the empty piece after a closing newline does not.
pub open spec fn url_lines(s: Seq<char>) -> Seq<Seq<char>> {
    let p = pieces(s);
    if p.last().len() == 0 {
        clean_filter(p.drop_last())
    } else {
        clean_filter(p)
    }
}

/// Parses a URL-list text into its kept lines; fails, naming the source,
/// when no line is kept.
pub fn parse_url_lines(content: &str, source_label: &str) -> (r: CliResult<Vec<String>>)
    ensures
        r is Ok <==> url_lines(content@).len() > 0,
        r matches Ok(v) ==> v@.map_values(|x: String| x@) == url_lines(content@),
        r matches Err(e) ==> e matches CliError::Other(m) && m@ == "No URLs found in "@
            + source_label@,
{
    let len = content.unicode_len();
    let mut acc: Vec<String> = Vec::new();
    let mut current = String::new();
    let mut i: usize = 0;
    proof {
        assert(content@.subrange(0, 0) =~= Seq::<char>::empty());
    }
    while i < len
        invariant
            len == content@.len(),
            i <= len,
            pieces(content@.subrange(0, i as int)).len() >= 1,
            current@ == pieces(content@.subrange(0, i as int)).last(),
            acc@.map_values(|x: String| x@) == clean_filter(
                pieces(content@.subrange(0, i as int)).drop_last(),
            ),
        decreases len - i,
    {
        let ghost pre = content@.subrange(0, i as int);
        let c = content.get_char(i);
        if c == '\n' {
            let t = trim_str(current.as_str());
            if keep_exec(t.as_str()) {
                acc.push(t);
            }
            current = String::new();
        } else {
            push_char(&mut current, c);
        }
        i = i + 1;
        proof {
            let post = content@.subrange(0, i as int);
            assert(post.drop_last() =~= pre);
            assert(post.last() == c);
            lemma_pieces_len(pre);
            lemma_pieces_len(post);
            if c == '\n' {
                assert(pieces(post) =~~= pieces(pre).push(Seq::<char>::empty()));
                assert(pieces(post).drop_last() =~~= pieces(pre));
                assert(acc@.map_values(|x: String| x@) =~~= clean_filter(
                    pieces(post).drop_last(),
                ));
            } else {
                assert(pieces(post) == pieces(pre).update(
                    pieces(pre).len() - 1,
                    pieces(pre).last().push(c),
                ));
                assert(pieces(post).drop_last() =~~= pieces(pre).drop_last());
                assert(current@ == pieces(post).last());
            }
        }
    }
    proof {
        assert(content@.subrange(0, len as int) =~= content@);
    }
    if current.as_str().unicode_len() > 0 {
        let t = trim_str(current.as_str());
        if keep_exec(t.as_str()) {
            acc.push(t);
            proof {
                assert(acc@.map_values(|x: String| x@) =~~= url_lines(content@));
            }
        } else {
            proof {
                assert(acc@.map_values(|x: String| x@) =~~= url_lines(content@));
            }
        }
    } else {
        proof {
            assert(acc@.map_values(|x: String| x@) =~~= url_lines(content@));
        }
    }
    if acc.len() > 0 {
        proof {
            assert(url_lines(content@).len() == acc@.map_values(|x: String| x@).len());
        }
        Ok(acc)
    } else {
        Err(CliError::Other(String::from_str("No URLs found in ").concat(source_label)))
    }
}

/// An index shown with at least three digits, zero-padded.
pub open spec fn pad3(n: nat) -> Seq<char> {
    if n < 10 {
        seq!['0', '0', digit_char(n)]
    } else if n < 100 {
        seq!['0'] + dec_seq(n)
    } else {
        dec_seq(n)
    }
}

fn push_pad3(out: &mut String, n: u64)
    ensures
        final(out)@ == old(out)@ + pad3(n as nat),
{
    if n < 10 {
        push_char(out, '0');
        push_char(out, '0');
        let c: char = (0x30u8 + (n as u8)) as char;
        assert(c == digit_char(n as nat));
        push_char(out, c);
        assert(out@ =~= old(out)@ + pad3(n as nat));
    } else if n < 100 {
        push_char(out, '0');
        push_u64(out, n);
        assert(out@ =~= old(out)@ + pad3(n as nat));
    } else {
        push_u64(out, n);
    }
}

/// The batch result filename: one-based index padded to three digits, the
/// URL's domain, and the format as extension.
pub open spec fn batch_file_name(url: Seq<char>, index: nat, format: Seq<char>) -> Seq<char> {
    pad3(index + 1) + "_"@ + domain_label(url) + "."@ + format
}

/// The output path for one batch item, under the output directory.
pub fn batch_output_path(output_dir: &str, url: &str, index: usize, format: &str) -> (r: String)
    requires
        index < usize::MAX,
    ensures
        r@ == output_dir@ + "/"@ + batch_file_name(url@, index as nat, format@),
{
    let mut out = String::from_str(output_dir);
    push_char(&mut out, '/');
    push_pad3(&mut out, (index as u64) + 1);
    push_char(&mut out, '_');
    let domain = extract_domain(url);
    out.append(domain.as_str());
    push_char(&mut out, '.');
    out.append(format);
    proof {
        reveal_strlit("/");
        reveal_strlit("_");
        reveal_strlit(".");
        assert(out@ =~= output_dir@ + "/"@ + batch_file_name(url@, index as nat, format@));
    }
    out
}

/// The watch capture filename: the domain, a clock stamp, and the format as
/// extension.
pub open spec fn stamped_file_name(domain: Seq<char>, stamp: Seq<char>, format: Seq<char>) -> Seq<
    char,
> {
    domain + "_"@ + stamp + "."@ + format
}

/// Composes a filename from a domain, a clock stamp and a format.
pub fn timestamped_filename(domain: &str, stamp: &str, format: &str) -> (r: String)
    ensures
        r@ == stamped_file_name(domain@, stamp@, format@),
{
    String::from_str(domain).concat("_").concat(stamp).concat(".").concat(format)
}

/// A character a clock stamp may hold: a digit, the joining underscore, or
/// a sign put before a year outside the four-digit range.
pub open spec fn stamp_char(c: char) -> bool {
    crate::config::is_digit(c) || c == '_' || c == '-' || c == '+'
}

/// The shape of every clock stamp: the year padded to at least four digits,
/// two digits each for month, day, hour, minute and second, one underscore
/// between date and time, and at most a leading sign.
pub open spec fn clock_stamp_shape(s: Seq<char>) -> bool {
    s.len() >= 15 && (forall|i: int| 0 <= i < s.len() ==> stamp_char(#[trigger] s[i]))
}

/// Relies on chrono's Local::now and its formatter: the current local time
/// as packed date and time digits. The clock decides the value; what holds
/// of every outcome is the shape — the formatter pads the year to at least
/// four digits and the other fields to two, adding only the underscore of
/// the pattern and at most a sign for years outside the four-digit range.
#[verifier::external_body]
fn local_timestamp() -> (r: String)
    ensures
        clock_stamp_shape(r@),
{
    chrono::Local::now().format("%Y%m%d_%H%M%S").to_string()
}

/// A filename for a capture of the URL taken now: its domain, a clock stamp
/// of digits around one underscore, and the format as extension. Two
/// captures within the same second get the same name.
pub fn auto_filename(url: &str, format: &str) -> (r: String)
    ensures
        exists|stamp: Seq<char>|
            clock_stamp_shape(stamp) && r@ == stamped_file_name(
                domain_label(url@),
                stamp,
                format@,
            ),
{
    let domain = extract_domain(url);
    let stamp = local_timestamp();
    let r = timestamped_filename(domain.as_str(), stamp.as_str(), format);
    proof {
        assert(clock_stamp_shape(stamp@) && r@ == stamped_file_name(
            domain_label(url@),
            stamp@,
            format@,
        ));
    }
    r
}

} // verus!
