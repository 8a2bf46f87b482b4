//! Text graphs for usage statistics: numbers grouped with commas, the fill
//! of a quota bar, its color by how close the quota is, and a sparkline over
//! historical counts. All of it is integer arithmetic; the terminal printing
//! and coloring happen outside the library.

use vstd::prelude::*;

use crate::strutil::dec_seq;
use crate::strutil::push_char;
use crate::strutil::push_u64;

verus! {

/// A possibly signed decimal rendering.
pub open spec fn int_dec_seq(n: int) -> Seq<char> {
    if n >= 0 {
        dec_seq(n as nat)
    } else {
        seq!['-'] + dec_seq((-n) as nat)
    }
}

/// The text with a comma put before every position a multiple of three from
/// its end — never at the front, and never right before or right after a
/// minus sign.
pub open spec fn comma_grouped(s: Seq<char>) -> Seq<char> {
    grouped_prefix(s, s.len() as int)
}

/// The first `i` characters of the text, commas inserted.
pub open spec fn grouped_prefix(s: Seq<char>, i: int) -> Seq<char>
    decreases i,
{
    if i <= 0 {
        Seq::<char>::empty()
    } else {
        grouped_prefix(s, i - 1) + (if i - 1 > 0 && (s.len() - (i - 1)) % 3 == 0 && s[i - 1]
            != '-' && s[i - 2] != '-' {
            seq![',']
        } else {
            Seq::<char>::empty()
        }) + seq![s[i - 1]]
    }
}

/// Regroups an already rendered number with commas.
fn group_with_commas(s: &String) -> (r: String)
    ensures
        r@ == comma_grouped(s@),
{
    let raw = s.as_str();
    let len = raw.unicode_len();
    let mut out = String::new();
    let mut i: usize = 0;
    proof {
        assert(out@ =~= grouped_prefix(s@, 0));
    }
    while i < len
        invariant
            len == s@.len(),
            raw@ == s@,
            i <= len,
            out@ == grouped_prefix(s@, i as int),
        decreases len - i,
    {
        let c = raw.get_char(i);
        if i > 0 && (len - i) % 3 == 0 && c != '-' && raw.get_char(i - 1) != '-' {
            push_char(&mut out, ',');
        }
        push_char(&mut out, c);
        i = i + 1;
        proof {
            assert(out@ =~= grouped_prefix(s@, i as int));
        }
    }
    out
}

/// Renders the signed value in decimal.
fn signed_to_string(neg: bool, magnitude: u64) -> (r: String)
    ensures
        neg ==> r@ == seq!['-'] + dec_seq(magnitude as nat),
        !neg ==> r@ == dec_seq(magnitude as nat),
{
    let mut out = String::new();
    if neg {
        push_char(&mut out, '-');
    }
    push_u64(&mut out, magnitude);
    proof {
        if neg {
            assert(out@ =~= seq!['-'] + dec_seq(magnitude as nat));
        } else {
            assert(out@ =~= dec_seq(magnitude as nat));
        }
    }
    out
}

/// Rendering-with-commas behaves the same at both integer widths, so both
/// live on the one graph type.
pub struct UsageGraph;

impl UsageGraph {
    /// Formats a count with thousands separators.
    pub fn format_number_i32(n: i32) -> (r: String)
        ensures
            r@ == comma_grouped(int_dec_seq(n as int)),
    {
        UsageGraph::format_number_i64(n as i64)
    }

    /// Formats a count with thousands separators.
    pub fn format_number_i64(n: i64) -> (r: String)
        ensures
            r@ == comma_grouped(int_dec_seq(n as int)),
    {
        let neg = n < 0;
        let magnitude: u64 = if n < 0 {
            (-(n as i128)) as u64
        } else {
            n as u64
        };
        assert(magnitude == if n < 0 {
            -(n as int)
        } else {
            n as int
        });
        let plain = signed_to_string(neg, magnitude);
        group_with_commas(&plain)
    }
}

/// The percentage shown beside a bar: zero unless both values are positive.
pub open spec fn bar_percent(used: int, limit: int) -> int {
    if used > 0 && limit > 0 {
        used * 100 / limit
    } else {
        0
    }
}

/// How many cells of the bar are filled: none unless both values are
/// positive, all of them once the quota is reached.
pub open spec fn bar_filled(used: int, limit: int, width: int) -> int {
    if used > 0 && limit > 0 {
        if used >= limit {
            width
        } else {
            width * used / limit
        }
    } else {
        0
    }
}

/// The color of a bar: red from ninety percent, yellow from seventy-five.
pub open spec fn bar_color_text(percent: int) -> Seq<char> {
    if percent >= 90 {
        "red"@
    } else if percent >= 75 {
        "yellow"@
    } else {
        "green"@
    }
}

/// The color of a bar: red from ninety percent, yellow from seventy-five.
pub fn bar_color(percent: i64) -> (r: &'static str)
    ensures
        r@ == bar_color_text(percent as int),
{
    if percent >= 90 {
        "red"
    } else if percent >= 75 {
        "yellow"
    } else {
        "green"
    }
}

/// The geometry of one usage bar.
#[derive(Debug, Clone, Copy)]
pub struct BarSpec {
    /// The percentage of the quota used.
    pub percent: i64,
    /// Filled cells.
    pub filled: usize,
    /// Empty cells: the rest of the width.
    pub empty: usize,
}

/// Computes a bar's geometry from a used amount and a limit. Values must be
/// moderate so that the scaling arithmetic fits the machine words.
pub fn compute_bar(used: i64, limit: i64, bar_width: usize) -> (r: BarSpec)
    requires
        bar_width <= 10000,
        used <= 0x38d7ea4c68000,
        limit <= 0x38d7ea4c68000,
    ensures
        r.percent == bar_percent(used as int, limit as int),
        r.filled == bar_filled(used as int, limit as int, bar_width as int),
        r.empty == bar_width - r.filled,
{
    if used > 0 && limit > 0 {
        let u = used as u64;
        let l = limit as u64;
        let percent = (u * 100 / l) as i64;
        let filled: usize = if u >= l {
            bar_width
        } else {
            proof {
                assert((bar_width as int) * (u as int) <= 10000 * 0x38d7ea4c68000)
                    by (nonlinear_arith)
                    requires
                        0 <= bar_width <= 10000,
                        0 <= u <= 0x38d7ea4c68000,
                ;
                assert((bar_width as int) * (u as int) <= (l as int) * (bar_width as int))
                    by (nonlinear_arith)
                    requires
                        0 < u < l,
                        0 <= bar_width,
                ;
                vstd::arithmetic::div_mod::lemma_div_is_ordered(
                    (bar_width as int) * (u as int),
                    (l as int) * (bar_width as int),
                    l as int,
                );
                vstd::arithmetic::div_mod::lemma_div_multiples_vanish(
                    bar_width as int,
                    l as int,
                );
            }
            ((bar_width as u64) * u / l) as usize
        };
        BarSpec { percent, filled, empty: bar_width - filled }
    } else {
        BarSpec { percent: 0, filled: 0, empty: bar_width }
    }
}

/// A run of one repeated character, as a bar segment.
pub open spec fn char_run(c: char, n: nat) -> Seq<char>
    decreases n,
{
    if n == 0 {
        Seq::<char>::empty()
    } else {
        char_run(c, (n - 1) as nat).push(c)
    }
}

/// Renders a run of one repeated character.
pub fn repeat_char(c: char, n: usize) -> (r: String)
    ensures
        r@ == char_run(c, n as nat),
{
    let mut out = String::new();
    let mut i: usize = 0;
    while i < n
        invariant
            i <= n,
            out@ == char_run(c, i as nat),
        decreases n - i,
    {
        push_char(&mut out, c);
        i = i + 1;
    }
    out
}

/// The largest value of the series; one when the series would be empty.
pub open spec fn series_max(s: Seq<i32>) -> int
    decreases s.len(),
{
    if s.len() == 0 {
        1
    } else if s.len() == 1 {
        s[0] as int
    } else {
        let rest = series_max(s.drop_last());
        if s.last() as int > rest {
            s.last() as int
        } else {
            rest
        }
    }
}

/// The cell a value falls into, zero to eight, against the series maximum.
pub open spec fn spark_index(v: int, max: int) -> int {
    if max > 0 && v > 0 {
        let idx = v * 8 / max;
        if idx > 8 {
            8
        } else {
            idx
        }
    } else {
        0
    }
}

/// The block character of one sparkline cell.
pub open spec fn spark_char(i: int) -> char {
    if i <= 0 {
        ' '
    } else if i == 1 {
        '▁'
    } else if i == 2 {
        '▂'
    } else if i == 3 {
        '▃'
    } else if i == 4 {
        '▄'
    } else if i == 5 {
        '▅'
    } else if i == 6 {
        '▆'
    } else if i == 7 {
        '▇'
    } else {
        '█'
    }
}

/// The sparkline text of a series: one cell per value, scaled to the
/// series' own maximum.
pub open spec fn spark_text(data: Seq<i32>) -> Seq<char> {
    data.map_values(|v: i32| spark_char(spark_index(v as int, series_max(data))))
}

fn spark_char_exec(i: u64) -> (r: char)
    ensures
        r == spark_char(i as int),
{
    if i == 0 {
        ' '
    } else if i == 1 {
        '▁'
    } else if i == 2 {
        '▂'
    } else if i == 3 {
        '▃'
    } else if i == 4 {
        '▄'
    } else if i == 5 {
        '▅'
    } else if i == 6 {
        '▆'
    } else if i == 7 {
        '▇'
    } else {
        '█'
    }
}

impl UsageGraph {
    /// Renders the sparkline of a non-empty series of counts.
    pub fn render_sparkline(data: &Vec<i32>) -> (r: String)
        requires
            data@.len() > 0,
        ensures
            r@ == spark_text(data@),
    {
        let n = data.len();
        let mut max: i32 = data[0];
        let mut i: usize = 1;
        proof {
            assert(data@.subrange(0, 1).drop_last() =~= Seq::<i32>::empty());
            assert(data@.subrange(0, 1) =~= seq![data@[0]]);
            assert(series_max(data@.subrange(0, 1)) == data@[0] as int);
        }
        while i < n
            invariant
                n == data@.len(),
                1 <= i <= n,
                max == series_max(data@.subrange(0, i as int)),
            decreases n - i,
        {
            let v = data[i];
            if v > max {
                max = v;
            }
            i = i + 1;
            proof {
                let post = data@.subrange(0, i as int);
                assert(post.drop_last() =~= data@.subrange(0, i - 1));
                assert(post.last() == data@[i - 1]);
                assert(post.len() >= 2);
            }
        }
        proof {
            assert(data@.subrange(0, n as int) =~= data@);
        }
        let mut out = String::new();
        let mut j: usize = 0;
        proof {
            assert(out@ =~= data@.subrange(0, 0).map_values(
                |v: i32| spark_char(spark_index(v as int, series_max(data@))),
            ));
        }
        while j < n
            invariant
                n == data@.len(),
                j <= n,
                max == series_max(data@),
                out@ == data@.subrange(0, j as int).map_values(
                    |v: i32| spark_char(spark_index(v as int, series_max(data@))),
                ),
            decreases n - j,
        {
            let v = data[j];
            let idx: u64 = if max > 0 && v > 0 {
                let raw = (v as u64) * 8 / (max as u64);
                if raw > 8 {
                    8
                } else {
                    raw
                }
            } else {
                0
            };
            assert(idx == spark_index(v as int, series_max(data@)));
            let c = spark_char_exec(idx);
            push_char(&mut out, c);
            j = j + 1;
            proof {
                assert(out@ =~= data@.subrange(0, j as int).map_values(
                    |v: i32| spark_char(spark_index(v as int, series_max(data@))),
                ));
            }
        }
        proof {
            assert(data@.subrange(0, n as int) =~= data@);
        }
        out
    }
}

} // verus!
