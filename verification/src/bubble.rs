//! The speech-bubble formatter: frames a message in a box sized by the
//! display width of its widest line.

use crate::outside::{char_width, display_width};
use crate::strutil::{chars_of, first_index_of, lemma_first_index_of, split_once_char};
use vstd::prelude::*;
use vstd::string::StrSliceExecFns;
use vstd::string::StringExecFns;

verus! {

/// The display width of `s`: the sum of its characters' widths.
pub open spec fn width_sum(s: Seq<char>) -> nat
    decreases s.len(),
{
    if s.len() == 0 {
        0
    } else {
        width_sum(s.drop_last()) + display_width(s.last())
    }
}

pub proof fn lemma_width_sum_split(s: Seq<char>, i: int)
    requires
        0 <= i <= s.len(),
    ensures
        width_sum(s) == width_sum(s.take(i)) + width_sum(s.skip(i)),
    decreases s.len() - i,
{
    if i == s.len() {
        assert(s.take(i) =~= s);
        assert(s.skip(i).len() == 0);
    } else {
        lemma_width_sum_split(s.drop_last(), i);
        assert(s.drop_last().take(i) =~= s.take(i));
        assert(s.drop_last().skip(i) =~= s.skip(i).drop_last());
        assert(s.skip(i).last() == s.last());
    }
}

/// A prefix never exceeds the whole in display width.
pub proof fn lemma_width_sum_take_le(s: Seq<char>, i: int)
    requires
        0 <= i <= s.len(),
    ensures
        width_sum(s.take(i)) <= width_sum(s),
{
    lemma_width_sum_split(s, i);
}

/// The lines of `s`, split at `'\n'`, each with one trailing `'\r'`
/// removed, and with no final empty line for a trailing newline.
pub open spec fn strip_cr(l: Seq<char>) -> Seq<char> {
    if l.len() > 0 && l.last() == '\r' {
        l.drop_last()
    } else {
        l
    }
}

pub open spec fn lines_spec(s: Seq<char>) -> Seq<Seq<char>>
    decreases s.len(),
{
    if s.len() == 0 {
        Seq::empty()
    } else {
        let i = first_index_of(s, '\n');
        if 0 <= i < s.len() {
            seq![strip_cr(s.take(i))] + lines_spec(s.skip(i + 1))
        } else {
            seq![strip_cr(s)]
        }
    }
}

/// No line is wider than the text it came from.
pub proof fn lemma_lines_width(s: Seq<char>)
    ensures
        forall|j: int|
            0 <= j < lines_spec(s).len() ==> width_sum(#[trigger] lines_spec(s)[j]) <= width_sum(s),
    decreases s.len(),
{
    if s.len() == 0 {
    } else {
        let i = first_index_of(s, '\n');
        lemma_first_index_of(s, '\n');
        if i < s.len() {
            let first = s.take(i);
            let rest = s.skip(i + 1);
            lemma_width_sum_split(s, i);
            lemma_width_sum_split(s.skip(i), 1);
            assert(s.skip(i).skip(1) =~= rest);
            assert(width_sum(s) >= width_sum(first) + width_sum(rest));
            assert(width_sum(strip_cr(first)) <= width_sum(first));
            lemma_lines_width(rest);
            assert forall|j: int| 0 <= j < lines_spec(s).len() implies width_sum(
                #[trigger] lines_spec(s)[j],
            ) <= width_sum(s) by {
                if j > 0 {
                    assert(lines_spec(s)[j] == lines_spec(rest)[j - 1]);
                }
            }
        } else {
            assert(width_sum(strip_cr(s)) <= width_sum(s));
        }
    }
}

/// The width of the widest line.
pub open spec fn max_line_width(ls: Seq<Seq<char>>) -> nat
    decreases ls.len(),
{
    if ls.len() == 0 {
        0
    } else {
        let rest = max_line_width(ls.drop_last());
        let last = width_sum(ls.last());
        if rest >= last {
            rest
        } else {
            last
        }
    }
}

/// Every line fits under the widest line's width.
pub proof fn lemma_max_line_width(ls: Seq<Seq<char>>)
    ensures
        forall|j: int| 0 <= j < ls.len() ==> width_sum(#[trigger] ls[j]) <= max_line_width(ls),
    decreases ls.len(),
{
    if ls.len() > 0 {
        lemma_max_line_width(ls.drop_last());
        assert forall|j: int| 0 <= j < ls.len() implies width_sum(#[trigger] ls[j])
            <= max_line_width(ls) by {
            if j < ls.len() - 1 {
                assert(ls[j] == ls.drop_last()[j]);
            }
        }
    }
}

/// Sums the display widths of the characters of `s`.
pub fn get_str_len(s: &str) -> (r: u32)
    requires
        width_sum(s@) <= u32::MAX,
    ensures
        r == width_sum(s@),
{
    let cs: Vec<char> = chars_of(s);
    let n: usize = cs.len();
    let mut sum: u32 = 0;
    let mut i: usize = 0;
    while i < n
        invariant
            cs@ == s@,
            n == s@.len(),
            i <= n,
            width_sum(s@) <= u32::MAX,
            sum == width_sum(s@.take(i as int)),
        decreases n - i,
    {
        let w: usize = char_width(cs[i]);
        proof {
            assert(s@.take(i + 1).drop_last() =~= s@.take(i as int));
            assert(s@.take(i + 1).last() == s@[i as int]);
            lemma_width_sum_take_le(s@, i + 1);
        }
        sum = sum + (w as u32);
        i = i + 1;
    }
    proof {
        assert(s@.take(n as int) =~= s@);
    }
    sum
}

/// Sums the display widths of `s` without any bound assumed: each width is
/// at most 3, so the sum fits comfortably in the wide accumulator.
fn width_total(s: &str) -> (r: u128)
    ensures
        r == width_sum(s@),
{
    let cs: Vec<char> = chars_of(s);
    let n: usize = cs.len();
    let mut sum: u128 = 0;
    let mut i: usize = 0;
    while i < n
        invariant
            cs@ == s@,
            n == s@.len(),
            i <= n,
            sum == width_sum(s@.take(i as int)),
            sum <= 3 * (i as u128),
        decreases n - i,
    {
        let w: usize = char_width(cs[i]);
        proof {
            assert(s@.take(i + 1).drop_last() =~= s@.take(i as int));
            assert(s@.take(i + 1).last() == s@[i as int]);
        }
        sum = sum + (w as u128);
        i = i + 1;
    }
    proof {
        assert(s@.take(n as int) =~= s@);
    }
    sum
}

/// Frames `s` in a speech bubble when its summed display width fits the
/// formatter's 32-bit arithmetic, and reports when it does not.
pub fn try_s2huki(s: &str) -> (r: Option<String>)
    ensures
        r is Some <==> width_sum(s@) <= u32::MAX,
        r matches Some(t) ==> t@ == bubble_text(s@),
{
    let total: u128 = width_total(s);
    if total <= 0xffff_ffff {
        Some(s2huki(s))
    } else {
        None
    }
}

/// Removes one trailing carriage return, if any.
fn strip_cr_str<'a>(l: &'a str) -> (r: &'a str)
    ensures
        r@ == strip_cr(l@),
{
    let n: usize = l.unicode_len();
    if n > 0 && l.get_char(n - 1) == '\r' {
        l.substring_char(0, n - 1)
    } else {
        l
    }
}

/// Splits `s` into its lines, as `lines_spec` describes them.
pub fn lines_of(s: &str) -> (r: Vec<String>)
    ensures
        r@.len() == lines_spec(s@).len(),
        forall|j: int| 0 <= j < r@.len() ==> (#[trigger] r@[j])@ == lines_spec(s@)[j],
{
    let mut result: Vec<String> = Vec::new();
    let mut rest: &str = s;
    let ghost mut done: Seq<Seq<char>> = Seq::empty();
    proof {
        assert(done + lines_spec(rest@) =~= lines_spec(s@));
    }
    while rest.unicode_len() > 0
        invariant
            result@.len() == done.len(),
            forall|j: int| 0 <= j < done.len() ==> (#[trigger] result@[j])@ == done[j],
            done + lines_spec(rest@) == lines_spec(s@),
        decreases rest@.len(),
    {
        proof {
            lemma_first_index_of(rest@, '\n');
        }
        let (first, tail): (&str, Option<&str>) = split_once_char(rest, '\n');
        let line: &str = strip_cr_str(first);
        result.push(String::from_str(line));
        proof {
            done = done.push(line@);
        }
        match tail {
            Some(t) => {
                proof {
                    assert(rest@.subrange(0, first_index_of(rest@, '\n')) =~= rest@.take(
                        first_index_of(rest@, '\n'),
                    ));
                    assert(rest@.subrange(first_index_of(rest@, '\n') + 1, rest@.len() as int)
                        =~= rest@.skip(first_index_of(rest@, '\n') + 1));
                    assert(done + lines_spec(t@) =~= lines_spec(s@));
                }
                rest = t;
            },
            None => {
                proof {
                    reveal_strlit("");
                    assert(rest@.subrange(0, first_index_of(rest@, '\n')) =~= rest@);
                    assert(lines_spec(rest@) =~= seq![strip_cr(rest@)]);
                    assert(done + lines_spec(""@) =~= lines_spec(s@));
                }
                rest = "";
            },
        }
    }
    proof {
        assert(done + lines_spec(rest@) == lines_spec(s@));
        assert(lines_spec(rest@) =~= Seq::<Seq<char>>::empty());
        assert(done =~= lines_spec(s@));
    }
    result
}

/// The display width of the widest line of `s`.
pub fn get_max_len(s: &str) -> (r: u32)
    requires
        width_sum(s@) <= u32::MAX,
    ensures
        r == max_line_width(lines_spec(s@)),
{
    let lines: Vec<String> = lines_of(s);
    let ghost ls = lines_spec(s@);
    let mut max: u32 = 0;
    let mut i: usize = 0;
    while i < lines.len()
        invariant
            lines@.len() == ls.len(),
            forall|j: int| 0 <= j < ls.len() ==> (#[trigger] lines@[j])@ == ls[j],
            i <= ls.len(),
            width_sum(s@) <= u32::MAX,
            ls == lines_spec(s@),
            max == max_line_width(ls.take(i as int)),
        decreases lines@.len() - i,
    {
        proof {
            lemma_lines_width(s@);
        }
        let len: u32 = get_str_len(lines[i].as_str());
        proof {
            assert(ls.take(i + 1).drop_last() =~= ls.take(i as int));
            assert(ls.take(i + 1).last() == ls[i as int]);
        }
        if max < len {
            max = len;
        }
        i = i + 1;
    }
    proof {
        assert(ls.take(ls.len() as int) =~= ls);
    }
    max
}

/// `p` repeated `n` times.
pub open spec fn repeat_seq(p: Seq<char>, n: nat) -> Seq<char>
    decreases n,
{
    if n == 0 {
        Seq::empty()
    } else {
        repeat_seq(p, (n - 1) as nat) + p
    }
}

/// Repeats `msg` `mul` times.
pub fn mul_str(msg: &str, mul: u32) -> (r: String)
    ensures
        r@ == repeat_seq(msg@, mul as nat),
{
    let mut s: String = String::new();
    let mut k: u32 = 0;
    proof {
        assert(s@ =~= repeat_seq(msg@, 0));
    }
    while k < mul
        invariant
            k <= mul,
            s@ == repeat_seq(msg@, k as nat),
        decreases mul - k,
    {
        s.append(msg);
        k = k + 1;
    }
    s
}

/// The bubble's top border for inner width `max`.
pub open spec fn bubble_top(max: nat) -> Seq<char> {
    "\u{ef}\u{bc}\u{bf}"@ + repeat_seq("\u{e4}\u{ba}\u{ba}"@, max / 2) + "\u{ef}\u{bc}\u{bf}"@
        + "\n"@
}

/// The bubble's bottom border for inner width `max`.
pub open spec fn bubble_bottom(max: nat) -> Seq<char> {
    "\u{ef}\u{bf}\u{a3}"@ + repeat_seq("Y^"@, max / 2) + "\u{ef}\u{bf}\u{a3}"@ + "\n"@
}

/// One body row: the line padded with spaces out to the inner width.
pub open spec fn bubble_row(l: Seq<char>, max: nat) -> Seq<char> {
    "\u{ef}\u{bc} "@ + l + repeat_seq(" "@, (max - width_sum(l)) as nat) + " \u{ef}\u{bc}\u{153}"@
        + "\n"@
}

/// The body rows for the lines `ls`.
pub open spec fn bubble_rows(ls: Seq<Seq<char>>, max: nat) -> Seq<char>
    decreases ls.len(),
{
    if ls.len() == 0 {
        Seq::empty()
    } else {
        bubble_rows(ls.drop_last(), max) + bubble_row(ls.last(), max)
    }
}

/// The whole bubble around `s`.
pub open spec fn bubble_text(s: Seq<char>) -> Seq<char> {
    let max = max_line_width(lines_spec(s));
    bubble_top(max) + bubble_rows(lines_spec(s), max) + bubble_bottom(max)
}

/// Frames `s` in a speech bubble sized by its widest line.
pub fn s2huki(s: &str) -> (r: String)
    requires
        width_sum(s@) <= u32::MAX,
    ensures
        r@ == bubble_text(s@),
{
    let max_width: u32 = get_max_len(s);
    let ghost maxn = max_width as nat;

    let mut top: String = String::from_str("\u{ef}\u{bc}\u{bf}");
    let fill: String = mul_str("\u{e4}\u{ba}\u{ba}", max_width / 2);
    top.append(fill.as_str());
    top.append("\u{ef}\u{bc}\u{bf}");
    top.append("\n");
    proof {
        assert(top@ =~= bubble_top(maxn));
    }

    let mut btm: String = String::from_str("\u{ef}\u{bf}\u{a3}");
    let bfill: String = mul_str("Y^", max_width / 2);
    btm.append(bfill.as_str());
    btm.append("\u{ef}\u{bf}\u{a3}");
    btm.append("\n");
    proof {
        assert(btm@ =~= bubble_bottom(maxn));
    }

    let mut ss: String = top;
    let lines: Vec<String> = lines_of(s);
    let ghost ls = lines_spec(s@);
    let mut i: usize = 0;
    proof {
        assert(bubble_rows(ls.take(0), maxn) =~= Seq::<char>::empty());
        assert(ss@ =~= bubble_top(maxn) + bubble_rows(ls.take(0), maxn));
    }
    while i < lines.len()
        invariant
            lines@.len() == ls.len(),
            forall|j: int| 0 <= j < ls.len() ==> (#[trigger] lines@[j])@ == ls[j],
            i <= ls.len(),
            width_sum(s@) <= u32::MAX,
            ls == lines_spec(s@),
            maxn == max_line_width(ls),
            maxn == max_width as nat,
            ss@ == bubble_top(maxn) + bubble_rows(ls.take(i as int), maxn),
        decreases lines@.len() - i,
    {
        proof {
            lemma_lines_width(s@);
            lemma_max_line_width(ls);
        }
        let l: &str = lines[i].as_str();
        proof {
            assert(l@ == ls[i as int]);
            assert(width_sum(ls[i as int]) <= width_sum(s@));
            assert(width_sum(ls[i as int]) <= max_line_width(ls));
        }
        let lw: u32 = get_str_len(l);
        let fit_spc: String = mul_str(" ", max_width - lw);
        let mut row: String = String::from_str("\u{ef}\u{bc} ");
        row.append(l);
        row.append(fit_spc.as_str());
        row.append(" \u{ef}\u{bc}\u{153}");
        row.append("\n");
        proof {
            assert(row@ =~= bubble_row(ls[i as int], maxn));
        }
        ss.append(row.as_str());
        proof {
            assert(ls.take(i + 1).drop_last() =~= ls.take(i as int));
            assert(ls.take(i + 1).last() == ls[i as int]);
            assert(ss@ =~= bubble_top(maxn) + bubble_rows(ls.take(i + 1), maxn));
        }
        i = i + 1;
    }
    proof {
        assert(ls.take(ls.len() as int) =~= ls);
    }
    ss.append(btm.as_str());
    proof {
        assert(ss@ =~= bubble_text(s@));
    }
    ss
}

} // verus!
