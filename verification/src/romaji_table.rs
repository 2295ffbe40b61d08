//! The text form of a romaji table: one rule per line, its fields parted
//! by tabs.
//!
//! A line is read without the white space around it. An empty line and a
//! line that starts with `#` hold no rule. The first field is the input,
//! the second the output, the third, where there is one, the next input;
//! each is read without the white space around it. A line without a
//! second field, or with an empty input or output, holds no rule.

use vstd::prelude::*;
use vstd::string::*;

use crate::config::{RomajiRule, RomajiRuleView};
use crate::text::to_chars;

verus! {

/// Whether `c` is white space, as Unicode defines it.
pub open spec fn is_space(c: char) -> bool {
    let code = c as int;
    (0x09 <= code <= 0x0D) || code == 0x20 || code == 0x85 || code == 0xA0 || code == 0x1680 || (
    0x2000 <= code <= 0x200A) || code == 0x2028 || code == 0x2029 || code == 0x202F || code
        == 0x205F || code == 0x3000
}

/// The first position in `from..to` at which `s` holds `c`; `to` where it
/// holds none.
pub open spec fn position_of(s: Seq<char>, c: char, from: int, to: int) -> int
    decreases to - from,
{
    if from >= to {
        to
    } else if s[from] == c {
        from
    } else {
        position_of(s, c, from + 1, to)
    }
}

/// The first position in `from..to` at which `s` holds no white space;
/// `to` where it holds nothing else.
pub open spec fn trim_start(s: Seq<char>, from: int, to: int) -> int
    decreases to - from,
{
    if from >= to {
        to
    } else if is_space(s[from]) {
        trim_start(s, from + 1, to)
    } else {
        from
    }
}

/// The position behind the last character in `from..to` that is no white
/// space; `from` where there is none.
pub open spec fn trim_end(s: Seq<char>, from: int, to: int) -> int
    decreases to - from,
{
    if from >= to {
        from
    } else if is_space(s[to - 1]) {
        trim_end(s, from, to - 1)
    } else {
        to
    }
}

/// The text of `from..to` without the white space around it.
pub open spec fn trimmed(s: Seq<char>, from: int, to: int) -> Seq<char> {
    let start = trim_start(s, from, to);
    let end = trim_end(s, start, to);
    s.subrange(start, end)
}

/// The rule that the line `from..to` holds, if it holds one.
pub open spec fn row_of(s: Seq<char>, from: int, to: int) -> Option<RomajiRuleView> {
    let start = trim_start(s, from, to);
    let end = trim_end(s, start, to);
    if start >= end || s[start] == '#' {
        None
    } else {
        let first_tab = position_of(s, '\t', start, end);
        if first_tab >= end {
            None
        } else {
            let second_tab = position_of(s, '\t', first_tab + 1, end);
            let input = trimmed(s, start, first_tab);
            let output = trimmed(s, first_tab + 1, second_tab);
            if input.len() == 0 || output.len() == 0 {
                None
            } else {
                Some(
                    RomajiRuleView {
                        input,
                        output,
                        next_input: if second_tab >= end {
                            Seq::empty()
                        } else {
                            trimmed(s, second_tab + 1, position_of(s, '\t', second_tab + 1, end))
                        },
                    },
                )
            }
        }
    }
}

/// The rules of the lines that start at `from` or later, in order.
pub open spec fn rows_from(s: Seq<char>, from: int) -> Seq<RomajiRuleView>
    decreases s.len() - from,
{
    if from < 0 || from > s.len() {
        Seq::empty()
    } else {
        let end = position_of(s, '\n', from, s.len() as int);
        let here = match row_of(s, from, end) {
            Some(rule) => seq![rule],
            None => Seq::empty(),
        };
        if end >= s.len() {
            here
        } else {
            proof {
                lemma_position_bounds(s, '\n', from, s.len() as int);
            }
            here + rows_from(s, end + 1)
        }
    }
}

/// The rules that a table holds, in the order of its lines.
pub open spec fn romaji_rows(table: Seq<char>) -> Seq<RomajiRuleView> {
    rows_from(table, 0)
}

/// Where `position_of` lies.
pub proof fn lemma_position_bounds(s: Seq<char>, c: char, from: int, to: int)
    requires
        from <= to,
    ensures
        from <= position_of(s, c, from, to) <= to,
    decreases to - from,
{
    if from < to && s[from] != c {
        lemma_position_bounds(s, c, from + 1, to);
    }
}

/// Whether `c` is white space.
pub fn is_whitespace(c: char) -> (b: bool)
    ensures
        b == is_space(c),
{
    let code = c as u32;
    (0x09 <= code && code <= 0x0D) || code == 0x20 || code == 0x85 || code == 0xA0 || code
        == 0x1680 || (0x2000 <= code && code <= 0x200A) || code == 0x2028 || code == 0x2029 || code
        == 0x202F || code == 0x205F || code == 0x3000
}

/// Finds the first `c` in `from..to`.
fn find(chars: &Vec<char>, c: char, from: usize, to: usize) -> (at: usize)
    requires
        from <= to <= chars.len(),
    ensures
        at == position_of(chars@, c, from as int, to as int),
        from <= at <= to,
{
    let mut i = from;
    while i < to
        invariant
            from <= i <= to <= chars.len(),
            position_of(chars@, c, from as int, to as int) == position_of(
                chars@,
                c,
                i as int,
                to as int,
            ),
        decreases to - i,
    {
        if chars[i] == c {
            return i;
        }
        i += 1;
    }
    i
}

/// Skips the white space at the front of `from..to`.
fn skip_front(chars: &Vec<char>, from: usize, to: usize) -> (at: usize)
    requires
        from <= to <= chars.len(),
    ensures
        at == trim_start(chars@, from as int, to as int),
        from <= at <= to,
{
    let mut i = from;
    while i < to
        invariant
            from <= i <= to <= chars.len(),
            trim_start(chars@, from as int, to as int) == trim_start(chars@, i as int, to as int),
        decreases to - i,
    {
        if !is_whitespace(chars[i]) {
            return i;
        }
        i += 1;
    }
    i
}

/// Skips the white space at the back of `from..to`.
fn skip_back(chars: &Vec<char>, from: usize, to: usize) -> (at: usize)
    requires
        from <= to <= chars.len(),
    ensures
        at == trim_end(chars@, from as int, to as int),
        from <= at <= to,
{
    let mut i = to;
    while i > from
        invariant
            from <= i <= to <= chars.len(),
            trim_end(chars@, from as int, to as int) == trim_end(chars@, from as int, i as int),
        decreases i - from,
    {
        if !is_whitespace(chars[i - 1]) {
            return i;
        }
        i -= 1;
    }
    i
}

/// The text of `from..to` without the white space around it.
fn trimmed_text(chars: &Vec<char>, from: usize, to: usize) -> (out: String)
    requires
        from <= to <= chars.len(),
    ensures
        out@ == trimmed(chars@, from as int, to as int),
{
    let start = skip_front(chars, from, to);
    let end = skip_back(chars, start, to);
    let mut out = String::new();
    let mut i = start;
    while i < end
        invariant
            start <= i <= end <= chars.len(),
            out@ == chars@.subrange(start as int, i as int),
        decreases end - i,
    {
        out.push(chars[i]);
        assert(chars@.subrange(start as int, i + 1) =~= chars@.subrange(
            start as int,
            i as int,
        ).push(chars@[i as int]));
        i += 1;
    }
    out
}

/// Reads the rule of the line `from..to`.
fn parse_row(chars: &Vec<char>, from: usize, to: usize) -> (row: Option<RomajiRule>)
    requires
        from <= to <= chars.len(),
    ensures
        match row {
            Some(rule) => row_of(chars@, from as int, to as int) == Some(rule@),
            None => row_of(chars@, from as int, to as int) is None,
        },
{
    let start = skip_front(chars, from, to);
    let end = skip_back(chars, start, to);
    if start >= end || chars[start] == '#' {
        return None;
    }
    let first_tab = find(chars, '\t', start, end);
    if first_tab >= end {
        return None;
    }
    let second_tab = find(chars, '\t', first_tab + 1, end);
    let input = trimmed_text(chars, start, first_tab);
    let output = trimmed_text(chars, first_tab + 1, second_tab);
    if input.as_str().is_empty() || output.as_str().is_empty() {
        return None;
    }
    let next_input = if second_tab >= end {
        String::new()
    } else {
        let third_tab = find(chars, '\t', second_tab + 1, end);
        trimmed_text(chars, second_tab + 1, third_tab)
    };
    Some(RomajiRule { input, output, next_input })
}

/// Reads the rules of a romaji table.
pub fn default_romaji_rows(table: &str) -> (rows: Vec<RomajiRule>)
    ensures
        rows.deep_view() == romaji_rows(table@),
{
    let chars = to_chars(table);
    let mut rows: Vec<RomajiRule> = Vec::new();
    let mut from: usize = 0;
    assert(rows.deep_view() =~= Seq::<RomajiRuleView>::empty());
    loop
        invariant_except_break
            romaji_rows(table@) == rows.deep_view() + rows_from(chars@, from as int),
        invariant
            from <= chars.len(),
            chars@ == table@,
        ensures
            rows.deep_view() == romaji_rows(table@),
        decreases chars.len() - from,
    {
        let end = find(&chars, '\n', from, chars.len());
        let ghost before = rows.deep_view();
        let ghost here = match row_of(chars@, from as int, end as int) {
            Some(rule) => seq![rule],
            None => Seq::empty(),
        };
        match parse_row(&chars, from, end) {
            Some(rule) => {
                rows.push(rule);
            },
            None => {},
        }
        assert(rows.deep_view() =~= before + here);
        if end >= chars.len() {
            assert(rows_from(chars@, from as int) == here);
            assert(before + here =~= rows.deep_view());
            break ;
        }
        assert(rows_from(chars@, from as int) == here + rows_from(chars@, end + 1));
        assert(before + (here + rows_from(chars@, end + 1)) =~= (before + here) + rows_from(
            chars@,
            end + 1,
        ));
        from = end + 1;
    }
    rows
}

} // verus!
