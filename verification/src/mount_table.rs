//! Scanning a mount table for an existing `/proc` entry.
//!
//! The isolation sequence must not mount the process-information filesystem
//! twice at `/proc`, so before mounting it scans the active mount table.
//! The table is a byte text: one entry per line, fields separated by blanks,
//! the mount point standing as the second field. A line whose second field
//! is exactly `/proc` means the mount is already present.

use vstd::prelude::*;

verus! {

/// Bytes that separate fields within one mount-table line:
/// space, horizontal tab, carriage return.
pub open spec fn is_field_sep(b: u8) -> bool {
    b == 32 || b == 9 || b == 13
}

/// The mount point the isolation sequence cares about: the bytes of `/proc`.
pub open spec fn proc_path() -> Seq<u8> {
    seq![47u8, 112u8, 114u8, 111u8, 99u8]
}

/// First index in `[i, end]` where a field could start: skips separators.
pub open spec fn skip_sep(s: Seq<u8>, i: int, end: int) -> int
    decreases end - i,
{
    if i < end && is_field_sep(s[i]) {
        skip_sep(s, i + 1, end)
    } else {
        i
    }
}

/// First index in `[i, end]` past the field starting at `i`:
/// skips non-separators.
pub open spec fn skip_field(s: Seq<u8>, i: int, end: int) -> int
    decreases end - i,
{
    if i < end && !is_field_sep(s[i]) {
        skip_field(s, i + 1, end)
    } else {
        i
    }
}

/// Where the second blank-separated field of `s[start..end]` begins.
pub open spec fn second_field_start(s: Seq<u8>, start: int, end: int) -> int {
    skip_sep(s, skip_field(s, skip_sep(s, start, end), end), end)
}

/// The line `s[start..end]` names `/proc` as its mount point: its second
/// blank-separated field is exactly `/proc`.
pub open spec fn line_lists_proc(s: Seq<u8>, start: int, end: int) -> bool {
    let fs = second_field_start(s, start, end);
    let fe = skip_field(s, fs, end);
    s.subrange(fs, fe) == proc_path()
}

/// Index of the first line break (newline byte) at or after `i`.
pub open spec fn line_break(s: Seq<u8>, i: int) -> int
    decreases s.len() - i,
{
    if i < s.len() && s[i] != 10 {
        line_break(s, i + 1)
    } else {
        i
    }
}

pub proof fn lemma_skip_sep_bounds(s: Seq<u8>, i: int, end: int)
    requires
        0 <= i <= end <= s.len(),
    ensures
        i <= skip_sep(s, i, end) <= end,
        forall|k: int| i <= k < skip_sep(s, i, end) ==> is_field_sep(s[k]),
        skip_sep(s, i, end) < end ==> !is_field_sep(s[skip_sep(s, i, end)]),
    decreases end - i,
{
    if i < end && is_field_sep(s[i]) {
        lemma_skip_sep_bounds(s, i + 1, end);
    }
}

pub proof fn lemma_skip_field_bounds(s: Seq<u8>, i: int, end: int)
    requires
        0 <= i <= end <= s.len(),
    ensures
        i <= skip_field(s, i, end) <= end,
        forall|k: int| i <= k < skip_field(s, i, end) ==> !is_field_sep(s[k]),
        skip_field(s, i, end) < end ==> is_field_sep(s[skip_field(s, i, end)]),
    decreases end - i,
{
    if i < end && !is_field_sep(s[i]) {
        lemma_skip_field_bounds(s, i + 1, end);
    }
}

pub proof fn lemma_line_break_bounds(s: Seq<u8>, i: int)
    requires
        0 <= i <= s.len(),
    ensures
        i <= line_break(s, i) <= s.len(),
        forall|k: int| i <= k < line_break(s, i) ==> s[k] != 10,
        line_break(s, i) < s.len() ==> s[line_break(s, i)] == 10,
    decreases s.len() - i,
{
    if i < s.len() && s[i] != 10 {
        lemma_line_break_bounds(s, i + 1);
    }
}

#[via_fn]
proof fn lists_proc_from_decreases(s: Seq<u8>, i: int) {
    if 0 <= i <= s.len() {
        lemma_line_break_bounds(s, i);
    }
}

/// Some line of `s` starting at or after position `i` names `/proc` as its
/// mount point. Lines are the maximal newline-free stretches of `s`; the
/// last line needs no trailing newline.
pub open spec fn lists_proc_from(s: Seq<u8>, i: int) -> bool
    decreases s.len() - i,
    via lists_proc_from_decreases
{
    if 0 <= i <= s.len() {
        let e = line_break(s, i);
        if line_lists_proc(s, i, e) {
            true
        } else if e < s.len() {
            lists_proc_from(s, e + 1)
        } else {
            false
        }
    } else {
        false
    }
}

/// The mount-table text `s` holds an entry whose mount point is `/proc`.
pub open spec fn lists_proc(s: Seq<u8>) -> bool {
    lists_proc_from(s, 0)
}

/// Past the last byte there is no line left that could name `/proc`.
pub proof fn lemma_no_proc_at_end(s: Seq<u8>)
    ensures
        !lists_proc_from(s, s.len() as int),
{
    let n = s.len() as int;
    assert(line_break(s, n) == n);
    assert(skip_sep(s, n, n) == n);
    assert(skip_field(s, n, n) == n);
    assert(second_field_start(s, n, n) == n);
    assert(s.subrange(n, n).len() == 0);
    assert(proc_path().len() == 5);
    assert(!line_lists_proc(s, n, n));
}

pub proof fn lemma_skip_sep_at(s: Seq<u8>, i: int, j: int, end: int)
    requires
        0 <= i <= j <= end <= s.len(),
        forall|k: int| i <= k < j ==> is_field_sep(s[k]),
        j == end || !is_field_sep(s[j]),
    ensures
        skip_sep(s, i, end) == j,
    decreases j - i,
{
    if i < j {
        lemma_skip_sep_at(s, i + 1, j, end);
    }
}

pub proof fn lemma_skip_field_at(s: Seq<u8>, i: int, j: int, end: int)
    requires
        0 <= i <= j <= end <= s.len(),
        forall|k: int| i <= k < j ==> !is_field_sep(s[k]),
        j == end || is_field_sep(s[j]),
    ensures
        skip_field(s, i, end) == j,
    decreases j - i,
{
    if i < j {
        lemma_skip_field_at(s, i + 1, j, end);
    }
}

pub proof fn lemma_line_break_at(s: Seq<u8>, i: int, j: int)
    requires
        0 <= i <= j <= s.len(),
        forall|k: int| i <= k < j ==> s[k] != 10,
        j == s.len() || s[j] == 10,
    ensures
        line_break(s, i) == j,
    decreases j - i,
{
    if i < j {
        lemma_line_break_at(s, i + 1, j);
    }
}

/// A well-formed entry whose second field is `/proc` is always detected,
/// whatever its source field and whatever follows the mount point: the line
/// `<source> /proc <anything>` names `/proc` as its mount point, and a table
/// holding that line alone is recognized.
pub proof fn lemma_proc_line_detected(source: Seq<u8>, tail: Seq<u8>)
    requires
        source.len() > 0,
        forall|k: int| 0 <= k < source.len() ==> !is_field_sep(#[trigger] source[k]) && source[k]
            != 10,
        forall|k: int| 0 <= k < tail.len() ==> #[trigger] tail[k] != 10,
    ensures
        ({
            let line = source + seq![32u8] + proc_path() + seq![32u8] + tail;
            &&& line_lists_proc(line, 0, line.len() as int)
            &&& lists_proc(line)
        }),
{
    let line = source + seq![32u8] + proc_path() + seq![32u8] + tail;
    let sl = source.len() as int;
    let n = line.len() as int;
    assert(n == sl + 7 + tail.len());
    assert(proc_path()[0] == 47 && proc_path()[1] == 112 && proc_path()[2] == 114 && proc_path()[3]
        == 111 && proc_path()[4] == 99);
    assert forall|k: int| 0 <= k < sl implies line[k] == source[k] && !is_field_sep(line[k]) && (
    line[k] != 10) by {}
    assert(line[sl] == 32);
    assert forall|k: int| 0 <= k < 5 implies line[sl + 1 + k] == proc_path()[k] by {}
    assert(line[sl + 6] == 32);
    assert forall|k: int| sl + 1 <= k < sl + 6 implies !is_field_sep(line[k]) && line[k] != 10 by {
        assert(line[k] == proc_path()[k - sl - 1]);
    }
    assert forall|k: int| sl + 7 <= k < n implies line[k] == tail[k - sl - 7] && (line[k] != 10) by {}
    lemma_skip_sep_at(line, 0, 0, n);
    lemma_skip_field_at(line, 0, sl, n);
    lemma_skip_sep_at(line, sl, sl + 1, n);
    lemma_skip_field_at(line, sl + 1, sl + 6, n);
    assert(second_field_start(line, 0, n) == sl + 1);
    assert(line.subrange(sl + 1, sl + 6) =~= proc_path());
    assert(line_lists_proc(line, 0, n));
    lemma_line_break_at(line, 0, n);
    assert(lists_proc_from(line, 0));
}

/// Whether a line names `/proc` depends only on the line's own bytes: a
/// stretch that matches on its own matches wherever in a table it stands.
pub proof fn lemma_line_check_embeds(s: Seq<u8>, start: int, end: int)
    requires
        0 <= start <= end <= s.len(),
        line_lists_proc(s.subrange(start, end), 0, end - start),
    ensures
        line_lists_proc(s, start, end),
{
    let sub = s.subrange(start, end);
    let m = end - start;
    lemma_skip_sep_bounds(sub, 0, m);
    let j1 = skip_sep(sub, 0, m);
    lemma_skip_field_bounds(sub, j1, m);
    let j2 = skip_field(sub, j1, m);
    lemma_skip_sep_bounds(sub, j2, m);
    let fs = skip_sep(sub, j2, m);
    lemma_skip_field_bounds(sub, fs, m);
    let fe = skip_field(sub, fs, m);
    assert forall|k: int| start <= k < end implies s[k] == sub[k - start] by {}
    assert forall|k: int| start <= k < start + j1 implies is_field_sep(s[k]) by {
        assert(s[k] == sub[k - start]);
    }
    assert(start + j1 == end || !is_field_sep(s[start + j1]));
    lemma_skip_sep_at(s, start, start + j1, end);
    assert forall|k: int| start + j1 <= k < start + j2 implies !is_field_sep(s[k]) by {
        assert(s[k] == sub[k - start]);
    }
    assert(start + j2 == end || is_field_sep(s[start + j2]));
    lemma_skip_field_at(s, start + j1, start + j2, end);
    assert forall|k: int| start + j2 <= k < start + fs implies is_field_sep(s[k]) by {
        assert(s[k] == sub[k - start]);
    }
    assert(start + fs == end || !is_field_sep(s[start + fs]));
    lemma_skip_sep_at(s, start + j2, start + fs, end);
    assert forall|k: int| start + fs <= k < start + fe implies !is_field_sep(s[k]) by {
        assert(s[k] == sub[k - start]);
    }
    assert(start + fe == end || is_field_sep(s[start + fe]));
    lemma_skip_field_at(s, start + fs, start + fe, end);
    assert(second_field_start(s, start, end) == start + fs);
    assert(s.subrange(start + fs, start + fe) =~= sub.subrange(fs, fe));
}

/// A `/proc` line anywhere in a table is found: when the stretch from a
/// line start `i` to the next line break names `/proc` as its mount point,
/// the whole table is recognized as listing `/proc`.
pub proof fn lemma_table_line_detected(s: Seq<u8>, i: int)
    requires
        0 <= i <= s.len(),
        i == 0 || s[i - 1] == 10,
        line_lists_proc(s, i, line_break(s, i)),
    ensures
        lists_proc(s),
{
    lemma_detected_from(s, 0, i);
}

proof fn lemma_detected_from(s: Seq<u8>, j: int, i: int)
    requires
        0 <= j <= i <= s.len(),
        j == 0 || s[j - 1] == 10,
        i == 0 || s[i - 1] == 10,
        line_lists_proc(s, i, line_break(s, i)),
    ensures
        lists_proc_from(s, j),
    decreases i - j,
{
    lemma_line_break_bounds(s, j);
    let e = line_break(s, j);
    if j == i {
    } else {
        assert(s[i - 1] == 10);
        assert(e <= i - 1) by {
            if e > i - 1 {
                assert(s[i - 1] != 10);
            }
        }
        lemma_detected_from(s, e + 1, i);
    }
}

/// A line whose second field is some mount point other than `/proc` is never
/// falsely matched, whatever its source field and whatever follows the mount
/// point.
pub proof fn lemma_other_line_not_matched(source: Seq<u8>, point: Seq<u8>, tail: Seq<u8>)
    requires
        source.len() > 0,
        forall|k: int| 0 <= k < source.len() ==> !is_field_sep(#[trigger] source[k]),
        point.len() > 0,
        forall|k: int| 0 <= k < point.len() ==> !is_field_sep(#[trigger] point[k]),
        point != proc_path(),
    ensures
        ({
            let line = source + seq![32u8] + point + seq![32u8] + tail;
            !line_lists_proc(line, 0, line.len() as int)
        }),
{
    let line = source + seq![32u8] + point + seq![32u8] + tail;
    let sl = source.len() as int;
    let pl = point.len() as int;
    let n = line.len() as int;
    assert(n == sl + 2 + pl + tail.len());
    assert forall|k: int| 0 <= k < sl implies line[k] == source[k] && !is_field_sep(line[k]) by {}
    assert(line[sl] == 32);
    assert forall|k: int| 0 <= k < pl implies line[sl + 1 + k] == point[k] by {}
    assert forall|k: int| sl + 1 <= k < sl + 1 + pl implies !is_field_sep(line[k]) by {
        assert(line[k] == point[k - sl - 1]);
    }
    assert(line[sl + 1 + pl] == 32);
    lemma_skip_sep_at(line, 0, 0, n);
    lemma_skip_field_at(line, 0, sl, n);
    lemma_skip_sep_at(line, sl, sl + 1, n);
    lemma_skip_field_at(line, sl + 1, sl + 1 + pl, n);
    assert(second_field_start(line, 0, n) == sl + 1);
    assert(line.subrange(sl + 1, sl + 1 + pl) =~= point);
}

fn is_sep_byte(b: u8) -> (r: bool)
    ensures
        r == is_field_sep(b),
{
    b == 32 || b == 9 || b == 13
}

fn advance_past_seps(content: &Vec<u8>, start: usize, end: usize) -> (r: usize)
    requires
        start <= end <= content@.len(),
    ensures
        start <= r <= end,
        r as int == skip_sep(content@, start as int, end as int),
{
    let mut i = start;
    while i < end && is_sep_byte(content[i])
        invariant
            start <= i <= end <= content@.len(),
            skip_sep(content@, start as int, end as int) == skip_sep(content@, i as int, end as int),
        decreases end - i,
    {
        i = i + 1;
    }
    i
}

fn advance_past_field(content: &Vec<u8>, start: usize, end: usize) -> (r: usize)
    requires
        start <= end <= content@.len(),
    ensures
        start <= r <= end,
        r as int == skip_field(content@, start as int, end as int),
{
    let mut i = start;
    while i < end && !is_sep_byte(content[i])
        invariant
            start <= i <= end <= content@.len(),
            skip_field(content@, start as int, end as int) == skip_field(content@, i as int, end as int),
        decreases end - i,
    {
        i = i + 1;
    }
    i
}

fn find_line_break(content: &Vec<u8>, start: usize) -> (r: usize)
    requires
        start <= content@.len(),
    ensures
        start <= r <= content@.len(),
        r as int == line_break(content@, start as int),
{
    let n = content.len();
    let mut i = start;
    while i < n && content[i] != 10
        invariant
            start <= i <= n == content@.len(),
            line_break(content@, start as int) == line_break(content@, i as int),
        decreases n - i,
    {
        i = i + 1;
    }
    i
}

/// Whether the line `content[start..end]` names `/proc` as its mount point,
/// exactly as `line_lists_proc` states it.
pub fn line_names_proc(content: &Vec<u8>, start: usize, end: usize) -> (r: bool)
    requires
        start <= end <= content@.len(),
    ensures
        r == line_lists_proc(content@, start as int, end as int),
{
    proof {
        lemma_skip_sep_bounds(content@, start as int, end as int);
    }
    let p1 = advance_past_seps(content, start, end);
    proof {
        lemma_skip_field_bounds(content@, p1 as int, end as int);
    }
    let p2 = advance_past_field(content, p1, end);
    proof {
        lemma_skip_sep_bounds(content@, p2 as int, end as int);
    }
    let fs = advance_past_seps(content, p2, end);
    proof {
        lemma_skip_field_bounds(content@, fs as int, end as int);
    }
    let fe = advance_past_field(content, fs, end);
    let ghost sub = content@.subrange(fs as int, fe as int);
    if fe - fs == 5
        && content[fs] == 47
        && content[fs + 1] == 112
        && content[fs + 2] == 114
        && content[fs + 3] == 111
        && content[fs + 4] == 99
    {
        proof {
            assert(sub =~= proc_path()) by {
                assert(sub.len() == 5);
                assert(sub[0] == 47 && sub[1] == 112 && sub[2] == 114 && sub[3] == 111
                    && sub[4] == 99);
            }
        }
        true
    } else {
        proof {
            assert(sub != proc_path()) by {
                assert(proc_path().len() == 5);
                assert(proc_path()[0] == 47 && proc_path()[1] == 112 && proc_path()[2] == 114
                    && proc_path()[3] == 111 && proc_path()[4] == 99);
                if sub.len() == 5 {
                    assert(sub[0] == content@[fs as int]);
                    assert(sub[1] == content@[fs as int + 1]);
                    assert(sub[2] == content@[fs as int + 2]);
                    assert(sub[3] == content@[fs as int + 3]);
                    assert(sub[4] == content@[fs as int + 4]);
                }
            }
        }
        false
    }
}

/// Whether the mount-table text `content` holds an entry whose mount point
/// is `/proc`: some line's second blank-separated field is exactly `/proc`.
pub fn mount_table_has_proc(content: &Vec<u8>) -> (r: bool)
    ensures
        r == lists_proc(content@),
{
    let n = content.len();
    let mut i: usize = 0;
    let mut found = false;
    while !found && i < n
        invariant
            i <= n == content@.len(),
            found ==> lists_proc(content@),
            !found ==> lists_proc(content@) == lists_proc_from(content@, i as int),
        decreases n - i + (if found { 0int } else { 1int }),
    {
        let e = find_line_break(content, i);
        if line_names_proc(content, i, e) {
            found = true;
        } else {
            if e < n {
                i = e + 1;
            } else {
                proof {
                    lemma_no_proc_at_end(content@);
                }
                i = n;
            }
        }
    }
    if !found {
        proof {
            lemma_no_proc_at_end(content@);
        }
    }
    found
}

} // verus!
