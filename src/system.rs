//! Parsing of the text that system probes report: `/proc/meminfo`,
//! `/proc/cpuinfo` and `df` listings.
use vstd::prelude::*;
use vstd::string::{StrSliceExecFns, StringExecFns};
use crate::error::SigilError;

verus! {

/// A white-space character, as Unicode's White_Space property lists them.
pub open spec fn is_space(c: char) -> bool {
    ('\u{9}' <= c && c <= '\u{d}') || c == ' ' || c == '\u{85}' || c == '\u{a0}' || c
        == '\u{1680}' || ('\u{2000}' <= c && c <= '\u{200a}') || c == '\u{2028}' || c
        == '\u{2029}' || c == '\u{202f}' || c == '\u{205f}' || c == '\u{3000}'
}

/// Whether `c` is a white-space character.
pub fn is_space_char(c: char) -> (r: bool)
    ensures
        r == is_space(c),
{
    ('\u{9}' <= c && c <= '\u{d}') || c == ' ' || c == '\u{85}' || c == '\u{a0}' || c
        == '\u{1680}' || ('\u{2000}' <= c && c <= '\u{200a}') || c == '\u{2028}' || c
        == '\u{2029}' || c == '\u{202f}' || c == '\u{205f}' || c == '\u{3000}'
}

/// The white-space separated fields of `s` from position `i` on, where
/// `cur` is the part of a field already read.
pub open spec fn fields_from(s: Seq<char>, i: int, cur: Seq<char>) -> Seq<Seq<char>>
    decreases s.len() - i,
{
    if i < 0 || i >= s.len() {
        if cur.len() > 0 {
            seq![cur]
        } else {
            Seq::empty()
        }
    } else if is_space(s[i]) {
        if cur.len() > 0 {
            seq![cur] + fields_from(s, i + 1, Seq::empty())
        } else {
            fields_from(s, i + 1, Seq::empty())
        }
    } else {
        fields_from(s, i + 1, cur.push(s[i]))
    }
}

/// The white-space separated fields of `s`.
pub open spec fn fields(s: Seq<char>) -> Seq<Seq<char>> {
    fields_from(s, 0, Seq::empty())
}

/// The lines of `s` from position `i` on, where `cur` is the part of a line
/// already read: lines end at `\n`, a `\r` just before it is dropped, and a
/// last line without `\n` counts only when it is not empty.
pub open spec fn lines_from(s: Seq<char>, i: int, cur: Seq<char>) -> Seq<Seq<char>>
    decreases s.len() - i,
{
    if i < 0 || i >= s.len() {
        if cur.len() > 0 {
            seq![cur]
        } else {
            Seq::empty()
        }
    } else if s[i] == '\n' {
        seq![
            if cur.len() > 0 && cur.last() == '\r' {
                cur.drop_last()
            } else {
                cur
            },
        ] + lines_from(s, i + 1, Seq::empty())
    } else {
        lines_from(s, i + 1, cur.push(s[i]))
    }
}

/// The lines of `s`.
pub open spec fn lines(s: Seq<char>) -> Seq<Seq<char>> {
    lines_from(s, 0, Seq::empty())
}

/// The character views of a vector of strings.
pub open spec fn views(v: Seq<String>) -> Seq<Seq<char>> {
    v.map_values(|t: String| t@)
}

/// Splits `s` into its white-space separated fields.
pub fn split_fields(s: &str) -> (r: Vec<String>)
    ensures
        views(r@) == fields(s@),
{
    let n = s.unicode_len();
    let mut out: Vec<String> = Vec::new();
    let mut cur = String::new();
    let mut i: usize = 0;
    while i < n
        invariant
            n == s@.len(),
            i <= n,
            views(out@) + fields_from(s@, i as int, cur@) == fields(s@),
        decreases n - i,
    {
        let c = s.get_char(i);
        let ghost before = views(out@);
        if is_space_char(c) {
            if cur.as_str().unicode_len() > 0 {
                let ghost w = cur@;
                out.push(cur);
                cur = String::new();
                assert(views(out@) =~= before.push(w));
                assert(before + fields_from(s@, i as int, w) =~= views(out@) + fields_from(
                    s@,
                    i + 1,
                    cur@,
                ));
            } else {
                assert(cur@ =~= Seq::<char>::empty());
                cur = String::new();
            }
        } else {
            let piece = s.substring_char(i, i + 1);
            assert(cur@ + piece@ =~= cur@.push(c));
            cur.append(piece);
        }
        i = i + 1;
    }
    if cur.as_str().unicode_len() > 0 {
        let ghost before = views(out@);
        let ghost w = cur@;
        out.push(cur);
        assert(views(out@) =~= before + seq![w]);
    } else {
        assert(views(out@) + Seq::<Seq<char>>::empty() =~= views(out@));
    }
    out
}

/// Splits `s` into lines.
pub fn split_lines(s: &str) -> (r: Vec<String>)
    ensures
        views(r@) == lines(s@),
{
    let n = s.unicode_len();
    let mut out: Vec<String> = Vec::new();
    let mut cur = String::new();
    let mut i: usize = 0;
    while i < n
        invariant
            n == s@.len(),
            i <= n,
            views(out@) + lines_from(s@, i as int, cur@) == lines(s@),
        decreases n - i,
    {
        let c = s.get_char(i);
        let ghost before = views(out@);
        if c == '\n' {
            let ghost w = cur@;
            let m = cur.as_str().unicode_len();
            let line = if m > 0 && cur.as_str().get_char(m - 1) == '\r' {
                String::from_str(cur.as_str().substring_char(0, m - 1))
            } else {
                cur
            };
            let ghost lw = line@;
            proof {
                if w.len() > 0 && w.last() == '\r' {
                    assert(lw =~= w.drop_last());
                }
            }
            out.push(line);
            cur = String::new();
            assert(views(out@) =~= before.push(lw));
            assert(before + lines_from(s@, i as int, w) =~= views(out@) + lines_from(
                s@,
                i + 1,
                cur@,
            ));
        } else {
            let piece = s.substring_char(i, i + 1);
            assert(cur@ + piece@ =~= cur@.push(c));
            cur.append(piece);
        }
        i = i + 1;
    }
    if cur.as_str().unicode_len() > 0 {
        let ghost before = views(out@);
        let ghost w = cur@;
        out.push(cur);
        assert(views(out@) =~= before + seq![w]);
    } else {
        assert(views(out@) + Seq::<Seq<char>>::empty() =~= views(out@));
    }
    out
}

/// Whether `s` begins with `p`.
pub open spec fn has_prefix(s: Seq<char>, p: Seq<char>) -> bool {
    p.len() <= s.len() && s.subrange(0, p.len() as int) == p
}

/// Whether `s` begins with `p`.
pub fn starts_with(s: &str, p: &str) -> (r: bool)
    ensures
        r == has_prefix(s@, p@),
{
    let n = s.unicode_len();
    let m = p.unicode_len();
    if m > n {
        return false;
    }
    crate::text::same_text(s.substring_char(0, m), p)
}

/// The digits of a number, after an optional leading `+`.
pub open spec fn unsigned_digits(t: Seq<char>) -> Seq<char> {
    if t.len() > 0 && t[0] == '+' {
        t.drop_first()
    } else {
        t
    }
}

/// Every character is an ASCII digit.
pub open spec fn all_digits(d: Seq<char>) -> bool {
    forall|i: int| 0 <= i < d.len() ==> '0' <= #[trigger] d[i] <= '9'
}

/// The value of a string of decimal digits.
pub open spec fn digits_value(d: Seq<char>) -> nat
    decreases d.len(),
{
    if d.len() == 0 {
        0
    } else {
        digits_value(d.drop_last()) * 10 + (d.last() as nat - '0' as nat) as nat
    }
}

/// `t` is a decimal number, optionally with a leading `+`, that fits in a
/// `u64`.
pub open spec fn is_u64_text(t: Seq<char>) -> bool {
    let d = unsigned_digits(t);
    d.len() > 0 && all_digits(d) && digits_value(d) <= u64::MAX
}

/// A longer string of digits is worth at least as much as its prefix.
proof fn lemma_digits_value_prefix(d: Seq<char>, k: int)
    requires
        all_digits(d),
        0 <= k <= d.len(),
    ensures
        digits_value(d.subrange(0, k)) <= digits_value(d),
    decreases d.len(),
{
    if k < d.len() {
        let init = d.drop_last();
        assert(init.subrange(0, k) =~= d.subrange(0, k));
        lemma_digits_value_prefix(init, k);
    } else {
        assert(d.subrange(0, k) =~= d);
    }
}

/// Reads a decimal `u64`, with an optional leading `+`.
pub fn parse_u64(t: &str) -> (r: Option<u64>)
    ensures
        r is Some <==> is_u64_text(t@),
        r matches Some(v) ==> v as nat == digits_value(unsigned_digits(t@)),
{
    let n = t.unicode_len();
    let start: usize = if n > 0 && t.get_char(0) == '+' {
        1
    } else {
        0
    };
    let ghost d = unsigned_digits(t@);
    assert(d =~= t@.subrange(start as int, n as int));
    if start == n {
        assert(d.len() == 0);
        return None;
    }
    let mut acc: u64 = 0;
    let mut i: usize = start;
    while i < n
        invariant
            n == t@.len(),
            start <= i <= n,
            d == t@.subrange(start as int, n as int),
            d == unsigned_digits(t@),
            all_digits(d.subrange(0, i - start)),
            acc as nat == digits_value(d.subrange(0, i - start)),
        decreases n - i,
    {
        let c = t.get_char(i);
        let ghost pre = d.subrange(0, i - start);
        let ghost next = d.subrange(0, i + 1 - start);
        assert(next.drop_last() =~= pre);
        assert(next.last() == c);
        if c < '0' || c > '9' {
            assert(d[i - start] == c);
            proof {
                if all_digits(d) {
                    assert('0' <= d[i - start] <= '9');
                }
            }
            assert(!is_u64_text(t@));
            return None;
        }
        let digit = (c as u32 - '0' as u32) as u64;
        if acc > (u64::MAX - digit) / 10 {
            proof {
                assert(digit == next.last() as nat - '0' as nat);
                assert(digits_value(next) == acc * 10 + digit);
                assert(acc * 10 + digit > u64::MAX) by (nonlinear_arith)
                    requires
                        acc > (u64::MAX - digit) / 10,
                        digit <= 9,
                ;
                if all_digits(d) {
                    lemma_digits_value_prefix(d, i + 1 - start);
                    assert(digits_value(d) > u64::MAX);
                }
            }
            assert(!is_u64_text(t@));
            return None;
        }
        acc = acc * 10 + digit;
        i = i + 1;
    }
    assert(d.subrange(0, n - start) =~= d);
    Some(acc)
}

/// The figure on a `/proc/meminfo` line: its second field, in kB.
pub open spec fn meminfo_figure(line: Seq<char>) -> Option<u64> {
    let fs = fields(line);
    if fs.len() >= 2 && is_u64_text(fs[1]) {
        Some(digits_value(unsigned_digits(fs[1])) as u64)
    } else {
        None
    }
}

/// Reads the figure of a `/proc/meminfo` line such as
/// `MemTotal:  16318844 kB`.
pub fn parse_memory_line(line: &str) -> (r: Result<u64, SigilError>)
    ensures
        match meminfo_figure(line@) {
            Some(v) => r == Ok::<u64, SigilError>(v),
            None => r matches Err(SigilError::SystemCommand { command, .. }) && command@
                == "parse_memory"@,
        },
{
    let fs = split_fields(line);
    assert(views(fs@).len() == fs@.len());
    if fs.len() >= 2 {
        assert(views(fs@)[1] == fs@[1]@);
        match parse_u64(fs[1].as_str()) {
            Some(v) => Ok(v),
            None => Err(
                SigilError::SystemCommand {
                    command: String::from_str("parse_memory"),
                    error: crate::text::join2("Invalid number: ", fs[1].as_str()),
                },
            ),
        }
    } else {
        Err(
            SigilError::SystemCommand {
                command: String::from_str("parse_memory"),
                error: String::from_str("Invalid format"),
            },
        )
    }
}

/// The total and available memory, in kB, that `/proc/meminfo` lines give,
/// starting from `total` and `available`: a `MemTotal:` line sets the first,
/// a `MemAvailable:` line the second, a later line overriding an earlier
/// one; `None` when such a line has no figure.
pub open spec fn meminfo_scan(ls: Seq<Seq<char>>, total: u64, available: u64) -> Option<
    (u64, u64),
>
    decreases ls.len(),
{
    if ls.len() == 0 {
        Some((total, available))
    } else if has_prefix(ls[0], "MemTotal:"@) {
        match meminfo_figure(ls[0]) {
            Some(v) => meminfo_scan(ls.drop_first(), v, available),
            None => None,
        }
    } else if has_prefix(ls[0], "MemAvailable:"@) {
        match meminfo_figure(ls[0]) {
            Some(v) => meminfo_scan(ls.drop_first(), total, v),
            None => None,
        }
    } else {
        meminfo_scan(ls.drop_first(), total, available)
    }
}

/// Reads total and available memory, in kB, from `/proc/meminfo` text;
/// both are 0 when their line is absent.
pub fn memory_totals(meminfo: &str) -> (r: Result<(u64, u64), SigilError>)
    ensures
        match meminfo_scan(lines(meminfo@), 0, 0) {
            Some(p) => r == Ok::<(u64, u64), SigilError>(p),
            None => r matches Err(SigilError::SystemCommand { .. }),
        },
{
    let ls = split_lines(meminfo);
    let ghost lv = views(ls@);
    let mut total: u64 = 0;
    let mut available: u64 = 0;
    let mut i: usize = 0;
    assert(lv.subrange(0, lv.len() as int) =~= lv);
    while i < ls.len()
        invariant
            lv == views(ls@),
            lv == lines(meminfo@),
            i <= ls@.len(),
            meminfo_scan(lv, 0, 0) == meminfo_scan(lv.subrange(i as int, lv.len() as int), total, available),
        decreases ls@.len() - i,
    {
        let ghost rest = lv.subrange(i as int, lv.len() as int);
        assert(rest.drop_first() =~= lv.subrange(i + 1, lv.len() as int));
        assert(rest[0] == ls@[i as int]@);
        let line = ls[i].as_str();
        if starts_with(line, "MemTotal:") {
            total = parse_memory_line(line)?;
        } else if starts_with(line, "MemAvailable:") {
            available = parse_memory_line(line)?;
        }
        i = i + 1;
    }
    Ok((total, available))
}

/// How many of the lines begin with `processor`.
pub open spec fn processor_count(ls: Seq<Seq<char>>) -> nat
    decreases ls.len(),
{
    if ls.len() == 0 {
        0
    } else {
        processor_count(ls.drop_last()) + if has_prefix(ls.last(), "processor"@) {
            1nat
        } else {
            0nat
        }
    }
}

/// The number of processors that `/proc/cpuinfo` text lists.
pub fn count_processors(cpuinfo: &str) -> (r: usize)
    ensures
        r == processor_count(lines(cpuinfo@)),
{
    let ls = split_lines(cpuinfo);
    let ghost lv = views(ls@);
    let mut count: usize = 0;
    let mut i: usize = 0;
    while i < ls.len()
        invariant
            lv == views(ls@),
            i <= ls@.len(),
            count == processor_count(lv.subrange(0, i as int)),
            count <= i,
        decreases ls@.len() - i,
    {
        assert(lv.subrange(0, i + 1).drop_last() =~= lv.subrange(0, i as int));
        if starts_with(ls[i].as_str(), "processor") {
            count = count + 1;
        }
        i = i + 1;
    }
    assert(lv.subrange(0, lv.len() as int) =~= lv);
    count
}

/// One mounted file system, as `df` lists it.
#[derive(Debug, Clone, PartialEq, Eq)]
pub struct DiskInfo {
    pub filesystem: String,
    pub size: String,
    pub used: String,
    pub available: String,
    pub usage_percent: String,
    pub mount_point: String,
}

/// The fields of the rows of a listing that have at least six fields.
pub open spec fn disk_rows(ls: Seq<Seq<char>>) -> Seq<Seq<Seq<char>>>
    decreases ls.len(),
{
    if ls.len() == 0 {
        Seq::empty()
    } else if fields(ls.last()).len() >= 6 {
        disk_rows(ls.drop_last()).push(fields(ls.last()))
    } else {
        disk_rows(ls.drop_last())
    }
}

/// A row's six leading fields match a disk record.
pub open spec fn disk_matches(d: DiskInfo, row: Seq<Seq<char>>) -> bool {
    &&& d.filesystem@ == row[0]
    &&& d.size@ == row[1]
    &&& d.used@ == row[2]
    &&& d.available@ == row[3]
    &&& d.usage_percent@ == row[4]
    &&& d.mount_point@ == row[5]
}

/// Reads a `df --output=source,size,used,avail,pcent,target` listing: the
/// header line is skipped, as is every line with fewer than six fields.
pub fn parse_disk_usage(df: &str) -> (r: Vec<DiskInfo>)
    ensures
        lines(df@).len() == 0 ==> r@.len() == 0,
        lines(df@).len() > 0 ==> {
            let rows = disk_rows(lines(df@).drop_first());
            &&& r@.len() == rows.len()
            &&& forall|k: int| 0 <= k < rows.len() ==> disk_matches(#[trigger] r@[k], rows[k])
        },
{
    let ls = split_lines(df);
    let ghost lv = views(ls@);
    let mut out: Vec<DiskInfo> = Vec::new();
    if ls.len() == 0 {
        return out;
    }
    let ghost body = lv.drop_first();
    let mut i: usize = 1;
    assert(body.subrange(0, 0) =~= Seq::<Seq<char>>::empty());
    while i < ls.len()
        invariant
            lv == views(ls@),
            body == lv.drop_first(),
            1 <= i <= ls@.len(),
            out@.len() == disk_rows(body.subrange(0, i - 1)).len(),
            forall|k: int|
                0 <= k < out@.len() ==> disk_matches(
                    #[trigger] out@[k],
                    disk_rows(body.subrange(0, i - 1))[k],
                ),
        decreases ls@.len() - i,
    {
        let ghost pre = body.subrange(0, i - 1);
        let ghost next = body.subrange(0, i as int);
        assert(next.drop_last() =~= pre);
        assert(next.last() == ls@[i as int]@);
        let parts = split_fields(ls[i].as_str());
        assert(views(parts@).len() == parts@.len());
        if parts.len() >= 6 {
            proof {
                assert forall|j: int| 0 <= j < 6 implies views(parts@)[j] == parts@[j]@ by {}
            }
            let d = DiskInfo {
                filesystem: parts[0].clone(),
                size: parts[1].clone(),
                used: parts[2].clone(),
                available: parts[3].clone(),
                usage_percent: parts[4].clone(),
                mount_point: parts[5].clone(),
            };
            out.push(d);
        }
        i = i + 1;
    }
    assert(body.subrange(0, ls@.len() - 1) =~= body);
    out
}

/// `s` without white space at either end.
pub open spec fn trimmed(s: Seq<char>) -> Seq<char>
    decreases s.len(),
{
    if s.len() > 0 && is_space(s[0]) {
        trimmed(s.drop_first())
    } else if s.len() > 0 && is_space(s.last()) {
        trimmed(s.drop_last())
    } else {
        s
    }
}

/// Whether a probe's output, trimmed, is exactly `state` (as `active` from
/// `systemctl is-active`).
pub fn reports_state(output: &str, state: &str) -> (r: bool)
    ensures
        r == (trimmed(output@) == state@),
{
    let n = output.unicode_len();
    let mut lo: usize = 0;
    let mut hi: usize = n;
    assert(output@.subrange(0, n as int) =~= output@);
    while lo < hi
        invariant
            n == output@.len(),
            lo <= hi <= n,
            trimmed(output@) == trimmed(output@.subrange(lo as int, hi as int)),
        ensures
            lo <= hi <= n,
            trimmed(output@) == trimmed(output@.subrange(lo as int, hi as int)),
            lo < hi ==> !is_space(output@[lo as int]) && !is_space(output@[hi - 1]),
        decreases hi - lo,
    {
        let ghost cur = output@.subrange(lo as int, hi as int);
        if is_space_char(output.get_char(lo)) {
            assert(cur.drop_first() =~= output@.subrange(lo + 1, hi as int));
            lo = lo + 1;
        } else if is_space_char(output.get_char(hi - 1)) {
            assert(cur.drop_last() =~= output@.subrange(lo as int, hi - 1));
            hi = hi - 1;
        } else {
            break;
        }
    }
    let inner = output.substring_char(lo, hi);
    proof {
        let cur = output@.subrange(lo as int, hi as int);
        assert(inner@ == cur);
        if lo < hi {
            assert(!is_space(cur[0]) && !is_space(cur.last()));
        }
        assert(trimmed(cur) == cur);
    }
    crate::text::same_text(inner, state)
}

} // verus!
