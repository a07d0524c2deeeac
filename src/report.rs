//! The human-readable status report of a task instance.
use vstd::prelude::*;
use vstd::string::{StrSliceExecFns, StringExecFns};
use crate::ids::{format_utc, id_text, utc_text, uuid_text};
use crate::system::{is_space, trimmed, views};
use crate::task::{TaskInstance, TaskStatus};
use crate::text::join2;

verus! {

/// The character of decimal digit `d`.
pub open spec fn digit_char(d: nat) -> char {
    if d == 0 {
        '0'
    } else if d == 1 {
        '1'
    } else if d == 2 {
        '2'
    } else if d == 3 {
        '3'
    } else if d == 4 {
        '4'
    } else if d == 5 {
        '5'
    } else if d == 6 {
        '6'
    } else if d == 7 {
        '7'
    } else if d == 8 {
        '8'
    } else {
        '9'
    }
}

/// The decimal digits of `n`, without leading zeros.
pub open spec fn digits_text(n: nat) -> Seq<char>
    decreases n,
{
    if n < 10 {
        seq![digit_char(n)]
    } else {
        digits_text(n / 10).push(digit_char(n % 10))
    }
}

/// The decimal text of `v`, with `-` before a negative number.
pub open spec fn int_text(v: int) -> Seq<char> {
    if v < 0 {
        seq!['-'] + digits_text((-v) as nat)
    } else {
        digits_text(v as nat)
    }
}

fn digit_str(d: u64) -> (r: &'static str)
    requires
        d < 10,
    ensures
        r@ == seq![digit_char(d as nat)],
{
    proof {
        reveal_strlit("0");
        reveal_strlit("1");
        reveal_strlit("2");
        reveal_strlit("3");
        reveal_strlit("4");
        reveal_strlit("5");
        reveal_strlit("6");
        reveal_strlit("7");
        reveal_strlit("8");
        reveal_strlit("9");
    }
    if d == 0 {
        "0"
    } else if d == 1 {
        "1"
    } else if d == 2 {
        "2"
    } else if d == 3 {
        "3"
    } else if d == 4 {
        "4"
    } else if d == 5 {
        "5"
    } else if d == 6 {
        "6"
    } else if d == 7 {
        "7"
    } else if d == 8 {
        "8"
    } else {
        "9"
    }
}

/// The decimal text of `n`.
pub fn unsigned_text(n: u64) -> (r: String)
    ensures
        r@ == digits_text(n as nat),
    decreases n,
{
    if n < 10 {
        String::from_str(digit_str(n))
    } else {
        let mut s = unsigned_text(n / 10);
        s.append(digit_str(n % 10));
        s
    }
}

/// The decimal text of `v`.
pub fn signed_text(v: i64) -> (r: String)
    ensures
        r@ == int_text(v as int),
{
    if v < 0 {
        let magnitude = (0 - (v as i128)) as u64;
        let digits = unsigned_text(magnitude);
        proof {
            reveal_strlit("-");
        }
        join2("-", digits.as_str())
    } else {
        unsigned_text(v as u64)
    }
}

/// Whole seconds from `started` to `completed`, both in microseconds,
/// truncated toward zero.
pub open spec fn elapsed_seconds(started: i64, completed: i64) -> int {
    let d = completed - started;
    if d >= 0 {
        d / 1_000_000
    } else {
        -((-d) / 1_000_000)
    }
}

/// Computes `elapsed_seconds`.
pub fn seconds_between(started: i64, completed: i64) -> (r: i64)
    ensures
        r as int == elapsed_seconds(started, completed),
{
    let d: i128 = completed as i128 - started as i128;
    if d >= 0 {
        (d / 1_000_000) as i64
    } else {
        (0 - ((0 - d) / 1_000_000)) as i64
    }
}

/// The name of a status.
pub open spec fn status_name(s: TaskStatus) -> Seq<char> {
    match s {
        TaskStatus::Pending => "Pending"@,
        TaskStatus::Running => "Running"@,
        TaskStatus::Completed => "Completed"@,
        TaskStatus::Failed => "Failed"@,
        TaskStatus::Cancelled => "Cancelled"@,
        TaskStatus::Retrying => "Retrying"@,
    }
}

/// The name of a status.
pub fn status_text(s: TaskStatus) -> (r: String)
    ensures
        r@ == status_name(s),
{
    String::from_str(
        match s {
            TaskStatus::Pending => "Pending",
            TaskStatus::Running => "Running",
            TaskStatus::Completed => "Completed",
            TaskStatus::Failed => "Failed",
            TaskStatus::Cancelled => "Cancelled",
            TaskStatus::Retrying => "Retrying",
        },
    )
}

/// A labelled time: its UTC text, or a note when it has none.
pub open spec fn time_line(label: Seq<char>, micros: i64) -> Seq<char> {
    match utc_text(micros) {
        Some(t) => label + t,
        None => label + "(out of range)"@,
    }
}

fn time_text(label: &str, micros: i64) -> (r: String)
    ensures
        r@ == time_line(label@, micros),
{
    match format_utc(micros) {
        Some(t) => join2(label, t.as_str()),
        None => join2(label, "(out of range)"),
    }
}

/// The parameter lines of a report: `  key: value`, one per entry.
pub open spec fn param_lines(ps: Seq<(Seq<char>, Seq<char>)>) -> Seq<Seq<char>> {
    ps.map_values(|p: (Seq<char>, Seq<char>)| "  "@ + p.0 + ": "@ + p.1)
}

/// Nothing but white space.
pub open spec fn is_blank(s: Seq<char>) -> bool {
    trimmed(s).len() == 0
}

proof fn lemma_blank_iff_all_space(s: Seq<char>)
    ensures
        is_blank(s) <==> forall|i: int| 0 <= i < s.len() ==> is_space(#[trigger] s[i]),
    decreases s.len(),
{
    if s.len() > 0 && is_space(s[0]) {
        lemma_blank_iff_all_space(s.drop_first());
        if forall|i: int| 0 <= i < s.drop_first().len() ==> is_space(#[trigger] s.drop_first()[i]) {
            assert forall|i: int| 0 <= i < s.len() implies is_space(#[trigger] s[i]) by {
                if i > 0 {
                    assert(s[i] == s.drop_first()[i - 1]);
                }
            }
        }
        if forall|i: int| 0 <= i < s.len() ==> is_space(#[trigger] s[i]) {
            assert forall|i: int| 0 <= i < s.drop_first().len() implies is_space(
                #[trigger] s.drop_first()[i],
            ) by {
                assert(s.drop_first()[i] == s[i + 1]);
            }
        }
    } else if s.len() > 0 && is_space(s.last()) {
        lemma_blank_iff_all_space(s.drop_last());
        assert(!is_space(s[0]));
        assert(s.drop_last().len() > 0 ==> s.drop_last()[0] == s[0]);
    } else if s.len() > 0 {
        assert(!is_space(s[0]));
    }
}

/// Whether `s` holds nothing but white space.
pub fn blank(s: &str) -> (r: bool)
    ensures
        r == is_blank(s@),
{
    let n = s.unicode_len();
    let mut i: usize = 0;
    while i < n
        invariant
            n == s@.len(),
            i <= n,
            forall|j: int| 0 <= j < i ==> is_space(#[trigger] s@[j]),
        decreases n - i,
    {
        let c = s.get_char(i);
        if !crate::system::is_space_char(c) {
            proof {
                lemma_blank_iff_all_space(s@);
            }
            assert(!is_space(s@[i as int]));
            return false;
        }
        i = i + 1;
    }
    proof {
        lemma_blank_iff_all_space(s@);
    }
    true
}

/// The report's lines on when the run started.
pub open spec fn started_lines(i: TaskInstance) -> Seq<Seq<char>> {
    match i.started_at {
        Some(t) => seq![time_line("Started: "@, t)],
        None => Seq::empty(),
    }
}

/// The report's lines on when the run completed and how long it took.
pub open spec fn completed_lines(i: TaskInstance) -> Seq<Seq<char>> {
    match i.completed_at {
        Some(c) => seq![time_line("Completed: "@, c)] + match i.started_at {
            Some(t) => seq!["Duration: "@ + int_text(elapsed_seconds(t, c)) + "s"@],
            None => Seq::empty(),
        },
        None => Seq::empty(),
    }
}

/// The report's line on retries, when there were any.
pub open spec fn retry_lines(i: TaskInstance) -> Seq<Seq<char>> {
    if i.retry_count > 0 {
        seq!["Retries: "@ + int_text(i.retry_count as int)]
    } else {
        Seq::empty()
    }
}

/// The report's parameter listing, when there are parameters.
pub open spec fn parameter_lines(i: TaskInstance) -> Seq<Seq<char>> {
    if i.parameters.pairs().len() > 0 {
        seq!["Parameters:"@] + param_lines(i.parameters.pairs())
    } else {
        Seq::empty()
    }
}

/// The report's output, unless it is blank.
pub open spec fn output_lines(i: TaskInstance) -> Seq<Seq<char>> {
    match i.output {
        Some(o) => if is_blank(o@) {
            Seq::empty()
        } else {
            seq!["Output:\n"@ + o@]
        },
        None => Seq::empty(),
    }
}

/// The report's error, when there is one.
pub open spec fn error_lines(i: TaskInstance) -> Seq<Seq<char>> {
    match i.error {
        Some(e) => seq!["Error:\n"@ + e@],
        None => Seq::empty(),
    }
}

/// The lines of the status report of instance `i`: identity, name, status
/// and times, the elapsed seconds when the run has both started and
/// completed, retries when there were any, the parameters when there are
/// any, the output unless it is blank, and the error.
pub open spec fn report_lines(i: TaskInstance) -> Seq<Seq<char>> {
    seq![
        "ID: "@ + uuid_text(i.id),
        "Name: "@ + i.definition_name@,
        "Status: "@ + status_name(i.status),
        time_line("Created: "@, i.created_at),
    ] + started_lines(i) + completed_lines(i) + retry_lines(i) + parameter_lines(i)
        + output_lines(i) + error_lines(i)
}

/// The status report of an instance, line by line.
pub fn status_report(i: &TaskInstance) -> (r: Vec<String>)
    ensures
        views(r@) == report_lines(*i),
{
    let mut out: Vec<String> = Vec::new();
    let id = id_text(i.id);
    out.push(join2("ID: ", id.as_str()));
    out.push(join2("Name: ", i.definition_name.as_str()));
    let status = status_text(i.status);
    out.push(join2("Status: ", status.as_str()));
    out.push(time_text("Created: ", i.created_at));
    let ghost head = views(out@);
    assert(head =~= seq![
        "ID: "@ + uuid_text(i.id),
        "Name: "@ + i.definition_name@,
        "Status: "@ + status_name(i.status),
        time_line("Created: "@, i.created_at),
    ]);
    let ghost started = started_lines(*i);
    if let Some(t) = i.started_at {
        out.push(time_text("Started: ", t));
    }
    assert(views(out@) =~= head + started);
    let ghost p1 = views(out@);
    let ghost completed = completed_lines(*i);
    if let Some(c) = i.completed_at {
        out.push(time_text("Completed: ", c));
        if let Some(t) = i.started_at {
            let secs = signed_text(seconds_between(t, c));
            let mut line = join2("Duration: ", secs.as_str());
            line.append("s");
            out.push(line);
        }
    }
    assert(views(out@) =~= p1 + completed);
    let ghost p2 = views(out@);
    let ghost retries = retry_lines(*i);
    if i.retry_count > 0 {
        let n = unsigned_text(i.retry_count as u64);
        out.push(join2("Retries: ", n.as_str()));
    }
    assert(views(out@) =~= p2 + retries);
    let ghost p3 = views(out@);
    let ghost params = parameter_lines(*i);
    if i.parameters.entries.len() > 0 {
        out.push(String::from_str("Parameters:"));
        let ghost p4 = views(out@);
        let mut k: usize = 0;
        while k < i.parameters.entries.len()
            invariant
                k <= i.parameters.pairs().len(),
                views(out@) == p4 + param_lines(i.parameters.pairs().subrange(0, k as int)),
            decreases i.parameters.pairs().len() - k,
        {
            let mut line = join2("  ", i.parameters.entries[k].0.as_str());
            line.append(": ");
            line.append(i.parameters.entries[k].1.as_str());
            let ghost before = views(out@);
            out.push(line);
            assert(views(out@) =~= before.push(line@));
            assert(param_lines(i.parameters.pairs().subrange(0, k + 1)) =~= param_lines(
                i.parameters.pairs().subrange(0, k as int),
            ).push(line@));
            k = k + 1;
        }
        assert(i.parameters.pairs().subrange(0, i.parameters.pairs().len() as int)
            =~= i.parameters.pairs());
        assert(p4 =~= p3 + seq!["Parameters:"@]);
    }
    assert(views(out@) =~= p3 + params);
    let ghost p5 = views(out@);
    let ghost output = output_lines(*i);
    if let Some(o) = &i.output {
        if !blank(o.as_str()) {
            out.push(join2("Output:\n", o.as_str()));
        }
    }
    assert(views(out@) =~= p5 + output);
    let ghost p6 = views(out@);
    let ghost error = error_lines(*i);
    if let Some(e) = &i.error {
        out.push(join2("Error:\n", e.as_str()));
    }
    assert(views(out@) =~= p6 + error);
    out
}

} // verus!
