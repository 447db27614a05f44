//! Outcomes of scenarios and the matrix that sums them up.
use vstd::prelude::*;
use vstd::string::StringExecFns;

use crate::text::{decimal, decimal_text, pad_right, padded};

verus! {

/// The width that scenario names are filled up to in the matrix.
pub const NAME_WIDTH: usize = 22;

/// Outcome of a single scenario.
#[derive(Clone, Copy, Debug, PartialEq, Eq, Structural)]
pub enum Outcome {
    Pass,
    Fail,
    Blocked,
}

/// A row of the report: the scenario, its outcome and the detail.
pub type RowView = (Seq<char>, Outcome, Seq<char>);

impl Outcome {
    /// The tag of an outcome, seven characters wide.
    pub open spec fn tag_text(self) -> Seq<char> {
        match self {
            Outcome::Pass => "PASS   "@,
            Outcome::Fail => "FAIL   "@,
            Outcome::Blocked => "BLOCKED"@,
        }
    }

    /// The tag that the matrix shows for the outcome.
    pub fn tag(self) -> (r: &'static str)
        ensures
            r@ == self.tag_text(),
    {
        match self {
            Outcome::Pass => "PASS   ",
            Outcome::Fail => "FAIL   ",
            Outcome::Blocked => "BLOCKED",
        }
    }
}

/// How loud a line of the log is.
#[derive(Clone, Copy, Debug, PartialEq, Eq, Structural)]
pub enum Level {
    Info,
    Warn,
}

/// A line for the log.
#[derive(Debug)]
pub struct LogLine {
    pub level: Level,
    pub text: String,
}

/// What a `LogLine` holds.
pub struct LogLineView {
    pub level: Level,
    pub text: Seq<char>,
}

impl View for LogLine {
    type V = LogLineView;

    open spec fn view(&self) -> LogLineView {
        LogLineView { level: self.level, text: self.text@ }
    }
}

/// What an optional line of the log holds.
pub open spec fn log_view(line: Option<LogLine>) -> Option<LogLineView> {
    match line {
        Some(l) => Some(l@),
        None => None,
    }
}

/// The line that the log gets for a row: a warning, unless the scenario passed.
pub open spec fn row_log(row: RowView) -> LogLineView {
    let text = row.0 + ": "@ + row.2;
    match row.1 {
        Outcome::Pass => LogLineView { level: Level::Info, text: "[PASS] "@ + text },
        Outcome::Fail => LogLineView { level: Level::Warn, text: "[FAIL] "@ + text },
        Outcome::Blocked => LogLineView { level: Level::Warn, text: "[BLOCKED] "@ + text },
    }
}

/// The line that the log gets for a row.
pub fn log_line(name: &str, outcome: Outcome, detail: &str) -> (r: LogLine)
    ensures
        r@ == row_log((name@, outcome, detail@)),
{
    let text = name.to_owned().concat(": ").concat(detail);
    match outcome {
        Outcome::Pass => LogLine {
            level: Level::Info,
            text: "[PASS] ".to_owned().concat(text.as_str()),
        },
        Outcome::Fail => LogLine {
            level: Level::Warn,
            text: "[FAIL] ".to_owned().concat(text.as_str()),
        },
        Outcome::Blocked => LogLine {
            level: Level::Warn,
            text: "[BLOCKED] ".to_owned().concat(text.as_str()),
        },
    }
}

/// The rows recorded so far, in the order in which they were recorded.
pub struct Report {
    pub rows: Vec<(String, Outcome, String)>,
}

/// What a row holds.
pub open spec fn row_view(row: (String, Outcome, String)) -> RowView {
    (row.0@, row.1, row.2@)
}

impl View for Report {
    type V = Seq<RowView>;

    open spec fn view(&self) -> Seq<RowView> {
        self.rows@.map_values(|row: (String, Outcome, String)| row_view(row))
    }
}

/// How many rows have the outcome `o`.
pub open spec fn count_of(rows: Seq<RowView>, o: Outcome) -> nat {
    rows.filter(|row: RowView| row.1 == o).len()
}

/// Whether some row is a failure.
pub open spec fn has_failure(rows: Seq<RowView>) -> bool {
    exists|i: int| 0 <= i < rows.len() && (#[trigger] rows[i]).1 == Outcome::Fail
}

/// A row as the matrix shows it.
pub open spec fn row_line(row: RowView) -> Seq<char> {
    "  "@ + row.1.tag_text() + "  "@ + padded(row.0, NAME_WIDTH as nat) + " "@ + row.2 + "\n"@
}

/// The rows as the matrix shows them, one line each.
pub open spec fn row_lines(rows: Seq<RowView>) -> Seq<char>
    decreases rows.len(),
{
    if rows.len() == 0 {
        Seq::empty()
    } else {
        row_lines(rows.drop_last()) + row_line(rows.last())
    }
}

/// The line of the matrix that gives the three counts.
pub open spec fn tally_line(rows: Seq<RowView>) -> Seq<char> {
    "  "@ + decimal(count_of(rows, Outcome::Pass)) + " passed, "@ + decimal(
        count_of(rows, Outcome::Fail),
    ) + " failed, "@ + decimal(count_of(rows, Outcome::Blocked)) + " blocked\n"@
}

/// The whole matrix.
pub open spec fn matrix(rows: Seq<RowView>) -> Seq<char> {
    "\n================ CE TWO-NODE MESH MATRIX ================\n"@ + row_lines(rows)
        + "--------------------------------------------------------\n"@ + tally_line(rows)
        + "========================================================\n\n"@
}

proof fn lemma_count_step(rows: Seq<RowView>, n: int, o: Outcome)
    requires
        0 <= n < rows.len(),
    ensures
        count_of(rows.take(n + 1), o) == count_of(rows.take(n), o) + (if rows[n].1 == o {
            1nat
        } else {
            0nat
        }),
{
    reveal(Seq::filter);
    assert(rows.take(n + 1).drop_last() =~= rows.take(n));
}

impl Report {
    /// A report without rows.
    pub fn new() -> (r: Self)
        ensures
            r@ == Seq::<RowView>::empty(),
    {
        let r = Report { rows: Vec::new() };
        assert(r@ =~= Seq::<RowView>::empty());
        r
    }

    /// Adds a row behind the others, and gives the line that the log gets for
    /// it.
    pub fn record(&mut self, name: &str, outcome: Outcome, detail: String) -> (r: LogLine)
        ensures
            final(self)@ == old(self)@.push((name@, outcome, detail@)),
            r@ == row_log((name@, outcome, detail@)),
    {
        let line = log_line(name, outcome, detail.as_str());
        self.rows.push((name.to_owned(), outcome, detail));
        assert(self@ =~= old(self)@.push((name@, outcome, detail@)));
        line
    }

    /// Whether some scenario failed. Blocked scenarios are no failures.
    pub fn any_failed(&self) -> (r: bool)
        ensures
            r == has_failure(self@),
    {
        let mut i: usize = 0;
        while i < self.rows.len()
            invariant
                i <= self.rows@.len(),
                forall|k: int| 0 <= k < i ==> (#[trigger] self.rows@[k]).1 != Outcome::Fail,
            decreases self.rows@.len() - i,
        {
            if self.rows[i].1 == Outcome::Fail {
                assert(self@[i as int].1 == Outcome::Fail);
                return true;
            }
            i = i + 1;
        }
        assert forall|k: int| 0 <= k < self@.len() implies (#[trigger] self@[k]).1
            != Outcome::Fail by {
            assert(self@[k] == row_view(self.rows@[k]));
        }
        false
    }

    /// How many rows have the outcome `o`.
    pub fn count(&self, o: Outcome) -> (r: usize)
        ensures
            r == count_of(self@, o),
    {
        let mut i: usize = 0;
        let mut n: usize = 0;
        proof {
            reveal(Seq::filter);
        }
        while i < self.rows.len()
            invariant
                i <= self.rows@.len(),
                n <= i,
                n == count_of(self@.take(i as int), o),
            decreases self.rows@.len() - i,
        {
            proof {
                lemma_count_step(self@, i as int, o);
            }
            if self.rows[i].1 == o {
                n = n + 1;
            }
            i = i + 1;
        }
        assert(self@.take(i as int) =~= self@);
        n
    }

    /// The matrix: a line for each row, then the counts.
    pub fn render(&self) -> (r: String)
        ensures
            r@ == matrix(self@),
    {
        let mut lines = String::new();
        let mut i: usize = 0;
        while i < self.rows.len()
            invariant
                i <= self.rows@.len(),
                lines@ == row_lines(self@.take(i as int)),
            decreases self.rows@.len() - i,
        {
            assert(self@.take(i + 1).drop_last() =~= self@.take(i as int));
            let tag = self.rows[i].1.tag();
            let name = pad_right(self.rows[i].0.as_str(), NAME_WIDTH);
            let line = "  ".to_owned().concat(tag).concat("  ").concat(name.as_str()).concat(
                " ",
            ).concat(self.rows[i].2.as_str()).concat("\n");
            assert(line@ == row_line(self@[i as int]));
            lines = lines.concat(line.as_str());
            i = i + 1;
        }
        assert(self@.take(i as int) =~= self@);
        let tally = "  ".to_owned().concat(
            decimal_text(self.count(Outcome::Pass) as u64).as_str(),
        ).concat(" passed, ").concat(
            decimal_text(self.count(Outcome::Fail) as u64).as_str(),
        ).concat(" failed, ").concat(
            decimal_text(self.count(Outcome::Blocked) as u64).as_str(),
        ).concat(" blocked\n");
        "\n================ CE TWO-NODE MESH MATRIX ================\n".to_owned().concat(
            lines.as_str(),
        ).concat("--------------------------------------------------------\n").concat(
            tally.as_str(),
        ).concat("========================================================\n\n")
    }
}

/// Every row is counted under exactly one outcome.
pub proof fn counts_cover_rows(rows: Seq<RowView>)
    ensures
        count_of(rows, Outcome::Pass) + count_of(rows, Outcome::Fail) + count_of(
            rows,
            Outcome::Blocked,
        ) == rows.len(),
    decreases rows.len(),
{
    reveal(Seq::filter);
    if rows.len() > 0 {
        counts_cover_rows(rows.drop_last());
    }
}

/// A report has a failure exactly where it counts one.
pub proof fn failure_is_counted(rows: Seq<RowView>)
    ensures
        has_failure(rows) <==> count_of(rows, Outcome::Fail) > 0,
    decreases rows.len(),
{
    reveal(Seq::filter);
    if rows.len() > 0 {
        let head = rows.drop_last();
        failure_is_counted(head);
        if has_failure(head) {
            let i = choose|i: int| 0 <= i < head.len() && (#[trigger] head[i]).1 == Outcome::Fail;
            assert(rows[i].1 == Outcome::Fail);
        }
        if has_failure(rows) && rows.last().1 != Outcome::Fail {
            let i = choose|i: int| 0 <= i < rows.len() && (#[trigger] rows[i]).1 == Outcome::Fail;
            assert(head[i].1 == Outcome::Fail);
        }
    }
}

/// A report has no failure exactly where every row that is not blocked passed.
pub proof fn no_failure_is_all_passed(rows: Seq<RowView>)
    ensures
        !has_failure(rows) <==> forall|i: int|
            0 <= i < rows.len() && (#[trigger] rows[i]).1 != Outcome::Blocked ==> rows[i].1
                == Outcome::Pass,
{
}

/// A failure, once recorded, stays: no later row takes it back.
pub proof fn failure_stays(rows: Seq<RowView>, row: RowView)
    ensures
        has_failure(rows.push(row)) <==> has_failure(rows) || row.1 == Outcome::Fail,
{
    let more = rows.push(row);
    if has_failure(rows) {
        let i = choose|i: int| 0 <= i < rows.len() && (#[trigger] rows[i]).1 == Outcome::Fail;
        assert(more[i].1 == Outcome::Fail);
    }
    if row.1 == Outcome::Fail {
        assert(more[rows.len() as int].1 == Outcome::Fail);
    }
    if has_failure(more) && row.1 != Outcome::Fail {
        let i = choose|i: int| 0 <= i < more.len() && (#[trigger] more[i]).1 == Outcome::Fail;
        assert(rows[i].1 == Outcome::Fail);
    }
}

/// The tags of all outcomes have the same width, so that the names line up.
pub proof fn tags_line_up(o: Outcome)
    ensures
        o.tag_text().len() == 7,
{
    reveal_strlit("PASS   ");
    reveal_strlit("FAIL   ");
    reveal_strlit("BLOCKED");
}

/// The matrix shows every row: its line stands behind those of the rows that
/// were recorded before it.
pub proof fn matrix_shows_every_row(rows: Seq<RowView>, i: int)
    requires
        0 <= i < rows.len(),
    ensures
        (row_lines(rows.take(i)) + row_line(rows[i])).is_prefix_of(row_lines(rows)),
    decreases rows.len(),
{
    let head = rows.drop_last();
    if i < head.len() {
        matrix_shows_every_row(head, i);
        assert(head.take(i) =~= rows.take(i));
    } else {
        assert(head =~= rows.take(i));
    }
}

/// A row of the matrix, spelled out: two spaces, the outcome in seven characters,
/// two spaces, the name filled up to twenty-two characters, a space, the detail
/// and the end of the line.
pub open spec fn spelled_out(row: RowView) -> Seq<char> {
    let outcome = match row.1 {
        Outcome::Pass => "PASS   "@,
        Outcome::Fail => "FAIL   "@,
        Outcome::Blocked => "BLOCKED"@,
    };
    let missing = if row.0.len() < 22 {
        (22 - row.0.len()) as nat
    } else {
        0
    };
    "  "@ + outcome + "  "@ + row.0 + Seq::new(missing, |i: int| ' ') + " "@ + row.2 + "\n"@
}

/// How many of the rows have the outcome `o`, counted one by one.
pub open spec fn tally(rows: Seq<RowView>, o: Outcome) -> nat
    decreases rows.len(),
{
    if rows.len() == 0 {
        0
    } else if rows.last().1 == o {
        tally(rows.drop_last(), o) + 1
    } else {
        tally(rows.drop_last(), o)
    }
}

/// Where the line of a row begins in the matrix: behind the heading and the
/// lines of the rows before it.
pub open spec fn line_start(rows: Seq<RowView>, i: int) -> int {
    let heading = "\n================ CE TWO-NODE MESH MATRIX ================\n"@;
    let before = rows.take(i).map_values(|row: RowView| spelled_out(row)).flatten_alt();
    (heading.len() + before.len()) as int
}

proof fn lemma_line(row: RowView)
    ensures
        row_line(row) == spelled_out(row),
{
    assert(row_line(row) =~= spelled_out(row));
}

proof fn lemma_lines(rows: Seq<RowView>)
    ensures
        row_lines(rows) == rows.map_values(|row: RowView| spelled_out(row)).flatten_alt(),
    decreases rows.len(),
{
    let lines = rows.map_values(|row: RowView| spelled_out(row));
    if rows.len() > 0 {
        lemma_lines(rows.drop_last());
        lemma_line(rows.last());
        assert(lines.drop_last() =~= rows.drop_last().map_values(
            |row: RowView| spelled_out(row),
        ));
    }
}

proof fn lemma_tally(rows: Seq<RowView>, o: Outcome)
    ensures
        tally(rows, o) == count_of(rows, o),
    decreases rows.len(),
{
    reveal(Seq::filter);
    if rows.len() > 0 {
        lemma_tally(rows.drop_last(), o);
    }
}

/// A row more is one more of its outcome, and changes no other count; without
/// rows every count is zero.
pub proof fn row_counts_once(rows: Seq<RowView>, row: RowView, o: Outcome)
    ensures
        count_of(Seq::empty(), o) == 0,
        row.1 == o ==> count_of(rows.push(row), o) == count_of(rows, o) + 1,
        row.1 != o ==> count_of(rows.push(row), o) == count_of(rows, o),
{
    reveal(Seq::filter);
    assert(rows.push(row).drop_last() =~= rows);
}

/// The matrix is its heading, every row spelled out in the order in which the
/// rows were recorded, a rule, how many passed, failed and were blocked, and
/// another rule.
pub proof fn matrix_spells_everything_out(rows: Seq<RowView>)
    ensures
        matrix(rows) == "\n================ CE TWO-NODE MESH MATRIX ================\n"@
            + rows.map_values(|row: RowView| spelled_out(row)).flatten_alt()
            + "--------------------------------------------------------\n"@ + "  "@ + decimal(
            tally(rows, Outcome::Pass),
        ) + " passed, "@ + decimal(tally(rows, Outcome::Fail)) + " failed, "@ + decimal(
            tally(rows, Outcome::Blocked),
        ) + " blocked\n"@ + "========================================================\n\n"@,
{
    lemma_lines(rows);
    lemma_tally(rows, Outcome::Pass);
    lemma_tally(rows, Outcome::Fail);
    lemma_tally(rows, Outcome::Blocked);
    assert(matrix(rows) =~= "\n================ CE TWO-NODE MESH MATRIX ================\n"@
        + rows.map_values(|row: RowView| spelled_out(row)).flatten_alt()
        + "--------------------------------------------------------\n"@ + "  "@ + decimal(
        tally(rows, Outcome::Pass),
    ) + " passed, "@ + decimal(tally(rows, Outcome::Fail)) + " failed, "@ + decimal(
        tally(rows, Outcome::Blocked),
    ) + " blocked\n"@ + "========================================================\n\n"@);
}

/// The matrix tells the outcome of every row: the seven characters behind the
/// two spaces that its line begins with are `PASS` and three spaces exactly if
/// it passed, `FAIL` and three spaces exactly if it failed, and `BLOCKED`
/// exactly if it was blocked.
pub proof fn matrix_tells_every_outcome(rows: Seq<RowView>, i: int)
    requires
        0 <= i < rows.len(),
    ensures
        ({
            let at = line_start(rows, i);
            let shown = matrix(rows).subrange(at + 2, at + 9);
            &&& matrix(rows).subrange(at, at + 2) == "  "@
            &&& shown == "PASS   "@ <==> rows[i].1 == Outcome::Pass
            &&& shown == "FAIL   "@ <==> rows[i].1 == Outcome::Fail
            &&& shown == "BLOCKED"@ <==> rows[i].1 == Outcome::Blocked
        }),
{
    reveal_strlit("  ");
    reveal_strlit("PASS   ");
    reveal_strlit("FAIL   ");
    reveal_strlit("BLOCKED");
    matrix_shows_every_row(rows, i);
    lemma_lines(rows.take(i));
    lemma_line(rows[i]);
    let heading = "\n================ CE TWO-NODE MESH MATRIX ================\n"@;
    let before = row_lines(rows.take(i));
    let line = spelled_out(rows[i]);
    let at = line_start(rows, i);
    let all = matrix(rows);
    assert(at == heading.len() + before.len());
    assert forall|k: int| 0 <= k < line.len() implies all[at + k] == line[k] by {
        let lines = row_lines(rows);
        assert((before + line)[before.len() + k] == line[k]);
        assert(lines[before.len() + k] == line[k]);
    }
    let tag = match rows[i].1 {
        Outcome::Pass => "PASS   "@,
        Outcome::Fail => "FAIL   "@,
        Outcome::Blocked => "BLOCKED"@,
    };
    assert(line.len() >= 9);
    assert(line.subrange(0, 2) =~= "  "@);
    assert(line.subrange(2, 9) =~= tag);
    assert(all.subrange(at, at + 2) =~= line.subrange(0, 2));
    assert(all.subrange(at + 2, at + 9) =~= line.subrange(2, 9));
    assert("PASS   "@[0] == 'P');
    assert("FAIL   "@[0] == 'F');
    assert("BLOCKED"@[0] == 'B');
}

/// Rows of different outcomes never show alike, whatever else they hold.
pub proof fn outcomes_never_show_alike(r: RowView, s: RowView)
    requires
        r.1 != s.1,
    ensures
        row_line(r).subrange(2, 9) != row_line(s).subrange(2, 9),
        row_line(r) != row_line(s),
{
    reveal_strlit("  ");
    reveal_strlit("PASS   ");
    reveal_strlit("FAIL   ");
    reveal_strlit("BLOCKED");
    lemma_line(r);
    lemma_line(s);
    let a = spelled_out(r);
    let b = spelled_out(s);
    assert(a.subrange(2, 9)[0] == a[2]);
    assert(b.subrange(2, 9)[0] == b[2]);
}

/// The log tells of a row what the row holds, behind the outcome in brackets,
/// and warns unless the scenario passed.
pub proof fn log_tells_the_row(name: Seq<char>, detail: Seq<char>)
    ensures
        row_log((name, Outcome::Pass, detail)) == (LogLineView {
            level: Level::Info,
            text: "[PASS] "@ + name + ": "@ + detail,
        }),
        row_log((name, Outcome::Fail, detail)) == (LogLineView {
            level: Level::Warn,
            text: "[FAIL] "@ + name + ": "@ + detail,
        }),
        row_log((name, Outcome::Blocked, detail)) == (LogLineView {
            level: Level::Warn,
            text: "[BLOCKED] "@ + name + ": "@ + detail,
        }),
{
    assert("[PASS] "@ + (name + ": "@ + detail) =~= "[PASS] "@ + name + ": "@ + detail);
    assert("[FAIL] "@ + (name + ": "@ + detail) =~= "[FAIL] "@ + name + ": "@ + detail);
    assert("[BLOCKED] "@ + (name + ": "@ + detail) =~= "[BLOCKED] "@ + name + ": "@ + detail);
}

/// The tag of an outcome is its name in capitals, filled up to seven characters.
pub proof fn tags_name_the_outcome(o: Outcome)
    ensures
        o.tag_text() == "PASS   "@ <==> o == Outcome::Pass,
        o.tag_text() == "FAIL   "@ <==> o == Outcome::Fail,
        o.tag_text() == "BLOCKED"@ <==> o == Outcome::Blocked,
{
    reveal_strlit("PASS   ");
    reveal_strlit("FAIL   ");
    reveal_strlit("BLOCKED");
    assert("PASS   "@[0] == 'P');
    assert("FAIL   "@[0] == 'F');
    assert("BLOCKED"@[0] == 'B');
}

/// A report holds its rows, each with its name, outcome and detail, and a line
/// of the log its level and text.
pub proof fn report_holds_its_rows(r: Report, line: LogLine)
    ensures
        r@.len() == r.rows@.len(),
        forall|i: int|
            0 <= i < r.rows@.len() ==> #[trigger] r@[i] == (
                r.rows@[i].0@,
                r.rows@[i].1,
                r.rows@[i].2@,
            ),
        line@.level == line.level,
        line@.text == line.text@,
        log_view(Some(line)) == Some(line@),
        log_view(None) is None,
{
}

} // verus!
