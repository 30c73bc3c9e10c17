//! Cursors over the answers of a query.
//!
//! The engine opens a cursor and advances it row by row, reporting the
//! multiplicity of each row (0 once there are no more); the library counts
//! the rows, stops where the caller's limit is reached, and reads the values
//! of a row from what the engine wrote into a buffer.

use vstd::prelude::*;

use crate::error::Error;
use crate::rdf::data_type::data_type_of_id;
use crate::rdf::lexical_value::reads_c_buffer;
use crate::rdf::{DataType, LexicalValue};
use crate::statement::Statement;
use crate::text::string_of_str;

verus! {

/// A row of a cursor's answers: how many answers it stands for, the number
/// of answers counted so far with it, and its number (from 1).
#[derive(Debug, Clone, Copy, PartialEq, Eq, Structural)]
pub struct CursorRow {
    pub multiplicity: usize,
    pub count: usize,
    pub rowid: usize,
}

/// What the next report of the engine means while a cursor is consumed.
#[derive(Debug, Clone, Copy, PartialEq, Eq, Structural)]
pub enum RowStep {
    /// A row to hand to the caller.
    Row(CursorRow),
    /// No more rows: the number of answers counted.
    Done(usize),
}

/// What a report of `multiplicity` means, where `rows` rows standing for
/// `total` answers were counted so far and at most `max_row` are allowed:
/// `None` for the two errors (a row standing for `max_row` answers or more,
/// and a row numbered `max_row` or more).
pub open spec fn row_step(max_row: nat, rows: nat, total: nat, multiplicity: nat) -> Option<
    (nat, nat),
> {
    if multiplicity == 0 {
        Some((rows, total))
    } else if multiplicity >= max_row || rows + 1 >= max_row {
        None
    } else {
        Some((rows + 1, total + multiplicity))
    }
}

/// What consuming a cursor gives when the engine reports the multiplicities
/// `reports` in turn, starting from `rows` rows and `total` answers: the
/// number of answers where a report of 0 ends them, `None` where a row is
/// refused first or the reports run out.
pub open spec fn consume_run(max_row: nat, rows: nat, total: nat, reports: Seq<nat>) -> Option<nat>
    decreases reports.len(),
{
    if reports.len() == 0 {
        None
    } else {
        match row_step(max_row, rows, total, reports[0]) {
            None => None,
            Some((next_rows, next_total)) => if reports[0] == 0 {
                Some(next_total)
            } else {
                consume_run(max_row, next_rows, next_total, reports.skip(1))
            },
        }
    }
}

/// The sum of a sequence of numbers.
pub open spec fn sum_of(ms: Seq<nat>) -> nat
    decreases ms.len(),
{
    if ms.len() == 0 {
        0
    } else {
        ms[0] + sum_of(ms.skip(1))
    }
}

proof fn lemma_consume_counts(max_row: nat, rows: nat, total: nat, ms: Seq<nat>)
    requires
        forall|i: int| 0 <= i < ms.len() ==> 0 < #[trigger] ms[i] < max_row,
        rows + ms.len() < max_row,
    ensures
        consume_run(max_row, rows, total, ms.push(0)) == Some(total + sum_of(ms)),
    decreases ms.len(),
{
    if ms.len() == 0 {
    } else {
        assert(ms.push(0).skip(1) =~= ms.skip(1).push(0));
        assert(ms.push(0)[0] == ms[0]);
        lemma_consume_counts(max_row, rows + 1, total + ms[0], ms.skip(1));
    }
}

proof fn lemma_consume_refuses(max_row: nat, rows: nat, total: nat, ms: Seq<nat>, rest: Seq<nat>)
    requires
        forall|i: int| 0 <= i < ms.len() ==> 0 < #[trigger] ms[i] < max_row,
        rows + ms.len() >= max_row,
        rows < max_row || rows == 0,
        ms.len() > 0,
    ensures
        consume_run(max_row, rows, total, ms + rest) is None,
    decreases ms.len(),
{
    let all = ms + rest;
    assert(all[0] == ms[0]);
    if rows + 1 < max_row {
        assert(all.skip(1) =~= ms.skip(1) + rest);
        lemma_consume_refuses(max_row, rows + 1, total + ms[0], ms.skip(1), rest);
    }
}

/// Consuming a cursor counts every answer: where the engine reports rows
/// that each stand for fewer than `max_row` answers, fewer than `max_row`
/// of them, and then 0, the count is the sum of the multiplicities.
pub proof fn law_consume_counts_answers(max_row: nat, reports: Seq<nat>)
    requires
        forall|i: int| 0 <= i < reports.len() ==> 0 < #[trigger] reports[i] < max_row,
        reports.len() < max_row,
    ensures
        consume_run(max_row, 0, 0, reports.push(0)) == Some(sum_of(reports)),
{
    lemma_consume_counts(max_row, 0, 0, reports);
}

/// Consuming a cursor stops at the limit: where the engine reports
/// `max_row` rows or more, whatever follows, the answers are refused.
pub proof fn law_consume_stops_at_limit(max_row: nat, reports: Seq<nat>, rest: Seq<nat>)
    requires
        forall|i: int| 0 <= i < reports.len() ==> 0 < #[trigger] reports[i] < max_row,
        reports.len() >= max_row,
        reports.len() > 0,
    ensures
        consume_run(max_row, 0, 0, reports + rest) is None,
{
    lemma_consume_refuses(max_row, 0, 0, reports, rest);
}

/// How consuming a cursor ends when the engine reports the multiplicities
/// `reports` in turn (the first when the cursor opens, each other after an
/// advance) and the caller's work on the rows handed out gives `outcomes`
/// in turn: `Some(Ok(n))` where a report of 0 ends the answers with `n`
/// counted, `Some(Err(e))` where the work on a row fails with `e`, `None`
/// where a row is refused or the reports or outcomes run out; together with
/// the number of reports taken in, that is one for the opening and one for
/// each advance.
pub open spec fn consume_with<E>(
    max_row: nat,
    rows: nat,
    total: nat,
    reports: Seq<nat>,
    outcomes: Seq<Result<(), E>>,
) -> (Option<Result<nat, E>>, nat)
    decreases reports.len(),
{
    if reports.len() == 0 {
        (None, 0)
    } else {
        match row_step(max_row, rows, total, reports[0]) {
            None => (None, 1),
            Some((next_rows, next_total)) => if reports[0] == 0 {
                (Some(Ok(next_total)), 1)
            } else if outcomes.len() == 0 {
                (None, 1)
            } else {
                match outcomes[0] {
                    Err(e) => (Some(Err(e)), 1),
                    Ok(_) => {
                        let (end, used) = consume_with(
                            max_row,
                            next_rows,
                            next_total,
                            reports.skip(1),
                            outcomes.skip(1),
                        );
                        (end, used + 1)
                    },
                }
            },
        }
    }
}

proof fn lemma_consume_stops_on_error<E>(
    max_row: nat,
    rows: nat,
    total: nat,
    reports: Seq<nat>,
    outcomes: Seq<Result<(), E>>,
    j: nat,
    e: E,
)
    requires
        0 < j <= reports.len(),
        j <= outcomes.len(),
        rows + j < max_row,
        forall|i: int| 0 <= i < j ==> 0 < #[trigger] reports[i] < max_row,
        forall|i: int| 0 <= i < j - 1 ==> #[trigger] outcomes[i] is Ok,
        outcomes[j - 1] == Err::<(), E>(e),
    ensures
        consume_with(max_row, rows, total, reports, outcomes) == (Some(Err::<nat, E>(e)), j),
    decreases j,
{
    if j > 1 {
        assert(outcomes[0] is Ok);
        let rs = reports.skip(1);
        let os = outcomes.skip(1);
        assert forall|i: int| 0 <= i < j - 1 implies 0 < #[trigger] rs[i] < max_row by {
            assert(rs[i] == reports[i + 1]);
        }
        assert forall|i: int| 0 <= i < j - 2 implies #[trigger] os[i] is Ok by {
            assert(os[i] == outcomes[i + 1]);
        }
        assert(os[j - 2] == outcomes[j - 1]);
        lemma_consume_stops_on_error(max_row, rows + 1, total + reports[0], rs, os, (j - 1) as nat, e);
    }
}

/// Consuming a cursor stops at the first failure of the caller's work on a
/// row: where rows 1 to `j` are handed out (each passes both limits), the
/// work succeeds on the rows before row `j` and fails with `e` on row `j`,
/// consuming ends with that very error `e`, having taken in `j` reports:
/// the opening and `j - 1` advances, none after row `j`.
pub proof fn law_consume_stops_on_error<E>(
    max_row: nat,
    reports: Seq<nat>,
    outcomes: Seq<Result<(), E>>,
    j: nat,
    e: E,
)
    requires
        0 < j <= reports.len(),
        j <= outcomes.len(),
        j < max_row,
        forall|i: int| 0 <= i < j ==> 0 < #[trigger] reports[i] < max_row,
        forall|i: int| 0 <= i < j - 1 ==> #[trigger] outcomes[i] is Ok,
        outcomes[j - 1] == Err::<(), E>(e),
    ensures
        consume_with(max_row, 0, 0, reports, outcomes) == (Some(Err::<nat, E>(e)), j),
{
    lemma_consume_stops_on_error(max_row, 0, 0, reports, outcomes, j, e);
}

/// The counts kept while the rows of a cursor are consumed: the limit on
/// rows, the rows and answers counted so far, and the query, for the
/// errors.
#[derive(Debug)]
pub struct RowCounter {
    max_row: usize,
    rowid: usize,
    count: usize,
    query: String,
    stopped: bool,
}

impl RowCounter {
    #[verifier::type_invariant]
    closed spec fn rows_below_limit(self) -> bool {
        self.rowid == 0 || self.rowid < self.max_row
    }

    /// The largest number of rows allowed.
    pub closed spec fn limit(&self) -> usize {
        self.max_row
    }

    /// The number of rows counted so far.
    pub closed spec fn rows(&self) -> usize {
        self.rowid
    }

    /// The number of answers counted so far.
    pub closed spec fn total(&self) -> usize {
        self.count
    }

    /// The text of the query whose answers are counted.
    pub closed spec fn text(&self) -> Seq<char> {
        self.query@
    }

    /// Whether the caller's work on a row failed, which ends the run.
    pub closed spec fn is_stopped(&self) -> bool {
        self.stopped
    }

    /// Counts for the answers of `query`, allowing fewer than `max_row` rows.
    pub fn new(max_row: usize, query: &str) -> (r: RowCounter)
        ensures
            r.limit() == max_row,
            r.rows() == 0,
            r.total() == 0,
            r.text() == query@,
            !r.is_stopped(),
    {
        RowCounter { max_row, rowid: 0, count: 0, query: string_of_str(query), stopped: false }
    }

    /// Takes in the multiplicity the engine reports for the next row: 0 ends
    /// the answers; a row that stands for `max_row` answers or more is
    /// refused with `MultiplicityExceededMaximumNumberOfRows`, and a row
    /// numbered `max_row` or more with `ExceededMaximumNumberOfRows`;
    /// otherwise the row is counted and handed on.
    pub fn next(&mut self, multiplicity: usize) -> (r: Result<RowStep, Error>)
        requires
            !old(self).is_stopped(),
            multiplicity > 0 && multiplicity < old(self).limit() && old(self).rows() + 1 < old(
                self,
            ).limit() ==> old(self).total() + multiplicity <= usize::MAX,
        ensures
            final(self).limit() == old(self).limit(),
            final(self).text() == old(self).text(),
            !final(self).is_stopped(),
            multiplicity == 0 ==> r == Ok::<RowStep, Error>(RowStep::Done(old(self).total())),
            multiplicity > 0 && multiplicity >= old(self).limit() ==> (r matches Err(
                Error::MultiplicityExceededMaximumNumberOfRows { maxrow, multiplicity: m, query },
            ) && maxrow == old(self).limit() && m == multiplicity && query@ == old(self).text()),
            0 < multiplicity < old(self).limit() && old(self).rows() + 1 >= old(self).limit() ==> (
            r matches Err(Error::ExceededMaximumNumberOfRows { maxrow, query }) && maxrow == old(
                self,
            ).limit() && query@ == old(self).text()),
            0 < multiplicity < old(self).limit() && old(self).rows() + 1 < old(self).limit() ==> r
                == Ok::<RowStep, Error>(
                RowStep::Row(
                    CursorRow {
                        multiplicity,
                        count: (old(self).total() + multiplicity) as usize,
                        rowid: (old(self).rows() + 1) as usize,
                    },
                ),
            ),
            r is Ok ==> row_step(
                old(self).limit() as nat,
                old(self).rows() as nat,
                old(self).total() as nat,
                multiplicity as nat,
            ) == Some((final(self).rows() as nat, final(self).total() as nat)),
            r is Err ==> row_step(
                old(self).limit() as nat,
                old(self).rows() as nat,
                old(self).total() as nat,
                multiplicity as nat,
            ) is None,
    {
        proof {
            use_type_invariant(&*self);
        }
        if multiplicity == 0 {
            return Ok(RowStep::Done(self.count));
        }
        if multiplicity >= self.max_row {
            return Err(
                Error::MultiplicityExceededMaximumNumberOfRows {
                    maxrow: self.max_row,
                    multiplicity,
                    query: self.query.clone(),
                },
            );
        }
        if self.rowid + 1 >= self.max_row {
            return Err(
                Error::ExceededMaximumNumberOfRows {
                    maxrow: self.max_row,
                    query: self.query.clone(),
                },
            );
        }
        self.rowid = self.rowid + 1;
        self.count = self.count + multiplicity;
        Ok(RowStep::Row(CursorRow { multiplicity, count: self.count, rowid: self.rowid }))
    }

    /// Whether the caller's work on a row failed, which ends the run.
    pub fn stopped(&self) -> (r: bool)
        ensures
            r == self.is_stopped(),
    {
        self.stopped
    }

    /// Takes in what the caller's work on the row just handed out gave, and
    /// hands it back: an error ends the run with that very error, and no
    /// further row is taken in (`next` wants a counter that has not
    /// stopped), so the engine is not asked to advance again.
    pub fn handled<E>(&mut self, outcome: Result<(), E>) -> (r: Result<(), E>)
        requires
            !old(self).is_stopped(),
        ensures
            r == outcome,
            final(self).is_stopped() == outcome is Err,
            final(self).limit() == old(self).limit(),
            final(self).rows() == old(self).rows(),
            final(self).total() == old(self).total(),
            final(self).text() == old(self).text(),
    {
        proof {
            use_type_invariant(&*self);
        }
        if outcome.is_err() {
            self.stopped = true;
        }
        outcome
    }
}

/// The largest number of rows that counting the answers of a cursor allows.
pub open spec fn count_limit() -> usize {
    1000000000
}

/// A cursor over the answers of a statement.
#[derive(Debug)]
pub struct Cursor {
    statement: Statement,
}

impl Cursor {
    /// The statement whose answers the cursor runs over.
    pub closed spec fn query(&self) -> Statement {
        self.statement
    }

    /// A cursor over the answers of `statement`.
    pub fn create(statement: &Statement) -> (r: Cursor)
        ensures
            r.query() == *statement,
    {
        Cursor { statement: statement.clone() }
    }

    /// The text of the cursor's statement.
    pub fn sparql_string(&self) -> (r: &str)
        ensures
            r@ == self.query().sparql(),
    {
        self.statement.as_str()
    }

    /// Counts for consuming the cursor's answers with fewer than `max_row`
    /// rows.
    pub fn consume(&self, max_row: usize) -> (r: RowCounter)
        ensures
            r.limit() == max_row,
            r.rows() == 0,
            r.total() == 0,
            r.text() == self.query().sparql(),
            !r.is_stopped(),
    {
        RowCounter::new(max_row, self.statement.as_str())
    }

    /// Counts for counting the cursor's answers: fewer than `count_limit()`
    /// rows.
    pub fn count(&self) -> (r: RowCounter)
        ensures
            r.limit() == count_limit(),
            r.rows() == 0,
            r.total() == 0,
            r.text() == self.query().sparql(),
            !r.is_stopped(),
    {
        self.consume(1000000000)
    }
}

impl CursorRow {
    /// The value of a column of a row, from what the engine reported for
    /// it: whether it resolved the resource, the id of its data type, and
    /// the buffer it wrote the resource's text into (nul-terminated).
    /// `Unknown` where the resource was not resolved, `UnknownDataType`
    /// where no data type has the id, else what reading the buffer as a
    /// value of that data type gives (`reads_c_buffer`).
    pub fn lexical_value(resolved: bool, datatype_id: u8, buffer: &[u8]) -> (r: Result<
        Option<LexicalValue>,
        Error,
    >)
        ensures
            !resolved ==> (r matches Err(Error::Unknown)),
            resolved && data_type_of_id(datatype_id) is None ==> (r matches Err(
                Error::UnknownDataType { data_type_id },
            ) && data_type_id == datatype_id),
            resolved && data_type_of_id(datatype_id) is Some ==> reads_c_buffer(
                data_type_of_id(datatype_id)->0,
                buffer@,
                r,
            ),
    {
        if !resolved {
            return Err(Error::Unknown);
        }
        let data_type = DataType::from_datatype_id(datatype_id)?;
        LexicalValue::from_type_and_c_buffer(data_type, buffer)
    }
}

} // verus!
