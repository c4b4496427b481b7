//! Writing Cursor's sign-in rows into its SQLite store inside one transaction: the library
//! decides each statement and when to commit; the caller runs the statements and reports
//! what they did.
use vstd::prelude::*;

verus! {

/// How a row is written: updated when it exists, inserted otherwise.
#[derive(PartialEq, Eq, Structural)]
pub enum FieldWrite {
    Update,
    Insert,
}

/// The statement for a key, given how many rows hold it already.
pub fn write_for_count(existing: i64) -> (res: FieldWrite)
    ensures
        res == if existing > 0 {
            FieldWrite::Update
        } else {
            FieldWrite::Insert
        },
{
    if existing > 0 {
        FieldWrite::Update
    } else {
        FieldWrite::Insert
    }
}

/// Whether a row write counts as done: an update that changed some row, or an insert that
/// did not fail.
pub fn field_written(kind: &FieldWrite, outcome: &Result<usize, String>) -> (res: bool)
    ensures
        res == match outcome {
            Ok(n) => *kind == FieldWrite::Insert || *n > 0,
            Err(_) => false,
        },
{
    match outcome {
        Ok(n) => match kind {
            FieldWrite::Update => *n > 0,
            FieldWrite::Insert => true,
        },
        Err(_) => false,
    }
}

/// The transaction is committed when at least one row write was done, else rolled back.
pub fn should_commit(done: usize) -> (res: bool)
    ensures
        res == (done > 0),
{
    done > 0
}


/// Where a series of row writes stands.
#[derive(PartialEq, Eq, Structural)]
pub enum WriterStage {
    /// The transaction is being opened.
    Begin,
    /// The rows holding the current key are being counted.
    Count,
    /// The current row is being written this way.
    Write(FieldWrite),
    /// The current key's rows are being deleted.
    Delete,
    /// The transaction is being committed (`true`) or rolled back.
    Close(bool),
    Finished,
}

/// A series of row writes: the rows to write (or, when deleting, the keys to delete), the
/// error to give when no write was done, how far it got and how many writes were done.
pub struct FieldWriter {
    pub fields: Vec<(String, String)>,
    pub deleting: bool,
    pub failure: String,
    pub stage: WriterStage,
    pub next: usize,
    pub done: usize,
}

/// What the caller is asked to do next.
pub enum WriterAction {
    /// `BEGIN TRANSACTION`.
    Begin,
    /// `SELECT COUNT(*) FROM ItemTable WHERE key = ?` with this key.
    CountRows(String),
    /// `UPDATE ItemTable SET value = ? WHERE key = ?` with this key and value.
    Update(String, String),
    /// `INSERT INTO ItemTable (key, value) VALUES (?, ?)` with this key and value.
    Insert(String, String),
    /// `DELETE FROM ItemTable WHERE key = ?` with this key.
    Delete(String),
    /// `COMMIT`.
    Commit,
    /// `ROLLBACK`.
    Rollback,
    /// The series is over, with this outcome.
    Finish(Result<(), String>),
}

/// What the caller reports.
pub enum WriterEvent {
    Begun(Result<(), String>),
    Counted(Result<i64, String>),
    Written(Result<usize, String>),
    Closed(Result<(), String>),
}

/// The event answers the action of the stage.
pub open spec fn writer_event_fits(stage: WriterStage, event: WriterEvent) -> bool {
    match event {
        WriterEvent::Begun(_) => stage == WriterStage::Begin,
        WriterEvent::Counted(_) => stage == WriterStage::Count,
        WriterEvent::Written(_) => stage matches WriterStage::Write(_) || stage == WriterStage::Delete,
        WriterEvent::Closed(_) => stage matches WriterStage::Close(_),
    }
}

impl FieldWriter {
    /// A writer whose position and count stay within its rows, whose stage matches its
    /// mode, and which counts only rows it has visited.
    pub open spec fn wf(&self) -> bool {
        &&& self.next <= self.fields@.len()
        &&& self.done <= self.next
        &&& (self.stage == WriterStage::Count || (self.stage matches WriterStage::Write(_)) || self.stage
            == WriterStage::Delete) ==> self.next < self.fields@.len()
        &&& (self.stage == WriterStage::Count || (self.stage matches WriterStage::Write(_))) ==> !self.deleting
        &&& self.stage == WriterStage::Delete ==> self.deleting
    }

    /// The action for the row at `next`, or for closing the transaction after the last.
    pub open spec fn next_action_fits(&self, a: WriterAction) -> bool {
        if self.next < self.fields@.len() {
            if self.deleting {
                self.stage == WriterStage::Delete && (a matches WriterAction::Delete(k) && k@
                    == self.fields@[self.next as int].0@)
            } else {
                self.stage == WriterStage::Count && (a matches WriterAction::CountRows(k) && k@
                    == self.fields@[self.next as int].0@)
            }
        } else if self.deleting || self.done > 0 {
            self.stage == WriterStage::Close(true) && a is Commit
        } else {
            self.stage == WriterStage::Close(false) && a is Rollback
        }
    }
}

/// The views of the rows.
pub open spec fn field_views(fields: Seq<(String, String)>) -> Seq<(Seq<char>, Seq<char>)> {
    fields.map_values(|p: (String, String)| (p.0@, p.1@))
}

fn advance(w: FieldWriter) -> (res: (FieldWriter, WriterAction))
    requires
        w.next <= w.fields@.len(),
        w.done <= w.next,
    ensures
        res.0.wf(),
        res.0.next_action_fits(res.1),
        field_views(res.0.fields@) == field_views(w.fields@),
        res.0.deleting == w.deleting,
        res.0.failure == w.failure,
        res.0.next == w.next,
        res.0.done == w.done,
{
    let FieldWriter { fields, deleting, failure, stage, next, done } = w;
    if next < fields.len() {
        let key = fields[next].0.clone();
        if deleting {
            (FieldWriter { fields, deleting, failure, stage: WriterStage::Delete, next, done }, WriterAction::Delete(key))
        } else {
            (FieldWriter { fields, deleting, failure, stage: WriterStage::Count, next, done }, WriterAction::CountRows(key))
        }
    } else if deleting || should_commit(done) {
        (FieldWriter { fields, deleting, failure, stage: WriterStage::Close(true), next, done }, WriterAction::Commit)
    } else {
        (FieldWriter { fields, deleting, failure, stage: WriterStage::Close(false), next, done }, WriterAction::Rollback)
    }
}

/// Starts writing `fields` (or, when `deleting`, deleting their keys) in one transaction.
/// Without the database, the series ends at once with `SQLite database not found`.
pub fn start_field_writes(fields: Vec<(String, String)>, deleting: bool, failure: String, db_exists: bool) -> (res: (
    FieldWriter,
    WriterAction,
))
    ensures
        res.0.wf(),
        field_views(res.0.fields@) == field_views(fields@),
        res.0.deleting == deleting,
        res.0.failure == failure,
        res.0.next == 0,
        res.0.done == 0,
        db_exists ==> res.0.stage == WriterStage::Begin && res.1 is Begin,
        !db_exists ==> res.0.stage == WriterStage::Finished && (res.1 matches WriterAction::Finish(Err(e))
            && e@ == "SQLite database not found"@),
{
    if db_exists {
        (FieldWriter { fields, deleting, failure, stage: WriterStage::Begin, next: 0, done: 0 }, WriterAction::Begin)
    } else {
        (
            FieldWriter { fields, deleting, failure, stage: WriterStage::Finished, next: 0, done: 0 },
            WriterAction::Finish(Err(String::from_str("SQLite database not found"))),
        )
    }
}

/// Takes the next step of a series of row writes, given what the caller reports.
///
/// - The transaction opened: the first row is visited. Opening failed: the series ends
///   with that error.
/// - The rows of a key were counted: an existing key is updated, a new one inserted.
///   Counting failed: the series ends with that error.
/// - A row was written (an update that changed a row, or an insert that succeeded, counts
///   as done) or a key deleted: the next row is visited.
/// - After the last row the transaction is committed when a write was done (always when
///   deleting), else rolled back.
/// - Committed: the series succeeds; rolled back: it fails with the writer's error. A
///   failing commit or rollback ends it with that error.
pub fn field_write_step(w: FieldWriter, event: WriterEvent) -> (res: (FieldWriter, WriterAction))
    requires
        w.wf(),
        writer_event_fits(w.stage, event),
    ensures
        field_views(res.0.fields@) == field_views(w.fields@),
        res.0.deleting == w.deleting,
        res.0.failure == w.failure,
        event matches WriterEvent::Begun(Ok(_)) ==> res.0.wf() && res.0.next == w.next && res.0.done == w.done
            && res.0.next_action_fits(res.1),
        event matches WriterEvent::Begun(Err(e)) ==> res.0.stage == WriterStage::Finished && (res.1 matches WriterAction::Finish(Err(m))
            && m == e),
        event matches WriterEvent::Counted(Ok(n)) ==> {
            let (key, value) = w.fields@[w.next as int];
            &&& res.0.wf()
            &&& res.0.next == w.next
            &&& res.0.done == w.done
            &&& if n > 0 {
                res.0.stage == WriterStage::Write(FieldWrite::Update) && (res.1 matches WriterAction::Update(k, v)
                    && k@ == key@ && v@ == value@)
            } else {
                res.0.stage == WriterStage::Write(FieldWrite::Insert) && (res.1 matches WriterAction::Insert(k, v)
                    && k@ == key@ && v@ == value@)
            }
        },
        event matches WriterEvent::Counted(Err(e)) ==> res.0.stage == WriterStage::Finished && (res.1 matches WriterAction::Finish(Err(m))
            && m == e),
        event matches WriterEvent::Written(r) ==> {
            let counted = match w.stage {
                WriterStage::Write(kind) => match r {
                    Ok(n) => kind == FieldWrite::Insert || n > 0,
                    Err(_) => false,
                },
                _ => false,
            };
            &&& res.0.wf()
            &&& res.0.next == w.next + 1
            &&& res.0.done == if counted { w.done + 1 } else { w.done as int }
            &&& res.0.next_action_fits(res.1)
        },
        event matches WriterEvent::Closed(r) ==> {
            &&& res.0.stage == WriterStage::Finished
            &&& res.1 matches WriterAction::Finish(out) && match r {
                Err(e) => out == Err::<(), String>(e),
                Ok(_) => if w.stage == WriterStage::Close(true) {
                    out is Ok
                } else {
                    out matches Err(m) && m == w.failure
                },
            }
        },
{
    match event {
        WriterEvent::Begun(r) => match r {
            Ok(_) => advance(w),
            Err(e) => {
                let FieldWriter { fields, deleting, failure, stage, next, done } = w;
                (FieldWriter { fields, deleting, failure, stage: WriterStage::Finished, next, done }, WriterAction::Finish(Err(e)))
            },
        },
        WriterEvent::Counted(r) => {
            let FieldWriter { fields, deleting, failure, stage, next, done } = w;
            match r {
                Ok(n) => {
                    let key = fields[next].0.clone();
                    let value = fields[next].1.clone();
                    let kind = write_for_count(n);
                    match kind {
                        FieldWrite::Update => (
                            FieldWriter { fields, deleting, failure, stage: WriterStage::Write(FieldWrite::Update), next, done },
                            WriterAction::Update(key, value),
                        ),
                        FieldWrite::Insert => (
                            FieldWriter { fields, deleting, failure, stage: WriterStage::Write(FieldWrite::Insert), next, done },
                            WriterAction::Insert(key, value),
                        ),
                    }
                },
                Err(e) => (
                    FieldWriter { fields, deleting, failure, stage: WriterStage::Finished, next, done },
                    WriterAction::Finish(Err(e)),
                ),
            }
        },
        WriterEvent::Written(r) => {
            let FieldWriter { fields, deleting, failure, stage, next, done } = w;
            let total = fields.len();
            assert(done <= next && next < total);
            let counted = match &stage {
                WriterStage::Write(kind) => field_written(kind, &r),
                _ => false,
            };
            let done = if counted {
                done + 1
            } else {
                done
            };
            advance(FieldWriter { fields, deleting, failure, stage, next: next + 1, done })
        },
        WriterEvent::Closed(r) => {
            let FieldWriter { fields, deleting, failure, stage, next, done } = w;
            let commit = match &stage {
                WriterStage::Close(c) => *c,
                _ => false,
            };
            let out = match r {
                Err(e) => Err(e),
                Ok(_) => if commit {
                    Ok(())
                } else {
                    Err(failure.clone())
                },
            };
            (FieldWriter { fields, deleting, failure, stage: WriterStage::Finished, next, done }, WriterAction::Finish(out))
        },
    }
}

} // verus!
