use crate::date::{today_utc, Date};
use crate::models::Vehicle;
use crate::parser::{describes_vehicle, parse_row, vehicle_from_row};
use crate::scoring::{calculate_lead_scores, lead_scores_of, LeadScores};
use vstd::prelude::*;
use vstd::string::*;

verus! {

/// Where an upload stands. `Completed` and `Error` are terminal.
#[derive(Clone, Copy, Debug, PartialEq, Eq, Structural)]
pub enum UploadStatus {
    Processing,
    Completed,
    Error,
}

impl UploadStatus {
    pub open spec fn text_spec(self) -> Seq<char> {
        match self {
            UploadStatus::Processing => "processing"@,
            UploadStatus::Completed => "completed"@,
            UploadStatus::Error => "error"@,
        }
    }

    /// The status as it is stored.
    pub fn as_text(&self) -> (r: String)
        ensures
            r@ == self.text_spec(),
    {
        match self {
            UploadStatus::Processing => String::from_str("processing"),
            UploadStatus::Completed => String::from_str("completed"),
            UploadStatus::Error => String::from_str("error"),
        }
    }

    pub fn is_terminal(&self) -> (r: bool)
        ensures
            r == !(*self is Processing),
    {
        !matches!(self, UploadStatus::Processing)
    }
}

/// An uploaded file and the outcome of its ingestion. `uploaded_at` is in
/// seconds since the Unix epoch.
#[derive(Clone, Debug)]
pub struct Upload {
    pub id: i32,
    pub dealer_id: i32,
    pub filename: String,
    pub file_path: String,
    pub uploaded_at: i64,
    pub status: UploadStatus,
    pub row_count: u32,
    pub processed_count: u32,
    pub error_message: Option<String>,
}

impl Upload {
    /// Counts stay zero until the job ends; a completed upload has processed
    /// no more rows than it read; a failed one carries a message.
    pub open spec fn wf(&self) -> bool {
        &&& self.processed_count <= self.row_count
        &&& self.status is Processing ==> self.row_count == 0 && self.error_message is None
        &&& self.status is Completed ==> self.error_message is None
        &&& self.status is Error ==> self.error_message is Some
    }

    /// `self` and `other` are the same upload, whatever their status.
    pub open spec fn same_file(&self, other: &Upload) -> bool {
        &&& self.id == other.id
        &&& self.dealer_id == other.dealer_id
        &&& self.filename == other.filename
        &&& self.file_path == other.file_path
        &&& self.uploaded_at == other.uploaded_at
    }

    /// A newly accepted upload, still being processed.
    pub fn new(id: i32, dealer_id: i32, filename: String, file_path: String, uploaded_at: i64) -> (r:
        Upload)
        ensures
            r.wf(),
            r.id == id,
            r.dealer_id == dealer_id,
            r.filename == filename,
            r.file_path == file_path,
            r.uploaded_at == uploaded_at,
            r.status is Processing,
            r.row_count == 0,
            r.processed_count == 0,
            r.error_message is None,
    {
        Upload {
            id,
            dealer_id,
            filename,
            file_path,
            uploaded_at,
            status: UploadStatus::Processing,
            row_count: 0,
            processed_count: 0,
            error_message: None,
        }
    }

    /// Marks a processing upload completed with its counts. Refused, leaving
    /// the upload as it is, when it is already terminal or the counts are
    /// inconsistent.
    pub fn complete(&mut self, row_count: u32, processed_count: u32) -> (r: bool)
        requires
            old(self).wf(),
        ensures
            final(self).wf(),
            r == (old(self).status is Processing && processed_count <= row_count),
            r ==> final(self).same_file(old(self)) && final(self).status is Completed
                && final(self).row_count == row_count && final(self).processed_count
                == processed_count && final(self).error_message is None,
            !r ==> *final(self) == *old(self),
    {
        if self.status.is_terminal() || processed_count > row_count {
            return false;
        }
        self.status = UploadStatus::Completed;
        self.row_count = row_count;
        self.processed_count = processed_count;
        true
    }

    /// Marks a processing upload failed with `message`. Refused, leaving the
    /// upload as it is, when it is already terminal.
    pub fn fail(&mut self, message: String) -> (r: bool)
        requires
            old(self).wf(),
        ensures
            final(self).wf(),
            r == old(self).status is Processing,
            r ==> final(self).same_file(old(self)) && final(self).status is Error
                && final(self).row_count == old(self).row_count && final(self).processed_count
                == old(self).processed_count && final(self).error_message == Some(message),
            !r ==> *final(self) == *old(self),
    {
        if self.status.is_terminal() {
            return false;
        }
        self.status = UploadStatus::Error;
        self.error_message = Some(message);
        true
    }
}

/// Where an ingestion job stands.
#[derive(Clone, Copy, Debug, PartialEq, Eq, Structural)]
pub enum JobPhase {
    /// Waiting for the next row of the file.
    AwaitingRow,
    /// Waiting for the current row's vehicle and scores to be stored.
    AwaitingStore,
    Completed,
    Failed,
}

/// What happened outside the job since its last step.
#[derive(Clone, Debug)]
pub enum JobEvent {
    /// The next row of the file, as its fields.
    Row(Vec<String>),
    /// The file, or its next row, could not be read.
    ReadFailed(String),
    /// The file holds no more rows.
    EndOfInput,
    /// The vehicle and its scores were stored.
    Stored,
    /// Storing the vehicle or its scores failed.
    StoreFailed(String),
}

/// What the job asks to be done next.
#[derive(Clone, Debug)]
pub enum JobAction {
    ReadNextRow,
    /// Store the vehicle, then its scores.
    Store(Vehicle, LeadScores),
    /// Mark the upload completed with these counts.
    Complete { row_count: u32, processed_count: u32 },
    /// Mark the upload failed with this message; no further row is read.
    Fail(String),
    /// The event does not apply in the job's current phase.
    Ignore,
}

/// The ingestion of one upload: reads rows in file order, scores each row
/// that describes a vehicle, and counts rows read and rows stored.
#[derive(Clone, Copy, Debug)]
pub struct IngestionJob {
    pub upload_id: i32,
    pub dealer_id: i32,
    /// The date against which every row is scored.
    pub today: Date,
    pub row_count: u32,
    pub processed_count: u32,
    pub phase: JobPhase,
}

impl IngestionJob {
    /// Every stored row was counted as read; while a row awaits storing it is
    /// counted as read and not yet as stored.
    pub open spec fn wf(self) -> bool {
        &&& self.today.wf()
        &&& self.processed_count <= self.row_count
        &&& self.phase is AwaitingStore ==> self.processed_count < self.row_count
    }

    pub open spec fn is_terminal(self) -> bool {
        self.phase is Completed || self.phase is Failed
    }

    /// A job for `upload_id` that has read nothing yet.
    pub fn new(upload_id: i32, dealer_id: i32, today: Date) -> (r: IngestionJob)
        requires
            today.wf(),
        ensures
            r.wf(),
            r.upload_id == upload_id,
            r.dealer_id == dealer_id,
            r.today == today,
            r.row_count == 0,
            r.processed_count == 0,
            r.phase is AwaitingRow,
    {
        IngestionJob {
            upload_id,
            dealer_id,
            today,
            row_count: 0,
            processed_count: 0,
            phase: JobPhase::AwaitingRow,
        }
    }

    /// A job for `upload_id` that scores its rows against today's date in UTC.
    pub fn start_today(upload_id: i32, dealer_id: i32) -> (r: IngestionJob)
        ensures
            r.wf(),
            r.upload_id == upload_id,
            r.dealer_id == dealer_id,
            r.row_count == 0,
            r.processed_count == 0,
            r.phase is AwaitingRow,
    {
        IngestionJob::new(upload_id, dealer_id, today_utc())
    }

    /// The job after `e`.
    pub open spec fn next(self, e: JobEvent) -> IngestionJob {
        match self.phase {
            JobPhase::AwaitingRow => match e {
                JobEvent::Row(f) => IngestionJob {
                    row_count: (self.row_count + 1) as u32,
                    phase: if describes_vehicle(f@) {
                        JobPhase::AwaitingStore
                    } else {
                        JobPhase::AwaitingRow
                    },
                    ..self
                },
                JobEvent::ReadFailed(_) => IngestionJob { phase: JobPhase::Failed, ..self },
                JobEvent::EndOfInput => IngestionJob { phase: JobPhase::Completed, ..self },
                _ => self,
            },
            JobPhase::AwaitingStore => match e {
                JobEvent::Stored => IngestionJob {
                    processed_count: (self.processed_count + 1) as u32,
                    phase: JobPhase::AwaitingRow,
                    ..self
                },
                JobEvent::StoreFailed(_) => IngestionJob { phase: JobPhase::Failed, ..self },
                _ => self,
            },
            _ => self,
        }
    }

    /// `a` is what the job asks for on `e`.
    pub open spec fn action_for(self, e: JobEvent, a: JobAction) -> bool {
        match self.phase {
            JobPhase::AwaitingRow => match e {
                JobEvent::Row(f) => if describes_vehicle(f@) {
                    a matches JobAction::Store(v, s) && vehicle_from_row(
                        f@,
                        self.upload_id,
                        self.dealer_id,
                        v,
                    ) && lead_scores_of(v, self.today, s)
                } else {
                    a is ReadNextRow
                },
                JobEvent::ReadFailed(m) => a == JobAction::Fail(m),
                JobEvent::EndOfInput => a == (JobAction::Complete {
                    row_count: self.row_count,
                    processed_count: self.processed_count,
                }),
                _ => a is Ignore,
            },
            JobPhase::AwaitingStore => match e {
                JobEvent::Stored => a is ReadNextRow,
                JobEvent::StoreFailed(m) => a == JobAction::Fail(m),
                _ => a is Ignore,
            },
            _ => a is Ignore,
        }
    }

    /// Takes one event and says what to do next. Rows are taken in file
    /// order; every row read is counted, and a row is counted as processed
    /// once it was stored. A read or store failure ends the job, and a job
    /// that has ended ignores every further event.
    pub fn step(&mut self, e: JobEvent) -> (a: JobAction)
        requires
            old(self).wf(),
            old(self).row_count < u32::MAX,
        ensures
            final(self).wf(),
            *final(self) == old(self).next(e),
            old(self).action_for(e, a),
            a matches JobAction::Complete { row_count, processed_count } ==> processed_count
                <= row_count,
    {
        match self.phase {
            JobPhase::AwaitingRow => match e {
                JobEvent::Row(fields) => {
                    self.row_count = self.row_count + 1;
                    match parse_row(&fields, self.upload_id, self.dealer_id) {
                        Ok(v) => {
                            let scores = calculate_lead_scores(&v, self.today);
                            self.phase = JobPhase::AwaitingStore;
                            JobAction::Store(v, scores)
                        },
                        Err(_) => JobAction::ReadNextRow,
                    }
                },
                JobEvent::ReadFailed(m) => {
                    self.phase = JobPhase::Failed;
                    JobAction::Fail(m)
                },
                JobEvent::EndOfInput => {
                    self.phase = JobPhase::Completed;
                    JobAction::Complete {
                        row_count: self.row_count,
                        processed_count: self.processed_count,
                    }
                },
                _ => JobAction::Ignore,
            },
            JobPhase::AwaitingStore => match e {
                JobEvent::Stored => {
                    self.processed_count = self.processed_count + 1;
                    self.phase = JobPhase::AwaitingRow;
                    JobAction::ReadNextRow
                },
                JobEvent::StoreFailed(m) => {
                    self.phase = JobPhase::Failed;
                    JobAction::Fail(m)
                },
                _ => JobAction::Ignore,
            },
            _ => JobAction::Ignore,
        }
    }
}

/// The job after each of `events` in turn.
pub open spec fn run_job(j: IngestionJob, events: Seq<JobEvent>) -> IngestionJob
    decreases events.len(),
{
    if events.len() == 0 {
        j
    } else {
        run_job(j.next(events[0]), events.subrange(1, events.len() as int))
    }
}

/// The events that hand the rows `rows` to a job, in order, then the end of
/// the input.
pub open spec fn file_events(rows: Seq<Vec<String>>) -> Seq<JobEvent> {
    rows.map_values(|f: Vec<String>| JobEvent::Row(f)).push(JobEvent::EndOfInput)
}

/// A job that has ended stays as it is, whatever comes after.
pub proof fn lemma_ended_job_stays(j: IngestionJob, events: Seq<JobEvent>)
    requires
        j.is_terminal(),
    ensures
        run_job(j, events) == j,
    decreases events.len(),
{
    if events.len() > 0 {
        lemma_ended_job_stays(j.next(events[0]), events.subrange(1, events.len() as int));
    }
}

proof fn lemma_skipped_rows_complete(j: IngestionJob, rows: Seq<Vec<String>>)
    requires
        j.phase is AwaitingRow,
        j.row_count + rows.len() < u32::MAX,
        forall|i: int| 0 <= i < rows.len() ==> !describes_vehicle(#[trigger] rows[i]@),
    ensures
        run_job(j, file_events(rows)) == (IngestionJob {
            row_count: (j.row_count + rows.len()) as u32,
            phase: JobPhase::Completed,
            ..j
        }),
    decreases rows.len(),
{
    let events = file_events(rows);
    if rows.len() > 0 {
        let rest = rows.subrange(1, rows.len() as int);
        let j1 = j.next(events[0]);
        assert(events.subrange(1, events.len() as int) =~= file_events(rest));
        lemma_skipped_rows_complete(j1, rest);
    } else {
        let end = IngestionJob { phase: JobPhase::Completed, ..j };
        assert(events.subrange(1, events.len() as int) =~= Seq::<JobEvent>::empty());
        assert(run_job(end, Seq::<JobEvent>::empty()) == end);
    }
}

/// A file whose rows all hold too few populated fields completes with every row
/// counted as read and none as processed.
pub proof fn lemma_file_of_skipped_rows_completes(
    upload_id: i32,
    dealer_id: i32,
    today: Date,
    rows: Seq<Vec<String>>,
)
    requires
        today.wf(),
        rows.len() < u32::MAX,
        forall|i: int| 0 <= i < rows.len() ==> !describes_vehicle(#[trigger] rows[i]@),
    ensures
        ({
            let start = IngestionJob {
                upload_id,
                dealer_id,
                today,
                row_count: 0,
                processed_count: 0,
                phase: JobPhase::AwaitingRow,
            };
            let end = run_job(start, file_events(rows));
            end.phase is Completed && end.row_count == rows.len() && end.processed_count == 0
        }),
{
    let start = IngestionJob {
        upload_id,
        dealer_id,
        today,
        row_count: 0,
        processed_count: 0,
        phase: JobPhase::AwaitingRow,
    };
    lemma_skipped_rows_complete(start, rows);
}

/// How many of `rows` hold enough populated fields to describe a vehicle.
pub open spec fn well_formed_count(rows: Seq<Vec<String>>) -> nat
    decreases rows.len(),
{
    if rows.len() == 0 {
        0
    } else {
        well_formed_count(rows.drop_last()) + if describes_vehicle(rows.last()@) {
            1nat
        } else {
            0nat
        }
    }
}

/// The events of one row whose vehicle, if it has one, is stored.
pub open spec fn stored_row_events(f: Vec<String>) -> Seq<JobEvent> {
    if describes_vehicle(f@) {
        seq![JobEvent::Row(f), JobEvent::Stored]
    } else {
        seq![JobEvent::Row(f)]
    }
}

/// The events of `rows` in order, each vehicle being stored.
pub open spec fn stored_rows_events(rows: Seq<Vec<String>>) -> Seq<JobEvent>
    decreases rows.len(),
{
    if rows.len() == 0 {
        Seq::empty()
    } else {
        stored_rows_events(rows.drop_last()) + stored_row_events(rows.last())
    }
}

proof fn lemma_run_concat(j: IngestionJob, a: Seq<JobEvent>, b: Seq<JobEvent>)
    ensures
        run_job(j, a + b) == run_job(run_job(j, a), b),
    decreases a.len(),
{
    if a.len() > 0 {
        assert((a + b).subrange(1, (a + b).len() as int) =~= a.subrange(1, a.len() as int) + b);
        assert((a + b)[0] == a[0]);
        lemma_run_concat(j.next(a[0]), a.subrange(1, a.len() as int), b);
    } else {
        assert(a + b =~= b);
    }
}

proof fn lemma_rows_stored(j: IngestionJob, rows: Seq<Vec<String>>)
    requires
        j.phase is AwaitingRow,
        j.processed_count <= j.row_count,
        j.row_count + rows.len() < u32::MAX,
    ensures
        run_job(j, stored_rows_events(rows)) == (IngestionJob {
            row_count: (j.row_count + rows.len()) as u32,
            processed_count: (j.processed_count + well_formed_count(rows)) as u32,
            ..j
        }),
        well_formed_count(rows) <= rows.len(),
    decreases rows.len(),
{
    if rows.len() == 0 {
        assert(run_job(j, Seq::<JobEvent>::empty()) == j);
    } else {
        let init = rows.drop_last();
        let f = rows.last();
        lemma_rows_stored(j, init);
        let mid = run_job(j, stored_rows_events(init));
        lemma_run_concat(j, stored_rows_events(init), stored_row_events(f));
        let ev = stored_row_events(f);
        assert(stored_rows_events(rows) == stored_rows_events(init) + ev);
        assert(well_formed_count(rows) == well_formed_count(init) + if describes_vehicle(f@) {
            1nat
        } else {
            0nat
        });
        let m1 = mid.next(ev[0]);
        assert(ev[0] == JobEvent::Row(f));
        assert(run_job(mid, ev) == run_job(m1, ev.subrange(1, ev.len() as int)));
        if describes_vehicle(f@) {
            assert(ev.subrange(1, ev.len() as int) =~= seq![JobEvent::Stored]);
            assert(seq![JobEvent::Stored].subrange(1, 1) =~= Seq::<JobEvent>::empty());
            assert(run_job(m1.next(JobEvent::Stored), Seq::<JobEvent>::empty()) == m1.next(
                JobEvent::Stored,
            ));
        } else {
            assert(ev.subrange(1, ev.len() as int) =~= Seq::<JobEvent>::empty());
            assert(run_job(m1, Seq::<JobEvent>::empty()) == m1);
        }
    }
}

/// When every vehicle is stored, a file's job completes with every row
/// counted as read and exactly the rows with enough populated fields counted as
/// processed.
pub proof fn lemma_file_completes_when_stores_succeed(
    upload_id: i32,
    dealer_id: i32,
    today: Date,
    rows: Seq<Vec<String>>,
)
    requires
        today.wf(),
        rows.len() < u32::MAX,
    ensures
        ({
            let start = IngestionJob {
                upload_id,
                dealer_id,
                today,
                row_count: 0,
                processed_count: 0,
                phase: JobPhase::AwaitingRow,
            };
            let end = run_job(start, stored_rows_events(rows).push(JobEvent::EndOfInput));
            end.phase is Completed && end.row_count == rows.len() && end.processed_count
                == well_formed_count(rows)
        }),
{
    let start = IngestionJob {
        upload_id,
        dealer_id,
        today,
        row_count: 0,
        processed_count: 0,
        phase: JobPhase::AwaitingRow,
    };
    let body = stored_rows_events(rows);
    lemma_rows_stored(start, rows);
    lemma_run_concat(start, body, seq![JobEvent::EndOfInput]);
    assert(body.push(JobEvent::EndOfInput) =~= body + seq![JobEvent::EndOfInput]);
    let mid = run_job(start, body);
    assert(seq![JobEvent::EndOfInput].subrange(1, 1) =~= Seq::<JobEvent>::empty());
    assert(run_job(mid.next(JobEvent::EndOfInput), Seq::<JobEvent>::empty()) == mid.next(
        JobEvent::EndOfInput,
    ));
}

} // verus!
