//! Reports: one for each run of a job, and what a request does to one.
//!
//! A report is created by a request that says that the run started.  While it
//! is open, records of output are added to it.  A request that says that the
//! run finished seals it, and it does not change after that.
//!
//! The type of an output record is a parameter, `R`: a report compares records
//! with one another, and otherwise only keeps them.

use vstd::prelude::*;
use vstd::std_specs::cmp::PartialEqSpec;

use crate::failure;
use crate::failure::{HttpFailure, HttpFailureView};

verus! {

/// A moment, in UTC, as the time since the start of 1970.
#[derive(Clone, Copy, Debug, PartialEq, Eq, Structural)]
pub struct Timestamp {
    /// Whole seconds, negative before 1970.
    pub seconds: i64,
    /// The nanoseconds on top of the seconds, which exceed a full second during
    /// a leap second.
    pub nanos: u32,
}

/// Calls `chrono::Utc::now`, and takes its result apart with `timestamp` and
/// `timestamp_subsec_nanos`.  Nothing is claimed of the moment itself but that
/// it is not before 1970 and in no leap second.  `Utc::now` panics where the
/// system's clock is set before 1970.
#[verifier::external_body]
pub(crate) fn current_time() -> (now: Timestamp)
    ensures
        now.seconds >= 0,
        now.nanos < 1_000_000_000,
{
    let now = chrono::Utc::now();
    Timestamp { seconds: now.timestamp(), nanos: now.timestamp_subsec_nanos() }
}

/// Which report a request is about, and who sends it.
#[derive(Debug)]
pub struct ReportId {
    pub host: String,
    pub job: String,
    pub pid: u64,
    pub time: Timestamp,
    pub uuid: String,
}

/// What a [`ReportId`] holds.
pub struct ReportIdView {
    pub host: Seq<char>,
    pub job: Seq<char>,
    pub pid: u64,
    pub time: Timestamp,
    pub uuid: Seq<char>,
}

impl View for ReportId {
    type V = ReportIdView;

    open spec fn view(&self) -> ReportIdView {
        ReportIdView {
            host: self.host@,
            job: self.job@,
            pid: self.pid,
            time: self.time,
            uuid: self.uuid@,
        }
    }
}

/// Where the report store keeps a report.
#[derive(Debug)]
pub struct ReportKey {
    pub host: String,
    pub job: String,
    pub time: Timestamp,
}

/// What a [`ReportKey`] holds.
pub struct ReportKeyView {
    pub host: Seq<char>,
    pub job: Seq<char>,
    pub time: Timestamp,
}

impl View for ReportKey {
    type V = ReportKeyView;

    open spec fn view(&self) -> ReportKeyView {
        ReportKeyView { host: self.host@, job: self.job@, time: self.time }
    }
}

impl ReportIdView {
    /// Where the report of this request is kept.
    pub open spec fn key(self) -> ReportKeyView {
        ReportKeyView { host: self.host, job: self.job, time: self.time }
    }
}

impl ReportId {
    /// Where the report of this request is kept.
    pub fn key(&self) -> (key: ReportKey)
        ensures
            key@ == self@.key(),
            key.host@ == self.host@,
            key.job@ == self.job@,
            key.time == self.time,
    {
        ReportKey { host: self.host.clone(), job: self.job.clone(), time: self.time }
    }
}

/// A request that says that a run started.
#[derive(Debug)]
pub struct ReportStartBody {
    pub id: ReportId,
    pub start_time: Timestamp,
    pub script: String,
}

/// A request that holds a record of a run's output.
#[derive(Debug)]
pub struct ReportOutputBody<R> {
    pub id: ReportId,
    pub record: R,
}

/// A request that says that a run finished.
#[derive(Debug)]
pub struct ReportFinishBody {
    pub id: ReportId,
    pub end_time: Timestamp,
    pub duration_millis: i32,
    pub exit_status: i32,
}

/// A request about a report.
#[derive(Debug)]
pub enum ReportBody<R> {
    Start(ReportStartBody),
    Output(ReportOutputBody<R>),
    Finish(ReportFinishBody),
}

/// What a request about a report asks for.
pub enum ReportOp<R> {
    Start { start_time: Timestamp, script: Seq<char> },
    Output { record: R },
    Finish { end_time: Timestamp, duration_millis: i32, exit_status: i32 },
}

/// What a [`ReportBody`] holds.
pub struct ReportBodyView<R> {
    pub id: ReportIdView,
    pub op: ReportOp<R>,
}

impl<R> View for ReportBody<R> {
    type V = ReportBodyView<R>;

    open spec fn view(&self) -> ReportBodyView<R> {
        match self {
            ReportBody::Start(body) => ReportBodyView {
                id: body.id@,
                op: ReportOp::Start { start_time: body.start_time, script: body.script@ },
            },
            ReportBody::Output(body) => ReportBodyView {
                id: body.id@,
                op: ReportOp::Output { record: body.record },
            },
            ReportBody::Finish(body) => ReportBodyView {
                id: body.id@,
                op: ReportOp::Finish {
                    end_time: body.end_time,
                    duration_millis: body.duration_millis,
                    exit_status: body.exit_status,
                },
            },
        }
    }
}

impl<R> ReportBody<R> {
    /// Which report the request is about.
    pub fn id(&self) -> (id: &ReportId)
        ensures
            id@ == self@.id,
            match *self {
                ReportBody::Start(body) => *id == body.id,
                ReportBody::Output(body) => *id == body.id,
                ReportBody::Finish(body) => *id == body.id,
            },
    {
        match self {
            ReportBody::Start(body) => &body.id,
            ReportBody::Output(body) => &body.id,
            ReportBody::Finish(body) => &body.id,
        }
    }
}

/// A report, as the report store keeps it.
#[derive(Debug)]
pub struct PostFile<R> {
    /// Whether the run is over, so that the report changes no more.
    pub sealed: bool,
    /// Chosen by the client, to tell two runs at one time apart.
    pub report_uuid: String,
    /// When the report was created.
    pub report_time: Timestamp,
    pub report_pid: u64,
    pub time_start: Timestamp,
    pub time_end: Option<Timestamp>,
    /// In milliseconds.
    pub duration: Option<u64>,
    pub status: Option<i32>,
    pub output: Vec<R>,
    pub script: String,
}

/// What a [`PostFile`] holds.
pub struct PostFileView<R> {
    pub sealed: bool,
    pub report_uuid: Seq<char>,
    pub report_time: Timestamp,
    pub report_pid: u64,
    pub time_start: Timestamp,
    pub time_end: Option<Timestamp>,
    pub duration: Option<u64>,
    pub status: Option<i32>,
    pub output: Seq<R>,
    pub script: Seq<char>,
}

impl<R> View for PostFile<R> {
    type V = PostFileView<R>;

    open spec fn view(&self) -> PostFileView<R> {
        PostFileView {
            sealed: self.sealed,
            report_uuid: self.report_uuid@,
            report_time: self.report_time,
            report_pid: self.report_pid,
            time_start: self.time_start,
            time_end: self.time_end,
            duration: self.duration,
            status: self.status,
            output: self.output@,
            script: self.script@,
        }
    }
}

/// The answer to a request about a report.
#[derive(Clone, Copy, Debug, PartialEq, Eq, Structural)]
pub struct ReportResult {
    /// Whether the report already held what the request says.
    pub existed_already: bool,
}

/// What an answer holds.
pub open spec fn reply_view(reply: Result<ReportResult, HttpFailure>) -> Result<
    ReportResult,
    HttpFailureView,
> {
    match reply {
        Ok(result) => Ok(result),
        Err(failure) => Err(failure@),
    }
}

/// What is to be done about a request, once the report is at hand: answer it,
/// or store a new version of the report first.
#[derive(Debug)]
pub enum Decision<R> {
    Reply(Result<ReportResult, HttpFailure>),
    Store(PostFile<R>),
}

/// What a [`Decision`] holds.
pub enum DecisionView<R> {
    Reply(Result<ReportResult, HttpFailureView>),
    Store(PostFileView<R>),
}

impl<R> View for Decision<R> {
    type V = DecisionView<R>;

    open spec fn view(&self) -> DecisionView<R> {
        match self {
            Decision::Reply(reply) => DecisionView::Reply(reply_view(*reply)),
            Decision::Store(file) => DecisionView::Store(file@),
        }
    }
}

/// The view of a report that may be there.
pub open spec fn found_view<R>(found: Option<PostFile<R>>) -> Option<PostFileView<R>> {
    match found {
        Some(file) => Some(file@),
        None => None,
    }
}

/// The request belongs to another run than the report.
pub open spec fn another_run() -> HttpFailureView {
    failure::client_failure(
        failure::CONFLICT,
        "this time already submitted, with different UUID"@,
    )
}

/// The request comes after the end of the run.
pub open spec fn already_complete() -> HttpFailureView {
    failure::client_failure(failure::CONFLICT, "this job is already complete"@)
}

/// The request comes before the start of the run.
pub open spec fn no_such_job() -> HttpFailureView {
    failure::client_failure(failure::BAD_REQUEST, "this job does not exist"@)
}

/// Whether a record equal to `record` is among `output`.
pub open spec fn recorded<R: PartialEq>(output: Seq<R>, record: R) -> bool {
    exists|i: int| 0 <= i < output.len() && (#[trigger] output[i]).eq_spec(&record)
}

/// A number of milliseconds as it is kept in a report: one below zero wraps
/// round to the top of the range.
pub open spec fn kept_duration(duration_millis: i32) -> u64 {
    if duration_millis >= 0 {
        duration_millis as u64
    } else {
        (duration_millis + 0x1_0000_0000_0000_0000) as u64
    }
}

/// The report that a run starts with.
pub open spec fn started<R>(
    id: ReportIdView,
    start_time: Timestamp,
    script: Seq<char>,
    now: Timestamp,
) -> PostFileView<R> {
    PostFileView {
        sealed: false,
        report_uuid: id.uuid,
        report_time: now,
        report_pid: id.pid,
        time_start: start_time,
        time_end: None,
        duration: None,
        status: None,
        output: Seq::empty(),
        script,
    }
}

impl<R> PostFileView<R> {
    /// The report with a record of output added.
    pub open spec fn with_output(self, record: R) -> PostFileView<R> {
        PostFileView { output: self.output.push(record), ..self }
    }

    /// The report with the end of the run noted.
    pub open spec fn finished(
        self,
        end_time: Timestamp,
        duration_millis: i32,
        exit_status: i32,
    ) -> PostFileView<R> {
        PostFileView {
            sealed: true,
            time_end: Some(end_time),
            duration: Some(kept_duration(duration_millis)),
            status: Some(exit_status),
            ..self
        }
    }
}

/// What a request does, given the report that is there, if one is, whether the
/// record that the request brings is `present` in it, and the current time.
pub open spec fn decision<R>(
    body: ReportBodyView<R>,
    found: Option<PostFileView<R>>,
    present: bool,
    now: Timestamp,
) -> DecisionView<R> {
    let existed = DecisionView::Reply(Ok(ReportResult { existed_already: true }));
    match (found, body.op) {
        (None, ReportOp::Start { start_time, script }) => DecisionView::Store(
            started(body.id, start_time, script, now),
        ),
        (None, _) => DecisionView::Reply(Err(no_such_job())),
        (Some(file), op) => if body.id.uuid != file.report_uuid {
            DecisionView::Reply(Err(another_run()))
        } else {
            match op {
                ReportOp::Finish { end_time, duration_millis, exit_status } => if file.sealed {
                    existed
                } else {
                    DecisionView::Store(file.finished(end_time, duration_millis, exit_status))
                },
                _ if file.sealed => DecisionView::Reply(Err(already_complete())),
                ReportOp::Start { .. } => existed,
                ReportOp::Output { record } => if present {
                    existed
                } else {
                    DecisionView::Store(file.with_output(record))
                },
            }
        },
    }
}

/// Whether the `==` of the type of records can say `equal` of two records.
pub open spec fn compares<R: PartialEq>(a: R, b: R, equal: bool) -> bool {
    call_ensures(R::eq, (&a, &b), equal)
}

/// Whether comparing the records of output with `record`, one by one, can find
/// it among them, or can fail to.
pub open spec fn finds<R: PartialEq>(output: Seq<R>, record: R, present: bool) -> bool {
    if present {
        exists|i: int| 0 <= i < output.len() && #[trigger] compares(output[i], record, true)
    } else {
        forall|i: int| 0 <= i < output.len() ==> #[trigger] compares(output[i], record, false)
    }
}

/// Whether the comparison of records can find, or can fail to find, the record
/// that a request brings in the report that is there.  Records are compared where
/// the report is open and of the same run; elsewhere nothing is found.
pub open spec fn can_find<R: PartialEq>(
    found: Option<PostFileView<R>>,
    body: ReportBodyView<R>,
    present: bool,
) -> bool {
    match (found, body.op) {
        (Some(file), ReportOp::Output { record }) if body.id.uuid == file.report_uuid
            && !file.sealed => finds(file.output, record, present),
        _ => !present,
    }
}

/// Whether `d` is what a request does, given what the comparison of records
/// finds.
pub open spec fn decides<R: PartialEq>(
    d: DecisionView<R>,
    body: ReportBodyView<R>,
    found: Option<PostFileView<R>>,
    now: Timestamp,
) -> bool {
    ||| can_find(found, body, true) && d == decision(body, found, true, now)
    ||| can_find(found, body, false) && d == decision(body, found, false, now)
}

/// Whether a record equal to `record` is among `output`.
fn is_recorded<R: PartialEq>(output: &Vec<R>, record: &R) -> (r: bool)
    ensures
        finds(output@, *record, r),
{
    let mut i: usize = 0;
    while i < output.len()
        invariant
            i <= output@.len(),
            forall|j: int| 0 <= j < i ==> #[trigger] compares(output@[j], *record, false),
        decreases output@.len() - i,
    {
        if output[i] == *record {
            assert(compares(output@[i as int], *record, true));
            return true;
        }
        assert(compares(output@[i as int], *record, false));
        i = i + 1;
    }
    false
}

fn existed<R>() -> (decision: Decision<R>)
    ensures
        decision@ == DecisionView::<R>::Reply(Ok(ReportResult { existed_already: true })),
{
    Decision::Reply(Ok(ReportResult { existed_already: true }))
}

fn conflict<R>(message: &str) -> (decision: Decision<R>)
    ensures
        decision@ == DecisionView::<R>::Reply(
            Err(failure::client_failure(failure::CONFLICT, message@)),
        ),
{
    Decision::Reply(Err(failure::client_error(failure::CONFLICT, message)))
}

fn unknown_job<R>() -> (decision: Decision<R>)
    ensures
        decision@ == DecisionView::<R>::Reply(Err(no_such_job())),
{
    Decision::Reply(Err(failure::client_error(failure::BAD_REQUEST, "this job does not exist")))
}

impl ReportStartBody {
    /// Decides on the start of a run: a report that is not there yet is
    /// created.
    pub fn decide<R>(self, found: Option<PostFile<R>>, now: Timestamp) -> (r: Decision<R>)
        ensures
            r@ == decision(ReportBody::<R>::Start(self)@, found_view(found), false, now),
            match found {
                None => {
                    &&& r matches Decision::Store(file)
                    &&& !file.sealed
                    &&& file.report_uuid == self.id.uuid
                    &&& file.report_time == now
                    &&& file.report_pid == self.id.pid
                    &&& file.time_start == self.start_time
                    &&& file.time_end is None && file.duration is None && file.status is None
                    &&& file.output@.len() == 0
                    &&& file.script == self.script
                },
                Some(file) => if self.id.uuid@ != file.report_uuid@ {
                    r matches Decision::Reply(Err(failure)) && {
                        &&& failure.status_code == 409
                        &&& failure.error_code is None
                        &&& failure.external_message@
                            == "this time already submitted, with different UUID"@
                        &&& failure.internal_message@
                            == "this time already submitted, with different UUID"@
                    }
                } else if file.sealed {
                    r matches Decision::Reply(Err(failure)) && {
                        &&& failure.status_code == 409
                        &&& failure.error_code is None
                        &&& failure.external_message@ == "this job is already complete"@
                        &&& failure.internal_message@ == "this job is already complete"@
                    }
                } else {
                    r matches Decision::Reply(Ok(result)) && result.existed_already
                },
            },
    {
        match found {
            Some(file) => {
                if self.id.uuid != file.report_uuid {
                    conflict("this time already submitted, with different UUID")
                } else if file.sealed {
                    conflict("this job is already complete")
                } else {
                    existed()
                }
            },
            None => Decision::Store(
                PostFile {
                    sealed: false,
                    report_uuid: self.id.uuid,
                    report_time: now,
                    report_pid: self.id.pid,
                    time_start: self.start_time,
                    time_end: None,
                    duration: None,
                    status: None,
                    output: Vec::new(),
                    script: self.script,
                },
            ),
        }
    }
}

impl<R: PartialEq> ReportOutputBody<R> {
    /// Decides on a record of output: one that the report does not hold yet is
    /// added to it.
    pub fn decide(self, found: Option<PostFile<R>>) -> (r: Decision<R>)
        ensures
            forall|now: Timestamp| #[trigger]
                decides(r@, ReportBody::Output(self)@, found_view(found), now),
            match found {
                None => r matches Decision::Reply(Err(failure)) && {
                    &&& failure.status_code == 400
                    &&& failure.error_code is None
                    &&& failure.external_message@ == "this job does not exist"@
                    &&& failure.internal_message@ == "this job does not exist"@
                },
                Some(file) => if self.id.uuid@ != file.report_uuid@ {
                    r matches Decision::Reply(Err(failure)) && {
                        &&& failure.status_code == 409
                        &&& failure.error_code is None
                        &&& failure.external_message@
                            == "this time already submitted, with different UUID"@
                        &&& failure.internal_message@
                            == "this time already submitted, with different UUID"@
                    }
                } else if file.sealed {
                    r matches Decision::Reply(Err(failure)) && {
                        &&& failure.status_code == 409
                        &&& failure.error_code is None
                        &&& failure.external_message@ == "this job is already complete"@
                        &&& failure.internal_message@ == "this job is already complete"@
                    }
                } else {
                    match r {
                        Decision::Store(stored) => {
                            &&& forall|i: int|
                                0 <= i < file.output@.len() ==> call_ensures(
                                    R::eq,
                                    (&#[trigger] file.output@[i], &self.record),
                                    false,
                                )
                            &&& stored.output@ == file.output@.push(self.record)
                            &&& stored.sealed == file.sealed
                            &&& stored.report_uuid == file.report_uuid
                            &&& stored.report_time == file.report_time
                            &&& stored.report_pid == file.report_pid
                            &&& stored.time_start == file.time_start
                            &&& stored.time_end == file.time_end
                            &&& stored.duration == file.duration
                            &&& stored.status == file.status
                            &&& stored.script == file.script
                        },
                        Decision::Reply(Ok(result)) => {
                            &&& result.existed_already
                            &&& exists|i: int|
                                0 <= i < file.output@.len() && call_ensures(
                                    R::eq,
                                    (&#[trigger] file.output@[i], &self.record),
                                    true,
                                )
                        },
                        Decision::Reply(Err(_)) => false,
                    }
                },
            },
    {
        match found {
            Some(mut file) => {
                let ghost output = file.output@;
                if self.id.uuid != file.report_uuid {
                    conflict("this time already submitted, with different UUID")
                } else if file.sealed {
                    conflict("this job is already complete")
                } else if is_recorded(&file.output, &self.record) {
                    existed()
                } else {
                    assert forall|i: int| 0 <= i < output.len() implies call_ensures(
                        R::eq,
                        (&#[trigger] output[i], &self.record),
                        false,
                    ) by {
                        assert(compares(output[i], self.record, false));
                    }
                    file.output.push(self.record);
                    Decision::Store(file)
                }
            },
            None => unknown_job(),
        }
    }
}

/// The number that is kept in a report for a number of milliseconds.
fn keep_duration(duration_millis: i32) -> (duration: u64)
    ensures
        duration == kept_duration(duration_millis),
{
    proof {
        assert(duration_millis < 0 ==> duration_millis as u64 == (duration_millis
            + 0x1_0000_0000_0000_0000) as u64) by (bit_vector);
    }
    #[verifier::truncate]
    (duration_millis as u64)
}

impl ReportFinishBody {
    /// Decides on the end of a run: a report that is open is sealed.
    pub fn decide<R>(self, found: Option<PostFile<R>>) -> (r: Decision<R>)
        ensures
            forall|now: Timestamp|
                r@ == #[trigger] decision(
                    ReportBody::<R>::Finish(self)@,
                    found_view(found),
                    false,
                    now,
                ),
            match found {
                None => r matches Decision::Reply(Err(failure)) && {
                    &&& failure.status_code == 400
                    &&& failure.error_code is None
                    &&& failure.external_message@ == "this job does not exist"@
                    &&& failure.internal_message@ == "this job does not exist"@
                },
                Some(file) => if self.id.uuid@ != file.report_uuid@ {
                    r matches Decision::Reply(Err(failure)) && {
                        &&& failure.status_code == 409
                        &&& failure.error_code is None
                        &&& failure.external_message@
                            == "this time already submitted, with different UUID"@
                        &&& failure.internal_message@
                            == "this time already submitted, with different UUID"@
                    }
                } else if file.sealed {
                    r matches Decision::Reply(Ok(result)) && result.existed_already
                } else {
                    r matches Decision::Store(stored) && {
                        &&& stored.sealed
                        &&& stored.time_end == Some(self.end_time)
                        &&& stored.duration matches Some(duration) && duration as int == if 0
                            <= self.duration_millis {
                            self.duration_millis as int
                        } else {
                            self.duration_millis + 0x1_0000_0000_0000_0000
                        }
                        &&& stored.status == Some(self.exit_status)
                        &&& stored.report_uuid == file.report_uuid
                        &&& stored.report_time == file.report_time
                        &&& stored.report_pid == file.report_pid
                        &&& stored.time_start == file.time_start
                        &&& stored.output@ == file.output@
                        &&& stored.script == file.script
                    }
                },
            },
    {
        match found {
            Some(mut file) => {
                if self.id.uuid != file.report_uuid {
                    conflict("this time already submitted, with different UUID")
                } else if file.sealed {
                    existed()
                } else {
                    file.duration = Some(keep_duration(self.duration_millis));
                    file.time_end = Some(self.end_time);
                    file.status = Some(self.exit_status);
                    file.sealed = true;
                    Decision::Store(file)
                }
            },
            None => unknown_job(),
        }
    }
}

} // verus!
