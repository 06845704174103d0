//! The course of a request about a report, from its headers to its answer.
//!
//! A request goes through stages.  At each, something outside is asked: the key
//! store about a key, the rules for names about a name, the report store for a
//! report or to keep one.  [`Step`] says which, and holds what is needed to go
//! on: `resume` takes the answer and gives the next step.

use hyper::header::{HeaderMap, HeaderValue};
use vstd::prelude::*;
use vstd::string::*;

use crate::auth;
use crate::auth::{Auth, AuthView};
use crate::failure;
use crate::failure::{HttpFailure, HttpFailureView};
use crate::report;
use crate::report::{
    Decision, DecisionView, PostFile, PostFileView, ReportBody, ReportBodyView, ReportFinishBody,
    ReportKey, ReportKeyView, ReportOutputBody, ReportResult, ReportStartBody, Timestamp,
};

verus! {

/// What a request waits for, or the answer to it.
#[derive(Debug)]
pub enum Step<R> {
    /// Look a key up in the key store.
    CheckKey(AwaitingKey<R>),
    /// See whether a name is an acceptable name for a job.
    CheckName(AwaitingName<R>),
    /// Fetch a report from the report store.
    Load(AwaitingLoad<R>),
    /// Put a report into the report store, in place of what is there.
    Store(AwaitingStore<R>),
    /// The request is over.
    Reply(Result<ReportResult, HttpFailure>),
}

/// A request whose key is to be looked up.
#[derive(Debug)]
pub struct AwaitingKey<R> {
    pub key: String,
    pub body: ReportBody<R>,
}

/// A request whose job's name is to be checked.
#[derive(Debug)]
pub struct AwaitingName<R> {
    pub name: String,
    pub body: ReportBody<R>,
}

/// A request whose report is to be fetched.
#[derive(Debug)]
pub struct AwaitingLoad<R> {
    pub key: ReportKey,
    pub body: ReportBody<R>,
}

/// A request with a report to be stored.
#[derive(Debug)]
pub struct AwaitingStore<R> {
    pub key: ReportKey,
    pub file: PostFile<R>,
}

/// What a [`Step`] holds.
pub enum StepView<R> {
    CheckKey { presented: Seq<char>, body: ReportBodyView<R> },
    CheckName { name: Seq<char>, body: ReportBodyView<R> },
    Load { key: ReportKeyView, body: ReportBodyView<R> },
    Store { key: ReportKeyView, file: PostFileView<R> },
    Reply(Result<ReportResult, HttpFailureView>),
}

impl<R> View for Step<R> {
    type V = StepView<R>;

    open spec fn view(&self) -> StepView<R> {
        match self {
            Step::CheckKey(waiting) => StepView::CheckKey {
                presented: waiting.key@,
                body: waiting.body@,
            },
            Step::CheckName(waiting) => StepView::CheckName {
                name: waiting.name@,
                body: waiting.body@,
            },
            Step::Load(waiting) => StepView::Load { key: waiting.key@, body: waiting.body@ },
            Step::Store(waiting) => StepView::Store { key: waiting.key@, file: waiting.file@ },
            Step::Reply(reply) => StepView::Reply(report::reply_view(*reply)),
        }
    }
}

/// The first step of a request, given the value of its Authorization header.
pub open spec fn begin<R>(authorization: Option<Seq<u8>>, body: ReportBodyView<R>) -> StepView<R> {
    match auth::presented_key(authorization) {
        Some(presented) => StepView::CheckKey { presented, body },
        None => StepView::Reply(Err(auth::not_authorized())),
    }
}

/// What a request is told that is about another host than the key's.
pub open spec fn another_host() -> HttpFailureView {
    failure::client_failure(failure::UNAUTHORIZED, "uh uh uh"@)
}

/// The step after the key store's answer.
pub open spec fn after_key<R>(
    body: ReportBodyView<R>,
    answer: Result<Option<AuthView>, Seq<char>>,
) -> StepView<R> {
    match auth::authorized(answer) {
        Ok(auth) => if body.id.host == auth.host {
            StepView::CheckName { name: body.id.job, body }
        } else {
            StepView::Reply(Err(another_host()))
        },
        Err(failure) => StepView::Reply(Err(failure)),
    }
}

/// What a request is told whose job's name is not acceptable.
pub open spec fn bad_job_name() -> HttpFailureView {
    failure::client_failure(failure::BAD_REQUEST, "job name too short"@)
}

/// The step after the check of the job's name.
pub open spec fn after_name<R>(body: ReportBodyView<R>, acceptable: bool) -> StepView<R> {
    if acceptable {
        StepView::Load { key: body.id.key(), body }
    } else {
        StepView::Reply(Err(bad_job_name()))
    }
}

/// What the report store said when a report was fetched: the report, that there
/// is none, or that it failed, with its error written out.
pub open spec fn load_answer<R>(loaded: Result<Option<PostFile<R>>, String>) -> Result<
    Option<PostFileView<R>>,
    Seq<char>,
> {
    match loaded {
        Ok(found) => Ok(report::found_view(found)),
        Err(detail) => Err(detail@),
    }
}

/// The step after a decision on a report.
pub open spec fn after_decision<R>(key: ReportKeyView, decision: DecisionView<R>) -> StepView<R> {
    match decision {
        DecisionView::Reply(reply) => StepView::Reply(reply),
        DecisionView::Store(file) => StepView::Store { key, file },
    }
}

/// The step after the report was fetched, at the time `now`, where the record
/// that the request brings is `present` in the report or is not.
pub open spec fn after_load<R>(
    key: ReportKeyView,
    body: ReportBodyView<R>,
    answer: Result<Option<PostFileView<R>>, Seq<char>>,
    present: bool,
    now: Timestamp,
) -> StepView<R> {
    match answer {
        Ok(found) => after_decision(key, report::decision(body, found, present, now)),
        Err(_) => StepView::Reply(Err(failure::internal_failure("data store error"@))),
    }
}

/// Whether `step` is the step after the report was fetched, at the time `now`,
/// given what the comparison of records finds.
pub open spec fn follows_load<R: PartialEq>(
    step: StepView<R>,
    key: ReportKeyView,
    body: ReportBodyView<R>,
    answer: Result<Option<PostFileView<R>>, Seq<char>>,
    now: Timestamp,
) -> bool {
    match answer {
        Ok(found) => {
            ||| {
                &&& report::can_find(found, body, true)
                &&& step == after_load(key, body, answer, true, now)
            }
            ||| {
                &&& report::can_find(found, body, false)
                &&& step == after_load(key, body, answer, false, now)
            }
        },
        Err(_) => step == after_load(key, body, answer, false, now),
    }
}

/// The answer to a request after its report was stored, or could not be.
pub open spec fn after_store(answer: Result<(), Seq<char>>) -> Result<
    ReportResult,
    HttpFailureView,
> {
    match answer {
        Ok(_) => Ok(ReportResult { existed_already: false }),
        Err(detail) => Err(failure::internal_failure("store file? "@ + detail)),
    }
}

fn first_step<R>(headers: &HeaderMap<HeaderValue>, body: ReportBody<R>) -> (step: Step<R>)
    ensures
        step@ == begin(auth::authorization(*headers), body@),
        match auth::presented_key(auth::authorization(*headers)) {
            Some(key) => step matches Step::CheckKey(waiting) && waiting.key@ == key && waiting.body
                == body,
            None => step matches Step::Reply(Err(failure)) && {
                &&& failure.status_code == 401
                &&& failure.error_code is None
                &&& failure.external_message@ == "invalid Authorization header"@
                &&& failure.internal_message@ == "invalid Authorization header"@
            },
        },
{
    match auth::require_auth(headers) {
        Ok(key) => Step::CheckKey(AwaitingKey { key, body }),
        Err(failure) => Step::Reply(Err(failure)),
    }
}

/// Takes up a request that says that a run started.
pub fn report_start<R>(headers: &HeaderMap<HeaderValue>, body: ReportStartBody) -> (step: Step<R>)
    ensures
        step@ == begin(auth::authorization(*headers), ReportBody::<R>::Start(body)@),
        match auth::presented_key(auth::authorization(*headers)) {
            Some(key) => step matches Step::CheckKey(waiting) && waiting.key@ == key && waiting.body
                == ReportBody::<R>::Start(body),
            None => step matches Step::Reply(Err(failure)) && {
                &&& failure.status_code == 401
                &&& failure.error_code is None
                &&& failure.external_message@ == "invalid Authorization header"@
                &&& failure.internal_message@ == "invalid Authorization header"@
            },
        },
{
    first_step(headers, ReportBody::Start(body))
}

/// Takes up a request that holds a record of output.
pub fn report_output<R>(headers: &HeaderMap<HeaderValue>, body: ReportOutputBody<R>) -> (step: Step<
    R,
>)
    ensures
        step@ == begin(auth::authorization(*headers), ReportBody::Output(body)@),
        match auth::presented_key(auth::authorization(*headers)) {
            Some(key) => step matches Step::CheckKey(waiting) && waiting.key@ == key && waiting.body
                == ReportBody::Output(body),
            None => step matches Step::Reply(Err(failure)) && {
                &&& failure.status_code == 401
                &&& failure.error_code is None
                &&& failure.external_message@ == "invalid Authorization header"@
                &&& failure.internal_message@ == "invalid Authorization header"@
            },
        },
{
    first_step(headers, ReportBody::Output(body))
}

/// Takes up a request that says that a run finished.
pub fn report_finish<R>(headers: &HeaderMap<HeaderValue>, body: ReportFinishBody) -> (step: Step<R>)
    ensures
        step@ == begin(auth::authorization(*headers), ReportBody::<R>::Finish(body)@),
        match auth::presented_key(auth::authorization(*headers)) {
            Some(key) => step matches Step::CheckKey(waiting) && waiting.key@ == key && waiting.body
                == ReportBody::<R>::Finish(body),
            None => step matches Step::Reply(Err(failure)) && {
                &&& failure.status_code == 401
                &&& failure.error_code is None
                &&& failure.external_message@ == "invalid Authorization header"@
                &&& failure.internal_message@ == "invalid Authorization header"@
            },
        },
{
    first_step(headers, ReportBody::Finish(body))
}

impl<R> AwaitingKey<R> {
    /// Goes on with the key store's answer: whose key it is, if it is known,
    /// or the store's error, written out.
    pub fn resume(self, checked: Result<Option<Auth>, String>) -> (step: Step<R>)
        ensures
            step@ == after_key(self.body@, auth::key_answer(checked)),
            match checked {
                Ok(Some(auth)) => if auth.host@ == self.body@.id.host {
                    step matches Step::CheckName(waiting) && {
                        &&& waiting.name@ == self.body@.id.job
                        &&& waiting.body == self.body
                    }
                } else {
                    step matches Step::Reply(Err(failure)) && {
                        &&& failure.status_code == 401
                        &&& failure.error_code is None
                        &&& failure.external_message@ == "uh uh uh"@
                        &&& failure.internal_message@ == "uh uh uh"@
                    }
                },
                Ok(None) => step matches Step::Reply(Err(failure)) && {
                    &&& failure.status_code == 401
                    &&& failure.error_code is None
                    &&& failure.external_message@ == "invalid Authorization header"@
                    &&& failure.internal_message@ == "invalid Authorization header"@
                },
                Err(detail) => step matches Step::Reply(Err(failure)) && {
                    &&& failure.status_code == 500
                    &&& failure.error_code matches Some(code) && code@ == "Internal"@
                    &&& failure.external_message@ == "Internal Server Error"@
                    &&& failure.internal_message@ == "internal error: "@ + detail@
                },
            },
    {
        match auth::key_checked(checked) {
            Ok(auth) => {
                if self.body.id().host != auth.host {
                    return Step::Reply(
                        Err(failure::client_error(failure::UNAUTHORIZED, "uh uh uh")),
                    );
                }
                let name = self.body.id().job.clone();
                Step::CheckName(AwaitingName { name, body: self.body })
            },
            Err(failure) => Step::Reply(Err(failure)),
        }
    }
}

impl<R> AwaitingName<R> {
    /// Goes on with whether the name is acceptable.
    pub fn resume(self, acceptable: bool) -> (step: Step<R>)
        ensures
            step@ == after_name(self.body@, acceptable),
            if acceptable {
                step matches Step::Load(waiting) && {
                    &&& waiting.key.host@ == self.body@.id.host
                    &&& waiting.key.job@ == self.body@.id.job
                    &&& waiting.key.time == self.body@.id.time
                    &&& waiting.body == self.body
                }
            } else {
                step matches Step::Reply(Err(failure)) && {
                    &&& failure.status_code == 400
                    &&& failure.error_code is None
                    &&& failure.external_message@ == "job name too short"@
                    &&& failure.internal_message@ == "job name too short"@
                }
            },
    {
        if !acceptable {
            return Step::Reply(
                Err(failure::client_error(failure::BAD_REQUEST, "job name too short")),
            );
        }
        let key = self.body.id().key();
        Step::Load(AwaitingLoad { key, body: self.body })
    }
}

impl<R: PartialEq> AwaitingLoad<R> {
    /// Goes on with the report, if there is one, or the report store's error,
    /// written out.  A report that is created now bears the current time; the
    /// clock is read for nothing else.
    pub fn resume(self, loaded: Result<Option<PostFile<R>>, String>) -> (step: Step<R>)
        ensures
            !(self.body is Start && loaded == Ok::<_, String>(None::<PostFile<R>>)) ==> {
                forall|now: Timestamp| #[trigger]
                    follows_load(step@, self.key@, self.body@, load_answer(loaded), now)
            },
            exists|now: Timestamp|
                {
                    &&& now.seconds >= 0
                    &&& now.nanos < 1_000_000_000
                    &&& #[trigger] follows_load(
                        step@,
                        self.key@,
                        self.body@,
                        load_answer(loaded),
                        now,
                    )
                },
            step matches Step::Store(waiting) ==> waiting.key == self.key,
            loaded is Err ==> (step matches Step::Reply(Err(failure)) && {
                &&& failure.status_code == 500
                &&& failure.error_code matches Some(code) && code@ == "Internal"@
                &&& failure.external_message@ == "Internal Server Error"@
                &&& failure.internal_message@ == "data store error"@
            }),
            self.body matches ReportBody::Start(body) ==> (loaded == Ok::<_, String>(
                None::<PostFile<R>>,
            ) ==> (step matches Step::Store(waiting) && {
                &&& waiting.file.report_uuid == body.id.uuid
                &&& waiting.file.report_pid == body.id.pid
                &&& waiting.file.time_start == body.start_time
                &&& waiting.file.script == body.script
                &&& waiting.file.report_time.seconds >= 0
                &&& waiting.file.report_time.nanos < 1_000_000_000
            })),
    {
        // No other request keeps the time, whatever it is.
        let now = match (&self.body, &loaded) {
            (ReportBody::Start(_), Ok(None)) => report::current_time(),
            _ => Timestamp { seconds: 0, nanos: 0 },
        };
        self.resume_at(loaded, now)
    }

    /// The same, with `now` for the current time.
    pub fn resume_at(self, loaded: Result<Option<PostFile<R>>, String>, now: Timestamp) -> (step:
        Step<R>)
        ensures
            follows_load(step@, self.key@, self.body@, load_answer(loaded), now),
            step matches Step::Store(waiting) ==> waiting.key == self.key,
            loaded is Err ==> (step matches Step::Reply(Err(failure)) && {
                &&& failure.status_code == 500
                &&& failure.error_code matches Some(code) && code@ == "Internal"@
                &&& failure.external_message@ == "Internal Server Error"@
                &&& failure.internal_message@ == "data store error"@
            }),
            self.body matches ReportBody::Start(body) ==> (loaded == Ok::<_, String>(
                None::<PostFile<R>>,
            ) ==> (step matches Step::Store(waiting) && {
                &&& waiting.file.report_uuid == body.id.uuid
                &&& waiting.file.report_time == now
                &&& waiting.file.report_pid == body.id.pid
                &&& waiting.file.time_start == body.start_time
                &&& waiting.file.script == body.script
            })),
    {
        let ghost body = self.body@;
        let ghost answer = load_answer(loaded);
        let decision = match loaded {
            Ok(found) => match self.body {
                ReportBody::Start(body) => body.decide(found, now),
                ReportBody::Output(body) => body.decide(found),
                ReportBody::Finish(body) => body.decide(found),
            },
            Err(_) => {
                return Step::Reply(
                    Err(failure::for_internal_error("data store error".to_owned())),
                );
            },
        };
        assert(report::decides(decision@, body, answer->Ok_0, now));
        match decision {
            Decision::Reply(reply) => Step::Reply(reply),
            Decision::Store(file) => Step::Store(AwaitingStore { key: self.key, file }),
        }
    }
}

/// What the report store said when a report was stored: that it was, or the
/// store's error, written out.
pub open spec fn store_answer(stored: Result<(), String>) -> Result<(), Seq<char>> {
    match stored {
        Ok(_) => Ok(()),
        Err(detail) => Err(detail@),
    }
}

impl<R> AwaitingStore<R> {
    /// Goes on with whether the report was stored, or the report store's error,
    /// written out.
    pub fn resume(self, stored: Result<(), String>) -> (reply: Result<ReportResult, HttpFailure>)
        ensures
            report::reply_view(reply) == after_store(store_answer(stored)),
            match stored {
                Ok(_) => reply matches Ok(result) && !result.existed_already,
                Err(detail) => reply matches Err(failure) && {
                    &&& failure.status_code == 500
                    &&& failure.error_code matches Some(code) && code@ == "Internal"@
                    &&& failure.external_message@ == "Internal Server Error"@
                    &&& failure.internal_message@ == "store file? "@ + detail@
                },
            },
    {
        match stored {
            Ok(_) => Ok(ReportResult { existed_already: false }),
            Err(detail) => Err(
                failure::for_internal_error("store file? ".to_owned().concat(detail.as_str())),
            ),
        }
    }
}

} // verus!
