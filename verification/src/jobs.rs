//! The overview of the jobs of every host.
//!
//! The type of a line of the overview is a parameter, `S`: the report store
//! makes the lines, and they are handed on as they are.

use hyper::header::{HeaderMap, HeaderValue};
use vstd::prelude::*;

use crate::auth;
use crate::auth::{Auth, AuthView};
use crate::failure;
use crate::failure::{HttpFailure, HttpFailureView};

verus! {

/// What the report store is asked to summarise, in its own measure.
pub const SUMMARY_EXTENT: u32 = 1;

/// The overview.
#[derive(Debug)]
pub struct GlobalJobsResult<S> {
    pub summary: Vec<S>,
}

/// What a request for the overview waits for, or the answer to it.
#[derive(Debug)]
pub enum JobsStep<S> {
    /// Look a key up in the key store.
    CheckKey(String),
    /// Ask the report store for a summary of this extent.
    Summarise(u32),
    /// The request is over.
    Reply(Result<GlobalJobsResult<S>, HttpFailure>),
}

/// What a [`JobsStep`] holds.
pub enum JobsStepView<S> {
    CheckKey(Seq<char>),
    Summarise(u32),
    Reply(Result<Seq<S>, HttpFailureView>),
}

/// What an answer holds.
pub open spec fn reply_view<S>(reply: Result<GlobalJobsResult<S>, HttpFailure>) -> Result<
    Seq<S>,
    HttpFailureView,
> {
    match reply {
        Ok(result) => Ok(result.summary@),
        Err(failure) => Err(failure@),
    }
}

impl<S> View for JobsStep<S> {
    type V = JobsStepView<S>;

    open spec fn view(&self) -> JobsStepView<S> {
        match self {
            JobsStep::CheckKey(key) => JobsStepView::CheckKey(key@),
            JobsStep::Summarise(extent) => JobsStepView::Summarise(*extent),
            JobsStep::Reply(reply) => JobsStepView::Reply(reply_view(*reply)),
        }
    }
}

/// The first step of a request, given the value of its Authorization header.
pub open spec fn begin<S>(authorization: Option<Seq<u8>>) -> JobsStepView<S> {
    match auth::presented_key(authorization) {
        Some(key) => JobsStepView::CheckKey(key),
        None => JobsStepView::Reply(Err(auth::not_authorized())),
    }
}

/// The step after the key store's answer.
pub open spec fn after_key<S>(answer: Result<Option<AuthView>, Seq<char>>) -> JobsStepView<S> {
    match auth::authorized(answer) {
        Ok(auth) => if auth.global_view {
            JobsStepView::Summarise(SUMMARY_EXTENT)
        } else {
            JobsStepView::Reply(Err(failure::client_failure(failure::UNAUTHORIZED, "uh uh uh"@)))
        },
        Err(failure) => JobsStepView::Reply(Err(failure)),
    }
}

/// What the report store said: the lines of the overview, or that it failed,
/// with its error written out.
pub open spec fn summary_answer<S>(summary: Result<Vec<S>, String>) -> Result<Seq<S>, Seq<char>> {
    match summary {
        Ok(lines) => Ok(lines@),
        Err(detail) => Err(detail@),
    }
}

/// The answer to a request, from the report store's answer.
pub open spec fn after_summary<S>(answer: Result<Seq<S>, Seq<char>>) -> Result<
    Seq<S>,
    HttpFailureView,
> {
    match answer {
        Ok(lines) => Ok(lines),
        Err(detail) => Err(failure::internal_failure("internal error: "@ + detail)),
    }
}

/// Takes up a request for the overview.
pub fn global_jobs<S>(headers: &HeaderMap<HeaderValue>) -> (step: JobsStep<S>)
    ensures
        step@ == begin::<S>(auth::authorization(*headers)),
        match auth::presented_key(auth::authorization(*headers)) {
            Some(key) => step matches JobsStep::CheckKey(presented) && presented@ == key,
            None => step matches JobsStep::Reply(Err(failure)) && {
                &&& failure.status_code == 401
                &&& failure.error_code is None
                &&& failure.external_message@ == "invalid Authorization header"@
                &&& failure.internal_message@ == "invalid Authorization header"@
            },
        },
{
    match auth::require_auth(headers) {
        Ok(key) => JobsStep::CheckKey(key),
        Err(failure) => JobsStep::Reply(Err(failure)),
    }
}

/// Goes on with the key store's answer: whose key it is, if it is known, or the
/// store's error, written out.
pub fn jobs_key_checked<S>(checked: Result<Option<Auth>, String>) -> (step: JobsStep<S>)
    ensures
        step@ == after_key::<S>(auth::key_answer(checked)),
        match checked {
            Ok(Some(auth)) => if auth.global_view {
                step matches JobsStep::Summarise(extent) && extent == 1
            } else {
                step matches JobsStep::Reply(Err(failure)) && {
                    &&& failure.status_code == 401
                    &&& failure.error_code is None
                    &&& failure.external_message@ == "uh uh uh"@
                    &&& failure.internal_message@ == "uh uh uh"@
                }
            },
            Ok(None) => step matches JobsStep::Reply(Err(failure)) && {
                &&& failure.status_code == 401
                &&& failure.error_code is None
                &&& failure.external_message@ == "invalid Authorization header"@
                &&& failure.internal_message@ == "invalid Authorization header"@
            },
            Err(detail) => step matches JobsStep::Reply(Err(failure)) && {
                &&& failure.status_code == 500
                &&& failure.error_code matches Some(code) && code@ == "Internal"@
                &&& failure.external_message@ == "Internal Server Error"@
                &&& failure.internal_message@ == "internal error: "@ + detail@
            },
        },
{
    match auth::key_checked(checked) {
        Ok(auth) => {
            if auth.global_view {
                JobsStep::Summarise(SUMMARY_EXTENT)
            } else {
                JobsStep::Reply(Err(failure::client_error(failure::UNAUTHORIZED, "uh uh uh")))
            }
        },
        Err(failure) => JobsStep::Reply(Err(failure)),
    }
}

/// Goes on with the report store's summary, or its error, written out.
pub fn jobs_summarised<S>(summary: Result<Vec<S>, String>) -> (reply: Result<
    GlobalJobsResult<S>,
    HttpFailure,
>)
    ensures
        reply_view(reply) == after_summary(summary_answer(summary)),
        match summary {
            Ok(lines) => reply matches Ok(result) && result.summary == lines,
            Err(detail) => reply matches Err(failure) && {
                &&& failure.status_code == 500
                &&& failure.error_code matches Some(code) && code@ == "Internal"@
                &&& failure.external_message@ == "Internal Server Error"@
                &&& failure.internal_message@ == "internal error: "@ + detail@
            },
        },
{
    let summary = failure::or_500(summary)?;
    Ok(GlobalJobsResult { summary })
}

} // verus!
