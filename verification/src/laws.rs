//! What holds of the service as a whole.

use hyper::header::{HeaderMap, HeaderValue};
use vstd::prelude::*;
use vstd::std_specs::cmp::PartialEqSpec;

use crate::auth;
use crate::auth::{Auth, AuthView};
use crate::enrol;
use crate::enrol::{EnrolStep, EnrolStepView};
use crate::failure;
use crate::failure::HttpFailure;
use crate::jobs;
use crate::jobs::{JobsStep, JobsStepView};
use crate::report;
use crate::report::{
    Decision, DecisionView, PostFile, PostFileView, ReportBody, ReportBodyView, ReportFinishBody,
    ReportKey, ReportKeyView, ReportOp, ReportOutputBody, ReportResult, ReportStartBody, Timestamp,
};
use crate::request;
use crate::request::{Step, StepView};

verus! {

/// What the outside says in the course of one request.
pub struct Answers<R> {
    /// The key store, of the key that the request presents.
    pub key: Result<Option<AuthView>, Seq<char>>,
    /// The rules for names, of the job's name.
    pub name: bool,
    /// The report store, when the report is fetched.
    pub load: Result<Option<PostFileView<R>>, Seq<char>>,
    /// The clock, at that time.
    pub now: Timestamp,
    /// The comparison of records, where the report is searched for the record
    /// that the request brings: whether it was found.
    pub present: bool,
    /// The report store, when the report is stored.
    pub store: Result<(), Seq<char>>,
}

/// The step that follows a step.
pub open spec fn next<R>(step: StepView<R>, answers: Answers<R>) -> StepView<R> {
    match step {
        StepView::CheckKey { body, .. } => request::after_key(body, answers.key),
        StepView::CheckName { body, .. } => request::after_name(body, answers.name),
        StepView::Load { key, body } => request::after_load(
            key,
            body,
            answers.load,
            answers.present,
            answers.now,
        ),
        StepView::Store { .. } => StepView::Reply(request::after_store(answers.store)),
        StepView::Reply(_) => step,
    }
}

/// The step that a request has reached after `n` answers.
pub open spec fn reached<R>(
    authorization: Option<Seq<u8>>,
    body: ReportBodyView<R>,
    answers: Answers<R>,
    n: nat,
) -> StepView<R>
    decreases n,
{
    if n == 0 {
        request::begin(authorization, body)
    } else {
        next(reached(authorization, body, answers, (n - 1) as nat), answers)
    }
}

/// Whether a request may touch its report: it presents a key, the key is known
/// and belongs to the host that the request is about, and the job has an
/// acceptable name.
pub open spec fn admitted<R>(
    authorization: Option<Seq<u8>>,
    body: ReportBodyView<R>,
    answers: Answers<R>,
) -> bool {
    &&& auth::presented_key(authorization) is Some
    &&& answers.key matches Ok(Some(auth)) && auth.host == body.id.host
    &&& answers.name
}

/// A request is answered after no more than four answers from outside, and the
/// steps before that come in one order: the key, the name, the report fetched,
/// the report stored.
pub proof fn law_every_request_is_answered<R>(
    authorization: Option<Seq<u8>>,
    body: ReportBodyView<R>,
    answers: Answers<R>,
)
    ensures
        reached(authorization, body, answers, 0) is CheckKey || reached(
            authorization,
            body,
            answers,
            0,
        ) is Reply,
        reached(authorization, body, answers, 1) is CheckName || reached(
            authorization,
            body,
            answers,
            1,
        ) is Reply,
        reached(authorization, body, answers, 2) is Load || reached(
            authorization,
            body,
            answers,
            2,
        ) is Reply,
        reached(authorization, body, answers, 3) is Store || reached(
            authorization,
            body,
            answers,
            3,
        ) is Reply,
        reached(authorization, body, answers, 4) is Reply,
{
    reveal_with_fuel(reached, 5);
}

/// A report is fetched or stored only for a request that may touch it, and only
/// the request's own: the one of the key's host, the job and the time that the
/// request names.
pub proof fn law_only_the_hosts_own_report<R>(
    authorization: Option<Seq<u8>>,
    body: ReportBodyView<R>,
    answers: Answers<R>,
    n: nat,
)
    ensures
        reached(authorization, body, answers, n) matches StepView::Load { key, body: b } ==> {
            &&& admitted(authorization, body, answers)
            &&& key == body.id.key()
            &&& b == body
        },
        reached(authorization, body, answers, n) matches StepView::Store { key, .. } ==> {
            &&& admitted(authorization, body, answers)
            &&& key == body.id.key()
        },
        reached(authorization, body, answers, n) matches StepView::CheckName { name, body: b } ==> {
            &&& auth::presented_key(authorization) is Some
            &&& answers.key matches Ok(Some(auth)) && auth.host == body.id.host
            &&& name == body.id.job
            &&& b == body
        },
        reached(authorization, body, answers, n) matches StepView::CheckKey { presented, body: b }
            ==> {
            &&& auth::presented_key(authorization) == Some(presented)
            &&& b == body
        },
    decreases n,
{
    if n > 0 {
        law_only_the_hosts_own_report(authorization, body, answers, (n - 1) as nat);
    }
}

/// A request that may not touch its report neither fetches nor stores one, and
/// is answered with a failure.
pub proof fn law_refused_without_effect<R>(
    authorization: Option<Seq<u8>>,
    body: ReportBodyView<R>,
    answers: Answers<R>,
    n: nat,
)
    requires
        !admitted(authorization, body, answers),
    ensures
        !(reached(authorization, body, answers, n) is Load),
        !(reached(authorization, body, answers, n) is Store),
        n >= 2 ==> reached(authorization, body, answers, n) matches StepView::Reply(Err(_)),
    decreases n,
{
    law_only_the_hosts_own_report(authorization, body, answers, n);
    if n <= 2 {
        reveal_with_fuel(reached, 3);
    } else {
        law_refused_without_effect(authorization, body, answers, (n - 1) as nat);
    }
}

/// A request is told that its report did not hold what it says exactly where
/// the report was stored; one that is told that the report did hold it has had
/// nothing stored.
pub proof fn law_success_says_what_was_stored<R>(
    authorization: Option<Seq<u8>>,
    body: ReportBodyView<R>,
    answers: Answers<R>,
)
    ensures
        reached(authorization, body, answers, 4) == StepView::<R>::Reply(
            Ok(ReportResult { existed_already: false }),
        ) <==> reached(authorization, body, answers, 3) is Store && answers.store is Ok,
        reached(authorization, body, answers, 4) == StepView::<R>::Reply(
            Ok(ReportResult { existed_already: true }),
        ) ==> reached(authorization, body, answers, 3) is Reply,
{
    reveal_with_fuel(reached, 5);
}

/// A failure is the client's, with one of three statuses, or the service's, and
/// then the client learns nothing of its cause.
pub proof fn law_causes_stay_inside<R>(
    authorization: Option<Seq<u8>>,
    body: ReportBodyView<R>,
    answers: Answers<R>,
)
    ensures
        reached(authorization, body, answers, 4) matches StepView::Reply(Err(failure)) ==> {
            ||| failure.status_code == 400
            ||| failure.status_code == 401
            ||| failure.status_code == 409
            ||| {
                &&& failure.status_code == 500
                &&& failure.external_message == "Internal Server Error"@
            }
        },
{
    reveal_with_fuel(reached, 5);
}

/// A failure of the client has the status and the message that it is given, the
/// message for the log and for the client alike.  A failure of the service has
/// its message for the log, and another for the client.
pub proof fn law_failures_say_what_they_are_given(status_code: u16, message: Seq<char>)
    ensures
        failure::client_failure(status_code, message).status_code == status_code,
        failure::client_failure(status_code, message).error_code is None,
        failure::client_failure(status_code, message).external_message == message,
        failure::client_failure(status_code, message).internal_message == message,
        failure::internal_failure(message).status_code == 500,
        failure::internal_failure(message).error_code == Some("Internal"@),
        failure::internal_failure(message).external_message == "Internal Server Error"@,
        failure::internal_failure(message).internal_message == message,
{
}

/// What the contracts say of a request, they say of all that it holds.
pub proof fn law_requests_are_seen_whole<R>(
    start: ReportStartBody,
    output: ReportOutputBody<R>,
    finish: ReportFinishBody,
    key: ReportKey,
)
    ensures
        ({
            let seen = ReportBody::<R>::Start(start)@;
            &&& seen.id.host == start.id.host@
            &&& seen.id.job == start.id.job@
            &&& seen.id.pid == start.id.pid
            &&& seen.id.time == start.id.time
            &&& seen.id.uuid == start.id.uuid@
            &&& seen.op matches ReportOp::Start { start_time, script }
            &&& start_time == start.start_time
            &&& script == start.script@
        }),
        ({
            let seen = ReportBody::Output(output)@;
            &&& seen.id.host == output.id.host@
            &&& seen.id.job == output.id.job@
            &&& seen.id.pid == output.id.pid
            &&& seen.id.time == output.id.time
            &&& seen.id.uuid == output.id.uuid@
            &&& seen.op matches ReportOp::Output { record }
            &&& record == output.record
        }),
        ({
            let seen = ReportBody::<R>::Finish(finish)@;
            &&& seen.id.host == finish.id.host@
            &&& seen.id.job == finish.id.job@
            &&& seen.id.pid == finish.id.pid
            &&& seen.id.time == finish.id.time
            &&& seen.id.uuid == finish.id.uuid@
            &&& seen.op matches ReportOp::Finish { end_time, duration_millis, exit_status }
            &&& end_time == finish.end_time
            &&& duration_millis == finish.duration_millis
            &&& exit_status == finish.exit_status
        }),
        key@.host == key.host@,
        key@.job == key.job@,
        key@.time == key.time,
{
}

/// What the contracts say of a report, of the owner of a key or of a failure,
/// they say of all that it holds.
pub proof fn law_answers_are_seen_whole<R>(file: PostFile<R>, owner: Auth, failure: HttpFailure)
    ensures
        file@.sealed == file.sealed,
        file@.report_uuid == file.report_uuid@,
        file@.report_time == file.report_time,
        file@.report_pid == file.report_pid,
        file@.time_start == file.time_start,
        file@.time_end == file.time_end,
        file@.duration == file.duration,
        file@.status == file.status,
        file@.output == file.output@,
        file@.script == file.script@,
        owner@.host == owner.host@,
        owner@.global_view == owner.global_view,
        failure@.status_code == failure.status_code,
        failure@.external_message == failure.external_message@,
        failure@.internal_message == failure.internal_message@,
        failure@.error_code is Some <==> failure.error_code is Some,
        failure.error_code matches Some(code) ==> failure@.error_code == Some(code@),
{
}

/// What the outside answers is taken as it was said.
pub proof fn law_answers_are_taken_as_said<R, S>(
    file: PostFile<R>,
    owner: Auth,
    lines: Vec<S>,
    taken: bool,
    detail: String,
)
    ensures
        auth::key_answer(Ok(Some(owner))) == Ok::<Option<AuthView>, Seq<char>>(Some(owner@)),
        auth::key_answer(Ok(None)) == Ok::<Option<AuthView>, Seq<char>>(None),
        auth::key_answer(Err(detail)) == Err::<Option<AuthView>, Seq<char>>(detail@),
        request::load_answer(Ok(Some(file))) == Ok::<Option<PostFileView<R>>, Seq<char>>(
            Some(file@),
        ),
        request::load_answer(Ok(None::<PostFile<R>>)) == Ok::<Option<PostFileView<R>>, Seq<char>>(
            None,
        ),
        request::load_answer::<R>(Err(detail)) == Err::<Option<PostFileView<R>>, Seq<char>>(
            detail@,
        ),
        report::found_view(Some(file)) == Some(file@),
        report::found_view(None::<PostFile<R>>) is None,
        request::store_answer(Ok(())) is Ok,
        request::store_answer(Err(detail)) == Err::<(), Seq<char>>(detail@),
        jobs::summary_answer(Ok(lines)) == Ok::<Seq<S>, Seq<char>>(lines@),
        jobs::summary_answer::<S>(Err(detail)) == Err::<Seq<S>, Seq<char>>(detail@),
        enrol::enrol_answer(Ok(taken)) == Ok::<bool, Seq<char>>(taken),
        enrol::enrol_answer(Err(detail)) == Err::<bool, Seq<char>>(detail@),
{
}

/// What the contracts say of a step of a request about a report, they say of
/// all that it holds, and of no other kind of step.
pub proof fn law_steps_are_seen_whole<R>(step: Step<R>, decision: Decision<R>)
    ensures
        match step {
            Step::CheckKey(waiting) => step@ matches StepView::CheckKey { presented, body }
                && presented == waiting.key@ && body == waiting.body@,
            Step::CheckName(waiting) => step@ matches StepView::CheckName { name, body } && name
                == waiting.name@ && body == waiting.body@,
            Step::Load(waiting) => step@ matches StepView::Load { key, body } && key
                == waiting.key@ && body == waiting.body@,
            Step::Store(waiting) => step@ matches StepView::Store { key, file } && key
                == waiting.key@ && file == waiting.file@,
            Step::Reply(Ok(result)) => step@ matches StepView::Reply(Ok(told)) && told == result,
            Step::Reply(Err(failure)) => step@ matches StepView::Reply(Err(told)) && told
                == failure@,
        },
        match decision {
            Decision::Store(file) => decision@ matches DecisionView::Store(stored) && stored
                == file@,
            Decision::Reply(Ok(result)) => decision@ matches DecisionView::Reply(Ok(told)) && told
                == result,
            Decision::Reply(Err(failure)) => decision@ matches DecisionView::Reply(Err(told))
                && told == failure@,
        },
{
}

/// What the contracts say of a step of an enrolment, or of a request for the
/// overview, they say of all that it holds, and of no other kind of step.
pub proof fn law_other_steps_are_seen_whole<S>(enrolment: EnrolStep, overview: JobsStep<S>)
    ensures
        match enrolment {
            EnrolStep::CheckKeyFormat(w) => enrolment@ matches EnrolStepView::CheckKeyFormat {
                host,
                key,
            } && host == w.host@ && key == w.key@,
            EnrolStep::CheckHostName(w) => enrolment@ matches EnrolStepView::CheckHostName {
                host,
                key,
            } && host == w.host@ && key == w.key@,
            EnrolStep::EnrolKey(w) => enrolment@ matches EnrolStepView::EnrolKey { host, key }
                && host == w.host@ && key == w.key@,
            EnrolStep::Reply(Ok(_)) => enrolment@ matches EnrolStepView::Reply(Ok(_)),
            EnrolStep::Reply(Err(failure)) => enrolment@ matches EnrolStepView::Reply(Err(told))
                && told == failure@,
        },
        match overview {
            JobsStep::CheckKey(key) => overview@ matches JobsStepView::CheckKey(asked) && asked
                == key@,
            JobsStep::Summarise(extent) => overview@ matches JobsStepView::Summarise(asked)
                && asked == extent,
            JobsStep::Reply(Ok(result)) => overview@ matches JobsStepView::Reply(Ok(told)) && told
                == result.summary@,
            JobsStep::Reply(Err(failure)) => overview@ matches JobsStepView::Reply(Err(told))
                && told == failure@,
        },
{
}

/// A request whose header spells a key that is its own host's, about a job with
/// an acceptable name, reaches its report and is answered from there: the key
/// store is asked about the whole key, the rules about the job's whole name, the
/// report store for the report of the host, the job and the time, and what is
/// decided on that report is stored under the same three, or answered.
pub proof fn law_an_admitted_request_goes_through<R>(
    headers: HeaderMap<HeaderValue>,
    before: Seq<u8>,
    scheme: Seq<u8>,
    between: Seq<u8>,
    secret: Seq<u8>,
    after: Seq<u8>,
    body: ReportBodyView<R>,
    answers: Answers<R>,
)
    requires
        auth::first_values(headers).contains_key("authorization"@),
        auth::spells(
            auth::first_values(headers)["authorization"@],
            before,
            scheme,
            between,
            secret,
            after,
        ),
        answers.key matches Ok(Some(owner)) && owner.host == body.id.host,
        answers.name,
    ensures
        reached(auth::authorization(headers), body, answers, 0) matches StepView::CheckKey {
            presented,
            body: kept,
        } && {
            &&& presented.len() == secret.len()
            &&& forall|i: int|
                0 <= i < secret.len() ==> #[trigger] presented[i] as int == secret[i] as int
            &&& kept == body
        },
        reached(auth::authorization(headers), body, answers, 1) matches StepView::CheckName {
            name,
            body: kept,
        } && name == body.id.job && kept == body,
        reached(auth::authorization(headers), body, answers, 2) matches StepView::Load {
            key,
            body: kept,
        } && {
            &&& key.host == body.id.host
            &&& key.job == body.id.job
            &&& key.time == body.id.time
            &&& kept == body
        },
        match answers.load {
            Ok(found) => match outcome(
                Sent { body, now: answers.now, present: answers.present },
                found,
            ) {
                DecisionView::Store(decided) => {
                    &&& reached(
                        auth::authorization(headers),
                        body,
                        answers,
                        3,
                    ) matches StepView::Store { key, file }
                    &&& key.host == body.id.host
                    &&& key.job == body.id.job
                    &&& key.time == body.id.time
                    &&& file == decided
                    &&& reached(
                        auth::authorization(headers),
                        body,
                        answers,
                        4,
                    ) matches StepView::Reply(reply)
                    &&& match answers.store {
                        Ok(_) => reply matches Ok(result) && !result.existed_already,
                        Err(detail) => reply matches Err(failure) && {
                            &&& failure.status_code == 500
                            &&& failure.error_code matches Some(code) && code == "Internal"@
                            &&& failure.external_message == "Internal Server Error"@
                            &&& failure.internal_message == "store file? "@ + detail
                        },
                    }
                },
                DecisionView::Reply(reply) => reached(
                    auth::authorization(headers),
                    body,
                    answers,
                    3,
                ) == StepView::<R>::Reply(reply),
            },
            Err(_) => reached(
                auth::authorization(headers),
                body,
                answers,
                3,
            ) matches StepView::Reply(Err(failure)) && {
                &&& failure.status_code == 500
                &&& failure.error_code matches Some(code) && code == "Internal"@
                &&& failure.external_message == "Internal Server Error"@
                &&& failure.internal_message == "data store error"@
            },
        },
{
    reveal_with_fuel(reached, 5);
    auth::law_whole_key_is_presented(headers, before, scheme, between, secret, after);
}

/// A request that may not touch its report is told why: first that it presents
/// no key that is known, then that the key is another host's, then that the
/// job's name is not acceptable.  A key store that fails is the service's
/// failure.
pub proof fn law_each_refusal_says_why<R>(
    authorization: Option<Seq<u8>>,
    body: ReportBodyView<R>,
    answers: Answers<R>,
)
    requires
        !admitted(authorization, body, answers),
    ensures
        reached(authorization, body, answers, 2) matches StepView::Reply(Err(failure)) && if (
        auth::presented_key(authorization) is Some && answers.key is Err) {
            &&& failure.status_code == 500
            &&& failure.error_code matches Some(code) && code == "Internal"@
            &&& failure.external_message == "Internal Server Error"@
            &&& failure.internal_message == "internal error: "@ + answers.key->Err_0
        } else if auth::presented_key(authorization) is None || answers.key->Ok_0 is None {
            &&& failure.status_code == 401
            &&& failure.error_code is None
            &&& failure.external_message == "invalid Authorization header"@
            &&& failure.internal_message == "invalid Authorization header"@
        } else if answers.key->Ok_0->0.host != body.id.host {
            &&& failure.status_code == 401
            &&& failure.error_code is None
            &&& failure.external_message == "uh uh uh"@
            &&& failure.internal_message == "uh uh uh"@
        } else {
            &&& failure.status_code == 400
            &&& failure.error_code is None
            &&& failure.external_message == "job name too short"@
            &&& failure.internal_message == "job name too short"@
        },
{
    reveal_with_fuel(reached, 3);
}

/// The step that the code takes after a report was fetched is the one of
/// [`next`], whatever the type of records: for some finding that the comparison
/// of records can make, and for any finding where the request brings no record.
pub proof fn law_code_takes_these_steps<R: PartialEq>(
    step: StepView<R>,
    key: ReportKeyView,
    body: ReportBodyView<R>,
    answers: Answers<R>,
)
    requires
        request::follows_load(step, key, body, answers.load, answers.now),
    ensures
        exists|present: bool|
            {
                &&& step == #[trigger] next(
                    StepView::Load { key, body },
                    Answers { present, ..answers },
                )
                &&& answers.load matches Ok(found) ==> report::can_find(found, body, present)
            },
        !(body.op is Output) ==> step == next(StepView::Load { key, body }, answers),
{
    let load = StepView::Load { key, body };
    let found_it = next(load, Answers { present: true, ..answers });
    let missed_it = next(load, Answers { present: false, ..answers });
    assert(step == found_it || step == missed_it);
}

/// A request about a report: what it asks for, the time at which the report is
/// fetched, and whether the comparison of records finds the record that the
/// request brings.
pub struct Sent<R> {
    pub body: ReportBodyView<R>,
    pub now: Timestamp,
    pub present: bool,
}

/// What a request does to the report that is there, if one is.
pub open spec fn outcome<R>(sent: Sent<R>, found: Option<PostFileView<R>>) -> DecisionView<R> {
    report::decision(sent.body, found, sent.present, sent.now)
}

/// Whether the comparison of records can find what it is said to.
pub open spec fn possible<R: PartialEq>(sent: Sent<R>, found: Option<PostFileView<R>>) -> bool {
    report::can_find(found, sent.body, sent.present)
}

/// What the code decides on a request is an outcome of the request that the
/// comparison of records makes possible, whatever the type of records.
pub proof fn law_code_decides_on_outcomes<R: PartialEq>(
    d: DecisionView<R>,
    body: ReportBodyView<R>,
    found: Option<PostFileView<R>>,
    now: Timestamp,
)
    requires
        report::decides(d, body, found, now),
    ensures
        exists|sent: Sent<R>|
            {
                &&& sent.body == body
                &&& sent.now == now
                &&& #[trigger] possible(sent, found)
                &&& d == outcome(sent, found)
            },
{
    let found_it = Sent { body, now, present: true };
    let missed_it = Sent { body, now, present: false };
    assert((possible(found_it, found) && d == outcome(found_it, found)) || (possible(
        missed_it,
        found,
    ) && d == outcome(missed_it, found)));
}

/// Where the type of records specifies its `==`, the comparison finds a record
/// exactly where one that is equal to it is there.
pub proof fn law_comparison_finds_what_is_there<R: PartialEq>(
    output: Seq<R>,
    record: R,
    present: bool,
)
    requires
        R::obeys_eq_spec(),
        report::finds(output, record, present),
    ensures
        present == report::recorded(output, record),
        present <==> exists|i: int|
            0 <= i < output.len() && (#[trigger] output[i]).eq_spec(&record),
{
    if present {
        let i = choose|i: int|
            0 <= i < output.len() && #[trigger] report::compares(output[i], record, true);
        assert(output[i].eq_spec(&record));
    } else {
        assert forall|i: int| 0 <= i < output.len() implies !(#[trigger] output[i]).eq_spec(
            &record,
        ) by {
            assert(report::compares(output[i], record, false));
        }
    }
}

/// The report as it is after a request, where the report store works.
pub open spec fn kept<R>(sent: Sent<R>, found: Option<PostFileView<R>>) -> Option<PostFileView<R>> {
    match outcome(sent, found) {
        DecisionView::Store(file) => Some(file),
        DecisionView::Reply(_) => found,
    }
}

/// Whether a request about a report succeeds, where the report store works.
pub open spec fn succeeds<R>(sent: Sent<R>, found: Option<PostFileView<R>>) -> bool {
    match outcome(sent, found) {
        DecisionView::Store(_) => true,
        DecisionView::Reply(reply) => reply is Ok,
    }
}

/// The answer that the report already holds what a request says.
pub open spec fn existed<R>() -> DecisionView<R> {
    DecisionView::Reply(Ok(ReportResult { existed_already: true }))
}

/// A start where no report is there creates one that is open, without output,
/// and holds what the client said and the current time.
pub proof fn law_a_start_keeps_what_it_says<R>(
    sent: Sent<R>,
    start_time: Timestamp,
    script: Seq<char>,
)
    requires
        sent.body.op == (ReportOp::<R>::Start { start_time, script }),
    ensures
        outcome(sent, None) matches DecisionView::Store(file) && {
            &&& file.report_uuid == sent.body.id.uuid
            &&& file.report_pid == sent.body.id.pid
            &&& file.report_time == sent.now
            &&& file.time_start == start_time
            &&& file.script.len() == script.len()
            &&& forall|i: int| 0 <= i < script.len() ==> #[trigger] file.script[i] == script[i]
            &&& !file.sealed
            &&& file.time_end is None
            &&& file.duration is None
            &&& file.status is None
            &&& file.output.len() == 0
        },
{
}

/// A start where a report of the same run is there is accepted while the report
/// is open, and conflicts once it is sealed.
pub proof fn law_a_start_comes_before_the_end<R>(sent: Sent<R>, file: PostFileView<R>)
    requires
        sent.body.op is Start,
        sent.body.id.uuid == file.report_uuid,
    ensures
        !file.sealed ==> (outcome(sent, Some(file)) matches DecisionView::Reply(Ok(result))
            && result.existed_already),
        file.sealed ==> (outcome(sent, Some(file)) matches DecisionView::Reply(Err(failure)) && {
            &&& failure.status_code == 409
            &&& failure.error_code is None
            &&& failure.external_message == "this job is already complete"@
            &&& failure.internal_message == "this job is already complete"@
        }),
{
}

/// A record that the comparison does not find in an open report of the same run
/// is added at the end of its output, however much the report holds, and nothing
/// else of the report changes.  One that it finds is accepted without effect,
/// and once the report is sealed there is a conflict.
pub proof fn law_new_output_is_added_at_the_end<R>(
    sent: Sent<R>,
    record: R,
    file: PostFileView<R>,
)
    requires
        sent.body.op == (ReportOp::Output { record }),
        sent.body.id.uuid == file.report_uuid,
    ensures
        !file.sealed && !sent.present ==> (outcome(sent, Some(file)) matches DecisionView::Store(
            stored,
        ) && {
            &&& stored.output.len() == file.output.len() + 1
            &&& forall|i: int|
                0 <= i < file.output.len() ==> #[trigger] stored.output[i] == file.output[i]
            &&& stored.output[file.output.len() as int] == record
            &&& stored.sealed == file.sealed
            &&& stored.report_uuid == file.report_uuid
            &&& stored.report_time == file.report_time
            &&& stored.report_pid == file.report_pid
            &&& stored.time_start == file.time_start
            &&& stored.time_end == file.time_end
            &&& stored.duration == file.duration
            &&& stored.status == file.status
            &&& stored.script == file.script
        }),
        !file.sealed && sent.present ==> (outcome(sent, Some(file)) matches DecisionView::Reply(
            Ok(result),
        ) && result.existed_already),
        file.sealed ==> (outcome(sent, Some(file)) matches DecisionView::Reply(Err(failure)) && {
            &&& failure.status_code == 409
            &&& failure.error_code is None
            &&& failure.external_message == "this job is already complete"@
            &&& failure.internal_message == "this job is already complete"@
        }),
{
}

/// What the code decides on a record of output for an open report of the same
/// run: a record that no record of the report can be found equal to is added, one
/// that some record cannot but be found equal to is not, and never is there a
/// failure.
pub proof fn law_code_adds_what_is_new<R: PartialEq>(
    d: DecisionView<R>,
    body: ReportBodyView<R>,
    record: R,
    file: PostFileView<R>,
    now: Timestamp,
)
    requires
        report::decides(d, body, Some(file), now),
        body.op == (ReportOp::Output { record }),
        body.id.uuid == file.report_uuid,
        !file.sealed,
    ensures
        (forall|i: int|
            0 <= i < file.output.len() ==> !call_ensures(
                R::eq,
                (&#[trigger] file.output[i], &record),
                true,
            )) ==> (d matches DecisionView::Store(stored) && stored.output == file.output.push(
            record,
        )),
        (exists|i: int|
            0 <= i < file.output.len() && !call_ensures(
                R::eq,
                (&#[trigger] file.output[i], &record),
                false,
            )) ==> d is Reply,
        d matches DecisionView::Reply(reply) ==> (reply matches Ok(result)
            && result.existed_already),
        d matches DecisionView::Store(stored) ==> stored.output == file.output.push(record),
{
    if exists|i: int|
        0 <= i < file.output.len() && !call_ensures(
            R::eq,
            (&#[trigger] file.output[i], &record),
            false,
        ) {
        let i = choose|i: int|
            0 <= i < file.output.len() && !call_ensures(
                R::eq,
                (&#[trigger] file.output[i], &record),
                false,
            );
        assert(!report::compares(file.output[i], record, false));
    }
}

/// The end of a run seals an open report of the same run with what the client
/// said of it, and changes nothing else; a report that is sealed stays as it is.
/// A number of milliseconds below zero is kept as the number that it wraps to.
pub proof fn law_a_finish_keeps_what_it_says<R>(
    sent: Sent<R>,
    end_time: Timestamp,
    duration_millis: i32,
    exit_status: i32,
    file: PostFileView<R>,
)
    requires
        sent.body.op == (ReportOp::<R>::Finish { end_time, duration_millis, exit_status }),
        sent.body.id.uuid == file.report_uuid,
    ensures
        !file.sealed ==> (outcome(sent, Some(file)) matches DecisionView::Store(stored) && {
            &&& stored.sealed
            &&& stored.time_end == Some(end_time)
            &&& stored.status == Some(exit_status)
            &&& stored.duration matches Some(duration)
            &&& duration_millis >= 0 ==> duration == duration_millis
            &&& duration_millis < 0 ==> duration - duration_millis == 0x1_0000_0000_0000_0000
            &&& stored.report_uuid == file.report_uuid
            &&& stored.report_time == file.report_time
            &&& stored.report_pid == file.report_pid
            &&& stored.time_start == file.time_start
            &&& stored.output == file.output
            &&& stored.script == file.script
        }),
        file.sealed ==> (outcome(sent, Some(file)) matches DecisionView::Reply(Ok(result))
            && result.existed_already),
{
}

/// A request other than a start is refused where no report is there, and any
/// request where the report is of another run.
pub proof fn law_a_request_needs_its_report<R>(sent: Sent<R>, file: PostFileView<R>)
    ensures
        !(sent.body.op is Start) ==> (outcome(sent, None) matches DecisionView::Reply(Err(failure))
            && {
            &&& failure.status_code == 400
            &&& failure.error_code is None
            &&& failure.external_message == "this job does not exist"@
            &&& failure.internal_message == "this job does not exist"@
        }),
        sent.body.id.uuid != file.report_uuid ==> (outcome(
            sent,
            Some(file),
        ) matches DecisionView::Reply(Err(failure)) && {
            &&& failure.status_code == 409
            &&& failure.error_code is None
            &&& failure.external_message == "this time already submitted, with different UUID"@
            &&& failure.internal_message == "this time already submitted, with different UUID"@
        }),
{
}

/// A client is told that a job is complete only where its report is sealed, and
/// about no request but a start or a record of output.
pub proof fn law_complete_means_sealed<R>(sent: Sent<R>, found: Option<PostFileView<R>>)
    ensures
        outcome(sent, found) matches DecisionView::Reply(Err(failure)) ==> (
        failure.external_message == "this job is already complete"@ <==> {
            &&& found matches Some(file)
            &&& file.sealed
            &&& file.report_uuid == sent.body.id.uuid
            &&& !(sent.body.op is Finish)
        }),
{
    reveal_strlit("this job is already complete");
    reveal_strlit("this time already submitted, with different UUID");
    reveal_strlit("this job does not exist");
    assert("this job is already complete"@.len() == 28);
    assert("this time already submitted, with different UUID"@.len() == 48);
    assert("this job does not exist"@.len() == 23);
}

/// No request changes a sealed report.
pub proof fn law_sealed_is_final<R>(sent: Sent<R>, file: PostFileView<R>)
    requires
        file.sealed,
    ensures
        outcome(sent, Some(file)) is Reply,
        kept(sent, Some(file)) == Some(file),
{
}

/// A request of another run than the report's is told of the conflict, and
/// changes nothing.
pub proof fn law_another_run_changes_nothing<R>(sent: Sent<R>, file: PostFileView<R>)
    requires
        sent.body.id.uuid != file.report_uuid,
    ensures
        outcome(sent, Some(file)) == DecisionView::<R>::Reply(Err(report::another_run())),
        kept(sent, Some(file)) == Some(file),
{
}

/// Nothing but a start creates a report.
pub proof fn law_only_a_start_creates<R>(sent: Sent<R>)
    ensures
        kept(sent, None) is Some <==> sent.body.op is Start,
        !(sent.body.op is Start) ==> outcome(sent, None) == DecisionView::<R>::Reply(
            Err(report::no_such_job()),
        ),
{
}

/// Of two starts of different runs at one time, the first creates the report, as
/// it says, and the second is told of the conflict and changes nothing.
pub proof fn law_first_start_wins<R>(
    first: Sent<R>,
    start_time: Timestamp,
    script: Seq<char>,
    second: Sent<R>,
)
    requires
        first.body.op == (ReportOp::<R>::Start { start_time, script }),
        second.body.op is Start,
        first.body.id.uuid != second.body.id.uuid,
    ensures
        outcome(first, None) == DecisionView::<R>::Store(
            report::started(first.body.id, start_time, script, first.now),
        ),
        outcome(second, kept(first, None)) == DecisionView::<R>::Reply(Err(report::another_run())),
        kept(second, kept(first, None)) == kept(first, None),
{
}

/// A record that the comparison cannot tell from itself, nor from a record of
/// `output` that it can find equal to it.
pub open spec fn firm<R: PartialEq>(output: Seq<R>, record: R) -> bool {
    &&& !report::compares(record, record, false)
    &&& forall|i: int|
        0 <= i < output.len() && #[trigger] report::compares(output[i], record, true)
            ==> !report::compares(output[i], record, false)
}

/// Where the type of records specifies its `==`, a record that is equal to
/// itself is firm among any records.
pub proof fn law_specified_equality_is_firm<R: PartialEq>(output: Seq<R>, record: R)
    requires
        R::obeys_eq_spec(),
        record.eq_spec(&record),
    ensures
        firm(output, record),
{
}

/// A request that succeeded can be sent again at once: it is told that the
/// report already holds what it says, and changes nothing.
pub proof fn law_retry_is_harmless<R: PartialEq>(
    sent: Sent<R>,
    found: Option<PostFileView<R>>,
    again: Sent<R>,
)
    requires
        possible(sent, found),
        succeeds(sent, found),
        again.body == sent.body,
        possible(again, kept(sent, found)),
        sent.body.op matches ReportOp::Output { record } ==> firm(found->0.output, record),
    ensures
        outcome(again, kept(sent, found)) == existed::<R>(),
        kept(again, kept(sent, found)) == kept(sent, found),
{
    if let ReportOp::Output { record } = sent.body.op {
        let before = found->0.output;
        let after = kept(sent, found)->0.output;
        if !again.present {
            if sent.present {
                let i = choose|i: int|
                    0 <= i < before.len() && #[trigger] report::compares(before[i], record, true);
                assert(report::compares(after[i], record, false));
            } else {
                assert(after[before.len() as int] == record);
                assert(report::compares(after[before.len() as int], record, false));
            }
        }
    }
}

/// After the end of a run, its start and its output are refused, and its end is
/// not.
pub proof fn law_nothing_after_the_end<R>(
    end: Sent<R>,
    found: Option<PostFileView<R>>,
    sent: Sent<R>,
)
    requires
        end.body.op is Finish,
        succeeds(end, found),
        sent.body.id.uuid == end.body.id.uuid,
    ensures
        outcome(sent, kept(end, found)) == if sent.body.op is Finish {
            existed::<R>()
        } else {
            DecisionView::<R>::Reply(Err(report::already_complete()))
        },
{
}

/// A report as the service makes them: the end of the run is noted in full where
/// the report is sealed and not at all where it is open, and no record of output
/// was found equal to an earlier one.
pub open spec fn well_formed<R: PartialEq>(file: PostFileView<R>) -> bool {
    &&& file.sealed <==> file.time_end is Some
    &&& file.sealed <==> file.duration is Some
    &&& file.sealed <==> file.status is Some
    &&& forall|i: int, j: int|
        0 <= i < j < file.output.len() ==> #[trigger] report::compares(
            file.output[i],
            file.output[j],
            false,
        )
}

/// Requests keep reports well-formed.
pub proof fn law_reports_stay_well_formed<R: PartialEq>(
    sent: Sent<R>,
    found: Option<PostFileView<R>>,
)
    requires
        possible(sent, found),
        found matches Some(file) ==> well_formed(file),
    ensures
        kept(sent, found) matches Some(file) ==> well_formed(file),
{
}

/// The later of two versions of a report: what the start of the run said is the
/// same, the output is the earlier output with records added, and where the
/// earlier one is sealed nothing has changed.
pub open spec fn continues<R>(earlier: PostFileView<R>, later: PostFileView<R>) -> bool {
    &&& later.report_uuid == earlier.report_uuid
    &&& later.report_time == earlier.report_time
    &&& later.report_pid == earlier.report_pid
    &&& later.time_start == earlier.time_start
    &&& later.script == earlier.script
    &&& earlier.output.is_prefix_of(later.output)
    &&& earlier.sealed ==> later == earlier
}

/// A request leaves a report that continues what was there.
pub proof fn law_requests_continue_the_report<R>(sent: Sent<R>, file: PostFileView<R>)
    ensures
        kept(sent, Some(file)) matches Some(later) && continues(file, later),
{
}

/// The report after a sequence of requests about it, the first of which finds
/// none.
pub open spec fn history<R>(requests: Seq<Sent<R>>) -> Option<PostFileView<R>>
    decreases requests.len(),
{
    if requests.len() == 0 {
        None
    } else {
        kept(requests.last(), history(requests.drop_last()))
    }
}

/// Whether in each request of a sequence the comparison of records can find what
/// it is said to.
pub open spec fn all_possible<R: PartialEq>(requests: Seq<Sent<R>>) -> bool {
    forall|n: int|
        0 <= n < requests.len() ==> possible(#[trigger] requests[n], history(requests.take(n)))
}

/// Whatever is sent, the report is well-formed.
pub proof fn law_every_report_is_well_formed<R: PartialEq>(requests: Seq<Sent<R>>)
    requires
        all_possible(requests),
    ensures
        history(requests) matches Some(file) ==> well_formed(file),
    decreases requests.len(),
{
    if requests.len() > 0 {
        let before = requests.drop_last();
        assert forall|n: int| 0 <= n < before.len() implies possible(
            #[trigger] before[n],
            history(before.take(n)),
        ) by {
            assert(before[n] == requests[n]);
            assert(before.take(n) =~= requests.take(n));
        }
        law_every_report_is_well_formed(before);
        assert(requests.take(before.len() as int) =~= before);
        assert(possible(requests[before.len() as int], history(before)));
        law_reports_stay_well_formed(requests.last(), history(before));
    }
}

/// Whatever is sent after a report was created, the report is there, and
/// continues what it was.
pub proof fn law_reports_only_grow<R>(requests: Seq<Sent<R>>, n: int)
    requires
        0 <= n <= requests.len(),
        history(requests.take(n)) is Some,
    ensures
        history(requests) matches Some(file) && continues(history(requests.take(n))->0, file),
    decreases requests.len(),
{
    if n == requests.len() {
        assert(requests.take(n) =~= requests);
    } else {
        let before = requests.drop_last();
        assert(before.take(n) =~= requests.take(n));
        law_reports_only_grow(before, n);
    }
}

/// Whether `record` itself, or a record that was found equal to it, is among
/// `output`.
pub open spec fn holds<R: PartialEq>(output: Seq<R>, record: R) -> bool {
    exists|i: int|
        0 <= i < output.len() && ((#[trigger] output[i]) == record || report::compares(
            output[i],
            record,
            true,
        ))
}

/// A record of output that was accepted, as new or as one that was there, is in
/// the report from then on, whatever is sent.
pub proof fn law_accepted_output_is_kept<R: PartialEq>(
    requests: Seq<Sent<R>>,
    n: int,
    record: R,
)
    requires
        0 <= n < requests.len(),
        requests[n].body.op == (ReportOp::Output { record }),
        possible(requests[n], history(requests.take(n))),
        succeeds(requests[n], history(requests.take(n))),
    ensures
        history(requests) matches Some(file) && holds(file.output, record),
{
    let upto = requests.take(n + 1);
    assert(upto.drop_last() =~= requests.take(n));
    assert(upto.last() == requests[n]);
    let before = history(requests.take(n))->0.output;
    let accepted = history(upto)->0.output;
    law_reports_only_grow(requests, n + 1);
    let kept_output = history(requests)->0.output;
    if requests[n].present {
        let i = choose|i: int|
            0 <= i < before.len() && #[trigger] report::compares(before[i], record, true);
        assert(kept_output[i] == before[i]);
    } else {
        assert(accepted[before.len() as int] == record);
        assert(kept_output[before.len() as int] == record);
    }
}

/// A request that succeeded can be sent again later, whatever was sent
/// meanwhile: it is told that the report already holds what it says, and changes
/// nothing.  (Where the run has ended meanwhile, this holds of its end alone.)
pub proof fn law_sending_again_is_harmless<R: PartialEq>(
    requests: Seq<Sent<R>>,
    n: int,
    again: Sent<R>,
)
    requires
        0 <= n < requests.len(),
        possible(requests[n], history(requests.take(n))),
        succeeds(requests[n], history(requests.take(n))),
        again.body == requests[n].body,
        possible(again, history(requests)),
        history(requests)->0.sealed ==> again.body.op is Finish,
        again.body.op matches ReportOp::Output { record } ==> firm(
            history(requests)->0.output,
            record,
        ),
    ensures
        outcome(again, history(requests)) == existed::<R>(),
        kept(again, history(requests)) == history(requests),
{
    let upto = requests.take(n + 1);
    assert(upto.drop_last() =~= requests.take(n));
    assert(upto.last() == requests[n]);
    law_reports_only_grow(requests, n + 1);
    if let ReportOp::Output { record } = again.body.op {
        law_accepted_output_is_kept(requests, n, record);
        let output = history(requests)->0.output;
        if !again.present {
            let i = choose|i: int|
                0 <= i < output.len() && ((#[trigger] output[i]) == record || report::compares(
                    output[i],
                    record,
                    true,
                ));
            assert(report::compares(output[i], record, false));
        }
    }
}

/// A host and its key reach the key store exactly where the key has the form of
/// a key and the name is acceptable; otherwise the request is refused, for the
/// key if that is at fault, and else for the name.
pub proof fn law_enrolment(host: Seq<char>, key: Seq<char>, key_ok: bool, name_ok: bool)
    ensures
        match enrol::after_key_format(host, key, key_ok) {
            EnrolStepView::CheckHostName { host: h, key: k } => {
                &&& key_ok
                &&& h == host
                &&& enrol::after_host_name(h, k, name_ok) == if name_ok {
                    EnrolStepView::EnrolKey { host, key }
                } else {
                    EnrolStepView::Reply(
                        Err(
                            failure::client_failure(
                                failure::BAD_REQUEST,
                                "invalid name format"@,
                            ),
                        ),
                    )
                }
            },
            step => {
                &&& !key_ok
                &&& step == EnrolStepView::Reply(
                    Err(
                        failure::client_failure(
                            failure::BAD_REQUEST,
                            "invalid key format"@,
                        ),
                    ),
                )
            },
        },
{
}

/// An enrolment succeeds exactly where the key store took the key; a key that it
/// did not take is the client's failure, and its own error the service's.
pub proof fn law_key_store_decides_on_enrolment(answer: Result<bool, Seq<char>>)
    ensures
        enrol::after_enrolment(answer) is Ok <==> answer == Ok::<bool, Seq<char>>(true),
        answer == Ok::<bool, Seq<char>>(false) ==> (enrol::after_enrolment(answer) matches Err(
            failure,
        ) && {
            &&& failure.status_code == 400
            &&& failure.error_code is None
            &&& failure.external_message == "invalid enrolment request"@
            &&& failure.internal_message == "invalid enrolment request"@
        }),
        answer matches Err(detail) ==> (enrol::after_enrolment(answer) matches Err(failure) && {
            &&& failure.status_code == 500
            &&& failure.error_code matches Some(code) && code == "Internal"@
            &&& failure.external_message == "Internal Server Error"@
            &&& failure.internal_message == "internal error: "@ + detail
        }),
{
}

/// An enrolment hands the whole host and the whole key to the key store where
/// both are in order, and is refused for the first that is not.
pub proof fn law_enrolment_hands_on_host_and_key(host: Seq<char>, key: Seq<char>)
    ensures
        enrol::after_key_format(host, key, true) == (EnrolStepView::CheckHostName { host, key }),
        enrol::after_host_name(host, key, true) == (EnrolStepView::EnrolKey { host, key }),
        enrol::after_key_format(host, key, false) matches EnrolStepView::Reply(Err(failure)) && {
            &&& failure.status_code == 400
            &&& failure.error_code is None
            &&& failure.external_message == "invalid key format"@
            &&& failure.internal_message == "invalid key format"@
        },
        enrol::after_host_name(host, key, false) matches EnrolStepView::Reply(Err(failure)) && {
            &&& failure.status_code == 400
            &&& failure.error_code is None
            &&& failure.external_message == "invalid name format"@
            &&& failure.internal_message == "invalid name format"@
        },
{
}

/// The overview is what the report store made of it: as many lines, and the same
/// line at every place.  An error of the report store is the service's failure.
pub proof fn law_overview_is_the_whole_summary<S>(answer: Result<Seq<S>, Seq<char>>)
    ensures
        match answer {
            Ok(lines) => jobs::after_summary(answer) matches Ok(summary) && {
                &&& summary.len() == lines.len()
                &&& forall|i: int| 0 <= i < lines.len() ==> #[trigger] summary[i] == lines[i]
            },
            Err(detail) => jobs::after_summary(answer) matches Err(failure) && {
                &&& failure.status_code == 500
                &&& failure.error_code matches Some(code) && code == "Internal"@
                &&& failure.external_message == "Internal Server Error"@
                &&& failure.internal_message == "internal error: "@ + detail
            },
        },
{
}

/// A request for the overview whose header spells a key has the key store asked
/// about the whole key.
pub proof fn law_overview_asks_about_the_whole_key<S>(
    headers: HeaderMap<HeaderValue>,
    before: Seq<u8>,
    scheme: Seq<u8>,
    between: Seq<u8>,
    secret: Seq<u8>,
    after: Seq<u8>,
)
    requires
        auth::first_values(headers).contains_key("authorization"@),
        auth::spells(
            auth::first_values(headers)["authorization"@],
            before,
            scheme,
            between,
            secret,
            after,
        ),
    ensures
        jobs::begin::<S>(auth::authorization(headers)) matches JobsStepView::CheckKey(presented)
            && {
            &&& presented.len() == secret.len()
            &&& forall|i: int|
                0 <= i < secret.len() ==> #[trigger] presented[i] as int == secret[i] as int
        },
{
    auth::law_whole_key_is_presented(headers, before, scheme, between, secret, after);
}

/// A request for the overview that is not granted is told why.
pub proof fn law_overview_refusals_say_why<S>(answer: Result<Option<AuthView>, Seq<char>>)
    ensures
        jobs::begin::<S>(None) matches JobsStepView::Reply(Err(failure)) && {
            &&& failure.status_code == 401
            &&& failure.error_code is None
            &&& failure.external_message == "invalid Authorization header"@
            &&& failure.internal_message == "invalid Authorization header"@
        },
        match answer {
            Ok(Some(owner)) => if owner.global_view {
                jobs::after_key::<S>(answer) == JobsStepView::<S>::Summarise(1)
            } else {
                jobs::after_key::<S>(answer) matches JobsStepView::Reply(Err(failure)) && {
                    &&& failure.status_code == 401
                    &&& failure.error_code is None
                    &&& failure.external_message == "uh uh uh"@
                    &&& failure.internal_message == "uh uh uh"@
                }
            },
            Ok(None) => jobs::after_key::<S>(answer) matches JobsStepView::Reply(Err(failure)) && {
                &&& failure.status_code == 401
                &&& failure.error_code is None
                &&& failure.external_message == "invalid Authorization header"@
                &&& failure.internal_message == "invalid Authorization header"@
            },
            Err(detail) => jobs::after_key::<S>(answer) matches JobsStepView::Reply(Err(failure))
                && {
                &&& failure.status_code == 500
                &&& failure.error_code matches Some(code) && code == "Internal"@
                &&& failure.external_message == "Internal Server Error"@
                &&& failure.internal_message == "internal error: "@ + detail
            },
        },
{
}

/// The overview is made exactly for a key that is known and allows it; any
/// other request for it is answered with a failure.
pub proof fn law_overview_needs_permission<S>(
    authorization: Option<Seq<u8>>,
    answer: Result<Option<AuthView>, Seq<char>>,
)
    ensures
        jobs::begin::<S>(authorization) is CheckKey <==> auth::presented_key(authorization) is Some,
        jobs::begin::<S>(authorization) is CheckKey || jobs::begin::<S>(
            authorization,
        ) matches JobsStepView::Reply(Err(_)),
        jobs::after_key::<S>(answer) == JobsStepView::<S>::Summarise(jobs::SUMMARY_EXTENT) <==> (
        answer matches Ok(Some(auth)) && auth.global_view),
        jobs::after_key::<S>(answer) is Summarise || jobs::after_key::<S>(
            answer,
        ) matches JobsStepView::Reply(Err(_)),
{
}

} // verus!
