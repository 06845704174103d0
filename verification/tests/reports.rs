use hyper::header::{HeaderMap, HeaderValue, AUTHORIZATION};
use keeper::auth::Auth;
use keeper::failure::HttpFailure;
use keeper::report::{
    Decision, PostFile, ReportFinishBody, ReportId, ReportOutputBody, ReportResult, ReportStartBody,
    Timestamp,
};
use keeper::request::{
    report_finish, report_output, report_start, AwaitingLoad, AwaitingStore, Step,
};

fn at(seconds: i64) -> Timestamp {
    Timestamp { seconds, nanos: 5 }
}

fn id(uuid: &str) -> ReportId {
    ReportId {
        host: "web".to_string(),
        job: "backup".to_string(),
        pid: 4321,
        time: at(1000),
        uuid: uuid.to_string(),
    }
}

fn start(uuid: &str) -> ReportStartBody {
    ReportStartBody { id: id(uuid), start_time: at(1001), script: "#!/bin/sh".to_string() }
}

fn output(uuid: &str, record: &str) -> ReportOutputBody<String> {
    ReportOutputBody { id: id(uuid), record: record.to_string() }
}

fn finish(uuid: &str, duration_millis: i32) -> ReportFinishBody {
    ReportFinishBody { id: id(uuid), end_time: at(1009), duration_millis, exit_status: 3 }
}

fn open_file(records: &[&str]) -> PostFile<String> {
    PostFile {
        sealed: false,
        report_uuid: "u1".to_string(),
        report_time: at(1002),
        report_pid: 4321,
        time_start: at(1001),
        time_end: None,
        duration: None,
        status: None,
        output: records.iter().map(|r| r.to_string()).collect(),
        script: "#!/bin/sh".to_string(),
    }
}

fn copy(file: &PostFile<String>) -> PostFile<String> {
    PostFile {
        sealed: file.sealed,
        report_uuid: file.report_uuid.clone(),
        report_time: file.report_time,
        report_pid: file.report_pid,
        time_start: file.time_start,
        time_end: file.time_end,
        duration: file.duration,
        status: file.status,
        output: file.output.clone(),
        script: file.script.clone(),
    }
}

fn sealed_file() -> PostFile<String> {
    stored(finish("u1", 250).decide(Some(open_file(&["a"]))))
}

fn stored(decision: Decision<String>) -> PostFile<String> {
    match decision {
        Decision::Store(file) => file,
        Decision::Reply(reply) => panic!("{:?}", reply),
    }
}

fn replied(decision: Decision<String>) -> Result<ReportResult, HttpFailure> {
    match decision {
        Decision::Reply(reply) => reply,
        Decision::Store(file) => panic!("{:?}", file),
    }
}

fn failed(reply: Result<ReportResult, HttpFailure>, status_code: u16, message: &str) {
    let failure = reply.unwrap_err();
    assert_eq!(failure.status_code, status_code);
    assert_eq!(failure.error_code, None);
    assert_eq!(failure.external_message, message);
    assert_eq!(failure.internal_message, message);
}

fn existed(reply: Result<ReportResult, HttpFailure>) {
    assert_eq!(reply.unwrap(), ReportResult { existed_already: true });
}

#[test]
fn start_creates_a_report() {
    let file = stored(start("u1").decide(None, at(1002)));
    assert!(!file.sealed);
    assert_eq!(file.report_uuid, "u1");
    assert_eq!(file.report_time, at(1002));
    assert_eq!(file.report_pid, 4321);
    assert_eq!(file.time_start, at(1001));
    assert_eq!(file.time_end, None);
    assert_eq!(file.duration, None);
    assert_eq!(file.status, None);
    assert!(file.output.is_empty());
    assert_eq!(file.script, "#!/bin/sh");
}

#[test]
fn second_start_of_a_run_is_accepted() {
    existed(replied(start("u1").decide(Some(open_file(&[])), at(1002))));
}

#[test]
fn start_of_another_run_conflicts() {
    let message = "this time already submitted, with different UUID";
    failed(replied(start("u2").decide(Some(open_file(&[])), at(1002))), 409, message);
    failed(replied(start("u2").decide(Some(sealed_file()), at(1002))), 409, message);
}

#[test]
fn start_after_the_end_conflicts() {
    let reply = replied(start("u1").decide(Some(sealed_file()), at(1002)));
    failed(reply, 409, "this job is already complete");
}

#[test]
fn output_is_appended() {
    let file = stored(output("u1", "b").decide(Some(open_file(&["c", "a"]))));
    assert_eq!(file.output, ["c", "a", "b"]);
    assert!(!file.sealed);
    assert_eq!(file.report_uuid, "u1");
    assert_eq!(file.report_time, at(1002));
    assert_eq!(file.script, "#!/bin/sh");
}

#[test]
fn known_output_is_not_appended() {
    existed(replied(output("u1", "a").decide(Some(open_file(&["c", "a", "b"])))));
}

#[test]
fn output_without_a_start_is_refused() {
    failed(replied(output("u1", "a").decide(None)), 400, "this job does not exist");
}

#[test]
fn output_of_another_run_conflicts() {
    let message = "this time already submitted, with different UUID";
    failed(replied(output("u2", "a").decide(Some(open_file(&["a"])))), 409, message);
}

#[test]
fn output_after_the_end_conflicts() {
    let message = "this job is already complete";
    failed(replied(output("u1", "z").decide(Some(sealed_file()))), 409, message);
    failed(replied(output("u1", "a").decide(Some(sealed_file()))), 409, message);
}

#[test]
fn finish_seals_the_report() {
    let file = stored(finish("u1", 250).decide(Some(open_file(&["a"]))));
    assert!(file.sealed);
    assert_eq!(file.duration, Some(250));
    assert_eq!(file.time_end, Some(at(1009)));
    assert_eq!(file.status, Some(3));
    assert_eq!(file.output, ["a"]);
    assert_eq!(file.time_start, at(1001));
    assert_eq!(file.report_pid, 4321);
}

#[test]
fn negative_duration_wraps() {
    let file = stored(finish("u1", -1).decide(Some(open_file(&[]))));
    assert_eq!(file.duration, Some(u64::MAX));
    let file = stored(finish("u1", i32::MIN).decide(Some(open_file(&[]))));
    assert_eq!(file.duration, Some(0xffff_ffff_8000_0000));
    let file = stored(finish("u1", i32::MAX).decide(Some(open_file(&[]))));
    assert_eq!(file.duration, Some(0x7fff_ffff));
}

#[test]
fn second_finish_is_accepted_and_changes_nothing() {
    existed(replied(finish("u1", 999).decide(Some(sealed_file()))));
}

#[test]
fn finish_of_another_run_conflicts() {
    let message = "this time already submitted, with different UUID";
    failed(replied(finish("u2", 1).decide(Some(open_file(&[])))), 409, message);
    failed(replied(finish("u2", 1).decide(Some(sealed_file()))), 409, message);
}

#[test]
fn finish_without_a_start_is_refused() {
    failed(replied(finish("u1", 1).decide::<String>(None)), 400, "this job does not exist");
}

fn bearer(key: &str) -> HeaderMap<HeaderValue> {
    let mut map = HeaderMap::new();
    map.insert(AUTHORIZATION, HeaderValue::from_str(&format!("Bearer {}", key)).unwrap());
    map
}

fn known(host: &str) -> Result<Option<Auth>, String> {
    Ok(Some(Auth { host: host.to_string(), global_view: false }))
}

fn key_step(step: Step<String>, answer: Result<Option<Auth>, String>) -> Step<String> {
    match step {
        Step::CheckKey(waiting) => {
            assert_eq!(waiting.key, "k1");
            waiting.resume(answer)
        }
        other => panic!("{:?}", other),
    }
}

fn name_step(step: Step<String>, answer: bool) -> Step<String> {
    match step {
        Step::CheckName(waiting) => {
            assert_eq!(waiting.name, "backup");
            waiting.resume(answer)
        }
        other => panic!("{:?}", other),
    }
}

fn load_step(step: Step<String>) -> AwaitingLoad<String> {
    match step {
        Step::Load(waiting) => {
            assert_eq!(waiting.key.host, "web");
            assert_eq!(waiting.key.job, "backup");
            assert_eq!(waiting.key.time, at(1000));
            waiting
        }
        other => panic!("{:?}", other),
    }
}

fn store_step(step: Step<String>) -> AwaitingStore<String> {
    match step {
        Step::Store(waiting) => {
            assert_eq!(waiting.key.host, "web");
            assert_eq!(waiting.key.job, "backup");
            assert_eq!(waiting.key.time, at(1000));
            waiting
        }
        other => panic!("{:?}", other),
    }
}

fn reply_step(step: Step<String>) -> Result<ReportResult, HttpFailure> {
    match step {
        Step::Reply(reply) => reply,
        other => panic!("{:?}", other),
    }
}

fn admitted(step: Step<String>) -> AwaitingLoad<String> {
    load_step(name_step(key_step(step, known("web")), true))
}

#[test]
fn a_run_from_start_to_end() {
    let headers = bearer("k1");

    let waiting = admitted(report_start(&headers, start("u1")));
    let waiting = store_step(waiting.resume_at(Ok(None), at(1002)));
    let file = stored(Decision::Store(waiting.file));
    assert_eq!(file.report_time, at(1002));

    let waiting = admitted(report_output(&headers, output("u1", "a")));
    let file = store_step(waiting.resume(Ok(Some(file)))).file;
    assert_eq!(file.output, ["a"]);

    let waiting = admitted(report_finish(&headers, finish("u1", 77)));
    let waiting = store_step(waiting.resume(Ok(Some(file))));
    assert!(waiting.file.sealed);
    assert_eq!(waiting.file.duration, Some(77));
    assert_eq!(waiting.resume(Ok(())).unwrap(), ReportResult { existed_already: false });
}

#[test]
fn request_sent_again_is_accepted_without_effect() {
    let headers = bearer("k1");
    let file = store_step(admitted(report_start(&headers, start("u1"))).resume(Ok(None))).file;
    existed(reply_step(admitted(report_start(&headers, start("u1"))).resume(Ok(Some(file)))));

    let waiting = admitted(report_output(&headers, output("u1", "a")));
    let file = store_step(waiting.resume(Ok(Some(open_file(&[]))))).file;
    let waiting = admitted(report_output(&headers, output("u1", "a")));
    existed(reply_step(waiting.resume(Ok(Some(file)))));

    let waiting = admitted(report_finish(&headers, finish("u1", 5)));
    let file = store_step(waiting.resume(Ok(Some(open_file(&[]))))).file;
    let waiting = admitted(report_finish(&headers, finish("u1", 6)));
    existed(reply_step(waiting.resume(Ok(Some(file)))));
}

#[test]
fn new_report_bears_the_current_time() {
    let before = chrono::Utc::now().timestamp();
    let waiting = admitted(report_start(&bearer("k1"), start("u1")));
    let file = store_step(waiting.resume(Ok(None))).file;
    let after = chrono::Utc::now().timestamp();
    assert!(before <= file.report_time.seconds && file.report_time.seconds <= after);
    assert!(file.report_time.nanos < 1_000_000_000);
}

#[test]
fn request_about_another_host_is_refused() {
    let step = key_step(report_start(&bearer("k1"), start("u1")), known("mail"));
    failed(reply_step(step), 401, "uh uh uh");
    let step = key_step(report_output(&bearer("k1"), output("u1", "a")), known("Web"));
    failed(reply_step(step), 401, "uh uh uh");
    let step = key_step(report_finish(&bearer("k1"), finish("u1", 1)), known(""));
    failed(reply_step(step), 401, "uh uh uh");
}

#[test]
fn request_with_an_unknown_key_is_refused() {
    let step = key_step(report_start(&bearer("k1"), start("u1")), Ok(None));
    failed(reply_step(step), 401, "invalid Authorization header");
}

#[test]
fn request_without_a_key_is_refused_at_once() {
    let reply = reply_step(report_output(&HeaderMap::new(), output("u1", "a")));
    failed(reply, 401, "invalid Authorization header");
}

#[test]
fn bad_job_name_is_refused() {
    let step = key_step(report_finish(&bearer("k1"), finish("u1", 1)), known("web"));
    failed(reply_step(name_step(step, false)), 400, "job name too short");
}

fn internal(reply: Result<ReportResult, HttpFailure>, message: &str) {
    let failure = reply.unwrap_err();
    assert_eq!(failure.status_code, 500);
    assert_eq!(failure.error_code, Some("Internal".to_string()));
    assert_eq!(failure.external_message, "Internal Server Error");
    assert_eq!(failure.internal_message, message);
}

#[test]
fn failing_stores_are_internal_errors() {
    let step = key_step(report_start(&bearer("k1"), start("u1")), Err("broken".to_string()));
    internal(reply_step(step), "internal error: broken");

    let waiting = admitted(report_start(&bearer("k1"), start("u1")));
    internal(reply_step(waiting.resume(Err("broken".to_string()))), "data store error");

    let waiting = admitted(report_start(&bearer("k1"), start("u1")));
    let waiting = store_step(waiting.resume(Ok(None)));
    internal(waiting.resume(Err("disk full".to_string())), "store file? disk full");
}

#[test]
fn a_report_grows_and_then_stays() {
    let headers = bearer("k1");
    let mut file = store_step(admitted(report_start(&headers, start("u1"))).resume(Ok(None))).file;
    for (record, expected) in [
        ("a", vec!["a"]),
        ("b", vec!["a", "b"]),
        ("a", vec!["a", "b"]),
        ("c", vec!["a", "b", "c"]),
    ] {
        let before = copy(&file);
        match admitted(report_output(&headers, output("u1", record))).resume(Ok(Some(file))) {
            Step::Store(waiting) => file = waiting.file,
            Step::Reply(reply) => {
                existed(reply);
                file = before;
            }
            other => panic!("{:?}", other),
        }
        assert_eq!(file.output, expected);
    }
    let waiting = admitted(report_finish(&headers, finish("u1", 1)));
    let file = store_step(waiting.resume(Ok(Some(file)))).file;
    assert_eq!(file.output, ["a", "b", "c"]);
    assert!(file.time_end.is_some() && file.duration.is_some() && file.status.is_some());
    let waiting = admitted(report_output(&headers, output("u1", "d")));
    failed(reply_step(waiting.resume(Ok(Some(file)))), 409, "this job is already complete");
}

#[test]
fn a_record_unequal_to_itself_is_added_again() {
    let mut file = match start("u1").decide::<f64>(None, at(1002)) {
        Decision::Store(file) => file,
        Decision::Reply(reply) => panic!("{:?}", reply),
    };
    for n in 1..=2 {
        let body = ReportOutputBody { id: id("u1"), record: f64::NAN };
        file = match body.decide(Some(file)) {
            Decision::Store(file) => file,
            Decision::Reply(reply) => panic!("{:?}", reply),
        };
        assert_eq!(file.output.len(), n);
    }
}

#[test]
fn record_sent_again_later_is_accepted_without_effect() {
    let file = open_file(&["a", "b", "c"]);
    let waiting = admitted(report_output(&bearer("k1"), output("u1", "a")));
    existed(reply_step(waiting.resume(Ok(Some(file)))));
}

#[test]
fn of_two_starts_at_one_time_the_first_wins() {
    let headers = bearer("k1");
    let one = admitted(report_start(&headers, start("u1")));
    let other = admitted(report_start(&headers, start("u2")));
    let waiting = store_step(other.resume_at(Ok(None), at(1002)));
    assert_eq!(waiting.file.report_uuid, "u2");
    let file = stored(Decision::Store(waiting.file));
    let message = "this time already submitted, with different UUID";
    failed(reply_step(one.resume_at(Ok(Some(file)), at(1003))), 409, message);
}

/// Conducts a request against the report that is kept.
fn conduct(
    kept: &mut Option<PostFile<String>>,
    waiting: AwaitingLoad<String>,
    now: Timestamp,
) -> Result<ReportResult, HttpFailure> {
    match waiting.resume_at(Ok(kept.as_ref().map(copy)), now) {
        Step::Store(waiting) => {
            *kept = Some(copy(&waiting.file));
            waiting.resume(Ok(()))
        }
        Step::Reply(reply) => reply,
        other => panic!("{:?}", other),
    }
}

#[test]
fn of_many_starts_at_one_time_the_first_wins() {
    let headers = bearer("k1");
    let [a, b, c, d] = ["u1", "u2", "u3", "u3"].map(|u| admitted(report_start(&headers, start(u))));
    let message = "this time already submitted, with different UUID";
    let mut kept = None;

    let first = conduct(&mut kept, c, at(1002));
    assert_eq!(first.unwrap(), ReportResult { existed_already: false });
    failed(conduct(&mut kept, a, at(1003)), 409, message);
    existed(conduct(&mut kept, d, at(1004)));
    failed(conduct(&mut kept, b, at(1005)), 409, message);

    let file = kept.unwrap();
    assert_eq!(file.report_uuid, "u3");
    assert_eq!(file.report_time, at(1002));
}

#[test]
fn overlapping_requests_take_effect_in_the_order_of_their_turns() {
    let headers = bearer("k1");
    let first = admitted(report_output(&headers, output("u1", "a")));
    let second = admitted(report_output(&headers, output("u1", "b")));
    let repeated = admitted(report_output(&headers, output("u1", "a")));
    let end = admitted(report_finish(&headers, finish("u1", 1)));
    let late = admitted(report_output(&headers, output("u1", "c")));
    let mut kept = Some(open_file(&[]));

    let added = ReportResult { existed_already: false };
    assert_eq!(conduct(&mut kept, second, at(1003)).unwrap(), added);
    assert_eq!(conduct(&mut kept, first, at(1004)).unwrap(), added);
    existed(conduct(&mut kept, repeated, at(1005)));
    assert_eq!(conduct(&mut kept, end, at(1006)).unwrap(), added);
    failed(conduct(&mut kept, late, at(1007)), 409, "this job is already complete");

    let file = kept.unwrap();
    assert_eq!(file.output, ["b", "a"]);
    assert!(file.sealed);
}
