use hyper::header::{HeaderMap, HeaderValue, AUTHORIZATION};
use keeper::auth::Auth;
use keeper::enrol::{enrol, AwaitingEnrolment, AwaitingHostName, EnrolBody, EnrolStep};
use keeper::failure::{client_error, or_500, HttpFailure};
use keeper::jobs::{global_jobs, jobs_key_checked, jobs_summarised, JobsStep};
use keeper::models::{InlineObject3, ReportId, ReportOutputBody};
use keeper::startup::{check_directory, plan, Startup};

#[test]
fn client_error_has_one_message() {
    let failure = client_error(409, "twice");
    assert_eq!(failure.status_code, 409);
    assert_eq!(failure.error_code, None);
    assert_eq!(failure.external_message, "twice");
    assert_eq!(failure.internal_message, "twice");
}

#[test]
fn or_500_passes_successes_on() {
    assert_eq!(or_500::<u8>(Ok(7)).unwrap(), 7);
    let failure = or_500::<u8>(Err("no".to_string())).unwrap_err();
    assert_eq!(failure.status_code, 500);
    assert_eq!(failure.external_message, "Internal Server Error");
    assert_eq!(failure.internal_message, "internal error: no");
}

fn refused<T: std::fmt::Debug>(reply: Result<T, HttpFailure>, status_code: u16, message: &str) {
    let failure = reply.unwrap_err();
    assert_eq!(failure.status_code, status_code);
    assert_eq!(failure.external_message, message);
}

fn begin() -> keeper::enrol::AwaitingKeyFormat {
    match enrol(EnrolBody { host: "web".to_string(), key: "k1".to_string() }) {
        EnrolStep::CheckKeyFormat(waiting) => waiting,
        other => panic!("{:?}", other),
    }
}

fn to_name() -> AwaitingHostName {
    match begin().resume(true) {
        EnrolStep::CheckHostName(waiting) => waiting,
        other => panic!("{:?}", other),
    }
}

fn to_store() -> AwaitingEnrolment {
    match to_name().resume(true) {
        EnrolStep::EnrolKey(waiting) => waiting,
        other => panic!("{:?}", other),
    }
}

#[test]
fn enrolment_reaches_the_key_store() {
    assert_eq!(begin().key, "k1");
    assert_eq!(to_name().host, "web");
    let waiting = to_store();
    assert_eq!(waiting.host, "web");
    assert_eq!(waiting.key, "k1");
    assert!(waiting.resume(Ok(true)).is_ok());
}

#[test]
fn enrolment_refusals() {
    match begin().resume(false) {
        EnrolStep::Reply(reply) => refused(reply, 400, "invalid key format"),
        other => panic!("{:?}", other),
    }
    match to_name().resume(false) {
        EnrolStep::Reply(reply) => refused(reply, 400, "invalid name format"),
        other => panic!("{:?}", other),
    }
    refused(to_store().resume(Ok(false)), 400, "invalid enrolment request");
    let failure = to_store().resume(Err("broken".to_string())).unwrap_err();
    assert_eq!(failure.status_code, 500);
    assert_eq!(failure.internal_message, "internal error: broken");
}

fn auth(global_view: bool) -> Result<Option<Auth>, String> {
    Ok(Some(Auth { host: "web".to_string(), global_view }))
}

#[test]
fn overview_for_a_key_that_allows_it() {
    let mut headers = HeaderMap::new();
    headers.insert(AUTHORIZATION, HeaderValue::from_static("bearer k1"));
    match global_jobs::<u8>(&headers) {
        JobsStep::CheckKey(key) => assert_eq!(key, "k1"),
        other => panic!("{:?}", other),
    }
    match jobs_key_checked::<u8>(auth(true)) {
        JobsStep::Summarise(extent) => assert_eq!(extent, 1),
        other => panic!("{:?}", other),
    }
    assert_eq!(jobs_summarised(Ok(vec![3u8, 1, 2])).unwrap().summary, [3, 1, 2]);
}

#[test]
fn overview_refusals() {
    match global_jobs::<u8>(&HeaderMap::new()) {
        JobsStep::Reply(reply) => refused(reply, 401, "invalid Authorization header"),
        other => panic!("{:?}", other),
    }
    match jobs_key_checked::<u8>(auth(false)) {
        JobsStep::Reply(reply) => refused(reply, 401, "uh uh uh"),
        other => panic!("{:?}", other),
    }
    match jobs_key_checked::<u8>(Ok(None)) {
        JobsStep::Reply(reply) => refused(reply, 401, "invalid Authorization header"),
        other => panic!("{:?}", other),
    }
    match jobs_key_checked::<u8>(Err("broken".to_string())) {
        JobsStep::Reply(reply) => refused(reply, 500, "Internal Server Error"),
        other => panic!("{:?}", other),
    }
    let failure = jobs_summarised::<u8>(Err("broken".to_string())).unwrap_err();
    assert_eq!(failure.status_code, 500);
    assert_eq!(failure.internal_message, "internal error: broken");
}

fn text(s: &str) -> Option<String> {
    Some(s.to_string())
}

#[test]
fn plans() {
    match plan(None, text("/data"), None) {
        Ok(Startup::Serve(options)) => {
            assert_eq!(options.bind, "0.0.0.0:9978");
            assert_eq!(options.directory, "/data");
        }
        other => panic!("{:?}", other),
    }
    match plan(text("127.0.0.1:80"), text("/data"), None) {
        Ok(Startup::Serve(options)) => assert_eq!(options.bind, "127.0.0.1:80"),
        other => panic!("{:?}", other),
    }
    match plan(None, None, text("api.json")) {
        Ok(Startup::WriteSchema(file)) => assert_eq!(file, "api.json"),
        other => panic!("{:?}", other),
    }
    assert_eq!(
        plan(text("127.0.0.1:80"), None, None).unwrap_err(),
        "ERROR: must specify data directory (-d)"
    );
}

#[test]
fn data_directory_must_be_a_directory() {
    assert!(check_directory("/data", true).is_ok());
    assert_eq!(
        check_directory("/data", false).unwrap_err(),
        "ERROR: /data should be a directory"
    );
}

fn id() -> ReportId {
    ReportId {
        host: "web".to_string(),
        job: "backup".to_string(),
        pid: 9,
        time: "2020-09-01T00:00:00Z".to_string(),
        uuid: "u1".to_string(),
    }
}

#[test]
fn client_bodies() {
    let start = InlineObject3::new(id(), "true".to_string(), "2020-09-01T00:00:01Z".to_string());
    assert_eq!(start.id, id());
    assert_eq!(start.script, "true");
    assert_eq!(start.start_time, "2020-09-01T00:00:01Z");
    assert_eq!(start.clone(), start);
    let output = ReportOutputBody::new(id(), 5u8);
    assert_eq!(output.id, id());
    assert_eq!(output.record, 5);
}
