//! The bodies of requests, as a client of the API writes them: with each time as
//! text.

use vstd::prelude::*;

verus! {

/// Which report a request is about, and who sends it.
#[derive(Clone, Debug, PartialEq)]
pub struct ReportId {
    pub host: String,
    pub job: String,
    pub pid: u64,
    pub time: String,
    pub uuid: String,
}

/// A request that says that a run started.
#[derive(Clone, Debug, PartialEq)]
pub struct InlineObject3 {
    pub id: ReportId,
    pub script: String,
    pub start_time: String,
}

impl InlineObject3 {
    pub fn new(id: ReportId, script: String, start_time: String) -> (body: InlineObject3)
        ensures
            body.id == id,
            body.script == script,
            body.start_time == start_time,
    {
        InlineObject3 { id, script, start_time }
    }
}

/// A request that holds a record of a run's output.
#[derive(Clone, Debug, PartialEq)]
pub struct ReportOutputBody<R> {
    pub id: ReportId,
    pub record: R,
}

impl<R> ReportOutputBody<R> {
    pub fn new(id: ReportId, record: R) -> (body: ReportOutputBody<R>)
        ensures
            body.id == id,
            body.record == record,
    {
        ReportOutputBody { id, record }
    }
}

} // verus!
