//! The decisions of a service that collects reports on the execution of cron
//! jobs.
//!
//! Hosts enrol with a key, and then send three kinds of request for each run
//! of a job: that it started, each record of its output, and that it finished.
//! This library decides what each request does.  It reads the clock itself, for
//! the time that a new report bears, and performs no other I/O: where a request
//! needs something else from outside (the key store, the report store, the rules
//! for names) the library says what it needs, and goes on from the answer.

pub mod auth;
pub mod enrol;
pub mod failure;
pub mod jobs;
pub mod laws;
pub mod models;
pub mod overlap;
pub mod report;
pub mod request;
pub mod startup;
