//! Enrolment: a host registers the key with which it will report.

use vstd::prelude::*;

use crate::failure;
use crate::failure::{HttpFailure, HttpFailureView};

verus! {

/// A request to enrol.
#[derive(Debug)]
pub struct EnrolBody {
    pub host: String,
    pub key: String,
}

/// What an enrolment waits for, or the answer to it.
#[derive(Debug)]
pub enum EnrolStep {
    /// See whether the key has the form of a key.
    CheckKeyFormat(AwaitingKeyFormat),
    /// See whether the name of the host is acceptable.
    CheckHostName(AwaitingHostName),
    /// Hand the host and its key to the key store.
    EnrolKey(AwaitingEnrolment),
    /// The request is over.
    Reply(Result<(), HttpFailure>),
}

/// An enrolment whose `key` is to be checked for its form.
#[derive(Debug)]
pub struct AwaitingKeyFormat {
    pub host: String,
    pub key: String,
}

/// An enrolment whose `host` is to be checked as a name.
#[derive(Debug)]
pub struct AwaitingHostName {
    pub host: String,
    pub key: String,
}

/// An enrolment that the key store is to decide on.
#[derive(Debug)]
pub struct AwaitingEnrolment {
    pub host: String,
    pub key: String,
}

/// What an [`EnrolStep`] holds.
pub enum EnrolStepView {
    CheckKeyFormat { host: Seq<char>, key: Seq<char> },
    CheckHostName { host: Seq<char>, key: Seq<char> },
    EnrolKey { host: Seq<char>, key: Seq<char> },
    Reply(Result<(), HttpFailureView>),
}

/// What an answer holds.
pub open spec fn reply_view(reply: Result<(), HttpFailure>) -> Result<(), HttpFailureView> {
    match reply {
        Ok(_) => Ok(()),
        Err(failure) => Err(failure@),
    }
}

impl View for EnrolStep {
    type V = EnrolStepView;

    open spec fn view(&self) -> EnrolStepView {
        match self {
            EnrolStep::CheckKeyFormat(w) => EnrolStepView::CheckKeyFormat {
                host: w.host@,
                key: w.key@,
            },
            EnrolStep::CheckHostName(w) => EnrolStepView::CheckHostName {
                host: w.host@,
                key: w.key@,
            },
            EnrolStep::EnrolKey(w) => EnrolStepView::EnrolKey { host: w.host@, key: w.key@ },
            EnrolStep::Reply(reply) => EnrolStepView::Reply(reply_view(*reply)),
        }
    }
}

/// The step after the check of the key's form.
pub open spec fn after_key_format(
    host: Seq<char>,
    key: Seq<char>,
    well_formed: bool,
) -> EnrolStepView {
    if well_formed {
        EnrolStepView::CheckHostName { host, key }
    } else {
        EnrolStepView::Reply(
            Err(failure::client_failure(failure::BAD_REQUEST, "invalid key format"@)),
        )
    }
}

/// The step after the check of the host's name.
pub open spec fn after_host_name(
    host: Seq<char>,
    key: Seq<char>,
    acceptable: bool,
) -> EnrolStepView {
    if acceptable {
        EnrolStepView::EnrolKey { host, key }
    } else {
        EnrolStepView::Reply(
            Err(failure::client_failure(failure::BAD_REQUEST, "invalid name format"@)),
        )
    }
}

/// What the key store said: whether it took the key, or that it failed, with its
/// error written out.
pub open spec fn enrol_answer(enrolled: Result<bool, String>) -> Result<bool, Seq<char>> {
    match enrolled {
        Ok(accepted) => Ok(accepted),
        Err(detail) => Err(detail@),
    }
}

/// The answer to an enrolment, from the key store's answer.
pub open spec fn after_enrolment(answer: Result<bool, Seq<char>>) -> Result<(), HttpFailureView> {
    match answer {
        Ok(true) => Ok(()),
        Ok(false) => Err(
            failure::client_failure(failure::BAD_REQUEST, "invalid enrolment request"@),
        ),
        Err(detail) => Err(failure::internal_failure("internal error: "@ + detail)),
    }
}

/// Takes up a request to enrol.
pub fn enrol(body: EnrolBody) -> (step: EnrolStep)
    ensures
        step@ == (EnrolStepView::CheckKeyFormat { host: body.host@, key: body.key@ }),
        step matches EnrolStep::CheckKeyFormat(waiting) && waiting.host == body.host && waiting.key
            == body.key,
{
    EnrolStep::CheckKeyFormat(AwaitingKeyFormat { host: body.host, key: body.key })
}

impl AwaitingKeyFormat {
    /// Goes on with whether the key has the form of a key.
    pub fn resume(self, well_formed: bool) -> (step: EnrolStep)
        ensures
            step@ == after_key_format(self.host@, self.key@, well_formed),
            if well_formed {
                step matches EnrolStep::CheckHostName(waiting) && waiting.host == self.host
                    && waiting.key == self.key
            } else {
                step matches EnrolStep::Reply(Err(failure)) && {
                    &&& failure.status_code == 400
                    &&& failure.error_code is None
                    &&& failure.external_message@ == "invalid key format"@
                    &&& failure.internal_message@ == "invalid key format"@
                }
            },
    {
        if well_formed {
            EnrolStep::CheckHostName(AwaitingHostName { host: self.host, key: self.key })
        } else {
            EnrolStep::Reply(
                Err(failure::client_error(failure::BAD_REQUEST, "invalid key format")),
            )
        }
    }
}

impl AwaitingHostName {
    /// Goes on with whether the name is acceptable.
    pub fn resume(self, acceptable: bool) -> (step: EnrolStep)
        ensures
            step@ == after_host_name(self.host@, self.key@, acceptable),
            if acceptable {
                step matches EnrolStep::EnrolKey(waiting) && waiting.host == self.host
                    && waiting.key == self.key
            } else {
                step matches EnrolStep::Reply(Err(failure)) && {
                    &&& failure.status_code == 400
                    &&& failure.error_code is None
                    &&& failure.external_message@ == "invalid name format"@
                    &&& failure.internal_message@ == "invalid name format"@
                }
            },
    {
        if acceptable {
            EnrolStep::EnrolKey(AwaitingEnrolment { host: self.host, key: self.key })
        } else {
            EnrolStep::Reply(
                Err(failure::client_error(failure::BAD_REQUEST, "invalid name format")),
            )
        }
    }
}

impl AwaitingEnrolment {
    /// Goes on with whether the key store took the key, or its error, written
    /// out.
    pub fn resume(self, enrolled: Result<bool, String>) -> (reply: Result<(), HttpFailure>)
        ensures
            reply_view(reply) == after_enrolment(enrol_answer(enrolled)),
            match enrolled {
                Ok(accepted) => if accepted {
                    reply is Ok
                } else {
                    reply matches Err(failure) && {
                        &&& failure.status_code == 400
                        &&& failure.error_code is None
                        &&& failure.external_message@ == "invalid enrolment request"@
                        &&& failure.internal_message@ == "invalid enrolment request"@
                    }
                },
                Err(detail) => reply matches Err(failure) && {
                    &&& failure.status_code == 500
                    &&& failure.error_code matches Some(code) && code@ == "Internal"@
                    &&& failure.external_message@ == "Internal Server Error"@
                    &&& failure.internal_message@ == "internal error: "@ + detail@
                },
            },
    {
        if failure::or_500(enrolled)? {
            Ok(())
        } else {
            Err(failure::client_error(failure::BAD_REQUEST, "invalid enrolment request"))
        }
    }
}

} // verus!
