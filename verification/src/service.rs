//! The gateway's one operation: a job submission, answered in the name of
//! the caller that the connection authenticated.

use crate::identity::{chain_view, extract, outcome_of_chain, PeerIdentity, OID_ROLE};
use crate::request::JobStatusRequest;
use vstd::prelude::*;

verus! {

/// Outcome of an operation, as a code and a text. The code is a text too, so
/// that codes need not be numbers.
#[derive(Debug, Clone, PartialEq, Eq)]
pub struct ResponseHeader {
    pub code: String,
    pub message: String,
}

/// The answer to a job submission.
#[derive(Debug, Clone, PartialEq, Eq)]
pub struct JobStatusResponse {
    pub header: ResponseHeader,
    pub job_id: String,
}

/// Mathematical model of a [`JobStatusResponse`].
pub ghost struct JobStatusResponseView {
    pub code: Seq<char>,
    pub message: Seq<char>,
    pub job_id: Seq<char>,
}

impl View for JobStatusResponse {
    type V = JobStatusResponseView;

    open spec fn view(&self) -> JobStatusResponseView {
        JobStatusResponseView {
            code: self.header.code@,
            message: self.header.message@,
            job_id: self.job_id@,
        }
    }
}

/// The answer that every accepted submission gets.
pub open spec fn accepted() -> JobStatusResponseView {
    JobStatusResponseView { code: "0"@, message: "success"@, job_id: "1234567890"@ }
}

/// A handled call: who called, and what was answered.
#[derive(Debug, Clone, PartialEq, Eq)]
pub struct Handled {
    pub identity: PeerIdentity,
    pub response: JobStatusResponse,
}

/// The gateway's service. It holds no state: every call is answered from its
/// own arguments alone.
#[derive(Debug, Default)]
pub struct WorkFlowService {}

impl WorkFlowService {
    /// Answers a submission made under `identity`. Every submission is
    /// accepted with the same answer, whoever makes it and whatever it asks
    /// for: this is the place where a scheduler would decide.
    pub fn handle(&self, identity: &PeerIdentity, request: &JobStatusRequest) -> (response:
        JobStatusResponse)
        ensures
            response@ == accepted(),
    {
        JobStatusResponse {
            header: ResponseHeader { code: "0".to_owned(), message: "success".to_owned() },
            job_id: "1234567890".to_owned(),
        }
    }

    /// Handles one call: derives the caller's identity from the certificate
    /// chain of its connection (`None` where the peer presented none), then
    /// answers the submission under that identity. An identity that could
    /// not be read degrades to its fixed texts and never fails the call.
    pub fn get_job_status(&self, peer_certs: Option<&[Vec<u8>]>, request: &JobStatusRequest) -> (handled:
        Handled)
        ensures
            handled.identity@ == outcome_of_chain(chain_view(peer_certs), OID_ROLE@).identity(),
            handled.response@ == accepted(),
    {
        let identity = extract(peer_certs);
        let response = self.handle(&identity, request);
        Handled { identity, response }
    }
}

} // verus!
