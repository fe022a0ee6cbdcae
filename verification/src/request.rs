//! The job submission that crosses the trust boundary, and its construction
//! from what a user entered.

use crate::environment::{
    is_first_invalid, parse_entries, parsed_entries, texts, variables, well_formed_entries,
    EnvironmentVariables, EnvironmentVariablesView, InvalidEnv,
};
use vstd::prelude::*;

verus! {

/// What a job runs: a command and its environment, in the order given.
#[derive(Debug, Clone, PartialEq, Eq)]
pub struct Entrypoint {
    pub cmd: String,
    pub envs: Vec<EnvironmentVariables>,
}

/// The resource ceilings requested for a job.
#[derive(Debug, Clone, Copy, PartialEq, Eq, Structural)]
pub struct Quota {
    /// Processor cores.
    pub cpu: u32,
    /// Memory, in megabytes.
    pub memory: u32,
    /// Input and output, in megabytes.
    pub io: u32,
}

/// A job submission.
#[derive(Debug, Clone, PartialEq, Eq)]
pub struct JobStatusRequest {
    pub entrypoint: Entrypoint,
    pub quota: Quota,
    /// Seconds after which the job is given up; 0 for no limit.
    pub timeout: u32,
    /// How often a failed job is tried again.
    pub retry_count: u32,
    /// Urgency, higher for more urgent; meant to lie between -10 and 10,
    /// which is not enforced here.
    pub priority: i32,
    /// Free-form `key=value` texts, carried as they are.
    pub labels: Vec<String>,
    /// Free-form `key=value` texts, carried as they are.
    pub annotations: Vec<String>,
}

/// Mathematical model of a [`JobStatusRequest`].
pub ghost struct JobStatusRequestView {
    pub cmd: Seq<char>,
    pub envs: Seq<EnvironmentVariablesView>,
    pub quota: Quota,
    pub timeout: u32,
    pub retry_count: u32,
    pub priority: i32,
    pub labels: Seq<Seq<char>>,
    pub annotations: Seq<Seq<char>>,
}

impl View for JobStatusRequest {
    type V = JobStatusRequestView;

    open spec fn view(&self) -> JobStatusRequestView {
        JobStatusRequestView {
            cmd: self.entrypoint.cmd@,
            envs: variables(self.entrypoint.envs@),
            quota: self.quota,
            timeout: self.timeout,
            retry_count: self.retry_count,
            priority: self.priority,
            labels: texts(self.labels@),
            annotations: texts(self.annotations@),
        }
    }
}

/// What a user enters to submit a job.
#[derive(Debug, Clone, PartialEq, Eq)]
pub struct CreateArgs {
    /// Command to execute.
    pub cmd: String,
    /// Environment variables, each entered as `KEY=VALUE`.
    pub env: Vec<String>,
    pub cpu: u32,
    pub memory: u32,
    pub io: u32,
    pub timeout: u32,
    pub retry_count: u32,
    pub priority: i32,
    pub labels: Vec<String>,
    pub annotations: Vec<String>,
}

impl CreateArgs {
    /// The submission that these arguments stand for, where every
    /// environment entry is well formed.
    pub open spec fn request(self) -> JobStatusRequestView
        recommends
            well_formed_entries(texts(self.env@)),
    {
        JobStatusRequestView {
            cmd: self.cmd@,
            envs: parsed_entries(texts(self.env@)),
            quota: Quota { cpu: self.cpu, memory: self.memory, io: self.io },
            timeout: self.timeout,
            retry_count: self.retry_count,
            priority: self.priority,
            labels: texts(self.labels@),
            annotations: texts(self.annotations@),
        }
    }
}

/// Builds the submission from what was entered. The environment entries are
/// read first: where one of them stands for no variable there is no
/// submission, and the first such entry is reported. Every other field is
/// carried over as it was entered.
pub fn create_request(args: CreateArgs) -> (built: Result<JobStatusRequest, InvalidEnv>)
    ensures
        built is Ok <==> well_formed_entries(texts(args.env@)),
        built matches Ok(request) ==> request@ == args.request(),
        built matches Err(invalid) ==> exists|at: int|
            is_first_invalid(texts(args.env@), at) && invalid.input@ == #[trigger] args.env@[at]@,
{
    match parse_entries(&args.env) {
        Ok(envs) => Ok(
            JobStatusRequest {
                entrypoint: Entrypoint { cmd: args.cmd, envs },
                quota: Quota { cpu: args.cpu, memory: args.memory, io: args.io },
                timeout: args.timeout,
                retry_count: args.retry_count,
                priority: args.priority,
                labels: args.labels,
                annotations: args.annotations,
            },
        ),
        Err(invalid) => Err(invalid),
    }
}

} // verus!
