//! Request planning for the job-runner HTTP API.
//!
//! Each of the five operations is exactly one round trip against the
//! fixed local base URL. A `RequestPlan` says everything about that
//! round trip except its transport: the method, the full URL, and the
//! body if there is one. The caller that owns the HTTP client performs
//! one request per plan.

use vstd::prelude::*;
use crate::job::CreateJobRequest;
use crate::wire::spec_create_job_json;
use crate::wire::encode_create_job_request;

verus! {

/// The base URL of the local runner service.
pub open spec fn spec_runner_url() -> Seq<char> {
    "http://localhost:3847"@
}

/// The URL of the job collection.
pub open spec fn spec_jobs_url() -> Seq<char> {
    spec_runner_url() + "/jobs"@
}

/// The URL of one job.
pub open spec fn spec_job_url(id: Seq<char>) -> Seq<char> {
    spec_jobs_url() + "/"@ + id
}

/// The HTTP method of a planned request.
#[derive(Clone, Copy, Debug, PartialEq, Eq, Structural)]
pub enum Method {
    Get,
    Post,
}

/// One HTTP round trip, fully determined up to its transport.
#[derive(Clone, Debug)]
pub struct RequestPlan {
    pub method: Method,
    pub url: String,
    pub body: Option<String>,
}

/// The base URL of the local runner service.
pub fn runner_url() -> (r: &'static str)
    ensures
        r@ == spec_runner_url(),
{
    "http://localhost:3847"
}

/// The URL of the job collection.
fn jobs_url() -> (r: String)
    ensures
        r@ == spec_jobs_url(),
{
    let mut out = String::new();
    out.append(runner_url());
    out.append("/jobs");
    out
}

/// The URL of one job, or of an action on it when `suffix` is not
/// empty.
fn job_url(id: &str, suffix: &str) -> (r: String)
    ensures
        r@ == spec_job_url(id@) + suffix@,
{
    let mut out = jobs_url();
    out.append("/");
    out.append(id);
    out.append(suffix);
    proof {
        assert(out@ =~= spec_job_url(id@) + suffix@);
    }
    out
}

/// Creating a job is one POST to `/jobs` whose body is the request
/// serialized as JSON, and nothing else.
pub fn plan_create_job(request: &CreateJobRequest) -> (p: RequestPlan)
    ensures
        p.method is Post,
        p.url@ == spec_jobs_url(),
        p.body matches Some(b) && b@ == spec_create_job_json(
            request.task@,
            request.repo@,
            request.dry_run,
        ),
{
    RequestPlan { method: Method::Post, url: jobs_url(), body: Some(
        encode_create_job_request(request),
    ) }
}

/// Listing jobs is one GET of `/jobs` with no body.
pub fn plan_list_jobs() -> (p: RequestPlan)
    ensures
        p.method is Get,
        p.url@ == spec_jobs_url(),
        p.body is None,
{
    RequestPlan { method: Method::Get, url: jobs_url(), body: None }
}

/// Fetching one job is one GET of `/jobs/{id}` with no body.
pub fn plan_get_job(id: &str) -> (p: RequestPlan)
    ensures
        p.method is Get,
        p.url@ == spec_job_url(id@),
        p.body is None,
{
    let url = job_url(id, "");
    proof {
        reveal_strlit("");
        assert(spec_job_url(id@) + ""@ =~= spec_job_url(id@));
    }
    RequestPlan { method: Method::Get, url, body: None }
}

/// Retrying a job is one POST to `/jobs/{id}/retry` with no body.
pub fn plan_retry_job(id: &str) -> (p: RequestPlan)
    ensures
        p.method is Post,
        p.url@ == spec_job_url(id@) + "/retry"@,
        p.body is None,
{
    RequestPlan { method: Method::Post, url: job_url(id, "/retry"), body: None }
}

/// Cancelling a job is one POST to `/jobs/{id}/cancel` with no body.
pub fn plan_cancel_job(id: &str) -> (p: RequestPlan)
    ensures
        p.method is Post,
        p.url@ == spec_job_url(id@) + "/cancel"@,
        p.body is None,
{
    RequestPlan { method: Method::Post, url: job_url(id, "/cancel"), body: None }
}

} // verus!
