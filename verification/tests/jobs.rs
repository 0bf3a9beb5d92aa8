//! Tests of the job data model, the wire format and the request plans.

use mac_agent::job::CreateJobRequest;
use mac_agent::job::Job;
use mac_agent::job::JobStatus;
use mac_agent::job::Timestamp;
use mac_agent::runner::Method;
use mac_agent::runner::plan_cancel_job;
use mac_agent::runner::plan_create_job;
use mac_agent::runner::plan_get_job;
use mac_agent::runner::plan_list_jobs;
use mac_agent::runner::plan_retry_job;
use mac_agent::runner::runner_url;
use mac_agent::wire::encode_create_job_request;

const ALL_STATUSES: [JobStatus; 7] = [
    JobStatus::Queued,
    JobStatus::Coding,
    JobStatus::Patching,
    JobStatus::Testing,
    JobStatus::PrOpened,
    JobStatus::Failed,
    JobStatus::Cancelled,
];

#[test]
fn status_tokens_are_snake_case() {
    let expected = [
        "queued",
        "coding",
        "patching",
        "testing",
        "pr_opened",
        "failed",
        "cancelled",
    ];
    for (status, token) in ALL_STATUSES.iter().zip(expected.iter()) {
        assert_eq!(status.token(), *token);
    }
}

#[test]
fn status_tokens_round_trip() {
    for status in ALL_STATUSES {
        let token = status.token();
        let back = JobStatus::from_token(token);
        assert_eq!(back, Some(status));
        assert_eq!(back.unwrap().token(), token);
    }
}

#[test]
fn unknown_tokens_are_rejected() {
    assert_eq!(JobStatus::from_token(""), None);
    assert_eq!(JobStatus::from_token("done"), None);
    assert_eq!(JobStatus::from_token("Queued"), None);
    assert_eq!(JobStatus::from_token("pr-opened"), None);
    assert_eq!(JobStatus::from_token("queued "), None);
}

#[test]
fn encode_plain_request() {
    let request = CreateJobRequest {
        task: String::from("fix bug"),
        repo: String::from("org/app"),
        dry_run: false,
    };
    assert_eq!(
        encode_create_job_request(&request),
        "{\"task\":\"fix bug\",\"repo\":\"org/app\",\"dry_run\":false}"
    );
}

#[test]
fn encode_dry_run_request() {
    let request = CreateJobRequest {
        task: String::from("audit"),
        repo: String::from("org/app"),
        dry_run: true,
    };
    assert_eq!(
        encode_create_job_request(&request),
        "{\"task\":\"audit\",\"repo\":\"org/app\",\"dry_run\":true}"
    );
}

#[test]
fn encode_empty_fields() {
    let request = CreateJobRequest {
        task: String::new(),
        repo: String::new(),
        dry_run: false,
    };
    assert_eq!(
        encode_create_job_request(&request),
        "{\"task\":\"\",\"repo\":\"\",\"dry_run\":false}"
    );
}

#[test]
fn encode_escapes_special_characters() {
    let request = CreateJobRequest {
        task: String::from("say \"hi\"\\\n\t"),
        repo: String::from("a\u{08}b\u{0C}c\r"),
        dry_run: false,
    };
    assert_eq!(
        encode_create_job_request(&request),
        "{\"task\":\"say \\\"hi\\\"\\\\\\n\\t\",\"repo\":\"a\\bb\\fc\\r\",\"dry_run\":false}"
    );
}

#[test]
fn encode_escapes_control_characters_as_hex() {
    let request = CreateJobRequest {
        task: String::from("\u{01}\u{1F}"),
        repo: String::from("r"),
        dry_run: false,
    };
    assert_eq!(
        encode_create_job_request(&request),
        "{\"task\":\"\\u0001\\u001f\",\"repo\":\"r\",\"dry_run\":false}"
    );
}

#[test]
fn encode_passes_unicode_through() {
    let request = CreateJobRequest {
        task: String::from("naïve café ☕"),
        repo: String::from("org/app"),
        dry_run: false,
    };
    assert_eq!(
        encode_create_job_request(&request),
        "{\"task\":\"naïve café ☕\",\"repo\":\"org/app\",\"dry_run\":false}"
    );
}

#[test]
fn encoded_request_parses_as_json() {
    let request = CreateJobRequest {
        task: String::from("line1\nline2 \"quoted\" \\ \u{02}"),
        repo: String::from("org/répo"),
        dry_run: true,
    };
    let text = encode_create_job_request(&request);
    let value: serde_json::Value = serde_json::from_str(&text).unwrap();
    assert_eq!(
        value.get("task").unwrap().as_str().unwrap(),
        "line1\nline2 \"quoted\" \\ \u{02}"
    );
    assert_eq!(value.get("repo").unwrap().as_str().unwrap(), "org/répo");
    assert_eq!(value.get("dry_run").unwrap().as_bool().unwrap(), true);
    assert_eq!(value.as_object().unwrap().len(), 3);
}

#[test]
fn create_plan_is_one_post_to_jobs() {
    let request = CreateJobRequest {
        task: String::from("fix bug"),
        repo: String::from("org/app"),
        dry_run: false,
    };
    let plan = plan_create_job(&request);
    assert_eq!(plan.method, Method::Post);
    assert_eq!(plan.url, "http://localhost:3847/jobs");
    assert_eq!(
        plan.body.as_deref(),
        Some("{\"task\":\"fix bug\",\"repo\":\"org/app\",\"dry_run\":false}")
    );
}

#[test]
fn list_plan_is_one_get_of_jobs() {
    let plan = plan_list_jobs();
    assert_eq!(plan.method, Method::Get);
    assert_eq!(plan.url, "http://localhost:3847/jobs");
    assert!(plan.body.is_none());
}

#[test]
fn detail_plan_targets_the_job() {
    let plan = plan_get_job("j1");
    assert_eq!(plan.method, Method::Get);
    assert_eq!(plan.url, "http://localhost:3847/jobs/j1");
    assert!(plan.body.is_none());
}

#[test]
fn retry_plan_posts_to_retry() {
    let plan = plan_retry_job("j42");
    assert_eq!(plan.method, Method::Post);
    assert_eq!(plan.url, "http://localhost:3847/jobs/j42/retry");
    assert!(plan.body.is_none());
}

#[test]
fn cancel_plan_posts_to_cancel() {
    let plan = plan_cancel_job("j42");
    assert_eq!(plan.method, Method::Post);
    assert_eq!(plan.url, "http://localhost:3847/jobs/j42/cancel");
    assert!(plan.body.is_none());
}

#[test]
fn runner_url_is_the_fixed_local_address() {
    assert_eq!(runner_url(), "http://localhost:3847");
}

#[test]
fn create_example_against_runner_response() {
    // The request the client would send.
    let request = CreateJobRequest {
        task: String::from("fix bug"),
        repo: String::from("org/app"),
        dry_run: false,
    };
    let plan = plan_create_job(&request);
    assert_eq!(plan.method, Method::Post);
    assert_eq!(plan.url, "http://localhost:3847/jobs");
    assert_eq!(
        plan.body.as_deref(),
        Some("{\"task\":\"fix bug\",\"repo\":\"org/app\",\"dry_run\":false}")
    );

    // The document a runner would answer with, read back into the model.
    let response = "{\"id\":\"j1\",\"task\":\"fix bug\",\"repo\":\"org/app\",\
                    \"branch\":null,\"status\":\"queued\",\"pr_url\":null,\
                    \"error\":null,\"logs\":[],\
                    \"created_at\":\"2024-01-01T00:00:00Z\",\
                    \"updated_at\":\"2024-01-01T00:00:00Z\"}";
    let value: serde_json::Value = serde_json::from_str(response).unwrap();
    let status_token = value.get("status").unwrap().as_str().unwrap();
    let created = chrono::DateTime::parse_from_rfc3339(
        value.get("created_at").unwrap().as_str().unwrap(),
    )
    .unwrap();
    let job = Job {
        id: String::from(value.get("id").unwrap().as_str().unwrap()),
        task: String::from(value.get("task").unwrap().as_str().unwrap()),
        repo: String::from(value.get("repo").unwrap().as_str().unwrap()),
        branch: None,
        status: JobStatus::from_token(status_token).unwrap(),
        pr_url: None,
        error: None,
        logs: Vec::new(),
        created_at: Timestamp {
            unix_millis: created.timestamp_millis(),
        },
        updated_at: Timestamp {
            unix_millis: created.timestamp_millis(),
        },
    };
    assert_eq!(job.status, JobStatus::Queued);
    assert_eq!(job.id, "j1");
    assert_eq!(job.task, "fix bug");
    assert_eq!(job.repo, "org/app");
}
