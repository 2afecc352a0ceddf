use bototui::components::batch::JobInfo;
use bototui::components::fetch::{JobFetch, JobListRequest, JobQueueDetail, JobStatus, JobSummary};
use bototui::mocks::MockBatchClient;
use bototui::timefmt::{running_job_created_at, succeeded_job_created_at};

fn queue(name: Option<&str>) -> JobQueueDetail {
    JobQueueDetail { job_queue_name: name.map(|n| n.to_string()) }
}

fn summary(id: Option<&str>, name: Option<&str>, created_at: Option<i64>) -> JobSummary {
    JobSummary {
        job_id: id.map(|s| s.to_string()),
        job_name: name.map(|s| s.to_string()),
        status: None,
        created_at,
    }
}

fn request(q: &str, status: JobStatus) -> Option<JobListRequest> {
    Some(JobListRequest { job_queue: q.to_string(), job_status: status })
}

#[test]
fn listings_follow_the_named_queues() {
    let mut fetch = JobFetch::new(&vec![queue(Some("q1")), queue(None), queue(Some("q2"))]);
    assert_eq!(fetch.next_request(), request("q1", JobStatus::Running));
    fetch.record(vec![]);
    assert_eq!(fetch.next_request(), request("q1", JobStatus::Succeeded));
    fetch.record(vec![]);
    assert_eq!(fetch.next_request(), request("q2", JobStatus::Running));
    fetch.record(vec![]);
    assert_eq!(fetch.next_request(), request("q2", JobStatus::Succeeded));
    assert!(!fetch.is_done());
    fetch.record(vec![]);
    assert_eq!(fetch.next_request(), None);
    assert!(fetch.is_done());
    assert!(fetch.into_jobs().is_empty());
}

#[test]
fn no_named_queue_means_nothing_to_list() {
    let fetch = JobFetch::new(&vec![queue(None)]);
    assert!(fetch.is_done());
    assert_eq!(fetch.next_request(), None);
    let empty = JobFetch::new(&vec![]);
    assert!(empty.is_done());
}

#[test]
fn fetched_jobs_keep_the_listing_order_and_status() {
    let mut fetch = JobFetch::new(&vec![queue(Some("q"))]);
    fetch.record(vec![
        summary(Some("r1"), Some("run-1"), Some(1431648000)),
        summary(None, Some("no-id"), Some(0)),
        summary(Some("r2"), Some("run-2"), Some(1431648000123)),
        summary(Some("r3"), None, None),
    ]);
    fetch.record(vec![
        summary(Some("s1"), Some("done-1"), Some(1431648000123)),
        summary(Some("s2"), Some("done-2"), None),
    ]);
    let jobs = fetch.into_jobs();
    assert_eq!(
        jobs,
        vec![
            JobInfo {
                job_id: "r1".to_string(),
                job_name: "run-1".to_string(),
                status: "RUNNING".to_string(),
                created_at: Some("2015-05-15 00:00:00".to_string()),
            },
            JobInfo {
                job_id: "r2".to_string(),
                job_name: "run-2".to_string(),
                status: "RUNNING".to_string(),
                created_at: Some("2015-05-15 00:00:00".to_string()),
            },
            JobInfo {
                job_id: "s1".to_string(),
                job_name: "done-1".to_string(),
                status: "Succeeded".to_string(),
                created_at: Some("2015-05-15 00:00:00".to_string()),
            },
            JobInfo {
                job_id: "s2".to_string(),
                job_name: "done-2".to_string(),
                status: "Succeeded".to_string(),
                created_at: None,
            },
        ]
    );
}

#[test]
fn running_times_are_seconds_or_milliseconds() {
    assert_eq!(running_job_created_at(1431648000), "2015-05-15 00:00:00");
    assert_eq!(running_job_created_at(1431648000999), "2015-05-15 00:00:00");
    assert_eq!(running_job_created_at(0), "1970-01-01 00:00:00");
    assert_eq!(running_job_created_at(100_000_000_000), "5138-11-16 09:46:40");
    assert_eq!(running_job_created_at(86_399), "1970-01-01 23:59:59");
}

#[test]
fn out_of_range_times_show_the_epoch() {
    assert_eq!(running_job_created_at(-9_000_000_000_000), "1970-01-01 00:00:00");
    assert_eq!(running_job_created_at(i64::MIN), "1970-01-01 00:00:00");
    assert_eq!(succeeded_job_created_at(i64::MIN), "1970-01-01 00:00:00");
}

#[test]
fn succeeded_times_are_milliseconds() {
    assert_eq!(succeeded_job_created_at(1431648000123), "2015-05-15 00:00:00");
    assert_eq!(succeeded_job_created_at(1431648000), "1970-01-17 13:40:48");
    assert_eq!(succeeded_job_created_at(-1), "1969-12-31 23:59:59");
}

#[test]
fn chrono_range_edges() {
    assert_eq!(running_job_created_at(-8334601228800), "-262143-01-01 00:00:00");
    assert_eq!(running_job_created_at(-8334601228801), "1970-01-01 00:00:00");
    assert_eq!(succeeded_job_created_at(-8334601228800000), "-262143-01-01 00:00:00");
    assert_eq!(succeeded_job_created_at(-8334601228800001), "1970-01-01 00:00:00");
    assert_eq!(succeeded_job_created_at(8210266876799999), "+262142-12-31 23:59:59");
    assert_eq!(succeeded_job_created_at(8210266877000000), "1970-01-01 00:00:00");
}

#[test]
fn mock_client_feeds_a_fetch() {
    let mut mock = MockBatchClient::new();
    mock.add_job_queue("queue-a");
    mock.add_running_job("job-1", "test-job-1", "queue-a");
    mock.add_submitted_job("job-2", "test-job-2", "queue-a");
    assert_eq!(mock.job_queues().len(), 1);
    assert_eq!(mock.running_jobs()[0].status, Some(JobStatus::Running));
    assert_eq!(mock.submitted_jobs()[0].status, Some(JobStatus::Submitted));
    assert!(mock.running_jobs()[0].created_at.is_some());

    let mut fetch = JobFetch::new(mock.job_queues());
    assert_eq!(fetch.next_request(), request("queue-a", JobStatus::Running));
    fetch.record(mock.running_jobs().clone());
    fetch.record(mock.submitted_jobs().clone());
    let jobs = fetch.into_jobs();
    assert_eq!(jobs.len(), 2);
    assert_eq!(jobs[0].job_id, "job-1");
    assert_eq!(jobs[0].status, "RUNNING");
    assert_eq!(jobs[1].job_name, "test-job-2");
    assert_eq!(jobs[1].status, "Succeeded");
}
