use vstd::prelude::*;
use crate::components::fetch::{JobQueueDetail, JobStatus, JobSummary, JobSummaryView};
use crate::timefmt::now_unix_seconds;

verus! {

/// A stand-in for AWS Batch in tests: job queues, and running and submitted jobs.
pub struct MockBatchClient {
    job_queues: Vec<JobQueueDetail>,
    running_jobs: Vec<JobSummary>,
    submitted_jobs: Vec<JobSummary>,
}

pub struct MockBatchClientView {
    pub job_queues: Seq<Option<Seq<char>>>,
    pub running_jobs: Seq<JobSummaryView>,
    pub submitted_jobs: Seq<JobSummaryView>,
}

impl View for MockBatchClient {
    type V = MockBatchClientView;

    closed spec fn view(&self) -> MockBatchClientView {
        MockBatchClientView {
            job_queues: self.job_queues@.map_values(|q: JobQueueDetail| q@),
            running_jobs: self.running_jobs@.map_values(|j: JobSummary| j@),
            submitted_jobs: self.submitted_jobs@.map_values(|j: JobSummary| j@),
        }
    }
}

/// A summary of a job that the mock holds: its id, name and status, created now.
pub open spec fn mock_summary(
    job_id: Seq<char>,
    job_name: Seq<char>,
    status: JobStatus,
    created_at: i64,
) -> JobSummaryView {
    JobSummaryView {
        job_id: Some(job_id),
        job_name: Some(job_name),
        status: Some(status),
        created_at: Some(created_at),
    }
}

impl MockBatchClient {
    /// A mock without queues or jobs.
    pub fn new() -> (r: MockBatchClient)
        ensures
            r@.job_queues == Seq::<Option<Seq<char>>>::empty(),
            r@.running_jobs == Seq::<JobSummaryView>::empty(),
            r@.submitted_jobs == Seq::<JobSummaryView>::empty(),
    {
        let r = MockBatchClient {
            job_queues: Vec::new(),
            running_jobs: Vec::new(),
            submitted_jobs: Vec::new(),
        };
        proof {
            assert(r@.job_queues =~= Seq::<Option<Seq<char>>>::empty());
            assert(r@.running_jobs =~= Seq::<JobSummaryView>::empty());
            assert(r@.submitted_jobs =~= Seq::<JobSummaryView>::empty());
        }
        r
    }

    /// The job queues, in the order they were added.
    pub fn job_queues(&self) -> (r: &Vec<JobQueueDetail>)
        ensures
            r@.map_values(|q: JobQueueDetail| q@) == self@.job_queues,
    {
        &self.job_queues
    }

    /// The running jobs, in the order they were added.
    pub fn running_jobs(&self) -> (r: &Vec<JobSummary>)
        ensures
            r@.map_values(|j: JobSummary| j@) == self@.running_jobs,
    {
        &self.running_jobs
    }

    /// The submitted jobs, in the order they were added.
    pub fn submitted_jobs(&self) -> (r: &Vec<JobSummary>)
        ensures
            r@.map_values(|j: JobSummary| j@) == self@.submitted_jobs,
    {
        &self.submitted_jobs
    }

    /// Adds a job queue of the given name.
    pub fn add_job_queue(&mut self, queue_name: &str)
        ensures
            final(self)@.job_queues == old(self)@.job_queues.push(Some(queue_name@)),
            final(self)@.running_jobs == old(self)@.running_jobs,
            final(self)@.submitted_jobs == old(self)@.submitted_jobs,
    {
        let queue = JobQueueDetail { job_queue_name: Some(queue_name.to_string()) };
        let ghost before = self.job_queues@;
        self.job_queues.push(queue);
        proof {
            assert(self.job_queues@.map_values(|q: JobQueueDetail| q@) =~= before.map_values(
                |q: JobQueueDetail| q@,
            ).push(Some(queue_name@)));
        }
    }

    /// Adds a running job, created now; the queue's name is not recorded.
    pub fn add_running_job(&mut self, job_id: &str, job_name: &str, queue_name: &str)
        ensures
            final(self)@.job_queues == old(self)@.job_queues,
            final(self)@.running_jobs.len() == old(self)@.running_jobs.len() + 1,
            final(self)@.running_jobs.drop_last() == old(self)@.running_jobs,
            exists|t: i64|
                final(self)@.running_jobs.last() == mock_summary(
                    job_id@,
                    job_name@,
                    JobStatus::Running,
                    t,
                ),
            final(self)@.submitted_jobs == old(self)@.submitted_jobs,
    {
        let created_at: i64 = now_unix_seconds();
        let job = JobSummary {
            job_id: Some(job_id.to_string()),
            job_name: Some(job_name.to_string()),
            status: Some(JobStatus::Running),
            created_at: Some(created_at),
        };
        let ghost before = self.running_jobs@;
        self.running_jobs.push(job);
        proof {
            assert(self.running_jobs@.map_values(|j: JobSummary| j@) =~= before.map_values(
                |j: JobSummary| j@,
            ).push(job@));
            assert(job@ == mock_summary(job_id@, job_name@, JobStatus::Running, created_at));
        }
    }

    /// Adds a submitted job, created now; the queue's name is not recorded.
    pub fn add_submitted_job(&mut self, job_id: &str, job_name: &str, queue_name: &str)
        ensures
            final(self)@.job_queues == old(self)@.job_queues,
            final(self)@.running_jobs == old(self)@.running_jobs,
            final(self)@.submitted_jobs.len() == old(self)@.submitted_jobs.len() + 1,
            final(self)@.submitted_jobs.drop_last() == old(self)@.submitted_jobs,
            exists|t: i64|
                final(self)@.submitted_jobs.last() == mock_summary(
                    job_id@,
                    job_name@,
                    JobStatus::Submitted,
                    t,
                ),
    {
        let created_at: i64 = now_unix_seconds();
        let job = JobSummary {
            job_id: Some(job_id.to_string()),
            job_name: Some(job_name.to_string()),
            status: Some(JobStatus::Submitted),
            created_at: Some(created_at),
        };
        let ghost before = self.submitted_jobs@;
        self.submitted_jobs.push(job);
        proof {
            assert(self.submitted_jobs@.map_values(|j: JobSummary| j@) =~= before.map_values(
                |j: JobSummary| j@,
            ).push(job@));
            assert(job@ == mock_summary(job_id@, job_name@, JobStatus::Submitted, created_at));
        }
    }
}

} // verus!
