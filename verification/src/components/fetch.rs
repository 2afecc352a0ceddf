use vstd::prelude::*;
use crate::components::batch::{JobInfo, JobInfoView, jobs_view};
use crate::text::opt_text;
use crate::text::texts_view;
use crate::timefmt::{
    running_created_text, succeeded_created_text, running_job_created_at, succeeded_job_created_at,
};

verus! {

/// The state of an AWS Batch job.
#[derive(Debug, Clone, Copy, PartialEq, Eq, Structural)]
pub enum JobStatus {
    Submitted,
    Pending,
    Runnable,
    Starting,
    Running,
    Succeeded,
    Failed,
}

/// What the job list reads of an AWS Batch job queue.
#[derive(Debug, Clone, PartialEq, Eq)]
pub struct JobQueueDetail {
    pub job_queue_name: Option<String>,
}

/// What the job list reads of an AWS Batch job summary; `created_at` is the Unix
/// time that AWS reports.
#[derive(Debug, Clone, PartialEq, Eq)]
pub struct JobSummary {
    pub job_id: Option<String>,
    pub job_name: Option<String>,
    pub status: Option<JobStatus>,
    pub created_at: Option<i64>,
}

/// A job summary, its texts taken by their views.
pub struct JobSummaryView {
    pub job_id: Option<Seq<char>>,
    pub job_name: Option<Seq<char>>,
    pub status: Option<JobStatus>,
    pub created_at: Option<i64>,
}

impl View for JobSummary {
    type V = JobSummaryView;

    open spec fn view(&self) -> JobSummaryView {
        JobSummaryView {
            job_id: opt_text(self.job_id),
            job_name: opt_text(self.job_name),
            status: self.status,
            created_at: self.created_at,
        }
    }
}

impl View for JobQueueDetail {
    type V = Option<Seq<char>>;

    open spec fn view(&self) -> Option<Seq<char>> {
        opt_text(self.job_queue_name)
    }
}

/// One listing of jobs that the job list asks AWS Batch for.
#[derive(Debug, Clone, PartialEq, Eq)]
pub struct JobListRequest {
    pub job_queue: String,
    pub job_status: JobStatus,
}

/// The names of the queues that have one, in their order.
pub open spec fn named_queues(queues: Seq<JobQueueDetail>) -> Seq<Seq<char>>
    decreases queues.len(),
{
    if queues.len() == 0 {
        seq![]
    } else {
        let rest = named_queues(queues.drop_last());
        match queues.last().job_queue_name {
            Some(n) => rest.push(n@),
            None => rest,
        }
    }
}

/// The status that the listing with this index asks for: each queue is listed for
/// its running jobs, then for its succeeded jobs.
pub open spec fn request_status(index: int) -> JobStatus {
    if index % 2 == 0 {
        JobStatus::Running
    } else {
        JobStatus::Succeeded
    }
}

/// The status text that the job list gives the jobs of a listing.
pub open spec fn status_text(status: JobStatus) -> Seq<char> {
    if status == JobStatus::Running {
        "RUNNING"@
    } else {
        "Succeeded"@
    }
}

/// The shown creation time of a job from a listing of the given status.
pub open spec fn created_text(status: JobStatus, timestamp: int) -> Seq<char> {
    if status == JobStatus::Running {
        running_created_text(timestamp)
    } else {
        succeeded_created_text(timestamp)
    }
}

/// Whether a summary names its job, by id and by name.
pub open spec fn is_listed(s: JobSummary) -> bool {
    s.job_id is Some && s.job_name is Some
}

/// The shown job of a summary that names its job.
pub open spec fn summary_info(s: JobSummary, status: JobStatus) -> JobInfoView {
    JobInfoView {
        job_id: s.job_id.unwrap()@,
        job_name: s.job_name.unwrap()@,
        status: status_text(status),
        created_at: match s.created_at {
            Some(t) => Some(created_text(status, t as int)),
            None => None,
        },
    }
}

/// The shown jobs of one listing: those summaries that carry an id and a name, in order.
pub open spec fn listed_jobs(summaries: Seq<JobSummary>, status: JobStatus) -> Seq<JobInfoView>
    decreases summaries.len(),
{
    if summaries.len() == 0 {
        seq![]
    } else {
        let rest = listed_jobs(summaries.drop_last(), status);
        if is_listed(summaries.last()) {
            rest.push(summary_info(summaries.last(), status))
        } else {
            rest
        }
    }
}

/// The shown jobs of all the listings answered so far, in the order they were asked.
pub open spec fn fetched_jobs(responses: Seq<Seq<JobSummary>>) -> Seq<JobInfoView>
    decreases responses.len(),
{
    if responses.len() == 0 {
        seq![]
    } else {
        fetched_jobs(responses.drop_last()) + listed_jobs(
            responses.last(),
            request_status(responses.len() - 1),
        )
    }
}

/// Every fetched job carries the status of the listing it came from: "RUNNING"
/// or "Succeeded".
pub proof fn lemma_fetched_statuses(responses: Seq<Seq<JobSummary>>)
    ensures
        forall|k: int|
            0 <= k < fetched_jobs(responses).len() ==> (#[trigger] fetched_jobs(responses)[k]).status
                == "RUNNING"@ || fetched_jobs(responses)[k].status == "Succeeded"@,
    decreases responses.len(),
{
    if responses.len() > 0 {
        lemma_fetched_statuses(responses.drop_last());
        lemma_listed_statuses(responses.last(), request_status(responses.len() - 1));
    }
}

proof fn lemma_listed_statuses(summaries: Seq<JobSummary>, status: JobStatus)
    ensures
        forall|k: int|
            0 <= k < listed_jobs(summaries, status).len() ==> (#[trigger] listed_jobs(
                summaries,
                status,
            )[k]).status == status_text(status),
    decreases summaries.len(),
{
    if summaries.len() > 0 {
        lemma_listed_statuses(summaries.drop_last(), status);
    }
}

/// The total number of summaries in a set of answers.
pub open spec fn summary_count(responses: Seq<Seq<JobSummary>>) -> int
    decreases responses.len(),
{
    if responses.len() == 0 {
        0
    } else {
        summary_count(responses.drop_last()) + responses.last().len()
    }
}

/// A fetch never shows more jobs than AWS Batch reported summaries.
pub proof fn lemma_fetched_count(responses: Seq<Seq<JobSummary>>)
    ensures
        fetched_jobs(responses).len() <= summary_count(responses),
    decreases responses.len(),
{
    if responses.len() > 0 {
        lemma_fetched_count(responses.drop_last());
        lemma_listed_count(responses.last(), request_status(responses.len() - 1));
    }
}

/// A listing shows exactly its summaries that carry both an id and a name.
pub proof fn lemma_listed_count(summaries: Seq<JobSummary>, status: JobStatus)
    ensures
        listed_jobs(summaries, status).len() <= summaries.len(),
        (forall|k: int| 0 <= k < summaries.len() ==> is_listed(#[trigger] summaries[k]))
            ==> listed_jobs(summaries, status).len() == summaries.len(),
    decreases summaries.len(),
{
    if summaries.len() > 0 {
        lemma_listed_count(summaries.drop_last(), status);
        assert forall|k: int| 0 <= k < summaries.drop_last().len() implies summaries.drop_last()[k]
            == summaries[k] by {}
    }
}

/// The listings of a fetch, in order: for each named queue, its running jobs and
/// then its succeeded jobs.
pub proof fn lemma_listing_order(queues: Seq<Seq<char>>, index: int)
    requires
        0 <= index < 2 * queues.len(),
    ensures
        request_status(2 * (index / 2)) == JobStatus::Running,
        request_status(2 * (index / 2) + 1) == JobStatus::Succeeded,
        index / 2 < queues.len(),
{
}

/// Queues without a name are not listed; named ones are, in their order.
pub proof fn lemma_named_queues_skip_unnamed(queues: Seq<JobQueueDetail>, q: JobQueueDetail)
    ensures
        q.job_queue_name is None ==> named_queues(queues.push(q)) == named_queues(queues),
        q.job_queue_name matches Some(n) ==> named_queues(queues.push(q)) == named_queues(
            queues,
        ).push(n@),
{
    assert(queues.push(q).drop_last() == queues);
}

/// Whether a summary names its job: the predicate that a listing keeps.
pub open spec fn listed_pred() -> spec_fn(JobSummary) -> bool {
    |s: JobSummary| is_listed(s)
}

/// A listing shows exactly its summaries that carry an id and a name, in their order,
/// each with the listing's status: the named summaries, shown one by one.
pub proof fn lemma_listed_jobs_are_the_named_summaries(summaries: Seq<JobSummary>, status: JobStatus)
    ensures
        listed_jobs(summaries, status) == summaries.filter(listed_pred()).map_values(
            |s: JobSummary| summary_info(s, status),
        ),
    decreases summaries.len(),
{
    reveal(Seq::filter);
    if summaries.len() == 0 {
        assert(summaries.filter(listed_pred()).map_values(|s: JobSummary| summary_info(s, status))
            =~= Seq::<JobInfoView>::empty());
    } else {
        lemma_listed_jobs_are_the_named_summaries(summaries.drop_last(), status);
        let before = summaries.drop_last().filter(listed_pred());
        if is_listed(summaries.last()) {
            assert(summaries.filter(listed_pred()) == before.push(summaries.last()));
            assert(before.push(summaries.last()).map_values(|s: JobSummary| summary_info(s, status))
                =~= before.map_values(|s: JobSummary| summary_info(s, status)).push(
                summary_info(summaries.last(), status),
            ));
        } else {
            assert(summaries.filter(listed_pred()) == before);
        }
    }
}

/// Answering one more listing keeps every job fetched so far, in place, and adds the
/// jobs of that listing after them.
pub proof fn lemma_fetched_jobs_accumulate(responses: Seq<Seq<JobSummary>>, summaries: Seq<JobSummary>)
    ensures
        fetched_jobs(responses.push(summaries)) == fetched_jobs(responses) + listed_jobs(
            summaries,
            request_status(responses.len() as int),
        ),
{
    assert(responses.push(summaries).drop_last() == responses);
}

/// The jobs fetched from the first listings are the start of the jobs fetched from
/// all of them: no later listing drops or reorders an earlier listing's jobs.
pub proof fn lemma_earlier_listings_stay(responses: Seq<Seq<JobSummary>>, k: int)
    requires
        0 <= k <= responses.len(),
    ensures
        fetched_jobs(responses.take(k)).len() <= fetched_jobs(responses).len(),
        fetched_jobs(responses).take(fetched_jobs(responses.take(k)).len() as int)
            == fetched_jobs(responses.take(k)),
    decreases responses.len(),
{
    if k == responses.len() {
        assert(responses.take(k) == responses);
        assert(fetched_jobs(responses).take(fetched_jobs(responses).len() as int)
            == fetched_jobs(responses));
    } else {
        let shorter = responses.drop_last();
        assert(shorter.take(k) == responses.take(k));
        lemma_earlier_listings_stay(shorter, k);
        let head = fetched_jobs(shorter);
        let tail = listed_jobs(responses.last(), request_status(responses.len() - 1));
        assert(fetched_jobs(responses) == head + tail);
        let n = fetched_jobs(responses.take(k)).len() as int;
        assert((head + tail).take(n) =~= head.take(n));
    }
}

/// The number of summaries that name their job, over all the listings.
pub open spec fn named_summary_total(responses: Seq<Seq<JobSummary>>) -> nat
    decreases responses.len(),
{
    if responses.len() == 0 {
        0
    } else {
        named_summary_total(responses.drop_last()) + responses.last().filter(listed_pred()).len()
    }
}

/// A fetch shows one job for each summary of each listing that names its job.
pub proof fn lemma_fetched_count_is_named_total(responses: Seq<Seq<JobSummary>>)
    ensures
        fetched_jobs(responses).len() == named_summary_total(responses),
    decreases responses.len(),
{
    if responses.len() > 0 {
        lemma_fetched_count_is_named_total(responses.drop_last());
        lemma_listed_jobs_are_the_named_summaries(
            responses.last(),
            request_status(responses.len() - 1),
        );
    }
}

/// A fetch of the job list in progress: the queues to list, and the answers so far.
pub struct JobFetch {
    queues: Vec<String>,
    next_queue: usize,
    listing_succeeded: bool,
    jobs: Vec<JobInfo>,
    responses: Ghost<Seq<Seq<JobSummary>>>,
}

/// The queues that a fetch lists and the listings it has been answered.
pub struct JobFetchView {
    pub queues: Seq<Seq<char>>,
    pub responses: Seq<Seq<JobSummary>>,
}

impl View for JobFetch {
    type V = JobFetchView;

    closed spec fn view(&self) -> JobFetchView {
        JobFetchView { queues: texts_view(self.queues@), responses: self.responses@ }
    }
}

impl JobFetchView {
    /// Whether every listing has been answered.
    pub open spec fn done(self) -> bool {
        self.responses.len() == 2 * self.queues.len()
    }
}

impl JobFetch {
    #[verifier::type_invariant]
    closed spec fn wf(self) -> bool {
        &&& self.responses@.len() == 2 * self.next_queue + (if self.listing_succeeded { 1int } else { 0 })
        &&& self.next_queue <= self.queues@.len()
        &&& self.next_queue == self.queues@.len() ==> !self.listing_succeeded
        &&& jobs_view(self.jobs@) == fetched_jobs(self.responses@)
    }

    /// Starts a fetch over the named queues among those AWS Batch described.
    pub fn new(job_queues: &Vec<JobQueueDetail>) -> (r: JobFetch)
        ensures
            r@.queues == named_queues(job_queues@),
            r@.responses == Seq::<Seq<JobSummary>>::empty(),
    {
        let mut queues: Vec<String> = Vec::new();
        let mut i: usize = 0;
        while i < job_queues.len()
            invariant
                i <= job_queues.len(),
                texts_view(queues@) == named_queues(job_queues@.take(i as int)),
            decreases job_queues.len() - i,
        {
            let ghost before = queues@;
            proof {
                assert(job_queues@.take(i + 1).drop_last() == job_queues@.take(i as int));
            }
            match &job_queues[i].job_queue_name {
                Some(n) => {
                    queues.push(n.clone());
                    proof {
                        assert(texts_view(queues@) =~= texts_view(before).push(n@));
                    }
                },
                None => {},
            }
            i = i + 1;
        }
        proof {
            assert(job_queues@.take(job_queues.len() as int) == job_queues@);
            assert(jobs_view(Seq::<JobInfo>::empty()) =~= Seq::<JobInfoView>::empty());
        }
        JobFetch {
            queues,
            next_queue: 0,
            listing_succeeded: false,
            jobs: Vec::new(),
            responses: Ghost(Seq::empty()),
        }
    }

    /// The listing to ask for next, or `None` once every listing has been answered.
    pub fn next_request(&self) -> (r: Option<JobListRequest>)
        ensures
            match r {
                Some(q) => {
                    &&& !self@.done()
                    &&& q.job_queue@ == self@.queues[self@.responses.len() as int / 2]
                    &&& q.job_status == request_status(self@.responses.len() as int)
                },
                None => self@.done(),
            },
    {
        proof {
            use_type_invariant(self);
        }
        if self.next_queue < self.queues.len() {
            let status = if self.listing_succeeded {
                JobStatus::Succeeded
            } else {
                JobStatus::Running
            };
            Some(JobListRequest { job_queue: self.queues[self.next_queue].clone(), job_status: status })
        } else {
            None
        }
    }

    /// Whether every listing has been answered.
    pub fn is_done(&self) -> (r: bool)
        ensures
            r == self@.done(),
    {
        proof {
            use_type_invariant(self);
        }
        self.next_queue >= self.queues.len()
    }

    /// Takes in the answer to the listing that `next_request` asked for.
    pub fn record(&mut self, summaries: Vec<JobSummary>)
        requires
            !old(self)@.done(),
        ensures
            final(self)@.queues == old(self)@.queues,
            final(self)@.responses == old(self)@.responses.push(summaries@),
    {
        proof {
            use_type_invariant(&*self);
        }
        let status = if self.listing_succeeded {
            JobStatus::Succeeded
        } else {
            JobStatus::Running
        };
        proof {
            assert(jobs_view(Seq::<JobInfo>::empty()) =~= fetched_jobs(Seq::empty()));
        }
        let mut current = JobFetch {
            queues: Vec::new(),
            next_queue: 0,
            listing_succeeded: false,
            jobs: Vec::new(),
            responses: Ghost(Seq::empty()),
        };
        std::mem::swap(&mut current, self);
        proof {
            use_type_invariant(&current);
        }
        let JobFetch { queues, next_queue, listing_succeeded, jobs, responses } = current;
        let mut jobs = jobs;
        let ghost previous = responses@;
        assert(next_queue < queues.len());
        let mut i: usize = 0;
        while i < summaries.len()
            invariant
                i <= summaries.len(),
                next_queue < queues.len(),
                status == request_status(previous.len() as int),
                jobs_view(jobs@) == fetched_jobs(previous) + listed_jobs(
                    summaries@.take(i as int),
                    status,
                ),
            decreases summaries.len() - i,
        {
            let ghost before = jobs@;
            let s = &summaries[i];
            proof {
                assert(summaries@.take(i + 1).drop_last() == summaries@.take(i as int));
                assert(summaries@.take(i + 1).last() == summaries@[i as int]);
            }
            match (&s.job_id, &s.job_name) {
                (Some(id), Some(name)) => {
                    let created_at = match s.created_at {
                        Some(t) => {
                            if status == JobStatus::Running {
                                Some(running_job_created_at(t))
                            } else {
                                Some(succeeded_job_created_at(t))
                            }
                        },
                        None => None,
                    };
                    let text = if status == JobStatus::Running {
                        "RUNNING".to_string()
                    } else {
                        "Succeeded".to_string()
                    };
                    let info = JobInfo {
                        job_id: id.clone(),
                        job_name: name.clone(),
                        status: text,
                        created_at,
                    };
                    proof {
                        assert(info@ == summary_info(summaries@[i as int], status));
                    }
                    jobs.push(info);
                    proof {
                        assert(jobs_view(jobs@) =~= jobs_view(before).push(info@));
                    }
                },
                _ => {},
            }
            i = i + 1;
        }
        proof {
            assert(summaries@.take(summaries.len() as int) == summaries@);
            let after = previous.push(summaries@);
            assert(after.drop_last() == previous);
        }
        *self = JobFetch {
            queues,
            next_queue: if listing_succeeded { next_queue + 1 } else { next_queue },
            listing_succeeded: !listing_succeeded,
            jobs,
            responses: Ghost(previous.push(summaries@)),
        };
    }

    /// The jobs fetched: those of every answered listing, in the order they were asked.
    pub fn into_jobs(self) -> (r: Vec<JobInfo>)
        ensures
            jobs_view(r@) == fetched_jobs(self@.responses),
    {
        proof {
            use_type_invariant(&self);
        }
        self.jobs
    }
}

} // verus!
