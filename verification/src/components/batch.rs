use vstd::prelude::*;
use std::time::{Duration, Instant};
use crate::action::{Action, ActionView};
use crate::components::keys::Key;
use crate::text::{opt_text, texts_view};

verus! {

/// A job as shown in the AWS Batch job list.
#[derive(Debug, Clone, PartialEq, Eq)]
pub struct JobInfo {
    pub job_id: String,
    pub job_name: String,
    pub status: String,
    pub created_at: Option<String>,
}

/// The text of a job, field by field.
pub struct JobInfoView {
    pub job_id: Seq<char>,
    pub job_name: Seq<char>,
    pub status: Seq<char>,
    pub created_at: Option<Seq<char>>,
}

impl View for JobInfo {
    type V = JobInfoView;

    open spec fn view(&self) -> JobInfoView {
        JobInfoView {
            job_id: self.job_id@,
            job_name: self.job_name@,
            status: self.status@,
            created_at: opt_text(self.created_at),
        }
    }
}

/// The views of a list of jobs.
pub open spec fn jobs_view(jobs: Seq<JobInfo>) -> Seq<JobInfoView> {
    jobs.map_values(|j: JobInfo| j@)
}

impl JobInfo {
    /// A copy of the job, field for field.
    pub fn duplicate(&self) -> (r: JobInfo)
        ensures
            r@ == self@,
    {
        let created_at = match &self.created_at {
            Some(c) => Some(c.clone()),
            None => None,
        };
        JobInfo {
            job_id: self.job_id.clone(),
            job_name: self.job_name.clone(),
            status: self.status.clone(),
            created_at,
        }
    }
}

/// A copy of a list of jobs, in the same order.
pub fn duplicate_jobs(jobs: &Vec<JobInfo>) -> (r: Vec<JobInfo>)
    ensures
        jobs_view(r@) == jobs_view(jobs@),
{
    let mut out: Vec<JobInfo> = Vec::new();
    let mut i: usize = 0;
    while i < jobs.len()
        invariant
            i <= jobs.len(),
            jobs_view(out@) == jobs_view(jobs@.take(i as int)),
        decreases jobs.len() - i,
    {
        let j = jobs[i].duplicate();
        let ghost before = out@;
        out.push(j);
        proof {
            assert(jobs@.take(i + 1) == jobs@.take(i as int).push(jobs@[i as int]));
            assert(jobs_view(out@) =~= jobs_view(before).push(j@));
            assert(jobs_view(jobs@.take(i + 1)) =~= jobs_view(jobs@.take(i as int)).push(
                jobs@[i as int]@,
            ));
        }
        i = i + 1;
    }
    proof {
        assert(jobs@.take(jobs.len() as int) == jobs@);
    }
    out
}

/// std's `Instant`, which Verus sees as opaque: the time of the last refresh.
#[verifier::external_type_specification]
#[verifier::external_body]
pub struct ExInstant(std::time::Instant);

/// Calls std's `Instant::now()`. Nothing is claimed of the instant, which comes from
/// the clock.
#[verifier::external_body]
fn instant_now() -> (r: Instant) {
    Instant::now()
}

/// Calls std's `Instant::elapsed` on `since`. Nothing is claimed of the duration,
/// which comes from the clock.
#[verifier::external_body]
fn elapsed_since(since: &Instant) -> (r: Duration) {
    since.elapsed()
}

/// Calls std's `Duration::as_secs`: the whole seconds of a duration. Nothing is
/// claimed, as Verus sees durations as opaque.
#[verifier::external_body]
fn whole_seconds(d: &Duration) -> (r: u64) {
    d.as_secs()
}

/// What the job list asks of its surroundings after an action.
#[derive(Debug, Clone, Copy, PartialEq, Eq, Structural)]
pub enum BatchEffect {
    /// Nothing to do.
    Idle,
    /// Fetch the jobs from AWS Batch in the background and answer with
    /// `Action::UpdateBatchJobs`, or `Action::Error` where the fetch fails.
    FetchJobs,
}

/// The AWS Batch job list: the jobs last fetched, the selected job, whether its
/// details are shown, and when to fetch again.
pub struct Batch {
    action_handler_registered: bool,
    aws_config_registered: bool,
    client_ready: bool,
    jobs: Vec<JobInfo>,
    last_refresh: Option<Instant>,
    refresh_interval_secs: u64,
    is_loading: bool,
    selected_job_index: Option<usize>,
    show_job_details: bool,
}

/// The state of a job list; `refreshed` says whether jobs have ever arrived.
pub struct BatchView {
    pub action_handler_registered: bool,
    pub aws_config_registered: bool,
    pub client_ready: bool,
    pub jobs: Seq<JobInfoView>,
    pub refreshed: bool,
    pub refresh_interval_secs: u64,
    pub is_loading: bool,
    pub selected_job_index: Option<usize>,
    pub show_job_details: bool,
}

impl View for Batch {
    type V = BatchView;

    closed spec fn view(&self) -> BatchView {
        BatchView {
            action_handler_registered: self.action_handler_registered,
            aws_config_registered: self.aws_config_registered,
            client_ready: self.client_ready,
            jobs: jobs_view(self.jobs@),
            refreshed: self.last_refresh is Some,
            refresh_interval_secs: self.refresh_interval_secs,
            is_loading: self.is_loading,
            selected_job_index: self.selected_job_index,
            show_job_details: self.show_job_details,
        }
    }
}

/// The selection after a key, in a list of `len` jobs: Up and Down move it by one
/// within the list, and select the first job where none is selected yet.
pub open spec fn key_selection(len: nat, selected: Option<usize>, key: Key) -> Option<usize> {
    match key {
        Key::Up => if len == 0 {
            selected
        } else {
            match selected {
                Some(i) => if i > 0 {
                    Some((i - 1) as usize)
                } else {
                    selected
                },
                None => Some(0),
            }
        },
        Key::Down => if len == 0 {
            selected
        } else {
            match selected {
                Some(i) => if i < len - 1 {
                    Some((i + 1) as usize)
                } else {
                    selected
                },
                None => Some(0),
            }
        },
        _ => selected,
    }
}

/// Whether the details are shown after a key: Enter toggles them while a job is
/// selected, Esc hides them.
pub open spec fn key_details(selected: Option<usize>, shown: bool, key: Key) -> bool {
    match key {
        Key::Enter => if selected is Some {
            !shown
        } else {
            shown
        },
        Key::Esc => false,
        _ => shown,
    }
}

/// The answer to a key: a redraw for the navigation keys, and for Esc where it
/// closes the details.
pub open spec fn key_reply(shown: bool, key: Key) -> Option<Action> {
    match key {
        Key::Up | Key::Down | Key::Enter => Some(Action::Render),
        Key::Esc => if shown {
            Some(Action::Render)
        } else {
            None
        },
        _ => None,
    }
}

/// Whether a tick starts a fetch: one is due, none is running, and both the action
/// handler and the client are there.
pub open spec fn tick_fetches(b: BatchView, due: bool) -> bool {
    due && !b.is_loading && b.action_handler_registered && b.client_ready
}

/// The action that a background fetch answers with: the jobs, or the error.
pub open spec fn fetch_outcome_view(outcome: Result<Seq<JobInfoView>, Seq<char>>) -> ActionView {
    match outcome {
        Ok(jobs) => ActionView::UpdateBatchJobs(jobs),
        Err(m) => ActionView::Error("Failed to fetch jobs: "@ + m),
    }
}

impl Batch {
    /// An empty job list that fetches every 30 seconds.
    pub fn new() -> (r: Batch)
        ensures
            r@ == (BatchView {
                action_handler_registered: false,
                aws_config_registered: false,
                client_ready: false,
                jobs: Seq::empty(),
                refreshed: false,
                refresh_interval_secs: 30,
                is_loading: false,
                selected_job_index: None,
                show_job_details: false,
            }),
    {
        let r = Batch {
            action_handler_registered: false,
            aws_config_registered: false,
            client_ready: false,
            jobs: Vec::new(),
            last_refresh: None,
            refresh_interval_secs: 30,
            is_loading: false,
            selected_job_index: None,
            show_job_details: false,
        };
        proof {
            assert(jobs_view(r.jobs@) =~= Seq::<JobInfoView>::empty());
        }
        r
    }

    /// The jobs shown.
    pub fn jobs(&self) -> (r: &Vec<JobInfo>)
        ensures
            jobs_view(r@) == self@.jobs,
    {
        &self.jobs
    }

    /// The selected job's position, if any.
    pub fn selected_job_index(&self) -> (r: Option<usize>)
        ensures
            r == self@.selected_job_index,
    {
        self.selected_job_index
    }

    /// Whether the selected job's details are shown.
    pub fn show_job_details(&self) -> (r: bool)
        ensures
            r == self@.show_job_details,
    {
        self.show_job_details
    }

    /// Whether a fetch is running.
    pub fn is_loading(&self) -> (r: bool)
        ensures
            r == self@.is_loading,
    {
        self.is_loading
    }

    /// Records that actions can now be sent back to the application.
    pub fn register_action_handler(&mut self)
        ensures
            final(self)@ == (BatchView { action_handler_registered: true, ..old(self)@ }),
    {
        self.action_handler_registered = true;
    }

    /// Records the AWS configuration, with which the AWS Batch client is made.
    pub fn register_aws_config_handler(&mut self)
        ensures
            final(self)@ == (BatchView {
                aws_config_registered: true,
                client_ready: true,
                ..old(self)@
            }),
    {
        self.aws_config_registered = true;
        self.init_client();
    }

    /// Makes the AWS Batch client where the AWS configuration is there.
    fn init_client(&mut self)
        ensures
            final(self)@ == (BatchView {
                client_ready: old(self)@.client_ready || old(self)@.aws_config_registered,
                ..old(self)@
            }),
    {
        if self.aws_config_registered {
            self.client_ready = true;
        }
    }

    /// Moves the selection, opens or closes the details, and says whether to redraw.
    pub fn handle_key_event(&mut self, key: Key) -> (r: Option<Action>)
        ensures
            final(self)@ == (BatchView {
                selected_job_index: key_selection(
                    old(self)@.jobs.len(),
                    old(self)@.selected_job_index,
                    key,
                ),
                show_job_details: key_details(
                    old(self)@.selected_job_index,
                    old(self)@.show_job_details,
                    key,
                ),
                ..old(self)@
            }),
            r == key_reply(old(self)@.show_job_details, key),
    {
        match key {
            Key::Up => {
                if !self.jobs.is_empty() {
                    match self.selected_job_index {
                        Some(index) => {
                            if index > 0 {
                                self.selected_job_index = Some(index - 1);
                            }
                        },
                        None => {
                            self.selected_job_index = Some(0);
                        },
                    }
                }
                Some(Action::Render)
            },
            Key::Down => {
                if !self.jobs.is_empty() {
                    match self.selected_job_index {
                        Some(index) => {
                            if index < self.jobs.len() - 1 {
                                self.selected_job_index = Some(index + 1);
                            }
                        },
                        None => {
                            self.selected_job_index = Some(0);
                        },
                    }
                }
                Some(Action::Render)
            },
            Key::Enter => {
                if self.selected_job_index.is_some() {
                    self.show_job_details = !self.show_job_details;
                }
                Some(Action::Render)
            },
            Key::Esc => {
                if self.show_job_details {
                    self.show_job_details = false;
                    Some(Action::Render)
                } else {
                    None
                }
            },
            _ => None,
        }
    }

    /// Whether the jobs are due to be fetched again: always before the first jobs
    /// arrive; afterwards once the refresh interval has passed, by the clock.
    pub fn refresh_due(&self) -> (due: bool)
        ensures
            !self@.refreshed ==> due,
            self@.refresh_interval_secs == 0 ==> due,
    {
        match &self.last_refresh {
            Some(last) => {
                let elapsed = elapsed_since(last);
                self.refresh_due_after(whole_seconds(&elapsed))
            },
            None => true,
        }
    }

    /// Whether the jobs are due to be fetched again, given the whole seconds that
    /// have passed since the last jobs arrived: always before the first jobs arrive;
    /// afterwards once those seconds reach the refresh interval.
    pub fn refresh_due_after(&self, elapsed_secs: u64) -> (due: bool)
        ensures
            due == (!self@.refreshed || elapsed_secs >= self@.refresh_interval_secs),
    {
        match &self.last_refresh {
            Some(_) => elapsed_secs >= self.refresh_interval_secs,
            None => true,
        }
    }

    /// A tick, given whether a fetch is due: starts a fetch when one is due, none is
    /// running, and the action handler and the client are there.
    pub fn on_tick(&mut self, due: bool) -> (r: BatchEffect)
        ensures
            r == (if tick_fetches(old(self)@, due) {
                BatchEffect::FetchJobs
            } else {
                BatchEffect::Idle
            }),
            final(self)@ == (BatchView {
                is_loading: old(self)@.is_loading || tick_fetches(old(self)@, due),
                ..old(self)@
            }),
    {
        if due && !self.is_loading {
            if self.action_handler_registered {
                if self.client_ready {
                    self.is_loading = true;
                    return BatchEffect::FetchJobs;
                }
            }
        }
        BatchEffect::Idle
    }

    /// Applies an action: a tick may start a fetch (see `on_tick`, with the due time
    /// read from the clock); fetched jobs replace the shown ones and end the fetch.
    pub fn update(&mut self, action: Action) -> (r: BatchEffect)
        ensures
            match action {
                Action::Tick => {
                    &&& (r == BatchEffect::FetchJobs ==> tick_fetches(old(self)@, true))
                    &&& (!old(self)@.refreshed ==> (r == BatchEffect::FetchJobs <==> tick_fetches(
                        old(self)@,
                        true,
                    )))
                    &&& final(self)@ == (BatchView {
                        is_loading: old(self)@.is_loading || r == BatchEffect::FetchJobs,
                        ..old(self)@
                    })
                },
                Action::UpdateBatchJobs(jobs) => {
                    &&& r == BatchEffect::Idle
                    &&& final(self)@ == (BatchView {
                        jobs: jobs_view(jobs@),
                        refreshed: true,
                        is_loading: false,
                        ..old(self)@
                    })
                },
                _ => r == BatchEffect::Idle && final(self)@ == old(self)@,
            },
    {
        match action {
            Action::Tick => {
                let due = self.refresh_due();
                self.on_tick(due)
            },
            Action::Render => BatchEffect::Idle,
            Action::UpdateBatchJobs(jobs) => {
                self.jobs = jobs;
                self.last_refresh = Some(instant_now());
                self.is_loading = false;
                BatchEffect::Idle
            },
            _ => BatchEffect::Idle,
        }
    }
}

/// The action that a background fetch answers with: `UpdateBatchJobs` with the
/// jobs, or `Error` with "Failed to fetch jobs: " and the error's text.
pub fn fetch_outcome_action(outcome: Result<Vec<JobInfo>, String>) -> (r: Action)
    ensures
        r@ == fetch_outcome_view(
            match outcome {
                Ok(jobs) => Ok(jobs_view(jobs@)),
                Err(m) => Err(m@),
            },
        ),
{
    match outcome {
        Ok(jobs) => Action::UpdateBatchJobs(jobs),
        Err(message) => {
            let text = "Failed to fetch jobs: ".to_string().concat(message.as_str());
            Action::Error(text)
        },
    }
}

/// A job list never holds more jobs than a `usize` counts, so the key laws below
/// apply to its length.
pub proof fn lemma_batch_jobs_fit(b: Batch)
    ensures
        b@.jobs.len() <= usize::MAX,
{
    assert(b.jobs.len() == b.jobs@.len());
}

/// A job's details are open only while a job is selected.
pub open spec fn details_need_selection(b: BatchView) -> bool {
    b.show_job_details ==> b.selected_job_index is Some
}

/// Keys keep the job list's details tied to a selection: where details are open
/// only with a selected job, the same holds after any key.
pub proof fn lemma_keys_keep_details_with_selection(
    len: nat,
    selected: Option<usize>,
    shown: bool,
    key: Key,
)
    requires
        shown ==> selected is Some,
    ensures
        key_details(selected, shown, key) ==> key_selection(len, selected, key) is Some,
{
}

/// A selection, once made, is never cleared by a key.
pub proof fn lemma_selection_is_never_cleared(len: nat, selected: Option<usize>, key: Key)
    requires
        selected is Some,
    ensures
        key_selection(len, selected, key) is Some,
{
}

/// Up and Down keep the selection inside a non-empty job list, and make one where
/// there was none.
pub proof fn lemma_navigation_stays_in_list(len: nat, selected: Option<usize>, key: Key)
    requires
        len > 0,
        key == Key::Up || key == Key::Down,
        selected matches Some(i) ==> i < len,
    ensures
        key_selection(len, selected, key) matches Some(j) && j < len,
{
}

/// Down then Up comes back to the same job, and Up then Down too, away from the
/// ends of the list.
pub proof fn lemma_down_then_up_returns(len: nat, i: usize)
    requires
        len <= usize::MAX,
    ensures
        i + 1 < len ==> key_selection(len, key_selection(len, Some(i), Key::Down), Key::Up) == Some(i),
        0 < i < len ==> key_selection(len, key_selection(len, Some(i), Key::Up), Key::Down) == Some(i),
{
}

/// Enter twice leaves the details as they were, and Esc always closes them.
pub proof fn lemma_enter_toggles_esc_closes(selected: Option<usize>, shown: bool)
    ensures
        key_details(selected, key_details(selected, shown, Key::Enter), Key::Enter) == shown,
        !key_details(selected, shown, Key::Esc),
        selected is Some ==> !key_details(
            selected,
            key_details(selected, false, Key::Enter),
            Key::Esc,
        ),
{
}

/// At most one fetch runs at a time: after a tick has started a fetch, no tick
/// starts another until the fetched jobs arrive.
pub proof fn lemma_one_fetch_at_a_time(b: BatchView, first_due: bool, second_due: bool)
    ensures
        tick_fetches(b, first_due) ==> !tick_fetches(
            BatchView { is_loading: b.is_loading || tick_fetches(b, first_due), ..b },
            second_due,
        ),
{
}

/// What the job list shows.
pub enum BatchScreen {
    /// The selected job's details: a title, labelled fields, and a closing hint.
    Details { title: String, fields: Vec<(String, String)>, hint: String },
    /// A titled message in place of an empty list.
    Message { title: String, text: String },
    /// A table of the jobs with its header, rows, column widths in percent, and
    /// the highlighted row.
    Table {
        title: String,
        header: Vec<String>,
        rows: Vec<Vec<String>>,
        widths: Vec<u16>,
        selected: Option<usize>,
    },
}

/// What the job list shows, as text.
pub enum BatchScreenView {
    Details { title: Seq<char>, fields: Seq<(Seq<char>, Seq<char>)>, hint: Seq<char> },
    Message { title: Seq<char>, text: Seq<char> },
    Table {
        title: Seq<char>,
        header: Seq<Seq<char>>,
        rows: Seq<Seq<Seq<char>>>,
        widths: Seq<u16>,
        selected: Option<usize>,
    },
}

pub open spec fn pairs_view(v: Seq<(String, String)>) -> Seq<(Seq<char>, Seq<char>)> {
    v.map_values(|p: (String, String)| (p.0@, p.1@))
}

pub open spec fn rows_view(v: Seq<Vec<String>>) -> Seq<Seq<Seq<char>>> {
    v.map_values(|r: Vec<String>| texts_view(r@))
}

impl View for BatchScreen {
    type V = BatchScreenView;

    open spec fn view(&self) -> BatchScreenView {
        match self {
            BatchScreen::Details { title, fields, hint } => BatchScreenView::Details {
                title: title@,
                fields: pairs_view(fields@),
                hint: hint@,
            },
            BatchScreen::Message { title, text } => BatchScreenView::Message {
                title: title@,
                text: text@,
            },
            BatchScreen::Table { title, header, rows, widths, selected } => BatchScreenView::Table {
                title: title@,
                header: texts_view(header@),
                rows: rows_view(rows@),
                widths: widths@,
                selected: *selected,
            },
        }
    }
}

/// A creation time as shown, or "N/A".
pub open spec fn created_or_na(c: Option<Seq<char>>) -> Seq<char> {
    match c {
        Some(t) => t,
        None => "N/A"@,
    }
}

/// The cells of a job's row: id, name, status, creation time.
pub open spec fn job_row(j: JobInfoView) -> Seq<Seq<char>> {
    seq![j.job_id, j.job_name, j.status, created_or_na(j.created_at)]
}

/// Whether the job list shows a job's details: they are asked for and the selected
/// job exists.
pub open spec fn shows_details(b: BatchView) -> bool {
    b.show_job_details && b.selected_job_index is Some && b.selected_job_index.unwrap() < b.jobs.len()
}

/// What a job list shows.
pub open spec fn batch_screen(b: BatchView) -> BatchScreenView {
    if shows_details(b) {
        let job = b.jobs[b.selected_job_index.unwrap() as int];
        BatchScreenView::Details {
            title: "Job Details: "@ + job.job_name,
            fields: seq![
                ("Job ID: "@, job.job_id),
                ("Job Name: "@, job.job_name),
                ("Status: "@, job.status),
                ("Created At: "@, created_or_na(job.created_at)),
            ],
            hint: "Press ESC to go back to the job list"@,
        }
    } else {
        let title = if b.selected_job_index is Some {
            "AWS Batch Jobs (Use ↑↓ to navigate, Enter to view details)"@
        } else {
            "AWS Batch Jobs"@
        };
        if b.jobs.len() == 0 {
            BatchScreenView::Message {
                title,
                text: if b.is_loading {
                    "Loading jobs..."@
                } else {
                    "No jobs found. Jobs will appear here when available."@
                },
            }
        } else {
            BatchScreenView::Table {
                title,
                header: seq!["Job ID"@, "Job Name"@, "Status"@, "Created At"@],
                rows: b.jobs.map_values(|j: JobInfoView| job_row(j)),
                widths: seq![25u16, 35u16, 15u16, 25u16],
                selected: b.selected_job_index,
            }
        }
    }
}

/// When a job's details are open and the selected job exists, the screen shows that
/// job: its name in the title, then its id, name, status and creation time ("N/A"
/// where it has none), each after its label.
pub proof fn lemma_details_show_the_selected_job(b: BatchView, i: usize)
    requires
        b.show_job_details,
        b.selected_job_index == Some(i),
        i < b.jobs.len(),
    ensures
        batch_screen(b) matches BatchScreenView::Details { title, fields, hint } && {
            &&& title == "Job Details: "@ + b.jobs[i as int].job_name
            &&& fields.len() == 4
            &&& fields[0] == ("Job ID: "@, b.jobs[i as int].job_id)
            &&& fields[1] == ("Job Name: "@, b.jobs[i as int].job_name)
            &&& fields[2] == ("Status: "@, b.jobs[i as int].status)
            &&& fields[3].0 == "Created At: "@
            &&& (b.jobs[i as int].created_at matches Some(t) ==> fields[3].1 == t)
            &&& (b.jobs[i as int].created_at is None ==> fields[3].1 == "N/A"@)
        },
{
}

/// Where no details are shown, a non-empty job list is a table with one row per job,
/// in order, each holding the job's id, name, status and creation time, and the
/// selected job highlighted.
pub proof fn lemma_table_lists_every_job(b: BatchView)
    requires
        !shows_details(b),
        b.jobs.len() > 0,
    ensures
        batch_screen(b) matches BatchScreenView::Table { rows, selected, .. } && {
            &&& rows.len() == b.jobs.len()
            &&& selected == b.selected_job_index
            &&& forall|k: int|
                0 <= k < b.jobs.len() ==> #[trigger] rows[k] == seq![
                    b.jobs[k].job_id,
                    b.jobs[k].job_name,
                    b.jobs[k].status,
                    created_or_na(b.jobs[k].created_at),
                ]
        },
{
}

/// A job's creation time as shown.
fn created_at_text(created_at: &Option<String>) -> (r: String)
    ensures
        r@ == created_or_na(opt_text(*created_at)),
{
    match created_at {
        Some(c) => c.clone(),
        None => "N/A".to_string(),
    }
}

impl Batch {
    /// What the job list shows: the selected job's details where they are asked for
    /// and the job exists; otherwise the jobs in a table, or a message where there
    /// are none.
    pub fn screen(&self) -> (r: BatchScreen)
        ensures
            r@ == batch_screen(self@),
    {
        if self.show_job_details && self.selected_job_index.is_some() {
            let job_index: usize = self.selected_job_index.unwrap();
            if job_index < self.jobs.len() {
                let job = &self.jobs[job_index];
                let title = "Job Details: ".to_string().concat(job.job_name.as_str());
                let fields = vec![
                    ("Job ID: ".to_string(), job.job_id.clone()),
                    ("Job Name: ".to_string(), job.job_name.clone()),
                    ("Status: ".to_string(), job.status.clone()),
                    ("Created At: ".to_string(), created_at_text(&job.created_at)),
                ];
                let r = BatchScreen::Details {
                    title,
                    fields,
                    hint: "Press ESC to go back to the job list".to_string(),
                };
                proof {
                    assert(pairs_view(fields@) =~= seq![
                        ("Job ID: "@, job@.job_id),
                        ("Job Name: "@, job@.job_name),
                        ("Status: "@, job@.status),
                        ("Created At: "@, created_or_na(job@.created_at)),
                    ]);
                }
                return r;
            }
        }
        let title = if self.selected_job_index.is_some() {
            "AWS Batch Jobs (Use ↑↓ to navigate, Enter to view details)".to_string()
        } else {
            "AWS Batch Jobs".to_string()
        };
        if self.jobs.is_empty() {
            let text = if self.is_loading {
                "Loading jobs...".to_string()
            } else {
                "No jobs found. Jobs will appear here when available.".to_string()
            };
            BatchScreen::Message { title, text }
        } else {
            let header = vec![
                "Job ID".to_string(),
                "Job Name".to_string(),
                "Status".to_string(),
                "Created At".to_string(),
            ];
            let mut rows: Vec<Vec<String>> = Vec::new();
            let mut i: usize = 0;
            while i < self.jobs.len()
                invariant
                    i <= self.jobs.len(),
                    rows_view(rows@) == jobs_view(self.jobs@.take(i as int)).map_values(
                        |j: JobInfoView| job_row(j),
                    ),
                decreases self.jobs.len() - i,
            {
                let job = &self.jobs[i];
                let row = vec![
                    job.job_id.clone(),
                    job.job_name.clone(),
                    job.status.clone(),
                    created_at_text(&job.created_at),
                ];
                let ghost before = rows@;
                rows.push(row);
                proof {
                    assert(texts_view(row@) =~= job_row(job@));
                    assert(rows_view(rows@) =~= rows_view(before).push(job_row(job@)));
                    assert(jobs_view(self.jobs@.take(i + 1)) =~= jobs_view(
                        self.jobs@.take(i as int),
                    ).push(job@));
                    assert(jobs_view(self.jobs@.take(i + 1)).map_values(|j: JobInfoView| job_row(j))
                        =~= jobs_view(self.jobs@.take(i as int)).map_values(
                        |j: JobInfoView| job_row(j),
                    ).push(job_row(job@)));
                }
                i = i + 1;
            }
            proof {
                assert(self.jobs@.take(self.jobs.len() as int) == self.jobs@);
                assert(texts_view(header@) =~= seq!["Job ID"@, "Job Name"@, "Status"@, "Created At"@]);
            }
            BatchScreen::Table {
                title,
                header,
                rows,
                widths: vec![25u16, 35u16, 15u16, 25u16],
                selected: self.selected_job_index,
            }
        }
    }
}

} // verus!
