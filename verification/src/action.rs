use vstd::prelude::*;
use crate::components::batch::{JobInfo, JobInfoView, duplicate_jobs, jobs_view};

verus! {

/// Paging requests for the log widget.
#[derive(Debug, Clone, Copy, Eq, PartialEq, Hash, Structural)]
pub enum LoggerAction {
    PrevPageKey,
    NextPageKey,
}

/// Everything the components of the application can ask of each other.
#[derive(Debug, Clone, PartialEq, Eq)]
pub enum Action {
    Tick,
    Render,
    Resize(u16, u16),
    Suspend,
    Resume,
    Quit,
    ClearScreen,
    Error(String),
    Help,
    TuiLogger(LoggerAction),
    NavigateToHome,
    NavigateToBatch,
    NavigateToLogger,
    Back,
    UpdateBatchJobs(Vec<JobInfo>),
}

/// An action with its text and jobs taken by their views.
pub enum ActionView {
    Tick,
    Render,
    Resize(u16, u16),
    Suspend,
    Resume,
    Quit,
    ClearScreen,
    Error(Seq<char>),
    Help,
    TuiLogger(LoggerAction),
    NavigateToHome,
    NavigateToBatch,
    NavigateToLogger,
    Back,
    UpdateBatchJobs(Seq<JobInfoView>),
}

impl View for Action {
    type V = ActionView;

    open spec fn view(&self) -> ActionView {
        match self {
            Action::Tick => ActionView::Tick,
            Action::Render => ActionView::Render,
            Action::Resize(w, h) => ActionView::Resize(*w, *h),
            Action::Suspend => ActionView::Suspend,
            Action::Resume => ActionView::Resume,
            Action::Quit => ActionView::Quit,
            Action::ClearScreen => ActionView::ClearScreen,
            Action::Error(m) => ActionView::Error(m@),
            Action::Help => ActionView::Help,
            Action::TuiLogger(a) => ActionView::TuiLogger(*a),
            Action::NavigateToHome => ActionView::NavigateToHome,
            Action::NavigateToBatch => ActionView::NavigateToBatch,
            Action::NavigateToLogger => ActionView::NavigateToLogger,
            Action::Back => ActionView::Back,
            Action::UpdateBatchJobs(jobs) => ActionView::UpdateBatchJobs(jobs_view(jobs@)),
        }
    }
}

impl Action {
    /// A copy of the action that carries the same text and jobs.
    pub fn duplicate(&self) -> (r: Action)
        ensures
            r@ == self@,
    {
        match self {
            Action::Tick => Action::Tick,
            Action::Render => Action::Render,
            Action::Resize(w, h) => Action::Resize(*w, *h),
            Action::Suspend => Action::Suspend,
            Action::Resume => Action::Resume,
            Action::Quit => Action::Quit,
            Action::ClearScreen => Action::ClearScreen,
            Action::Error(m) => Action::Error(m.clone()),
            Action::Help => Action::Help,
            Action::TuiLogger(a) => Action::TuiLogger(*a),
            Action::NavigateToHome => Action::NavigateToHome,
            Action::NavigateToBatch => Action::NavigateToBatch,
            Action::NavigateToLogger => Action::NavigateToLogger,
            Action::Back => Action::Back,
            Action::UpdateBatchJobs(jobs) => Action::UpdateBatchJobs(duplicate_jobs(jobs)),
        }
    }
}

} // verus!
