use bototui::action::Action;
use bototui::components::batch::JobInfo;
use bototui::components::batch::{fetch_outcome_action, Batch, BatchEffect, BatchScreen};
use bototui::components::keys::Key;
use bototui::mocks::MockBatchClient;

fn job(id: &str, name: &str, status: &str, created_at: Option<&str>) -> JobInfo {
    JobInfo {
        job_id: id.to_string(),
        job_name: name.to_string(),
        status: status.to_string(),
        created_at: created_at.map(|c| c.to_string()),
    }
}

fn ready_batch() -> Batch {
    let mut batch = Batch::new();
    batch.register_aws_config_handler();
    batch.register_action_handler();
    batch
}

fn batch_with_jobs(n: usize) -> Batch {
    let mut batch = ready_batch();
    let jobs = (0..n).map(|i| job(&format!("job-{}", i), &format!("name-{}", i), "RUNNING", None)).collect();
    assert_eq!(batch.update(Action::UpdateBatchJobs(jobs)), BatchEffect::Idle);
    batch
}

#[test]
fn test_batch_component_with_mock_data() {
    let mut batch = Batch::new();
    batch.register_aws_config_handler();
    batch.register_action_handler();

    let jobs = vec![
        job("job-1", "test-job-1", "RUNNING", Some("2023-01-01 12:00:00")),
        job("job-2", "test-job-2", "SUBMITTED", Some("2023-01-02 13:00:00")),
    ];
    batch.update(Action::UpdateBatchJobs(jobs));

    assert_eq!(batch.jobs().len(), 2);
    assert_eq!(batch.jobs()[0].job_id, "job-1");
    assert_eq!(batch.jobs()[0].job_name, "test-job-1");
    assert_eq!(batch.jobs()[0].status, "RUNNING");
    assert_eq!(batch.jobs()[0].created_at, Some("2023-01-01 12:00:00".to_string()));

    assert_eq!(batch.jobs()[1].job_id, "job-2");
    assert_eq!(batch.jobs()[1].job_name, "test-job-2");
    assert_eq!(batch.jobs()[1].status, "SUBMITTED");
    assert_eq!(batch.jobs()[1].created_at, Some("2023-01-02 13:00:00".to_string()));
}

#[test]
fn test_batch_component_with_mock() {
    let _mock_client = MockBatchClient::new();
    let mut batch = Batch::new();
    batch.register_aws_config_handler();
    assert!(batch.jobs().is_empty());
}

#[test]
fn new_batch_is_empty_and_idle() {
    let batch = Batch::new();
    assert!(batch.jobs().is_empty());
    assert_eq!(batch.selected_job_index(), None);
    assert!(!batch.show_job_details());
    assert!(!batch.is_loading());
}

#[test]
fn keys_on_empty_list_only_redraw() {
    let mut batch = ready_batch();
    assert_eq!(batch.handle_key_event(Key::Up), Some(Action::Render));
    assert_eq!(batch.handle_key_event(Key::Down), Some(Action::Render));
    assert_eq!(batch.selected_job_index(), None);
    assert_eq!(batch.handle_key_event(Key::Enter), Some(Action::Render));
    assert!(!batch.show_job_details());
    assert_eq!(batch.handle_key_event(Key::Esc), None);
    assert_eq!(batch.handle_key_event(Key::Char('x')), None);
    assert_eq!(batch.handle_key_event(Key::PageUp), None);
}

#[test]
fn up_and_down_move_within_the_list() {
    let mut batch = batch_with_jobs(3);
    batch.handle_key_event(Key::Down);
    assert_eq!(batch.selected_job_index(), Some(0));
    batch.handle_key_event(Key::Down);
    assert_eq!(batch.selected_job_index(), Some(1));
    batch.handle_key_event(Key::Down);
    batch.handle_key_event(Key::Down);
    assert_eq!(batch.selected_job_index(), Some(2));
    batch.handle_key_event(Key::Up);
    assert_eq!(batch.selected_job_index(), Some(1));
    batch.handle_key_event(Key::Up);
    batch.handle_key_event(Key::Up);
    assert_eq!(batch.selected_job_index(), Some(0));
}

#[test]
fn up_selects_the_first_job_first() {
    let mut batch = batch_with_jobs(2);
    assert_eq!(batch.handle_key_event(Key::Up), Some(Action::Render));
    assert_eq!(batch.selected_job_index(), Some(0));
}

#[test]
fn enter_toggles_details_and_esc_closes_them() {
    let mut batch = batch_with_jobs(2);
    assert_eq!(batch.handle_key_event(Key::Enter), Some(Action::Render));
    assert!(!batch.show_job_details());
    batch.handle_key_event(Key::Down);
    batch.handle_key_event(Key::Enter);
    assert!(batch.show_job_details());
    batch.handle_key_event(Key::Enter);
    assert!(!batch.show_job_details());
    batch.handle_key_event(Key::Enter);
    assert_eq!(batch.handle_key_event(Key::Esc), Some(Action::Render));
    assert!(!batch.show_job_details());
    assert_eq!(batch.handle_key_event(Key::Esc), None);
}

#[test]
fn first_tick_starts_one_fetch() {
    let mut batch = ready_batch();
    assert_eq!(batch.update(Action::Tick), BatchEffect::FetchJobs);
    assert!(batch.is_loading());
    assert_eq!(batch.update(Action::Tick), BatchEffect::Idle);
    assert!(batch.is_loading());
}

#[test]
fn tick_without_handler_or_client_does_not_fetch() {
    let mut no_handler = Batch::new();
    no_handler.register_aws_config_handler();
    assert_eq!(no_handler.update(Action::Tick), BatchEffect::Idle);
    assert!(!no_handler.is_loading());

    let mut no_client = Batch::new();
    no_client.register_action_handler();
    assert_eq!(no_client.update(Action::Tick), BatchEffect::Idle);
    assert!(!no_client.is_loading());
}

#[test]
fn arriving_jobs_end_the_fetch_and_delay_the_next() {
    let mut batch = ready_batch();
    assert_eq!(batch.update(Action::Tick), BatchEffect::FetchJobs);
    batch.update(Action::UpdateBatchJobs(vec![job("a", "b", "RUNNING", None)]));
    assert!(!batch.is_loading());
    assert_eq!(batch.jobs().len(), 1);
    assert_eq!(batch.update(Action::Tick), BatchEffect::Idle);
    assert!(batch.refresh_due() == false);
}

#[test]
fn on_tick_follows_the_due_flag() {
    let mut batch = ready_batch();
    assert_eq!(batch.on_tick(false), BatchEffect::Idle);
    assert!(!batch.is_loading());
    assert_eq!(batch.on_tick(true), BatchEffect::FetchJobs);
    assert!(batch.is_loading());
    assert_eq!(batch.on_tick(true), BatchEffect::Idle);
}

#[test]
fn other_actions_change_nothing() {
    let mut batch = batch_with_jobs(1);
    assert_eq!(batch.update(Action::Render), BatchEffect::Idle);
    assert_eq!(batch.update(Action::Quit), BatchEffect::Idle);
    assert_eq!(batch.update(Action::Resize(10, 20)), BatchEffect::Idle);
    assert_eq!(batch.jobs().len(), 1);
    assert!(!batch.is_loading());
}

#[test]
fn fetch_outcome_becomes_an_action() {
    let jobs = vec![job("a", "b", "RUNNING", None)];
    assert_eq!(fetch_outcome_action(Ok(jobs.clone())), Action::UpdateBatchJobs(jobs));
    assert_eq!(
        fetch_outcome_action(Err("boom".to_string())),
        Action::Error("Failed to fetch jobs: boom".to_string())
    );
}

#[test]
fn screen_shows_messages_for_an_empty_list() {
    let mut batch = ready_batch();
    match batch.screen() {
        BatchScreen::Message { title, text } => {
            assert_eq!(title, "AWS Batch Jobs");
            assert_eq!(text, "No jobs found. Jobs will appear here when available.");
        }
        _ => panic!("expected a message"),
    }
    batch.update(Action::Tick);
    match batch.screen() {
        BatchScreen::Message { text, .. } => assert_eq!(text, "Loading jobs..."),
        _ => panic!("expected a message"),
    }
}

#[test]
fn screen_shows_the_table_with_selection() {
    let mut batch = ready_batch();
    batch.update(Action::UpdateBatchJobs(vec![
        job("job-1", "first", "RUNNING", Some("2023-01-01 12:00:00")),
        job("job-2", "second", "Succeeded", None),
    ]));
    batch.handle_key_event(Key::Down);
    batch.handle_key_event(Key::Down);
    match batch.screen() {
        BatchScreen::Table { title, header, rows, widths, selected } => {
            assert_eq!(title, "AWS Batch Jobs (Use ↑↓ to navigate, Enter to view details)");
            assert_eq!(header, vec!["Job ID", "Job Name", "Status", "Created At"]);
            assert_eq!(rows[0], vec!["job-1", "first", "RUNNING", "2023-01-01 12:00:00"]);
            assert_eq!(rows[1], vec!["job-2", "second", "Succeeded", "N/A"]);
            assert_eq!(widths, vec![25, 35, 15, 25]);
            assert_eq!(selected, Some(1));
        }
        _ => panic!("expected a table"),
    }
}

#[test]
fn screen_shows_details_of_the_selected_job() {
    let mut batch = ready_batch();
    batch.update(Action::UpdateBatchJobs(vec![job("job-1", "first", "RUNNING", None)]));
    batch.handle_key_event(Key::Down);
    batch.handle_key_event(Key::Enter);
    match batch.screen() {
        BatchScreen::Details { title, fields, hint } => {
            assert_eq!(title, "Job Details: first");
            assert_eq!(
                fields,
                vec![
                    ("Job ID: ".to_string(), "job-1".to_string()),
                    ("Job Name: ".to_string(), "first".to_string()),
                    ("Status: ".to_string(), "RUNNING".to_string()),
                    ("Created At: ".to_string(), "N/A".to_string()),
                ]
            );
            assert_eq!(hint, "Press ESC to go back to the job list");
        }
        _ => panic!("expected details"),
    }
}

#[test]
fn details_of_a_vanished_job_fall_back_to_the_list() {
    let mut batch = ready_batch();
    batch.update(Action::UpdateBatchJobs(vec![job("a", "b", "RUNNING", None), job("c", "d", "RUNNING", None)]));
    batch.handle_key_event(Key::Down);
    batch.handle_key_event(Key::Down);
    batch.handle_key_event(Key::Enter);
    assert!(batch.show_job_details());
    batch.update(Action::UpdateBatchJobs(vec![job("e", "f", "RUNNING", None)]));
    match batch.screen() {
        BatchScreen::Table { rows, selected, .. } => {
            assert_eq!(rows.len(), 1);
            assert_eq!(selected, Some(1));
        }
        _ => panic!("expected a table"),
    }
}

#[test]
fn refresh_is_due_once_the_interval_has_passed() {
    let mut batch = ready_batch();
    assert!(batch.refresh_due_after(0));
    batch.update(Action::UpdateBatchJobs(vec![]));
    assert!(!batch.refresh_due_after(0));
    assert!(!batch.refresh_due_after(29));
    assert!(batch.refresh_due_after(30));
    assert!(batch.refresh_due_after(31));
}
