use bototui::action::{Action, LoggerAction};
use bototui::components::batch::JobInfo;
use bototui::components::home::Home;
use bototui::components::keys::Key;
use bototui::components::logger::Logger;
use bototui::components::navigation::{key_action, quits, route, Screen};
use bototui::text::decimal_text;

#[test]
fn home_lists_its_services() {
    let home = Home::new();
    let screen = home.screen();
    assert_eq!(screen.title, "Bototui");
    assert_eq!(screen.highlight_symbol, "> ");
    assert_eq!(screen.selected, Some(0));
    assert_eq!(
        screen.items,
        vec![
            ("AWS Batch".to_string(), "  Manage AWS Batch jobs and job queues".to_string()),
            ("Logs".to_string(), "  View application logs".to_string()),
        ]
    );
}

#[test]
fn home_navigation_stops_at_the_ends() {
    let mut home = Home::new();
    assert_eq!(home.handle_key_event(Key::Up), Some(Action::Render));
    assert_eq!(home.screen().selected, Some(0));
    assert_eq!(home.handle_key_event(Key::Down), Some(Action::Render));
    assert_eq!(home.screen().selected, Some(1));
    assert_eq!(home.handle_key_event(Key::Char('j')), Some(Action::Render));
    assert_eq!(home.screen().selected, Some(1));
    assert_eq!(home.handle_key_event(Key::Char('k')), Some(Action::Render));
    assert_eq!(home.screen().selected, Some(0));
}

#[test]
fn home_enter_opens_the_selected_service() {
    let mut home = Home::new();
    assert_eq!(home.handle_key_event(Key::Enter), Some(Action::NavigateToBatch));
    home.handle_key_event(Key::Down);
    assert_eq!(home.handle_key_event(Key::Enter), Some(Action::NavigateToLogger));
    assert_eq!(home.handle_key_event(Key::Esc), None);
    assert_eq!(home.handle_key_event(Key::Char('x')), None);
    assert_eq!(home.update(Action::Tick), None);
    assert_eq!(home.screen().selected, Some(1));
}

#[test]
fn default_home_has_no_service() {
    let mut home = Home::default();
    assert!(home.screen().items.is_empty());
    assert_eq!(home.handle_key_event(Key::Down), Some(Action::Render));
    assert_eq!(home.screen().selected, Some(0));
    assert_eq!(home.handle_key_event(Key::Enter), None);
}

#[test]
fn logger_pages_with_page_keys() {
    let mut logger = Logger::new();
    assert_eq!(logger.handle_key_event(Key::PageUp), Some(Action::TuiLogger(LoggerAction::PrevPageKey)));
    assert_eq!(logger.handle_key_event(Key::PageDown), Some(Action::TuiLogger(LoggerAction::NextPageKey)));
    assert_eq!(logger.handle_key_event(Key::Up), None);
    assert_eq!(logger.update(Action::TuiLogger(LoggerAction::NextPageKey)), None);
    assert_eq!(logger.update(Action::TuiLogger(LoggerAction::PrevPageKey)), None);
    assert_eq!(logger.update(Action::Tick), None);
    let _ = logger.widget_state();
    assert_eq!(logger.title(), "Logs (Use ↑↓ to scroll, offset: 0)");
}

#[test]
fn decimal_text_writes_numbers() {
    assert_eq!(decimal_text(0), "0");
    assert_eq!(decimal_text(7), "7");
    assert_eq!(decimal_text(10), "10");
    assert_eq!(decimal_text(1234567890), "1234567890");
    assert_eq!(decimal_text(usize::MAX), usize::MAX.to_string());
}

#[test]
fn actions_duplicate_with_their_contents() {
    let jobs = vec![JobInfo {
        job_id: "a".to_string(),
        job_name: "b".to_string(),
        status: "RUNNING".to_string(),
        created_at: None,
    }];
    let action = Action::UpdateBatchJobs(jobs);
    assert_eq!(action.duplicate(), action);
    let error = Action::Error("bad".to_string());
    assert_eq!(error.duplicate(), error);
    assert_eq!(Action::Resize(3, 4).duplicate(), Action::Resize(3, 4));
}

#[test]
fn navigation_routes_between_screens() {
    assert_eq!(route(Screen::Home, &Action::NavigateToBatch), Screen::Batch);
    assert_eq!(route(Screen::Batch, &Action::NavigateToLogger), Screen::Logger);
    assert_eq!(route(Screen::Logger, &Action::Back), Screen::Home);
    assert_eq!(route(Screen::Batch, &Action::NavigateToHome), Screen::Home);
    assert_eq!(route(Screen::Batch, &Action::Tick), Screen::Batch);
    assert!(quits(&Action::Quit));
    assert!(!quits(&Action::Back));
    assert_eq!(key_action(Key::Char('q'), false), Some(Action::Quit));
    assert_eq!(key_action(Key::Char('c'), true), Some(Action::Quit));
    assert_eq!(key_action(Key::Char('c'), false), None);
    assert_eq!(key_action(Key::Backspace, false), Some(Action::Back));
    assert_eq!(key_action(Key::Up, false), None);
}
