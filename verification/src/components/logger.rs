use vstd::prelude::*;
use crate::action::{Action, LoggerAction};
use crate::components::keys::Key;
use crate::text::{decimal, decimal_text};
use crate::components::log_widget::LogWidget;
use tui_logger::TuiWidgetState;

verus! {

/// The log screen: its log widget, the paging events handed to the widget, and the
/// offset shown in its title.
pub struct Logger {
    action_handler_registered: bool,
    aws_config_registered: bool,
    widget: LogWidget,
    scroll_offset: usize,
}

/// The state of a log screen; `page_events` are the paging events that its log widget
/// has taken, in order.
pub struct LoggerView {
    pub action_handler_registered: bool,
    pub aws_config_registered: bool,
    pub page_events: Seq<LoggerAction>,
    pub scroll_offset: usize,
}

impl View for Logger {
    type V = LoggerView;

    closed spec fn view(&self) -> LoggerView {
        LoggerView {
            action_handler_registered: self.action_handler_registered,
            aws_config_registered: self.aws_config_registered,
            page_events: self.widget@,
            scroll_offset: self.scroll_offset,
        }
    }
}

/// The paging action of a key: PageUp pages back, PageDown forward.
pub open spec fn logger_key_action(key: Key) -> Option<Action> {
    match key {
        Key::PageUp => Some(Action::TuiLogger(LoggerAction::PrevPageKey)),
        Key::PageDown => Some(Action::TuiLogger(LoggerAction::NextPageKey)),
        _ => None,
    }
}

/// The paging event that an action asks of the log widget.
pub open spec fn logger_page_event(action: Action) -> Option<LoggerAction> {
    match action {
        Action::TuiLogger(a) => Some(a),
        _ => None,
    }
}

/// The title of the log screen.
pub open spec fn logger_title(offset: usize) -> Seq<char> {
    "Logs (Use ↑↓ to scroll, offset: "@ + decimal(offset as nat) + ")"@
}

/// A paging key's action, applied to the log screen, pages the widget the way the
/// key says.
pub proof fn lemma_page_keys_reach_the_widget(key: Key)
    ensures
        key == Key::PageUp ==> logger_page_event(logger_key_action(key).unwrap()) == Some(
            LoggerAction::PrevPageKey,
        ),
        key == Key::PageDown ==> logger_page_event(logger_key_action(key).unwrap()) == Some(
            LoggerAction::NextPageKey,
        ),
        !(key == Key::PageUp || key == Key::PageDown) ==> logger_key_action(key) is None,
{
}

/// Only a paging action reaches the log widget, and it reaches it as itself: every
/// other action (a tick, a redraw, a navigation, ...) leaves the widget untouched.
pub proof fn lemma_only_paging_actions_page(action: Action)
    ensures
        action matches Action::TuiLogger(a) ==> logger_page_event(action) == Some(a),
        !(action is TuiLogger) ==> logger_page_event(action) is None,
{
}

impl Default for Logger {
    fn default() -> (r: Logger)
        ensures
            r@ == (LoggerView {
                action_handler_registered: false,
                aws_config_registered: false,
                page_events: Seq::empty(),
                scroll_offset: 0,
            }),
    {
        Logger {
            action_handler_registered: false,
            aws_config_registered: false,
            widget: LogWidget::new(),
            scroll_offset: 0,
        }
    }
}

impl Logger {
    /// The log screen at offset 0.
    pub fn new() -> (r: Logger)
        ensures
            r@ == (LoggerView {
                action_handler_registered: false,
                aws_config_registered: false,
                page_events: Seq::empty(),
                scroll_offset: 0,
            }),
    {
        Self::default()
    }

    /// Records that actions can now be sent back to the application.
    pub fn register_action_handler(&mut self)
        ensures
            final(self)@ == (LoggerView { action_handler_registered: true, ..old(self)@ }),
    {
        self.action_handler_registered = true;
    }

    /// Records the AWS configuration.
    pub fn register_aws_config_handler(&mut self)
        ensures
            final(self)@ == (LoggerView { aws_config_registered: true, ..old(self)@ }),
    {
        self.aws_config_registered = true;
    }

    /// Answers PageUp and PageDown with the matching paging action.
    pub fn handle_key_event(&mut self, key: Key) -> (r: Option<Action>)
        ensures
            r == logger_key_action(key),
            final(self)@ == old(self)@,
    {
        match key {
            Key::PageUp => Some(Action::TuiLogger(LoggerAction::PrevPageKey)),
            Key::PageDown => Some(Action::TuiLogger(LoggerAction::NextPageKey)),
            _ => None,
        }
    }

    /// Applies an action: a paging action pages the log widget once with its event;
    /// the screen answers nothing.
    pub fn update(&mut self, action: Action) -> (r: Option<Action>)
        ensures
            r is None,
            final(self)@ == (LoggerView {
                page_events: match logger_page_event(action) {
                    Some(a) => old(self)@.page_events.push(a),
                    None => old(self)@.page_events,
                },
                ..old(self)@
            }),
    {
        match action {
            Action::TuiLogger(logger_action) => {
                self.widget.page(logger_action);
            },
            _ => {},
        }
        None
    }

    /// The log widget's state, for drawing.
    pub fn widget_state(&self) -> &TuiWidgetState {
        self.widget.state()
    }

    /// The title of the log screen, with the scroll offset in decimal.
    pub fn title(&self) -> (r: String)
        ensures
            r@ == logger_title(self@.scroll_offset),
    {
        let t = "Logs (Use ↑↓ to scroll, offset: ".to_string().concat(
            decimal_text(self.scroll_offset).as_str(),
        );
        t.concat(")")
    }
}

} // verus!
