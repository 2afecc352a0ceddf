use vstd::prelude::*;
use crate::action::LoggerAction;
use tui_logger::{TuiWidgetEvent, TuiWidgetState};

verus! {

/// tui-logger's widget state, which Verus sees as opaque.
#[verifier::external_type_specification]
#[verifier::external_body]
pub struct ExTuiWidgetState(tui_logger::TuiWidgetState);

/// Calls tui-logger's `TuiWidgetState::default()`: a fresh log widget state.
/// Nothing is claimed of it, as Verus sees it as opaque.
#[verifier::external_body]
fn new_widget_state() -> (r: TuiWidgetState) {
    TuiWidgetState::default()
}

/// The log widget of the log screen, with the record of the paging events that it has
/// taken, in order. Only `page` extends the record.
pub struct LogWidget {
    state: TuiWidgetState,
    paged: Ghost<Seq<LoggerAction>>,
}

impl View for LogWidget {
    type V = Seq<LoggerAction>;

    /// The paging events the widget has taken, in order.
    closed spec fn view(&self) -> Seq<LoggerAction> {
        self.paged@
    }
}

impl LogWidget {
    /// A fresh log widget, which has taken no paging event.
    pub fn new() -> (r: LogWidget)
        ensures
            r@ == Seq::<LoggerAction>::empty(),
    {
        LogWidget { state: new_widget_state(), paged: Ghost(Seq::empty()) }
    }

    /// Calls tui-logger's `TuiWidgetState::transition` once on the widget, with the
    /// `TuiWidgetEvent` of the same name as `action` (`PrevPageKey` or `NextPageKey`).
    /// Claimed: the record of the widget's paging events gains exactly `action`. What
    /// the widget then shows is not stated: it keeps its paging state behind a lock.
    #[verifier::external_body]
    pub(crate) fn page(&mut self, action: LoggerAction)
        ensures
            final(self)@ == old(self)@.push(action),
    {
        self.state.transition(
            match action {
                LoggerAction::PrevPageKey => TuiWidgetEvent::PrevPageKey,
                LoggerAction::NextPageKey => TuiWidgetEvent::NextPageKey,
            },
        )
    }

    /// The widget's state, for drawing.
    pub fn state(&self) -> &TuiWidgetState {
        &self.state
    }
}

} // verus!
