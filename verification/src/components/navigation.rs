use vstd::prelude::*;
use crate::action::Action;
use crate::components::keys::Key;

verus! {

/// The screen that the application shows.
#[derive(Debug, Clone, Copy, PartialEq, Eq, Structural)]
pub enum Screen {
    Home,
    Batch,
    Logger,
}

/// The screen after an action: the navigation actions open their screen, Back
/// returns home, and every other action keeps the screen.
pub open spec fn next_screen(current: Screen, action: Action) -> Screen {
    match action {
        Action::NavigateToHome | Action::Back => Screen::Home,
        Action::NavigateToBatch => Screen::Batch,
        Action::NavigateToLogger => Screen::Logger,
        _ => current,
    }
}

/// The action that a key means wherever it is pressed: `q` and Ctrl-C quit,
/// Backspace goes back; other keys belong to the screen shown.
pub open spec fn global_key_action(key: Key, control: bool) -> Option<Action> {
    if key == Key::Char('q') || (control && key == Key::Char('c')) {
        Some(Action::Quit)
    } else if key == Key::Backspace {
        Some(Action::Back)
    } else {
        None
    }
}

/// The screen to show after an action.
pub fn route(current: Screen, action: &Action) -> (r: Screen)
    ensures
        r == next_screen(current, *action),
{
    match action {
        Action::NavigateToHome | Action::Back => Screen::Home,
        Action::NavigateToBatch => Screen::Batch,
        Action::NavigateToLogger => Screen::Logger,
        _ => current,
    }
}

/// Whether an action ends the application.
pub fn quits(action: &Action) -> (r: bool)
    ensures
        r == (*action is Quit),
{
    match action {
        Action::Quit => true,
        _ => false,
    }
}

/// The action of a key pressed anywhere, with whether Control was held.
pub fn key_action(key: Key, control: bool) -> (r: Option<Action>)
    ensures
        r == global_key_action(key, control),
{
    if key == Key::Char('q') || (control && key == Key::Char('c')) {
        Some(Action::Quit)
    } else if key == Key::Backspace {
        Some(Action::Back)
    } else {
        None
    }
}

/// Back always returns to the home screen, and a navigation action followed by Back
/// leaves the application at home.
pub proof fn lemma_back_returns_home(current: Screen, action: Action)
    ensures
        next_screen(current, Action::Back) == Screen::Home,
        next_screen(next_screen(current, action), Action::Back) == Screen::Home,
{
}

/// Each navigation action opens its screen from any screen, and opening it again
/// changes nothing.
pub proof fn lemma_navigation_is_idempotent(current: Screen, action: Action)
    ensures
        next_screen(next_screen(current, action), action) == next_screen(current, action),
{
}

} // verus!
