//! The input dispatcher: routes one key press, by the active screen, into
//! at most one state mutation plus at most one screen transition.

use crate::app::{append_step, commit_step, remove_step, toggle_step, App, AppState,
    CurrentScreen, CurrentlyEditing};
use vstd::prelude::*;

verus! {

/// One discrete key press, already filtered down to what the editor reads:
/// a printable character, one of the named keys, or anything else.
#[derive(Clone, Copy, Debug, PartialEq, Eq, Structural)]
pub enum KeyPress {
    Char(char),
    Enter,
    Backspace,
    Esc,
    Tab,
    Other,
}

/// Routing on the browsing screen: `e` starts editing a new pair at its key,
/// `q` asks to exit, everything else is ignored.
pub open spec fn main_step(s: AppState, k: KeyPress) -> AppState {
    match k {
        KeyPress::Char(c) => if c == 'e' {
            AppState { screen: CurrentScreen::Editing(CurrentlyEditing::Key), ..s }
        } else if c == 'q' {
            AppState { screen: CurrentScreen::Exiting, ..s }
        } else {
            s
        },
        _ => s,
    }
}

/// Routing while editing the key field: Enter moves on to the value field,
/// Backspace and characters edit the key buffer, everything else is ignored.
pub open spec fn editing_key_step(s: AppState, k: KeyPress) -> AppState {
    match k {
        KeyPress::Enter => AppState {
            screen: CurrentScreen::Editing(CurrentlyEditing::Value),
            ..s
        },
        KeyPress::Backspace => remove_step(s),
        KeyPress::Char(c) => append_step(s, c),
        _ => s,
    }
}

/// Routing while editing the value field: Enter commits the drafted pair and
/// returns to browsing, Backspace and characters edit the value buffer,
/// everything else is ignored.
pub open spec fn editing_value_step(s: AppState, k: KeyPress) -> AppState {
    match k {
        KeyPress::Enter => AppState { screen: CurrentScreen::Main, ..commit_step(s) },
        KeyPress::Backspace => remove_step(s),
        KeyPress::Char(c) => append_step(s, c),
        _ => s,
    }
}

/// Routing on either editing screen: Esc cancels back to browsing and Tab
/// swaps the edited field, both ahead of any field-specific handling; other
/// keys go to whichever field is active.
pub open spec fn editing_step(s: AppState, k: KeyPress) -> AppState {
    match k {
        KeyPress::Esc => AppState { screen: CurrentScreen::Main, ..s },
        KeyPress::Tab => AppState { screen: toggle_step(s.screen), ..s },
        _ => match s.screen {
            CurrentScreen::Editing(CurrentlyEditing::Key) => editing_key_step(s, k),
            CurrentScreen::Editing(CurrentlyEditing::Value) => editing_value_step(s, k),
            _ => s,
        },
    }
}

/// The answer read on the confirmation screen: `y` confirms emitting the
/// store, `n` and `q` confirm discarding it, anything else keeps waiting.
pub open spec fn exiting_step(k: KeyPress) -> Option<bool> {
    match k {
        KeyPress::Char(c) => if c == 'y' {
            Some(true)
        } else if c == 'n' || c == 'q' {
            Some(false)
        } else {
            None
        },
        _ => None,
    }
}

/// Where one dispatched key press takes the whole state: the active screen
/// alone picks the routing table, and the confirmation screen mutates
/// nothing.
pub open spec fn dispatch_step(s: AppState, k: KeyPress) -> AppState {
    match s.screen {
        CurrentScreen::Main => main_step(s, k),
        CurrentScreen::Editing(_) => editing_step(s, k),
        CurrentScreen::Exiting => s,
    }
}

/// The decision one dispatched key press yields: only the confirmation
/// screen can end the run, with the emit-or-discard answer.
pub open spec fn dispatch_decision(s: AppState, k: KeyPress) -> Option<bool> {
    if s.screen is Exiting {
        exiting_step(k)
    } else {
        None
    }
}

/// Handles one key press on the browsing screen.
pub fn main_screen_handler(app: &mut App, key: KeyPress)
    ensures
        final(app)@ == main_step(old(app)@, key),
        final(app).pairs == old(app).pairs,
{
    match key {
        KeyPress::Char(c) => {
            if c == 'e' {
                app.set_screen(CurrentScreen::Editing(CurrentlyEditing::Key));
            } else if c == 'q' {
                app.set_screen(CurrentScreen::Exiting);
            }
        },
        _ => {},
    }
}

/// Reads one key press on the confirmation screen into an answer.
pub fn exiting_screen_handler(key: KeyPress) -> (decision: Option<bool>)
    ensures
        decision == exiting_step(key),
{
    match key {
        KeyPress::Char(c) => {
            if c == 'y' {
                Some(true)
            } else if c == 'n' || c == 'q' {
                Some(false)
            } else {
                None
            }
        },
        _ => None,
    }
}

/// Handles one key press while the key field is being edited.
pub fn editing_key_handler(app: &mut App, key: KeyPress)
    requires
        old(app)@.screen == CurrentScreen::Editing(CurrentlyEditing::Key),
    ensures
        final(app)@ == editing_key_step(old(app)@, key),
        final(app).pairs == old(app).pairs,
{
    match key {
        KeyPress::Enter => {
            app.set_screen(CurrentScreen::Editing(CurrentlyEditing::Value));
        },
        KeyPress::Backspace => {
            app.remove_last_from_active_buffer();
        },
        KeyPress::Char(c) => {
            app.append_to_active_buffer(c);
        },
        _ => {},
    }
}

/// Handles one key press while the value field is being edited.
pub fn editing_value_handler(app: &mut App, key: KeyPress)
    requires
        old(app)@.screen == CurrentScreen::Editing(CurrentlyEditing::Value),
        old(app).wf(),
    ensures
        final(app)@ == editing_value_step(old(app)@, key),
        final(app).wf(),
        key != KeyPress::Enter ==> final(app).pairs == old(app).pairs,
{
    match key {
        KeyPress::Enter => {
            app.save_key_value();
            app.set_screen(CurrentScreen::Main);
        },
        KeyPress::Backspace => {
            app.remove_last_from_active_buffer();
        },
        KeyPress::Char(c) => {
            app.append_to_active_buffer(c);
        },
        _ => {},
    }
}

/// Handles one key press on either editing screen; Esc and Tab are
/// intercepted before the field-specific handling.
pub fn editing_screen_handler(app: &mut App, key: KeyPress)
    requires
        old(app)@.screen is Editing,
        old(app).wf(),
    ensures
        final(app)@ == editing_step(old(app)@, key),
        final(app).wf(),
{
    match key {
        KeyPress::Esc => {
            app.set_screen(CurrentScreen::Main);
        },
        KeyPress::Tab => {
            app.toggle_editing();
        },
        _ => {
            match app.current_screen {
                CurrentScreen::Editing(CurrentlyEditing::Key) => {
                    editing_key_handler(app, key);
                },
                CurrentScreen::Editing(CurrentlyEditing::Value) => {
                    editing_value_handler(app, key);
                },
                _ => {},
            }
        },
    }
}

/// Dispatches one key press against the whole state: routes it by the
/// active screen, and yields the emit-or-discard answer once the
/// confirmation screen has been answered.
pub fn dispatch(app: &mut App, key: KeyPress) -> (decision: Option<bool>)
    requires
        old(app).wf(),
    ensures
        final(app)@ == dispatch_step(old(app)@, key),
        final(app).wf(),
        decision == dispatch_decision(old(app)@, key),
{
    match app.current_screen {
        CurrentScreen::Main => {
            main_screen_handler(app, key);
            None
        },
        CurrentScreen::Editing(_) => {
            editing_screen_handler(app, key);
            None
        },
        CurrentScreen::Exiting => exiting_screen_handler(key),
    }
}

} // verus!

