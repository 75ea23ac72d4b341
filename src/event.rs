use vstd::prelude::*;

use crate::action::Action;

verus! {

/// Relies on crossterm's `KeyEvent`: carried through unread, as reported by the terminal.
#[verifier::external_type_specification]
#[verifier::external_body]
pub struct ExKeyEvent(crossterm::event::KeyEvent);

/// Relies on crossterm's `MouseEvent`: carried through unread, as reported by the terminal.
#[verifier::external_type_specification]
#[verifier::external_body]
pub struct ExMouseEvent(crossterm::event::MouseEvent);

/// One occurrence from the terminal, the operating system or the pump's own clock.
#[derive(Debug)]
pub enum Event {
    Init,
    Quit,
    Error,
    Closed,
    Tick,
    Render,
    FocusGained,
    FocusLost,
    Paste(String),
    Key(crossterm::event::KeyEvent),
    Mouse(crossterm::event::MouseEvent),
    Resize(u16, u16),
}

/// Where a component's event handling sends an event.
#[derive(Debug)]
pub enum Route {
    Key(crossterm::event::KeyEvent),
    Mouse(crossterm::event::MouseEvent),
    Ignored,
}

/// Key and mouse events go to their handlers; every other event, and no
/// event, is ignored.
pub fn route_event(event: Option<Event>) -> (r: Route)
    ensures
        match event {
            Some(Event::Key(k)) => r == Route::Key(k),
            Some(Event::Mouse(m)) => r == Route::Mouse(m),
            _ => r is Ignored,
        },
{
    match event {
        Some(Event::Key(k)) => Route::Key(k),
        Some(Event::Mouse(m)) => Route::Mouse(m),
        _ => Route::Ignored,
    }
}

/// The action that the main loop derives from an event of the pump itself:
/// the clock's ticks and frames, a resize, and a request to quit.
pub open spec fn action_for(e: Event) -> Option<crate::action::ActionModel> {
    match e {
        Event::Tick => Some(crate::action::ActionModel::Tick),
        Event::Render => Some(crate::action::ActionModel::Render),
        Event::Resize(w, h) => Some(crate::action::ActionModel::Resize(w, h)),
        Event::Quit => Some(crate::action::ActionModel::Quit),
        _ => None,
    }
}

impl Event {
    /// Translates the event into the action that it stands for, if any.
    pub fn to_action(&self) -> (r: Option<Action>)
        ensures
            match r {
                Some(a) => action_for(*self) == Some(a@),
                None => action_for(*self) is None,
            },
    {
        match self {
            Event::Tick => Some(Action::Tick),
            Event::Render => Some(Action::Render),
            Event::Resize(w, h) => Some(Action::Resize(*w, *h)),
            Event::Quit => Some(Action::Quit),
            _ => None,
        }
    }
}

} // verus!
