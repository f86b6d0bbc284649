//! From keys and the mouse wheel to events. One key may mean several
//! things; all of them are sent, and the view on screen decides which one
//! applies.

use crate::types::{AppEvent, SearchKey, SortField};
use vstd::prelude::*;

verus! {

/// A key of the keyboard.
#[derive(Clone, Copy, Debug, PartialEq, Eq, Structural)]
pub enum KeyCode {
    Char(char),
    Up,
    Down,
    Left,
    Right,
    Enter,
    Esc,
    Backspace,
    Delete,
    Home,
    End,
    Other,
}

/// A key as it was pressed.
#[derive(Clone, Copy, Debug, PartialEq, Eq, Structural)]
pub struct KeyPress {
    pub code: KeyCode,
    /// Whether the control key was held.
    pub ctrl: bool,
}

/// A turn of the mouse wheel.
#[derive(Clone, Copy, Debug, PartialEq, Eq, Structural)]
pub enum MouseScroll {
    Up,
    Down,
}

/// The key as the filter text sees it.
pub open spec fn spec_search_key(code: KeyCode) -> SearchKey {
    match code {
        KeyCode::Char(c) => SearchKey::Char(c),
        KeyCode::Backspace => SearchKey::Backspace,
        KeyCode::Delete => SearchKey::Delete,
        KeyCode::Left => SearchKey::Left,
        KeyCode::Right => SearchKey::Right,
        KeyCode::Home => SearchKey::Home,
        KeyCode::End => SearchKey::End,
        KeyCode::Enter => SearchKey::Enter,
        KeyCode::Esc => SearchKey::Esc,
        KeyCode::Up | KeyCode::Down | KeyCode::Other => SearchKey::Other,
    }
}

/// What a key means besides being a key for the filter text.
pub open spec fn spec_shortcuts(key: KeyPress) -> Seq<AppEvent> {
    match key.code {
        KeyCode::Char(c) => if key.ctrl && (c == 'q' || c == 'c') {
            seq![AppEvent::Quit]
        } else if key.ctrl && c == 'u' {
            seq![AppEvent::ScrollPageUp]
        } else if key.ctrl && c == 'd' {
            seq![AppEvent::ScrollPageDown]
        } else if c == 'q' {
            seq![AppEvent::Quit]
        } else if c == '/' {
            seq![AppEvent::EnterSearchMode]
        } else if c == 'k' {
            seq![AppEvent::SelectPrevious, AppEvent::ScrollUp, AppEvent::SelectActionUp]
        } else if c == 'j' {
            seq![AppEvent::SelectNext, AppEvent::ScrollDown, AppEvent::SelectActionDown]
        } else if c == 'g' {
            seq![AppEvent::ScrollToTop]
        } else if c == 'G' {
            seq![AppEvent::ScrollToBottom]
        } else if c == 'b' {
            seq![AppEvent::ScrollPageUp]
        } else if c == ' ' {
            seq![AppEvent::ScrollPageDown]
        } else if c == 'o' {
            seq![AppEvent::OpenDozzle]
        } else if c == '?' {
            seq![AppEvent::ToggleHelp]
        } else if c == 's' {
            seq![AppEvent::CycleSortField]
        } else if c == 'u' || c == 'U' {
            seq![AppEvent::SetSortField(SortField::Uptime)]
        } else if c == 'n' || c == 'N' {
            seq![AppEvent::SetSortField(SortField::Name)]
        } else if c == 'c' || c == 'C' {
            seq![AppEvent::SetSortField(SortField::Cpu)]
        } else if c == 'm' || c == 'M' {
            seq![AppEvent::SetSortField(SortField::Memory)]
        } else if c == 'a' || c == 'A' {
            seq![AppEvent::ToggleShowAll]
        } else if c == 'l' {
            seq![AppEvent::ShowActionMenu]
        } else if c == 'h' {
            seq![AppEvent::CancelActionMenu]
        } else {
            Seq::empty()
        },
        KeyCode::Up => seq![AppEvent::SelectPrevious, AppEvent::ScrollUp, AppEvent::SelectActionUp],
        KeyCode::Down => seq![
            AppEvent::SelectNext,
            AppEvent::ScrollDown,
            AppEvent::SelectActionDown,
        ],
        KeyCode::Enter => seq![AppEvent::EnterPressed, AppEvent::ExecuteAction],
        KeyCode::Esc => seq![AppEvent::ExitLogView, AppEvent::CancelActionMenu],
        KeyCode::Right => seq![AppEvent::ShowActionMenu],
        KeyCode::Left => seq![AppEvent::CancelActionMenu],
        _ => Seq::empty(),
    }
}

/// The events of a key: the key for the filter text first, then what else
/// it means.
pub open spec fn spec_events_for_key(key: KeyPress) -> Seq<AppEvent> {
    seq![AppEvent::SearchKeyEvent(spec_search_key(key.code))] + spec_shortcuts(key)
}

/// The events of a turn of the mouse wheel: it moves the selection and
/// scrolls the log.
pub open spec fn spec_events_for_scroll(scroll: MouseScroll) -> Seq<AppEvent> {
    match scroll {
        MouseScroll::Up => seq![AppEvent::SelectPrevious, AppEvent::ScrollUp],
        MouseScroll::Down => seq![AppEvent::SelectNext, AppEvent::ScrollDown],
    }
}

/// The key as the filter text sees it.
pub fn search_key_of(code: KeyCode) -> (r: SearchKey)
    ensures
        r == spec_search_key(code),
{
    match code {
        KeyCode::Char(c) => SearchKey::Char(c),
        KeyCode::Backspace => SearchKey::Backspace,
        KeyCode::Delete => SearchKey::Delete,
        KeyCode::Left => SearchKey::Left,
        KeyCode::Right => SearchKey::Right,
        KeyCode::Home => SearchKey::Home,
        KeyCode::End => SearchKey::End,
        KeyCode::Enter => SearchKey::Enter,
        KeyCode::Esc => SearchKey::Esc,
        KeyCode::Up | KeyCode::Down | KeyCode::Other => SearchKey::Other,
    }
}

/// Adds the events of moving up to `events`.
fn push_up(events: &mut Vec<AppEvent>)
    ensures
        final(events)@ == old(events)@ + seq![
            AppEvent::SelectPrevious,
            AppEvent::ScrollUp,
            AppEvent::SelectActionUp,
        ],
{
    events.push(AppEvent::SelectPrevious);
    events.push(AppEvent::ScrollUp);
    events.push(AppEvent::SelectActionUp);
    assert(events@ =~= old(events)@ + seq![
        AppEvent::SelectPrevious,
        AppEvent::ScrollUp,
        AppEvent::SelectActionUp,
    ]);
}

/// Adds the events of moving down to `events`.
fn push_down(events: &mut Vec<AppEvent>)
    ensures
        final(events)@ == old(events)@ + seq![
            AppEvent::SelectNext,
            AppEvent::ScrollDown,
            AppEvent::SelectActionDown,
        ],
{
    events.push(AppEvent::SelectNext);
    events.push(AppEvent::ScrollDown);
    events.push(AppEvent::SelectActionDown);
    assert(events@ =~= old(events)@ + seq![
        AppEvent::SelectNext,
        AppEvent::ScrollDown,
        AppEvent::SelectActionDown,
    ]);
}

/// Adds one event to `events`.
fn push_one(events: &mut Vec<AppEvent>, event: AppEvent)
    ensures
        final(events)@ == old(events)@ + seq![event],
{
    events.push(event);
    assert(events@ =~= old(events)@ + seq![event]);
}

/// Adds the events of a character key to `events`.
fn push_char(events: &mut Vec<AppEvent>, c: char, ctrl: bool)
    ensures
        final(events)@ == old(events)@ + spec_shortcuts(KeyPress { code: KeyCode::Char(c), ctrl }),
{
    if ctrl && (c == 'q' || c == 'c') {
        push_one(events, AppEvent::Quit);
    } else if ctrl && c == 'u' {
        push_one(events, AppEvent::ScrollPageUp);
    } else if ctrl && c == 'd' {
        push_one(events, AppEvent::ScrollPageDown);
    } else if c == 'q' {
        push_one(events, AppEvent::Quit);
    } else if c == '/' {
        push_one(events, AppEvent::EnterSearchMode);
    } else if c == 'k' {
        push_up(events);
    } else if c == 'j' {
        push_down(events);
    } else if c == 'g' {
        push_one(events, AppEvent::ScrollToTop);
    } else if c == 'G' {
        push_one(events, AppEvent::ScrollToBottom);
    } else if c == 'b' {
        push_one(events, AppEvent::ScrollPageUp);
    } else if c == ' ' {
        push_one(events, AppEvent::ScrollPageDown);
    } else if c == 'o' {
        push_one(events, AppEvent::OpenDozzle);
    } else if c == '?' {
        push_one(events, AppEvent::ToggleHelp);
    } else if c == 's' {
        push_one(events, AppEvent::CycleSortField);
    } else if c == 'u' || c == 'U' {
        push_one(events, AppEvent::SetSortField(SortField::Uptime));
    } else if c == 'n' || c == 'N' {
        push_one(events, AppEvent::SetSortField(SortField::Name));
    } else if c == 'c' || c == 'C' {
        push_one(events, AppEvent::SetSortField(SortField::Cpu));
    } else if c == 'm' || c == 'M' {
        push_one(events, AppEvent::SetSortField(SortField::Memory));
    } else if c == 'a' || c == 'A' {
        push_one(events, AppEvent::ToggleShowAll);
    } else if c == 'l' {
        push_one(events, AppEvent::ShowActionMenu);
    } else if c == 'h' {
        push_one(events, AppEvent::CancelActionMenu);
    } else {
        assert(events@ =~= old(events)@ + Seq::<AppEvent>::empty());
    }
}

/// The events that a key sends, in the order in which they are sent.
pub fn events_for_key(key: KeyPress) -> (events: Vec<AppEvent>)
    ensures
        events@ == spec_events_for_key(key),
{
    let mut events: Vec<AppEvent> = Vec::new();
    events.push(AppEvent::SearchKeyEvent(search_key_of(key.code)));
    assert(events@ =~= seq![AppEvent::SearchKeyEvent(spec_search_key(key.code))]);
    let ghost first = events@;
    match key.code {
        KeyCode::Char(c) => {
            push_char(&mut events, c, key.ctrl);
        },
        KeyCode::Up => {
            push_up(&mut events);
        },
        KeyCode::Down => {
            push_down(&mut events);
        },
        KeyCode::Enter => {
            events.push(AppEvent::EnterPressed);
            events.push(AppEvent::ExecuteAction);
            assert(events@ =~= first + seq![AppEvent::EnterPressed, AppEvent::ExecuteAction]);
        },
        KeyCode::Esc => {
            events.push(AppEvent::ExitLogView);
            events.push(AppEvent::CancelActionMenu);
            assert(events@ =~= first + seq![AppEvent::ExitLogView, AppEvent::CancelActionMenu]);
        },
        KeyCode::Right => {
            push_one(&mut events, AppEvent::ShowActionMenu);
        },
        KeyCode::Left => {
            push_one(&mut events, AppEvent::CancelActionMenu);
        },
        _ => {
            assert(events@ =~= first + Seq::<AppEvent>::empty());
        },
    }
    events
}

/// The events that a turn of the mouse wheel sends.
pub fn events_for_scroll(scroll: MouseScroll) -> (events: Vec<AppEvent>)
    ensures
        events@ == spec_events_for_scroll(scroll),
{
    let mut events: Vec<AppEvent> = Vec::new();
    match scroll {
        MouseScroll::Up => {
            events.push(AppEvent::SelectPrevious);
            events.push(AppEvent::ScrollUp);
            assert(events@ =~= seq![AppEvent::SelectPrevious, AppEvent::ScrollUp]);
        },
        MouseScroll::Down => {
            events.push(AppEvent::SelectNext);
            events.push(AppEvent::ScrollDown);
            assert(events@ =~= seq![AppEvent::SelectNext, AppEvent::ScrollDown]);
        },
    }
    events
}

} // verus!
