use dtop::input::{events_for_key, events_for_scroll, search_key_of, KeyCode, KeyPress, MouseScroll};
use dtop::types::{AppEvent, SearchKey, SortField};

fn names(events: &[AppEvent]) -> Vec<String> {
    events.iter().map(|e| format!("{:?}", e)).collect()
}

fn plain(code: KeyCode) -> Vec<String> {
    names(&events_for_key(KeyPress { code, ctrl: false }))
}

fn with_ctrl(code: KeyCode) -> Vec<String> {
    names(&events_for_key(KeyPress { code, ctrl: true }))
}

#[test]
fn every_key_goes_to_the_filter_text_first() {
    assert_eq!(plain(KeyCode::Char('x')), vec!["SearchKeyEvent(Char('x'))"]);
    assert_eq!(plain(KeyCode::Backspace), vec!["SearchKeyEvent(Backspace)"]);
    assert_eq!(plain(KeyCode::Delete), vec!["SearchKeyEvent(Delete)"]);
    assert_eq!(plain(KeyCode::Home), vec!["SearchKeyEvent(Home)"]);
    assert_eq!(plain(KeyCode::End), vec!["SearchKeyEvent(End)"]);
    assert_eq!(plain(KeyCode::Other), vec!["SearchKeyEvent(Other)"]);
}

#[test]
fn keys_with_several_meanings_send_them_all() {
    assert_eq!(
        plain(KeyCode::Up),
        vec!["SearchKeyEvent(Other)", "SelectPrevious", "ScrollUp", "SelectActionUp"]
    );
    assert_eq!(
        plain(KeyCode::Char('k')),
        vec!["SearchKeyEvent(Char('k'))", "SelectPrevious", "ScrollUp", "SelectActionUp"]
    );
    assert_eq!(
        plain(KeyCode::Down),
        vec!["SearchKeyEvent(Other)", "SelectNext", "ScrollDown", "SelectActionDown"]
    );
    assert_eq!(
        plain(KeyCode::Char('j')),
        vec!["SearchKeyEvent(Char('j'))", "SelectNext", "ScrollDown", "SelectActionDown"]
    );
    assert_eq!(
        plain(KeyCode::Enter),
        vec!["SearchKeyEvent(Enter)", "EnterPressed", "ExecuteAction"]
    );
    assert_eq!(
        plain(KeyCode::Esc),
        vec!["SearchKeyEvent(Esc)", "ExitLogView", "CancelActionMenu"]
    );
    assert_eq!(plain(KeyCode::Right), vec!["SearchKeyEvent(Right)", "ShowActionMenu"]);
    assert_eq!(plain(KeyCode::Left), vec!["SearchKeyEvent(Left)", "CancelActionMenu"]);
}

#[test]
fn character_shortcuts() {
    let expect = [
        ('q', "Quit"),
        ('/', "EnterSearchMode"),
        ('g', "ScrollToTop"),
        ('G', "ScrollToBottom"),
        ('b', "ScrollPageUp"),
        (' ', "ScrollPageDown"),
        ('o', "OpenDozzle"),
        ('?', "ToggleHelp"),
        ('s', "CycleSortField"),
        ('u', "SetSortField(Uptime)"),
        ('U', "SetSortField(Uptime)"),
        ('n', "SetSortField(Name)"),
        ('N', "SetSortField(Name)"),
        ('c', "SetSortField(Cpu)"),
        ('C', "SetSortField(Cpu)"),
        ('m', "SetSortField(Memory)"),
        ('M', "SetSortField(Memory)"),
        ('a', "ToggleShowAll"),
        ('A', "ToggleShowAll"),
        ('l', "ShowActionMenu"),
        ('h', "CancelActionMenu"),
    ];
    for (c, event) in expect {
        let events = plain(KeyCode::Char(c));
        assert_eq!(events.len(), 2, "{:?}", c);
        assert_eq!(events[1], event, "{:?}", c);
    }
    assert_eq!(plain(KeyCode::Char('Q')).len(), 1);
    assert_eq!(plain(KeyCode::Char('S')).len(), 1);
}

#[test]
fn control_changes_a_few_keys_only() {
    assert_eq!(with_ctrl(KeyCode::Char('q'))[1], "Quit");
    assert_eq!(with_ctrl(KeyCode::Char('c'))[1], "Quit");
    assert_eq!(with_ctrl(KeyCode::Char('u'))[1], "ScrollPageUp");
    assert_eq!(with_ctrl(KeyCode::Char('d'))[1], "ScrollPageDown");
    assert_eq!(with_ctrl(KeyCode::Char('s'))[1], "CycleSortField");
    assert_eq!(with_ctrl(KeyCode::Char('C'))[1], "SetSortField(Cpu)");
    assert_eq!(with_ctrl(KeyCode::Up), plain(KeyCode::Up));
    assert!(matches!(
        events_for_key(KeyPress { code: KeyCode::Char('m'), ctrl: true })[1],
        AppEvent::SetSortField(SortField::Memory)
    ));
}

#[test]
fn the_mouse_wheel_moves_the_selection_and_the_log() {
    assert_eq!(names(&events_for_scroll(MouseScroll::Up)), vec!["SelectPrevious", "ScrollUp"]);
    assert_eq!(names(&events_for_scroll(MouseScroll::Down)), vec!["SelectNext", "ScrollDown"]);
}

#[test]
fn search_keys() {
    assert_eq!(search_key_of(KeyCode::Char('é')), SearchKey::Char('é'));
    assert_eq!(search_key_of(KeyCode::Up), SearchKey::Other);
    assert_eq!(search_key_of(KeyCode::Down), SearchKey::Other);
    assert_eq!(search_key_of(KeyCode::Enter), SearchKey::Enter);
    assert_eq!(search_key_of(KeyCode::Esc), SearchKey::Esc);
}
