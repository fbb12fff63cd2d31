use qobuz_player::search::{is_search_query, Key, Output, Pane, SearchAction, SearchEvent, SearchState};
use qobuz_player::sub_tab::SubTab;

fn press(k: Key) -> SearchEvent {
    SearchEvent::Press(k)
}

#[test]
fn new_state_shows_albums_in_sidebar() {
    let s = SearchState::new();
    assert!(!s.is_editing());
    assert_eq!(s.sub_tab(), SubTab::Albums);
    assert_eq!(s.focus(), Pane::Sidebar);
    assert!(s.sidebar_focused());
    assert!(!s.content_focused());
    let d = SearchState::default();
    assert_eq!(d.focus(), Pane::Sidebar);
    assert_eq!(Pane::default(), Pane::Sidebar);
}

#[test]
fn other_events_not_consumed() {
    let mut s = SearchState::new();
    assert_eq!(s.handle_events(SearchEvent::Other), SearchAction::Reply(Output::NotConsumed));
    assert_eq!(s.sub_tab(), SubTab::Albums);
    assert!(!s.is_editing());
}

#[test]
fn e_starts_editing_and_keys_go_to_filter() {
    let mut s = SearchState::new();
    assert_eq!(s.handle_events(press(Key::Char('e'))), SearchAction::Reply(Output::Consumed));
    assert!(s.is_editing());
    assert_eq!(s.handle_events(press(Key::Down)), SearchAction::EditFilter);
    assert_eq!(s.handle_events(press(Key::Char('j'))), SearchAction::EditFilter);
    assert_eq!(s.handle_events(press(Key::Char('e'))), SearchAction::EditFilter);
    assert_eq!(s.sub_tab(), SubTab::Albums);
    assert!(s.is_editing());
}

#[test]
fn enter_or_esc_ends_editing_with_search() {
    let mut s = SearchState::new();
    s.start_editing();
    assert_eq!(s.handle_events(press(Key::Enter)), SearchAction::Search);
    assert!(!s.is_editing());
    assert_eq!(s.focus(), Pane::Content);
    s.start_editing();
    assert_eq!(s.handle_events(press(Key::Esc)), SearchAction::Search);
    assert!(!s.is_editing());
}

#[test]
fn sidebar_navigation() {
    let mut s = SearchState::new();
    assert_eq!(s.handle_events(press(Key::Down)), SearchAction::Reply(Output::Consumed));
    assert_eq!(s.sub_tab(), SubTab::Artists);
    s.handle_events(press(Key::Char('j')));
    assert_eq!(s.sub_tab(), SubTab::Playlists);
    s.handle_events(press(Key::Char('k')));
    assert_eq!(s.sub_tab(), SubTab::Artists);
    s.handle_events(press(Key::Up));
    s.handle_events(press(Key::Up));
    assert_eq!(s.sub_tab(), SubTab::Tracks);
    assert_eq!(s.handle_events(press(Key::Char('x'))), SearchAction::Reply(Output::NotConsumed));
    assert_eq!(s.handle_events(press(Key::Esc)), SearchAction::Reply(Output::NotConsumed));
    assert_eq!(s.focus(), Pane::Sidebar);
}

#[test]
fn down_then_up_returns() {
    for start in 0..4u8 {
        let mut s = SearchState::new();
        for _ in 0..start {
            s.handle_events(press(Key::Down));
        }
        let before = s.sub_tab();
        s.handle_events(press(Key::Down));
        s.handle_events(press(Key::Up));
        assert_eq!(s.sub_tab(), before);
    }
}

#[test]
fn entering_and_leaving_content() {
    for k in [Key::Enter, Key::Right, Key::Char('l')] {
        let mut s = SearchState::new();
        assert_eq!(s.handle_events(press(k)), SearchAction::Reply(Output::Consumed));
        assert_eq!(s.focus(), Pane::Content);
        assert!(s.content_focused());
    }
    let mut s = SearchState::new();
    s.handle_events(press(Key::Down));
    s.handle_events(press(Key::Right));
    assert_eq!(s.handle_events(press(Key::Down)), SearchAction::ContentKey(SubTab::Artists));
    assert_eq!(s.handle_events(press(Key::Other)), SearchAction::ContentKey(SubTab::Artists));
    assert_eq!(s.sub_tab(), SubTab::Artists);
    assert_eq!(s.handle_events(press(Key::Esc)), SearchAction::Reply(Output::Consumed));
    assert_eq!(s.focus(), Pane::Sidebar);
}

#[test]
fn e_in_content_starts_editing() {
    let mut s = SearchState::new();
    s.handle_events(press(Key::Enter));
    assert_eq!(s.handle_events(press(Key::Char('e'))), SearchAction::Reply(Output::Consumed));
    assert!(s.is_editing());
    assert_eq!(s.focus(), Pane::Content);
}

#[test]
fn finishing_content_keys() {
    let mut s = SearchState::new();
    s.handle_events(press(Key::Enter));
    assert!(!s.finish_content_key(false));
    assert_eq!(s.focus(), Pane::Content);
    assert!(s.finish_content_key(true));
    assert_eq!(s.focus(), Pane::Sidebar);
}

#[test]
fn blank_filters_do_not_search() {
    assert!(!is_search_query(""));
    assert!(!is_search_query("   "));
    assert!(!is_search_query(" \t\n\r\u{0B}\u{0C}"));
    assert!(!is_search_query("\u{3000}\u{A0}\u{2003}\u{85}"));
    assert!(is_search_query("  miles davis "));
    assert!(is_search_query("x"));
    assert!(is_search_query("\u{200B}"));
}
