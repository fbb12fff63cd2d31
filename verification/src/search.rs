use vstd::prelude::*;
use crate::sub_tab::{SubTab, tab_at, tab_index};
use crate::text::{is_blank, is_blank_text, is_ascii_alphanumeric, lemma_alphanumeric_not_blank};

verus! {

/// The part of the search pane that has the keyboard: the list of tabs or the
/// results of the selected tab.
#[derive(Clone, Copy, PartialEq, Eq, Structural, Debug)]
pub enum Pane {
    Sidebar,
    Content,
}

impl Default for Pane {
    /// The sidebar.
    fn default() -> (r: Self)
        ensures
            r == Pane::Sidebar,
    {
        Pane::Sidebar
    }
}

/// The keys that the search pane tells apart.
#[derive(Clone, Copy, PartialEq, Eq, Structural, Debug)]
pub enum Key {
    Esc,
    Enter,
    Up,
    Down,
    Right,
    Char(char),
    /// Any other key.
    Other,
}

/// A terminal event as the search pane sees it.
#[derive(Clone, Copy, PartialEq, Eq, Structural, Debug)]
pub enum SearchEvent {
    /// A key was pressed.
    Press(Key),
    /// Anything else: a key release or repeat, the mouse, a resize, a paste.
    Other,
}

/// Whether a pane used the event it was given.
#[derive(Clone, Copy, PartialEq, Eq, Structural, Debug)]
pub enum Output {
    Consumed,
    NotConsumed,
}

/// What the search pane does with an event once its own state is updated.
#[derive(Clone, Copy, PartialEq, Eq, Structural, Debug)]
pub enum SearchAction {
    /// Answer the event with this output.
    Reply(Output),
    /// Run the search for the filter text, then answer `Consumed`.
    Search,
    /// Give the event to the filter's text input, then answer `Consumed`.
    EditFilter,
    /// Give the key to the results of this tab and go on with
    /// `SearchState::finish_content_key`.
    ContentKey(SubTab),
}

/// The state of the search pane that its key handling reads and writes.
pub struct SearchState {
    editing: bool,
    sub_tab: SubTab,
    focus: Pane,
}

/// The abstract state of the search pane.
pub struct SearchView {
    /// The filter's text input has the keyboard.
    pub editing: bool,
    /// The tab whose results are shown.
    pub sub_tab: SubTab,
    /// The part that has the keyboard when the filter is not being edited.
    pub focus: Pane,
}

impl View for SearchState {
    type V = SearchView;

    closed spec fn view(&self) -> SearchView {
        SearchView { editing: self.editing, sub_tab: self.sub_tab, focus: self.focus }
    }
}

/// Keys that move up the list of tabs.
pub open spec fn is_up_key(k: Key) -> bool {
    k == Key::Up || k == Key::Char('k')
}

/// Keys that move down the list of tabs.
pub open spec fn is_down_key(k: Key) -> bool {
    k == Key::Down || k == Key::Char('j')
}

/// Keys that move from the list of tabs into the results.
pub open spec fn is_enter_content_key(k: Key) -> bool {
    k == Key::Enter || k == Key::Right || k == Key::Char('l')
}

/// How the search pane answers an event: its next state and what it does.
pub open spec fn search_step(s: SearchView, e: SearchEvent) -> (SearchView, SearchAction) {
    match e {
        SearchEvent::Other => (s, SearchAction::Reply(Output::NotConsumed)),
        SearchEvent::Press(k) => {
            if s.editing {
                if k == Key::Esc || k == Key::Enter {
                    (SearchView { editing: false, focus: Pane::Content, ..s }, SearchAction::Search)
                } else {
                    (s, SearchAction::EditFilter)
                }
            } else if k == Key::Char('e') {
                (SearchView { editing: true, ..s }, SearchAction::Reply(Output::Consumed))
            } else {
                match s.focus {
                    Pane::Sidebar => {
                        if is_up_key(k) {
                            (
                                SearchView { sub_tab: tab_at(tab_index(s.sub_tab) + 3), ..s },
                                SearchAction::Reply(Output::Consumed),
                            )
                        } else if is_down_key(k) {
                            (
                                SearchView { sub_tab: tab_at(tab_index(s.sub_tab) + 1), ..s },
                                SearchAction::Reply(Output::Consumed),
                            )
                        } else if is_enter_content_key(k) {
                            (
                                SearchView { focus: Pane::Content, ..s },
                                SearchAction::Reply(Output::Consumed),
                            )
                        } else {
                            (s, SearchAction::Reply(Output::NotConsumed))
                        }
                    },
                    Pane::Content => {
                        if k == Key::Esc {
                            (
                                SearchView { focus: Pane::Sidebar, ..s },
                                SearchAction::Reply(Output::Consumed),
                            )
                        } else {
                            (s, SearchAction::ContentKey(s.sub_tab))
                        }
                    },
                }
            }
        },
    }
}

impl SearchState {
    /// A pane showing the first tab, with the sidebar focused and the filter
    /// not being edited.
    pub fn new() -> (r: Self)
        ensures
            r@ == (SearchView { editing: false, sub_tab: SubTab::Albums, focus: Pane::Sidebar }),
    {
        SearchState { editing: false, sub_tab: SubTab::Albums, focus: Pane::Sidebar }
    }

    /// Whether the filter's text input has the keyboard.
    pub fn is_editing(&self) -> (r: bool)
        ensures
            r == self@.editing,
    {
        self.editing
    }

    /// The tab whose results are shown.
    pub fn sub_tab(&self) -> (r: SubTab)
        ensures
            r == self@.sub_tab,
    {
        self.sub_tab
    }

    /// The part of the pane that has the keyboard outside filter editing.
    pub fn focus(&self) -> (r: Pane)
        ensures
            r == self@.focus,
    {
        self.focus
    }

    /// Whether the list of tabs is drawn as focused.
    pub fn sidebar_focused(&self) -> (r: bool)
        ensures
            r == (self@.focus == Pane::Sidebar),
    {
        self.focus == Pane::Sidebar
    }

    /// Whether the results are drawn as focused.
    pub fn content_focused(&self) -> (r: bool)
        ensures
            r == (self@.focus == Pane::Content),
    {
        self.focus == Pane::Content
    }

    /// Gives the keyboard to the filter's text input.
    pub fn start_editing(&mut self)
        ensures
            final(self)@ == (SearchView { editing: true, ..old(self)@ }),
    {
        self.editing = true;
    }

    fn cycle_subtab_backwards(&mut self)
        ensures
            final(self)@ == (SearchView { sub_tab: tab_at(tab_index(old(self)@.sub_tab) + 3), ..old(self)@ }),
    {
        self.sub_tab = self.sub_tab.previous();
    }

    fn cycle_subtab(&mut self)
        ensures
            final(self)@ == (SearchView { sub_tab: tab_at(tab_index(old(self)@.sub_tab) + 1), ..old(self)@ }),
    {
        self.sub_tab = self.sub_tab.next();
    }

    /// Updates the pane for `event` and says what is left to do with it:
    /// while the filter is edited, Esc and Enter end the editing, move the
    /// keyboard to the results and ask for the search, and every other key goes
    /// to the text input; otherwise `e` starts editing, the sidebar moves
    /// between tabs with Up/`k` and Down/`j` and enters the results with
    /// Enter, Right or `l`, and the results give the keyboard back to the
    /// sidebar with Esc and get every other key. Events that are no key press
    /// are not consumed.
    pub fn handle_events(&mut self, event: SearchEvent) -> (action: SearchAction)
        ensures
            (final(self)@, action) == search_step(old(self)@, event),
    {
        match event {
            SearchEvent::Other => SearchAction::Reply(Output::NotConsumed),
            SearchEvent::Press(key) => {
                if self.editing {
                    return match key {
                        Key::Esc | Key::Enter => {
                            self.editing = false;
                            self.focus = Pane::Content;
                            SearchAction::Search
                        },
                        _ => SearchAction::EditFilter,
                    };
                }
                match key {
                    Key::Char('e') => {
                        self.start_editing();
                        SearchAction::Reply(Output::Consumed)
                    },
                    _ => match self.focus {
                        Pane::Sidebar => match key {
                            Key::Up | Key::Char('k') => {
                                self.cycle_subtab_backwards();
                                SearchAction::Reply(Output::Consumed)
                            },
                            Key::Down | Key::Char('j') => {
                                self.cycle_subtab();
                                SearchAction::Reply(Output::Consumed)
                            },
                            Key::Enter | Key::Right | Key::Char('l') => {
                                self.focus = Pane::Content;
                                SearchAction::Reply(Output::Consumed)
                            },
                            _ => SearchAction::Reply(Output::NotConsumed),
                        },
                        Pane::Content => match key {
                            Key::Esc => {
                                self.focus = Pane::Sidebar;
                                SearchAction::Reply(Output::Consumed)
                            },
                            _ => SearchAction::ContentKey(self.sub_tab),
                        },
                    },
                }
            },
        }
    }

    /// Finishes a key that the results handled: when that key leaves the
    /// results (`leaves_content`), the sidebar gets the keyboard and the answer
    /// is `Consumed` (result `true`); otherwise nothing changes and the
    /// results' own answer stands (result `false`).
    pub fn finish_content_key(&mut self, leaves_content: bool) -> (consumed: bool)
        ensures
            consumed == leaves_content,
            leaves_content ==> final(self)@ == (SearchView { focus: Pane::Sidebar, ..old(self)@ }),
            !leaves_content ==> final(self)@ == old(self)@,
    {
        if leaves_content {
            self.focus = Pane::Sidebar;
            return true;
        }
        false
    }
}

impl Default for SearchState {
    /// The same pane as `SearchState::new`.
    fn default() -> (r: Self)
        ensures
            r@ == (SearchView { editing: false, sub_tab: SubTab::Albums, focus: Pane::Sidebar }),
    {
        SearchState::new()
    }
}

/// Whether the filter text asks for a search: a filter that is empty or white
/// space only does not, and the results stay as they were.
pub fn is_search_query(filter: &str) -> (r: bool)
    ensures
        r == !is_blank_text(filter@),
        filter@.len() == 0 ==> !r,
        forall|i: int| 0 <= i < filter@.len() && is_ascii_alphanumeric(#[trigger] filter@[i]) ==> r,
{
    proof {
        assert forall|i: int| 0 <= i < filter@.len() && is_ascii_alphanumeric(#[trigger] filter@[i])
            implies !is_blank_text(filter@) by {
            lemma_alphanumeric_not_blank(filter@, i);
        }
    }
    !is_blank(filter)
}

/// An event that is no key press changes nothing and is not consumed.
pub proof fn lemma_other_events_ignored(s: SearchView)
    ensures
        search_step(s, SearchEvent::Other) == (s, SearchAction::Reply(Output::NotConsumed)),
{
}

/// While the filter is edited, Esc and Enter always end the editing, give the
/// keyboard to the results and run the search; every other key goes to the
/// text input and changes nothing else.
pub proof fn lemma_editing_owns_keys(s: SearchView, k: Key)
    requires
        s.editing,
    ensures
        (k == Key::Esc || k == Key::Enter) ==> search_step(s, SearchEvent::Press(k)) == (
            SearchView { editing: false, sub_tab: s.sub_tab, focus: Pane::Content },
            SearchAction::Search,
        ),
        !(k == Key::Esc || k == Key::Enter) ==> search_step(s, SearchEvent::Press(k)) == (
            s,
            SearchAction::EditFilter,
        ),
{
}

/// Outside editing, `e` starts editing wherever the keyboard is, and changes
/// nothing else.
pub proof fn lemma_e_starts_editing(s: SearchView)
    requires
        !s.editing,
    ensures
        search_step(s, SearchEvent::Press(Key::Char('e'))) == (
            SearchView { editing: true, ..s },
            SearchAction::Reply(Output::Consumed),
        ),
{
}

/// In the sidebar, moving down and then up (or up and then down) comes back
/// to the same tab.
pub proof fn lemma_sidebar_moves_undo(s: SearchView, down: Key, up: Key)
    requires
        !s.editing,
        s.focus == Pane::Sidebar,
        is_down_key(down),
        is_up_key(up),
    ensures
        search_step(search_step(s, SearchEvent::Press(down)).0, SearchEvent::Press(up)).0 == s,
        search_step(search_step(s, SearchEvent::Press(up)).0, SearchEvent::Press(down)).0 == s,
{
}

/// The tab changes only through the sidebar's up and down keys, and the
/// editing mode only through `e`, Esc and Enter.
pub proof fn lemma_what_changes_the_state(s: SearchView, e: SearchEvent)
    ensures
        search_step(s, e).0.sub_tab != s.sub_tab ==> {
            &&& !s.editing
            &&& s.focus == Pane::Sidebar
            &&& e matches SearchEvent::Press(k) && (is_up_key(k) || is_down_key(k))
        },
        search_step(s, e).0.editing != s.editing ==> {
            ||| e == SearchEvent::Press(Key::Char('e'))
            ||| e == SearchEvent::Press(Key::Esc)
            ||| e == SearchEvent::Press(Key::Enter)
        },
{
}

/// In the sidebar, outside editing, Enter, Right and `l` always give the
/// keyboard to the results of the tab on show, whichever tab that is, and are
/// consumed; nothing else changes.
pub proof fn lemma_sidebar_enters_content(s: SearchView, k: Key)
    requires
        !s.editing,
        s.focus == Pane::Sidebar,
        k == Key::Enter || k == Key::Right || k == Key::Char('l'),
    ensures
        search_step(s, SearchEvent::Press(k)) == (
            SearchView { editing: false, sub_tab: s.sub_tab, focus: Pane::Content },
            SearchAction::Reply(Output::Consumed),
        ),
{
}

/// In the sidebar, outside editing, Up and `k` move one tab up and Down and
/// `j` one tab down, wrapping around the four tabs; the key is consumed and
/// the keyboard stays in the sidebar.
pub proof fn lemma_sidebar_cycles_tabs(s: SearchView, k: Key)
    requires
        !s.editing,
        s.focus == Pane::Sidebar,
        k == Key::Up || k == Key::Char('k') || k == Key::Down || k == Key::Char('j'),
    ensures
        search_step(s, SearchEvent::Press(k)).1 == SearchAction::Reply(Output::Consumed),
        !search_step(s, SearchEvent::Press(k)).0.editing,
        search_step(s, SearchEvent::Press(k)).0.focus == Pane::Sidebar,
        (k == Key::Up || k == Key::Char('k')) ==> (tab_index(search_step(s, SearchEvent::Press(k)).0.sub_tab) + 1) % 4
            == tab_index(s.sub_tab),
        (k == Key::Down || k == Key::Char('j')) ==> tab_index(search_step(s, SearchEvent::Press(k)).0.sub_tab)
            == (tab_index(s.sub_tab) + 1) % 4,
{
}

/// In the sidebar, outside editing, a key that is none of `e`, Up, `k`, Down,
/// `j`, Enter, Right and `l` changes nothing and is not consumed.
pub proof fn lemma_sidebar_ignores_other_keys(s: SearchView, k: Key)
    requires
        !s.editing,
        s.focus == Pane::Sidebar,
        k != Key::Char('e'),
        k != Key::Up && k != Key::Char('k') && k != Key::Down && k != Key::Char('j'),
        k != Key::Enter && k != Key::Right && k != Key::Char('l'),
    ensures
        search_step(s, SearchEvent::Press(k)) == (s, SearchAction::Reply(Output::NotConsumed)),
{
}

/// In the results, outside editing, Esc gives the keyboard back to the
/// sidebar and is consumed; every key but `e` and Esc goes to the results of
/// the tab on show and changes nothing.
pub proof fn lemma_content_keys(s: SearchView, k: Key)
    requires
        !s.editing,
        s.focus == Pane::Content,
        k != Key::Char('e'),
    ensures
        k == Key::Esc ==> search_step(s, SearchEvent::Press(k)) == (
            SearchView { editing: false, sub_tab: s.sub_tab, focus: Pane::Sidebar },
            SearchAction::Reply(Output::Consumed),
        ),
        k != Key::Esc ==> search_step(s, SearchEvent::Press(k)) == (s, SearchAction::ContentKey(s.sub_tab)),
{
}

/// A key handed to the results leaves the pane's state as it was, and is
/// handed to the results of the tab on show.
pub proof fn lemma_content_keys_keep_state(s: SearchView, e: SearchEvent)
    ensures
        search_step(s, e).1 matches SearchAction::ContentKey(t) ==> {
            &&& t == s.sub_tab
            &&& search_step(s, e).0 == s
            &&& !s.editing
            &&& s.focus == Pane::Content
        },
{
}

} // verus!
