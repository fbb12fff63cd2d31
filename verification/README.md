# qobuz_player

Verified navigation and selection logic of the Qobuz player front ends.

- `src/sub_tab.rs`, `src/sub_tab_order.rs`: the four result tabs of the
  terminal search pane, their positions, cycling and labels, and their order.
- `src/search.rs`: the key handling of the search pane as a state machine
  (`SearchState::handle_events`) whose transitions are `search_step`.
- `src/discover.rs`: the genre and playlist-category selection of the
  Discover page, its menu labels and its playlist request.
- `src/discover_load.rs`: the request sequence of a Discover load, its error
  messages, the timeout outcome and the section order of the page.
- `src/queue.rs`: the pages, paths and templates of the web queue view.
- `src/text.rs`: white-space and digit handling, over `char::is_whitespace`
  and `str::parse::<u32>`.

`app/` holds the widgets, routes and asynchronous requests that act on these
decisions; `tests/` runs the library on concrete values.
