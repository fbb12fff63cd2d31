//! Navigation and selection logic of the Qobuz player front ends: the
//! search-tab sub tabs of the terminal client, the key handling of its search
//! pane, the genre and playlist-tag selection of the desktop Discover page and
//! the page table of the web queue.

pub mod sub_tab;
pub mod sub_tab_order;
pub mod text;
pub mod discover;
pub mod discover_load;
pub mod search;
pub mod queue;
