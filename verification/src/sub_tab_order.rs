use vstd::prelude::*;
use core::cmp::Ordering;
use crate::sub_tab::{SubTab, tab_index};

verus! {

/// Tabs compare by their position in the sidebar.
pub open spec fn compare_tabs(a: SubTab, b: SubTab) -> Option<Ordering> {
    if tab_index(a) < tab_index(b) {
        Some(Ordering::Less)
    } else if tab_index(a) == tab_index(b) {
        Some(Ordering::Equal)
    } else {
        Some(Ordering::Greater)
    }
}

impl PartialOrd for SubTab {
    fn partial_cmp(&self, other: &Self) -> (r: Option<Ordering>) {
        let a = self.selected();
        let b = other.selected();
        if a < b {
            Some(Ordering::Less)
        } else if a == b {
            Some(Ordering::Equal)
        } else {
            Some(Ordering::Greater)
        }
    }
}

impl vstd::std_specs::cmp::PartialOrdSpecImpl for SubTab {
    open spec fn obeys_partial_cmp_spec() -> bool {
        true
    }

    open spec fn partial_cmp_spec(&self, other: &Self) -> Option<Ordering> {
        compare_tabs(*self, *other)
    }
}

/// The tab order is the sidebar order: `Albums < Artists < Playlists < Tracks`,
/// and two tabs are ordered alike only when they are the same tab.
pub proof fn lemma_order_is_sidebar_order(a: SubTab, b: SubTab)
    ensures
        (compare_tabs(a, b) == Some(Ordering::Less)) <==> tab_index(a) < tab_index(b),
        (compare_tabs(a, b) == Some(Ordering::Equal)) <==> a == b,
        (compare_tabs(a, b) == Some(Ordering::Less)) <==> (compare_tabs(b, a) == Some(Ordering::Greater)),
{
}

} // verus!
