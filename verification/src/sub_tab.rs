use vstd::prelude::*;

verus! {

/// The four result categories of the search pane, in the order in which the
/// sidebar lists them.
#[derive(Clone, Copy, PartialEq, Eq, Structural, Ord, Debug)]
pub enum SubTab {
    Albums,
    Artists,
    Playlists,
    Tracks,
}

/// Position of a tab in the sidebar.
pub open spec fn tab_index(tab: SubTab) -> nat {
    match tab {
        SubTab::Albums => 0,
        SubTab::Artists => 1,
        SubTab::Playlists => 2,
        SubTab::Tracks => 3,
    }
}

/// The tab at a position, counted modulo the number of tabs.
pub open spec fn tab_at(n: nat) -> SubTab {
    let r = n % 4;
    if r == 0 {
        SubTab::Albums
    } else if r == 1 {
        SubTab::Artists
    } else if r == 2 {
        SubTab::Playlists
    } else {
        SubTab::Tracks
    }
}

/// The sidebar label of a tab.
pub open spec fn tab_label(tab: SubTab) -> Seq<char> {
    match tab {
        SubTab::Albums => "Albums"@,
        SubTab::Artists => "Artists"@,
        SubTab::Playlists => "Playlists"@,
        SubTab::Tracks => "Tracks"@,
    }
}

impl SubTab {
    /// Number of tabs.
    pub const COUNT: u8 = 4;

    /// Position of the tab in the sidebar.
    pub fn selected(self) -> (r: u8)
        ensures
            r == tab_index(self),
            r < Self::COUNT,
    {
        match self {
            SubTab::Albums => 0,
            SubTab::Artists => 1,
            SubTab::Playlists => 2,
            SubTab::Tracks => 3,
        }
    }

    /// The tab at position `v` modulo the number of tabs.
    pub fn from_u8(v: u8) -> (r: Self)
        ensures
            r == tab_at(v as nat),
            tab_index(r) == v % 4,
    {
        match v % Self::COUNT {
            0 => SubTab::Albums,
            1 => SubTab::Artists,
            2 => SubTab::Playlists,
            _ => SubTab::Tracks,
        }
    }

    /// The tab below this one, wrapping from the last to the first.
    pub fn next(self) -> (r: Self)
        ensures
            r == tab_at(tab_index(self) + 1),
    {
        Self::from_u8(self.selected().wrapping_add(1))
    }

    /// The tab above this one, wrapping from the first to the last.
    pub fn previous(self) -> (r: Self)
        ensures
            r == tab_at(tab_index(self) + 3),
    {
        Self::from_u8(self.selected().wrapping_add(Self::COUNT - 1))
    }

    /// The sidebar label of the tab.
    pub fn as_str(self) -> (r: &'static str)
        ensures
            r@ == tab_label(self),
    {
        match self {
            SubTab::Albums => "Albums",
            SubTab::Artists => "Artists",
            SubTab::Playlists => "Playlists",
            SubTab::Tracks => "Tracks",
        }
    }

    /// Every tab, in sidebar order.
    pub const VALUES: [SubTab; 4] = [SubTab::Albums, SubTab::Artists, SubTab::Playlists, SubTab::Tracks];

    /// The sidebar labels, in sidebar order.
    pub fn labels() -> (r: Vec<&'static str>)
        ensures
            r@.len() == 4,
            forall|i: int| 0 <= i < 4 ==> #[trigger] r@[i]@ == tab_label(tab_at(i as nat)),
    {
        let values = Self::VALUES;
        let mut r: Vec<&'static str> = Vec::new();
        let mut i: usize = 0;
        while i < 4
            invariant
                i <= 4,
                values@ == Self::VALUES@,
                r@.len() == i,
                forall|j: int| 0 <= j < i ==> #[trigger] r@[j]@ == tab_label(tab_at(j as nat)),
            decreases 4 - i,
        {
            r.push(values[i].as_str());
            i = i + 1;
        }
        r
    }

    /// The label of the tab as an owned string; this is how the tab is displayed.
    pub fn to_string(&self) -> (r: String)
        ensures
            r@ == tab_label(*self),
    {
        String::from_str(self.as_str())
    }
}

impl Default for SubTab {
    /// The first tab, `Albums`.
    fn default() -> (r: Self)
        ensures
            r == SubTab::Albums,
    {
        SubTab::Albums
    }
}

/// Every tab sits at its own position: the tab at a tab's position is that tab.
pub proof fn lemma_index_round_trip(tab: SubTab)
    ensures
        tab_at(tab_index(tab)) == tab,
        tab_index(tab) < 4,
{
}

/// The position of the tab at `n` is `n` modulo the number of tabs.
pub proof fn lemma_position_round_trip(n: nat)
    ensures
        tab_index(tab_at(n)) == n % 4,
{
}

/// Moving down and then up, or up and then down, returns to the same tab.
pub proof fn lemma_next_previous_inverse(tab: SubTab)
    ensures
        tab_at(tab_index(tab_at(tab_index(tab) + 1)) + 3) == tab,
        tab_at(tab_index(tab_at(tab_index(tab) + 3)) + 1) == tab,
{
}

/// Moving down as many times as there are tabs visits every tab once and
/// returns to the start.
pub proof fn lemma_next_cycles(tab: SubTab)
    ensures
        ({
            let t1 = tab_at(tab_index(tab) + 1);
            let t2 = tab_at(tab_index(t1) + 1);
            let t3 = tab_at(tab_index(t2) + 1);
            let t4 = tab_at(tab_index(t3) + 1);
            &&& t4 == tab
            &&& t1 != tab && t2 != tab && t3 != tab
            &&& t1 != t2 && t1 != t3 && t2 != t3
        }),
{
}

/// Different tabs have different labels.
pub proof fn lemma_labels_distinct(a: SubTab, b: SubTab)
    requires
        a != b,
    ensures
        tab_label(a) != tab_label(b),
{
    reveal_strlit("Albums");
    reveal_strlit("Artists");
    reveal_strlit("Playlists");
    reveal_strlit("Tracks");
    assert(tab_label(a).len() != tab_label(b).len() || tab_label(a)[0] != tab_label(b)[0]);
}

} // verus!
