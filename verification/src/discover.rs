use vstd::prelude::*;
use crate::text::{parse_u32, parsed_u32, same_text, decimal_text, lemma_parse_decimal_text};

verus! {

/// A music genre offered by the catalogue.
pub struct Genre {
    pub id: u32,
    pub name: String,
}

/// A playlist category of the Discover page.
pub struct PlaylistTag {
    pub name: String,
    pub slug: String,
}

impl Clone for PlaylistTag {
    fn clone(&self) -> (r: Self)
        ensures
            r == *self,
    {
        PlaylistTag { name: self.name.clone(), slug: self.slug.clone() }
    }
}

/// What the Discover page is filtered by: a genre (none for all genres) and a
/// playlist category (none for all playlists).
pub struct GenrePlaylistTag {
    pub genre_id: Option<u32>,
    pub playlist_tag: Option<PlaylistTag>,
}

/// The arguments of a request for the playlists of a genre and category.
pub struct GenrePlaylistSlug {
    pub genre_id: Option<u32>,
    pub playlist_slug: Option<String>,
}

/// The menu target that stands for "no filter".
pub open spec fn all_target() -> Seq<char> {
    "all"@
}

/// `found` is the first tag of `tags` whose slug is `slug`, or `None` when no
/// tag has that slug.
pub open spec fn first_tag_with_slug(tags: Seq<PlaylistTag>, slug: Seq<char>, found: Option<PlaylistTag>) -> bool {
    match found {
        Some(t) => exists|i: int|
            0 <= i < tags.len() && tags[i] == t && t.slug@ == slug
                && forall|j: int| 0 <= j < i ==> (#[trigger] tags[j]).slug@ != slug,
        None => forall|j: int| 0 <= j < tags.len() ==> (#[trigger] tags[j]).slug@ != slug,
    }
}

/// `label` is the name of the first genre of `genres` whose id is `id`, or
/// "All genres" when no genre has it.
pub open spec fn genre_label_of(genres: Seq<Genre>, id: u32, label: Seq<char>) -> bool {
    ||| exists|i: int|
        0 <= i < genres.len() && genres[i].id == id && label == genres[i].name@
            && forall|j: int| 0 <= j < i ==> (#[trigger] genres[j]).id != id
    ||| (forall|j: int| 0 <= j < genres.len() ==> (#[trigger] genres[j]).id != id)
        && label == "All genres"@
}

/// Whether picking the playlist menu entry `target` while `current` is
/// selected changes the selection: "all" does unless nothing is selected, and
/// another entry does unless it is the slug of the selected category.
pub open spec fn reloads_playlists(current: Option<PlaylistTag>, target: Seq<char>) -> bool {
    if target == all_target() {
        current is Some
    } else {
        match current {
            Some(t) => t.slug@ != target,
            None => true,
        }
    }
}

impl GenrePlaylistTag {
    /// No genre and no playlist category: everything is shown.
    pub fn new() -> (r: Self)
        ensures
            r.genre_id is None,
            r.playlist_tag is None,
    {
        GenrePlaylistTag { genre_id: None, playlist_tag: None }
    }

    /// Picks the genre menu entry `target`: "all" clears the genre, any other
    /// target is read as a genre id (an unreadable one clears it too). The
    /// playlist category is cleared either way, and the page is to be loaded
    /// again.
    pub fn select_genre(&mut self, target: &str)
        ensures
            final(self).genre_id == (if target@ == all_target() {
                None
            } else {
                parsed_u32(target@)
            }),
            final(self).playlist_tag is None,
            forall|id: u32| target@ == decimal_text(id as nat) ==> final(self).genre_id == Some(id),
    {
        proof {
            reveal_strlit("all");
            assert forall|id: u32| target@ == decimal_text(id as nat) implies target@ != all_target()
                && parsed_u32(target@) == Some(id) by {
                lemma_parse_decimal_text(id);
                assert(parsed_u32(target@) is Some);
                if target@ == all_target() {
                    assert(target@[0] == 'a');
                }
            }
        }
        if same_text(target, "all") {
            self.genre_id = None;
        } else {
            self.genre_id = parse_u32(target);
        }
        self.playlist_tag = None;
    }

    /// Picks the playlist menu entry `target` among `tags`. "all" clears the
    /// category; another target selects the first tag with that slug (none if
    /// no tag has it). Picking what is already selected changes nothing. The
    /// result says whether the playlist section is to be loaded again, which
    /// is exactly when the selection was not already the one picked.
    pub fn select_playlist_tag(&mut self, target: &str, tags: &[PlaylistTag]) -> (reload: bool)
        ensures
            final(self).genre_id == old(self).genre_id,
            reload == reloads_playlists(old(self).playlist_tag, target@),
            !reload ==> final(self).playlist_tag == old(self).playlist_tag,
            reload && target@ == all_target() ==> final(self).playlist_tag is None,
            reload && target@ != all_target() ==> first_tag_with_slug(tags@, target@, final(self).playlist_tag),
            reload && target@ != all_target() ==> forall|i: int|
                0 <= i < tags@.len() && tags@[i].slug@ == target@
                    && (forall|j: int| 0 <= j < i ==> (#[trigger] tags@[j]).slug@ != target@)
                    ==> final(self).playlist_tag == Some(#[trigger] tags@[i]),
            reload && target@ != all_target() && (forall|j: int| 0 <= j < tags@.len() ==> (#[trigger] tags@[j]).slug@ != target@)
                ==> final(self).playlist_tag is None,
    {
        if same_text(target, "all") {
            if self.playlist_tag.is_none() {
                return false;
            }
            self.playlist_tag = None;
            return true;
        }
        let unchanged = match &self.playlist_tag {
            Some(t) => same_text(t.slug.as_str(), target),
            None => false,
        };
        if unchanged {
            return false;
        }
        let mut i: usize = 0;
        while i < tags.len()
            invariant
                i <= tags@.len(),
                *self == *old(self),
                target@ != all_target(),
                reloads_playlists(old(self).playlist_tag, target@),
                forall|j: int| 0 <= j < i ==> (#[trigger] tags@[j]).slug@ != target@,
            decreases tags@.len() - i,
        {
            if same_text(tags[i].slug.as_str(), target) {
                let t = tags[i].clone();
                assert(first_tag_with_slug(tags@, target@, Some(t))) by {
                    assert(tags@[i as int] == t);
                }
                self.playlist_tag = Some(t);
                return true;
            }
            i = i + 1;
        }
        self.playlist_tag = None;
        true
    }

    /// The label of the genre menu button: the selected genre's name, found in
    /// `genres`, or "All genres".
    pub fn genre_label(&self, genres: &[Genre]) -> (r: String)
        ensures
            match self.genre_id {
                Some(id) => genre_label_of(genres@, id, r@),
                None => r@ == "All genres"@,
            },
            forall|i: int|
                0 <= i < genres@.len() && self.genre_id == Some(genres@[i].id)
                    && (forall|j: int| 0 <= j < i ==> (#[trigger] genres@[j]).id != genres@[i].id)
                    ==> r@ == (#[trigger] genres@[i]).name@,
            (forall|j: int| 0 <= j < genres@.len() ==> Some((#[trigger] genres@[j]).id) != self.genre_id)
                ==> r@ == "All genres"@,
    {
        match self.genre_id {
            None => String::from_str("All genres"),
            Some(id) => {
                let mut i: usize = 0;
                while i < genres.len()
                    invariant
                        i <= genres@.len(),
                        self.genre_id == Some(id),
                        forall|j: int| 0 <= j < i ==> (#[trigger] genres@[j]).id != id,
                    decreases genres@.len() - i,
                {
                    if genres[i].id == id {
                        let name = genres[i].name.clone();
                        assert(genre_label_of(genres@, id, name@)) by {
                            assert(genres@[i as int].name@ == name@);
                        }
                        return name;
                    }
                    i = i + 1;
                }
                String::from_str("All genres")
            },
        }
    }

    /// The label of the playlist menu button: the selected category's name, or
    /// "All playlists".
    pub fn playlist_tag_label(&self) -> (r: String)
        ensures
            match self.playlist_tag {
                Some(t) => r@ == t.name@,
                None => r@ == "All playlists"@,
            },
    {
        match &self.playlist_tag {
            Some(t) => t.name.clone(),
            None => String::from_str("All playlists"),
        }
    }

    /// The request for the playlists of the selection: its genre and the slug
    /// of its category.
    pub fn playlist_request(&self) -> (r: GenrePlaylistSlug)
        ensures
            r.genre_id == self.genre_id,
            match self.playlist_tag {
                Some(t) => r.playlist_slug == Some(t.slug),
                None => r.playlist_slug is None,
            },
    {
        GenrePlaylistSlug {
            genre_id: self.genre_id,
            playlist_slug: match &self.playlist_tag {
                Some(t) => Some(t.slug.clone()),
                None => None,
            },
        }
    }
}

/// The category a pick selects is the first tag of the menu with the picked
/// slug, wherever that tag stands in the menu (the last one included), and no
/// category when no tag has the slug.
pub proof fn lemma_first_tag_is_picked(tags: Seq<PlaylistTag>, i: int, found: Option<PlaylistTag>)
    requires
        0 <= i < tags.len(),
        forall|j: int| 0 <= j < i ==> (#[trigger] tags[j]).slug@ != tags[i].slug@,
        first_tag_with_slug(tags, tags[i].slug@, found),
    ensures
        found == Some(tags[i]),
{
    match found {
        Some(t) => {
            let k = choose|k: int|
                0 <= k < tags.len() && tags[k] == t && t.slug@ == tags[i].slug@
                    && forall|j: int| 0 <= j < k ==> (#[trigger] tags[j]).slug@ != tags[i].slug@;
            if k < i {
                assert(tags[k].slug@ != tags[i].slug@);
            } else if k > i {
                assert(tags[i].slug@ != tags[i].slug@);
            }
        },
        None => {
            assert(tags[i].slug@ != tags[i].slug@);
        },
    }
}

/// A pick of a slug that no tag of the menu has selects no category.
pub proof fn lemma_unknown_slug_picks_nothing(tags: Seq<PlaylistTag>, slug: Seq<char>, found: Option<PlaylistTag>)
    requires
        forall|j: int| 0 <= j < tags.len() ==> (#[trigger] tags[j]).slug@ != slug,
        first_tag_with_slug(tags, slug, found),
    ensures
        found is None,
{
}

/// The genre button is labelled with the name of the first genre of the list
/// that has the selected id, wherever it stands in the list (the first one
/// included), and "All genres" when no genre has it.
pub proof fn lemma_genre_label_found(genres: Seq<Genre>, i: int, label: Seq<char>)
    requires
        0 <= i < genres.len(),
        forall|j: int| 0 <= j < i ==> (#[trigger] genres[j]).id != genres[i].id,
        genre_label_of(genres, genres[i].id, label),
    ensures
        label == genres[i].name@,
{
    let id = genres[i].id;
    if exists|k: int|
        0 <= k < genres.len() && genres[k].id == id && label == genres[k].name@
            && forall|j: int| 0 <= j < k ==> (#[trigger] genres[j]).id != id {
        let k = choose|k: int|
            0 <= k < genres.len() && genres[k].id == id && label == genres[k].name@
                && forall|j: int| 0 <= j < k ==> (#[trigger] genres[j]).id != id;
        if k < i {
            assert(genres[k].id != id);
        } else if k > i {
            assert(genres[i].id != id);
        }
    } else {
        assert(genres[i].id != id);
    }
}

/// With no genre of the list having the selected id, the label is
/// "All genres".
pub proof fn lemma_genre_label_missing(genres: Seq<Genre>, id: u32, label: Seq<char>)
    requires
        forall|j: int| 0 <= j < genres.len() ==> (#[trigger] genres[j]).id != id,
        genre_label_of(genres, id, label),
    ensures
        label == "All genres"@,
{
}

/// Picking the same playlist menu entry twice in a row reloads the playlists
/// once: after the first pick, the second changes nothing, whenever the first
/// pick was "all" or found a category with the picked slug.
pub proof fn lemma_repeated_pick_reloads_once(tags: Seq<PlaylistTag>, target: Seq<char>, picked: Option<PlaylistTag>)
    requires
        target == all_target() ==> picked is None,
        target != all_target() ==> first_tag_with_slug(tags, target, picked) && picked is Some,
    ensures
        !reloads_playlists(picked, target),
{
}

} // verus!
