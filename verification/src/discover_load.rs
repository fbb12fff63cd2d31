use vstd::prelude::*;
use crate::discover::{GenrePlaylistTag, GenrePlaylistSlug};

verus! {

/// Seconds a Discover request may take before it counts as failed.
pub const LOAD_TIMEOUT_SECONDS: u32 = 10;

/// Why a Discover request gave no data.
pub enum LoadError {
    /// The request did not finish within `LOAD_TIMEOUT_SECONDS`.
    Timeout,
    /// The request failed; the text is its error message.
    Request(String),
}

impl LoadError {
    /// The message that is logged for the error.
    pub fn to_string(&self) -> (r: String)
        ensures
            match self {
                LoadError::Timeout => r@ == "Request timed out"@,
                LoadError::Request(e) => r@ == e@,
            },
    {
        match self {
            LoadError::Timeout => String::from_str("Request timed out"),
            LoadError::Request(e) => e.clone(),
        }
    }
}

/// The result of a request raced against the load timeout. `finished` is what
/// the request gave when it finished first (its error already turned into its
/// message), and `None` when the timeout fired first.
pub fn timeout_outcome<T>(finished: Option<Result<T, String>>) -> (r: Result<T, LoadError>)
    ensures
        match finished {
            None => r == Err::<T, LoadError>(LoadError::Timeout),
            Some(Ok(v)) => r == Ok::<T, LoadError>(v),
            Some(Err(e)) => r == Err::<T, LoadError>(LoadError::Request(e)),
        },
{
    match finished {
        None => Err(LoadError::Timeout),
        Some(Ok(v)) => Ok(v),
        Some(Err(e)) => Err(LoadError::Request(e)),
    }
}

/// The three requests of a Discover load, in the order in which they are made.
#[derive(Clone, Copy, PartialEq, Eq, Structural, Debug)]
pub enum DiscoverFetch {
    /// The Discover data (album shelves and playlist categories) of the genre.
    Discover,
    /// The list of genres.
    Genres,
    /// The playlists of the selected genre and category.
    Playlists,
}

/// Where a Discover load stands.
#[derive(Clone, Copy, PartialEq, Eq, Structural, Debug)]
pub enum LoadStage {
    /// Waiting for the result of a request.
    Waiting(DiscoverFetch),
    /// Every request succeeded; the page is shown.
    Shown,
    /// A request failed; the error view is shown.
    Failed,
}

/// What the page does next in a Discover load.
#[derive(Clone, Copy, Debug)]
pub enum LoadStep {
    /// Make this request (with the load's snapshot of the selection).
    Fetch(DiscoverFetch),
    /// Replace the page with the error view and this message, and stop.
    ShowError(&'static str),
    /// Build the page from the three results.
    ShowPage,
}

/// The error message shown when the request `fetch` fails.
pub open spec fn failure_message(fetch: DiscoverFetch) -> &'static str {
    match fetch {
        DiscoverFetch::Discover => "Failed to load Discover",
        DiscoverFetch::Genres => "Failed to load genres",
        DiscoverFetch::Playlists => "Failed to load playlists",
    }
}

/// The request made after `fetch` succeeded, if any.
pub open spec fn fetch_after(fetch: DiscoverFetch) -> Option<DiscoverFetch> {
    match fetch {
        DiscoverFetch::Discover => Some(DiscoverFetch::Genres),
        DiscoverFetch::Genres => Some(DiscoverFetch::Playlists),
        DiscoverFetch::Playlists => None,
    }
}

/// The stage and step after the request `fetch` succeeded (`ok`) or failed.
pub open spec fn advance_from(fetch: DiscoverFetch, ok: bool) -> (LoadStage, LoadStep) {
    if !ok {
        (LoadStage::Failed, LoadStep::ShowError(failure_message(fetch)))
    } else {
        match fetch_after(fetch) {
            Some(n) => (LoadStage::Waiting(n), LoadStep::Fetch(n)),
            None => (LoadStage::Shown, LoadStep::ShowPage),
        }
    }
}

/// One Discover load: the selection it was started with and where it stands.
/// The selection is taken once, at the start, so that a change of selection
/// during the load does not mix two selections in one page.
pub struct DiscoverLoad {
    genre_id: Option<u32>,
    playlists: GenrePlaylistSlug,
    stage: LoadStage,
}

impl DiscoverLoad {
    /// The genre whose Discover data is requested.
    pub closed spec fn genre(&self) -> Option<u32> {
        self.genre_id
    }

    /// The request for the playlists section.
    pub closed spec fn playlist_request_spec(&self) -> GenrePlaylistSlug {
        self.playlists
    }

    /// Where the load stands.
    pub closed spec fn stage_spec(&self) -> LoadStage {
        self.stage
    }

    /// Starts a load for `selection`: the first step is the Discover request.
    pub fn start(selection: &GenrePlaylistTag) -> (r: (DiscoverLoad, LoadStep))
        ensures
            r.0.genre() == selection.genre_id,
            r.0.playlist_request_spec().genre_id == selection.genre_id,
            match selection.playlist_tag {
                Some(t) => r.0.playlist_request_spec().playlist_slug == Some(t.slug),
                None => r.0.playlist_request_spec().playlist_slug is None,
            },
            r.0.stage_spec() == LoadStage::Waiting(DiscoverFetch::Discover),
            r.1 == LoadStep::Fetch(DiscoverFetch::Discover),
    {
        let load = DiscoverLoad {
            genre_id: selection.genre_id,
            playlists: selection.playlist_request(),
            stage: LoadStage::Waiting(DiscoverFetch::Discover),
        };
        (load, LoadStep::Fetch(DiscoverFetch::Discover))
    }

    /// The genre whose Discover data is requested.
    pub fn genre_id(&self) -> (r: Option<u32>)
        ensures
            r == self.genre(),
    {
        self.genre_id
    }

    /// The request for the playlists section.
    pub fn playlist_request(&self) -> (r: &GenrePlaylistSlug)
        ensures
            *r == self.playlist_request_spec(),
    {
        &self.playlists
    }

    /// Where the load stands.
    pub fn stage(&self) -> (r: LoadStage)
        ensures
            r == self.stage_spec(),
    {
        self.stage
    }

    /// Records whether the awaited request succeeded (`ok`) and says what to do
    /// next: the next request, the page once all three succeeded, or the error
    /// view with the failed request's message as soon as one fails.
    pub fn advance(&mut self, ok: bool) -> (step: LoadStep)
        requires
            old(self).stage_spec() is Waiting,
        ensures
            ({
                let fetch = old(self).stage_spec()->Waiting_0;
                let (stage, next) = advance_from(fetch, ok);
                &&& final(self).stage_spec() == stage
                &&& step == next
            }),
            final(self).genre() == old(self).genre(),
            final(self).playlist_request_spec() == old(self).playlist_request_spec(),
    {
        let fetch = match self.stage {
            LoadStage::Waiting(f) => f,
            _ => DiscoverFetch::Discover,
        };
        if !ok {
            self.stage = LoadStage::Failed;
            let message = match fetch {
                DiscoverFetch::Discover => "Failed to load Discover",
                DiscoverFetch::Genres => "Failed to load genres",
                DiscoverFetch::Playlists => "Failed to load playlists",
            };
            return LoadStep::ShowError(message);
        }
        match fetch {
            DiscoverFetch::Discover => {
                self.stage = LoadStage::Waiting(DiscoverFetch::Genres);
                LoadStep::Fetch(DiscoverFetch::Genres)
            },
            DiscoverFetch::Genres => {
                self.stage = LoadStage::Waiting(DiscoverFetch::Playlists);
                LoadStep::Fetch(DiscoverFetch::Playlists)
            },
            DiscoverFetch::Playlists => {
                self.stage = LoadStage::Shown;
                LoadStep::ShowPage
            },
        }
    }
}

/// A load whose three requests succeed in turn asks for the Discover data,
/// the genres and the playlists, in that order, and then shows the page; a
/// load whose request fails stops there with that request's message.
pub proof fn lemma_load_sequence(fetch: DiscoverFetch)
    ensures
        advance_from(DiscoverFetch::Discover, true).0 == LoadStage::Waiting(DiscoverFetch::Genres),
        advance_from(DiscoverFetch::Genres, true).0 == LoadStage::Waiting(DiscoverFetch::Playlists),
        advance_from(DiscoverFetch::Playlists, true).0 == LoadStage::Shown,
        advance_from(DiscoverFetch::Playlists, true).1 matches LoadStep::ShowPage,
        advance_from(fetch, false).0 == LoadStage::Failed,
        advance_from(fetch, false).1 matches LoadStep::ShowError(m) && m == failure_message(fetch),
{
}

/// The album shelves of the Discover page.
#[derive(Clone, Copy, PartialEq, Eq, Structural, Debug)]
pub enum AlbumShelf {
    NewReleases,
    IdealDiscography,
    Qobuzissims,
    AlbumOfTheWeek,
    PressAwards,
    MostStreamed,
}

/// The title of a shelf.
pub open spec fn shelf_title(shelf: AlbumShelf) -> Seq<char> {
    match shelf {
        AlbumShelf::NewReleases => "New releases"@,
        AlbumShelf::IdealDiscography => "Essential Discography"@,
        AlbumShelf::Qobuzissims => "Qobuzissime"@,
        AlbumShelf::AlbumOfTheWeek => "Album of the week"@,
        AlbumShelf::PressAwards => "Press Accolades"@,
        AlbumShelf::MostStreamed => "Most streamed"@,
    }
}

impl AlbumShelf {
    /// The title shown above the shelf.
    pub fn title(self) -> (r: &'static str)
        ensures
            r@ == shelf_title(self),
    {
        match self {
            AlbumShelf::NewReleases => "New releases",
            AlbumShelf::IdealDiscography => "Essential Discography",
            AlbumShelf::Qobuzissims => "Qobuzissime",
            AlbumShelf::AlbumOfTheWeek => "Album of the week",
            AlbumShelf::PressAwards => "Press Accolades",
            AlbumShelf::MostStreamed => "Most streamed",
        }
    }
}

/// A section of the Discover page below its header.
#[derive(Clone, Copy, PartialEq, Eq, Structural, Debug)]
pub enum DiscoverSection {
    Albums(AlbumShelf),
    Playlists,
}

/// The order of the sections of the Discover page.
pub open spec fn section_order() -> Seq<DiscoverSection> {
    seq![
        DiscoverSection::Albums(AlbumShelf::NewReleases),
        DiscoverSection::Playlists,
        DiscoverSection::Albums(AlbumShelf::IdealDiscography),
        DiscoverSection::Albums(AlbumShelf::Qobuzissims),
        DiscoverSection::Albums(AlbumShelf::AlbumOfTheWeek),
        DiscoverSection::Albums(AlbumShelf::PressAwards),
        DiscoverSection::Albums(AlbumShelf::MostStreamed),
    ]
}

/// The sections of the Discover page, top to bottom.
pub fn discover_sections() -> (r: Vec<DiscoverSection>)
    ensures
        r@ == section_order(),
{
    let mut r: Vec<DiscoverSection> = Vec::new();
    r.push(DiscoverSection::Albums(AlbumShelf::NewReleases));
    r.push(DiscoverSection::Playlists);
    r.push(DiscoverSection::Albums(AlbumShelf::IdealDiscography));
    r.push(DiscoverSection::Albums(AlbumShelf::Qobuzissims));
    r.push(DiscoverSection::Albums(AlbumShelf::AlbumOfTheWeek));
    r.push(DiscoverSection::Albums(AlbumShelf::PressAwards));
    r.push(DiscoverSection::Albums(AlbumShelf::MostStreamed));
    r
}

/// Whether an album shelf holding `album_count` albums is shown: an empty
/// shelf is left out of the page.
pub fn shows_album_shelf(album_count: usize) -> (r: bool)
    ensures
        r == (album_count > 0),
{
    album_count > 0
}

} // verus!
