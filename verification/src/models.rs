pub use crate::media::Title;

use vstd::prelude::*;

use crate::media::{title_text, MediaPage};
use crate::source::MediaPaginatorError;

verus! {

/// The presentation formats the single-lookup endpoint reports.
#[derive(Clone, Copy, Debug, PartialEq, Eq, Structural)]
pub enum Format {
    Tv,
    TvShort,
    Movie,
    Special,
    Ova,
    Ona,
    Music,
    Manga,
    Novel,
    OneShot,
}

/// The label shown for a format.
pub open spec fn format_text(f: Format) -> Seq<char> {
    match f {
        Format::Tv => "📺 Tv"@,
        Format::TvShort => "📺 Tv Short"@,
        Format::Movie => "🎥 Movie"@,
        Format::Special => "🌟 Special"@,
        Format::Ova => "💽 OVA"@,
        Format::Ona => "💻 ONA"@,
        Format::Music => "🎵 Music"@,
        Format::Manga => "📔 Manga"@,
        Format::Novel => "📙 Novel"@,
        Format::OneShot => "📄 One Shot"@,
    }
}

impl Format {
    /// The label shown for this format.
    pub fn text(&self) -> (r: &'static str)
        ensures
            r@ == format_text(*self),
    {
        match self {
            Format::Tv => "📺 Tv",
            Format::TvShort => "📺 Tv Short",
            Format::Movie => "🎥 Movie",
            Format::Special => "🌟 Special",
            Format::Ova => "💽 OVA",
            Format::Ona => "💻 ONA",
            Format::Music => "🎵 Music",
            Format::Manga => "📔 Manga",
            Format::Novel => "📙 Novel",
            Format::OneShot => "📄 One Shot",
        }
    }
}

/// The airing statuses the single-lookup endpoint reports.
#[derive(Clone, Copy, Debug, PartialEq, Eq, Structural)]
pub enum Status {
    Finished,
    Releasing,
    NotYetReleased,
    Canceled,
    Hiatus,
}

/// The label shown for an airing status.
pub open spec fn status_text(s: Status) -> Seq<char> {
    match s {
        Status::Finished => "Finished"@,
        Status::Releasing => "Releasing"@,
        Status::NotYetReleased => "Not Released Yet"@,
        Status::Canceled => "Canceled"@,
        Status::Hiatus => "Hiatus"@,
    }
}

impl Status {
    /// The label shown for this airing status.
    pub fn text(&self) -> (r: &'static str)
        ensures
            r@ == status_text(*self),
    {
        match self {
            Status::Finished => "Finished",
            Status::Releasing => "Releasing",
            Status::NotYetReleased => "Not Released Yet",
            Status::Canceled => "Canceled",
            Status::Hiatus => "Hiatus",
        }
    }
}

/// A calendar date of which the catalog may know only a part.
#[derive(Clone, Copy, Debug, PartialEq, Eq)]
pub struct FuzzyDate {
    pub year: Option<i32>,
    pub month: Option<i32>,
    pub day: Option<i32>,
}

impl FuzzyDate {
    /// Whether all three parts of the date are known.
    pub fn is_complete(&self) -> (r: bool)
        ensures
            r == (self.year is Some && self.month is Some && self.day is Some),
    {
        self.year.is_some() && self.month.is_some() && self.day.is_some()
    }
}

/// The two renditions of an entry's cover art.
#[derive(Debug, PartialEq, Eq)]
pub struct CoverImage {
    pub medium: String,
    pub large: String,
}

/// One catalog entry as the legacy single-lookup endpoint returns it.
#[derive(Debug, PartialEq, Eq)]
pub struct Anime {
    pub id: i32,
    pub site_url: String,
    pub title: Title,
    pub format: Format,
    pub status: Status,
    pub genres: Vec<String>,
    pub start_date: FuzzyDate,
    pub end_date: FuzzyDate,
    pub cover_image: CoverImage,
    pub duration: Option<i32>,
    pub episodes: Option<i32>,
    pub average_score: Option<i32>,
    pub description: String,
}

impl Anime {
    /// The title to display: the user-preferred one when the catalog gives
    /// it, else English, Romaji or native in that order.
    pub fn get_title(&self) -> (r: String)
        ensures
            r@ == title_text(self.title),
    {
        if let Some(s) = &self.title.user_preferred {
            s.clone()
        } else if let Some(s) = &self.title.english {
            s.clone()
        } else if let Some(s) = &self.title.romaji {
            s.clone()
        } else if let Some(s) = &self.title.native {
            s.clone()
        } else {
            "?".to_owned()
        }
    }
}

/// One error entry of the remote response's error envelope.
#[derive(Debug, PartialEq, Eq)]
pub struct QueryError {
    pub message: String,
    pub status: i32,
}

/// The payload of a single-entry lookup.
#[derive(Debug, PartialEq, Eq)]
pub struct SingleAnimeData {
    pub anime: Anime,
}

/// The payload of a batched lookup of up to ten entries.
#[derive(Debug, PartialEq, Eq)]
pub struct BatchAnimeData {
    pub anime0: Option<Anime>,
    pub anime1: Option<Anime>,
    pub anime2: Option<Anime>,
    pub anime3: Option<Anime>,
    pub anime4: Option<Anime>,
    pub anime5: Option<Anime>,
    pub anime6: Option<Anime>,
    pub anime7: Option<Anime>,
    pub anime8: Option<Anime>,
    pub anime9: Option<Anime>,
}

/// The two-shaped remote answer: a payload, or an error envelope beside a
/// successful transport. Exactly one of the two is expected to be present.
#[derive(Debug, PartialEq, Eq)]
pub struct QueryResponse<T> {
    pub errors: Option<Vec<QueryError>>,
    pub data: Option<T>,
}

impl<T> QueryResponse<T> {
    /// Whether the remote reported query-level errors: the envelope is
    /// present and non-empty.
    pub fn has_errors(&self) -> (r: bool)
        ensures
            r == match self.errors {
                Some(es) => es@.len() > 0,
                None => false,
            },
    {
        match &self.errors {
            Some(es) => es.len() > 0,
            None => false,
        }
    }
}

/// The payload of a paged lookup: the one page the remote returned, when it
/// returned one.
#[derive(Debug)]
pub struct PageData {
    pub page: Option<MediaPage>,
}

/// Decide a decoded two-shaped answer of a paged lookup into the fetched
/// page or a query-level failure. An answer is good exactly when its error
/// envelope is absent or empty and it carries a page; anything else —
/// errors reported beside a successful transport, or the data or the page
/// missing — is the remote's query-level failure.
pub fn page_of_response(r: QueryResponse<PageData>) -> (out: Result<
    MediaPage,
    MediaPaginatorError,
>)
    ensures
        out is Ok <==> ((match r.errors {
            Some(es) => es@.len() == 0,
            None => true,
        }) && (match r.data {
            Some(d) => d.page is Some,
            None => false,
        })),
        out matches Ok(p) ==> (match r.data {
            Some(d) => match d.page {
                Some(q) => p == q,
                None => false,
            },
            None => false,
        }),
        out matches Err(e) ==> e == MediaPaginatorError::GraphQLError,
{
    if let Some(es) = &r.errors {
        if es.len() > 0 {
            return Err(MediaPaginatorError::GraphQLError);
        }
    }
    match r.data {
        Some(d) => match d.page {
            Some(p) => Ok(p),
            None => Err(MediaPaginatorError::GraphQLError),
        },
        None => Err(MediaPaginatorError::GraphQLError),
    }
}

} // verus!
