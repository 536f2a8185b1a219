use vstd::prelude::*;

verus! {

/// The broad kind of catalog entry a query asks for. Anything the remote
/// catalog reports beyond the two known kinds is carried through verbatim.
#[derive(Debug, PartialEq, Eq)]
pub enum MediaType {
    Anime,
    Manga,
    Other(String),
}

impl Clone for MediaType {
    fn clone(&self) -> (res: Self)
        ensures
            res == *self,
    {
        match self {
            MediaType::Anime => MediaType::Anime,
            MediaType::Manga => MediaType::Manga,
            MediaType::Other(s) => MediaType::Other(s.clone()),
        }
    }
}

/// The alternative titles one catalog entry may carry; every field is
/// optional because the remote catalog fills in only what it knows.
#[derive(Debug, PartialEq, Eq)]
pub struct Title {
    pub romaji: Option<String>,
    pub english: Option<String>,
    pub native: Option<String>,
    pub user_preferred: Option<String>,
}

/// The characters of the title that should be shown for `t`: the first
/// known one in the order user-preferred, English, Romaji, native, with a
/// question mark when none is known.
pub open spec fn title_text(t: Title) -> Seq<char> {
    match t.user_preferred {
        Some(s) => s@,
        None => match t.english {
            Some(s) => s@,
            None => match t.romaji {
                Some(s) => s@,
                None => match t.native {
                    Some(s) => s@,
                    None => "?"@,
                },
            },
        },
    }
}

fn clone_opt_string(o: &Option<String>) -> (r: Option<String>)
    ensures
        r == *o,
{
    match o {
        Some(s) => Some(s.clone()),
        None => None,
    }
}

impl Clone for Title {
    fn clone(&self) -> (res: Self)
        ensures
            res == *self,
    {
        Title {
            romaji: clone_opt_string(&self.romaji),
            english: clone_opt_string(&self.english),
            native: clone_opt_string(&self.native),
            user_preferred: clone_opt_string(&self.user_preferred),
        }
    }
}

/// One entry of the remote catalog as the core reads it: a stable identity
/// and a display title. Everything else the remote returns is inert payload
/// that the surrounding program renders on its own.
#[derive(Debug, PartialEq, Eq)]
pub struct LookupMediaPagePageMedia {
    pub id: i64,
    pub title: Option<Title>,
}

impl Clone for LookupMediaPagePageMedia {
    fn clone(&self) -> (res: Self)
        ensures
            res == *self,
    {
        LookupMediaPagePageMedia {
            id: self.id,
            title: match &self.title {
                Some(t) => Some(t.clone()),
                None => None,
            },
        }
    }
}

/// The display title of `m`, with a missing title block shown as unknown.
pub open spec fn media_title_text(m: LookupMediaPagePageMedia) -> Seq<char> {
    match m.title {
        Some(t) => title_text(t),
        None => "?"@,
    }
}

impl LookupMediaPagePageMedia {
    /// The title to display for this entry: the user-preferred one when the
    /// catalog gives it, else English, Romaji or native in that order.
    pub fn get_title(&self) -> (r: String)
        requires
            self.title is Some,
        ensures
            r@ == media_title_text(*self),
    {
        match &self.title {
            Some(t) => {
                if let Some(s) = &t.user_preferred {
                    s.clone()
                } else if let Some(s) = &t.english {
                    s.clone()
                } else if let Some(s) = &t.romaji {
                    s.clone()
                } else if let Some(s) = &t.native {
                    s.clone()
                } else {
                    "?".to_owned()
                }
            },
            None => "?".to_owned(),
        }
    }
}

/// The pagination metadata the remote catalog reports beside each fetched
/// page of results.
#[derive(Clone, Copy, Debug, PartialEq, Eq, Structural)]
pub struct PageInfo {
    pub total: i64,
    pub current_page: i64,
    pub last_page: i64,
    pub has_next_page: bool,
}

impl Default for PageInfo {
    /// The metadata of a result set nobody has fetched yet: a single empty
    /// first page.
    fn default() -> (r: PageInfo)
        ensures
            r == (PageInfo { total: 0, current_page: 1, last_page: 1, has_next_page: false }),
    {
        PageInfo { total: 0, current_page: 1, last_page: 1, has_next_page: false }
    }
}

/// One fetched page: its metadata and its items, in the order the remote
/// catalog returned them.
#[derive(Debug)]
pub struct MediaPage {
    pub page_info: PageInfo,
    pub media: Vec<LookupMediaPagePageMedia>,
}

/// The mathematical content of a fetched page: its metadata and the
/// sequence of its items.
pub struct PageModel {
    pub info: PageInfo,
    pub items: Seq<LookupMediaPagePageMedia>,
}

/// What a `MediaPage` value denotes.
pub open spec fn page_model(p: MediaPage) -> PageModel {
    PageModel { info: p.page_info, items: p.media@ }
}

fn clone_media_vec(v: &Vec<LookupMediaPagePageMedia>) -> (r: Vec<LookupMediaPagePageMedia>)
    ensures
        r@ == v@,
{
    let mut r: Vec<LookupMediaPagePageMedia> = Vec::new();
    let mut i: usize = 0;
    while i < v.len()
        invariant
            i <= v.len(),
            r@ == v@.subrange(0, i as int),
        decreases v.len() - i,
    {
        r.push(v[i].clone());
        i = i + 1;
    }
    proof {
        assert(r@ =~= v@);
    }
    r
}

impl Clone for MediaPage {
    fn clone(&self) -> (res: Self)
        ensures
            page_model(res) == page_model(*self),
    {
        MediaPage { page_info: self.page_info, media: clone_media_vec(&self.media) }
    }
}

} // verus!
