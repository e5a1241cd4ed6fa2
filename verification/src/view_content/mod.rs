use vstd::prelude::*;
use crate::global_types::Source;
use crate::outside::opt_string_view;
use crate::text::strings_view;

pub mod anime;
pub mod movie;
pub mod tv;

verus! {

/// What a request for one title asks for.
#[derive(Debug)]
pub struct ViewContentParams {
    pub tmdb_token: String,
    pub source: Source,
    pub id: String,
}

/// The ids a title has in other catalogues.
#[derive(Debug)]
pub struct ExternalID {
    pub mal: Option<String>,
    pub kitsu: Option<String>,
    pub imdb: Option<String>,
    pub tmdb: Option<String>,
    pub thetvdb: Option<String>,
}

/// What an `ExternalID` holds.
pub ghost struct ExternalIDView {
    pub mal: Option<Seq<char>>,
    pub kitsu: Option<Seq<char>>,
    pub imdb: Option<Seq<char>>,
    pub tmdb: Option<Seq<char>>,
    pub thetvdb: Option<Seq<char>>,
}

impl View for ExternalID {
    type V = ExternalIDView;

    open spec fn view(&self) -> ExternalIDView {
        ExternalIDView {
            mal: opt_string_view(self.mal),
            kitsu: opt_string_view(self.kitsu),
            imdb: opt_string_view(self.imdb),
            tmdb: opt_string_view(self.tmdb),
            thetvdb: opt_string_view(self.thetvdb),
        }
    }
}

/// No external id known.
pub open spec fn no_external_ids() -> ExternalIDView {
    ExternalIDView { mal: None, kitsu: None, imdb: None, tmdb: None, thetvdb: None }
}

impl Default for ExternalID {
    fn default() -> (r: ExternalID)
        ensures
            r@ == no_external_ids(),
    {
        ExternalID { mal: None, kitsu: None, imdb: None, tmdb: None, thetvdb: None }
    }
}

/// Everything shown about one title.
#[derive(Debug)]
pub struct ViewContentInfo {
    pub external_id: ExternalID,
    pub url: String,
    pub title: String,
    pub title_secondary: String,
    pub thumbnail_url: String,
    pub banner_url: String,
    pub contextual: Vec<String>,
    pub description: String,
    pub trailer_url: String,
    pub countdown: i64,
    pub pictures: Vec<String>,
    /// The number of episodes of each season, in order: `[5, 6]` is a first season of five
    /// episodes and a second of six.
    pub episodes: Vec<u64>,
}

/// What a `ViewContentInfo` holds.
pub ghost struct ViewContentInfoView {
    pub external_id: ExternalIDView,
    pub url: Seq<char>,
    pub title: Seq<char>,
    pub title_secondary: Seq<char>,
    pub thumbnail_url: Seq<char>,
    pub banner_url: Seq<char>,
    pub contextual: Seq<Seq<char>>,
    pub description: Seq<char>,
    pub trailer_url: Seq<char>,
    pub countdown: i64,
    pub pictures: Seq<Seq<char>>,
    pub episodes: Seq<u64>,
}

impl View for ViewContentInfo {
    type V = ViewContentInfoView;

    open spec fn view(&self) -> ViewContentInfoView {
        ViewContentInfoView {
            external_id: self.external_id@,
            url: self.url@,
            title: self.title@,
            title_secondary: self.title_secondary@,
            thumbnail_url: self.thumbnail_url@,
            banner_url: self.banner_url@,
            contextual: strings_view(self.contextual@),
            description: self.description@,
            trailer_url: self.trailer_url@,
            countdown: self.countdown,
            pictures: strings_view(self.pictures@),
            episodes: self.episodes@,
        }
    }
}

/// A list of two strings.
pub fn two_strings(a: String, b: String) -> (r: Vec<String>)
    ensures
        strings_view(r@) == seq![a@, b@],
{
    let mut v = Vec::new();
    v.push(a);
    v.push(b);
    proof {
        assert(strings_view(v@) =~= seq![a@, b@]);
    }
    v
}

/// A list of one number.
pub fn one_number(n: u64) -> (r: Vec<u64>)
    ensures
        r@ == seq![n],
{
    let mut v = Vec::new();
    v.push(n);
    proof {
        assert(v@ =~= seq![n]);
    }
    v
}

} // verus!
