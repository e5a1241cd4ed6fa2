use vstd::prelude::*;
use crate::error::{ContentError, ContentErrorView, result_view};
use crate::featured_content::anime::{AnimeContext, AnimeContextView, anime_context_spec, anime_context, context_list_spec, context_list};
use crate::fields::{str_field, object_field, array_field, nested_str_or_empty, opt_str, nested, get_str, get_object, get_array, get_nested_str_or_empty, get_opt_str, get_nested};
use crate::http::{HttpRequest, HttpRequestView, HttpMethod, get_request};
use crate::json::Json;
use crate::outside::{chrono_midnight_millis, date_midnight_millis, opt_string_view};
use crate::text::{str_concat, decimal, u64_to_string};
use super::{ViewContentInfo, ViewContentInfoView, ExternalID, ExternalIDView, two_strings, one_number};

verus! {

/// The request for the anime `id`.
pub open spec fn view_request_spec(id: Seq<char>) -> HttpRequestView {
    HttpRequestView {
        method: HttpMethod::Get,
        url: "https://kitsu.io/api/edge/anime/"@ + id,
        query: seq![],
        headers: seq![],
        form: seq![],
        random_user_agent: false,
    }
}

pub fn view_request(id: &str) -> (r: HttpRequest)
    ensures
        r@ == view_request_spec(id@),
{
    let r = get_request(str_concat("https://kitsu.io/api/edge/anime/", id), Vec::new(), Vec::new());
    proof {
        crate::http::lemma_no_pairs();
    }
    r
}

/// The fields that must be present: the `data` object, its `attributes` object, the title
/// and the description.
pub open spec fn required_fields_spec(res: Json) -> Result<(Json, Json, Seq<char>, Seq<char>), ContentErrorView> {
    match object_field(res, "data"@, "data not exist"@, "data not an object"@) {
        Err(e) => Err(e),
        Ok(item) => match object_field(item, "attributes"@, "attributes not exist"@, "attributes not an object"@) {
            Err(e) => Err(e),
            Ok(attributes) => match str_field(attributes, "canonicalTitle"@, "canonicalTitle not exist"@, "canonicalTitle not a string"@) {
                Err(e) => Err(e),
                Ok(title) => match str_field(attributes, "description"@, "description not exist"@, "description not a string"@) {
                    Err(e) => Err(e),
                    Ok(description) => Ok((item, attributes, title, description)),
                },
            },
        },
    }
}

/// Whether reading the response stops on a next release date that is not a date (where
/// the reader panics).
pub open spec fn bad_release_date(res: Json) -> bool {
    match required_fields_spec(res) {
        Ok((item, attributes, title, description)) => match opt_str(attributes, "nextRelease"@) {
            Some(d) => chrono_midnight_millis(d, "%Y-%m-%d"@) is None,
            None => false,
        },
        Err(_) => false,
    }
}

/// An anime read from the response, before its rating and external ids are written.
#[derive(Debug)]
pub struct ViewAnime {
    pub url: String,
    pub title: String,
    pub description: String,
    pub banner_url: String,
    pub thumbnail_url: String,
    pub context: AnimeContext,
    pub countdown: i64,
    pub episode_count: u64,
    pub trailer_url: String,
}

/// What a `ViewAnime` holds.
pub ghost struct ViewAnimeView {
    pub url: Seq<char>,
    pub title: Seq<char>,
    pub description: Seq<char>,
    pub banner_url: Seq<char>,
    pub thumbnail_url: Seq<char>,
    pub context: AnimeContextView,
    pub countdown: i64,
    pub episode_count: u64,
    pub trailer_url: Seq<char>,
}

impl View for ViewAnime {
    type V = ViewAnimeView;

    open spec fn view(&self) -> ViewAnimeView {
        ViewAnimeView {
            url: self.url@,
            title: self.title@,
            description: self.description@,
            banner_url: self.banner_url@,
            thumbnail_url: self.thumbnail_url@,
            context: self.context@,
            countdown: self.countdown,
            episode_count: self.episode_count,
            trailer_url: self.trailer_url@,
        }
    }
}

/// The milliseconds to the next release: midnight UTC of `nextRelease`, or -1 without one.
pub open spec fn countdown_spec(attributes: Json) -> i64 {
    match opt_str(attributes, "nextRelease"@) {
        Some(d) => match chrono_midnight_millis(d, "%Y-%m-%d"@) {
            Some(ms) => ms,
            None => -1i64,
        },
        None => -1i64,
    }
}

/// `links.self` as a string, or empty.
pub open spec fn self_link_spec(item: Json) -> Seq<char> {
    match nested(item, "links"@, "self"@) {
        Some(v) => match v.str_spec() {
            Some(s) => s,
            None => seq![],
        },
        None => seq![],
    }
}

/// The anime of a response.
pub open spec fn view_item_spec(res: Json) -> Result<ViewAnimeView, ContentErrorView> {
    match required_fields_spec(res) {
        Err(e) => Err(e),
        Ok((item, attributes, title, description)) => Ok(ViewAnimeView {
            url: self_link_spec(item),
            title: title,
            description: description,
            banner_url: nested_str_or_empty(attributes, "coverImage"@, "original"@),
            thumbnail_url: nested_str_or_empty(attributes, "posterImage"@, "original"@),
            context: anime_context_spec(attributes),
            countdown: countdown_spec(attributes),
            episode_count: match attributes.get_spec("episodeCount"@) {
                Some(v) => match v.u64_spec() {
                    Some(n) => n,
                    None => 0,
                },
                None => 0,
            },
            trailer_url: "https://www.youtube.com/watch?v="@ + match opt_str(attributes, "youtubeVideoId"@) {
                Some(s) => s,
                None => seq![],
            },
        }),
    }
}

fn self_link(item: &Json) -> (r: String)
    ensures
        r@ == self_link_spec(*item),
{
    match get_nested(item, "links", "self") {
        Some(v) => match v.as_str() {
            Some(s) => s.to_string(),
            None => String::new(),
        },
        None => String::new(),
    }
}

/// Reads an anime; the next release date, when there is one, must be a date.
pub fn view_item(res: &Json) -> (r: Result<ViewAnime, ContentError>)
    requires
        !bad_release_date(*res),
    ensures
        result_view(r) == view_item_spec(*res),
{
    let item = get_object(res, "data", "data not exist", "data not an object")?;
    let attributes = get_object(item, "attributes", "attributes not exist", "attributes not an object")?;
    let title = get_str(attributes, "canonicalTitle", "canonicalTitle not exist", "canonicalTitle not a string")?;
    let description = get_str(attributes, "description", "description not exist", "description not a string")?;
    let banner = get_nested_str_or_empty(attributes, "coverImage", "original");
    let poster = get_nested_str_or_empty(attributes, "posterImage", "original");
    let context = anime_context(attributes);
    let url = self_link(item);
    let countdown: i64 = match get_opt_str(attributes, "nextRelease") {
        Some(d) => match date_midnight_millis(d, "%Y-%m-%d") {
            Ok(ms) => ms,
            Err(_) => -1,
        },
        None => -1,
    };
    let episode_count: u64 = match attributes.get("episodeCount") {
        Some(v) => match v.as_u64() {
            Some(n) => n,
            None => 0,
        },
        None => 0,
    };
    let video = match get_opt_str(attributes, "youtubeVideoId") {
        Some(s) => s,
        None => {
            proof {
                reveal_strlit("");
                assert(""@ =~= Seq::<char>::empty());
            }
            ""
        },
    };
    Ok(ViewAnime {
        url,
        title: title.to_string(),
        description: description.to_string(),
        banner_url: banner.to_string(),
        thumbnail_url: poster.to_string(),
        context,
        countdown,
        episode_count,
        trailer_url: str_concat("https://www.youtube.com/watch?v=", video),
    })
}

/// Reads an anime, or gives `None` where the next release date is not a date.
pub fn view_item_checked(res: &Json) -> (r: Option<Result<ViewAnime, ContentError>>)
    ensures
        r is None <==> bad_release_date(*res),
        r matches Some(x) ==> result_view(x) == view_item_spec(*res),
{
    let fields_ok = match res.get("data") {
        Some(item) => match item {
            Json::Object(_) => match item.get("attributes") {
                Some(attributes) => match attributes {
                    Json::Object(_) => {
                        let t = get_str(attributes, "canonicalTitle", "", "");
                        let d = get_str(attributes, "description", "", "");
                        if t.is_ok() && d.is_ok() {
                            match get_opt_str(attributes, "nextRelease") {
                                Some(date) => date_midnight_millis(date, "%Y-%m-%d").is_err(),
                                None => false,
                            }
                        } else {
                            false
                        }
                    },
                    _ => false,
                },
                None => false,
            },
            _ => false,
        },
        None => false,
    };
    if fields_ok {
        None
    } else {
        Some(view_item(res))
    }
}

/// The details of an anime with its rating and external ids written: the secondary title
/// is the title, the pictures are the banner and the poster, and the one season has the
/// episode count.
pub open spec fn finish_spec(a: ViewAnimeView, rating: Option<Seq<char>>, ids: ExternalIDView) -> ViewContentInfoView {
    ViewContentInfoView {
        external_id: ids,
        url: a.url,
        title: a.title,
        title_secondary: a.title,
        thumbnail_url: a.thumbnail_url,
        banner_url: a.banner_url,
        contextual: context_list_spec(a.context, rating),
        description: a.description,
        trailer_url: a.trailer_url,
        countdown: a.countdown,
        pictures: seq![a.banner_url, a.thumbnail_url],
        episodes: seq![a.episode_count],
    }
}

pub fn finish(a: ViewAnime, rating: Option<String>, ids: ExternalID) -> (r: ViewContentInfo)
    ensures
        r@ == finish_spec(a@, opt_string_view(rating), ids@),
{
    let pictures = two_strings(a.banner_url.clone(), a.thumbnail_url.clone());
    ViewContentInfo {
        external_id: ids,
        url: a.url,
        title: a.title.clone(),
        title_secondary: a.title,
        thumbnail_url: a.thumbnail_url,
        banner_url: a.banner_url,
        contextual: context_list(a.context, rating),
        description: a.description,
        trailer_url: a.trailer_url,
        countdown: a.countdown,
        pictures,
        episodes: one_number(a.episode_count),
    }
}

// ---------------------------------------------------------------------------
// External ids, read from the anime's mappings one at a time.

/// The request for the mappings of the anime `id`.
pub open spec fn mappings_request_spec(id: Seq<char>) -> HttpRequestView {
    HttpRequestView {
        method: HttpMethod::Get,
        url: "https://kitsu.io/api/edge/anime/"@ + id + "/mappings"@,
        query: seq![],
        headers: seq![],
        form: seq![],
        random_user_agent: false,
    }
}

pub fn mappings_request(id: &str) -> (r: HttpRequest)
    ensures
        r@ == mappings_request_spec(id@),
{
    let url = str_concat("https://kitsu.io/api/edge/anime/", id);
    let url = str_concat(url.as_str(), "/mappings");
    let r = get_request(url, Vec::new(), Vec::new());
    proof {
        crate::http::lemma_no_pairs();
    }
    r
}

/// The mappings of a response: `data`, which must be an array.
pub open spec fn mapping_items_spec(res: Json) -> Result<Seq<Json>, ContentErrorView> {
    array_field(res, "data"@, "data not exist"@, "data not an array"@)
}

pub fn mapping_items(res: &Json) -> (r: Result<&Vec<Json>, ContentError>)
    ensures
        match r {
            Ok(a) => mapping_items_spec(*res) == Ok::<Seq<Json>, ContentErrorView>(a@),
            Err(e) => mapping_items_spec(*res) == Err::<Seq<Json>, ContentErrorView>(e@),
        },
{
    get_array(res, "data", "data not exist", "data not an array")
}

/// What one mapping tells: a TheTVDB or MyAnimeList id (`externalId`, or empty when it is
/// not a string) replaces the one known; other sites change nothing.
pub open spec fn apply_mapping_spec(ids: ExternalIDView, item: Json) -> Result<ExternalIDView, ContentErrorView> {
    match object_field(item, "attributes"@, "attributes not exist"@, "attributes not an object"@) {
        Err(e) => Err(e),
        Ok(attributes) => match str_field(attributes, "externalSite"@, "externalSite not exist"@, "externalSite not a str"@) {
            Err(e) => Err(e),
            Ok(site) => {
                let external = match opt_str(attributes, "externalId"@) {
                    Some(s) => s,
                    None => seq![],
                };
                if site == "thetvdb"@ {
                    Ok(ExternalIDView { thetvdb: Some(external), ..ids })
                } else if site == "myanimelist/anime"@ {
                    Ok(ExternalIDView { mal: Some(external), ..ids })
                } else {
                    Ok(ids)
                }
            },
        },
    }
}

pub fn apply_mapping(ids: ExternalID, item: &Json) -> (r: Result<ExternalID, ContentError>)
    ensures
        result_view(r) == apply_mapping_spec(ids@, *item),
{
    let attributes = get_object(item, "attributes", "attributes not exist", "attributes not an object")?;
    let site = get_str(attributes, "externalSite", "externalSite not exist", "externalSite not a str")?;
    let external = match get_opt_str(attributes, "externalId") {
        Some(s) => s.to_string(),
        None => String::new(),
    };
    if crate::text::str_eq(site, "thetvdb") {
        Ok(ExternalID { thetvdb: Some(external), ..ids })
    } else if crate::text::str_eq(site, "myanimelist/anime") {
        Ok(ExternalID { mal: Some(external), ..ids })
    } else {
        Ok(ids)
    }
}

/// The lookup of the movie database id by a TheTVDB id.
pub open spec fn find_request_spec(tvdb: Seq<char>, token: Seq<char>) -> HttpRequestView {
    HttpRequestView {
        method: HttpMethod::Get,
        url: "https://api.themoviedb.org/3/find/"@ + tvdb + "?external_source=tvdb_id"@,
        query: seq![],
        headers: seq![("Authorization"@, "Bearer "@ + token)],
        form: seq![],
        random_user_agent: false,
    }
}

/// The lookup to make after a mapping: one exactly when a TheTVDB id is known.
pub fn find_request(ids: &ExternalID, token: &str) -> (r: Option<HttpRequest>)
    ensures
        match ids@.thetvdb {
            Some(t) => r matches Some(req) && req@ == find_request_spec(t, token@),
            None => r is None,
        },
{
    match &ids.thetvdb {
        Some(t) => {
            let url = str_concat("https://api.themoviedb.org/3/find/", t.as_str());
            let url = str_concat(url.as_str(), "?external_source=tvdb_id");
            let headers = crate::http::pairs1((String::from_str("Authorization"), str_concat("Bearer ", token)));
            let r = get_request(url, Vec::new(), headers);
            proof {
                crate::http::lemma_no_pairs();
            }
            Some(r)
        },
        None => None,
    }
}

/// What a lookup tells: the `id` of the first of `tv_results` (0 when it is not a number)
/// becomes the movie database id; with no results nothing changes.
pub open spec fn apply_find_spec(ids: ExternalIDView, res: Json) -> Result<ExternalIDView, ContentErrorView> {
    match array_field(res, "tv_results"@, "tv_results not exist"@, "tv_results not an array"@) {
        Err(e) => Err(e),
        Ok(results) => if results.len() > 0 {
            let id = match results[0].get_spec("id"@) {
                Some(v) => match v.u64_spec() {
                    Some(n) => n,
                    None => 0,
                },
                None => 0,
            };
            Ok(ExternalIDView { tmdb: Some(decimal(id as nat)), ..ids })
        } else {
            Ok(ids)
        },
    }
}

pub fn apply_find(ids: ExternalID, res: &Json) -> (r: Result<ExternalID, ContentError>)
    ensures
        result_view(r) == apply_find_spec(ids@, *res),
{
    let results = get_array(res, "tv_results", "tv_results not exist", "tv_results not an array")?;
    if results.len() > 0 {
        let id: u64 = match results[0].get("id") {
            Some(v) => match v.as_u64() {
                Some(n) => n,
                None => 0,
            },
            None => 0,
        };
        Ok(ExternalID { tmdb: Some(u64_to_string(id)), ..ids })
    } else {
        Ok(ids)
    }
}

/// An anime read from a response keeps the attributes' `canonicalTitle` and `description`
/// strings exactly as they are.
pub proof fn lemma_view_item_keeps_text(res: Json)
    requires
        view_item_spec(res) is Ok,
    ensures
        res.get_spec("data"@) is Some,
        res.get_spec("data"@)->Some_0.get_spec("attributes"@) is Some,
        res.get_spec("data"@)->Some_0.get_spec("attributes"@)->Some_0.get_spec("description"@) is Some,
        res.get_spec("data"@)->Some_0.get_spec("attributes"@)->Some_0.get_spec("description"@)->Some_0.str_spec()
            == Some(view_item_spec(res)->Ok_0.description),
        res.get_spec("data"@)->Some_0.get_spec("attributes"@)->Some_0.get_spec("canonicalTitle"@) is Some,
        res.get_spec("data"@)->Some_0.get_spec("attributes"@)->Some_0.get_spec("canonicalTitle"@)->Some_0.str_spec()
            == Some(view_item_spec(res)->Ok_0.title),
{
}

} // verus!
