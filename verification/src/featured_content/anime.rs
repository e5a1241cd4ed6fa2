use vstd::prelude::*;
use crate::error::{ContentError, ContentErrorView, collect, vec_result_view, result_view};
use crate::fields::{str_field, object_field, array_field, nested_str_or_empty, present_str_or_empty, get_str, get_object, get_array, get_nested_str_or_empty, get_present_str_or_empty, collect_items};
use crate::global_types::Source;
use crate::http::{HttpRequest, HttpRequestView, HttpMethod, pairs1, get_request};
use crate::json::Json;
use crate::outside::{unicode_uppercase, uppercase, opt_string_view};
use crate::text::{str_concat, signed_decimal, i64_to_string, strings_view};
use super::{FeaturedContentInfo, FeaturedContentInfoView};

verus! {

/// The request for the anime of the season year `year`.
pub open spec fn featured_request_spec(year: i32) -> HttpRequestView {
    HttpRequestView {
        method: HttpMethod::Get,
        url: "https://kitsu.io/api/edge/anime"@,
        query: seq![("filter[seasonYear]"@, signed_decimal(year as int))],
        headers: seq![],
        form: seq![],
        random_user_agent: false,
    }
}

pub fn featured_request(year: i32) -> (r: HttpRequest)
    ensures
        r@ == featured_request_spec(year),
{
    let query = pairs1((String::from_str("filter[seasonYear]"), i64_to_string(year as i64)));
    let r = get_request(String::from_str("https://kitsu.io/api/edge/anime"), query, Vec::new());
    proof {
        crate::http::lemma_no_pairs();
    }
    r
}

/// What the context list of an anime is made from: the `averageRating` text, and the
/// `ageRating` and `status` in upper case, each when the attribute is present.
#[derive(Debug)]
pub struct AnimeContext {
    pub average_rating: Option<String>,
    pub age_rating: Option<String>,
    pub status: Option<String>,
}

/// What an `AnimeContext` holds.
pub ghost struct AnimeContextView {
    pub average_rating: Option<Seq<char>>,
    pub age_rating: Option<Seq<char>>,
    pub status: Option<Seq<char>>,
}

impl View for AnimeContext {
    type V = AnimeContextView;

    open spec fn view(&self) -> AnimeContextView {
        AnimeContextView {
            average_rating: opt_string_view(self.average_rating),
            age_rating: opt_string_view(self.age_rating),
            status: opt_string_view(self.status),
        }
    }
}

/// Upper case of a present value.
pub open spec fn upper_opt(o: Option<Seq<char>>) -> Option<Seq<char>> {
    match o {
        Some(s) => Some(unicode_uppercase(s)),
        None => None,
    }
}

/// The context an anime's attributes give.
pub open spec fn anime_context_spec(attributes: Json) -> AnimeContextView {
    AnimeContextView {
        average_rating: present_str_or_empty(attributes, "averageRating"@),
        age_rating: upper_opt(present_str_or_empty(attributes, "ageRating"@)),
        status: upper_opt(present_str_or_empty(attributes, "status"@)),
    }
}

fn upper_present(o: Option<&str>) -> (r: Option<String>)
    ensures
        opt_string_view(r) == upper_opt(match o { Some(s) => Some(s@), None => None }),
{
    match o {
        Some(s) => Some(uppercase(s)),
        None => None,
    }
}

pub fn anime_context(attributes: &Json) -> (r: AnimeContext)
    ensures
        r@ == anime_context_spec(*attributes),
{
    let rating = get_present_str_or_empty(attributes, "averageRating");
    let age = get_present_str_or_empty(attributes, "ageRating");
    let status = get_present_str_or_empty(attributes, "status");
    AnimeContext {
        average_rating: match rating {
            Some(s) => Some(s.to_string()),
            None => None,
        },
        age_rating: upper_present(age),
        status: upper_present(status),
    }
}

/// A one-element list for a present value, else the empty list.
pub open spec fn opt_list(o: Option<Seq<char>>) -> Seq<Seq<char>> {
    match o {
        Some(s) => seq![s],
        None => seq![],
    }
}

/// The context list of an anime: `Anime`, then `Rating: ` and the rating when there is one,
/// then the age rating and the status when present.
pub open spec fn context_list_spec(c: AnimeContextView, rating: Option<Seq<char>>) -> Seq<Seq<char>> {
    seq!["Anime"@] + opt_list(match rating {
        Some(r) => Some("Rating: "@ + r),
        None => None,
    }) + opt_list(c.age_rating) + opt_list(c.status)
}

fn push_opt(v: &mut Vec<String>, o: Option<String>)
    ensures
        strings_view(final(v)@) == strings_view(old(v)@) + opt_list(opt_string_view(o)),
{
    let ghost before = strings_view(v@);
    match o {
        Some(s) => {
            v.push(s);
            proof {
                assert(strings_view(v@) =~= before + opt_list(opt_string_view(o)));
            }
        },
        None => {
            proof {
                assert(strings_view(v@) =~= before + opt_list(opt_string_view(o)));
            }
        },
    }
}

/// Builds the context list from the context and the rating written by the caller.
pub fn context_list(c: AnimeContext, rating: Option<String>) -> (r: Vec<String>)
    ensures
        strings_view(r@) == context_list_spec(c@, opt_string_view(rating)),
{
    let mut v: Vec<String> = Vec::new();
    v.push(String::from_str("Anime"));
    proof {
        assert(strings_view(v@) =~= seq!["Anime"@]);
    }
    let line = match rating {
        Some(r) => Some(str_concat("Rating: ", r.as_str())),
        None => None,
    };
    push_opt(&mut v, line);
    push_opt(&mut v, c.age_rating);
    push_opt(&mut v, c.status);
    v
}

/// A current anime read from the response, before its rating is written.
#[derive(Debug)]
pub struct FeaturedAnime {
    pub source: Source,
    pub id: String,
    pub title: String,
    pub short_description: String,
    pub banner_url: String,
    pub context: AnimeContext,
}

/// What a `FeaturedAnime` holds.
pub ghost struct FeaturedAnimeView {
    pub source: Source,
    pub id: Seq<char>,
    pub title: Seq<char>,
    pub short_description: Seq<char>,
    pub banner_url: Seq<char>,
    pub context: AnimeContextView,
}

impl View for FeaturedAnime {
    type V = FeaturedAnimeView;

    open spec fn view(&self) -> FeaturedAnimeView {
        FeaturedAnimeView {
            source: self.source,
            id: self.id@,
            title: self.title@,
            short_description: self.short_description@,
            banner_url: self.banner_url@,
            context: self.context@,
        }
    }
}

/// One anime of the response.
pub open spec fn featured_item_spec(item: Json, source: Source) -> Result<FeaturedAnimeView, ContentErrorView> {
    match str_field(item, "id"@, "id not exist"@, "id not a str"@) {
        Err(e) => Err(e),
        Ok(id) => match object_field(item, "attributes"@, "attributes not exist"@, "attributes not an object"@) {
            Err(e) => Err(e),
            Ok(attributes) => match str_field(attributes, "canonicalTitle"@, "canonicalTitle not exist"@, "canonicalTitle not a string"@) {
                Err(e) => Err(e),
                Ok(title) => match str_field(attributes, "synopsis"@, "synopsis not exist"@, "synopsis not a string"@) {
                    Err(e) => Err(e),
                    Ok(synopsis) => Ok(FeaturedAnimeView {
                        source: source,
                        id: id,
                        title: title,
                        short_description: synopsis,
                        banner_url: nested_str_or_empty(attributes, "coverImage"@, "original"@),
                        context: anime_context_spec(attributes),
                    }),
                },
            },
        },
    }
}

/// The anime of a response, in order.
pub open spec fn featured_items_spec(res: Json, source: Source) -> Result<Seq<FeaturedAnimeView>, ContentErrorView> {
    match array_field(res, "data"@, "data not exist"@, "data not an array"@) {
        Err(e) => Err(e),
        Ok(items) => collect(items, |j: Json| featured_item_spec(j, source)),
    }
}

/// An anime with its rating written as `rating`, if it has one.
pub open spec fn finish_spec(a: FeaturedAnimeView, rating: Option<Seq<char>>) -> FeaturedContentInfoView {
    FeaturedContentInfoView {
        source: a.source,
        id: a.id,
        title: a.title,
        contextual: context_list_spec(a.context, rating),
        short_description: a.short_description,
        banner_url: a.banner_url,
    }
}

pub fn featured_item(item: &Json, source: Source) -> (r: Result<FeaturedAnime, ContentError>)
    ensures
        result_view(r) == featured_item_spec(*item, source),
{
    let id = get_str(item, "id", "id not exist", "id not a str")?;
    let attributes = get_object(item, "attributes", "attributes not exist", "attributes not an object")?;
    let title = get_str(attributes, "canonicalTitle", "canonicalTitle not exist", "canonicalTitle not a string")?;
    let synopsis = get_str(attributes, "synopsis", "synopsis not exist", "synopsis not a string")?;
    let banner = get_nested_str_or_empty(attributes, "coverImage", "original");
    Ok(FeaturedAnime {
        source,
        id: id.to_string(),
        title: title.to_string(),
        short_description: synopsis.to_string(),
        banner_url: banner.to_string(),
        context: anime_context(attributes),
    })
}

/// Reads the anime of a response.
pub fn featured_items(res: &Json, source: Source) -> (r: Result<Vec<FeaturedAnime>, ContentError>)
    ensures
        vec_result_view(r) == featured_items_spec(*res, source),
{
    let items = get_array(res, "data", "data not exist", "data not an array")?;
    collect_items(
        items,
        (|j: &Json| -> (out: Result<FeaturedAnime, ContentError>)
            ensures
                result_view(out) == featured_item_spec(*j, source),
            { featured_item(j, source) }),
        Ghost(|j: Json| featured_item_spec(j, source)),
    )
}

/// Writes the rating of an anime (from its `averageRating`) into its context list.
pub fn finish(a: FeaturedAnime, rating: Option<String>) -> (r: FeaturedContentInfo)
    ensures
        r@ == finish_spec(a@, opt_string_view(rating)),
{
    FeaturedContentInfo {
        source: a.source,
        id: a.id,
        title: a.title,
        contextual: context_list(a.context, rating),
        short_description: a.short_description,
        banner_url: a.banner_url,
    }
}

} // verus!
