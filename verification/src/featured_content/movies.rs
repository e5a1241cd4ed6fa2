use vstd::prelude::*;
use crate::error::{ContentError, ContentErrorView, collect, vec_result_view, result_view};
use crate::fields::{u64_field, str_field, str_or_empty_field, number_field, array_field, get_u64, get_str, get_str_or_empty, get_number, get_array, collect_items};
use crate::global_types::Source;
use crate::http::{HttpRequest, HttpRequestView, HttpMethod, pair, pairs2, get_request, tmdb_header_list, tmdb_headers};
use crate::json::Json;
use crate::outside::{unicode_uppercase, uppercase};
use crate::search_content::movie::tmdb_image_base;
use crate::text::{str_concat, decimal, u64_to_string, strings_view};
use super::{FeaturedContentInfo, FeaturedContentInfoView};

verus! {

/// The request for the first page of popular movies.
pub open spec fn featured_request_spec(token: Seq<char>) -> HttpRequestView {
    HttpRequestView {
        method: HttpMethod::Get,
        url: "https://api.themoviedb.org/3/movie/popular"@,
        query: seq![("language"@, "en-US"@), ("page"@, "1"@)],
        headers: tmdb_headers(token),
        form: seq![],
        random_user_agent: false,
    }
}

pub fn featured_request(token: &str) -> (r: HttpRequest)
    ensures
        r@ == featured_request_spec(token@),
{
    let query = pairs2(pair("language", "en-US"), pair("page", "1"));
    get_request(String::from_str("https://api.themoviedb.org/3/movie/popular"), query, tmdb_header_list(token))
}

/// A popular movie read from the response, before its rating is written: `vote_average`
/// holds the text of the rating number.
#[derive(Debug)]
pub struct FeaturedMovie {
    pub source: Source,
    pub id: String,
    pub title: String,
    pub short_description: String,
    pub banner_url: String,
    pub vote_average: String,
    pub language: String,
}

/// What a `FeaturedMovie` holds.
pub ghost struct FeaturedMovieView {
    pub source: Source,
    pub id: Seq<char>,
    pub title: Seq<char>,
    pub short_description: Seq<char>,
    pub banner_url: Seq<char>,
    pub vote_average: Seq<char>,
    pub language: Seq<char>,
}

impl View for FeaturedMovie {
    type V = FeaturedMovieView;

    open spec fn view(&self) -> FeaturedMovieView {
        FeaturedMovieView {
            source: self.source,
            id: self.id@,
            title: self.title@,
            short_description: self.short_description@,
            banner_url: self.banner_url@,
            vote_average: self.vote_average@,
            language: self.language@,
        }
    }
}

/// One movie of the popular list.
pub open spec fn featured_item_spec(item: Json, source: Source) -> Result<FeaturedMovieView, ContentErrorView> {
    match u64_field(item, "id"@, "id not exist"@, "id not a number"@) {
        Err(e) => Err(e),
        Ok(id) => match str_field(item, "original_title"@, "title not exist"@, "title not a string"@) {
            Err(e) => Err(e),
            Ok(title) => match str_field(item, "overview"@, "overview not exist"@, "overview not a string"@) {
                Err(e) => Err(e),
                Ok(overview) => match str_or_empty_field(item, "backdrop_path"@, "backdrop_path not exist"@) {
                    Err(e) => Err(e),
                    Ok(backdrop) => match number_field(item, "vote_average"@, "vote_average not exist"@, "vote_average not a number"@) {
                        Err(e) => Err(e),
                        Ok(vote) => match str_field(item, "original_language"@, "original_language not exist"@, "original_language not a string"@) {
                            Err(e) => Err(e),
                            Ok(language) => Ok(FeaturedMovieView {
                                source: source,
                                id: decimal(id as nat),
                                title: title,
                                short_description: overview,
                                banner_url: tmdb_image_base() + backdrop,
                                vote_average: vote.text@,
                                language: unicode_uppercase(language),
                            }),
                        },
                    },
                },
            },
        },
    }
}

/// The popular movies of a response, in order.
pub open spec fn featured_items_spec(res: Json, source: Source) -> Result<Seq<FeaturedMovieView>, ContentErrorView> {
    match array_field(res, "results"@, "results not exist"@, "results not an array"@) {
        Err(e) => Err(e),
        Ok(items) => collect(items, |j: Json| featured_item_spec(j, source)),
    }
}

/// A movie with its rating written as `rating`.
pub open spec fn finish_spec(m: FeaturedMovieView, rating: Seq<char>) -> FeaturedContentInfoView {
    FeaturedContentInfoView {
        source: m.source,
        id: m.id,
        title: m.title,
        contextual: seq!["Movie"@, "Rating: "@ + rating, m.language],
        short_description: m.short_description,
        banner_url: m.banner_url,
    }
}

pub fn featured_item(item: &Json, source: Source) -> (r: Result<FeaturedMovie, ContentError>)
    ensures
        result_view(r) == featured_item_spec(*item, source),
{
    let id = get_u64(item, "id", "id not exist", "id not a number")?;
    let title = get_str(item, "original_title", "title not exist", "title not a string")?;
    let overview = get_str(item, "overview", "overview not exist", "overview not a string")?;
    let backdrop = get_str_or_empty(item, "backdrop_path", "backdrop_path not exist")?;
    let vote = get_number(item, "vote_average", "vote_average not exist", "vote_average not a number")?;
    let language = get_str(item, "original_language", "original_language not exist", "original_language not a string")?;
    Ok(FeaturedMovie {
        source,
        id: u64_to_string(id),
        title: title.to_string(),
        short_description: overview.to_string(),
        banner_url: str_concat("https://image.tmdb.org/t/p/original", backdrop),
        vote_average: vote.text.clone(),
        language: uppercase(language),
    })
}

/// Reads the popular movies of a response.
pub fn featured_items(res: &Json, source: Source) -> (r: Result<Vec<FeaturedMovie>, ContentError>)
    ensures
        vec_result_view(r) == featured_items_spec(*res, source),
{
    let items = get_array(res, "results", "results not exist", "results not an array")?;
    collect_items(
        items,
        (|j: &Json| -> (out: Result<FeaturedMovie, ContentError>)
            ensures
                result_view(out) == featured_item_spec(*j, source),
            { featured_item(j, source) }),
        Ghost(|j: Json| featured_item_spec(j, source)),
    )
}

/// Writes the rating of a movie (the rounded `vote_average`) into its context list.
pub fn finish(m: FeaturedMovie, rating: &str) -> (r: FeaturedContentInfo)
    ensures
        r@ == finish_spec(m@, rating@),
{
    let mut contextual: Vec<String> = Vec::new();
    contextual.push(String::from_str("Movie"));
    contextual.push(str_concat("Rating: ", rating));
    contextual.push(m.language);
    proof {
        assert(strings_view(contextual@) =~= seq!["Movie"@, "Rating: "@ + rating@, m@.language]);
    }
    FeaturedContentInfo {
        source: m.source,
        id: m.id,
        title: m.title,
        contextual,
        short_description: m.short_description,
        banner_url: m.banner_url,
    }
}

} // verus!
