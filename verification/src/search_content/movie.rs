use vstd::prelude::*;
use crate::error::{ContentError, ContentErrorView, collect, vec_result_view, result_view};
use crate::fields::{u64_field, str_field, str_or_empty_field, array_field, get_u64, get_str, get_str_or_empty, get_array, collect_items};
use crate::http::{HttpRequest, HttpRequestView, HttpMethod, pair, pairs4, get_request, tmdb_header_list, tmdb_headers};
use crate::json::Json;
use crate::outside::{chrono_date_year, date_year};
use crate::text::{str_concat, decimal, signed_decimal, u64_to_string, i64_to_string};
use super::{SearchContentInfo, SearchContentInfoView, SearchContentParams};

verus! {

/// Where the movie database serves full-size images; a poster path follows it.
pub open spec fn tmdb_image_base() -> Seq<char> {
    "https://image.tmdb.org/t/p/original"@
}

/// The date format of release dates.
pub open spec fn ymd_format() -> Seq<char> {
    "%Y-%m-%d"@
}

/// The request for one page of movies matching `search`.
pub open spec fn search_request_spec(token: Seq<char>, search: Seq<char>, page: u64) -> HttpRequestView {
    HttpRequestView {
        method: HttpMethod::Get,
        url: "https://api.themoviedb.org/3/search/movie"@,
        query: seq![
            ("query"@, search),
            ("include_adult"@, "true"@),
            ("language"@, "en-US"@),
            ("page"@, decimal(page as nat)),
        ],
        headers: tmdb_headers(token),
        form: seq![],
        random_user_agent: false,
    }
}

pub fn search_request(params: &SearchContentParams) -> (r: HttpRequest)
    ensures
        r@ == search_request_spec(params.tmdb_token@, params.search@, params.page),
{
    let page = u64_to_string(params.page);
    let query = pairs4(
        (String::from_str("query"), params.search.clone()),
        pair("include_adult", "true"),
        pair("language", "en-US"),
        (String::from_str("page"), page),
    );
    get_request(String::from_str("https://api.themoviedb.org/3/search/movie"), query, tmdb_header_list(params.tmdb_token.as_str()))
}

/// One movie of the search results.
pub open spec fn search_item_spec(item: Json) -> Result<SearchContentInfoView, ContentErrorView> {
    match u64_field(item, "id"@, "id not exist"@, "id not a number"@) {
        Err(e) => Err(e),
        Ok(id) => match str_field(item, "original_title"@, "title not exist"@, "title not a string"@) {
            Err(e) => Err(e),
            Ok(title) => match str_or_empty_field(item, "poster_path"@, "bposter_path not exist"@) {
                Err(e) => Err(e),
                Ok(poster_path) => match str_field(item, "release_date"@, "release_date not exist"@, "release_date not a string"@) {
                    Err(e) => Err(e),
                    Ok(release_date) => match chrono_date_year(release_date, ymd_format()) {
                        None => Err(ContentErrorView::Date),
                        Some(year) => Ok(SearchContentInfoView {
                            id: decimal(id as nat),
                            title: title,
                            year: signed_decimal(year as int),
                            thumbnail_url: tmdb_image_base() + poster_path,
                        }),
                    },
                },
            },
        },
    }
}

/// The movies of a search response, in order.
pub open spec fn search_results_spec(res: Json) -> Result<Seq<SearchContentInfoView>, ContentErrorView> {
    match array_field(res, "results"@, "results not exist"@, "results not an array"@) {
        Err(e) => Err(e),
        Ok(items) => collect(items, |j: Json| search_item_spec(j)),
    }
}

pub fn search_item(item: &Json) -> (r: Result<SearchContentInfo, ContentError>)
    ensures
        result_view(r) == search_item_spec(*item),
{
    let id = get_u64(item, "id", "id not exist", "id not a number")?;
    let title = get_str(item, "original_title", "title not exist", "title not a string")?;
    let poster_path = get_str_or_empty(item, "poster_path", "bposter_path not exist")?;
    let thumbnail_url = str_concat("https://image.tmdb.org/t/p/original", poster_path);
    let release_date = get_str(item, "release_date", "release_date not exist", "release_date not a string")?;
    let year = match date_year(release_date, "%Y-%m-%d") {
        Ok(y) => y,
        Err(e) => return Err(ContentError::Date(e)),
    };
    Ok(SearchContentInfo {
        id: u64_to_string(id),
        title: title.to_string(),
        year: i64_to_string(year as i64),
        thumbnail_url,
    })
}

/// Reads the movies of a search response.
pub fn search_results(res: &Json) -> (r: Result<Vec<SearchContentInfo>, ContentError>)
    ensures
        vec_result_view(r) == search_results_spec(*res),
{
    let items = get_array(res, "results", "results not exist", "results not an array")?;
    collect_items(
        items,
        search_item,
        Ghost(|j: Json| search_item_spec(j)),
    )
}

} // verus!
