use vstd::prelude::*;
use crate::error::{ContentError, ContentErrorView, collect, vec_result_view, result_view};
use crate::fields::{u64_field, str_field, str_or_empty_field, number_field, array_field, get_u64, get_str, get_str_or_empty, get_number, get_array, collect_items};
use crate::http::{HttpRequest, HttpRequestView, HttpMethod, pair, pairs1, get_request, tmdb_header_list, tmdb_headers};
use crate::json::Json;
use crate::outside::{chrono_date_year, date_year};
use crate::search_content::movie::{tmdb_image_base, ymd_format};
use crate::text::{str_concat, decimal, signed_decimal, u64_to_string, i64_to_string};
use super::{TrendingContentInfo, TrendingContentInfoView};

verus! {

/// The request for the movies trending this week.
pub open spec fn trending_request_spec(token: Seq<char>) -> HttpRequestView {
    HttpRequestView {
        method: HttpMethod::Get,
        url: "https://api.themoviedb.org/3/trending/movie/week"@,
        query: seq![("language"@, "en-US"@)],
        headers: tmdb_headers(token),
        form: seq![],
        random_user_agent: false,
    }
}

pub fn trending_request(token: &str) -> (r: HttpRequest)
    ensures
        r@ == trending_request_spec(token@),
{
    let query = pairs1(pair("language", "en-US"));
    get_request(String::from_str("https://api.themoviedb.org/3/trending/movie/week"), query, tmdb_header_list(token))
}

/// A trending movie read from the response, before its rating is written: `vote_average`
/// holds the text of the rating number.
#[derive(Debug)]
pub struct TrendingMovie {
    pub id: String,
    pub title: String,
    pub year: String,
    pub thumbnail_url: String,
    pub vote_average: String,
}

/// What a `TrendingMovie` holds.
pub ghost struct TrendingMovieView {
    pub id: Seq<char>,
    pub title: Seq<char>,
    pub year: Seq<char>,
    pub thumbnail_url: Seq<char>,
    pub vote_average: Seq<char>,
}

impl View for TrendingMovie {
    type V = TrendingMovieView;

    open spec fn view(&self) -> TrendingMovieView {
        TrendingMovieView {
            id: self.id@,
            title: self.title@,
            year: self.year@,
            thumbnail_url: self.thumbnail_url@,
            vote_average: self.vote_average@,
        }
    }
}

/// One trending movie.
pub open spec fn trending_item_spec(item: Json) -> Result<TrendingMovieView, ContentErrorView> {
    match u64_field(item, "id"@, "id not exist"@, "id not a number"@) {
        Err(e) => Err(e),
        Ok(id) => match str_field(item, "original_title"@, "title not exist"@, "title not a string"@) {
            Err(e) => Err(e),
            Ok(title) => match str_or_empty_field(item, "poster_path"@, "poster_path not exist"@) {
                Err(e) => Err(e),
                Ok(poster) => match str_field(item, "release_date"@, "release_date not exist"@, "release_date not a string"@) {
                    Err(e) => Err(e),
                    Ok(date) => match chrono_date_year(date, ymd_format()) {
                        None => Err(ContentErrorView::Date),
                        Some(year) => match number_field(item, "vote_average"@, "vote_average not exist"@, "vote_average not a number"@) {
                            Err(e) => Err(e),
                            Ok(vote) => Ok(TrendingMovieView {
                                id: decimal(id as nat),
                                title: title,
                                year: signed_decimal(year as int),
                                thumbnail_url: tmdb_image_base() + poster,
                                vote_average: vote.text@,
                            }),
                        },
                    },
                },
            },
        },
    }
}

/// The trending movies of a response, in order.
pub open spec fn trending_items_spec(res: Json) -> Result<Seq<TrendingMovieView>, ContentErrorView> {
    match array_field(res, "results"@, "results not exist"@, "results not an array"@) {
        Err(e) => Err(e),
        Ok(items) => collect(items, |j: Json| trending_item_spec(j)),
    }
}

pub fn trending_item(item: &Json) -> (r: Result<TrendingMovie, ContentError>)
    ensures
        result_view(r) == trending_item_spec(*item),
{
    let id = get_u64(item, "id", "id not exist", "id not a number")?;
    let title = get_str(item, "original_title", "title not exist", "title not a string")?;
    let poster = get_str_or_empty(item, "poster_path", "poster_path not exist")?;
    let date = get_str(item, "release_date", "release_date not exist", "release_date not a string")?;
    let year = match date_year(date, "%Y-%m-%d") {
        Ok(y) => y,
        Err(e) => return Err(ContentError::Date(e)),
    };
    let vote = get_number(item, "vote_average", "vote_average not exist", "vote_average not a number")?;
    Ok(TrendingMovie {
        id: u64_to_string(id),
        title: title.to_string(),
        year: i64_to_string(year as i64),
        thumbnail_url: str_concat("https://image.tmdb.org/t/p/original", poster),
        vote_average: vote.text.clone(),
    })
}

/// Reads the trending movies of a response.
pub fn trending_items(res: &Json) -> (r: Result<Vec<TrendingMovie>, ContentError>)
    ensures
        vec_result_view(r) == trending_items_spec(*res),
{
    let items = get_array(res, "results", "results not exist", "results not an array")?;
    collect_items(items, trending_item, Ghost(|j: Json| trending_item_spec(j)))
}

/// A movie with its rating (the `vote_average` as a number) written as `rating`.
pub open spec fn finish_spec(m: TrendingMovieView, rating: Seq<char>) -> TrendingContentInfoView {
    TrendingContentInfoView { id: m.id, title: m.title, year: m.year, rating: rating, thumbnail_url: m.thumbnail_url }
}

pub fn finish(m: TrendingMovie, rating: String) -> (r: TrendingContentInfo)
    ensures
        r@ == finish_spec(m@, rating@),
{
    TrendingContentInfo { id: m.id, title: m.title, year: m.year, rating, thumbnail_url: m.thumbnail_url }
}

} // verus!
