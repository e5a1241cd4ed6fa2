use vstd::prelude::*;
use crate::error::{ContentError, ContentErrorView, collect, vec_result_view, result_view, msg, message};
use crate::fields::{field, str_field, object_field, member_values, get_field, get_str, get_object, collect_member_values};
use crate::global_types::Source;
use crate::http::{HttpRequest, HttpRequestView, HttpMethod, pair, pairs2, pairs4};
use crate::json::Json;
use crate::outside::{url_encoded, url_encode};
use crate::text::{str_concat, decimal, u64_to_string, replace_spec, replace_all};
use super::{SearchContentInfo, SearchContentInfoView};

verus! {

/// How many shows one page of search results holds.
pub open spec fn page_size() -> nat {
    50
}

/// The headers every request to the show catalogue carries besides a browser user agent.
pub open spec fn catalogue_headers() -> Seq<(Seq<char>, Seq<char>)> {
    seq![("origin"@, "https://simkl.com"@), ("referer"@, "https://simkl.com/"@)]
}

pub fn catalogue_header_list() -> (r: Vec<(String, String)>)
    ensures
        crate::http::pairs_view(r@) == catalogue_headers(),
{
    pairs2(pair("origin", "https://simkl.com"), pair("referer", "https://simkl.com/"))
}

/// The request for page `page` (counted from 1) of titles of kind `source` matching
/// `search`, ordered by `sort`.
pub open spec fn search_request_spec(source: Source, search: Seq<char>, sort: u64, page: u64) -> HttpRequestView {
    HttpRequestView {
        method: HttpMethod::Post,
        url: "https://simkl.com/ajax/full/search.php"@,
        query: seq![],
        headers: catalogue_headers(),
        form: seq![
            ("s"@, search),
            ("type"@, source.name()),
            ("sort"@, decimal(sort as nat)),
            ("offset"@, decimal(((page - 1) * page_size()) as nat)),
        ],
        random_user_agent: true,
    }
}

pub fn search_request(source: &Source, search: &str, sort: u64, page: u64) -> (r: HttpRequest)
    requires
        page >= 1,
        (page - 1) * 50 <= u64::MAX,
    ensures
        r@ == search_request_spec(*source, search@, sort, page),
{
    let offset: u64 = (page - 1) * 50;
    let form = pairs4(
        (String::from_str("s"), search.to_string()),
        (String::from_str("type"), source.to_string()),
        (String::from_str("sort"), u64_to_string(sort)),
        (String::from_str("offset"), u64_to_string(offset)),
    );
    let r = HttpRequest {
        method: HttpMethod::Post,
        url: String::from_str("https://simkl.com/ajax/full/search.php"),
        query: Vec::new(),
        headers: catalogue_header_list(),
        form,
        random_user_agent: true,
    };
    proof {
        crate::http::lemma_no_pairs();
    }
    r
}

/// Where a poster id is served as an image.
pub open spec fn poster_url_spec(poster: Seq<char>) -> Seq<char> {
    "https://wsrv.nl/?url=https://simkl.in/posters/"@ + poster + "_m.webp"@
}

/// The id of a show: its path with `/tv` taken out, percent-encoded.
pub open spec fn show_id_spec(url: Seq<char>) -> Seq<char> {
    url_encoded(replace_spec(url, "/tv"@, seq![]))
}

/// The title: `a0` when there is one, else `m`.
pub open spec fn title_spec(titles: Json) -> Result<Seq<char>, ContentErrorView> {
    match titles.get_spec("a0"@) {
        Some(t) => match t.str_spec() {
            Some(s) => Ok(s),
            None => Err(msg("Unable to load title as string"@)),
        },
        None => str_field(titles, "m"@, "title 'm' not found"@, "Unable to load title as string"@),
    }
}

/// One show of the search results.
pub open spec fn search_item_spec(value: Json) -> Result<SearchContentInfoView, ContentErrorView> {
    match str_field(value, "url"@, "Unable to load id"@, "Unable to load id as string"@) {
        Err(e) => Err(e),
        Ok(url) => match str_field(value, "year"@, "Unable to load year"@, "Unable to load year as string"@) {
            Err(e) => Err(e),
            Ok(year) => match field(value, "rank"@, "Unable to load rank"@) {
                Err(e) => Err(e),
                Ok(_) => match str_field(value, "poster"@, "Unable to load thumbnail"@, "Unable to load thumbnail as string"@) {
                    Err(e) => Err(e),
                    Ok(poster) => match object_field(value, "titles"@, "Unable to load title"@, "Unable to load title as object"@) {
                        Err(e) => Err(e),
                        Ok(titles) => match title_spec(titles) {
                            Err(e) => Err(e),
                            Ok(title) => Ok(SearchContentInfoView {
                                id: show_id_spec(url),
                                title: title,
                                year: year,
                                thumbnail_url: poster_url_spec(poster),
                            }),
                        },
                    },
                },
            },
        },
    }
}

/// The shows of a search response: the values of its top-level object, in order.
pub open spec fn search_results_spec(res: Json) -> Result<Seq<SearchContentInfoView>, ContentErrorView> {
    match res.object_spec() {
        None => Err(msg("Unable to load as object"@)),
        Some(members) => collect(member_values(members), |j: Json| search_item_spec(j)),
    }
}

fn title(titles: &Json) -> (r: Result<String, ContentError>)
    ensures
        result_view(r) == title_spec(*titles),
{
    match titles.get("a0") {
        Some(t) => match t.as_str() {
            Some(s) => Ok(s.to_string()),
            None => Err(message("Unable to load title as string")),
        },
        None => {
            let s = get_str(titles, "m", "title 'm' not found", "Unable to load title as string")?;
            Ok(s.to_string())
        },
    }
}

pub fn search_item(value: &Json) -> (r: Result<SearchContentInfo, ContentError>)
    ensures
        result_view(r) == search_item_spec(*value),
{
    let raw_url = get_str(value, "url", "Unable to load id", "Unable to load id as string")?;
    proof {
        reveal_strlit("/tv");
    }
    proof {
        reveal_strlit("");
        assert(""@ =~= Seq::<char>::empty());
    }
    let path = replace_all(raw_url, "/tv", "");
    let id = url_encode(path.as_str());
    let year = get_str(value, "year", "Unable to load year", "Unable to load year as string")?;
    let _rank = get_field(value, "rank", "Unable to load rank")?;
    let poster = get_str(value, "poster", "Unable to load thumbnail", "Unable to load thumbnail as string")?;
    let prefixed = str_concat("https://wsrv.nl/?url=https://simkl.in/posters/", poster);
    let thumbnail_url = str_concat(prefixed.as_str(), "_m.webp");
    let titles = get_object(value, "titles", "Unable to load title", "Unable to load title as object")?;
    let title = title(titles)?;
    Ok(SearchContentInfo { id, year: year.to_string(), thumbnail_url, title })
}

/// Reads the shows of a search response.
pub fn search_results(res: &Json) -> (r: Result<Vec<SearchContentInfo>, ContentError>)
    ensures
        vec_result_view(r) == search_results_spec(*res),
{
    let members = match res.as_object() {
        Some(m) => m,
        None => return Err(message("Unable to load as object")),
    };
    collect_member_values(members, search_item, Ghost(|j: Json| search_item_spec(j)))
}

} // verus!
