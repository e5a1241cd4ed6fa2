use vstd::prelude::*;
use crate::error::{ContentError, ContentErrorView, collect, vec_result_view, result_view};
use crate::fields::{str_field, object_field, array_field, nested_str_or_empty, get_str, get_object, get_array, get_nested_str_or_empty, collect_items};
use crate::http::{HttpRequest, HttpRequestView, HttpMethod, pair, pairs3, get_request};
use crate::json::Json;
use crate::outside::{chrono_date_year, date_year};
use crate::text::{str_concat, decimal, signed_decimal, u64_to_string, i64_to_string, str_eq};
use super::{SearchContentInfo, SearchContentInfoView, SearchContentParams};

verus! {

/// How many anime one page of search results holds.
pub open spec fn page_size() -> nat {
    20
}

/// The request for page `page` (counted from 1) of anime matching `search`.
pub open spec fn search_request_spec(search: Seq<char>, page: u64) -> HttpRequestView {
    HttpRequestView {
        method: HttpMethod::Get,
        url: "https://kitsu.io/api/edge/anime"@,
        query: seq![
            ("filter[text]"@, search),
            ("page[limit]"@, "20"@),
            ("page[offset]"@, decimal(((page - 1) * page_size()) as nat)),
        ],
        headers: seq![],
        form: seq![],
        random_user_agent: false,
    }
}

pub fn search_request(params: &SearchContentParams) -> (r: HttpRequest)
    requires
        params.page >= 1,
        (params.page - 1) * 20 <= u64::MAX,
    ensures
        r@ == search_request_spec(params.search@, params.page),
{
    let offset: u64 = (params.page - 1) * 20;
    let query = pairs3(
        (String::from_str("filter[text]"), params.search.clone()),
        pair("page[limit]", "20"),
        (String::from_str("page[offset]"), u64_to_string(offset)),
    );
    let r = get_request(String::from_str("https://kitsu.io/api/edge/anime"), query, Vec::new());
    proof {
        crate::http::lemma_no_pairs();
    }
    r
}

/// The years an anime ran: the start year alone when there is no end year or it is the
/// same, else `start - end`.
pub open spec fn year_range_spec(start: Seq<char>, end: Seq<char>) -> Seq<char> {
    if end.len() == 0 || start == end {
        start
    } else {
        start + " - "@ + end
    }
}

pub fn year_range(start: String, end: String) -> (r: String)
    ensures
        r@ == year_range_spec(start@, end@),
{
    if end.as_str().is_empty() {
        start
    } else if str_eq(start.as_str(), end.as_str()) {
        start
    } else {
        let s = str_concat(start.as_str(), " - ");
        str_concat(s.as_str(), end.as_str())
    }
}

/// The start year: that of `startDate` when it is a string, else `?`.
pub open spec fn start_year_spec(attributes: Json) -> Result<Seq<char>, ContentErrorView> {
    match attributes.get_spec("startDate"@) {
        Some(v) => match v.str_spec() {
            Some(d) => match chrono_date_year(d, "%Y-%m-%d"@) {
                Some(y) => Ok(signed_decimal(y as int)),
                None => Err(ContentErrorView::Date),
            },
            None => Ok("?"@),
        },
        None => Ok("?"@),
    }
}

/// The end year: that of `endDate` when it is a string, else empty.
pub open spec fn end_year_spec(attributes: Json) -> Result<Seq<char>, ContentErrorView> {
    match attributes.get_spec("endDate"@) {
        Some(v) => match v.str_spec() {
            Some(d) => match chrono_date_year(d, "%Y-%m-%d"@) {
                Some(y) => Ok(signed_decimal(y as int)),
                None => Err(ContentErrorView::Date),
            },
            None => Ok(seq![]),
        },
        None => Ok(seq![]),
    }
}

fn date_field_year(attributes: &Json, key: &str, absent: &str) -> (r: Result<String, ContentError>)
    ensures
        match attributes.get_spec(key@) {
            Some(v) => match v.str_spec() {
                Some(d) => match chrono_date_year(d, "%Y-%m-%d"@) {
                    Some(y) => r is Ok && r->Ok_0@ == signed_decimal(y as int),
                    None => r is Err && r->Err_0@ == ContentErrorView::Date,
                },
                None => r is Ok && r->Ok_0@ == absent@,
            },
            None => r is Ok && r->Ok_0@ == absent@,
        },
{
    match attributes.get(key) {
        Some(v) => match v.as_str() {
            Some(d) => match date_year(d, "%Y-%m-%d") {
                Ok(y) => Ok(i64_to_string(y as i64)),
                Err(e) => Err(ContentError::Date(e)),
            },
            None => Ok(absent.to_string()),
        },
        None => Ok(absent.to_string()),
    }
}

/// One anime of the search results.
pub open spec fn search_item_spec(item: Json) -> Result<SearchContentInfoView, ContentErrorView> {
    match str_field(item, "id"@, "id not exist"@, "id not a str"@) {
        Err(e) => Err(e),
        Ok(id) => match object_field(item, "attributes"@, "attributes not exist"@, "attributes not an object"@) {
            Err(e) => Err(e),
            Ok(attributes) => match str_field(attributes, "canonicalTitle"@, "canonicalTitle not exist"@, "canonicalTitle not a string"@) {
                Err(e) => Err(e),
                Ok(title) => match start_year_spec(attributes) {
                    Err(e) => Err(e),
                    Ok(start) => match end_year_spec(attributes) {
                        Err(e) => Err(e),
                        Ok(end) => Ok(SearchContentInfoView {
                            id: id,
                            title: title,
                            year: year_range_spec(start, end),
                            thumbnail_url: nested_str_or_empty(attributes, "posterImage"@, "original"@),
                        }),
                    },
                },
            },
        },
    }
}

/// The anime of a search response, in order.
pub open spec fn search_results_spec(res: Json) -> Result<Seq<SearchContentInfoView>, ContentErrorView> {
    match array_field(res, "data"@, "data not exist"@, "data not an array"@) {
        Err(e) => Err(e),
        Ok(items) => collect(items, |j: Json| search_item_spec(j)),
    }
}

pub fn search_item(item: &Json) -> (r: Result<SearchContentInfo, ContentError>)
    ensures
        result_view(r) == search_item_spec(*item),
{
    let id = get_str(item, "id", "id not exist", "id not a str")?;
    let attributes = get_object(item, "attributes", "attributes not exist", "attributes not an object")?;
    let title = get_str(attributes, "canonicalTitle", "canonicalTitle not exist", "canonicalTitle not a string")?;
    let poster_url = get_nested_str_or_empty(attributes, "posterImage", "original");
    let start_year = date_field_year(attributes, "startDate", "?")?;
    let end_year = date_field_year(attributes, "endDate", "")?;
    proof {
        reveal_strlit("");
        assert(""@ =~= Seq::<char>::empty());
    }
    Ok(SearchContentInfo {
        id: id.to_string(),
        title: title.to_string(),
        thumbnail_url: poster_url.to_string(),
        year: year_range(start_year, end_year),
    })
}

/// Reads the anime of a search response.
pub fn search_results(res: &Json) -> (r: Result<Vec<SearchContentInfo>, ContentError>)
    ensures
        vec_result_view(r) == search_results_spec(*res),
{
    let items = get_array(res, "data", "data not exist", "data not an array")?;
    collect_items(items, search_item, Ghost(|j: Json| search_item_spec(j)))
}

/// A hit of an anime search carries its entry's `id` and `canonicalTitle` strings unchanged.
pub proof fn lemma_search_item_keeps_text(item: Json)
    requires
        search_item_spec(item) is Ok,
    ensures
        item.get_spec("id"@) is Some,
        item.get_spec("id"@)->Some_0.str_spec() == Some(search_item_spec(item)->Ok_0.id),
        item.get_spec("attributes"@) is Some,
        item.get_spec("attributes"@)->Some_0.get_spec("canonicalTitle"@) is Some,
        item.get_spec("attributes"@)->Some_0.get_spec("canonicalTitle"@)->Some_0.str_spec()
            == Some(search_item_spec(item)->Ok_0.title),
{
}

/// The hits of an anime search are the entries of `data`, one for one and in order, each
/// with its entry's `id` and `canonicalTitle` unchanged.
pub proof fn lemma_search_results_keep_titles(res: Json)
    requires
        search_results_spec(res) is Ok,
    ensures
        res.get_spec("data"@) is Some,
        res.get_spec("data"@)->Some_0.array_spec() is Some,
        search_results_spec(res)->Ok_0.len() == res.get_spec("data"@)->Some_0.array_spec()->Some_0.len(),
        forall|i: int| 0 <= i < search_results_spec(res)->Ok_0.len() ==> {
            let item = #[trigger] res.get_spec("data"@)->Some_0.array_spec()->Some_0[i];
            &&& item.get_spec("attributes"@) is Some
            &&& item.get_spec("attributes"@)->Some_0.get_spec("canonicalTitle"@) is Some
            &&& item.get_spec("attributes"@)->Some_0.get_spec("canonicalTitle"@)->Some_0.str_spec()
                == Some(search_results_spec(res)->Ok_0[i].title)
            &&& item.get_spec("id"@)->Some_0.str_spec() == Some(search_results_spec(res)->Ok_0[i].id)
        },
{
    let items = res.get_spec("data"@)->Some_0.array_spec()->Some_0;
    let f = |j: Json| search_item_spec(j);
    crate::error::lemma_collect_ok(items, f);
    assert forall|i: int| 0 <= i < search_results_spec(res)->Ok_0.len() implies {
        let item = #[trigger] res.get_spec("data"@)->Some_0.array_spec()->Some_0[i];
        &&& item.get_spec("attributes"@) is Some
        &&& item.get_spec("attributes"@)->Some_0.get_spec("canonicalTitle"@) is Some
        &&& item.get_spec("attributes"@)->Some_0.get_spec("canonicalTitle"@)->Some_0.str_spec()
            == Some(search_results_spec(res)->Ok_0[i].title)
        &&& item.get_spec("id"@)->Some_0.str_spec() == Some(search_results_spec(res)->Ok_0[i].id)
    } by {
        assert(f(items[i]) == Ok::<SearchContentInfoView, ContentErrorView>(collect(items, f)->Ok_0[i]));
        lemma_search_item_keeps_text(items[i]);
    }
}

} // verus!
