use media_content::error::ContentError;
use media_content::global_types::Source;
use media_content::http::HttpMethod;
use media_content::json::{Json, JsonNumber};
use media_content::search_content::{anime, movie, tv, SearchContentParams};

fn s(x: &str) -> Json {
    Json::Str(x.to_string())
}

fn n(x: u64) -> Json {
    Json::Number(JsonNumber { as_u64: Some(x), text: x.to_string() })
}

fn obj(members: Vec<(&str, Json)>) -> Json {
    Json::Object(members.into_iter().map(|(k, v)| (k.to_string(), v)).collect())
}

fn message(e: ContentError) -> String {
    match e {
        ContentError::Message(m) => m,
        other => panic!("unexpected error {:?}", other),
    }
}

fn params(page: u64) -> SearchContentParams {
    SearchContentParams { tmdb_token: "tok".to_string(), source: Source::Movie, search: "spider".to_string(), page }
}

#[test]
fn movie_search_request() {
    let r = movie::search_request(&params(3));
    assert_eq!(r.method, HttpMethod::Get);
    assert_eq!(r.url, "https://api.themoviedb.org/3/search/movie");
    assert_eq!(
        r.query,
        vec![
            ("query".to_string(), "spider".to_string()),
            ("include_adult".to_string(), "true".to_string()),
            ("language".to_string(), "en-US".to_string()),
            ("page".to_string(), "3".to_string()),
        ]
    );
    assert_eq!(
        r.headers,
        vec![
            ("accept".to_string(), "application/json".to_string()),
            ("Authorization".to_string(), "Bearer tok".to_string()),
        ]
    );
}

#[test]
fn movie_search_results() {
    let res = obj(vec![(
        "results",
        Json::Array(vec![
            obj(vec![
                ("id", n(557)),
                ("original_title", s("Spider-Man")),
                ("poster_path", s("/p.jpg")),
                ("release_date", s("2002-05-01")),
            ]),
            obj(vec![
                ("id", n(1)),
                ("original_title", s("Untitled")),
                ("poster_path", Json::Null),
                ("release_date", s("1999-12-31")),
            ]),
        ]),
    )]);
    let out = movie::search_results(&res).unwrap();
    assert_eq!(out.len(), 2);
    assert_eq!(out[0].id, "557");
    assert_eq!(out[0].title, "Spider-Man");
    assert_eq!(out[0].year, "2002");
    assert_eq!(out[0].thumbnail_url, "https://image.tmdb.org/t/p/original/p.jpg");
    assert_eq!(out[1].thumbnail_url, "https://image.tmdb.org/t/p/original");
    assert_eq!(out[1].year, "1999");
}

#[test]
fn movie_search_errors() {
    assert_eq!(message(movie::search_results(&obj(vec![])).unwrap_err()), "results not exist");
    assert_eq!(message(movie::search_results(&obj(vec![("results", s("x"))])).unwrap_err()), "results not an array");
    let no_id = obj(vec![("results", Json::Array(vec![obj(vec![])]))]);
    assert_eq!(message(movie::search_results(&no_id).unwrap_err()), "id not exist");
    let bad_id = obj(vec![("results", Json::Array(vec![obj(vec![("id", s("1"))])]))]);
    assert_eq!(message(movie::search_results(&bad_id).unwrap_err()), "id not a number");
    let no_poster = obj(vec![("results", Json::Array(vec![obj(vec![("id", n(1)), ("original_title", s("t"))])]))]);
    assert_eq!(message(movie::search_results(&no_poster).unwrap_err()), "bposter_path not exist");
    let bad_date = obj(vec![(
        "results",
        Json::Array(vec![obj(vec![
            ("id", n(1)),
            ("original_title", s("t")),
            ("poster_path", s("")),
            ("release_date", s("someday")),
        ])]),
    )]);
    assert!(matches!(movie::search_results(&bad_date), Err(ContentError::Date(_))));
}

#[test]
fn anime_search_request_offsets() {
    let r = anime::search_request(&params(1));
    assert_eq!(r.url, "https://kitsu.io/api/edge/anime");
    assert_eq!(r.query[2], ("page[offset]".to_string(), "0".to_string()));
    let r = anime::search_request(&params(3));
    assert_eq!(
        r.query,
        vec![
            ("filter[text]".to_string(), "spider".to_string()),
            ("page[limit]".to_string(), "20".to_string()),
            ("page[offset]".to_string(), "40".to_string()),
        ]
    );
    assert!(r.headers.is_empty());
}

#[test]
fn anime_year_ranges() {
    assert_eq!(anime::year_range("2014".to_string(), "".to_string()), "2014");
    assert_eq!(anime::year_range("2014".to_string(), "2014".to_string()), "2014");
    assert_eq!(anime::year_range("2014".to_string(), "2016".to_string()), "2014 - 2016");
    assert_eq!(anime::year_range("?".to_string(), "2016".to_string()), "? - 2016");
}

#[test]
fn anime_search_results() {
    let item = |id: &str, attrs: Json| obj(vec![("id", s(id)), ("attributes", attrs)]);
    let res = obj(vec![(
        "data",
        Json::Array(vec![
            item(
                "1",
                obj(vec![
                    ("canonicalTitle", s("Cowboy Bebop")),
                    ("posterImage", obj(vec![("original", s("https://media/p1.jpg"))])),
                    ("startDate", s("1998-04-03")),
                    ("endDate", s("1999-04-24")),
                ]),
            ),
            item("2", obj(vec![("canonicalTitle", s("Movie")), ("startDate", s("2001-07-20")), ("endDate", s("2001-07-20"))])),
            item("3", obj(vec![("canonicalTitle", s("Airing")), ("startDate", s("2024-01-05")), ("endDate", Json::Null)])),
            item("4", obj(vec![("canonicalTitle", s("Unknown"))])),
        ]),
    )]);
    let out = anime::search_results(&res).unwrap();
    assert_eq!(out.len(), 4);
    assert_eq!(out[0].id, "1");
    assert_eq!(out[0].year, "1998 - 1999");
    assert_eq!(out[0].thumbnail_url, "https://media/p1.jpg");
    assert_eq!(out[1].year, "2001");
    assert_eq!(out[1].thumbnail_url, "");
    assert_eq!(out[2].year, "2024");
    assert_eq!(out[3].year, "?");
}

#[test]
fn anime_search_errors() {
    assert_eq!(message(anime::search_results(&obj(vec![])).unwrap_err()), "data not exist");
    assert_eq!(message(anime::search_results(&obj(vec![("data", obj(vec![]))])).unwrap_err()), "data not an array");
    let bad_id = obj(vec![("data", Json::Array(vec![obj(vec![("id", n(1))])]))]);
    assert_eq!(message(anime::search_results(&bad_id).unwrap_err()), "id not a str");
    let no_attrs = obj(vec![("data", Json::Array(vec![obj(vec![("id", s("1"))])]))]);
    assert_eq!(message(anime::search_results(&no_attrs).unwrap_err()), "attributes not exist");
    let bad_attrs = obj(vec![("data", Json::Array(vec![obj(vec![("id", s("1")), ("attributes", s("x"))])]))]);
    assert_eq!(message(anime::search_results(&bad_attrs).unwrap_err()), "attributes not an object");
    let no_title = obj(vec![("data", Json::Array(vec![obj(vec![("id", s("1")), ("attributes", obj(vec![]))])]))]);
    assert_eq!(message(anime::search_results(&no_title).unwrap_err()), "canonicalTitle not exist");
    let bad_end = obj(vec![(
        "data",
        Json::Array(vec![obj(vec![
            ("id", s("1")),
            ("attributes", obj(vec![("canonicalTitle", s("t")), ("endDate", s("soon"))])),
        ])]),
    )]);
    assert!(matches!(anime::search_results(&bad_end), Err(ContentError::Date(_))));
}

#[test]
fn show_search_request() {
    let r = tv::search_request(&Source::TV, "breaking bad", 2, 3);
    assert_eq!(r.method, HttpMethod::Post);
    assert_eq!(r.url, "https://simkl.com/ajax/full/search.php");
    assert!(r.random_user_agent);
    assert_eq!(
        r.headers,
        vec![
            ("origin".to_string(), "https://simkl.com".to_string()),
            ("referer".to_string(), "https://simkl.com/".to_string()),
        ]
    );
    assert_eq!(
        r.form,
        vec![
            ("s".to_string(), "breaking bad".to_string()),
            ("type".to_string(), "tv".to_string()),
            ("sort".to_string(), "2".to_string()),
            ("offset".to_string(), "100".to_string()),
        ]
    );
}

fn show(url: &str, titles: Json) -> Json {
    obj(vec![
        ("url", s(url)),
        ("year", s("2008")),
        ("rank", n(3)),
        ("poster", s("74/abc")),
        ("titles", titles),
    ])
}

#[test]
fn show_search_results() {
    let res = obj(vec![
        ("0", show("/tv/11121/breaking-bad", obj(vec![("a0", s("Breaking Bad")), ("m", s("BB"))]))),
        ("1", show("/tv/2/other", obj(vec![("m", s("Other"))]))),
    ]);
    let out = tv::search_results(&res).unwrap();
    assert_eq!(out.len(), 2);
    assert_eq!(out[0].id, "%2F11121%2Fbreaking-bad");
    assert_eq!(out[0].title, "Breaking Bad");
    assert_eq!(out[0].year, "2008");
    assert_eq!(out[0].thumbnail_url, "https://wsrv.nl/?url=https://simkl.in/posters/74/abc_m.webp");
    assert_eq!(out[1].title, "Other");
    assert_eq!(out[1].id, "%2F2%2Fother");
}

#[test]
fn show_ids_percent_encode_utf8() {
    let res = obj(vec![("0", show("/tv/7/caf\u{e9} ~x.y", obj(vec![("m", s("Cafe"))])))]);
    let out = tv::search_results(&res).unwrap();
    assert_eq!(out[0].id, "%2F7%2Fcaf%C3%A9%20~x.y");
}

#[test]
fn show_search_errors() {
    assert_eq!(message(tv::search_results(&Json::Array(vec![])).unwrap_err()), "Unable to load as object");
    let no_rank = obj(vec![("0", obj(vec![("url", s("/tv/1")), ("year", s("2000"))]))]);
    assert_eq!(message(tv::search_results(&no_rank).unwrap_err()), "Unable to load rank");
    let no_title = obj(vec![("0", show("/tv/1", obj(vec![])))]);
    assert_eq!(message(tv::search_results(&no_title).unwrap_err()), "title 'm' not found");
    let bad_title = obj(vec![("0", show("/tv/1", obj(vec![("a0", n(1))])))]);
    assert_eq!(message(tv::search_results(&bad_title).unwrap_err()), "Unable to load title as string");
    let bad_titles = obj(vec![("0", show("/tv/1", s("t")))]);
    assert_eq!(message(tv::search_results(&bad_titles).unwrap_err()), "Unable to load title as object");
}
