use media_content::error::ContentError;
use media_content::featured_content::{anime, movies};
use media_content::global_types::Source;
use media_content::json::{Json, JsonNumber};

fn s(x: &str) -> Json {
    Json::Str(x.to_string())
}

fn n(x: u64) -> Json {
    Json::Number(JsonNumber { as_u64: Some(x), text: x.to_string() })
}

fn decimal_number(t: &str) -> Json {
    Json::Number(JsonNumber { as_u64: None, text: t.to_string() })
}

fn obj(members: Vec<(&str, Json)>) -> Json {
    Json::Object(members.into_iter().map(|(k, v)| (k.to_string(), v)).collect())
}

fn message(e: ContentError) -> String {
    match e {
        ContentError::Message(m) => m,
        other => panic!("unexpected error {:?}", other),
    }
}

#[test]
fn popular_movies_request() {
    let r = movies::featured_request("tok");
    assert_eq!(r.url, "https://api.themoviedb.org/3/movie/popular");
    assert_eq!(
        r.query,
        vec![("language".to_string(), "en-US".to_string()), ("page".to_string(), "1".to_string())]
    );
    assert_eq!(r.headers[1], ("Authorization".to_string(), "Bearer tok".to_string()));
}

fn popular_movie() -> Json {
    obj(vec![
        ("id", n(27205)),
        ("original_title", s("Inception")),
        ("overview", s("Dreams.")),
        ("backdrop_path", s("/b.jpg")),
        ("vote_average", decimal_number("8.369")),
        ("original_language", s("en")),
    ])
}

#[test]
fn popular_movies() {
    let res = obj(vec![("results", Json::Array(vec![popular_movie()]))]);
    let items = movies::featured_items(&res, Source::Movie).unwrap();
    assert_eq!(items.len(), 1);
    assert_eq!(items[0].vote_average, "8.369");
    assert_eq!(items[0].language, "EN");
    let info = movies::finish(items.into_iter().next().unwrap(), "8.37");
    assert_eq!(info.source, Source::Movie);
    assert_eq!(info.id, "27205");
    assert_eq!(info.title, "Inception");
    assert_eq!(info.short_description, "Dreams.");
    assert_eq!(info.banner_url, "https://image.tmdb.org/t/p/original/b.jpg");
    assert_eq!(info.contextual, vec!["Movie", "Rating: 8.37", "EN"]);
}

#[test]
fn popular_movies_errors() {
    let mut m = popular_movie();
    if let Json::Object(members) = &mut m {
        members.retain(|(k, _)| k != "vote_average");
    }
    let res = obj(vec![("results", Json::Array(vec![m]))]);
    assert_eq!(message(movies::featured_items(&res, Source::Movie).unwrap_err()), "vote_average not exist");
    let mut m = popular_movie();
    if let Json::Object(members) = &mut m {
        members.retain(|(k, _)| k != "overview");
    }
    let res = obj(vec![("results", Json::Array(vec![m]))]);
    assert_eq!(message(movies::featured_items(&res, Source::Movie).unwrap_err()), "overview not exist");
    let mut m = popular_movie();
    if let Json::Object(members) = &mut m {
        members.retain(|(k, _)| k != "original_language");
    }
    let res = obj(vec![("results", Json::Array(vec![m]))]);
    assert_eq!(message(movies::featured_items(&res, Source::Movie).unwrap_err()), "original_language not exist");
}

#[test]
fn season_anime_request() {
    let r = anime::featured_request(2025);
    assert_eq!(r.url, "https://kitsu.io/api/edge/anime");
    assert_eq!(r.query, vec![("filter[seasonYear]".to_string(), "2025".to_string())]);
}

#[test]
fn season_anime() {
    let res = obj(vec![(
        "data",
        Json::Array(vec![
            obj(vec![
                ("id", s("42")),
                (
                    "attributes",
                    obj(vec![
                        ("canonicalTitle", s("Frieren")),
                        ("synopsis", s("After the journey.")),
                        ("coverImage", obj(vec![("original", s("https://media/cover.jpg"))])),
                        ("averageRating", s("90.12")),
                        ("ageRating", s("pg")),
                        ("status", s("current")),
                    ]),
                ),
            ]),
            obj(vec![
                ("id", s("43")),
                ("attributes", obj(vec![("canonicalTitle", s("Plain")), ("synopsis", s("")), ("ageRating", Json::Null)])),
            ]),
        ]),
    )]);
    let mut items = anime::featured_items(&res, Source::Anime).unwrap().into_iter();
    let first = items.next().unwrap();
    assert_eq!(first.context.average_rating, Some("90.12".to_string()));
    let info = anime::finish(first, Some("9.01".to_string()));
    assert_eq!(info.id, "42");
    assert_eq!(info.banner_url, "https://media/cover.jpg");
    assert_eq!(info.contextual, vec!["Anime", "Rating: 9.01", "PG", "CURRENT"]);
    let second = items.next().unwrap();
    let info = anime::finish(second, None);
    assert_eq!(info.banner_url, "");
    assert_eq!(info.contextual, vec!["Anime", ""]);
}

#[test]
fn season_anime_errors() {
    let no_synopsis = obj(vec![("data", Json::Array(vec![obj(vec![("id", s("1")), ("attributes", obj(vec![("canonicalTitle", s("t"))]))])]))]);
    assert_eq!(message(anime::featured_items(&no_synopsis, Source::Anime).unwrap_err()), "synopsis not exist");
    let bad_synopsis = obj(vec![(
        "data",
        Json::Array(vec![obj(vec![("id", s("1")), ("attributes", obj(vec![("canonicalTitle", s("t")), ("synopsis", n(1))]))])]),
    )]);
    assert_eq!(message(anime::featured_items(&bad_synopsis, Source::Anime).unwrap_err()), "synopsis not a string");
}
