use media_content::error::ContentError;
use media_content::http::HttpMethod;
use media_content::json::{Json, JsonNumber};
use media_content::trending_content::{anime, movie};

fn s(x: &str) -> Json {
    Json::Str(x.to_string())
}

fn n(x: u64) -> Json {
    Json::Number(JsonNumber { as_u64: Some(x), text: x.to_string() })
}

fn obj(members: Vec<(&str, Json)>) -> Json {
    Json::Object(members.into_iter().map(|(k, v)| (k.to_string(), v)).collect())
}

fn message(e: ContentError) -> String {
    match e {
        ContentError::Message(m) => m,
        other => panic!("unexpected error {:?}", other),
    }
}

#[test]
fn trending_movies() {
    let r = movie::trending_request("tok");
    assert_eq!(r.url, "https://api.themoviedb.org/3/trending/movie/week");
    assert_eq!(r.query, vec![("language".to_string(), "en-US".to_string())]);
    let res = obj(vec![(
        "results",
        Json::Array(vec![obj(vec![
            ("id", n(603)),
            ("original_title", s("The Matrix")),
            ("poster_path", s("/m.jpg")),
            ("release_date", s("1999-03-30")),
            ("vote_average", n(8)),
        ])]),
    )]);
    let items = movie::trending_items(&res).unwrap();
    assert_eq!(items[0].vote_average, "8");
    let info = movie::finish(items.into_iter().next().unwrap(), "8".to_string());
    assert_eq!(info.id, "603");
    assert_eq!(info.title, "The Matrix");
    assert_eq!(info.year, "1999");
    assert_eq!(info.rating, "8");
    assert_eq!(info.thumbnail_url, "https://image.tmdb.org/t/p/original/m.jpg");
}

#[test]
fn trending_movie_errors() {
    let no_vote = obj(vec![(
        "results",
        Json::Array(vec![obj(vec![
            ("id", n(603)),
            ("original_title", s("The Matrix")),
            ("poster_path", s("/m.jpg")),
            ("release_date", s("1999-03-30")),
            ("vote_average", s("8")),
        ])]),
    )]);
    assert_eq!(message(movie::trending_items(&no_vote).unwrap_err()), "vote_average not a number");
    let no_poster = obj(vec![("results", Json::Array(vec![obj(vec![("id", n(1)), ("original_title", s("t"))])]))]);
    assert_eq!(message(movie::trending_items(&no_poster).unwrap_err()), "poster_path not exist");
}

const BEST_PAGE: &str = r#"<div class="list">
<div class="SimklTVBestItems"><div class="SimklTVBestItemWraper"><a href="/anime/12345/frieren"><img src="//simkl.in/posters/frieren.jpg"></a></div><div class="SimklTVBestItemTitle"> Frieren &amp; Co </div><div class="SimklTVAboutYearCountry"><span class="detailYearInfo"> 2023 </span></div><div class="SimklTVBestIcoScore">9.1 / 10</div></div>
<div class="SimklTVBestItems"><div class="SimklTVBestItemTitle">No score</div></div>
</div>"#;

#[test]
fn best_anime_request() {
    let r = anime::trending_request();
    assert_eq!(r.method, HttpMethod::Post);
    assert_eq!(r.url, "https://simkl.com/ajax/full/anime.php");
    assert!(r.random_user_agent);
    assert_eq!(r.form.len(), 7);
    assert_eq!(r.form[0], ("action".to_string(), "best".to_string()));
    assert_eq!(r.form[6], ("double".to_string(), "0".to_string()));
}

#[test]
fn best_anime() {
    let items = anime::trending_items(BEST_PAGE).unwrap();
    assert_eq!(items.len(), 2);
    let head = anime::head(&items[0]).unwrap();
    assert_eq!(head.title, "Frieren & Co");
    assert_eq!(head.year, "2023");
    assert_eq!(head.rating_text, "9.1");
    let info = anime::tail(&items[0], head, "9.1".to_string()).unwrap();
    assert_eq!(info.id, "%2F12345%2Ffrieren");
    assert_eq!(info.thumbnail_url, "https://simkl.in/posters/frieren.jpg");
    assert_eq!(info.rating, "9.1");
    assert_eq!(message(anime::head(&items[1]).unwrap_err()), "Can't find rating.");
}

#[test]
fn best_anime_missing_link() {
    let item = r#"<div class="SimklTVBestItemTitle">t</div><div class="SimklTVBestIcoScore">7/10</div>"#;
    let head = anime::head(item).unwrap();
    assert_eq!(head.rating_text, "7");
    assert_eq!(message(anime::tail(item, head, "7".to_string()).unwrap_err()), "Can't find id.");
}
