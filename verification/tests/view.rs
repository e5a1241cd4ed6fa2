use media_content::error::ContentError;
use media_content::global_types::Source;
use media_content::json::{Json, JsonNumber};
use media_content::view_content::{anime, movie, tv, ExternalID};

fn s(x: &str) -> Json {
    Json::Str(x.to_string())
}

fn n(x: u64) -> Json {
    Json::Number(JsonNumber { as_u64: Some(x), text: x.to_string() })
}

fn obj(members: Vec<(&str, Json)>) -> Json {
    Json::Object(members.into_iter().map(|(k, v)| (k.to_string(), v)).collect())
}

fn message(e: ContentError) -> String {
    match e {
        ContentError::Message(m) => m,
        other => panic!("unexpected error {:?}", other),
    }
}

fn video(site: &str, kind: &str, official: bool, key: &str) -> Json {
    obj(vec![("site", s(site)), ("type", s(kind)), ("official", Json::Bool(official)), ("key", s(key))])
}

fn movie_details(videos: Vec<Json>) -> Json {
    obj(vec![
        ("original_title", s("Le Fabuleux Destin")),
        ("title", s("Amelie")),
        ("overview", s("A waitress.")),
        ("backdrop_path", s("/b.jpg")),
        ("poster_path", Json::Null),
        ("vote_average", Json::Number(JsonNumber { as_u64: None, text: "7.9".to_string() })),
        ("original_language", s("fr")),
        ("videos", obj(vec![("results", Json::Array(videos))])),
        ("external_ids", obj(vec![("imdb_id", s("tt0211915"))])),
    ])
}

#[test]
fn movie_details_request() {
    let r = movie::view_request("tok", "194");
    assert_eq!(r.url, "https://api.themoviedb.org/3/movie/194");
    assert_eq!(r.query[1], ("append_to_response".to_string(), "videos,external_ids".to_string()));
}

#[test]
fn movie_details_read() {
    let res = movie_details(vec![
        video("YouTube", "Teaser", true, "t1"),
        video("Vimeo", "Trailer", true, "v1"),
        video("YouTube", "Trailer", true, "yt1"),
    ]);
    let m = movie::view_item(&res, &Source::Movie, "194").unwrap();
    let info = movie::finish(m, "7.9");
    assert_eq!(info.url, "https://www.themoviedb.org/movie/194");
    assert_eq!(info.title, "Le Fabuleux Destin");
    assert_eq!(info.title_secondary, "Amelie");
    assert_eq!(info.thumbnail_url, "https://image.tmdb.org/t/p/original");
    assert_eq!(info.banner_url, "https://image.tmdb.org/t/p/original/b.jpg");
    assert_eq!(info.contextual, vec!["Movie", "Rating: 7.9", "FR"]);
    assert_eq!(info.trailer_url, "https://www.youtube.com/watch?v=yt1");
    assert_eq!(info.pictures, vec!["https://image.tmdb.org/t/p/original", "https://image.tmdb.org/t/p/original/b.jpg"]);
    assert_eq!(info.countdown, -1);
    assert_eq!(info.episodes, vec![1]);
    assert_eq!(info.external_id.imdb, Some("tt0211915".to_string()));
    assert_eq!(info.external_id.tmdb, Some("194".to_string()));
    assert_eq!(info.external_id.mal, None);
}

#[test]
fn movie_trailer_fallbacks() {
    let m = movie::view_item(&movie_details(vec![video("Vimeo", "Clip", false, "first")]), &Source::Movie, "1").unwrap();
    assert_eq!(m.trailer_url, "https://www.youtube.com/watch?v=first");
    let m = movie::view_item(&movie_details(vec![]), &Source::Movie, "1").unwrap();
    assert_eq!(m.trailer_url, "");
}

#[test]
fn movie_details_errors() {
    assert_eq!(message(movie::view_item(&Json::Null, &Source::Movie, "1").unwrap_err()), "results not an object");
    let mut res = movie_details(vec![]);
    if let Json::Object(m) = &mut res {
        m.retain(|(k, _)| k != "videos");
    }
    assert_eq!(message(movie::view_item(&res, &Source::Movie, "1").unwrap_err()), "videos not exist");
    let mut res = movie_details(vec![]);
    if let Json::Object(m) = &mut res {
        m.retain(|(k, _)| k != "external_ids");
    }
    assert_eq!(message(movie::view_item(&res, &Source::Movie, "1").unwrap_err()), "imdb_id not exist");
}

fn anime_details(next_release: Json) -> Json {
    obj(vec![(
        "data",
        obj(vec![
            ("links", obj(vec![("self", s("https://kitsu.io/api/edge/anime/1"))])),
            (
                "attributes",
                obj(vec![
                    ("canonicalTitle", s("Cowboy Bebop")),
                    ("description", s("Space.")),
                    ("coverImage", obj(vec![("original", s("https://media/c.jpg"))])),
                    ("posterImage", obj(vec![("original", s("https://media/p.jpg"))])),
                    ("averageRating", s("82.3")),
                    ("status", s("finished")),
                    ("nextRelease", next_release),
                    ("episodeCount", n(26)),
                    ("youtubeVideoId", s("qig4KOK2R2g")),
                ]),
            ),
        ]),
    )])
}

#[test]
fn anime_details_read() {
    assert_eq!(anime::view_request("1").url, "https://kitsu.io/api/edge/anime/1");
    let a = anime::view_item_checked(&anime_details(s("2024-01-01"))).unwrap().unwrap();
    assert_eq!(a.countdown, 1704067200000);
    let ids = ExternalID { mal: Some("1".to_string()), kitsu: None, imdb: None, tmdb: None, thetvdb: None };
    let info = anime::finish(a, Some("8.23".to_string()), ids);
    assert_eq!(info.url, "https://kitsu.io/api/edge/anime/1");
    assert_eq!(info.title, "Cowboy Bebop");
    assert_eq!(info.title_secondary, "Cowboy Bebop");
    assert_eq!(info.contextual, vec!["Anime", "Rating: 8.23", "FINISHED"]);
    assert_eq!(info.pictures, vec!["https://media/c.jpg", "https://media/p.jpg"]);
    assert_eq!(info.episodes, vec![26]);
    assert_eq!(info.trailer_url, "https://www.youtube.com/watch?v=qig4KOK2R2g");
    assert_eq!(info.external_id.mal, Some("1".to_string()));
    let a = anime::view_item(&anime_details(Json::Null)).unwrap();
    assert_eq!(a.countdown, -1);
}

#[test]
fn anime_details_bad_release() {
    assert!(anime::view_item_checked(&anime_details(s("next week"))).is_none());
    let no_data = obj(vec![]);
    assert_eq!(message(anime::view_item_checked(&no_data).unwrap().unwrap_err()), "data not exist");
}

#[test]
fn anime_mappings() {
    assert_eq!(anime::mappings_request("7").url, "https://kitsu.io/api/edge/anime/7/mappings");
    let mapping = |site: &str, id: &str| obj(vec![("attributes", obj(vec![("externalSite", s(site)), ("externalId", s(id))]))]);
    let res = obj(vec![("data", Json::Array(vec![mapping("myanimelist/anime", "1"), mapping("anidb", "9"), mapping("thetvdb", "76885")]))]);
    let items = anime::mapping_items(&res).unwrap();
    let mut ids = ExternalID::default();
    for item in items {
        ids = anime::apply_mapping(ids, item).unwrap();
    }
    assert_eq!(ids.mal, Some("1".to_string()));
    assert_eq!(ids.thetvdb, Some("76885".to_string()));
    let req = anime::find_request(&ids, "tok").unwrap();
    assert_eq!(req.url, "https://api.themoviedb.org/3/find/76885?external_source=tvdb_id");
    assert_eq!(req.headers, vec![("Authorization".to_string(), "Bearer tok".to_string())]);
    let found = obj(vec![("tv_results", Json::Array(vec![obj(vec![("id", n(30991))])]))]);
    let ids = anime::apply_find(ids, &found).unwrap();
    assert_eq!(ids.tmdb, Some("30991".to_string()));
    assert!(anime::find_request(&ExternalID::default(), "tok").is_none());
    let bad = obj(vec![("data", Json::Array(vec![obj(vec![("attributes", obj(vec![]))])]))]);
    let items = anime::mapping_items(&bad).unwrap();
    assert_eq!(message(anime::apply_mapping(ExternalID::default(), &items[0]).unwrap_err()), "externalSite not exist");
    assert_eq!(message(anime::apply_find(ExternalID::default(), &obj(vec![])).unwrap_err()), "tv_results not exist");
}

fn episodes(count: usize) -> String {
    (0..count).map(|i| format!(r#"<div class="goEpisode"><span class="SimklTVEpisodesEpNumber">{}</span></div>"#, i + 1)).collect()
}

fn show_page() -> String {
    format!(
        r#"<html><head><style>.SimklLoginBg2 {{ background-image: url('//simkl.in/fanart/show.jpg'); }}</style></head><body>
<div class="SimklTVDetailPoster"><img id="detailPosterImg" src="//simkl.in/posters/show.jpg"></div>
<div class="SimklTVAboutTitleText"><h1 class="headDetail">Original Title</h1><h2 class="headDetail">Shown &amp; Title</h2></div>
<div class="SimklTVAboutDetailsText"><span class="full-text"> A story. </span></div>
<div class="liteYoutube" id="abc123"></div>
<div class="SimklTVAboutRatingBorder"><span class="SimklTVRatingAverage">8.7</span><a href="https://example.com/x">site</a><a href="https://www.imdb.com/title/tt0903747/">IMDb</a></div>
<table class="SimklTVEpisodesBlock"><tbody>
<tr><td><div class="SimklTVAboutTabsDetailsSeasonHead">Season 1</div></td></tr>
<tr><td>{}</td></tr>
<tr><td><div class="SimklTVAboutTabsDetailsSeasonHead">Season 2</div></td></tr>
<tr><td>{}</td></tr>
<tr><td>no episodes</td></tr>
</tbody></table>
</body></html>"#,
        episodes(5),
        episodes(6)
    )
}

#[test]
fn show_requests() {
    let r = tv::page_request("%2F11121%2Fbreaking-bad").unwrap();
    assert_eq!(r.url, "https://simkl.com/tv/11121/breaking-bad/episodes/");
    assert_eq!(r.headers[0], ("user-agent".to_string(), "PostmanRuntime/7.53.0".to_string()));
    let r = tv::countdown_request("%2F11121%2Fbreaking-bad").unwrap();
    assert_eq!(r.url, "https://countdown.tv/11121/breaking-bad");
    assert!(matches!(tv::page_request("%FF"), Err(ContentError::Utf8(_))));
}

#[test]
fn show_page_read() {
    let page = show_page();
    let show = tv::show_page(&page, "%2F11121%2Fbreaking-bad").unwrap();
    assert_eq!(show.url, "https://simkl.com/tv/11121/breaking-bad");
    assert_eq!(show.title, "Shown & Title");
    assert_eq!(show.title_secondary, "Original Title");
    assert_eq!(show.description, "A story.");
    assert_eq!(show.banner_url, "https://wsrv.nl/?url=https://simkl.in/fanart/show.jpg");
    assert_eq!(show.thumbnail_url, "https://wsrv.nl/?url=https://simkl.in/posters/show.jpg");
    assert_eq!(show.trailer_url, "https://www.youtube.com/watch?v=abc123&autoplay=1&vq=highres");
    assert_eq!(show.rating, "Rating: 8.7");
    assert_eq!(show.imdb_id, "tt0903747");
    assert_eq!(show.episodes, vec![5, 6]);
    let info = tv::finish(show, 1735689600);
    assert_eq!(info.contextual, vec!["Movies", "Rating: 8.7"]);
    assert_eq!(info.pictures, vec!["https://wsrv.nl/?url=https://simkl.in/fanart/show.jpg", "https://wsrv.nl/?url=https://simkl.in/posters/show.jpg"]);
    assert_eq!(info.external_id.imdb, Some("tt0903747".to_string()));
    assert_eq!(info.countdown, 1735689600);
}

#[test]
fn show_page_without_poster() {
    assert_eq!(message(tv::show_page("<div>empty</div>", "%2F1").unwrap_err()), "Thumbnail not found");
}

#[test]
fn show_page_bad_imdb_link() {
    let page = r#"<div class="SimklTVDetailPoster"><img id="detailPosterImg" src="//p.jpg"></div><div class="SimklTVAboutRatingBorder"><a href="imdb">x</a></div>"#;
    assert_eq!(message(tv::show_page(page, "%2F1").unwrap_err()), "Mal id not found");
}

#[test]
fn show_countdown() {
    let page = r#"<div class="type-airing"><countdown-content-page-item-left-desc>Countdown to Season 3 <span data-ts="1735689600"></span></countdown-content-page-item-left-desc></div>
<div class="type-airing"><countdown-content-page-item-left-desc>Aired</countdown-content-page-item-left-desc></div>"#;
    assert_eq!(tv::countdown_page(page).unwrap(), 1735689600);
    assert_eq!(tv::countdown_page("<p>nothing airing</p>").unwrap(), -1);
    let blank = r#"<div class="type-airing"><countdown-content-page-item-left-desc>COUNTDOWN TO finale <span data-ts=" "></span></countdown-content-page-item-left-desc></div>"#;
    assert_eq!(tv::countdown_page(blank).unwrap(), 0);
    let bad = r#"<div class="type-airing"><countdown-content-page-item-left-desc>Countdown to x <span data-ts="soon"></span></countdown-content-page-item-left-desc></div>"#;
    assert!(matches!(tv::countdown_page(bad), Err(ContentError::Integer(_))));
}

#[test]
fn show_countdown_signed_and_padded_times() {
    let item = |ts: &str| format!(r#"<div class="type-airing"><countdown-content-page-item-left-desc>Countdown to it <span data-ts="{}"></span></countdown-content-page-item-left-desc></div>"#, ts);
    assert_eq!(tv::countdown_page(&item(" 42\n")).unwrap(), 42);
    assert_eq!(tv::countdown_page(&item("+7")).unwrap(), 7);
    assert_eq!(tv::countdown_page(&item("-5")).unwrap(), -5);
    assert!(matches!(tv::countdown_page(&item("1_000")), Err(ContentError::Integer(_))));
    assert!(matches!(tv::countdown_page(&item("99999999999999999999")), Err(ContentError::Integer(_))));
    let two = format!("{}\n{}", item("10"), item("20"));
    assert_eq!(tv::countdown_page(&two).unwrap(), 20);
}
