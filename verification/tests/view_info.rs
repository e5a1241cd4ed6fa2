use media_content::error::ContentError;
use media_content::view_content_info::tv;

fn message(e: ContentError) -> String {
    match e {
        ContentError::Message(m) => m,
        other => panic!("unexpected error {:?}", other),
    }
}

const PAGE: &str = r#"<div class="SimklTVDetailPoster"><img id="detailPosterImg" src="//simkl.in/p.jpg"></div>
<div class="SimklTVAboutTitleText"><h1 class="headDetail">Breaking Bad</h1></div>
<div class="SimklTVAboutDetailsText"><span class="full-text"> Chemistry &lt;3 </span></div>
<div class="liteYoutube" id="HhesaQXLuRY"></div>
<div class="SimklTVAboutRatingBorder"><span class="SimklTVRatingAverage">9.5</span><a href="https://www.imdb.com/title/tt0903747/">IMDb</a></div>
<table class="SimklTVEpisodesBlock"><tbody>
<tr><td><div class="SimklTVAboutTabsDetailsSeasonHead">Season 1</div></td></tr>
<tr><td><div class="goEpisode"><span class="SimklTVEpisodesEpNumber">1</span><span class="SimklTVEpisodesEpTitle"> Pilot </span></div><div class="goEpisode"><span class="SimklTVEpisodesEpNumber">2</span><span class="SimklTVEpisodesEpTitle">Cat's in the Bag</span></div></td></tr>
</tbody></table>"#;

#[test]
fn earlier_show_layout() {
    let r = tv::page_request("%2F11121%2Fbreaking-bad").unwrap();
    assert_eq!(r.url, "https://simkl.com/tv/11121/breaking-bad/episodes/");
    assert!(r.random_user_agent);
    let head = tv::show_head(PAGE, "%2F11121%2Fbreaking-bad").unwrap();
    assert_eq!(head.title, "Breaking Bad");
    assert_eq!(head.description, "Chemistry <3");
    assert_eq!(head.trailer_url, "https://www.youtube.com/embed/HhesaQXLuRY?autoplay=1&vq=highres");
    assert_eq!(head.imdb_id, "tt0903747");
    let req = tv::stills_request(&head).unwrap();
    assert_eq!(req.url, "https://www.imdb.com/title/tt0903747/mediaindex/?contentTypes=still_frame");
    let stills_page = r#"<section class="ipc-page-section"><div class="TlTHB"><div class="ipc-media"><img class="ipc-image" src="https://m.media-amazon.com/images/M/abc._V1_QL75_UX280_.jpg"></div><div class="ipc-media"><img class="ipc-image"></div></div></section>"#;
    let stills = tv::stills(stills_page).unwrap();
    assert_eq!(stills, vec!["https://m.media-amazon.com/images/M/abc._V1_.jpg"]);
    let episodes = tv::page_episodes(PAGE).unwrap();
    assert_eq!(episodes, vec![vec!["1: Pilot".to_string(), "2: Cat's in the Bag".to_string()]]);
    let details = tv::finish(head, stills, episodes, -1);
    assert_eq!(details.banner_url, "https://m.media-amazon.com/images/M/abc._V1_.jpg");
    assert_eq!(details.pictures.len(), 2);
    assert_eq!(details.pictures[1], "https://wsrv.nl/?url=https://simkl.in/p.jpg");
    assert_eq!(details.contextual, vec!["Movies", "Rating: 9.5"]);
}

#[test]
fn earlier_show_layout_without_trailer() {
    let page = r#"<div class="SimklTVDetailPoster"><img id="detailPosterImg" src="//simkl.in/p.jpg"></div>"#;
    assert_eq!(message(tv::show_head(page, "%2F1").unwrap_err()), "Trailer id not found");
}

#[test]
fn earlier_show_layout_without_imdb() {
    let page = r#"<div class="SimklTVDetailPoster"><img id="detailPosterImg" src="//simkl.in/p.jpg"></div><div class="liteYoutube" id="v"></div>"#;
    let head = tv::show_head(page, "%2F1").unwrap();
    assert!(tv::stills_request(&head).is_none());
    let details = tv::finish(head, Vec::new(), Vec::new(), 5);
    assert_eq!(details.banner_url, "https://wsrv.nl/?url=https://simkl.in/p.jpg");
    assert_eq!(details.countdown, 5);
}
