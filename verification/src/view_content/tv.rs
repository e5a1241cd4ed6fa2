use vstd::prelude::*;
use crate::error::{ContentError, ContentErrorView, msg, message, collect, present, lemma_collect_step, lemma_collect_err_prefix, lemma_present_push};
use crate::http::{HttpRequest, HttpRequestView, HttpMethod, pair, pairs3, get_request, pairs_view};
use crate::markup::{load_spec, check_load, clean_spec, clean};
use crate::outside::{
    dom_text, dom_attr, dom_attrs, dom_inner_htmls, url_decoded, url_encoded, regex_first_match, regex_named_group,
    unicode_trim, unicode_lowercase, std_parse_i64, opt_string_view, opt_strings_view, strs_view,
    markup_text, markup_attr, markup_attrs, markup_inner_htmls, url_decode, regex_find, regex_capture,
    trim, lowercase, parse_i64, simple_selector, simple_selectors,
};
use crate::text::{str_concat, contains_spec, contains, starts_with_spec, starts_with, split_nth_spec, split_nth, strings_view};
use super::{ViewContentInfo, ViewContentInfoView, ExternalID, ExternalIDView, two_strings};

verus! {

/// The selectors read from show, episode, countdown and still-image pages are simple selectors.
pub proof fn lemma_page_selectors()
    ensures
        simple_selector("#detailPosterImg"@),
        simple_selector(".SimklTVAboutDetailsText"@),
        simple_selector(".SimklTVAboutRatingBorder"@),
        simple_selector(".SimklTVAboutTabsDetailsSeasonHead"@),
        simple_selector(".SimklTVAboutTitleText"@),
        simple_selector(".SimklTVDetailPoster"@),
        simple_selector(".SimklTVEpisodesBlock"@),
        simple_selector(".SimklTVEpisodesEpNumber"@),
        simple_selector(".SimklTVEpisodesEpTitle"@),
        simple_selector(".SimklTVRatingAverage"@),
        simple_selector(".TlTHB"@),
        simple_selector(".full-text"@),
        simple_selector(".goEpisode"@),
        simple_selector(".headDetail"@),
        simple_selector(".ipc-image"@),
        simple_selector(".ipc-media"@),
        simple_selector(".ipc-page-section"@),
        simple_selector(".liteYoutube"@),
        simple_selector(".type-airing"@),
        simple_selector("a"@),
        simple_selector("countdown-content-page-item-left-desc"@),
        simple_selector("h1.headDetail"@),
        simple_selector("h2.headDetail"@),
        simple_selector("span"@),
        simple_selector("tr"@),
{
    reveal_strlit("#detailPosterImg");
    reveal_strlit(".SimklTVAboutDetailsText");
    reveal_strlit(".SimklTVAboutRatingBorder");
    reveal_strlit(".SimklTVAboutTabsDetailsSeasonHead");
    reveal_strlit(".SimklTVAboutTitleText");
    reveal_strlit(".SimklTVDetailPoster");
    reveal_strlit(".SimklTVEpisodesBlock");
    reveal_strlit(".SimklTVEpisodesEpNumber");
    reveal_strlit(".SimklTVEpisodesEpTitle");
    reveal_strlit(".SimklTVRatingAverage");
    reveal_strlit(".TlTHB");
    reveal_strlit(".full-text");
    reveal_strlit(".goEpisode");
    reveal_strlit(".headDetail");
    reveal_strlit(".ipc-image");
    reveal_strlit(".ipc-media");
    reveal_strlit(".ipc-page-section");
    reveal_strlit(".liteYoutube");
    reveal_strlit(".type-airing");
    reveal_strlit("a");
    reveal_strlit("countdown-content-page-item-left-desc");
    reveal_strlit("h1.headDetail");
    reveal_strlit("h2.headDetail");
    reveal_strlit("span");
    reveal_strlit("tr");
}

/// The path of a show: its id, percent-decoded.
pub open spec fn show_path(id: Seq<char>) -> Result<Seq<char>, ContentErrorView> {
    match url_decoded(id) {
        Some(p) => Ok(p),
        None => Err(ContentErrorView::Utf8),
    }
}

fn decoded_path(id: &str) -> (r: Result<String, ContentError>)
    ensures
        match r {
            Ok(p) => show_path(id@) == Ok::<Seq<char>, ContentErrorView>(p@),
            Err(e) => show_path(id@) == Err::<Seq<char>, ContentErrorView>(e@),
        },
        forall|path: Seq<char>| #[trigger] url_encoded(path) == id@ ==> r is Ok && r->Ok_0@ == path,
{
    match url_decode(id) {
        Ok(p) => Ok(p),
        Err(e) => Err(ContentError::Utf8(e)),
    }
}

/// The headers of a request for a show's page.
pub open spec fn page_headers() -> Seq<(Seq<char>, Seq<char>)> {
    seq![
        ("user-agent"@, "PostmanRuntime/7.53.0"@),
        ("origin"@, "https://simkl.com"@),
        ("referer"@, "https://simkl.com/"@),
    ]
}

/// The request for the episodes page of the show `id`.
pub open spec fn page_request_spec(id: Seq<char>) -> Result<HttpRequestView, ContentErrorView> {
    match show_path(id) {
        Err(e) => Err(e),
        Ok(path) => Ok(HttpRequestView {
            method: HttpMethod::Get,
            url: "https://simkl.com/tv"@ + path + "/episodes/"@,
            query: seq![],
            headers: page_headers(),
            form: seq![],
            random_user_agent: false,
        }),
    }
}

pub fn page_request(id: &str) -> (r: Result<HttpRequest, ContentError>)
    ensures
        match r {
            Ok(req) => page_request_spec(id@) == Ok::<HttpRequestView, ContentErrorView>(req@),
            Err(e) => page_request_spec(id@) == Err::<HttpRequestView, ContentErrorView>(e@),
        },
        // An id made by percent-encoding a path (as a search makes it) opens that path.
        forall|path: Seq<char>| #[trigger] url_encoded(path) == id@
            ==> r is Ok && r->Ok_0@.url == "https://simkl.com/tv"@ + path + "/episodes/"@,
{
    let path = decoded_path(id)?;
    let url = str_concat("https://simkl.com/tv", path.as_str());
    let url = str_concat(url.as_str(), "/episodes/");
    let headers = pairs3(
        pair("user-agent", "PostmanRuntime/7.53.0"),
        pair("origin", "https://simkl.com"),
        pair("referer", "https://simkl.com/"),
    );
    let r = get_request(url, Vec::new(), headers);
    proof {
        crate::http::lemma_no_pairs();
    }
    Ok(r)
}

/// The request for the countdown page of the show `id`.
pub open spec fn countdown_request_spec(id: Seq<char>) -> Result<HttpRequestView, ContentErrorView> {
    match show_path(id) {
        Err(e) => Err(e),
        Ok(path) => Ok(HttpRequestView {
            method: HttpMethod::Get,
            url: "https://countdown.tv"@ + path,
            query: seq![],
            headers: seq![],
            form: seq![],
            random_user_agent: false,
        }),
    }
}

pub fn countdown_request(id: &str) -> (r: Result<HttpRequest, ContentError>)
    ensures
        match r {
            Ok(req) => countdown_request_spec(id@) == Ok::<HttpRequestView, ContentErrorView>(req@),
            Err(e) => countdown_request_spec(id@) == Err::<HttpRequestView, ContentErrorView>(e@),
        },
        // An id made by percent-encoding a path (as a search makes it) counts down that path.
        forall|path: Seq<char>| #[trigger] url_encoded(path) == id@
            ==> r is Ok && r->Ok_0@.url == "https://countdown.tv"@ + path,
{
    let path = decoded_path(id)?;
    let r = get_request(str_concat("https://countdown.tv", path.as_str()), Vec::new(), Vec::new());
    proof {
        crate::http::lemma_no_pairs();
    }
    Ok(r)
}

/// The pattern of the style rule of the page background.
pub open spec fn background_rule_pattern() -> Seq<char> {
    "\\.SimklLoginBg2\\s*\\{[^}]*\\}"@
}

/// The pattern of a background image address in a style rule.
pub open spec fn background_url_pattern() -> Seq<char> {
    "background-image\\s*:\\s*url\\(['\"]?(?P<url>[^'\")]+)['\"]?\\)"@
}

/// The banner: the background image of the page's background rule, with a
/// protocol-relative address passed through the image proxy; empty when there is none.
pub open spec fn banner_spec(page: Seq<char>) -> Seq<char> {
    match regex_first_match(background_rule_pattern(), page) {
        Some(rule) => match regex_named_group(background_url_pattern(), rule, "url"@) {
            Some(url) => if starts_with_spec(url, "//"@) {
                "https://wsrv.nl/?url=https:"@ + url
            } else {
                url
            },
            None => seq![],
        },
        None => seq![],
    }
}

pub fn banner(page: &str) -> (r: String)
    ensures
        r@ == banner_spec(page@),
{
    let rule = regex_find("\\.SimklLoginBg2\\s*\\{[^}]*\\}", page);
    match rule {
        Some(rule) => {
            let url = regex_capture("background-image\\s*:\\s*url\\(['\"]?(?P<url>[^'\")]+)['\"]?\\)", rule.as_str(), "url");
            match url {
                Some(url) => if starts_with(url.as_str(), "//") {
                    str_concat("https://wsrv.nl/?url=https:", url.as_str())
                } else {
                    url
                },
                None => String::new(),
            }
        },
        None => String::new(),
    }
}

/// The IMDb id: the fifth `/`-piece of the first rating link that mentions `imdb`; empty
/// when no link does.
pub open spec fn imdb_id_spec(hrefs: Seq<Option<Seq<char>>>) -> Result<Seq<char>, ContentErrorView>
    decreases hrefs.len(),
{
    if hrefs.len() == 0 {
        Ok(seq![])
    } else {
        match hrefs[0] {
            Some(u) => if contains_spec(u, "imdb"@) {
                match split_nth_spec(u, "/"@, 4) {
                    Some(p) => Ok(p),
                    None => Err(msg("Mal id not found"@)),
                }
            } else {
                imdb_id_spec(hrefs.drop_first())
            },
            None => imdb_id_spec(hrefs.drop_first()),
        }
    }
}

pub fn imdb_id(hrefs: &Vec<Option<String>>) -> (r: Result<String, ContentError>)
    ensures
        match r {
            Ok(s) => imdb_id_spec(opt_strings_view(hrefs@)) == Ok::<Seq<char>, ContentErrorView>(s@),
            Err(e) => imdb_id_spec(opt_strings_view(hrefs@)) == Err::<Seq<char>, ContentErrorView>(e@),
        },
{
    let ghost all = opt_strings_view(hrefs@);
    let mut i: usize = 0;
    proof {
        assert(all.skip(0) =~= all);
        reveal_strlit("/");
    }
    while i < hrefs.len()
        invariant
            i <= hrefs@.len(),
            all == opt_strings_view(hrefs@),
            imdb_id_spec(all) == imdb_id_spec(all.skip(i as int)),
        decreases hrefs@.len() - i,
    {
        let ghost rest = all.skip(i as int);
        assert(rest[0] == opt_string_view(hrefs@[i as int]));
        proof {
            assert(rest.drop_first() =~= all.skip(i + 1));
        }
        match &hrefs[i] {
            Some(u) => {
                if contains(u.as_str(), "imdb") {
                    proof {
                        reveal_strlit("/");
                    }
                    return match split_nth(u.as_str(), "/", 4) {
                        Some(p) => Ok(p),
                        None => Err(message("Mal id not found")),
                    };
                }
            },
            None => {},
        }
        i += 1;
    }
    proof {
        assert(all.skip(i as int) =~= Seq::<Option<Seq<char>>>::empty());
    }
    Ok(String::new())
}

/// Whether every piece of markup loads; the first that does not gives its message.
pub open spec fn all_load_spec(htmls: Seq<Seq<char>>) -> Result<(), ContentErrorView> {
    match collect(htmls, |h: Seq<char>| load_spec(h)) {
        Err(e) => Err(e),
        Ok(_) => Ok(()),
    }
}

fn all_load(htmls: &Vec<String>) -> (r: Result<(), ContentError>)
    ensures
        match r {
            Ok(_) => all_load_spec(strings_view(htmls@)) == Ok::<(), ContentErrorView>(()),
            Err(e) => all_load_spec(strings_view(htmls@)) == Err::<(), ContentErrorView>(e@),
        },
{
    let ghost all = strings_view(htmls@);
    let ghost f = |h: Seq<char>| load_spec(h);
    let ghost mut loaded: Seq<()> = seq![];
    let mut i: usize = 0;
    proof {
        assert(all.take(0) =~= Seq::<Seq<char>>::empty());
    }
    while i < htmls.len()
        invariant
            i <= htmls@.len(),
            all == strings_view(htmls@),
            f == (|h: Seq<char>| load_spec(h)),
            collect(all.take(i as int), f) == Ok::<Seq<()>, ContentErrorView>(loaded),
        decreases htmls@.len() - i,
    {
        proof {
            lemma_collect_step(all, f, i as int);
            assert(all[i as int] == htmls@[i as int]@);
        }
        match check_load(htmls[i].as_str()) {
            Ok(_) => {
                proof {
                    loaded = loaded.push(());
                }
            },
            Err(e) => {
                proof {
                    lemma_collect_err_prefix(all, f, i + 1);
                }
                return Err(e);
            },
        }
        i += 1;
    }
    proof {
        assert(all.take(htmls@.len() as int) =~= all);
    }
    Ok(())
}

/// The episode count of a season row: `None` for a row that heads a season or lists no
/// episode; each episode's markup must load.
pub open spec fn season_count_spec(row: Seq<char>) -> Result<Option<u64>, ContentErrorView> {
    match load_spec(row) {
        Err(e) => Err(e),
        Ok(_) => if clean_spec(dom_text(row, seq![".SimklTVAboutTabsDetailsSeasonHead"@])).len() != 0 {
            Ok(None)
        } else {
            let episodes = dom_inner_htmls(row, seq![".goEpisode"@]);
            match all_load_spec(episodes) {
                Err(e) => Err(e),
                Ok(_) => if episodes.len() == 0 {
                    Ok(None)
                } else {
                    Ok(Some(episodes.len() as u64))
                },
            }
        },
    }
}

fn season_count(row: &str) -> (r: Result<Option<u64>, ContentError>)
    ensures
        match r {
            Ok(c) => season_count_spec(row@) == Ok::<Option<u64>, ContentErrorView>(c),
            Err(e) => season_count_spec(row@) == Err::<Option<u64>, ContentErrorView>(e@),
        },
        r matches Ok(Some(n)) ==> n > 0,
{
    check_load(row)?;
    let head_sels = [".SimklTVAboutTabsDetailsSeasonHead"];
    let ep_sels = [".goEpisode"];
    proof {
        lemma_page_selectors();
        assert(strs_view(head_sels@) =~= seq![".SimklTVAboutTabsDetailsSeasonHead"@]);
        assert(simple_selectors(strs_view(head_sels@)));
        assert(strs_view(ep_sels@) =~= seq![".goEpisode"@]);
        assert(simple_selectors(strs_view(ep_sels@)));
    }
    let head = markup_text(row, &head_sels);
    let head = clean(head.as_str());
    if !head.as_str().is_empty() {
        return Ok(None);
    }
    let episodes = markup_inner_htmls(row, &ep_sels);
    all_load(&episodes)?;
    if episodes.len() == 0 {
        Ok(None)
    } else {
        Ok(Some(episodes.len() as u64))
    }
}

/// The episode counts of the seasons, in order, reading the rows one after another and
/// keeping the rows that list episodes.
pub open spec fn seasons_spec(rows: Seq<Seq<char>>) -> Result<Seq<u64>, ContentErrorView> {
    match collect(rows, |r: Seq<char>| season_count_spec(r)) {
        Err(e) => Err(e),
        Ok(counts) => Ok(present(counts)),
    }
}

fn seasons(rows: &Vec<String>) -> (r: Result<Vec<u64>, ContentError>)
    ensures
        match r {
            Ok(c) => seasons_spec(strings_view(rows@)) == Ok::<Seq<u64>, ContentErrorView>(c@),
            Err(e) => seasons_spec(strings_view(rows@)) == Err::<Seq<u64>, ContentErrorView>(e@),
        },
        r matches Ok(c) ==> forall|i: int| 0 <= i < c@.len() ==> #[trigger] c@[i] > 0,
{
    let ghost all = strings_view(rows@);
    let ghost f = |r: Seq<char>| season_count_spec(r);
    let ghost mut read: Seq<Option<u64>> = seq![];
    let mut counts: Vec<u64> = Vec::new();
    let mut i: usize = 0;
    proof {
        assert(all.take(0) =~= Seq::<Seq<char>>::empty());
        assert(counts@ =~= present(read));
    }
    while i < rows.len()
        invariant
            i <= rows@.len(),
            all == strings_view(rows@),
            f == (|r: Seq<char>| season_count_spec(r)),
            collect(all.take(i as int), f) == Ok::<Seq<Option<u64>>, ContentErrorView>(read),
            counts@ == present(read),
            forall|k: int| 0 <= k < counts@.len() ==> #[trigger] counts@[k] > 0,
        decreases rows@.len() - i,
    {
        proof {
            lemma_collect_step(all, f, i as int);
            assert(all[i as int] == rows@[i as int]@);
        }
        match season_count(rows[i].as_str()) {
            Ok(c) => {
                proof {
                    lemma_present_push(read, c);
                    read = read.push(c);
                }
                match c {
                    Some(n) => counts.push(n),
                    None => {},
                }
            },
            Err(e) => {
                proof {
                    lemma_collect_err_prefix(all, f, i + 1);
                }
                return Err(e);
            },
        }
        i += 1;
    }
    proof {
        assert(all.take(rows@.len() as int) =~= all);
    }
    Ok(counts)
}

/// A show read from its page, before its countdown is known.
#[derive(Debug)]
pub struct ViewShow {
    pub url: String,
    pub title: String,
    pub title_secondary: String,
    pub description: String,
    pub banner_url: String,
    pub thumbnail_url: String,
    pub trailer_url: String,
    pub rating: String,
    pub imdb_id: String,
    pub episodes: Vec<u64>,
}

/// What a `ViewShow` holds.
pub ghost struct ViewShowView {
    pub url: Seq<char>,
    pub title: Seq<char>,
    pub title_secondary: Seq<char>,
    pub description: Seq<char>,
    pub banner_url: Seq<char>,
    pub thumbnail_url: Seq<char>,
    pub trailer_url: Seq<char>,
    pub rating: Seq<char>,
    pub imdb_id: Seq<char>,
    pub episodes: Seq<u64>,
}

impl View for ViewShow {
    type V = ViewShowView;

    open spec fn view(&self) -> ViewShowView {
        ViewShowView {
            url: self.url@,
            title: self.title@,
            title_secondary: self.title_secondary@,
            description: self.description@,
            banner_url: self.banner_url@,
            thumbnail_url: self.thumbnail_url@,
            trailer_url: self.trailer_url@,
            rating: self.rating@,
            imdb_id: self.imdb_id@,
            episodes: self.episodes@,
        }
    }
}

/// The title: the `h2` heading when it has text, else the `h1` heading.
pub open spec fn title_spec(page: Seq<char>) -> Seq<char> {
    let primary = clean_spec(dom_text(page, seq![".SimklTVAboutTitleText"@, "h2.headDetail"@]));
    let secondary = clean_spec(dom_text(page, seq![".SimklTVAboutTitleText"@, "h1.headDetail"@]));
    if primary.len() == 0 {
        secondary
    } else {
        primary
    }
}

/// The description: the full text when there is one, else the whole details text.
pub open spec fn description_spec(page: Seq<char>) -> Seq<char> {
    let full = dom_text(page, seq![".SimklTVAboutDetailsText"@, ".full-text"@]);
    if full.len() == 0 {
        clean_spec(dom_text(page, seq![".SimklTVAboutDetailsText"@]))
    } else {
        clean_spec(full)
    }
}

/// The trailer: the watch link of the embedded YouTube video, or empty.
pub open spec fn trailer_spec(page: Seq<char>) -> Seq<char> {
    match dom_attr(page, seq![".liteYoutube"@], "id"@) {
        Some(v) => "https://www.youtube.com/watch?v="@ + v + "&autoplay=1&vq=highres"@,
        None => seq![],
    }
}

/// The show read from its episodes page.
pub open spec fn show_page_spec(page: Seq<char>, id: Seq<char>) -> Result<ViewShowView, ContentErrorView> {
    match load_spec(page) {
        Err(e) => Err(e),
        Ok(_) => match dom_attr(page, seq![".SimklTVDetailPoster"@, "#detailPosterImg"@], "src"@) {
            None => Err(msg("Thumbnail not found"@)),
            Some(poster) => match show_path(id) {
                Err(e) => Err(e),
                Ok(path) => match imdb_id_spec(dom_attrs(page, seq![".SimklTVAboutRatingBorder"@, "a"@], "href"@)) {
                    Err(e) => Err(e),
                    Ok(imdb) => match seasons_spec(dom_inner_htmls(page, seq![".SimklTVEpisodesBlock"@, "tr"@])) {
                        Err(e) => Err(e),
                        Ok(episodes) => Ok(ViewShowView {
                            url: "https://simkl.com/tv"@ + path,
                            title: title_spec(page),
                            title_secondary: clean_spec(dom_text(page, seq![".SimklTVAboutTitleText"@, "h1.headDetail"@])),
                            description: description_spec(page),
                            banner_url: banner_spec(page),
                            thumbnail_url: "https://wsrv.nl/?url=https:"@ + poster,
                            trailer_url: trailer_spec(page),
                            rating: "Rating: "@ + dom_text(page, seq![".SimklTVAboutRatingBorder"@, ".SimklTVRatingAverage"@]),
                            imdb_id: imdb,
                            episodes: episodes,
                        }),
                    },
                },
            },
        },
    }
}

pub fn show_page(page: &str, id: &str) -> (r: Result<ViewShow, ContentError>)
    ensures
        match r {
            Ok(s) => show_page_spec(page@, id@) == Ok::<ViewShowView, ContentErrorView>(s@),
            Err(e) => show_page_spec(page@, id@) == Err::<ViewShowView, ContentErrorView>(e@),
        },
        // Every season listed has at least one episode.
        r matches Ok(s) ==> forall|i: int| 0 <= i < s.episodes@.len() ==> #[trigger] s.episodes@[i] > 0,
{
    check_load(page)?;
    let banner_url = banner(page);
    let poster_sels = [".SimklTVDetailPoster", "#detailPosterImg"];
    let h2_sels = [".SimklTVAboutTitleText", "h2.headDetail"];
    let h1_sels = [".SimklTVAboutTitleText", "h1.headDetail"];
    let full_sels = [".SimklTVAboutDetailsText", ".full-text"];
    let details_sels = [".SimklTVAboutDetailsText"];
    let video_sels = [".liteYoutube"];
    let rating_sels = [".SimklTVAboutRatingBorder", ".SimklTVRatingAverage"];
    let link_sels = [".SimklTVAboutRatingBorder", "a"];
    let row_sels = [".SimklTVEpisodesBlock", "tr"];
    proof {
        lemma_page_selectors();
        assert(strs_view(poster_sels@) =~= seq![".SimklTVDetailPoster"@, "#detailPosterImg"@]);
        assert(simple_selectors(strs_view(poster_sels@)));
        assert(strs_view(h2_sels@) =~= seq![".SimklTVAboutTitleText"@, "h2.headDetail"@]);
        assert(simple_selectors(strs_view(h2_sels@)));
        assert(strs_view(h1_sels@) =~= seq![".SimklTVAboutTitleText"@, "h1.headDetail"@]);
        assert(simple_selectors(strs_view(h1_sels@)));
        assert(strs_view(full_sels@) =~= seq![".SimklTVAboutDetailsText"@, ".full-text"@]);
        assert(simple_selectors(strs_view(full_sels@)));
        assert(strs_view(details_sels@) =~= seq![".SimklTVAboutDetailsText"@]);
        assert(simple_selectors(strs_view(details_sels@)));
        assert(strs_view(video_sels@) =~= seq![".liteYoutube"@]);
        assert(simple_selectors(strs_view(video_sels@)));
        assert(strs_view(rating_sels@) =~= seq![".SimklTVAboutRatingBorder"@, ".SimklTVRatingAverage"@]);
        assert(simple_selectors(strs_view(rating_sels@)));
        assert(strs_view(link_sels@) =~= seq![".SimklTVAboutRatingBorder"@, "a"@]);
        assert(simple_selectors(strs_view(link_sels@)));
        assert(strs_view(row_sels@) =~= seq![".SimklTVEpisodesBlock"@, "tr"@]);
        assert(simple_selectors(strs_view(row_sels@)));
    }
    let poster = match markup_attr(page, &poster_sels, "src") {
        Some(p) => p,
        None => return Err(message("Thumbnail not found")),
    };
    let thumbnail_url = str_concat("https://wsrv.nl/?url=https:", poster.as_str());
    let path = decoded_path(id)?;
    let url = str_concat("https://simkl.com/tv", path.as_str());
    let primary = markup_text(page, &h2_sels);
    let primary = clean(primary.as_str());
    let secondary = markup_text(page, &h1_sels);
    let secondary = clean(secondary.as_str());
    let title = if primary.as_str().is_empty() { secondary.clone() } else { primary };
    let full = markup_text(page, &full_sels);
    let description = if full.as_str().is_empty() {
        let details = markup_text(page, &details_sels);
        clean(details.as_str())
    } else {
        clean(full.as_str())
    };
    let trailer_url = match markup_attr(page, &video_sels, "id") {
        Some(v) => {
            let t = str_concat("https://www.youtube.com/watch?v=", v.as_str());
            str_concat(t.as_str(), "&autoplay=1&vq=highres")
        },
        None => String::new(),
    };
    let average = markup_text(page, &rating_sels);
    let rating = str_concat("Rating: ", average.as_str());
    let hrefs = markup_attrs(page, &link_sels, "href");
    let imdb = imdb_id(&hrefs)?;
    let rows = markup_inner_htmls(page, &row_sels);
    let episodes = seasons(&rows)?;
    Ok(ViewShow {
        url,
        title,
        title_secondary: secondary,
        description,
        banner_url,
        thumbnail_url,
        trailer_url,
        rating,
        imdb_id: imdb,
        episodes,
    })
}

/// The selector of the countdown description.
pub open spec fn countdown_desc() -> Seq<char> {
    "countdown-content-page-item-left-desc"@
}

/// The markup of each airing entry of the countdown page, when it loads.
pub open spec fn countdown_items_spec(page: Seq<char>) -> Result<Seq<Seq<char>>, ContentErrorView> {
    match load_spec(page) {
        Err(e) => Err(e),
        Ok(_) => Ok(dom_inner_htmls(page, seq![".type-airing"@])),
    }
}

/// The time that one airing entry sets the countdown to: an entry whose description
/// mentions `countdown to` (in any case) gives its `data-ts` time (0 when absent or blank);
/// other entries give none.
pub open spec fn countdown_mark_spec(item: Seq<char>) -> Result<Option<i64>, ContentErrorView> {
    match load_spec(item) {
        Err(e) => Err(e),
        Ok(_) => if !contains_spec(unicode_lowercase(dom_text(item, seq![countdown_desc()])), unicode_lowercase("Countdown to"@)) {
            Ok(None)
        } else {
            match dom_attr(item, seq![countdown_desc(), "span"@], "data-ts"@) {
                None => Ok(Some(0)),
                Some(ts) => if unicode_trim(ts).len() == 0 {
                    Ok(Some(0))
                } else {
                    match std_parse_i64(unicode_trim(ts)) {
                        Some(v) => Ok(Some(v)),
                        None => Err(ContentErrorView::Integer),
                    }
                },
            }
        },
    }
}

/// The last time set among the entries, or -1 when none sets one.
pub open spec fn latest_mark(marks: Seq<Option<i64>>) -> i64
    decreases marks.len(),
{
    if marks.len() == 0 {
        -1i64
    } else {
        match marks.last() {
            Some(t) => t,
            None => latest_mark(marks.drop_last()),
        }
    }
}

/// The countdown after reading the entries in order: the time set by the last entry that
/// sets one, -1 when none does; the first entry that cannot be read stops it.
pub open spec fn countdown_spec(items: Seq<Seq<char>>) -> Result<i64, ContentErrorView> {
    match collect(items, |it: Seq<char>| countdown_mark_spec(it)) {
        Err(e) => Err(e),
        Ok(marks) => Ok(latest_mark(marks)),
    }
}

/// The countdown a whole page gives.
pub open spec fn countdown_page_spec(page: Seq<char>) -> Result<i64, ContentErrorView> {
    match countdown_items_spec(page) {
        Err(e) => Err(e),
        Ok(items) => countdown_spec(items),
    }
}

fn countdown_mark(item: &str) -> (r: Result<Option<i64>, ContentError>)
    ensures
        match r {
            Ok(c) => countdown_mark_spec(item@) == Ok::<Option<i64>, ContentErrorView>(c),
            Err(e) => countdown_mark_spec(item@) == Err::<Option<i64>, ContentErrorView>(e@),
        },
{
    check_load(item)?;
    let desc_sels = ["countdown-content-page-item-left-desc"];
    let span_sels = ["countdown-content-page-item-left-desc", "span"];
    proof {
        lemma_page_selectors();
        assert(strs_view(desc_sels@) =~= seq![countdown_desc()]);
        assert(simple_selectors(strs_view(desc_sels@)));
        assert(strs_view(span_sels@) =~= seq![countdown_desc(), "span"@]);
        assert(simple_selectors(strs_view(span_sels@)));
    }
    let text = markup_text(item, &desc_sels);
    let lower = lowercase(text.as_str());
    let needle = lowercase("Countdown to");
    if !contains(lower.as_str(), needle.as_str()) {
        return Ok(None);
    }
    match markup_attr(item, &span_sels, "data-ts") {
        None => Ok(Some(0)),
        Some(ts) => {
            let t = trim(ts.as_str());
            if t.as_str().is_empty() {
                Ok(Some(0))
            } else {
                match parse_i64(t.as_str()) {
                    Ok(v) => Ok(Some(v)),
                    Err(e) => Err(ContentError::Integer(e)),
                }
            }
        },
    }
}

/// Reads the countdown from the countdown page.
pub fn countdown_page(page: &str) -> (r: Result<i64, ContentError>)
    ensures
        match r {
            Ok(c) => countdown_page_spec(page@) == Ok::<i64, ContentErrorView>(c),
            Err(e) => countdown_page_spec(page@) == Err::<i64, ContentErrorView>(e@),
        },
{
    check_load(page)?;
    let item_sels = [".type-airing"];
    proof {
        lemma_page_selectors();
        assert(strs_view(item_sels@) =~= seq![".type-airing"@]);
        assert(simple_selectors(strs_view(item_sels@)));
    }
    let items = markup_inner_htmls(page, &item_sels);
    let ghost all = strings_view(items@);
    let ghost f = |it: Seq<char>| countdown_mark_spec(it);
    let ghost mut marks: Seq<Option<i64>> = seq![];
    let mut current: i64 = -1;
    let mut i: usize = 0;
    proof {
        assert(all.take(0) =~= Seq::<Seq<char>>::empty());
    }
    while i < items.len()
        invariant
            i <= items@.len(),
            all == strings_view(items@),
            f == (|it: Seq<char>| countdown_mark_spec(it)),
            countdown_page_spec(page@) == countdown_spec(all),
            collect(all.take(i as int), f) == Ok::<Seq<Option<i64>>, ContentErrorView>(marks),
            current == latest_mark(marks),
        decreases items@.len() - i,
    {
        proof {
            lemma_collect_step(all, f, i as int);
            assert(all[i as int] == items@[i as int]@);
        }
        match countdown_mark(items[i].as_str()) {
            Ok(m) => {
                proof {
                    assert(marks.push(m).drop_last() =~= marks);
                    marks = marks.push(m);
                }
                match m {
                    Some(t) => {
                        current = t;
                    },
                    None => {},
                }
            },
            Err(e) => {
                proof {
                    lemma_collect_err_prefix(all, f, i + 1);
                }
                return Err(e);
            },
        }
        i += 1;
    }
    proof {
        assert(all.take(items@.len() as int) =~= all);
    }
    Ok(current)
}

/// The details of a show with its countdown: the context list is `Movies` and the rating;
/// the pictures are the banner and the poster; the IMDb id is known when it is not empty.
pub open spec fn finish_spec(s: ViewShowView, countdown: i64) -> ViewContentInfoView {
    ViewContentInfoView {
        external_id: ExternalIDView {
            mal: None,
            kitsu: None,
            imdb: if s.imdb_id.len() == 0 { None } else { Some(s.imdb_id) },
            tmdb: None,
            thetvdb: None,
        },
        url: s.url,
        title: s.title,
        title_secondary: s.title_secondary,
        thumbnail_url: s.thumbnail_url,
        banner_url: s.banner_url,
        contextual: seq!["Movies"@, s.rating],
        description: s.description,
        trailer_url: s.trailer_url,
        countdown: countdown,
        pictures: seq![s.banner_url, s.thumbnail_url],
        episodes: s.episodes,
    }
}

pub fn finish(s: ViewShow, countdown: i64) -> (r: ViewContentInfo)
    ensures
        r@ == finish_spec(s@, countdown),
{
    let pictures = two_strings(s.banner_url.clone(), s.thumbnail_url.clone());
    let contextual = two_strings(String::from_str("Movies"), s.rating);
    let imdb = if s.imdb_id.as_str().is_empty() { None } else { Some(s.imdb_id) };
    ViewContentInfo {
        external_id: ExternalID { mal: None, kitsu: None, imdb, tmdb: None, thetvdb: None },
        url: s.url,
        title: s.title,
        title_secondary: s.title_secondary,
        thumbnail_url: s.thumbnail_url,
        banner_url: s.banner_url,
        contextual,
        description: s.description,
        trailer_url: s.trailer_url,
        countdown,
        pictures,
        episodes: s.episodes,
    }
}

/// The title of a show is its cleaned `h2` heading when that is not empty, and otherwise its
/// cleaned `h1` heading, which is also the secondary title.
pub proof fn lemma_show_title(page: Seq<char>, id: Seq<char>)
    requires
        show_page_spec(page, id) is Ok,
    ensures
        clean_spec(dom_text(page, seq![".SimklTVAboutTitleText"@, "h2.headDetail"@])).len() == 0
            ==> show_page_spec(page, id)->Ok_0.title
                == clean_spec(dom_text(page, seq![".SimklTVAboutTitleText"@, "h1.headDetail"@])),
        clean_spec(dom_text(page, seq![".SimklTVAboutTitleText"@, "h2.headDetail"@])).len() != 0
            ==> show_page_spec(page, id)->Ok_0.title
                == clean_spec(dom_text(page, seq![".SimklTVAboutTitleText"@, "h2.headDetail"@])),
        show_page_spec(page, id)->Ok_0.title_secondary
            == clean_spec(dom_text(page, seq![".SimklTVAboutTitleText"@, "h1.headDetail"@])),
{
}

/// The description of a show is its cleaned full text when the details block has one, and
/// otherwise the cleaned text of the whole details block.
pub proof fn lemma_show_description(page: Seq<char>, id: Seq<char>)
    requires
        show_page_spec(page, id) is Ok,
    ensures
        dom_text(page, seq![".SimklTVAboutDetailsText"@, ".full-text"@]).len() != 0
            ==> show_page_spec(page, id)->Ok_0.description
                == clean_spec(dom_text(page, seq![".SimklTVAboutDetailsText"@, ".full-text"@])),
        dom_text(page, seq![".SimklTVAboutDetailsText"@, ".full-text"@]).len() == 0
            ==> show_page_spec(page, id)->Ok_0.description
                == clean_spec(dom_text(page, seq![".SimklTVAboutDetailsText"@])),
{
}

/// The details of a show keep what its page gave: the pictures are the banner then the
/// poster, and the IMDb id is known exactly when the page gave a non-empty one.
pub proof fn lemma_show_finish(s: ViewShowView, countdown: i64)
    ensures
        finish_spec(s, countdown).pictures == seq![s.banner_url, s.thumbnail_url],
        finish_spec(s, countdown).external_id.imdb is Some <==> s.imdb_id.len() > 0,
        finish_spec(s, countdown).external_id.imdb is Some ==> finish_spec(s, countdown).external_id.imdb->Some_0 == s.imdb_id,
        finish_spec(s, countdown).episodes == s.episodes,
        finish_spec(s, countdown).countdown == countdown,
{
}

} // verus!
