use vstd::prelude::*;
use crate::error::{ContentError, ContentErrorView, msg, message};
use crate::http::{HttpRequest, HttpRequestView, HttpMethod, pair, pairs2, pairs_view};
use crate::markup::{load_spec, check_load, clean_spec, clean};
use crate::outside::{dom_text, dom_attr, dom_attrs, dom_inner_htmls, opt_string_view, opt_strings_view, strs_view, markup_text, markup_attr, markup_attrs, markup_inner_htmls, simple_selector, simple_selectors, safe_markup};
use crate::search_content::tv::{catalogue_headers, catalogue_header_list};
use crate::text::{str_concat, split_nth_spec, split_first, strings_view};
use crate::view_content::tv::{show_path, imdb_id_spec, imdb_id};

verus! {

/// Everything shown about a show in the earlier layout: the seasons list the titles of their
/// episodes, and the pictures are IMDb stills followed by the poster.
#[derive(Debug)]
pub struct ShowDetails {
    pub url: String,
    pub title: String,
    pub contextual: Vec<String>,
    pub description: String,
    pub trailer_url: String,
    pub thumbnail_url: String,
    pub banner_url: String,
    pub countdown: i64,
    pub pictures: Vec<String>,
    pub episodes: Vec<Vec<String>>,
}

/// What a `ShowDetails` holds.
pub ghost struct ShowDetailsView {
    pub url: Seq<char>,
    pub title: Seq<char>,
    pub contextual: Seq<Seq<char>>,
    pub description: Seq<char>,
    pub trailer_url: Seq<char>,
    pub thumbnail_url: Seq<char>,
    pub banner_url: Seq<char>,
    pub countdown: i64,
    pub pictures: Seq<Seq<char>>,
    pub episodes: Seq<Seq<Seq<char>>>,
}

/// The views of a list of lists of strings.
pub open spec fn nested_strings_view(v: Seq<Vec<String>>) -> Seq<Seq<Seq<char>>> {
    v.map_values(|x: Vec<String>| strings_view(x@))
}

impl View for ShowDetails {
    type V = ShowDetailsView;

    open spec fn view(&self) -> ShowDetailsView {
        ShowDetailsView {
            url: self.url@,
            title: self.title@,
            contextual: strings_view(self.contextual@),
            description: self.description@,
            trailer_url: self.trailer_url@,
            thumbnail_url: self.thumbnail_url@,
            banner_url: self.banner_url@,
            countdown: self.countdown,
            pictures: strings_view(self.pictures@),
            episodes: nested_strings_view(self.episodes@),
        }
    }
}

/// The request for the episodes page of the show `id`, with a browser user agent.
pub open spec fn page_request_spec(id: Seq<char>) -> Result<HttpRequestView, ContentErrorView> {
    match show_path(id) {
        Err(e) => Err(e),
        Ok(path) => Ok(HttpRequestView {
            method: HttpMethod::Get,
            url: "https://simkl.com/tv"@ + path + "/episodes/"@,
            query: seq![],
            headers: catalogue_headers(),
            form: seq![],
            random_user_agent: true,
        }),
    }
}

pub fn page_request(id: &str) -> (r: Result<HttpRequest, ContentError>)
    ensures
        match r {
            Ok(req) => page_request_spec(id@) == Ok::<HttpRequestView, ContentErrorView>(req@),
            Err(e) => page_request_spec(id@) == Err::<HttpRequestView, ContentErrorView>(e@),
        },
        // An id made by percent-encoding a path (as a search makes it) opens that path.
        forall|path: Seq<char>| #[trigger] crate::outside::url_encoded(path) == id@
            ==> r is Ok && r->Ok_0@.url == "https://simkl.com/tv"@ + path + "/episodes/"@,
{
    let path = match crate::outside::url_decode(id) {
        Ok(p) => p,
        Err(e) => return Err(ContentError::Utf8(e)),
    };
    let url = str_concat("https://simkl.com/tv", path.as_str());
    let url = str_concat(url.as_str(), "/episodes/");
    let r = HttpRequest {
        method: HttpMethod::Get,
        url,
        query: Vec::new(),
        headers: catalogue_header_list(),
        form: Vec::new(),
        random_user_agent: true,
    };
    proof {
        crate::http::lemma_no_pairs();
    }
    Ok(r)
}

/// What is read of a show's page before its stills: the page address, poster, title,
/// description, trailer, rating and IMDb id.
#[derive(Debug)]
pub struct ShowHead {
    pub url: String,
    pub thumbnail_url: String,
    pub title: String,
    pub description: String,
    pub trailer_url: String,
    pub rating: String,
    pub imdb_id: String,
}

/// What a `ShowHead` holds.
pub ghost struct ShowHeadView {
    pub url: Seq<char>,
    pub thumbnail_url: Seq<char>,
    pub title: Seq<char>,
    pub description: Seq<char>,
    pub trailer_url: Seq<char>,
    pub rating: Seq<char>,
    pub imdb_id: Seq<char>,
}

impl View for ShowHead {
    type V = ShowHeadView;

    open spec fn view(&self) -> ShowHeadView {
        ShowHeadView {
            url: self.url@,
            thumbnail_url: self.thumbnail_url@,
            title: self.title@,
            description: self.description@,
            trailer_url: self.trailer_url@,
            rating: self.rating@,
            imdb_id: self.imdb_id@,
        }
    }
}

/// The head of a show's page; the embedded trailer must be there.
pub open spec fn show_head_spec(page: Seq<char>, id: Seq<char>) -> Result<ShowHeadView, ContentErrorView> {
    match load_spec(page) {
        Err(e) => Err(e),
        Ok(_) => match dom_attr(page, seq![".SimklTVDetailPoster"@, "#detailPosterImg"@], "src"@) {
            None => Err(msg("Thumbnail not found"@)),
            Some(poster) => match show_path(id) {
                Err(e) => Err(e),
                Ok(path) => match dom_attr(page, seq![".liteYoutube"@], "id"@) {
                    None => Err(msg("Trailer id not found"@)),
                    Some(video) => match imdb_id_spec(dom_attrs(page, seq![".SimklTVAboutRatingBorder"@, "a"@], "href"@)) {
                        Err(e) => Err(e),
                        Ok(imdb) => Ok(ShowHeadView {
                            url: "https://simkl.com/tv"@ + path,
                            thumbnail_url: "https://wsrv.nl/?url=https:"@ + poster,
                            title: clean_spec(dom_text(page, seq![".SimklTVAboutTitleText"@, ".headDetail"@])),
                            description: clean_spec(dom_text(page, seq![".SimklTVAboutDetailsText"@, ".full-text"@])),
                            trailer_url: "https://www.youtube.com/embed/"@ + video + "?autoplay=1&vq=highres"@,
                            rating: "Rating: "@ + dom_text(page, seq![".SimklTVAboutRatingBorder"@, ".SimklTVRatingAverage"@]),
                            imdb_id: imdb,
                        }),
                    },
                },
            },
        },
    }
}

pub fn show_head(page: &str, id: &str) -> (r: Result<ShowHead, ContentError>)
    ensures
        match r {
            Ok(h) => show_head_spec(page@, id@) == Ok::<ShowHeadView, ContentErrorView>(h@),
            Err(e) => show_head_spec(page@, id@) == Err::<ShowHeadView, ContentErrorView>(e@),
        },
{
    check_load(page)?;
    let poster_sels = [".SimklTVDetailPoster", "#detailPosterImg"];
    let title_sels = [".SimklTVAboutTitleText", ".headDetail"];
    let full_sels = [".SimklTVAboutDetailsText", ".full-text"];
    let video_sels = [".liteYoutube"];
    let rating_sels = [".SimklTVAboutRatingBorder", ".SimklTVRatingAverage"];
    let link_sels = [".SimklTVAboutRatingBorder", "a"];
    proof {
        crate::view_content::tv::lemma_page_selectors();
        assert(strs_view(poster_sels@) =~= seq![".SimklTVDetailPoster"@, "#detailPosterImg"@]);
        assert(simple_selectors(strs_view(poster_sels@)));
        assert(strs_view(title_sels@) =~= seq![".SimklTVAboutTitleText"@, ".headDetail"@]);
        assert(simple_selectors(strs_view(title_sels@)));
        assert(strs_view(full_sels@) =~= seq![".SimklTVAboutDetailsText"@, ".full-text"@]);
        assert(simple_selectors(strs_view(full_sels@)));
        assert(strs_view(video_sels@) =~= seq![".liteYoutube"@]);
        assert(simple_selectors(strs_view(video_sels@)));
        assert(strs_view(rating_sels@) =~= seq![".SimklTVAboutRatingBorder"@, ".SimklTVRatingAverage"@]);
        assert(simple_selectors(strs_view(rating_sels@)));
        assert(strs_view(link_sels@) =~= seq![".SimklTVAboutRatingBorder"@, "a"@]);
        assert(simple_selectors(strs_view(link_sels@)));
    }
    let poster = match markup_attr(page, &poster_sels, "src") {
        Some(p) => p,
        None => return Err(message("Thumbnail not found")),
    };
    let thumbnail_url = str_concat("https://wsrv.nl/?url=https:", poster.as_str());
    let path = match crate::outside::url_decode(id) {
        Ok(p) => p,
        Err(e) => return Err(ContentError::Utf8(e)),
    };
    let url = str_concat("https://simkl.com/tv", path.as_str());
    let raw_title = markup_text(page, &title_sels);
    let title = clean(raw_title.as_str());
    let raw_description = markup_text(page, &full_sels);
    let description = clean(raw_description.as_str());
    let video = match markup_attr(page, &video_sels, "id") {
        Some(v) => v,
        None => return Err(message("Trailer id not found")),
    };
    let trailer = str_concat("https://www.youtube.com/embed/", video.as_str());
    let trailer_url = str_concat(trailer.as_str(), "?autoplay=1&vq=highres");
    let average = markup_text(page, &rating_sels);
    let rating = str_concat("Rating: ", average.as_str());
    let hrefs = markup_attrs(page, &link_sels, "href");
    let imdb = imdb_id(&hrefs)?;
    Ok(ShowHead { url, thumbnail_url, title, description, trailer_url, rating, imdb_id: imdb })
}

/// The headers of a request to IMDb besides a browser user agent.
pub open spec fn imdb_headers() -> Seq<(Seq<char>, Seq<char>)> {
    seq![("origin"@, "https://www.imdb.com"@), ("referer"@, "https://www.imdb.com/"@)]
}

/// The request for the still frames of the IMDb title `imdb`.
pub open spec fn stills_request_spec(imdb: Seq<char>) -> HttpRequestView {
    HttpRequestView {
        method: HttpMethod::Get,
        url: "https://www.imdb.com/title/"@ + imdb + "/mediaindex/?contentTypes=still_frame"@,
        query: seq![],
        headers: imdb_headers(),
        form: seq![],
        random_user_agent: true,
    }
}

/// The stills request to make: one exactly when the IMDb id is known (not empty).
pub fn stills_request(h: &ShowHead) -> (r: Option<HttpRequest>)
    ensures
        if h@.imdb_id.len() == 0 {
            r is None
        } else {
            r matches Some(req) && req@ == stills_request_spec(h@.imdb_id)
        },
{
    if h.imdb_id.as_str().is_empty() {
        return None;
    }
    let url = str_concat("https://www.imdb.com/title/", h.imdb_id.as_str());
    let url = str_concat(url.as_str(), "/mediaindex/?contentTypes=still_frame");
    let r = HttpRequest {
        method: HttpMethod::Get,
        url,
        query: Vec::new(),
        headers: pairs2(pair("origin", "https://www.imdb.com"), pair("referer", "https://www.imdb.com/")),
        form: Vec::new(),
        random_user_agent: true,
    };
    proof {
        crate::http::lemma_no_pairs();
    }
    Some(r)
}

/// The full-size address of a still: the address up to `_V1_`, then `_V1_.jpg`.
pub open spec fn full_size_spec(src: Seq<char>) -> Seq<char> {
    match split_nth_spec(src, "_V1_"@, 0) {
        Some(p) => p + "_V1_.jpg"@,
        None => seq![],
    }
}

/// The full-size addresses of the images that have a `src`, in order.
pub open spec fn stills_of(srcs: Seq<Option<Seq<char>>>) -> Seq<Seq<char>>
    decreases srcs.len(),
{
    if srcs.len() == 0 {
        seq![]
    } else {
        match srcs.last() {
            Some(s) => stills_of(srcs.drop_last()).push(full_size_spec(s)),
            None => stills_of(srcs.drop_last()),
        }
    }
}

/// The stills of an IMDb media page.
pub open spec fn stills_spec(page: Seq<char>) -> Result<Seq<Seq<char>>, ContentErrorView> {
    match load_spec(page) {
        Err(e) => Err(e),
        Ok(_) => Ok(stills_of(dom_attrs(page, seq![".ipc-page-section"@, ".TlTHB"@, ".ipc-media"@, ".ipc-image"@], "src"@))),
    }
}

pub fn stills(page: &str) -> (r: Result<Vec<String>, ContentError>)
    ensures
        match r {
            Ok(v) => stills_spec(page@) == Ok::<Seq<Seq<char>>, ContentErrorView>(strings_view(v@)),
            Err(e) => stills_spec(page@) == Err::<Seq<Seq<char>>, ContentErrorView>(e@),
        },
{
    check_load(page)?;
    let sels = [".ipc-page-section", ".TlTHB", ".ipc-media", ".ipc-image"];
    proof {
        crate::view_content::tv::lemma_page_selectors();
        assert(strs_view(sels@) =~= seq![".ipc-page-section"@, ".TlTHB"@, ".ipc-media"@, ".ipc-image"@]);
        assert(simple_selectors(strs_view(sels@)));
    }
    let srcs = markup_attrs(page, &sels, "src");
    let ghost all = opt_strings_view(srcs@);
    let mut out: Vec<String> = Vec::new();
    let mut i: usize = 0;
    proof {
        assert(all.take(0) =~= Seq::<Option<Seq<char>>>::empty());
        assert(strings_view(out@) =~= Seq::<Seq<char>>::empty());
    }
    while i < srcs.len()
        invariant
            i <= srcs@.len(),
            all == opt_strings_view(srcs@),
            stills_spec(page@) == Ok::<Seq<Seq<char>>, ContentErrorView>(stills_of(all)),
            strings_view(out@) == stills_of(all.take(i as int)),
        decreases srcs@.len() - i,
    {
        proof {
            assert(all.take(i + 1).drop_last() =~= all.take(i as int));
            assert(all.take(i + 1).last() == opt_string_view(srcs@[i as int]));
        }
        match &srcs[i] {
            Some(src) => {
                proof {
                    reveal_strlit("_V1_");
                }
                let head = split_first(src.as_str(), "_V1_");
                let full = str_concat(head.as_str(), "_V1_.jpg");
                let ghost before = strings_view(out@);
                out.push(full);
                proof {
                    assert(strings_view(out@) =~= before.push(full@));
                }
            },
            None => {},
        }
        i += 1;
    }
    proof {
        assert(all.take(srcs@.len() as int) =~= all);
    }
    Ok(out)
}

/// The title of an episode: its number and title, each as shown, joined by `: `.
pub open spec fn episode_title_spec(ep: Seq<char>) -> Result<Seq<char>, ContentErrorView> {
    match load_spec(ep) {
        Err(e) => Err(e),
        Ok(_) => Ok(clean_spec(dom_text(ep, seq![".SimklTVEpisodesEpNumber"@])) + ": "@ + clean_spec(dom_text(ep, seq![".SimklTVEpisodesEpTitle"@]))),
    }
}

fn episode_title(ep: &str) -> (r: Result<String, ContentError>)
    ensures
        match r {
            Ok(t) => episode_title_spec(ep@) == Ok::<Seq<char>, ContentErrorView>(t@),
            Err(e) => episode_title_spec(ep@) == Err::<Seq<char>, ContentErrorView>(e@),
        },
{
    check_load(ep)?;
    let number_sels = [".SimklTVEpisodesEpNumber"];
    let title_sels = [".SimklTVEpisodesEpTitle"];
    proof {
        crate::view_content::tv::lemma_page_selectors();
        assert(strs_view(number_sels@) =~= seq![".SimklTVEpisodesEpNumber"@]);
        assert(simple_selectors(strs_view(number_sels@)));
        assert(strs_view(title_sels@) =~= seq![".SimklTVEpisodesEpTitle"@]);
        assert(simple_selectors(strs_view(title_sels@)));
    }
    let number = markup_text(ep, &number_sels);
    let number = clean(number.as_str());
    let title = markup_text(ep, &title_sels);
    let title = clean(title.as_str());
    let t = str_concat(number.as_str(), ": ");
    Ok(str_concat(t.as_str(), title.as_str()))
}

/// The episode titles of a list of episodes, in order; the first that does not load stops it.
pub open spec fn episode_titles_spec(eps: Seq<Seq<char>>) -> Result<Seq<Seq<char>>, ContentErrorView> {
    crate::error::collect(eps, |e: Seq<char>| episode_title_spec(e))
}

fn episode_titles(eps: &Vec<String>) -> (r: Result<Vec<String>, ContentError>)
    ensures
        match r {
            Ok(v) => episode_titles_spec(strings_view(eps@)) == Ok::<Seq<Seq<char>>, ContentErrorView>(strings_view(v@)),
            Err(e) => episode_titles_spec(strings_view(eps@)) == Err::<Seq<Seq<char>>, ContentErrorView>(e@),
        },
{
    let ghost all = strings_view(eps@);
    let ghost f = |e: Seq<char>| episode_title_spec(e);
    let mut out: Vec<String> = Vec::new();
    let mut i: usize = 0;
    proof {
        assert(all.take(0) =~= Seq::<Seq<char>>::empty());
        assert(strings_view(out@) =~= Seq::<Seq<char>>::empty());
    }
    while i < eps.len()
        invariant
            i <= eps@.len(),
            all == strings_view(eps@),
            f == (|e: Seq<char>| episode_title_spec(e)),
            crate::error::collect(all.take(i as int), f) == Ok::<Seq<Seq<char>>, ContentErrorView>(strings_view(out@)),
        decreases eps@.len() - i,
    {
        proof {
            crate::error::lemma_collect_step(all, f, i as int);
            assert(all[i as int] == eps@[i as int]@);
        }
        match episode_title(eps[i].as_str()) {
            Ok(t) => {
                let ghost before = strings_view(out@);
                out.push(t);
                proof {
                    assert(strings_view(out@) =~= before.push(t@));
                }
            },
            Err(e) => {
                proof {
                    crate::error::lemma_collect_err_prefix(all, f, i + 1);
                }
                return Err(e);
            },
        }
        i += 1;
    }
    proof {
        assert(all.take(eps@.len() as int) =~= all);
    }
    Ok(out)
}

/// The episode titles of a season row: `None` for a row that heads a season or lists no
/// episode.
pub open spec fn season_titles_spec(row: Seq<char>) -> Result<Option<Seq<Seq<char>>>, ContentErrorView> {
    match load_spec(row) {
        Err(e) => Err(e),
        Ok(_) => if clean_spec(dom_text(row, seq![".SimklTVAboutTabsDetailsSeasonHead"@])).len() != 0 {
            Ok(None)
        } else {
            match episode_titles_spec(dom_inner_htmls(row, seq![".goEpisode"@])) {
                Err(e) => Err(e),
                Ok(titles) => if titles.len() == 0 {
                    Ok(None)
                } else {
                    Ok(Some(titles))
                },
            }
        },
    }
}

fn season_titles(row: &str) -> (r: Result<Option<Vec<String>>, ContentError>)
    ensures
        match r {
            Ok(Some(v)) => season_titles_spec(row@) == Ok::<Option<Seq<Seq<char>>>, ContentErrorView>(Some(strings_view(v@))),
            Ok(None) => season_titles_spec(row@) == Ok::<Option<Seq<Seq<char>>>, ContentErrorView>(None),
            Err(e) => season_titles_spec(row@) == Err::<Option<Seq<Seq<char>>>, ContentErrorView>(e@),
        },
{
    check_load(row)?;
    let head_sels = [".SimklTVAboutTabsDetailsSeasonHead"];
    let ep_sels = [".goEpisode"];
    proof {
        crate::view_content::tv::lemma_page_selectors();
        assert(strs_view(head_sels@) =~= seq![".SimklTVAboutTabsDetailsSeasonHead"@]);
        assert(simple_selectors(strs_view(head_sels@)));
        assert(strs_view(ep_sels@) =~= seq![".goEpisode"@]);
        assert(simple_selectors(strs_view(ep_sels@)));
    }
    let head = markup_text(row, &head_sels);
    let head = clean(head.as_str());
    if !head.as_str().is_empty() {
        return Ok(None);
    }
    let eps = markup_inner_htmls(row, &ep_sels);
    let titles = episode_titles(&eps)?;
    if titles.len() == 0 {
        Ok(None)
    } else {
        Ok(Some(titles))
    }
}

/// The episode titles of each season, in order, reading the rows one after another and
/// keeping the rows that list episodes.
pub open spec fn seasons_titles_spec(rows: Seq<Seq<char>>) -> Result<Seq<Seq<Seq<char>>>, ContentErrorView> {
    match crate::error::collect(rows, |r: Seq<char>| season_titles_spec(r)) {
        Err(e) => Err(e),
        Ok(seasons) => Ok(crate::error::present(seasons)),
    }
}

/// The episode titles of each season of a show's page.
pub open spec fn page_episodes_spec(page: Seq<char>) -> Result<Seq<Seq<Seq<char>>>, ContentErrorView> {
    seasons_titles_spec(dom_inner_htmls(page, seq![".SimklTVEpisodesBlock"@, "tr"@]))
}

pub fn page_episodes(page: &str) -> (r: Result<Vec<Vec<String>>, ContentError>)
    requires
        safe_markup(page@),
    ensures
        match r {
            Ok(v) => page_episodes_spec(page@) == Ok::<Seq<Seq<Seq<char>>>, ContentErrorView>(nested_strings_view(v@)),
            Err(e) => page_episodes_spec(page@) == Err::<Seq<Seq<Seq<char>>>, ContentErrorView>(e@),
        },
{
    let row_sels = [".SimklTVEpisodesBlock", "tr"];
    proof {
        crate::view_content::tv::lemma_page_selectors();
        assert(strs_view(row_sels@) =~= seq![".SimklTVEpisodesBlock"@, "tr"@]);
        assert(simple_selectors(strs_view(row_sels@)));
    }
    let rows = markup_inner_htmls(page, &row_sels);
    let ghost all = strings_view(rows@);
    let ghost f = |r: Seq<char>| season_titles_spec(r);
    let ghost mut read: Seq<Option<Seq<Seq<char>>>> = seq![];
    let mut out: Vec<Vec<String>> = Vec::new();
    let mut i: usize = 0;
    proof {
        assert(all.take(0) =~= Seq::<Seq<char>>::empty());
        assert(nested_strings_view(out@) =~= crate::error::present(read));
    }
    while i < rows.len()
        invariant
            i <= rows@.len(),
            all == strings_view(rows@),
            f == (|r: Seq<char>| season_titles_spec(r)),
            page_episodes_spec(page@) == seasons_titles_spec(all),
            crate::error::collect(all.take(i as int), f) == Ok::<Seq<Option<Seq<Seq<char>>>>, ContentErrorView>(read),
            nested_strings_view(out@) == crate::error::present(read),
        decreases rows@.len() - i,
    {
        proof {
            crate::error::lemma_collect_step(all, f, i as int);
            assert(all[i as int] == rows@[i as int]@);
        }
        match season_titles(rows[i].as_str()) {
            Ok(Some(t)) => {
                let ghost before = nested_strings_view(out@);
                let ghost tv = strings_view(t@);
                out.push(t);
                proof {
                    crate::error::lemma_present_push(read, Some(tv));
                    read = read.push(Some(tv));
                    assert(nested_strings_view(out@) =~= before.push(tv));
                }
            },
            Ok(None) => {
                proof {
                    crate::error::lemma_present_push(read, None);
                    read = read.push(None);
                }
            },
            Err(e) => {
                proof {
                    crate::error::lemma_collect_err_prefix(all, f, i + 1);
                }
                return Err(e);
            },
        }
        i += 1;
    }
    proof {
        assert(all.take(rows@.len() as int) =~= all);
    }
    Ok(out)
}

/// The details of a show: the pictures are the stills then the poster, and the banner is
/// the first picture.
pub open spec fn finish_spec(h: ShowHeadView, stills: Seq<Seq<char>>, episodes: Seq<Seq<Seq<char>>>, countdown: i64) -> ShowDetailsView {
    ShowDetailsView {
        url: h.url,
        title: h.title,
        contextual: seq!["Movies"@, h.rating],
        description: h.description,
        trailer_url: h.trailer_url,
        thumbnail_url: h.thumbnail_url,
        banner_url: stills.push(h.thumbnail_url)[0],
        countdown: countdown,
        pictures: stills.push(h.thumbnail_url),
        episodes: episodes,
    }
}

pub fn finish(h: ShowHead, stills: Vec<String>, episodes: Vec<Vec<String>>, countdown: i64) -> (r: ShowDetails)
    ensures
        r@ == finish_spec(h@, strings_view(stills@), nested_strings_view(episodes@), countdown),
{
    let mut pictures = stills;
    let ghost before = strings_view(pictures@);
    pictures.push(h.thumbnail_url.clone());
    proof {
        assert(strings_view(pictures@) =~= before.push(h@.thumbnail_url));
    }
    let banner_url = pictures[0].clone();
    let contextual = crate::view_content::two_strings(String::from_str("Movies"), h.rating);
    ShowDetails {
        url: h.url,
        title: h.title,
        contextual,
        description: h.description,
        trailer_url: h.trailer_url,
        thumbnail_url: h.thumbnail_url,
        banner_url,
        countdown,
        pictures,
        episodes,
    }
}

proof fn lemma_stills_of_present(srcs: Seq<Option<Seq<char>>>)
    ensures
        stills_of(srcs) == crate::error::present(srcs).map_values(|s: Seq<char>| full_size_spec(s)),
    decreases srcs.len(),
{
    if srcs.len() > 0 {
        lemma_stills_of_present(srcs.drop_last());
        assert(stills_of(srcs) =~= crate::error::present(srcs).map_values(|s: Seq<char>| full_size_spec(s)));
    }
}

/// The stills keep the document order of the images: there is one still for each image
/// that has a `src`, and the `i`-th still is the full-size address of the `i`-th such `src`.
pub proof fn lemma_stills_in_page_order(page: Seq<char>)
    requires
        stills_spec(page) is Ok,
    ensures
        stills_spec(page)->Ok_0.len()
            == crate::error::present(dom_attrs(page, seq![".ipc-page-section"@, ".TlTHB"@, ".ipc-media"@, ".ipc-image"@], "src"@)).len(),
        forall|i: int| 0 <= i < stills_spec(page)->Ok_0.len() ==> #[trigger] stills_spec(page)->Ok_0[i]
            == full_size_spec(crate::error::present(dom_attrs(page, seq![".ipc-page-section"@, ".TlTHB"@, ".ipc-media"@, ".ipc-image"@], "src"@))[i]),
{
    lemma_stills_of_present(dom_attrs(page, seq![".ipc-page-section"@, ".TlTHB"@, ".ipc-media"@, ".ipc-image"@], "src"@));
}

/// The pictures of a show are its stills in order followed by its poster, and the banner is
/// the first still, or the poster when there is no still.
pub proof fn lemma_pictures_and_banner(h: ShowHeadView, stills: Seq<Seq<char>>, episodes: Seq<Seq<Seq<char>>>, countdown: i64)
    ensures
        finish_spec(h, stills, episodes, countdown).pictures.len() == stills.len() + 1,
        forall|i: int| 0 <= i < stills.len() ==> #[trigger] finish_spec(h, stills, episodes, countdown).pictures[i] == stills[i],
        finish_spec(h, stills, episodes, countdown).pictures[stills.len() as int] == h.thumbnail_url,
        stills.len() > 0 ==> finish_spec(h, stills, episodes, countdown).banner_url == stills[0],
        stills.len() == 0 ==> finish_spec(h, stills, episodes, countdown).banner_url == h.thumbnail_url,
{
}

} // verus!
