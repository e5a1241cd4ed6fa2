use vstd::prelude::*;
use crate::error::{ContentError, ContentErrorView, msg, message, result_view};
use crate::fields::{str_field, str_or_empty_field, number_field, opt_str, opt_bool, nested, get_str, get_str_or_empty, get_number, get_opt_str, get_opt_bool, get_nested};
use crate::global_types::Source;
use crate::http::{HttpRequest, HttpRequestView, HttpMethod, pair, pairs2, get_request, tmdb_header_list, tmdb_headers};
use crate::json::Json;
use crate::outside::{unicode_uppercase, uppercase};
use crate::search_content::movie::tmdb_image_base;
use crate::text::{str_concat, strings_view};
use super::{ViewContentInfo, ViewContentInfoView, ExternalID, ExternalIDView, two_strings, one_number};

verus! {

/// The request for the details of the movie `id`, with its videos and external ids.
pub open spec fn view_request_spec(token: Seq<char>, id: Seq<char>) -> HttpRequestView {
    HttpRequestView {
        method: HttpMethod::Get,
        url: "https://api.themoviedb.org/3/movie/"@ + id,
        query: seq![("language"@, "en-US"@), ("append_to_response"@, "videos,external_ids"@)],
        headers: tmdb_headers(token),
        form: seq![],
        random_user_agent: false,
    }
}

pub fn view_request(token: &str, id: &str) -> (r: HttpRequest)
    ensures
        r@ == view_request_spec(token@, id@),
{
    let query = pairs2(pair("language", "en-US"), pair("append_to_response", "videos,external_ids"));
    get_request(str_concat("https://api.themoviedb.org/3/movie/", id), query, tmdb_header_list(token))
}

/// Whether a video is an official YouTube trailer.
pub open spec fn is_official_trailer(v: Json) -> bool {
    opt_str(v, "site"@) == Some("YouTube"@) && opt_str(v, "type"@) == Some("Trailer"@) && opt_bool(v, "official"@) == Some(true)
}

/// The first official YouTube trailer among `videos`.
pub open spec fn first_official_trailer(videos: Seq<Json>) -> Option<Json>
    decreases videos.len(),
{
    if videos.len() == 0 {
        None
    } else if is_official_trailer(videos[0]) {
        Some(videos[0])
    } else {
        first_official_trailer(videos.drop_first())
    }
}

/// The watch link of a video's `key`, or empty when it has none.
pub open spec fn youtube_link(v: Json) -> Seq<char> {
    match opt_str(v, "key"@) {
        Some(k) => "https://www.youtube.com/watch?v="@ + k,
        None => seq![],
    }
}

/// The trailer: the first official YouTube trailer, else the first video, else nothing.
pub open spec fn trailer_spec(videos: Seq<Json>) -> Seq<char> {
    match first_official_trailer(videos) {
        Some(v) => youtube_link(v),
        None => if videos.len() > 0 {
            youtube_link(videos[0])
        } else {
            seq![]
        },
    }
}

fn is_official(v: &Json) -> (r: bool)
    ensures
        r == is_official_trailer(*v),
{
    let site = get_opt_str(v, "site");
    let kind = get_opt_str(v, "type");
    let official = get_opt_bool(v, "official");
    let site_ok = match site {
        Some(s) => crate::text::str_eq(s, "YouTube"),
        None => false,
    };
    let kind_ok = match kind {
        Some(s) => crate::text::str_eq(s, "Trailer"),
        None => false,
    };
    let official_ok = match official {
        Some(b) => b,
        None => false,
    };
    site_ok && kind_ok && official_ok
}

fn link_of(v: &Json) -> (r: String)
    ensures
        r@ == youtube_link(*v),
{
    match get_opt_str(v, "key") {
        Some(k) => str_concat("https://www.youtube.com/watch?v=", k),
        None => String::new(),
    }
}

/// Picks the trailer link among the videos.
pub fn trailer(videos: &Vec<Json>) -> (r: String)
    ensures
        r@ == trailer_spec(videos@),
{
    let mut i: usize = 0;
    proof {
        assert(videos@.skip(0) =~= videos@);
    }
    while i < videos.len()
        invariant
            i <= videos@.len(),
            first_official_trailer(videos@) == first_official_trailer(videos@.skip(i as int)),
        decreases videos@.len() - i,
    {
        let ghost rest = videos@.skip(i as int);
        assert(rest[0] == videos@[i as int]);
        if is_official(&videos[i]) {
            return link_of(&videos[i]);
        }
        proof {
            assert(rest.drop_first() =~= videos@.skip(i + 1));
        }
        i += 1;
    }
    proof {
        assert(videos@.skip(i as int) =~= Seq::<Json>::empty());
    }
    if videos.len() > 0 {
        link_of(&videos[0])
    } else {
        String::new()
    }
}

/// A movie read from the response, before its rating is written: `vote_average` holds the
/// text of the rating number.
#[derive(Debug)]
pub struct ViewMovie {
    pub url: String,
    pub title: String,
    pub title_secondary: String,
    pub description: String,
    pub banner_url: String,
    pub thumbnail_url: String,
    pub vote_average: String,
    pub language: String,
    pub trailer_url: String,
    pub imdb_id: String,
    pub tmdb_id: String,
}

/// What a `ViewMovie` holds.
pub ghost struct ViewMovieView {
    pub url: Seq<char>,
    pub title: Seq<char>,
    pub title_secondary: Seq<char>,
    pub description: Seq<char>,
    pub banner_url: Seq<char>,
    pub thumbnail_url: Seq<char>,
    pub vote_average: Seq<char>,
    pub language: Seq<char>,
    pub trailer_url: Seq<char>,
    pub imdb_id: Seq<char>,
    pub tmdb_id: Seq<char>,
}

impl View for ViewMovie {
    type V = ViewMovieView;

    open spec fn view(&self) -> ViewMovieView {
        ViewMovieView {
            url: self.url@,
            title: self.title@,
            title_secondary: self.title_secondary@,
            description: self.description@,
            banner_url: self.banner_url@,
            thumbnail_url: self.thumbnail_url@,
            vote_average: self.vote_average@,
            language: self.language@,
            trailer_url: self.trailer_url@,
            imdb_id: self.imdb_id@,
            tmdb_id: self.tmdb_id@,
        }
    }
}

/// The page of a title on the movie database's site.
pub open spec fn page_url_spec(source: Source, id: Seq<char>) -> Seq<char> {
    "https://www.themoviedb.org/"@ + source.name() + "/"@ + id
}

/// The videos: `videos.results`, which must be an array.
pub open spec fn videos_spec(item: Json) -> Result<Seq<Json>, ContentErrorView> {
    match nested(item, "videos"@, "results"@) {
        None => Err(msg("videos not exist"@)),
        Some(v) => match v.array_spec() {
            Some(a) => Ok(a),
            None => Err(msg("videos not an array"@)),
        },
    }
}

/// The IMDb id: `external_ids.imdb_id`, which must be a string.
pub open spec fn imdb_spec(item: Json) -> Result<Seq<char>, ContentErrorView> {
    match nested(item, "external_ids"@, "imdb_id"@) {
        None => Err(msg("imdb_id not exist"@)),
        Some(v) => match v.str_spec() {
            Some(s) => Ok(s),
            None => Err(msg("imdb_id not a string"@)),
        },
    }
}

/// The details of the movie `id` of kind `source`, read from the response.
pub open spec fn view_item_spec(res: Json, source: Source, id: Seq<char>) -> Result<ViewMovieView, ContentErrorView> {
    if !res.is_object() {
        Err(msg("results not an object"@))
    } else {
        match str_field(res, "original_title"@, "title not exist"@, "title not a string"@) {
            Err(e) => Err(e),
            Ok(title) => match str_field(res, "title"@, "title not exist"@, "title not a string"@) {
                Err(e) => Err(e),
                Ok(secondary) => match str_field(res, "overview"@, "overview not exist"@, "overview not a string"@) {
                    Err(e) => Err(e),
                    Ok(overview) => match str_or_empty_field(res, "backdrop_path"@, "backdrop_path not exist"@) {
                        Err(e) => Err(e),
                        Ok(backdrop) => match str_or_empty_field(res, "poster_path"@, "bposter_path not exist"@) {
                            Err(e) => Err(e),
                            Ok(poster) => match number_field(res, "vote_average"@, "vote_average not exist"@, "vote_average not a number"@) {
                                Err(e) => Err(e),
                                Ok(vote) => match str_field(res, "original_language"@, "original_language not exist"@, "original_language not a string"@) {
                                    Err(e) => Err(e),
                                    Ok(language) => match videos_spec(res) {
                                        Err(e) => Err(e),
                                        Ok(videos) => match imdb_spec(res) {
                                            Err(e) => Err(e),
                                            Ok(imdb) => Ok(ViewMovieView {
                                                url: page_url_spec(source, id),
                                                title: title,
                                                title_secondary: secondary,
                                                description: overview,
                                                banner_url: tmdb_image_base() + backdrop,
                                                thumbnail_url: tmdb_image_base() + poster,
                                                vote_average: vote.text@,
                                                language: unicode_uppercase(language),
                                                trailer_url: trailer_spec(videos),
                                                imdb_id: imdb,
                                                tmdb_id: id,
                                            }),
                                        },
                                    },
                                },
                            },
                        },
                    },
                },
            },
        }
    }
}

/// Reads the details of a movie.
pub fn view_item(res: &Json, source: &Source, id: &str) -> (r: Result<ViewMovie, ContentError>)
    ensures
        result_view(r) == view_item_spec(*res, *source, id@),
{
    match res {
        Json::Object(_) => {},
        _ => return Err(message("results not an object")),
    }
    let title = get_str(res, "original_title", "title not exist", "title not a string")?;
    let secondary = get_str(res, "title", "title not exist", "title not a string")?;
    let overview = get_str(res, "overview", "overview not exist", "overview not a string")?;
    let backdrop = get_str_or_empty(res, "backdrop_path", "backdrop_path not exist")?;
    let poster = get_str_or_empty(res, "poster_path", "bposter_path not exist")?;
    let vote = get_number(res, "vote_average", "vote_average not exist", "vote_average not a number")?;
    let language = get_str(res, "original_language", "original_language not exist", "original_language not a string")?;
    let videos = match get_nested(res, "videos", "results") {
        None => return Err(message("videos not exist")),
        Some(v) => match v.as_array() {
            Some(a) => a,
            None => return Err(message("videos not an array")),
        },
    };
    let trailer_url = trailer(videos);
    let page = str_concat("https://www.themoviedb.org/", source.to_string().as_str());
    let page = str_concat(page.as_str(), "/");
    let url = str_concat(page.as_str(), id);
    let imdb = match get_nested(res, "external_ids", "imdb_id") {
        None => return Err(message("imdb_id not exist")),
        Some(v) => match v.as_str() {
            Some(s) => s,
            None => return Err(message("imdb_id not a string")),
        },
    };
    Ok(ViewMovie {
        url,
        title: title.to_string(),
        title_secondary: secondary.to_string(),
        description: overview.to_string(),
        banner_url: str_concat("https://image.tmdb.org/t/p/original", backdrop),
        thumbnail_url: str_concat("https://image.tmdb.org/t/p/original", poster),
        vote_average: vote.text.clone(),
        language: uppercase(language),
        trailer_url,
        imdb_id: imdb.to_string(),
        tmdb_id: id.to_string(),
    })
}

/// The details of a movie with its rating written as `rating`: the context list is
/// `Movie`, the rating and the language; the pictures are the poster and the banner.
pub open spec fn finish_spec(m: ViewMovieView, rating: Seq<char>) -> ViewContentInfoView {
    ViewContentInfoView {
        external_id: ExternalIDView { mal: None, kitsu: None, imdb: Some(m.imdb_id), tmdb: Some(m.tmdb_id), thetvdb: None },
        url: m.url,
        title: m.title,
        title_secondary: m.title_secondary,
        thumbnail_url: m.thumbnail_url,
        banner_url: m.banner_url,
        contextual: seq!["Movie"@, "Rating: "@ + rating, m.language],
        description: m.description,
        trailer_url: m.trailer_url,
        countdown: -1i64,
        pictures: seq![m.thumbnail_url, m.banner_url],
        episodes: seq![1u64],
    }
}

/// Writes the rating of a movie (the rounded `vote_average`) and completes its details.
pub fn finish(m: ViewMovie, rating: &str) -> (r: ViewContentInfo)
    ensures
        r@ == finish_spec(m@, rating@),
{
    let mut contextual: Vec<String> = Vec::new();
    contextual.push(String::from_str("Movie"));
    contextual.push(str_concat("Rating: ", rating));
    contextual.push(m.language);
    proof {
        assert(strings_view(contextual@) =~= seq!["Movie"@, "Rating: "@ + rating@, m@.language]);
    }
    let pictures = two_strings(m.thumbnail_url.clone(), m.banner_url.clone());
    ViewContentInfo {
        external_id: ExternalID { mal: None, kitsu: None, imdb: Some(m.imdb_id), tmdb: Some(m.tmdb_id), thetvdb: None },
        url: m.url,
        title: m.title,
        title_secondary: m.title_secondary,
        thumbnail_url: m.thumbnail_url,
        banner_url: m.banner_url,
        contextual,
        description: m.description,
        trailer_url: m.trailer_url,
        countdown: -1,
        pictures,
        episodes: one_number(1),
    }
}

proof fn lemma_first_official(videos: Seq<Json>)
    ensures
        (forall|j: int| 0 <= j < videos.len() ==> !is_official_trailer(#[trigger] videos[j]))
            ==> first_official_trailer(videos) is None,
        forall|k: int| 0 <= k < videos.len() && is_official_trailer(#[trigger] videos[k])
            && (forall|j: int| 0 <= j < k ==> !is_official_trailer(#[trigger] videos[j]))
            ==> first_official_trailer(videos) == Some(videos[k]),
    decreases videos.len(),
{
    if videos.len() > 0 {
        lemma_first_official(videos.drop_first());
        assert forall|k: int| 0 <= k < videos.len() && is_official_trailer(#[trigger] videos[k])
            && (forall|j: int| 0 <= j < k ==> !is_official_trailer(#[trigger] videos[j]))
            implies first_official_trailer(videos) == Some(videos[k]) by {
            if k > 0 {
                assert(!is_official_trailer(videos[0]));
                assert(videos.drop_first()[k - 1] == videos[k]);
                assert forall|j: int| 0 <= j < k - 1 implies !is_official_trailer(#[trigger] videos.drop_first()[j]) by {
                    assert(videos.drop_first()[j] == videos[j + 1]);
                }
            }
        }
        if forall|j: int| 0 <= j < videos.len() ==> !is_official_trailer(#[trigger] videos[j]) {
            assert(!is_official_trailer(videos[0]));
            assert forall|j: int| 0 <= j < videos.len() - 1 implies !is_official_trailer(#[trigger] videos.drop_first()[j]) by {
                assert(videos.drop_first()[j] == videos[j + 1]);
            }
        }
    }
}

/// The trailer is the watch link of the first official YouTube trailer among the videos;
/// when no video is one, it is the link of the first video, and with no video it is empty.
pub proof fn lemma_trailer_choice(videos: Seq<Json>)
    ensures
        forall|k: int| 0 <= k < videos.len() && is_official_trailer(#[trigger] videos[k])
            && (forall|j: int| 0 <= j < k ==> !is_official_trailer(#[trigger] videos[j]))
            ==> trailer_spec(videos) == youtube_link(videos[k]),
        videos.len() > 0 && (forall|j: int| 0 <= j < videos.len() ==> !is_official_trailer(#[trigger] videos[j]))
            ==> trailer_spec(videos) == youtube_link(videos[0]),
        videos.len() == 0 ==> trailer_spec(videos) == Seq::<char>::empty(),
{
    lemma_first_official(videos);
}

} // verus!
