use vstd::prelude::*;
use crate::error::{ContentError, ContentErrorView, msg, message};
use crate::http::{HttpRequest, HttpRequestView, HttpMethod, pair, pairs_view};
use crate::markup::{load_spec, check_load, clean_spec, clean};
use crate::outside::{dom_text, dom_first_text, dom_attr, dom_inner_htmls, url_encoded, markup_text, markup_first_text, markup_attr, markup_inner_htmls, url_encode, simple_selector, simple_selectors, strs_view, safe_markup};
use crate::search_content::tv::{catalogue_headers, catalogue_header_list};
use crate::text::{split_nth_spec, split_first, replace_spec, replace_all, strings_view};
use super::{TrendingContentInfo, TrendingContentInfoView};

verus! {

/// The selectors read from the list of best anime are simple selectors.
pub proof fn lemma_item_selectors()
    ensures
        simple_selector(".SimklTVAboutYearCountry"@),
        simple_selector(".SimklTVBestIcoScore"@),
        simple_selector(".SimklTVBestItemTitle"@),
        simple_selector(".SimklTVBestItemWraper"@),
        simple_selector(".SimklTVBestItems"@),
        simple_selector(".detailYearInfo"@),
        simple_selector("a"@),
        simple_selector("img"@),
{
    reveal_strlit(".SimklTVAboutYearCountry");
    reveal_strlit(".SimklTVBestIcoScore");
    reveal_strlit(".SimklTVBestItemTitle");
    reveal_strlit(".SimklTVBestItemWraper");
    reveal_strlit(".SimklTVBestItems");
    reveal_strlit(".detailYearInfo");
    reveal_strlit("a");
    reveal_strlit("img");
}

/// The form that asks for the best anime of the month.
pub open spec fn trending_form() -> Seq<(Seq<char>, Seq<char>)> {
    seq![
        ("action"@, "best"@),
        ("cat"@, "month"@),
        ("filt_tv"@, "0"@),
        ("offset"@, "0"@),
        ("async"@, "true"@),
        ("afilt_tv"@, "0"@),
        ("double"@, "0"@),
    ]
}

/// The request for the best anime of the month.
pub open spec fn trending_request_spec() -> HttpRequestView {
    HttpRequestView {
        method: HttpMethod::Post,
        url: "https://simkl.com/ajax/full/anime.php"@,
        query: seq![],
        headers: catalogue_headers(),
        form: trending_form(),
        random_user_agent: true,
    }
}

fn push_pair(v: &mut Vec<(String, String)>, name: &str, value: &str)
    ensures
        pairs_view(final(v)@) == pairs_view(old(v)@).push((name@, value@)),
{
    let ghost before = pairs_view(v@);
    v.push(pair(name, value));
    proof {
        assert(pairs_view(v@) =~= before.push((name@, value@)));
    }
}

pub fn trending_request() -> (r: HttpRequest)
    ensures
        r@ == trending_request_spec(),
{
    let mut form: Vec<(String, String)> = Vec::new();
    push_pair(&mut form, "action", "best");
    push_pair(&mut form, "cat", "month");
    push_pair(&mut form, "filt_tv", "0");
    push_pair(&mut form, "offset", "0");
    push_pair(&mut form, "async", "true");
    push_pair(&mut form, "afilt_tv", "0");
    push_pair(&mut form, "double", "0");
    let r = HttpRequest {
        method: HttpMethod::Post,
        url: String::from_str("https://simkl.com/ajax/full/anime.php"),
        query: Vec::new(),
        headers: catalogue_header_list(),
        form,
        random_user_agent: true,
    };
    proof {
        crate::http::lemma_no_pairs();
        assert(pairs_view(r.form@) =~= trending_form());
    }
    r
}

/// The markup of each listed anime, when the page loads.
pub open spec fn trending_items_spec(page: Seq<char>) -> Result<Seq<Seq<char>>, ContentErrorView> {
    match load_spec(page) {
        Err(e) => Err(e),
        Ok(_) => Ok(dom_inner_htmls(page, seq![".SimklTVBestItems"@])),
    }
}

/// Splits the page into the markup of each listed anime.
pub fn trending_items(page: &str) -> (r: Result<Vec<String>, ContentError>)
    ensures
        match r {
            Ok(items) => trending_items_spec(page@) == Ok::<Seq<Seq<char>>, ContentErrorView>(strings_view(items@)),
            Err(e) => trending_items_spec(page@) == Err::<Seq<Seq<char>>, ContentErrorView>(e@),
        },
{
    check_load(page)?;
    let sels = [".SimklTVBestItems"];
    proof {
        lemma_item_selectors();
        assert(strs_view(sels@) =~= seq![".SimklTVBestItems"@]);
        assert(simple_selectors(strs_view(sels@)));
    }
    let items = markup_inner_htmls(page, &sels);
    Ok(items)
}

/// What is read of an anime before its rating is checked: the title, the year and the
/// text of the rating.
#[derive(Debug)]
pub struct TrendingAnimeHead {
    pub title: String,
    pub year: String,
    pub rating_text: String,
}

/// What a `TrendingAnimeHead` holds.
pub ghost struct TrendingAnimeHeadView {
    pub title: Seq<char>,
    pub year: Seq<char>,
    pub rating_text: Seq<char>,
}

impl View for TrendingAnimeHead {
    type V = TrendingAnimeHeadView;

    open spec fn view(&self) -> TrendingAnimeHeadView {
        TrendingAnimeHeadView { title: self.title@, year: self.year@, rating_text: self.rating_text@ }
    }
}

/// The title, year and rating text of one listed anime: the rating is the part of the
/// score before `/`.
pub open spec fn head_spec(item: Seq<char>) -> Result<TrendingAnimeHeadView, ContentErrorView> {
    match load_spec(item) {
        Err(e) => Err(e),
        Ok(_) => match dom_first_text(item, seq![".SimklTVBestIcoScore"@]) {
            None => Err(msg("Can't find rating."@)),
            Some(score) => match split_nth_spec(score, "/"@, 0) {
                None => Err(msg("Can't find rating."@)),
                Some(first) => Ok(TrendingAnimeHeadView {
                    title: clean_spec(dom_text(item, seq![".SimklTVBestItemTitle"@])),
                    year: clean_spec(dom_text(item, seq![".SimklTVAboutYearCountry"@, ".detailYearInfo"@])),
                    rating_text: clean_spec(first),
                }),
            },
        },
    }
}

pub fn head(item: &str) -> (r: Result<TrendingAnimeHead, ContentError>)
    ensures
        match r {
            Ok(h) => head_spec(item@) == Ok::<TrendingAnimeHeadView, ContentErrorView>(h@),
            Err(e) => head_spec(item@) == Err::<TrendingAnimeHeadView, ContentErrorView>(e@),
        },
{
    check_load(item)?;
    let title_sels = [".SimklTVBestItemTitle"];
    let year_sels = [".SimklTVAboutYearCountry", ".detailYearInfo"];
    let score_sels = [".SimklTVBestIcoScore"];
    proof {
        lemma_item_selectors();
        assert(strs_view(title_sels@) =~= seq![".SimklTVBestItemTitle"@]);
        assert(simple_selectors(strs_view(title_sels@)));
        assert(strs_view(year_sels@) =~= seq![".SimklTVAboutYearCountry"@, ".detailYearInfo"@]);
        assert(simple_selectors(strs_view(year_sels@)));
        assert(strs_view(score_sels@) =~= seq![".SimklTVBestIcoScore"@]);
        assert(simple_selectors(strs_view(score_sels@)));
    }
    let raw_title = markup_text(item, &title_sels);
    let title = clean(raw_title.as_str());
    let raw_year = markup_text(item, &year_sels);
    let year = clean(raw_year.as_str());
    let score = match markup_first_text(item, &score_sels) {
        Some(s) => s,
        None => return Err(message("Can't find rating.")),
    };
    proof {
        reveal_strlit("/");
    }
    let first = split_first(score.as_str(), "/");
    let rating_text = clean(first.as_str());
    Ok(TrendingAnimeHead { title, year, rating_text })
}

/// A listed anime, given what was read before and its rating as checked by the caller:
/// the id is the link path without `/anime`, percent-encoded, and a protocol-relative image
/// address is made `https://`.
pub open spec fn tail_spec(item: Seq<char>, h: TrendingAnimeHeadView, rating: Seq<char>) -> Result<TrendingContentInfoView, ContentErrorView> {
    match dom_attr(item, seq![".SimklTVBestItemWraper"@, "a"@], "href"@) {
        None => Err(msg("Can't find id."@)),
        Some(href) => match dom_attr(item, seq![".SimklTVBestItemWraper"@, "a"@, "img"@], "src"@) {
            None => Err(msg("Can't find thumbnail."@)),
            Some(src) => Ok(TrendingContentInfoView {
                id: url_encoded(replace_spec(href, "/anime"@, seq![])),
                title: h.title,
                year: h.year,
                rating: rating,
                thumbnail_url: replace_spec(src, "//"@, "https://"@),
            }),
        },
    }
}

pub fn tail(item: &str, h: TrendingAnimeHead, rating: String) -> (r: Result<TrendingContentInfo, ContentError>)
    requires
        safe_markup(item@),
    ensures
        match r {
            Ok(info) => tail_spec(item@, h@, rating@) == Ok::<TrendingContentInfoView, ContentErrorView>(info@),
            Err(e) => tail_spec(item@, h@, rating@) == Err::<TrendingContentInfoView, ContentErrorView>(e@),
        },
{
    let link_sels = [".SimklTVBestItemWraper", "a"];
    let img_sels = [".SimklTVBestItemWraper", "a", "img"];
    proof {
        lemma_item_selectors();
        assert(strs_view(link_sels@) =~= seq![".SimklTVBestItemWraper"@, "a"@]);
        assert(simple_selectors(strs_view(link_sels@)));
        assert(strs_view(img_sels@) =~= seq![".SimklTVBestItemWraper"@, "a"@, "img"@]);
        assert(simple_selectors(strs_view(img_sels@)));
        reveal_strlit("/anime");
        reveal_strlit("//");
        reveal_strlit("");
        assert(""@ =~= Seq::<char>::empty());
    }
    let href = match markup_attr(item, &link_sels, "href") {
        Some(s) => s,
        None => return Err(message("Can't find id.")),
    };
    let path = replace_all(href.as_str(), "/anime", "");
    let id = url_encode(path.as_str());
    let src = match markup_attr(item, &img_sels, "src") {
        Some(s) => s,
        None => return Err(message("Can't find thumbnail.")),
    };
    let thumbnail_url = replace_all(src.as_str(), "//", "https://");
    Ok(TrendingContentInfo { title: h.title, year: h.year, rating, id, thumbnail_url })
}

} // verus!
