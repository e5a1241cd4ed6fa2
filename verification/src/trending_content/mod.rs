use vstd::prelude::*;
use crate::global_types::Source;

pub mod anime;
pub mod movie;

verus! {

/// What a request for trending content asks for.
#[derive(Debug)]
pub struct TrendingContentParams {
    pub tmdb_token: String,
    pub source: Source,
}

/// One trending title.
#[derive(Debug)]
pub struct TrendingContentInfo {
    pub id: String,
    pub title: String,
    pub year: String,
    pub rating: String,
    pub thumbnail_url: String,
}

/// What a `TrendingContentInfo` holds.
pub ghost struct TrendingContentInfoView {
    pub id: Seq<char>,
    pub title: Seq<char>,
    pub year: Seq<char>,
    pub rating: Seq<char>,
    pub thumbnail_url: Seq<char>,
}

impl View for TrendingContentInfo {
    type V = TrendingContentInfoView;

    open spec fn view(&self) -> TrendingContentInfoView {
        TrendingContentInfoView {
            id: self.id@,
            title: self.title@,
            year: self.year@,
            rating: self.rating@,
            thumbnail_url: self.thumbnail_url@,
        }
    }
}

} // verus!
