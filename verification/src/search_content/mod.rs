use vstd::prelude::*;
use crate::global_types::Source;

pub mod anime;
pub mod movie;
pub mod tv;

verus! {

/// What a search asks for.
#[derive(Debug)]
pub struct SearchContentParams {
    pub tmdb_token: String,
    pub source: Source,
    pub search: String,
    pub page: u64,
}

/// One search hit.
#[derive(Debug)]
pub struct SearchContentInfo {
    pub id: String,
    pub title: String,
    pub year: String,
    pub thumbnail_url: String,
}

/// What a `SearchContentInfo` holds.
pub ghost struct SearchContentInfoView {
    pub id: Seq<char>,
    pub title: Seq<char>,
    pub year: Seq<char>,
    pub thumbnail_url: Seq<char>,
}

impl View for SearchContentInfo {
    type V = SearchContentInfoView;

    open spec fn view(&self) -> SearchContentInfoView {
        SearchContentInfoView {
            id: self.id@,
            title: self.title@,
            year: self.year@,
            thumbnail_url: self.thumbnail_url@,
        }
    }
}

} // verus!
