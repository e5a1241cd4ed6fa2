use vstd::prelude::*;
use crate::global_types::Source;
use crate::text::strings_view;

pub mod anime;
pub mod movies;

verus! {

/// What a request for featured content asks for.
#[derive(Debug)]
pub struct FeaturedContentParams {
    pub source: Source,
    pub tmdb_token: String,
}

/// One featured title.
#[derive(Debug)]
pub struct FeaturedContentInfo {
    pub source: Source,
    pub id: String,
    pub title: String,
    pub contextual: Vec<String>,
    pub short_description: String,
    pub banner_url: String,
}

/// What a `FeaturedContentInfo` holds.
pub ghost struct FeaturedContentInfoView {
    pub source: Source,
    pub id: Seq<char>,
    pub title: Seq<char>,
    pub contextual: Seq<Seq<char>>,
    pub short_description: Seq<char>,
    pub banner_url: Seq<char>,
}

impl View for FeaturedContentInfo {
    type V = FeaturedContentInfoView;

    open spec fn view(&self) -> FeaturedContentInfoView {
        FeaturedContentInfoView {
            source: self.source,
            id: self.id@,
            title: self.title@,
            contextual: strings_view(self.contextual@),
            short_description: self.short_description@,
            banner_url: self.banner_url@,
        }
    }
}

} // verus!
