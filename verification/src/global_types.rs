use vstd::prelude::*;
use crate::outside::{lowercase, unicode_lowercase, is_ascii_text, ascii_lower, ascii_upper};
use crate::text::str_eq;

verus! {

/// The kind of content a request is about.
#[derive(Debug, Clone, Copy, PartialEq, Eq, Structural)]
pub enum Source {
    Anime,
    Movie,
    TV,
}

impl Source {
    /// The lowercase name of the source.
    pub open spec fn name(self) -> Seq<char> {
        match self {
            Source::Anime => "anime"@,
            Source::Movie => "movie"@,
            Source::TV => "tv"@,
        }
    }

    /// The source that an already lowercased name denotes; anything unknown is `Anime`.
    pub open spec fn from_lowercase_spec(s: Seq<char>) -> Source {
        if s == "anime"@ {
            Source::Anime
        } else if s == "movies"@ || s == "movie"@ {
            Source::Movie
        } else if s == "tv"@ {
            Source::TV
        } else {
            Source::Anime
        }
    }

    pub fn to_string(&self) -> (r: String)
        ensures
            r@ == self.name(),
    {
        match self {
            Source::Anime => "anime".to_string(),
            Source::Movie => "movie".to_string(),
            Source::TV => "tv".to_string(),
        }
    }

    /// Maps a name that is already lowercase to its source.
    pub fn from_lowercase(s: &str) -> (r: Source)
        ensures
            r == Source::from_lowercase_spec(s@),
    {
        if str_eq(s, "anime") {
            Source::Anime
        } else if str_eq(s, "movies") || str_eq(s, "movie") {
            Source::Movie
        } else if str_eq(s, "tv") {
            Source::TV
        } else {
            Source::Anime
        }
    }

    /// Parses a source name case-insensitively (by Unicode lowercasing); unknown names give `Anime`.
    pub fn from_str(s: &str) -> (r: Source)
        ensures
            r == Source::from_lowercase_spec(unicode_lowercase(s@)),
            is_ascii_text(s@) ==> r == Source::from_lowercase_spec(ascii_lower(s@)),
    {
        let lower = lowercase(s);
        Source::from_lowercase(lower.as_str())
    }
}

/// Reading back the name that `to_string` gives yields the same source.
pub proof fn lemma_name_round_trip(s: Source)
    ensures
        Source::from_lowercase_spec(s.name()) == s,
{
    reveal_strlit("anime");
    reveal_strlit("movie");
    reveal_strlit("movies");
    reveal_strlit("tv");
    assert("movie"@[0] != "anime"@[0]);
    assert("tv"@.len() != "anime"@.len());
    assert("tv"@.len() != "movie"@.len());
    assert("tv"@.len() != "movies"@.len());
}

/// Source names are read without regard to ASCII case: an ASCII name, its ASCII uppercase
/// form and its ASCII lowercase form are all ASCII and denote the same source.
pub proof fn lemma_from_str_ascii_case(s: Seq<char>)
    requires
        is_ascii_text(s),
    ensures
        is_ascii_text(ascii_upper(s)),
        is_ascii_text(ascii_lower(s)),
        Source::from_lowercase_spec(ascii_lower(ascii_upper(s))) == Source::from_lowercase_spec(ascii_lower(s)),
        Source::from_lowercase_spec(ascii_lower(ascii_lower(s))) == Source::from_lowercase_spec(ascii_lower(s)),
{
    assert forall|i: int| 0 <= i < ascii_upper(s).len() implies (#[trigger] ascii_upper(s)[i] as int) < 128 by {
        assert((s[i] as int) < 128);
    }
    assert forall|i: int| 0 <= i < ascii_lower(s).len() implies (#[trigger] ascii_lower(s)[i] as int) < 128 by {
        assert((s[i] as int) < 128);
    }
    assert(ascii_lower(ascii_upper(s)) =~= ascii_lower(s));
    assert(ascii_lower(ascii_lower(s)) =~= ascii_lower(s));
}

} // verus!
