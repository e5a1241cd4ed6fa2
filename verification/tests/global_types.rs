use media_content::global_types::Source;

#[test]
fn source_names() {
    assert_eq!(Source::Anime.to_string(), "anime");
    assert_eq!(Source::Movie.to_string(), "movie");
    assert_eq!(Source::TV.to_string(), "tv");
}

#[test]
fn source_from_names_any_case() {
    assert_eq!(Source::from_str("anime"), Source::Anime);
    assert_eq!(Source::from_str("Movies"), Source::Movie);
    assert_eq!(Source::from_str("MOVIE"), Source::Movie);
    assert_eq!(Source::from_str("Tv"), Source::TV);
    assert_eq!(Source::from_str("cartoons"), Source::Anime);
    assert_eq!(Source::from_str(""), Source::Anime);
}

#[test]
fn source_name_round_trip() {
    for s in [Source::Anime, Source::Movie, Source::TV] {
        assert_eq!(Source::from_str(&s.to_string()), s);
        assert_eq!(Source::from_lowercase(&s.to_string()), s);
    }
}

#[test]
fn source_ascii_case_does_not_matter() {
    for name in ["anime", "Movies", "movie", "tV", "cartoons", "MoViE_x", ""] {
        let s = Source::from_str(name);
        assert_eq!(Source::from_str(&name.to_ascii_uppercase()), s);
        assert_eq!(Source::from_str(&name.to_ascii_lowercase()), s);
    }
}
