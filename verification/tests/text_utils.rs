use media_content::text::{str_concat, contains, i64_to_string, replace_all, split_all, split_first, split_nth, starts_with, str_eq, u64_to_string};

#[test]
fn decimal_forms() {
    assert_eq!(u64_to_string(0), "0");
    assert_eq!(u64_to_string(550), "550");
    assert_eq!(u64_to_string(u64::MAX), "18446744073709551615");
    assert_eq!(i64_to_string(-42), "-42");
    assert_eq!(i64_to_string(2024), "2024");
    assert_eq!(i64_to_string(i64::MIN), "-9223372036854775808");
}

#[test]
fn replace_all_occurrences() {
    assert_eq!(replace_all("/tv/123/show/tv", "/tv", ""), "/123/show");
    assert_eq!(replace_all("//img.example//a.jpg", "//", "https://"), "https://img.examplehttps://a.jpg");
    assert_eq!(replace_all("aaa", "aa", "b"), "ba");
    assert_eq!(replace_all("plain", "/anime", ""), "plain");
}

#[test]
fn split_pieces() {
    assert_eq!(split_all("a/b//c/", "/"), vec!["a", "b", "", "c", ""]);
    assert_eq!(split_all("", "/"), vec![""]);
    assert_eq!(split_nth("https://www.imdb.com/title/tt0903747/", "/", 4), Some("tt0903747".to_string()));
    assert_eq!(split_nth("https://imdb.com", "/", 4), None);
    assert_eq!(split_first("8.5 / 10", "/"), "8.5 ");
    assert_eq!(split_first("img_V1_UX.jpg", "_V1_"), "img");
}

#[test]
fn searching_text() {
    assert!(contains("https://www.imdb.com/title/tt1/", "imdb"));
    assert!(!contains("https://www.themoviedb.org/", "imdb"));
    assert!(contains("abc", ""));
    assert!(starts_with("//cdn.example/x", "//"));
    assert!(!starts_with("/", "//"));
    assert!(str_eq("tv", "tv"));
    assert!(!str_eq("tv", "TV"));
    assert_eq!(str_concat("Rating: ", "8.25"), "Rating: 8.25");
}
