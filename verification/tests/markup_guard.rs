use media_content::error::ContentError;
use media_content::markup::{check_load, is_safe_markup};
use media_content::view_content::tv;

fn message(e: ContentError) -> String {
    match e {
        ContentError::Message(m) => m,
        other => panic!("unexpected error {:?}", other),
    }
}

#[test]
fn ordinary_pages_are_safe() {
    assert!(is_safe_markup("<!DOCTYPE html><html><body><p>a</p></body></html>"));
    assert!(is_safe_markup("<!doctype html>\n<svg><path/></svg><p>x</p>"));
    assert!(is_safe_markup("<script>//<![CDATA[\nvar a = 1;\n//]]></script>"));
    assert!(check_load("<!DOCTYPE html><p>a</p>").is_ok());
}

#[test]
fn self_closed_doctype_is_refused() {
    assert!(!is_safe_markup("<!DOCTYPE html/>x"));
    assert!(!is_safe_markup("<!doctype html PUBLIC \"x\">"));
    assert_eq!(message(check_load("<!DOCTYPE html/>x").unwrap_err()), "Unsupported markup");
    assert_eq!(message(check_load("<!DOCTYPE html/><p>a</p>").unwrap_err()), "Unsupported markup");
}

#[test]
fn special_tag_closed_in_another_case_is_refused() {
    assert!(!is_safe_markup("<svg></SVG><![CDATA[x]]>"));
    assert!(!is_safe_markup("<MATH></math><![CDATA[x]]>"));
    assert!(is_safe_markup("<svg></SVG><p>no character data</p>"));
    assert_eq!(message(check_load("<svg></SVG><![CDATA[x]]>").unwrap_err()), "Unsupported markup");
}

#[test]
fn lowercase_special_tags_with_character_data_load_without_panic() {
    assert!(is_safe_markup("<svg></svg><![CDATA[x]]>"));
    assert!(check_load("<svg></svg><![CDATA[x]]>").is_err());
    assert!(check_load("<svg><![CDATA[x]]></svg>").is_err());
}

#[test]
fn refused_markup_stops_a_countdown() {
    assert_eq!(message(tv::countdown_page("<!DOCTYPE html/><p>x</p>").unwrap_err()), "Unsupported markup");
}

#[test]
fn text_ending_in_a_tag_name_is_refused() {
    assert!(!is_safe_markup("<p"));
    assert!(!is_safe_markup("<div class=\"type-airing\">x</div><sp"));
    assert!(is_safe_markup("<p x"));
    assert!(is_safe_markup("a < b"));
    assert!(is_safe_markup("<p>1 <2</p>"));
    assert_eq!(message(tv::countdown_page("<div class=\"type-airing\">x</div><sp").unwrap_err()), "Unsupported markup");
}
