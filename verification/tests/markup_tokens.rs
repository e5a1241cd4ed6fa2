use media_content::markup::check_load;

const TOKENS: [&str; 18] = [
    "<!DOCTYPE ", "<svg>", "</SVG>", "<![CDATA[", "<script>", "</script>", "<a", ">", "/", "\"",
    "=", "x", " ", "<", "</", "<!--", "-->", "<br>",
];

#[test]
fn loading_token_sequences_does_not_panic() {
    let n = TOKENS.len();
    for a in 0..n {
        for b in 0..n {
            for c in 0..n {
                for d in 0..n {
                    let html = format!("{}{}{}{}", TOKENS[a], TOKENS[b], TOKENS[c], TOKENS[d]);
                    let _ = check_load(&html);
                }
            }
        }
    }
}

const PAGE_TOKENS: [&str; 16] = [
    "<div class=\"type-airing\">", "</div>", "<countdown-content-page-item-left-desc>", "Countdown to ",
    "<span data-ts=\"5\">", "</span>", "<svg>", "</svg>", "<!--", "-->", "<p", ">", "/", "<", "<![CDATA[", "x",
];

#[test]
fn reading_token_pages_does_not_panic() {
    let n = PAGE_TOKENS.len();
    for a in 0..n {
        for b in 0..n {
            for c in 0..n {
                for d in 0..n {
                    let html = format!("{}{}{}{}", PAGE_TOKENS[a], PAGE_TOKENS[b], PAGE_TOKENS[c], PAGE_TOKENS[d]);
                    let _ = media_content::view_content::tv::countdown_page(&html);
                }
            }
        }
    }
}
