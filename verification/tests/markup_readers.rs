/// Documents made of random runs of these pieces of markup, some of them ill-formed.
const T: [&str; 30] = [
    "", "<!DOCTYPE ", "<svg>", "</SVG>", "<![CDATA[", "<script>", "</script>", "<a", ">", "/", "\"", "'",
    "=", "x", " ", "<", "</", "<!--", "-->", "<br>", "<tr class=\"goEpisode\">", "<table class=\"SimklTVEpisodesBlock\">",
    "</tr>", "<td class=\"SimklTVAboutTabsDetailsSeasonHead\">", "<img", "<math>", "</Math>", "<style>", "</a>", "<!d",
];

fn run(seed: u64, count: usize, len: usize, f: &dyn Fn(&str)) {
    let mut x = seed;
    for _ in 0..count {
        let mut html = String::new();
        for _ in 0..len {
            x = x.wrapping_mul(6364136223846793005).wrapping_add(1442695040888963407);
            html.push_str(T[((x >> 33) % 30) as usize]);
        }
        f(&html);
    }
}

#[test]
fn show_page_reads_generated_markup_without_panic() {
    run(1, 20000, 7, &|h| { let _ = media_content::view_content::tv::show_page(h, "%2F1"); });
}

#[test]
fn show_details_read_generated_markup_without_panic() {
    run(2, 20000, 7, &|h| {
        let _ = media_content::view_content_info::tv::show_head(h, "%2F1");
        if media_content::markup::is_safe_markup(h) {
            let _ = media_content::view_content_info::tv::page_episodes(h);
        }
    });
}

#[test]
fn countdown_and_best_anime_read_generated_markup_without_panic() {
    run(3, 20000, 7, &|h| {
        let _ = media_content::view_content::tv::countdown_page(h);
        let _ = media_content::trending_content::anime::head(h);
        if let Ok(items) = media_content::trending_content::anime::trending_items(h) {
            for i in items { let _ = media_content::trending_content::anime::head(&i); }
        }
    });
}
