use deep_research::html::extract_content;
use deep_research::search::{
    blocked, choose_tool, duckduckgo_results, exclude_blocked, normalize_link, results_from_links,
    wikipedia_results, wikipedia_url, SearchResult, ToolChoice,
};
use deep_research::text::{contains_str, normalize, replace_spaces, starts_with_str};

fn result(title: &str, url: &str) -> SearchResult {
    SearchResult { title: title.to_string(), url: url.to_string() }
}

#[test]
fn wikipedia_url_replaces_spaces() {
    assert_eq!(wikipedia_url("World War II"), "https://en.wikipedia.org/wiki/World_War_II");
}

#[test]
fn wikipedia_url_of_single_word() {
    assert_eq!(wikipedia_url("Rust"), "https://en.wikipedia.org/wiki/Rust");
}

#[test]
fn wikipedia_results_keep_titles_and_order() {
    let titles = vec!["World War II".to_string(), "Battle of Britain".to_string()];
    let rs = wikipedia_results(&titles);
    assert_eq!(rs.len(), 2);
    assert_eq!(rs[0].title, "World War II");
    assert_eq!(rs[0].url, "https://en.wikipedia.org/wiki/World_War_II");
    assert_eq!(rs[1].title, "Battle of Britain");
    assert_eq!(rs[1].url, "https://en.wikipedia.org/wiki/Battle_of_Britain");
}

#[test]
fn replace_spaces_handles_edges() {
    assert_eq!(replace_spaces(""), "");
    assert_eq!(replace_spaces(" a  b "), "_a__b_");
    assert_eq!(replace_spaces("é ü"), "é_ü");
}

#[test]
fn substring_and_prefix_checks() {
    assert!(contains_str("https://www.youtube.com/watch", "youtube.com"));
    assert!(!contains_str("https://www.YouTube.com/watch", "youtube.com"));
    assert!(contains_str("abc", ""));
    assert!(!contains_str("ab", "abc"));
    assert!(starts_with_str("//host/path", "//"));
    assert!(!starts_with_str("/host", "//"));
}

#[test]
fn blocked_domains_are_dropped_whatever_the_source() {
    let rs = vec![
        result("a", "https://www.youtube.com/watch?v=1"),
        result("b", "https://example.org/b"),
        result("c", "https://old.reddit.com/r/x"),
        result("d", "https://en.wikipedia.org/wiki/D"),
    ];
    let kept = exclude_blocked(&rs);
    assert_eq!(kept.len(), 2);
    assert_eq!(kept[0].title, "b");
    assert_eq!(kept[1].title, "d");
    assert!(blocked("https://reddit.com"));
    assert!(!blocked("https://YOUTUBE.COM/x"));
}

#[test]
fn exclusion_of_empty_is_empty() {
    assert!(exclude_blocked(&Vec::new()).is_empty());
}

#[test]
fn protocol_relative_links_get_https() {
    assert_eq!(normalize_link("//duckduckgo.com/l/?u=x"), "https://duckduckgo.com/l/?u=x");
    assert_eq!(normalize_link("http://example.com"), "http://example.com");
}

#[test]
fn links_without_address_are_skipped() {
    let links = vec![
        ("One".to_string(), Some("//a.com/1".to_string())),
        ("Two".to_string(), None),
        ("Three".to_string(), Some("https://c.com/3".to_string())),
    ];
    let rs = results_from_links(&links);
    assert_eq!(rs.len(), 2);
    assert_eq!(rs[0].title, "One");
    assert_eq!(rs[0].url, "https://a.com/1");
    assert_eq!(rs[1].title, "Three");
    assert_eq!(rs[1].url, "https://c.com/3");
}

#[test]
fn results_page_is_read_from_result_links() {
    let html = "<html><body><a class=\"result__a\" href=\"//x.com/a\">X page</a>\
                <a class=\"other\" href=\"https://y.com\">Y</a>\
                <a class=\"result__a\">no address</a>\
                <a class=\"result__a\" href=\"https://z.com/z\">Z</a></body></html>";
    let rs = duckduckgo_results(html);
    assert_eq!(rs.len(), 2);
    assert_eq!(rs[0].title, "X page");
    assert_eq!(rs[0].url, "https://x.com/a");
    assert_eq!(rs[1].title, "Z");
    assert_eq!(rs[1].url, "https://z.com/z");
}

#[test]
fn article_wins_over_body() {
    let html = "<html><body><p>outside</p><article>inside</article></body></html>";
    assert_eq!(extract_content(html), "inside\n");
}

#[test]
fn main_wins_over_content_id() {
    let html = "<html><body><div id=\"content\">c</div><main>m</main></body></html>";
    assert_eq!(extract_content(html), "m\n");
}

#[test]
fn each_match_gets_its_own_line() {
    let html = "<html><body><article>one</article><article>two</article></body></html>";
    assert_eq!(extract_content(html), "one\ntwo\n");
}

#[test]
fn body_is_the_last_resort() {
    let html = "<html><body><p>just body</p></body></html>";
    assert_eq!(extract_content(html), "just body\n");
}

#[test]
fn tool_choice_by_substring() {
    assert_eq!(choose_tool("wikipedia"), ToolChoice::Encyclopedia);
    assert_eq!(choose_tool("use wikipedia please"), ToolChoice::Encyclopedia);
    assert_eq!(choose_tool("duckduckgo"), ToolChoice::Web);
    assert_eq!(choose_tool(""), ToolChoice::Web);
}

#[test]
fn normalize_trims_and_lowercases() {
    assert_eq!(normalize("  YeS \n"), "yes");
    assert_eq!(normalize(""), "");
}
