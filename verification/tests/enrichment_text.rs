use book_catalog::baserow::{display_categories, Category, Field};
use book_catalog::web_search::{
    basic_search_result, duckduckgo_results, enhance_book_info_with_search, ensure_results,
    format_search_results, DuckDuckGoResponse, DuckDuckGoTopic, SearchError, SearchResult,
};

fn result(title: &str, url: &str, snippet: &str) -> SearchResult {
    SearchResult { title: title.to_string(), url: url.to_string(), snippet: snippet.to_string() }
}

#[test]
fn formatted_results_are_numbered() {
    let rs = vec![result("One", "https://a", "first"), result("Two", "", "second")];
    let text = format_search_results(&rs);
    assert_eq!(
        text,
        "=== Additional Information from Web Search ===\n\
         \n1. One\n   first\n   Source: https://a\n\
         \n2. Two\n   second\n   Source: N/A\n\
         \n=== End of Web Search Results ===\n"
    );
    let empty: Vec<SearchResult> = vec![];
    assert_eq!(
        format_search_results(&empty),
        "No additional information found from web search."
    );
}

#[test]
fn enhanced_info_carries_original_details_and_results() {
    let rs = vec![result("One", "https://a", "first")];
    let ok = enhance_book_info_with_search("T", "A", "D", &Ok(rs));
    assert!(ok.starts_with(
        "=== Original Book Information ===\nTitle: T\nAuthor: A\nDescription: D\n\n"
    ));
    assert!(ok.contains("1. One"));

    let failed = enhance_book_info_with_search("T", "A", "D", &Err(SearchError::NoResults));
    assert_eq!(
        failed,
        "=== Book Information (Web Search Failed) ===\nTitle: T\nAuthor: A\nDescription: D\n\n\
         Note: Unable to fetch additional information from web search."
    );
}

#[test]
fn instant_answer_reply_becomes_snippets() {
    let resp = DuckDuckGoResponse {
        related_topics: vec![
            DuckDuckGoTopic { text: "".to_string(), first_url: None },
            DuckDuckGoTopic {
                text: "topic one".to_string(),
                first_url: Some("https://t1".to_string()),
            },
            DuckDuckGoTopic { text: "topic two".to_string(), first_url: None },
            DuckDuckGoTopic { text: "beyond the cap".to_string(), first_url: None },
        ],
        abstract_text: "raw".to_string(),
        abstract_text_plain: "An abstract.".to_string(),
        abstract_source: "Encyclopedia".to_string(),
        abstract_url: "https://enc".to_string(),
    };
    let rs = duckduckgo_results(resp, "Dune");
    // the abstract, then the non-empty topics among the first three
    assert_eq!(rs.len(), 3);
    assert_eq!(rs[0].title, "Dune - Encyclopedia");
    assert_eq!(rs[0].url, "https://enc");
    assert_eq!(rs[0].snippet, "An abstract.");
    assert_eq!(rs[1].title, "Related: Dune");
    assert_eq!(rs[1].url, "https://t1");
    assert_eq!(rs[1].snippet, "topic one");
    assert_eq!(rs[2].snippet, "topic two");
}

#[test]
fn empty_search_degrades_to_the_fallback_result() {
    let kept = ensure_results(vec![result("One", "", "x")], "T", "A");
    assert_eq!(kept.len(), 1);
    assert_eq!(kept[0].title, "One");

    let fallback = ensure_results(vec![], "T", "A");
    assert_eq!(fallback.len(), 1);
    assert_eq!(fallback[0].title, "T by A");
    assert_eq!(fallback[0].url, "");
    let direct = basic_search_result("T", "A");
    assert_eq!(direct.snippet, fallback[0].snippet);
    assert!(direct.snippet.contains("Goodreads"));
}

#[test]
fn categories_listing_text() {
    let cats = vec![
        Category {
            id: 5,
            fields: vec![
                Field { key: "Name".to_string(), value: Some("Fiction".to_string()) },
                Field { key: "Description".to_string(), value: Some("Made up".to_string()) },
            ],
        },
        Category { id: 6, fields: vec![] },
    ];
    assert_eq!(
        display_categories(&cats),
        "\nAvailable categories:\n  1. Fiction - Made up\n  2. Category 6\n\n"
    );
    let none: Vec<Category> = vec![];
    assert_eq!(display_categories(&none), "No categories found");
}
