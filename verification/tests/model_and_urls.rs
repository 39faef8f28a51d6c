use book_catalog::baserow::{
    error_for_status, find_category_ids_by_names, mime_type_for, BaserowError, Category, Field,
};
use book_catalog::book_search::{google_results, open_library_results, BookResult, SearchResults};
use book_catalog::config::{
    AnthropicConfig, AppConfig, BaserowConfig, Config, GoogleBooksConfig, LlmConfig, OllamaConfig,
    OpenAiConfig, OpenLibraryConfig,
};
use book_catalog::google_books::{
    clean_cover_url, isbn_search_url, title_author_search_url, BookItem, GoogleBooksResponse,
    ImageLinks, IndustryIdentifier, VolumeInfo,
};
use book_catalog::llm::{LlmError, LlmProvider};
use book_catalog::open_library::{
    id_cover_url, isbn_cover_url, ol_isbn_search_url, ol_record_url, ol_title_author_search_url,
    OpenLibraryBook, OpenLibrarySearchResponse,
};
use book_catalog::web_search::search_url;

pub fn volume_info(title: &str) -> VolumeInfo {
    VolumeInfo {
        title: title.to_string(),
        subtitle: None,
        authors: None,
        publisher: None,
        published_date: None,
        description: None,
        industry_identifiers: None,
        page_count: None,
        print_type: None,
        categories: None,
        maturity_rating: None,
        allow_anon_logging: None,
        content_version: None,
        image_links: None,
        language: None,
        preview_link: None,
        info_link: None,
        canonical_volume_link: None,
    }
}

pub fn book_item(title: &str) -> BookItem {
    BookItem {
        kind: "books#volume".to_string(),
        id: "vol1".to_string(),
        etag: "etag".to_string(),
        self_link: "https://example.org/vol1".to_string(),
        volume_info: volume_info(title),
        sale_info: None,
        access_info: None,
    }
}

pub fn open_library_book(title: &str) -> OpenLibraryBook {
    OpenLibraryBook {
        key: "/works/OL1W".to_string(),
        title: title.to_string(),
        subtitle: None,
        author_name: None,
        author_key: None,
        first_publish_year: None,
        publish_year: None,
        publish_date: None,
        publisher: None,
        number_of_pages_median: None,
        isbn: None,
        cover_i: None,
        cover_edition_key: None,
        has_fulltext: None,
        subject: None,
        subject_key: None,
        language: None,
        edition_count: None,
        edition_key: None,
        first_sentence: None,
    }
}

fn config(provider: &str) -> Config {
    Config {
        google_books: GoogleBooksConfig {
            api_key: "".to_string(),
            base_url: "https://www.googleapis.com/books/v1".to_string(),
        },
        open_library: OpenLibraryConfig { base_url: "https://openlibrary.org".to_string() },
        baserow: BaserowConfig {
            api_token: "token-123".to_string(),
            base_url: "https://baserow.example".to_string(),
            database_id: 1,
            media_table_id: 2,
            categories_table_id: 3,
        },
        llm: LlmConfig {
            provider: provider.to_string(),
            openai: OpenAiConfig {
                api_key: "your_openai_api_key".to_string(),
                model: "gpt".to_string(),
                base_url: "https://api.openai.example/v1".to_string(),
            },
            anthropic: AnthropicConfig {
                api_key: "your_anthropic_api_key".to_string(),
                model: "largest-model".to_string(),
                base_url: "https://api.anthropic.example".to_string(),
            },
            ollama: OllamaConfig {
                base_url: "http://localhost:11434".to_string(),
                model: "llama3".to_string(),
            },
        },
        app: AppConfig {
            verbose: false,
            max_search_results: 5,
            min_synopsis_words: 40,
            target_synopsis_words: 150,
        },
    }
}

#[test]
fn full_title_includes_subtitle() {
    let mut b = book_item("The Title");
    assert_eq!(b.get_full_title(), "The Title");
    b.volume_info.subtitle = Some("A Subtitle".to_string());
    assert_eq!(b.get_full_title(), "The Title: A Subtitle");
}

#[test]
fn authors_join_or_placeholder() {
    let mut b = book_item("T");
    assert_eq!(b.get_all_authors(), "Unknown Author");
    b.volume_info.authors = Some(vec!["Ann".to_string(), "Ben".to_string()]);
    assert_eq!(b.get_all_authors(), "Ann, Ben");
    assert_eq!(b.get_primary_author(), Some("Ann".to_string()));
}

#[test]
fn isbn_lookup_by_identifier_type() {
    let mut b = book_item("T");
    b.volume_info.industry_identifiers = Some(vec![
        IndustryIdentifier { identifier_type: "OTHER".to_string(), identifier: "x".to_string() },
        IndustryIdentifier {
            identifier_type: "ISBN_10".to_string(),
            identifier: "0306406152".to_string(),
        },
        IndustryIdentifier {
            identifier_type: "ISBN_13".to_string(),
            identifier: "9780306406157".to_string(),
        },
    ]);
    assert_eq!(b.get_isbn_13(), Some("9780306406157".to_string()));
    assert_eq!(b.get_isbn_10(), Some("0306406152".to_string()));
    let wrapped = BookResult::Google(b);
    assert_eq!(wrapped.get_isbn(), Some("9780306406157".to_string()));
}

#[test]
fn best_cover_prefers_the_largest_variant() {
    let mut b = book_item("T");
    b.volume_info.image_links = Some(ImageLinks {
        small_thumbnail: Some("st".to_string()),
        thumbnail: Some("t".to_string()),
        small: Some("s".to_string()),
        medium: Some("m".to_string()),
        large: Some("l".to_string()),
        extra_large: None,
    });
    assert_eq!(b.get_best_cover_image(), Some("l".to_string()));
}

#[test]
fn open_library_year_is_the_largest_listed() {
    let mut b = open_library_book("T");
    assert_eq!(b.get_latest_publish_year(), None);
    b.first_publish_year = Some(1990);
    assert_eq!(b.get_latest_publish_year(), None);
    b.publish_year = Some(vec![]);
    assert_eq!(b.get_latest_publish_year(), Some(1990));
    b.publish_year = Some(vec![1999, 2004, 2001]);
    assert_eq!(b.get_latest_publish_year(), Some(2004));
    let wrapped = BookResult::OpenLibrary(b);
    assert_eq!(wrapped.get_published_date(), Some("2004".to_string()));
}

#[test]
fn category_name_aliases_in_priority_order() {
    let c = Category {
        id: 9,
        fields: vec![
            Field { key: "category".to_string(), value: Some("lower".to_string()) },
            Field { key: "Name".to_string(), value: Some("Upper".to_string()) },
        ],
    };
    assert_eq!(c.get_name(), Some("Upper".to_string()));
    let c2 = Category {
        id: 10,
        fields: vec![Field { key: "Notes".to_string(), value: Some("x".to_string()) }],
    };
    assert_eq!(c2.get_name(), None);
    let c3 = Category {
        id: 11,
        fields: vec![
            Field { key: "Description".to_string(), value: Some("about".to_string()) },
            Field { key: "name".to_string(), value: Some("viaAlias".to_string()) },
        ],
    };
    assert_eq!(c3.get_name(), Some("viaAlias".to_string()));
    assert_eq!(c3.get_description(), Some("about".to_string()));
}

#[test]
fn category_ids_resolve_case_insensitively_and_drop_unmatched() {
    let cats = vec![
        Category {
            id: 31,
            fields: vec![Field { key: "Name".to_string(), value: Some("Fiction".to_string()) }],
        },
        Category {
            id: 32,
            fields: vec![Field { key: "Name".to_string(), value: Some("Mystery".to_string()) }],
        },
    ];
    let names = vec!["mystery".to_string(), "Unknown".to_string(), "FICTION".to_string()];
    assert_eq!(find_category_ids_by_names(&names, &cats), vec![32, 31]);
}

#[test]
fn status_classification() {
    assert!(matches!(error_for_status(401), BaserowError::AuthenticationFailed));
    assert!(matches!(error_for_status(404), BaserowError::NotFound));
    match error_for_status(500) {
        BaserowError::InvalidResponse(m) => assert_eq!(m, "HTTP 500"),
        _ => panic!("a plain failure status carries its code"),
    }
}

#[test]
fn mime_types_follow_the_filename() {
    assert_eq!(mime_type_for("cover.jpg"), "image/jpeg");
    assert_eq!(mime_type_for("cover.jpeg"), "image/jpeg");
    assert_eq!(mime_type_for("cover.png"), "image/png");
    assert_eq!(mime_type_for("cover.gif"), "application/octet-stream");
}

#[test]
fn validate_reports_the_first_problem() {
    assert!(config("ollama").validate().is_ok());
    assert_eq!(config("openai").validate(), Err("OpenAI API key not configured".to_string()));
    assert_eq!(
        config("anthropic").validate(),
        Err("Anthropic API key not configured".to_string())
    );
    assert_eq!(
        config("gemini").validate(),
        Err("Unsupported LLM provider: gemini".to_string())
    );
    let mut c = config("ollama");
    c.baserow.api_token = "your_baserow_token".to_string();
    assert_eq!(c.validate(), Err("Baserow API token not configured".to_string()));
    let mut ok = config("openai");
    ok.llm.openai.api_key = "sk-real".to_string();
    assert!(ok.validate().is_ok());
}

#[test]
fn provider_selection_from_config() {
    match LlmProvider::from_config(&config("ollama")) {
        Ok(LlmProvider::Ollama { base_url, model }) => {
            assert_eq!(base_url, "http://localhost:11434");
            assert_eq!(model, "llama3");
        }
        _ => panic!("the local provider needs no credential"),
    }
    assert!(matches!(
        LlmProvider::from_config(&config("openai")),
        Err(LlmError::ConfigurationError(_))
    ));
    match LlmProvider::from_config(&config("nonesuch")) {
        Err(LlmError::ConfigurationError(m)) => {
            assert_eq!(
                m,
                "Unsupported LLM provider: nonesuch. Supported providers: ollama, openai, anthropic"
            );
        }
        _ => panic!("an unknown provider is a configuration error"),
    }
}

#[test]
fn search_urls_are_built_exactly() {
    assert_eq!(
        isbn_search_url("https://b", "9780306406157", ""),
        "https://b/volumes?q=isbn:9780306406157"
    );
    assert_eq!(
        isbn_search_url("https://b", "9780306406157", "KEY1"),
        "https://b/volumes?q=isbn:9780306406157&key=KEY1"
    );
    assert_eq!(
        isbn_search_url("https://b", "9780306406157", "your_api_key"),
        "https://b/volumes?q=isbn:9780306406157"
    );
    // percent-encoding must really happen: an unencoded query would keep
    // the spaces and quotes
    assert_eq!(
        title_author_search_url("https://b", "Dune Messiah", "Frank Herbert", ""),
        "https://b/volumes?q=intitle%3A%22Dune%20Messiah%22%20inauthor%3A%22Frank%20Herbert%22"
    );
    assert_eq!(
        book_catalog::google_books::title_search_url("https://b", "Dune", "K"),
        "https://b/volumes?q=intitle%3ADune&key=K"
    );
    assert_eq!(
        ol_isbn_search_url("https://ol", "978"),
        "https://ol/search.json?isbn=978"
    );
    assert_eq!(
        ol_title_author_search_url("https://ol", "A B", "C~D"),
        "https://ol/search.json?title=A%20B&author=C~D"
    );
    assert_eq!(ol_record_url("https://ol", "/works/OL1W"), "https://ol/works/OL1W.json");
    assert_eq!(
        search_url("It", "Me"),
        "https://api.duckduckgo.com/?q=It%20by%20Me%20book%20synopsis%20review&format=json&no_redirect=1&no_html=1&skip_disambig=1"
    );
}

#[test]
fn cover_urls() {
    assert_eq!(
        isbn_cover_url("9780306406157"),
        "https://covers.openlibrary.org/b/isbn/9780306406157-L.jpg"
    );
    assert_eq!(id_cover_url(240727), "https://covers.openlibrary.org/b/id/240727-L.jpg");
    assert_eq!(
        clean_cover_url("http://books.example/img?zoom=1&edge=curl&id=9"),
        "https://books.example/img?zoom=1&id=9"
    );
    assert_eq!(clean_cover_url("https://already.secure/x"), "https://already.secure/x");
}

#[test]
fn google_details_block() {
    let mut b = book_item("The Title");
    b.volume_info.subtitle = Some("A Subtitle".to_string());
    b.volume_info.authors = Some(vec!["Ann".to_string()]);
    b.volume_info.publisher = Some("Pub".to_string());
    b.volume_info.page_count = Some(240);
    let text = book_catalog::google_books::display_google_book_info(&b);
    assert_eq!(
        text,
        "\n=== Book Information (Google Books) ===\n\
         Title: The Title: A Subtitle\n\
         Author(s): Ann\n\
         Publisher: Pub\n\
         Pages: 240\n\
         ========================================\n"
    );
}

#[test]
fn open_library_details_block() {
    let mut b = open_library_book("T");
    b.author_name = Some(vec!["Ann".to_string()]);
    b.publish_year = Some(vec![1999, 2003]);
    b.isbn = Some(vec!["978".to_string()]);
    b.cover_i = Some(7);
    b.subject = Some(vec!["s1".to_string(), "s2".to_string()]);
    let text = book_catalog::open_library::display_open_library_book_info(&b);
    assert_eq!(
        text,
        "\n=== Book Information (Open Library) ===\n\
         Title: T\n\
         Author(s): Ann\n\
         Published: 2003\n\
         ISBN: 978\n\
         Cover Image: https://covers.openlibrary.org/b/id/7-L.jpg\n\
         Subjects: s1, s2\n\
         ========================================\n"
    );
}

#[test]
fn source_responses_become_ordered_candidates() {
    let resp = GoogleBooksResponse {
        kind: "books#volumes".to_string(),
        total_items: 2,
        items: Some(vec![book_item("First"), book_item("Second")]),
    };
    let r: SearchResults = google_results(resp);
    assert_eq!(r.source, "Google Books");
    assert_eq!(r.books.len(), 2);
    assert_eq!(r.books[0].get_full_title(), "First");
    assert_eq!(r.books[1].get_full_title(), "Second");

    let ol = OpenLibrarySearchResponse {
        num_found: 1,
        start: 0,
        num_found_exact: None,
        docs: vec![open_library_book("Third")],
    };
    let r2 = open_library_results(ol);
    assert_eq!(r2.source, "Open Library");
    assert_eq!(r2.books.len(), 1);
    assert_eq!(r2.books[0].get_full_title(), "Third");

    let none = GoogleBooksResponse {
        kind: "books#volumes".to_string(),
        total_items: 0,
        items: None,
    };
    assert_eq!(google_results(none).books.len(), 0);
}
