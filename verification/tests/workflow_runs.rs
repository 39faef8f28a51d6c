use book_catalog::baserow::{BaserowError, Category, CoverImage, CreatedEntry, Field};
use book_catalog::book_search::{selection_labels, selection_outcome, BookResult, SearchResults};
use book_catalog::config::{
    AnthropicConfig, AppConfig, BaserowConfig, Config, GoogleBooksConfig, LlmConfig, OllamaConfig,
    OpenAiConfig, OpenLibraryConfig,
};
use book_catalog::google_books::{BookItem, ImageLinks, IndustryIdentifier, VolumeInfo};
use book_catalog::workflow::{
    needs_synopsis, Action, CombinedBookSearcher, Event, Outcome, Query, State, Workflow,
};

fn config() -> Config {
    Config {
        google_books: GoogleBooksConfig {
            api_key: "".to_string(),
            base_url: "https://www.googleapis.com/books/v1".to_string(),
        },
        open_library: OpenLibraryConfig { base_url: "https://openlibrary.org".to_string() },
        baserow: BaserowConfig {
            api_token: "token-123".to_string(),
            base_url: "https://baserow.example".to_string(),
            database_id: 1,
            media_table_id: 2,
            categories_table_id: 3,
        },
        llm: LlmConfig {
            provider: "ollama".to_string(),
            openai: OpenAiConfig {
                api_key: "your_openai_api_key".to_string(),
                model: "gpt".to_string(),
                base_url: "https://api.openai.example/v1".to_string(),
            },
            anthropic: AnthropicConfig {
                api_key: "your_anthropic_api_key".to_string(),
                model: "largest-model".to_string(),
                base_url: "https://api.anthropic.example".to_string(),
            },
            ollama: OllamaConfig {
                base_url: "http://localhost:11434".to_string(),
                model: "llama3".to_string(),
            },
        },
        app: AppConfig {
            verbose: false,
            max_search_results: 5,
            min_synopsis_words: 40,
            target_synopsis_words: 150,
        },
    }
}

fn google_book(title: &str, description: Option<&str>) -> BookResult {
    BookResult::Google(BookItem {
        kind: "books#volume".to_string(),
        id: "vol1".to_string(),
        etag: "etag".to_string(),
        self_link: "https://example.org/vol1".to_string(),
        volume_info: VolumeInfo {
            title: title.to_string(),
            subtitle: None,
            authors: Some(vec!["Test Author".to_string()]),
            publisher: None,
            published_date: Some("2001".to_string()),
            description: description.map(|d| d.to_string()),
            industry_identifiers: Some(vec![IndustryIdentifier {
                identifier_type: "ISBN_13".to_string(),
                identifier: "9780000000002".to_string(),
            }]),
            page_count: None,
            print_type: None,
            categories: None,
            maturity_rating: None,
            allow_anon_logging: None,
            content_version: None,
            image_links: Some(ImageLinks {
                small_thumbnail: None,
                thumbnail: Some("http://books.example/c?zoom=1&edge=curl".to_string()),
                small: None,
                medium: None,
                large: None,
                extra_large: None,
            }),
            language: None,
            preview_link: None,
            info_link: None,
            canonical_volume_link: None,
        },
        sale_info: None,
        access_info: None,
    })
}

fn categories() -> Vec<Category> {
    ["Fiction", "Mystery", "Drama"]
        .iter()
        .enumerate()
        .map(|(i, n)| Category {
            id: 100 + i as u64,
            fields: vec![Field { key: "Name".to_string(), value: Some(n.to_string()) }],
        })
        .collect()
}

fn results(books: Vec<BookResult>, source: &str) -> SearchResults {
    SearchResults { books, source: source.to_string() }
}

// The disambiguator shows exactly the display cap plus a cancel entry when
// more candidates exist than the cap, and a chosen index never reaches past
// the cap.
#[test]
fn disambiguator_caps_the_display_list() {
    let books: Vec<BookResult> =
        (0..7).map(|i| google_book(&format!("Book {}", i), None)).collect();
    let labels = selection_labels(&books, 3);
    assert_eq!(labels.len(), 3 + 1);
    assert_eq!(labels[0], "Book 0 by Test Author (2001)");
    assert_eq!(labels[3], "Cancel - don't add any book");
    assert_eq!(selection_outcome(3, 3), None);
    for choice in 0..3 {
        let picked = selection_outcome(3, choice).unwrap();
        assert!(picked < 3);
    }
}

#[test]
fn single_candidate_is_auto_selected() {
    let searcher = CombinedBookSearcher::new(config());
    let (w, a) = searcher.search_by_isbn("9780000000002".to_string(), false);
    assert!(matches!(a, Action::SearchPrimary { .. }));
    let (w, a) = w.step(Event::Primary {
        result: Ok(results(vec![google_book("Only", None)], "Google Books")),
    });
    assert!(matches!(a, Action::FetchCategories));
    assert!(matches!(w.state, State::AwaitCategories { .. }));
}

// When the first source returns candidates, the second source is never
// invoked; when it returns none, the second source is invoked exactly once
// with the unchanged query and its outcome is used verbatim.
#[test]
fn fallback_ordering() {
    let searcher = CombinedBookSearcher::new(config());
    let (w, _) = searcher.search_by_isbn("12345".to_string(), false);
    let two = vec![google_book("A", None), google_book("B", None)];
    let (w2, a) = w.step(Event::Primary { result: Ok(results(two, "Google Books")) });
    assert!(matches!(a, Action::PromptSelect { .. }));
    assert!(!matches!(a, Action::SearchFallback { .. }));
    assert!(matches!(w2.state, State::AwaitSelection { .. }));

    let searcher = CombinedBookSearcher::new(config());
    let (w, _) = searcher.search_by_isbn("12345".to_string(), false);
    let (w, a) = w.step(Event::Primary { result: Ok(results(vec![], "Google Books")) });
    match a {
        Action::SearchFallback { query: Query::Isbn { isbn } } => assert_eq!(isbn, "12345"),
        _ => panic!("an empty primary outcome must fall back"),
    }
    let fallback_books = vec![google_book("Via B", None)];
    let (w, a) = w.step(Event::Fallback {
        result: Ok(results(fallback_books, "Open Library")),
    });
    assert!(matches!(a, Action::FetchCategories));
    match &w.state {
        State::AwaitCategories { book } => assert_eq!(book.get_full_title(), "Via B"),
        s => panic!("the fallback outcome must be used verbatim, found {:?}", phase_name(s)),
    }
}

fn phase_name(s: &State) -> &'static str {
    match s {
        State::AwaitPrimary { .. } => "AwaitPrimary",
        State::AwaitFallback { .. } => "AwaitFallback",
        State::AwaitSelection { .. } => "AwaitSelection",
        State::AwaitCategories { .. } => "AwaitCategories",
        State::AwaitCategoryInfo { .. } => "AwaitCategoryInfo",
        State::AwaitCategoryReply { .. } => "AwaitCategoryReply",
        State::AwaitSynopsisInfo { .. } => "AwaitSynopsisInfo",
        State::AwaitSynopsisReply { .. } => "AwaitSynopsisReply",
        State::AwaitConfirmation { .. } => "AwaitConfirmation",
        State::AwaitCover { .. } => "AwaitCover",
        State::AwaitCreate { .. } => "AwaitCreate",
        State::Done { .. } => "Done",
    }
}

#[test]
fn both_sources_empty_means_no_candidates() {
    let searcher = CombinedBookSearcher::new(config());
    let (w, _) = searcher.search_by_isbn("000".to_string(), false);
    let (w, _) = w.step(Event::Primary { result: Ok(results(vec![], "Google Books")) });
    let (w, a) = w.step(Event::Fallback { result: Ok(results(vec![], "Open Library")) });
    assert!(matches!(a, Action::Finish));
    assert!(matches!(w.state, State::Done { outcome: Outcome::NoCandidates }));
}

// The word threshold decides synopsis generation strictly: one word short
// triggers it, meeting the threshold skips it and reuses the description
// verbatim.
#[test]
fn synopsis_threshold_is_strict() {
    let forty_nine = vec!["word"; 49].join(" ");
    let fifty = vec!["word"; 50].join(" ");
    assert!(needs_synopsis(&forty_nine, 50));
    assert!(!needs_synopsis(&fifty, 50));
}

#[test]
fn sufficient_description_skips_generation_and_is_reused_verbatim() {
    let long_desc = vec!["word"; 40].join(" ");
    let w = Workflow {
        config: config(),
        is_ebook: false,
        state: State::AwaitCategoryReply {
            book: google_book("T", Some(&long_desc)),
            categories: categories(),
        },
    };
    let (w, a) = w.step(Event::CategoryReply { result: Ok("Fiction".to_string()) });
    assert!(matches!(a, Action::PromptConfirm { .. }));
    match &w.state {
        State::AwaitConfirmation { synopsis, .. } => assert_eq!(synopsis, &long_desc),
        s => panic!("expected confirmation, found {}", phase_name(s)),
    }
}

#[test]
fn short_description_triggers_generation() {
    let short_desc = vec!["word"; 39].join(" ");
    let w = Workflow {
        config: config(),
        is_ebook: false,
        state: State::AwaitCategoryReply {
            book: google_book("T", Some(&short_desc)),
            categories: categories(),
        },
    };
    let (w, a) = w.step(Event::CategoryReply { result: Ok("Fiction".to_string()) });
    assert!(matches!(a, Action::SearchWeb { .. }));
    assert!(matches!(w.state, State::AwaitSynopsisInfo { .. }));
}

#[test]
fn unmatched_category_reply_stops_entry_creation() {
    let w = Workflow {
        config: config(),
        is_ebook: false,
        state: State::AwaitCategoryReply {
            book: google_book("T", None),
            categories: categories(),
        },
    };
    let (w, a) = w.step(Event::CategoryReply { result: Ok("Cooking, Gardening".to_string()) });
    assert!(matches!(a, Action::Finish));
    match w.state {
        State::Done { outcome: Outcome::CategorySelectionFailed { categories, .. } } => {
            // the fetched table rides along for manual reference
            assert_eq!(categories.len(), 3);
        }
        _ => panic!("a reply matching nothing must stop entry creation"),
    }
}

fn confirmation_state(book: BookResult) -> State {
    State::AwaitConfirmation {
        book,
        categories: categories(),
        selected: vec!["Fiction".to_string()],
        synopsis: "A synopsis.".to_string(),
    }
}

// Rejecting the entry at confirmation must end the run before any
// create-row or upload-file request, and keep it ended.
#[test]
fn rejection_at_confirmation_touches_no_datastore() {
    let w = Workflow { config: config(), is_ebook: false, state: confirmation_state(google_book("T", None)) };
    let (w, a) = w.step(Event::Confirmed { result: Ok(false) });
    assert!(matches!(a, Action::Finish));
    assert!(matches!(w.state, State::Done { outcome: Outcome::Cancelled { .. } }));
    // nothing further is ever requested
    let (w, a) = w.step(Event::CoverUploaded {
        result: Ok(CoverImage { name: "x.jpg".to_string() }),
    });
    assert!(matches!(a, Action::Finish));
    let (_, a) = w.step(Event::EntryCreated {
        result: Ok(CreatedEntry { id: 9, fields: vec![] }),
    });
    assert!(matches!(a, Action::Finish));
}

// A failed primary cover download falls back to the ISBN-keyed provider URL
// exactly once; with no ISBN there is no second attempt and the entry is
// built with zero cover references.
#[test]
fn cover_fallback_is_attempted_exactly_once() {
    let w = Workflow { config: config(), is_ebook: false, state: confirmation_state(google_book("T", None)) };
    let (w, a) = w.step(Event::Confirmed { result: Ok(true) });
    match &a {
        Action::AcquireCover { url, filename } => {
            assert_eq!(url, "https://books.example/c?zoom=1");
            assert_eq!(filename, "cover.jpg");
        }
        _ => panic!("approval must attempt the primary cover"),
    }
    let (w, a) = w.step(Event::CoverUploaded {
        result: Err(book_catalog::workflow::UploadError { message: "404".to_string() }),
    });
    match &a {
        Action::AcquireCover { url, filename } => {
            assert_eq!(url, "https://covers.openlibrary.org/b/isbn/9780000000002-L.jpg");
            assert_eq!(filename, "cover-fallback.jpg");
        }
        _ => panic!("a failed primary attempt must try the ISBN provider once"),
    }
    let (_, a) = w.step(Event::CoverUploaded {
        result: Err(book_catalog::workflow::UploadError { message: "404".to_string() }),
    });
    match a {
        Action::CreateEntry { entry } => assert_eq!(entry.cover.len(), 0),
        _ => panic!("after both attempts fail the entry proceeds with no cover"),
    }
}

#[test]
fn no_isbn_means_no_secondary_cover_attempt() {
    let mut book = google_book("T", None);
    if let BookResult::Google(item) = &mut book {
        item.volume_info.industry_identifiers = None;
    }
    let w = Workflow { config: config(), is_ebook: false, state: confirmation_state(book) };
    let (w, a) = w.step(Event::Confirmed { result: Ok(true) });
    assert!(matches!(a, Action::AcquireCover { .. }));
    let (_, a) = w.step(Event::CoverUploaded {
        result: Err(book_catalog::workflow::UploadError { message: "404".to_string() }),
    });
    match a {
        Action::CreateEntry { entry } => assert_eq!(entry.cover.len(), 0),
        _ => panic!("without an ISBN the entry proceeds with no cover"),
    }
}

// End to end: the ISBN is found only through the second source, the short
// description forces web search and both model calls, confirmation is
// requested, the cover acquired, and the submitted entry carries a non-empty
// category list and the model's synopsis with its label prefix stripped.
#[test]
fn end_to_end_fallback_enrichment_and_creation() {
    let searcher = CombinedBookSearcher::new(config());
    let (w, a) = searcher.search_by_isbn("9780000000002".to_string(), true);
    assert!(matches!(a, Action::SearchPrimary { .. }));

    let (w, a) = w.step(Event::Primary { result: Ok(results(vec![], "Google Books")) });
    assert!(matches!(a, Action::SearchFallback { .. }));

    let ten_words = "one two three four five six seven eight nine ten";
    let (w, a) = w.step(Event::Fallback {
        result: Ok(results(vec![google_book("Found Via B", Some(ten_words))], "Open Library")),
    });
    assert!(matches!(a, Action::FetchCategories));

    let (w, a) = w.step(Event::Categories { result: Ok(categories()) });
    match &a {
        Action::SearchWeb { title, author } => {
            assert_eq!(title, "Found Via B");
            assert_eq!(author, "Test Author");
        }
        _ => panic!("enrichment must consult the web-search collaborator"),
    }

    let (w, a) = w.step(Event::WebSearched { result: Ok(vec![]) });
    match &a {
        Action::CompleteCategories { prompt } => {
            assert!(prompt.contains("Fiction, Mystery, Drama"));
            assert!(prompt.contains(ten_words));
        }
        _ => panic!("category selection must ask the model"),
    }

    let (w, a) = w.step(Event::CategoryReply { result: Ok("Mystery, Fiction".to_string()) });
    assert!(matches!(a, Action::SearchWeb { .. }));

    let (w, a) = w.step(Event::WebSearched { result: Ok(vec![]) });
    match &a {
        Action::CompleteSynopsis { prompt } => {
            assert!(prompt.contains("approximately 150 words"));
        }
        _ => panic!("synopsis generation must ask the model"),
    }

    let (w, a) = w.step(Event::SynopsisReply {
        result: Ok("Synopsis: A gripping tale of tests.".to_string()),
    });
    match &a {
        Action::PromptConfirm { summary } => {
            assert!(summary.contains("Found Via B"));
            assert!(summary.contains("Ebook"));
            assert!(summary.contains("A gripping tale of tests."));
        }
        _ => panic!("confirmation must be requested"),
    }

    let (w, a) = w.step(Event::Confirmed { result: Ok(true) });
    assert!(matches!(a, Action::AcquireCover { .. }));

    let (w, a) = w.step(Event::CoverUploaded {
        result: Ok(CoverImage { name: "up.jpg".to_string() }),
    });
    let entry = match a {
        Action::CreateEntry { entry } => entry,
        _ => panic!("an approved, assembled entry must be submitted"),
    };
    assert_eq!(entry.title, "Found Via B");
    assert_eq!(entry.author, "Test Author");
    assert_eq!(entry.isbn, Some("9780000000002".to_string()));
    assert_eq!(entry.synopsis, "A gripping tale of tests.");
    assert_eq!(entry.category, vec![101, 100]);
    assert!(!entry.category.is_empty());
    assert_eq!(entry.media_type, Some(3021));
    assert!(!entry.read);
    assert_eq!(entry.rating, 0);
    assert!(entry.location.is_empty());
    assert_eq!(entry.cover.len(), 1);
    assert_eq!(entry.cover[0].name, "up.jpg");

    let (w, a) = w.step(Event::EntryCreated {
        result: Ok(CreatedEntry { id: 424242, fields: vec![] }),
    });
    assert!(matches!(a, Action::Finish));
    match w.state {
        State::Done { outcome: Outcome::Created { entry_id, .. } } => {
            assert_eq!(entry_id, 424242)
        }
        _ => panic!("the run must end in creation"),
    }
}

#[test]
fn selection_cancel_and_prompt_failure() {
    let searcher = CombinedBookSearcher::new(config());
    let (w, _) = searcher.search_by_isbn("1".to_string(), false);
    let two = vec![google_book("A", None), google_book("B", None)];
    let (w, a) = w.step(Event::Primary { result: Ok(results(two, "Google Books")) });
    let items = match a {
        Action::PromptSelect { items } => items,
        _ => panic!("two candidates need a prompt"),
    };
    assert_eq!(items.len(), 3);
    // choosing the cancel entry ends the run without a candidate
    let (w, a) = w.step(Event::Selected { result: Ok(2) });
    assert!(matches!(a, Action::Finish));
    assert!(matches!(w.state, State::Done { outcome: Outcome::NoSelection }));

    // an interaction failure falls back to the first candidate
    let searcher = CombinedBookSearcher::new(config());
    let (w, _) = searcher.search_by_isbn("1".to_string(), false);
    let two = vec![google_book("A", None), google_book("B", None)];
    let (w, _) = w.step(Event::Primary { result: Ok(results(two, "Google Books")) });
    let (w, a) = w.step(Event::Selected {
        result: Err(book_catalog::workflow::PromptError { message: "not a tty".to_string() }),
    });
    assert!(matches!(a, Action::FetchCategories));
    match &w.state {
        State::AwaitCategories { book } => assert_eq!(book.get_full_title(), "A"),
        s => panic!("expected the first candidate, found {}", phase_name(s)),
    }
}

#[test]
fn confirmation_summary_text() {
    let book = google_book("T", None);
    let names = vec!["Fiction".to_string(), "Drama".to_string()];
    let summary =
        book_catalog::workflow::confirmation_summary(&book, &names, "Short synopsis.", true);
    let expected = [
        "",
        "==================================================",
        "               CONFIRMATION SUMMARY",
        "==================================================",
        "Title:     T",
        "Author:    Test Author",
        "ISBN:      9780000000002",
        "Type:      Ebook",
        "Categories: Fiction, Drama",
        "Synopsis:  Short synopsis.",
        "==================================================",
        "",
    ]
    .join("\n");
    assert_eq!(summary, expected);
    // long synopses are cut for display
    let long: String = "x".repeat(301);
    let s2 = book_catalog::workflow::confirmation_summary(&book, &names, &long, false);
    let expected_preview = format!("{}...", "x".repeat(297));
    assert!(s2.contains(&expected_preview));
    assert!(!s2.contains(&long));
    assert!(s2.contains("Physical Book"));
}

#[test]
fn source_failure_after_fallback_is_terminal() {
    let searcher = CombinedBookSearcher::new(config());
    let (w, _) = searcher.search_by_isbn("1".to_string(), false);
    let (w, _) = w.step(Event::Primary {
        result: Err(book_catalog::book_search::SourceError::Transport("dns".to_string())),
    });
    let (w, a) = w.step(Event::Fallback {
        result: Err(book_catalog::book_search::SourceError::NotFound),
    });
    assert!(matches!(a, Action::Finish));
    assert!(matches!(
        w.state,
        State::Done {
            outcome: Outcome::SourceFailed {
                error: book_catalog::book_search::SourceError::NotFound,
            },
        }
    ));
}

#[test]
fn empty_category_table_is_terminal() {
    let w = Workflow {
        config: config(),
        is_ebook: false,
        state: State::AwaitCategories { book: google_book("T", None) },
    };
    let (w, a) = w.step(Event::Categories { result: Ok(vec![]) });
    assert!(matches!(a, Action::Finish));
    assert!(matches!(w.state, State::Done { outcome: Outcome::NoCategories { .. } }));

    let w = Workflow {
        config: config(),
        is_ebook: false,
        state: State::AwaitCategories { book: google_book("T", None) },
    };
    let (w, a) = w.step(Event::Categories { result: Err(BaserowError::AuthenticationFailed) });
    assert!(matches!(a, Action::Finish));
    assert!(matches!(
        w.state,
        State::Done { outcome: Outcome::CategoriesUnavailable { .. } }
    ));
}

#[test]
fn unconfigured_provider_stops_before_any_model_call() {
    let mut c = config();
    c.llm.provider = "openai".to_string();  // its key is the placeholder
    let w = Workflow {
        config: c,
        is_ebook: false,
        state: State::AwaitCategoryInfo {
            book: google_book("T", None),
            categories: categories(),
        },
    };
    let (w, a) = w.step(Event::WebSearched { result: Ok(vec![]) });
    assert!(matches!(a, Action::Finish));
    assert!(matches!(
        w.state,
        State::Done { outcome: Outcome::CategorySelectionFailed { .. } }
    ));
}

#[test]
fn failed_confirmation_prompt_creates_nothing() {
    let w = Workflow {
        config: config(),
        is_ebook: false,
        state: confirmation_state(google_book("T", None)),
    };
    let (w, a) = w.step(Event::Confirmed {
        result: Err(book_catalog::workflow::PromptError { message: "not a tty".to_string() }),
    });
    assert!(matches!(a, Action::Finish));
    assert!(matches!(w.state, State::Done { outcome: Outcome::PromptFailed { .. } }));
}

#[test]
fn an_event_out_of_turn_ends_the_run() {
    let searcher = CombinedBookSearcher::new(config());
    let (w, _) = searcher.search_by_isbn("1".to_string(), false);
    let (w, a) = w.step(Event::Confirmed { result: Ok(true) });
    assert!(matches!(a, Action::Finish));
    assert!(matches!(w.state, State::Done { outcome: Outcome::OutOfTurn }));
}

#[test]
fn failed_synopsis_reply_keeps_existing_description() {
    let desc = vec!["word"; 10].join(" ");
    let w = Workflow {
        config: config(),
        is_ebook: false,
        state: State::AwaitSynopsisReply {
            book: google_book("T", Some(&desc)),
            categories: categories(),
            selected: vec!["Fiction".to_string()],
        },
    };
    let (w, a) = w.step(Event::SynopsisReply {
        result: Err(book_catalog::llm::LlmError::RequestFailed("timeout".to_string())),
    });
    assert!(matches!(a, Action::PromptConfirm { .. }));
    match &w.state {
        State::AwaitConfirmation { synopsis, .. } => assert_eq!(synopsis, &desc),
        s => panic!("expected confirmation, found {}", phase_name(s)),
    }
}
