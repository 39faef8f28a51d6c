use book_catalog::baserow::{Category, Field};
use book_catalog::llm::{
    clean_synopsis_response, create_synopsis_prompt, parse_category_response, LlmError,
};
use book_catalog::text::{
    count_words, join_with, remove_all, split_commas, str_contains, str_ends_with, str_eq,
    str_starts_with, trim, u32_to_string, u64_to_string,
};

fn category(id: u64, name: &str) -> Category {
    Category {
        id,
        fields: vec![Field { key: "Name".to_string(), value: Some(name.to_string()) }],
    }
}

#[test]
fn word_counting_basics() {
    assert_eq!(count_words(""), 0);
    assert_eq!(count_words("   "), 0);
    assert_eq!(count_words("one"), 1);
    assert_eq!(count_words("one two three"), 3);
    assert_eq!(count_words("  spaced\tout\nwords  here "), 4);
    // the full Unicode white-space set separates words, as the standard
    // library's whitespace splitting does
    assert_eq!(count_words("a\u{a0}b\u{2003}c\u{3000}d"), 4);
    let sample = " alpha\u{2028}beta\u{85}gamma\u{202f}";
    assert_eq!(count_words(sample), sample.split_whitespace().count());
}

#[test]
fn unicode_whitespace_is_trimmed() {
    assert_eq!(trim("\u{2009}padded\u{a0}"), "padded");
    assert_eq!(trim("\u{3000}\u{1680}"), "");
}

#[test]
fn trim_behaves_like_whitespace_trim() {
    assert_eq!(trim("  hello  "), "hello");
    assert_eq!(trim("hello"), "hello");
    assert_eq!(trim(" \t\r\n "), "");
    assert_eq!(trim(""), "");
    assert_eq!(trim("\na b\t"), "a b");
}

#[test]
fn split_commas_keeps_empty_tokens() {
    assert_eq!(split_commas("a,b,c"), vec!["a", "b", "c"]);
    assert_eq!(split_commas(""), vec![""]);
    assert_eq!(split_commas("a,,b,"), vec!["a", "", "b", ""]);
    assert_eq!(split_commas("solo"), vec!["solo"]);
}

#[test]
fn string_predicates() {
    assert!(str_starts_with("http://x", "http://"));
    assert!(!str_starts_with("https://x", "http://"));
    assert!(str_ends_with("cover.jpg", ".jpg"));
    assert!(!str_ends_with("cover.jpeg", ".jpg"));
    assert!(str_eq("same", "same"));
    assert!(!str_eq("same", "sameish"));
    assert!(str_contains("an api_key_your_value here", "your_"));
    assert!(!str_contains("configured-key", "your_"));
    assert!(str_contains("abc", ""));
}

#[test]
fn decimal_rendering() {
    assert_eq!(u64_to_string(0), "0");
    assert_eq!(u64_to_string(7), "7");
    assert_eq!(u64_to_string(90125), "90125");
    assert_eq!(u64_to_string(u64::MAX), u64::MAX.to_string());
    assert_eq!(u32_to_string(2024), "2024");
}

#[test]
fn joining_strings() {
    let items = vec!["a".to_string(), "b".to_string(), "c".to_string()];
    assert_eq!(join_with(&items, ", "), "a, b, c");
    let one = vec!["solo".to_string()];
    assert_eq!(join_with(&one, ", "), "solo");
    let none: Vec<String> = vec![];
    assert_eq!(join_with(&none, ", "), "");
}

#[test]
fn pattern_removal() {
    assert_eq!(remove_all("a&edge=curlb&edge=curl", "&edge=curl"), "ab");
    assert_eq!(remove_all("nothing here", "&edge=curl"), "nothing here");
    assert_eq!(remove_all("xxx", "x"), "");
}

// The category reply "Fiction, Mystery, Nonexistent, mystery" against the
// vocabulary {Fiction, Mystery, Drama} resolves to matching names only:
// the unknown name never survives, and matching is case-insensitive.
#[test]
fn category_reply_filters_to_vocabulary() {
    let cats = vec![category(1, "Fiction"), category(2, "Mystery"), category(3, "Drama")];
    let picked = parse_category_response("Fiction, Mystery, Nonexistent, mystery", &cats).unwrap();
    assert_eq!(picked, vec!["Fiction", "Mystery", "mystery"]);
    assert!(!picked.iter().any(|p| p == "Nonexistent"));
}

#[test]
fn category_reply_caps_at_five() {
    let cats: Vec<Category> =
        (0..8).map(|i| category(i, &format!("Genre{}", i))).collect();
    let reply = "Genre0, Genre1, Genre2, Genre3, Genre4, Genre5, Genre6";
    let picked = parse_category_response(reply, &cats).unwrap();
    assert_eq!(picked.len(), 5);
    assert_eq!(picked, vec!["Genre0", "Genre1", "Genre2", "Genre3", "Genre4"]);
}

#[test]
fn category_reply_with_no_valid_name_is_an_error() {
    let cats = vec![category(1, "Fiction")];
    match parse_category_response("Cooking, , Gardening", &cats) {
        Err(LlmError::InvalidResponse(m)) => {
            assert_eq!(m, "No valid categories found in LLM response");
        }
        _ => panic!("a reply matching nothing must be rejected"),
    }
}

#[test]
fn synopsis_prefixes_are_stripped() {
    assert_eq!(clean_synopsis_response("Synopsis: A fine tale."), "A fine tale.");
    assert_eq!(clean_synopsis_response("SYNOPSIS: A fine tale."), "A fine tale.");
    assert_eq!(clean_synopsis_response("**SYNOPSIS** A fine tale."), "A fine tale.");
    assert_eq!(clean_synopsis_response("**Synopsis** A fine tale."), "A fine tale.");
    assert_eq!(clean_synopsis_response("  A fine tale.  "), "A fine tale.");
    assert_eq!(clean_synopsis_response("A tale mentioning Synopsis: inside"),
        "A tale mentioning Synopsis: inside");
}

#[test]
fn category_prompt_is_built_exactly() {
    let cats = vec![category(1, "Fiction"), category(2, "Drama")];
    let p = book_catalog::llm::create_category_selection_prompt("INFO", &cats);
    let expected = format!(
        "You are a librarian helping to categorize books. Based on the book information provided, select 3-5 categories that best describe this book.\n\n\
         BOOK INFORMATION:\n{}\n\n\
         AVAILABLE CATEGORIES (you MUST choose ONLY from these exact categories):\n{}\n\n\
         INSTRUCTIONS:\n\
         1. Select 3-5 categories from the list above that best fit this book\n\
         2. Consider genre, subject matter, target audience, and content type\n\
         3. Return ONLY the category names, separated by commas\n\
         4. Use the exact category names as listed above\n\
         5. Do not create new categories or modify existing ones\n\n\
         RESPONSE FORMAT: Category1, Category2, Category3, Category4, Category5",
        "INFO", "Fiction, Drama"
    );
    assert_eq!(p, expected);
}

#[test]
fn synopsis_prompt_names_the_target_twice() {
    let p = create_synopsis_prompt("INFO", 150);
    assert!(p.contains("approximately 150 words"));
    assert!(p.contains("Target length: approximately 150 words"));
    assert!(p.contains("INFO"));
}
