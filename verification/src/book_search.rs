//! The unified search-result model: one candidate type over both
//! bibliographic sources, uniform accessors, conversion of raw source
//! responses into one ordered candidate list, and the pure core of the
//! interactive disambiguator.

use vstd::prelude::*;
use vstd::string::*;
use crate::google_books::{
    spec_all_authors, spec_full_title, spec_identifier_of, BookItem, GoogleBooksResponse,
};
use crate::open_library::{
    spec_first_string, spec_latest_year, OpenLibraryBook, OpenLibrarySearchResponse,
};
use crate::text::{opt_view, spec_dec, u32_to_string, views_of};

verus! {

/// One normalized search result from either bibliographic source.
pub enum BookResult {
    Google(BookItem),
    OpenLibrary(OpenLibraryBook),
}

/// How a bibliographic source can fail: the taxonomy both adapters share.
#[derive(Debug)]
pub enum SourceError {
    Transport(String),
    Unauthorized,
    NotFound,
    InvalidResponse(String),
}

/// The full result set of one search attempt, with its source label; the
/// label serves display only.
pub struct SearchResults {
    pub books: Vec<BookResult>,
    pub source: String,
}

/// The display title of a candidate.
pub open spec fn spec_result_title(b: BookResult) -> Seq<char> {
    match b {
        BookResult::Google(item) => spec_full_title(
            item.volume_info.title@,
            opt_view(item.volume_info.subtitle),
        ),
        BookResult::OpenLibrary(book) => spec_full_title(book.title@, opt_view(book.subtitle)),
    }
}

/// The joined author display text of a candidate.
pub open spec fn spec_result_authors(b: BookResult) -> Seq<char> {
    match b {
        BookResult::Google(item) => spec_all_authors(
            match item.volume_info.authors {
                Some(names) => Some(views_of(names@)),
                None => None,
            },
        ),
        BookResult::OpenLibrary(book) => spec_all_authors(
            match book.author_name {
                Some(names) => Some(views_of(names@)),
                None => None,
            },
        ),
    }
}

/// The best-known publication year or date of a candidate.
pub open spec fn spec_result_date(b: BookResult) -> Option<Seq<char>> {
    match b {
        BookResult::Google(item) => opt_view(item.volume_info.published_date),
        BookResult::OpenLibrary(book) => match spec_latest_year(book) {
            Some(y) => Some(spec_dec(y as nat)),
            None => spec_first_string(book.publish_date),
        },
    }
}

/// The best-known ISBN of a candidate: the thirteen-digit one before the
/// ten-digit one for the first source, the first listed one for the second.
pub open spec fn spec_result_isbn(b: BookResult) -> Option<Seq<char>> {
    match b {
        BookResult::Google(item) => match spec_identifier_of(item, "ISBN_13"@) {
            Some(s) => Some(s),
            None => spec_identifier_of(item, "ISBN_10"@),
        },
        BookResult::OpenLibrary(book) => spec_first_string(book.isbn),
    }
}

/// The description carried by a candidate itself; only the first source
/// embeds one in its search results.
pub open spec fn spec_result_description(b: BookResult) -> Option<Seq<char>> {
    match b {
        BookResult::Google(item) => opt_view(item.volume_info.description),
        BookResult::OpenLibrary(_) => None,
    }
}

impl BookResult {
    /// The display title, source-independently.
    pub fn get_full_title(&self) -> (r: String)
        ensures
            r@ == spec_result_title(*self),
    {
        match self {
            BookResult::Google(item) => item.get_full_title(),
            BookResult::OpenLibrary(book) => book.get_full_title(),
        }
    }

    /// The joined author text, source-independently.
    pub fn get_all_authors(&self) -> (r: String)
        ensures
            r@ == spec_result_authors(*self),
    {
        match self {
            BookResult::Google(item) => item.get_all_authors(),
            BookResult::OpenLibrary(book) => book.get_all_authors(),
        }
    }

    /// The best-known publication year or date, source-independently.
    pub fn get_published_date(&self) -> (r: Option<String>)
        ensures
            opt_view(r) == spec_result_date(*self),
    {
        match self {
            BookResult::Google(item) => crate::text::clone_opt_string(
                &item.volume_info.published_date,
            ),
            BookResult::OpenLibrary(book) => {
                match book.get_latest_publish_year() {
                    Some(y) => Some(u32_to_string(y)),
                    None => book.get_latest_publish_date(),
                }
            },
        }
    }

    /// The best-known ISBN, source-independently.
    pub fn get_isbn(&self) -> (r: Option<String>)
        ensures
            opt_view(r) == spec_result_isbn(*self),
    {
        match self {
            BookResult::Google(item) => {
                match item.get_isbn_13() {
                    Some(s) => Some(s),
                    None => item.get_isbn_10(),
                }
            },
            BookResult::OpenLibrary(book) => book.get_best_isbn(),
        }
    }

    /// The description the candidate itself carries, if any.
    pub fn get_description(&self) -> (r: Option<String>)
        ensures
            opt_view(r) == spec_result_description(*self),
    {
        match self {
            BookResult::Google(item) => crate::text::clone_opt_string(
                &item.volume_info.description,
            ),
            BookResult::OpenLibrary(_) => None,
        }
    }
}

/// Wraps the first source's response items as candidates, in their returned
/// order, under that source's label.
pub fn google_results(resp: GoogleBooksResponse) -> (r: SearchResults)
    ensures
        r.source@ == "Google Books"@,
        match resp.items {
            Some(items) => r.books@.len() == items@.len() && forall|k: int|
                0 <= k < items@.len() ==> r.books@[k] == BookResult::Google(items@[k]),
            None => r.books@.len() == 0,
        },
{
    let mut books: Vec<BookResult> = Vec::new();
    match resp.items {
        Some(mut items) => {
            let ghost orig = items@;
            while items.len() > 0
                invariant
                    books@.len() + items@.len() == orig.len(),
                    items@ =~= orig.skip(books@.len() as int),
                    forall|k: int|
                        0 <= k < books@.len() ==> books@[k] == BookResult::Google(orig[k]),
                decreases items@.len(),
            {
                let item = items.remove(0);
                assert(item == orig[books@.len() as int]);
                books.push(BookResult::Google(item));
                assert(items@ =~= orig.skip(books@.len() as int));
            }
            SearchResults { books, source: String::from_str("Google Books") }
        },
        None => SearchResults { books, source: String::from_str("Google Books") },
    }
}

/// Wraps the second source's response documents as candidates, in their
/// returned order, under that source's label.
pub fn open_library_results(resp: OpenLibrarySearchResponse) -> (r: SearchResults)
    ensures
        r.source@ == "Open Library"@,
        r.books@.len() == resp.docs@.len(),
        forall|k: int|
            0 <= k < resp.docs@.len() ==> r.books@[k] == BookResult::OpenLibrary(resp.docs@[k]),
{
    let mut books: Vec<BookResult> = Vec::new();
    let mut docs = resp.docs;
    let ghost orig = docs@;
    while docs.len() > 0
        invariant
            books@.len() + docs@.len() == orig.len(),
            docs@ =~= orig.skip(books@.len() as int),
            forall|k: int|
                0 <= k < books@.len() ==> books@[k] == BookResult::OpenLibrary(orig[k]),
        decreases docs@.len(),
    {
        let doc = docs.remove(0);
        assert(doc == orig[books@.len() as int]);
        books.push(BookResult::OpenLibrary(doc));
        assert(docs@ =~= orig.skip(books@.len() as int));
    }
    SearchResults { books, source: String::from_str("Open Library") }
}

/// The label under which one candidate is offered for selection.
pub open spec fn spec_selection_label(b: BookResult) -> Seq<char> {
    let date = match spec_result_date(b) {
        Some(d) => d,
        None => "Unknown year"@,
    };
    spec_result_title(b) + " by "@ + spec_result_authors(b) + " ("@ + date + ")"@
}

/// How many candidates of `n` a prompt with display cap `cap` offers.
pub open spec fn spec_shown(n: nat, cap: nat) -> nat {
    if n > cap {
        cap
    } else {
        n
    }
}

/// The prompt labels for a candidate list under a display cap: one label per
/// shown candidate, in original order, then the cancel entry.
pub fn selection_labels(books: &Vec<BookResult>, cap: usize) -> (r: Vec<String>)
    ensures
        r@.len() == spec_shown(books@.len(), cap as nat) + 1,
        forall|k: int|
            0 <= k < r@.len() - 1 ==> r@[k]@ == spec_selection_label(books@[k]),
        r@[r@.len() - 1]@ == "Cancel - don't add any book"@,
{
    let shown: usize = if books.len() > cap {
        cap
    } else {
        books.len()
    };
    let mut r: Vec<String> = Vec::new();
    let mut i: usize = 0;
    while i < shown
        invariant
            i <= shown,
            shown <= books@.len(),
            r@.len() == i,
            forall|k: int| 0 <= k < i ==> r@[k]@ == spec_selection_label(books@[k]),
        decreases shown - i,
    {
        let mut label = books[i].get_full_title();
        label.append(" by ");
        let authors = books[i].get_all_authors();
        label.append(authors.as_str());
        label.append(" (");
        match books[i].get_published_date() {
            Some(d) => label.append(d.as_str()),
            None => label.append("Unknown year"),
        }
        label.append(")");
        r.push(label);
        i = i + 1;
    }
    r.push(String::from_str("Cancel - don't add any book"));
    r
}

/// Maps a prompt choice back into the shown candidates: the final entry is
/// the cancel entry, every other index is the candidate itself.
pub fn selection_outcome(shown: usize, choice: usize) -> (r: Option<usize>)
    requires
        choice <= shown,
    ensures
        r == if choice == shown {
            None::<usize>
        } else {
            Some(choice)
        },
        r matches Some(k) ==> k < shown,
{
    if choice == shown {
        None
    } else {
        Some(choice)
    }
}

/// With more candidates than the display cap, the disambiguator offers
/// exactly `cap` selectable entries (the prompt then holds `cap + 1` items,
/// counting the cancel entry); with `selection_outcome` mapping every chosen
/// entry below the shown count, no selectable index reaches past the cap.
pub proof fn lemma_display_cap(n: nat, cap: nat)
    requires
        n > cap,
    ensures
        spec_shown(n, cap) == cap,
{
}

} // verus!
