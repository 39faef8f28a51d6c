//! The second bibliographic source: result shapes of its search and book
//! APIs, derived accessors over them, search-URL construction and the
//! cover-image provider URL templates.

use vstd::prelude::*;
use vstd::string::*;
use crate::foreign::{url_encode, url_encoded};
use crate::text::{
    join_with, opt_view, push_line, spec_dec, spec_join, spec_line, u32_to_string, views_of,
};

verus! {

/// One page of search results from the second source.
pub struct OpenLibrarySearchResponse {
    pub num_found: u32,
    pub start: u32,
    pub num_found_exact: Option<bool>,
    pub docs: Vec<OpenLibraryBook>,
}

/// One work as the second source's search API returns it.
pub struct OpenLibraryBook {
    pub key: String,
    pub title: String,
    pub subtitle: Option<String>,
    pub author_name: Option<Vec<String>>,
    pub author_key: Option<Vec<String>>,
    pub first_publish_year: Option<u32>,
    pub publish_year: Option<Vec<u32>>,
    pub publish_date: Option<Vec<String>>,
    pub publisher: Option<Vec<String>>,
    pub number_of_pages_median: Option<u32>,
    pub isbn: Option<Vec<String>>,
    pub cover_i: Option<u32>,
    pub cover_edition_key: Option<String>,
    pub has_fulltext: Option<bool>,
    pub subject: Option<Vec<String>>,
    pub subject_key: Option<Vec<String>>,
    pub language: Option<Vec<String>>,
    pub edition_count: Option<u32>,
    pub edition_key: Option<Vec<String>>,
    pub first_sentence: Option<Vec<String>>,
}

/// One edition as the second source's book API returns it.
pub struct OpenLibraryBookDetails {
    pub key: String,
    pub title: String,
    pub subtitle: Option<String>,
    pub description: Option<OpenLibraryDescription>,
    pub authors: Option<Vec<OpenLibraryAuthorRef>>,
    pub publish_date: Option<String>,
    pub publishers: Option<Vec<String>>,
    pub number_of_pages: Option<u32>,
    pub isbn_10: Option<Vec<String>>,
    pub isbn_13: Option<Vec<String>>,
    pub covers: Option<Vec<u32>>,
    pub subjects: Option<Vec<String>>,
    pub works: Option<Vec<OpenLibraryWorkRef>>,
}

/// A description, which the second source returns either bare or wrapped in
/// a typed object.
pub enum OpenLibraryDescription {
    Text(String),
    Object { desc_type: String, value: String },
}

/// A reference to an author record.
pub struct OpenLibraryAuthorRef {
    pub key: String,
}

/// A reference to a work record.
pub struct OpenLibraryWorkRef {
    pub key: String,
}

/// A reference to a language record.
pub struct OpenLibraryLanguageRef {
    pub key: String,
}

/// An author record of the second source.
pub struct OpenLibraryAuthor {
    pub key: String,
    pub name: String,
    pub personal_name: Option<String>,
    pub birth_date: Option<String>,
    pub death_date: Option<String>,
}

/// The first element of an optional string list, if there is one.
pub open spec fn spec_first_string(o: Option<Vec<String>>) -> Option<Seq<char>> {
    match o {
        Some(v) => if v@.len() > 0 {
            Some(v@[0]@)
        } else {
            None
        },
        None => None,
    }
}

/// Clones the first element of an optional string list.
pub fn first_string(o: &Option<Vec<String>>) -> (r: Option<String>)
    ensures
        opt_view(r) == spec_first_string(*o),
{
    match o {
        Some(v) => {
            if v.len() > 0 {
                Some(v[0].clone())
            } else {
                None
            }
        },
        None => None,
    }
}

/// The largest element of a non-empty sequence.
pub open spec fn spec_max_u32(s: Seq<u32>) -> u32
    recommends
        s.len() > 0,
    decreases s.len(),
{
    if s.len() <= 1 {
        s[0]
    } else {
        let m = spec_max_u32(s.drop_last());
        if s.last() >= m {
            s.last()
        } else {
            m
        }
    }
}

/// The best-known publish year of a work: the largest listed year; with an
/// empty year list the first publish year; with no year list, nothing.
pub open spec fn spec_latest_year(b: OpenLibraryBook) -> Option<u32> {
    match b.publish_year {
        Some(v) => if v@.len() > 0 {
            Some(spec_max_u32(v@))
        } else {
            b.first_publish_year
        },
        None => None,
    }
}

/// The cover-provider URL for a numeric cover identifier.
pub open spec fn spec_id_cover_url(id: nat) -> Seq<char> {
    "https://covers.openlibrary.org/b/id/"@ + spec_dec(id) + "-L.jpg"@
}

/// The cover-provider URL for an ISBN, the secondary fallback template.
pub open spec fn spec_isbn_cover_url(isbn: Seq<char>) -> Seq<char> {
    "https://covers.openlibrary.org/b/isbn/"@ + isbn + "-L.jpg"@
}

/// Builds the ISBN-keyed cover-provider URL.
pub fn isbn_cover_url(isbn: &str) -> (r: String)
    ensures
        r@ == spec_isbn_cover_url(isbn@),
{
    let mut r = String::from_str("https://covers.openlibrary.org/b/isbn/");
    r.append(isbn);
    r.append("-L.jpg");
    r
}

/// Builds the identifier-keyed cover-provider URL.
pub fn id_cover_url(id: u32) -> (r: String)
    ensures
        r@ == spec_id_cover_url(id as nat),
{
    let mut r = String::from_str("https://covers.openlibrary.org/b/id/");
    let digits = u32_to_string(id);
    r.append(digits.as_str());
    r.append("-L.jpg");
    r
}

/// The ISBN search URL of the second source.
pub open spec fn spec_ol_isbn_search_url(base: Seq<char>, isbn: Seq<char>) -> Seq<char> {
    base + "/search.json?isbn="@ + isbn
}

/// Builds the ISBN search URL of the second source.
pub fn ol_isbn_search_url(base: &str, isbn: &str) -> (r: String)
    ensures
        r@ == spec_ol_isbn_search_url(base@, isbn@),
{
    let mut r = String::from_str(base);
    r.append("/search.json?isbn=");
    r.append(isbn);
    r
}

/// The title/author search URL of the second source, both terms
/// percent-encoded.
pub open spec fn spec_ol_title_author_search_url(
    base: Seq<char>,
    title: Seq<char>,
    author: Seq<char>,
) -> Seq<char> {
    base + "/search.json?title="@ + url_encoded(title) + "&author="@ + url_encoded(author)
}

/// Builds the title/author search URL of the second source.
pub fn ol_title_author_search_url(base: &str, title: &str, author: &str) -> (r: String)
    ensures
        r@ == spec_ol_title_author_search_url(base@, title@, author@),
{
    let mut r = String::from_str(base);
    r.append("/search.json?title=");
    let t = url_encode(title);
    r.append(t.as_str());
    r.append("&author=");
    let a = url_encode(author);
    r.append(a.as_str());
    r
}

/// The record URL for a key of the second source, as used for book details
/// and author lookups.
pub open spec fn spec_ol_record_url(base: Seq<char>, key: Seq<char>) -> Seq<char> {
    base + key + ".json"@
}

/// Builds the record URL for a key of the second source.
pub fn ol_record_url(base: &str, key: &str) -> (r: String)
    ensures
        r@ == spec_ol_record_url(base@, key@),
{
    let mut r = String::from_str(base);
    r.append(key);
    r.append(".json");
    r
}

impl OpenLibraryBook {
    /// The first listed ISBN, if any.
    pub fn get_best_isbn(&self) -> (r: Option<String>)
        ensures
            opt_view(r) == spec_first_string(self.isbn),
    {
        first_string(&self.isbn)
    }

    /// The provider cover URL for this work's cover identifier, if any.
    pub fn get_cover_url(&self) -> (r: Option<String>)
        ensures
            match self.cover_i {
                Some(id) => opt_view(r) == Some(spec_id_cover_url(id as nat)),
                None => r is None,
            },
    {
        match self.cover_i {
            Some(id) => Some(id_cover_url(id)),
            None => None,
        }
    }

    /// The first listed author, if any.
    pub fn get_primary_author(&self) -> (r: Option<String>)
        ensures
            opt_view(r) == spec_first_string(self.author_name),
    {
        first_string(&self.author_name)
    }

    /// All authors joined with commas, or the unknown-author placeholder.
    pub fn get_all_authors(&self) -> (r: String)
        ensures
            r@ == crate::google_books::spec_all_authors(
                match self.author_name {
                    Some(names) => Some(views_of(names@)),
                    None => None,
                },
            ),
    {
        match &self.author_name {
            Some(names) => join_with(names, ", "),
            None => String::from_str("Unknown Author"),
        }
    }

    /// Title and subtitle combined into one display title.
    pub fn get_full_title(&self) -> (r: String)
        ensures
            r@ == crate::google_books::spec_full_title(self.title@, opt_view(self.subtitle)),
    {
        match &self.subtitle {
            Some(sub) => {
                let mut r = self.title.clone();
                r.append(": ");
                r.append(sub.as_str());
                r
            },
            None => self.title.clone(),
        }
    }

    /// The first listed publisher, if any.
    pub fn get_primary_publisher(&self) -> (r: Option<String>)
        ensures
            opt_view(r) == spec_first_string(self.publisher),
    {
        first_string(&self.publisher)
    }

    /// The first listed publish date, if any.
    pub fn get_latest_publish_date(&self) -> (r: Option<String>)
        ensures
            opt_view(r) == spec_first_string(self.publish_date),
    {
        first_string(&self.publish_date)
    }

    /// The largest listed publish year; with an empty year list the first
    /// publish year; with no year list at all, nothing.
    pub fn get_latest_publish_year(&self) -> (r: Option<u32>)
        ensures
            r == spec_latest_year(*self),
    {
        match &self.publish_year {
            Some(v) => {
                if v.len() == 0 {
                    self.first_publish_year
                } else {
                    let mut m: u32 = v[0];
                    let mut i: usize = 1;
                    assert(v@.take(1) =~= seq![v@[0]]);
                    while i < v.len()
                        invariant
                            1 <= i <= v@.len(),
                            m == spec_max_u32(v@.take(i as int)),
                        decreases v@.len() - i,
                    {
                        assert(v@.take(i as int + 1).drop_last() =~= v@.take(i as int));
                        assert(v@.take(i as int + 1).last() == v@[i as int]);
                        if v[i] > m {
                            m = v[i];
                        }
                        i = i + 1;
                    }
                    assert(v@.take(v@.len() as int) =~= v@);
                    Some(m)
                }
            },
            None => None,
        }
    }
}

/// The up-to-five subjects shown in the details block.
pub open spec fn spec_shown_subjects(subjects: Seq<Seq<char>>) -> Seq<Seq<char>> {
    if subjects.len() > 5 {
        subjects.take(5)
    } else {
        subjects
    }
}

/// The details block shown for a work of the second source: title and
/// authors always, then each known optional detail on its own line.
pub open spec fn spec_ol_info(b: OpenLibraryBook) -> Seq<char> {
    "\n=== Book Information (Open Library) ===\n"@ + "Title: "@
        + crate::google_books::spec_full_title(b.title@, opt_view(b.subtitle)) + "\nAuthor(s): "@
        + crate::google_books::spec_all_authors(
        match b.author_name {
            Some(names) => Some(views_of(names@)),
            None => None,
        },
    ) + "\n"@ + spec_line("Publisher: "@, spec_first_string(b.publisher)) + spec_line(
        "Published: "@,
        match spec_latest_year(b) {
            Some(y) => Some(spec_dec(y as nat)),
            None => spec_first_string(b.publish_date),
        },
    ) + spec_line(
        "Pages: "@,
        match b.number_of_pages_median {
            Some(n) => Some(spec_dec(n as nat)),
            None => None,
        },
    ) + spec_line("ISBN: "@, spec_first_string(b.isbn)) + spec_line(
        "Cover Image: "@,
        match b.cover_i {
            Some(id) => Some(spec_id_cover_url(id as nat)),
            None => None,
        },
    ) + spec_line(
        "Subjects: "@,
        match b.subject {
            Some(s) => Some(spec_join(spec_shown_subjects(views_of(s@)), ", "@)),
            None => None,
        },
    ) + spec_line(
        "First Sentence: "@,
        match spec_first_string(b.first_sentence) {
            Some(s) => Some(
                if s.len() > 1000 {
                    s.take(1000) + "..."@
                } else {
                    s
                },
            ),
            None => None,
        },
    ) + "========================================\n"@
}

/// Renders the details block for a work of the second source.
pub fn display_open_library_book_info(book: &OpenLibraryBook) -> (r: String)
    ensures
        r@ == spec_ol_info(*book),
{
    let mut out = String::from_str("\n=== Book Information (Open Library) ===\n");
    out.append("Title: ");
    let title = book.get_full_title();
    out.append(title.as_str());
    out.append("\nAuthor(s): ");
    let authors = book.get_all_authors();
    out.append(authors.as_str());
    out.append("\n");
    let publisher = book.get_primary_publisher();
    push_line(&mut out, "Publisher: ", &publisher);
    let published: Option<String> = match book.get_latest_publish_year() {
        Some(y) => Some(u32_to_string(y)),
        None => book.get_latest_publish_date(),
    };
    push_line(&mut out, "Published: ", &published);
    let pages: Option<String> = match book.number_of_pages_median {
        Some(n) => Some(u32_to_string(n)),
        None => None,
    };
    push_line(&mut out, "Pages: ", &pages);
    let isbn = book.get_best_isbn();
    push_line(&mut out, "ISBN: ", &isbn);
    let cover = book.get_cover_url();
    push_line(&mut out, "Cover Image: ", &cover);
    let subjects: Option<String> = match &book.subject {
        Some(s) => {
            let shown: usize = if s.len() > 5 {
                5
            } else {
                s.len()
            };
            let mut picked: Vec<String> = Vec::new();
            let mut i: usize = 0;
            while i < shown
                invariant
                    i <= shown,
                    shown <= s@.len(),
                    picked@.len() == i,
                    forall|k: int| 0 <= k < i ==> picked@[k]@ == s@[k]@,
                decreases shown - i,
            {
                picked.push(s[i].clone());
                i = i + 1;
            }
            assert(views_of(picked@) =~= spec_shown_subjects(views_of(s@)));
            Some(join_with(&picked, ", "))
        },
        None => None,
    };
    push_line(&mut out, "Subjects: ", &subjects);
    let sentence: Option<String> = match &book.first_sentence {
        Some(v) => {
            if v.len() > 0 {
                let s = &v[0];
                let len = s.as_str().unicode_len();
                if len > 1000 {
                    let mut p = String::from_str(s.as_str().substring_char(0, 1000));
                    p.append("...");
                    assert(s@.subrange(0, 1000) =~= s@.take(1000));
                    Some(p)
                } else {
                    Some(s.clone())
                }
            } else {
                None
            }
        },
        None => None,
    };
    push_line(&mut out, "First Sentence: ", &sentence);
    out.append("========================================\n");
    assert(out@ =~= spec_ol_info(*book));
    out
}

impl OpenLibraryBookDetails {
    /// The description text, whichever of the two shapes carries it.
    pub fn get_description(&self) -> (r: Option<String>)
        ensures
            match self.description {
                Some(OpenLibraryDescription::Text(d)) => opt_view(r) == Some(d@),
                Some(OpenLibraryDescription::Object { desc_type: _, value: v }) => opt_view(r)
                    == Some(v@),
                None => r is None,
            },
    {
        match &self.description {
            Some(OpenLibraryDescription::Text(d)) => Some(d.clone()),
            Some(OpenLibraryDescription::Object { desc_type: _, value }) => Some(value.clone()),
            None => None,
        }
    }

    /// The provider cover URL for the first listed cover identifier, if any.
    pub fn get_cover_url(&self) -> (r: Option<String>)
        ensures
            match self.covers {
                Some(ids) => if ids@.len() > 0 {
                    opt_view(r) == Some(spec_id_cover_url(ids@[0] as nat))
                } else {
                    r is None
                },
                None => r is None,
            },
    {
        match &self.covers {
            Some(ids) => {
                if ids.len() > 0 {
                    Some(id_cover_url(ids[0]))
                } else {
                    None
                }
            },
            None => None,
        }
    }

    /// The first listed thirteen-digit ISBN, if any.
    pub fn get_isbn_13(&self) -> (r: Option<String>)
        ensures
            opt_view(r) == spec_first_string(self.isbn_13),
    {
        first_string(&self.isbn_13)
    }

    /// The first listed ten-digit ISBN, if any.
    pub fn get_isbn_10(&self) -> (r: Option<String>)
        ensures
            opt_view(r) == spec_first_string(self.isbn_10),
    {
        first_string(&self.isbn_10)
    }

    /// Title and subtitle combined into one display title.
    pub fn get_full_title(&self) -> (r: String)
        ensures
            r@ == crate::google_books::spec_full_title(self.title@, opt_view(self.subtitle)),
    {
        match &self.subtitle {
            Some(sub) => {
                let mut r = self.title.clone();
                r.append(": ");
                r.append(sub.as_str());
                r
            },
            None => self.title.clone(),
        }
    }
}

} // verus!
