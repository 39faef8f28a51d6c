//! The first bibliographic source: result shapes of its volumes API, derived
//! accessors over them, search-URL construction and cover-URL normalization.

use vstd::prelude::*;
use vstd::string::*;
use crate::foreign::{url_encode, url_encoded};
use crate::text::{
    clone_opt_string, join_with, opt_view, push_line, remove_all, remove_all_spec, spec_contains,
    spec_dec, spec_join, spec_line, spec_starts_with, str_contains, str_eq, str_starts_with,
    u32_to_string, views_of,
};

verus! {

/// One page of search results from the first source.
pub struct GoogleBooksResponse {
    pub kind: String,
    pub total_items: u32,
    pub items: Option<Vec<BookItem>>,
}

/// One volume of the first source.
pub struct BookItem {
    pub kind: String,
    pub id: String,
    pub etag: String,
    pub self_link: String,
    pub volume_info: VolumeInfo,
    pub sale_info: Option<SaleInfo>,
    pub access_info: Option<AccessInfo>,
}

/// The bibliographic details of a volume.
pub struct VolumeInfo {
    pub title: String,
    pub subtitle: Option<String>,
    pub authors: Option<Vec<String>>,
    pub publisher: Option<String>,
    pub published_date: Option<String>,
    pub description: Option<String>,
    pub industry_identifiers: Option<Vec<IndustryIdentifier>>,
    pub page_count: Option<u32>,
    pub print_type: Option<String>,
    pub categories: Option<Vec<String>>,
    pub maturity_rating: Option<String>,
    pub allow_anon_logging: Option<bool>,
    pub content_version: Option<String>,
    pub image_links: Option<ImageLinks>,
    pub language: Option<String>,
    pub preview_link: Option<String>,
    pub info_link: Option<String>,
    pub canonical_volume_link: Option<String>,
}

/// One industry identifier, such as an ISBN of either length.
pub struct IndustryIdentifier {
    pub identifier_type: String,
    pub identifier: String,
}

/// The cover image variants a volume offers, smallest to largest.
pub struct ImageLinks {
    pub small_thumbnail: Option<String>,
    pub thumbnail: Option<String>,
    pub small: Option<String>,
    pub medium: Option<String>,
    pub large: Option<String>,
    pub extra_large: Option<String>,
}

/// Sale metadata of a volume.
pub struct SaleInfo {
    pub country: Option<String>,
    pub saleability: Option<String>,
    pub is_ebook: Option<bool>,
}

/// Access metadata of a volume.
pub struct AccessInfo {
    pub country: Option<String>,
    pub viewability: Option<String>,
    pub embeddable: Option<bool>,
    pub public_domain: Option<bool>,
}

/// The identifier of the first entry of `ids` whose type tag is `t`.
pub open spec fn spec_find_identifier(ids: Seq<IndustryIdentifier>, t: Seq<char>) -> Option<
    Seq<char>,
>
    decreases ids.len(),
{
    if ids.len() == 0 {
        None
    } else if ids[0].identifier_type@ == t {
        Some(ids[0].identifier@)
    } else {
        spec_find_identifier(ids.drop_first(), t)
    }
}

/// The identifier of the given type carried by a volume, if any.
pub open spec fn spec_identifier_of(b: BookItem, t: Seq<char>) -> Option<Seq<char>> {
    match b.volume_info.industry_identifiers {
        Some(ids) => spec_find_identifier(ids@, t),
        None => None,
    }
}

/// The largest available cover image variant of `links`.
pub open spec fn spec_best_cover(links: ImageLinks) -> Option<Seq<char>> {
    if links.extra_large is Some {
        opt_view(links.extra_large)
    } else if links.large is Some {
        opt_view(links.large)
    } else if links.medium is Some {
        opt_view(links.medium)
    } else if links.small is Some {
        opt_view(links.small)
    } else if links.thumbnail is Some {
        opt_view(links.thumbnail)
    } else {
        opt_view(links.small_thumbnail)
    }
}

/// The full title of a volume: title, and subtitle after a colon if present.
pub open spec fn spec_full_title(title: Seq<char>, subtitle: Option<Seq<char>>) -> Seq<char> {
    match subtitle {
        Some(sub) => title + ": "@ + sub,
        None => title,
    }
}

/// The joined author list of a volume, or the unknown-author placeholder.
pub open spec fn spec_all_authors(authors: Option<Seq<Seq<char>>>) -> Seq<char> {
    match authors {
        Some(names) => spec_join(names, ", "@),
        None => "Unknown Author"@,
    }
}

fn find_identifier(ids: &Vec<IndustryIdentifier>, t: &str) -> (r: Option<String>)
    ensures
        opt_view(r) == spec_find_identifier(ids@, t@),
{
    let mut i: usize = 0;
    assert(ids@.skip(0) =~= ids@);
    while i < ids.len()
        invariant
            i <= ids@.len(),
            spec_find_identifier(ids@, t@) == spec_find_identifier(ids@.skip(i as int), t@),
        decreases ids@.len() - i,
    {
        assert(ids@.skip(i as int)[0] == ids@[i as int]);
        assert(ids@.skip(i as int).drop_first() =~= ids@.skip(i as int + 1));
        if str_eq(ids[i].identifier_type.as_str(), t) {
            return Some(ids[i].identifier.clone());
        }
        i = i + 1;
    }
    None
}

impl BookItem {
    /// The thirteen-digit ISBN of the volume, if it carries one.
    pub fn get_isbn_13(&self) -> (r: Option<String>)
        ensures
            opt_view(r) == spec_identifier_of(*self, "ISBN_13"@),
    {
        match &self.volume_info.industry_identifiers {
            Some(ids) => find_identifier(ids, "ISBN_13"),
            None => None,
        }
    }

    /// The ten-digit ISBN of the volume, if it carries one.
    pub fn get_isbn_10(&self) -> (r: Option<String>)
        ensures
            opt_view(r) == spec_identifier_of(*self, "ISBN_10"@),
    {
        match &self.volume_info.industry_identifiers {
            Some(ids) => find_identifier(ids, "ISBN_10"),
            None => None,
        }
    }

    /// The largest cover image variant on offer, if any.
    pub fn get_best_cover_image(&self) -> (r: Option<String>)
        ensures
            match self.volume_info.image_links {
                Some(links) => opt_view(r) == spec_best_cover(links),
                None => r is None,
            },
    {
        match &self.volume_info.image_links {
            Some(links) => {
                if links.extra_large.is_some() {
                    clone_opt_string(&links.extra_large)
                } else if links.large.is_some() {
                    clone_opt_string(&links.large)
                } else if links.medium.is_some() {
                    clone_opt_string(&links.medium)
                } else if links.small.is_some() {
                    clone_opt_string(&links.small)
                } else if links.thumbnail.is_some() {
                    clone_opt_string(&links.thumbnail)
                } else {
                    clone_opt_string(&links.small_thumbnail)
                }
            },
            None => None,
        }
    }

    /// The first listed author, if any.
    pub fn get_primary_author(&self) -> (r: Option<String>)
        ensures
            match self.volume_info.authors {
                Some(names) => if names@.len() > 0 {
                    opt_view(r) == Some(names@[0]@)
                } else {
                    r is None
                },
                None => r is None,
            },
    {
        match &self.volume_info.authors {
            Some(names) => {
                if names.len() > 0 {
                    Some(names[0].clone())
                } else {
                    None
                }
            },
            None => None,
        }
    }

    /// All authors joined with commas, or the unknown-author placeholder.
    pub fn get_all_authors(&self) -> (r: String)
        ensures
            r@ == spec_all_authors(
                match self.volume_info.authors {
                    Some(names) => Some(views_of(names@)),
                    None => None,
                },
            ),
    {
        match &self.volume_info.authors {
            Some(names) => join_with(names, ", "),
            None => {
                let r = String::from_str("Unknown Author");
                r
            },
        }
    }

    /// Title and subtitle combined into one display title.
    pub fn get_full_title(&self) -> (r: String)
        ensures
            r@ == spec_full_title(
                self.volume_info.title@,
                opt_view(self.volume_info.subtitle),
            ),
    {
        match &self.volume_info.subtitle {
            Some(sub) => {
                let mut r = self.volume_info.title.clone();
                r.append(": ");
                r.append(sub.as_str());
                r
            },
            None => self.volume_info.title.clone(),
        }
    }
}

/// Whether a configured key is absent or still the placeholder text.
pub open spec fn spec_key_unusable(key: Seq<char>) -> bool {
    spec_contains(key, "your_"@) || key.len() == 0
}

/// Executable mirror of `spec_key_unusable`.
pub fn key_unusable(key: &str) -> (r: bool)
    ensures
        r == spec_key_unusable(key@),
{
    str_contains(key, "your_") || key.unicode_len() == 0
}

/// The search URL for an ISBN query against the first source; the key is
/// appended only when it is usable.
pub open spec fn spec_isbn_search_url(base: Seq<char>, isbn: Seq<char>, key: Seq<char>) -> Seq<
    char,
> {
    if spec_key_unusable(key) {
        base + "/volumes?q=isbn:"@ + isbn
    } else {
        base + "/volumes?q=isbn:"@ + isbn + "&key="@ + key
    }
}

/// Builds the ISBN search URL for the first source.
pub fn isbn_search_url(base: &str, isbn: &str, key: &str) -> (r: String)
    ensures
        r@ == spec_isbn_search_url(base@, isbn@, key@),
{
    let mut r = String::from_str(base);
    r.append("/volumes?q=isbn:");
    r.append(isbn);
    if !key_unusable(key) {
        r.append("&key=");
        r.append(key);
    }
    r
}

/// The quoted query text for a title/author search.
pub open spec fn spec_title_author_query(title: Seq<char>, author: Seq<char>) -> Seq<char> {
    "intitle:\""@ + title + "\" inauthor:\""@ + author + "\""@
}

/// The search URL for a title/author query against the first source: the
/// query is percent-encoded, and the key appended only when usable.
pub open spec fn spec_title_author_search_url(
    base: Seq<char>,
    title: Seq<char>,
    author: Seq<char>,
    key: Seq<char>,
) -> Seq<char> {
    let encoded = url_encoded(spec_title_author_query(title, author));
    if spec_key_unusable(key) {
        base + "/volumes?q="@ + encoded
    } else {
        base + "/volumes?q="@ + encoded + "&key="@ + key
    }
}

/// Builds the title/author search URL for the first source.
pub fn title_author_search_url(base: &str, title: &str, author: &str, key: &str) -> (r: String)
    ensures
        r@ == spec_title_author_search_url(base@, title@, author@, key@),
{
    let mut query = String::from_str("intitle:\"");
    query.append(title);
    query.append("\" inauthor:\"");
    query.append(author);
    query.append("\"");
    let encoded = url_encode(query.as_str());
    let mut r = String::from_str(base);
    r.append("/volumes?q=");
    r.append(encoded.as_str());
    if !key_unusable(key) {
        r.append("&key=");
        r.append(key);
    }
    r
}

/// The title-only search URL of the first source; this variant always
/// carries the key.
pub open spec fn spec_title_search_url(base: Seq<char>, title: Seq<char>, key: Seq<char>) -> Seq<
    char,
> {
    base + "/volumes?q="@ + url_encoded("intitle:"@ + title) + "&key="@ + key
}

/// Builds the title-only search URL of the first source.
pub fn title_search_url(base: &str, title: &str, key: &str) -> (r: String)
    ensures
        r@ == spec_title_search_url(base@, title@, key@),
{
    let mut query = String::from_str("intitle:");
    query.append(title);
    let encoded = url_encode(query.as_str());
    let mut r = String::from_str(base);
    r.append("/volumes?q=");
    r.append(encoded.as_str());
    r.append("&key=");
    r.append(key);
    r
}

/// The description preview shown in the details block: long texts are cut at
/// two hundred characters with an ellipsis.
pub open spec fn spec_desc_preview(d: Seq<char>) -> Seq<char> {
    if d.len() > 200 {
        d.take(200) + "..."@
    } else {
        d
    }
}

/// The details block shown for a volume of the first source: title and
/// authors always, then each known optional detail on its own line.
pub open spec fn spec_google_info(b: BookItem) -> Seq<char> {
    "\n=== Book Information (Google Books) ===\n"@ + "Title: "@ + spec_full_title(
        b.volume_info.title@,
        opt_view(b.volume_info.subtitle),
    ) + "\nAuthor(s): "@ + spec_all_authors(
        match b.volume_info.authors {
            Some(names) => Some(views_of(names@)),
            None => None,
        },
    ) + "\n"@ + spec_line("Publisher: "@, opt_view(b.volume_info.publisher)) + spec_line(
        "Published: "@,
        opt_view(b.volume_info.published_date),
    ) + spec_line(
        "Pages: "@,
        match b.volume_info.page_count {
            Some(n) => Some(spec_dec(n as nat)),
            None => None,
        },
    ) + spec_line("ISBN-13: "@, spec_identifier_of(b, "ISBN_13"@)) + spec_line(
        "ISBN-10: "@,
        spec_identifier_of(b, "ISBN_10"@),
    ) + spec_line(
        "Description: "@,
        match opt_view(b.volume_info.description) {
            Some(d) => Some(spec_desc_preview(d)),
            None => None,
        },
    ) + spec_line(
        "Cover Image: "@,
        match b.volume_info.image_links {
            Some(links) => spec_best_cover(links),
            None => None,
        },
    ) + spec_line(
        "Categories: "@,
        match b.volume_info.categories {
            Some(c) => Some(spec_join(views_of(c@), ", "@)),
            None => None,
        },
    ) + "========================================\n"@
}

/// Renders the details block for a volume of the first source.
pub fn display_google_book_info(book: &BookItem) -> (r: String)
    ensures
        r@ == spec_google_info(*book),
{
    let mut out = String::from_str("\n=== Book Information (Google Books) ===\n");
    out.append("Title: ");
    let title = book.get_full_title();
    out.append(title.as_str());
    out.append("\nAuthor(s): ");
    let authors = book.get_all_authors();
    out.append(authors.as_str());
    out.append("\n");
    push_line(&mut out, "Publisher: ", &book.volume_info.publisher);
    push_line(&mut out, "Published: ", &book.volume_info.published_date);
    let pages: Option<String> = match book.volume_info.page_count {
        Some(n) => Some(u32_to_string(n)),
        None => None,
    };
    push_line(&mut out, "Pages: ", &pages);
    let isbn13 = book.get_isbn_13();
    push_line(&mut out, "ISBN-13: ", &isbn13);
    let isbn10 = book.get_isbn_10();
    push_line(&mut out, "ISBN-10: ", &isbn10);
    let preview: Option<String> = match &book.volume_info.description {
        Some(d) => {
            let len = d.as_str().unicode_len();
            if len > 200 {
                let mut p = String::from_str(d.as_str().substring_char(0, 200));
                p.append("...");
                assert(d@.subrange(0, 200) =~= d@.take(200));
                Some(p)
            } else {
                Some(d.clone())
            }
        },
        None => None,
    };
    push_line(&mut out, "Description: ", &preview);
    let cover = book.get_best_cover_image();
    push_line(&mut out, "Cover Image: ", &cover);
    let cats: Option<String> = match &book.volume_info.categories {
        Some(c) => Some(join_with(c, ", ")),
        None => None,
    };
    push_line(&mut out, "Categories: ", &cats);
    out.append("========================================\n");
    assert(out@ =~= spec_google_info(*book));
    out
}

/// A cover URL with its scheme upgraded to secure HTTP when it is plain.
pub open spec fn spec_upgrade_scheme(u: Seq<char>) -> Seq<char> {
    if spec_starts_with(u, "http://"@) {
        "https://"@ + u.skip("http://"@.len() as int)
    } else {
        u
    }
}

/// A cover URL normalized for retrieval: secure scheme, and the cosmetic
/// page-curl parameter removed.
pub open spec fn spec_clean_cover_url(u: Seq<char>) -> Seq<char> {
    remove_all_spec(spec_upgrade_scheme(u), "&edge=curl"@)
}

/// Normalizes a cover URL of the first source for download.
pub fn clean_cover_url(u: &str) -> (r: String)
    ensures
        r@ == spec_clean_cover_url(u@),
{
    proof {
        reveal_strlit("http://");
        reveal_strlit("https://");
        reveal_strlit("&edge=curl");
    }
    let upgraded: String = if str_starts_with(u, "http://") {
        let mut t = String::from_str("https://");
        assert(u@.skip(7) =~= u@.subrange(7, u@.len() as int));
        t.append(u.substring_char(7, u.unicode_len()));
        t
    } else {
        String::from_str(u)
    };
    assert("&edge=curl"@.len() == 10);
    remove_all(upgraded.as_str(), "&edge=curl")
}

} // verus!
