//! The catalog datastore model: loosely-typed category records with their
//! alias-based name lookup, resolution of category names to row identifiers,
//! the record shapes exchanged with the datastore, and the pure parts of its
//! request handling.

use vstd::prelude::*;
use vstd::string::*;
use crate::foreign::{eq_ignore_case, lower_of};
use crate::text::{
    opt_view, spec_dec, spec_ends_with, str_eq, str_ends_with, u64_to_string, views_of,
};

verus! {

/// One field of a datastore row: its column name, and its value when that
/// value is text (other value shapes carry nothing the pipeline reads).
pub struct Field {
    pub key: String,
    pub value: Option<String>,
}

/// One category row: its stable identifier and its open field mapping.
pub struct Category {
    pub id: u64,
    pub fields: Vec<Field>,
}

/// One page of datastore rows.
pub struct BaserowResponse<T> {
    pub count: Option<u32>,
    pub next: Option<String>,
    pub previous: Option<String>,
    pub results: Vec<T>,
}

/// The catalog record to be created.
pub struct MediaEntry {
    pub title: String,
    pub author: String,
    pub isbn: Option<String>,
    pub synopsis: String,
    pub category: Vec<u64>,
    pub read: bool,
    pub rating: u32,
    pub media_type: Option<u64>,
    pub location: Vec<u64>,
    pub cover: Vec<CoverImage>,
}

/// A cover-image reference as the datastore's upload endpoint returns it.
pub struct CoverImage {
    pub name: String,
}

/// The reply of the datastore's file-upload endpoint.
pub struct FileUploadResponse {
    pub url: String,
    pub name: String,
    pub size: u64,
    pub mime_type: String,
    pub is_image: bool,
    pub image_width: Option<u32>,
    pub image_height: Option<u32>,
    pub uploaded_at: String,
}

/// The reply of the datastore's row-creation endpoint.
pub struct CreatedEntry {
    pub id: u64,
    pub fields: Vec<Field>,
}

/// The datastore error taxonomy.
#[derive(Debug)]
pub enum BaserowError {
    RequestFailed(String),
    InvalidResponse(String),
    AuthenticationFailed,
    NotFound,
}

/// The datastore media-type code for a physical book.
pub const MEDIA_TYPE_PHYSICAL: u64 = 3020;

/// The datastore media-type code for an electronic edition.
pub const MEDIA_TYPE_EBOOK: u64 = 3021;

/// The value of the first field named `key`: nothing when no field carries
/// that name, otherwise that field's text value (which itself may be absent).
pub open spec fn spec_lookup(fields: Seq<Field>, key: Seq<char>) -> Option<Option<Seq<char>>>
    decreases fields.len(),
{
    if fields.len() == 0 {
        None
    } else if fields[0].key@ == key {
        Some(opt_view(fields[0].value))
    } else {
        spec_lookup(fields.drop_first(), key)
    }
}

fn lookup(fields: &Vec<Field>, key: &str) -> (r: Option<Option<String>>)
    ensures
        match r {
            Some(v) => spec_lookup(fields@, key@) == Some(opt_view(v)),
            None => spec_lookup(fields@, key@) is None,
        },
{
    let mut i: usize = 0;
    assert(fields@.skip(0) =~= fields@);
    while i < fields.len()
        invariant
            i <= fields@.len(),
            spec_lookup(fields@, key@) == spec_lookup(fields@.skip(i as int), key@),
        decreases fields@.len() - i,
    {
        assert(fields@.skip(i as int)[0] == fields@[i as int]);
        assert(fields@.skip(i as int).drop_first() =~= fields@.skip(i as int + 1));
        if str_eq(fields[i].key.as_str(), key) {
            return Some(crate::text::clone_opt_string(&fields[i].value));
        }
        i = i + 1;
    }
    None
}

/// The display name of a category: the text value of the first present field
/// among the accepted aliases, in this priority order.
pub open spec fn spec_category_name(c: Category) -> Option<Seq<char>> {
    match spec_lookup(c.fields@, "Name"@) {
        Some(v) => v,
        None => match spec_lookup(c.fields@, "name"@) {
            Some(v) => v,
            None => match spec_lookup(c.fields@, "Category"@) {
                Some(v) => v,
                None => match spec_lookup(c.fields@, "category"@) {
                    Some(v) => v,
                    None => None,
                },
            },
        },
    }
}

/// The description of a category, through its two accepted aliases.
pub open spec fn spec_category_description(c: Category) -> Option<Seq<char>> {
    match spec_lookup(c.fields@, "Description"@) {
        Some(v) => v,
        None => match spec_lookup(c.fields@, "description"@) {
            Some(v) => v,
            None => None,
        },
    }
}

impl Category {
    /// The category's display name, resolved through the accepted aliases.
    pub fn get_name(&self) -> (r: Option<String>)
        ensures
            opt_view(r) == spec_category_name(*self),
    {
        match lookup(&self.fields, "Name") {
            Some(v) => v,
            None => match lookup(&self.fields, "name") {
                Some(v) => v,
                None => match lookup(&self.fields, "Category") {
                    Some(v) => v,
                    None => match lookup(&self.fields, "category") {
                        Some(v) => v,
                        None => None,
                    },
                },
            },
        }
    }

    /// The category's description, resolved through the accepted aliases.
    pub fn get_description(&self) -> (r: Option<String>)
        ensures
            opt_view(r) == spec_category_description(*self),
    {
        match lookup(&self.fields, "Description") {
            Some(v) => v,
            None => match lookup(&self.fields, "description") {
                Some(v) => v,
                None => None,
            },
        }
    }
}

/// `name` names this category, comparing case-insensitively; a category
/// without a resolvable name matches nothing.
pub open spec fn spec_name_matches_category(name: Seq<char>, c: Category) -> bool {
    match spec_category_name(c) {
        Some(n) => lower_of(n) == lower_of(name),
        None => false,
    }
}

/// The identifier of the first category that `name` names, if any.
pub open spec fn spec_find_category_id(name: Seq<char>, cats: Seq<Category>) -> Option<u64>
    decreases cats.len(),
{
    if cats.len() == 0 {
        None
    } else if spec_name_matches_category(name, cats[0]) {
        Some(cats[0].id)
    } else {
        spec_find_category_id(name, cats.drop_first())
    }
}

/// The identifiers the given names resolve to, in the names' order; names
/// that match no category are dropped.
pub open spec fn spec_category_ids(names: Seq<Seq<char>>, cats: Seq<Category>) -> Seq<u64>
    decreases names.len(),
{
    if names.len() == 0 {
        Seq::<u64>::empty()
    } else {
        let rest = spec_category_ids(names.drop_first(), cats);
        match spec_find_category_id(names[0], cats) {
            Some(id) => seq![id] + rest,
            None => rest,
        }
    }
}

fn find_category_id(name: &str, cats: &Vec<Category>) -> (r: Option<u64>)
    ensures
        r == spec_find_category_id(name@, cats@),
{
    let mut i: usize = 0;
    assert(cats@.skip(0) =~= cats@);
    while i < cats.len()
        invariant
            i <= cats@.len(),
            spec_find_category_id(name@, cats@) == spec_find_category_id(
                name@,
                cats@.skip(i as int),
            ),
        decreases cats@.len() - i,
    {
        assert(cats@.skip(i as int)[0] == cats@[i as int]);
        assert(cats@.skip(i as int).drop_first() =~= cats@.skip(i as int + 1));
        let matched: bool = match cats[i].get_name() {
            Some(n) => eq_ignore_case(n.as_str(), name),
            None => false,
        };
        if matched {
            return Some(cats[i].id);
        }
        i = i + 1;
    }
    None
}

/// Resolves the selected category names against the available categories,
/// case-insensitively on their names; unmatched names are dropped.
pub fn find_category_ids_by_names(category_names: &Vec<String>, available_categories: &Vec<
    Category,
>) -> (r: Vec<u64>)
    ensures
        r@ == spec_category_ids(views_of(category_names@), available_categories@),
{
    let ghost names = views_of(category_names@);
    let mut r: Vec<u64> = Vec::new();
    let mut i: usize = 0;
    assert(names.skip(0) =~= names);
    while i < category_names.len()
        invariant
            i <= category_names@.len(),
            names == views_of(category_names@),
            names.len() == category_names@.len(),
            forall|k: int| 0 <= k < names.len() ==> names[k] == category_names@[k]@,
            spec_category_ids(names, available_categories@) == r@ + spec_category_ids(
                names.skip(i as int),
                available_categories@,
            ),
        decreases category_names@.len() - i,
    {
        assert(names.skip(i as int)[0] == names[i as int]);
        assert(names.skip(i as int).drop_first() =~= names.skip(i as int + 1));
        match find_category_id(category_names[i].as_str(), available_categories) {
            Some(id) => {
                r.push(id);
            },
            None => {},
        }
        i = i + 1;
    }
    assert(names.skip(names.len() as int) =~= Seq::<Seq<char>>::empty());
    r
}

/// One line of the category listing, under its one-based position: the
/// resolved name or a placeholder built from the identifier, and the
/// description when there is one.
pub open spec fn spec_category_line(c: Category, idx: nat) -> Seq<char> {
    "  "@ + spec_dec(idx) + ". "@ + (match spec_category_name(c) {
        Some(n) => n,
        None => "Category "@ + spec_dec(c.id as nat),
    }) + (match spec_category_description(c) {
        Some(d) => " - "@ + d,
        None => Seq::<char>::empty(),
    }) + "\n"@
}

/// The lines of the first `n` categories, in order.
pub open spec fn spec_category_lines_upto(cats: Seq<Category>, n: nat) -> Seq<char>
    decreases n,
{
    if n == 0 {
        Seq::<char>::empty()
    } else {
        spec_category_lines_upto(cats, (n - 1) as nat) + spec_category_line(cats[n - 1], n)
    }
}

/// The whole category listing, or the no-categories notice.
pub open spec fn spec_categories_listing(cats: Seq<Category>) -> Seq<char> {
    if cats.len() == 0 {
        "No categories found"@
    } else {
        "\nAvailable categories:\n"@ + spec_category_lines_upto(cats, cats.len()) + "\n"@
    }
}

/// Renders the numbered category listing shown to the user.
#[verifier::rlimit(30)]
pub fn display_categories(categories: &Vec<Category>) -> (r: String)
    ensures
        r@ == spec_categories_listing(categories@),
{
    if categories.len() == 0 {
        return String::from_str("No categories found");
    }
    let mut out = String::from_str("\nAvailable categories:\n");
    let ghost head = out@;
    let mut i: usize = 0;
    while i < categories.len()
        invariant
            i <= categories@.len(),
            out@ == head + spec_category_lines_upto(categories@, i as nat),
        decreases categories@.len() - i,
    {
        out.append("  ");
        let digits = u64_to_string((i + 1) as u64);
        out.append(digits.as_str());
        out.append(". ");
        match categories[i].get_name() {
            Some(n) => out.append(n.as_str()),
            None => {
                out.append("Category ");
                let id_digits = u64_to_string(categories[i].id);
                out.append(id_digits.as_str());
            },
        }
        match categories[i].get_description() {
            Some(d) => {
                out.append(" - ");
                out.append(d.as_str());
            },
            None => {},
        }
        out.append("\n");
        i = i + 1;
    }
    out.append("\n");
    out
}

/// Classifies a failed datastore response status: credentials are rejected,
/// missing tables reported, and anything else surfaced with its code.
pub fn error_for_status(status: u16) -> (r: BaserowError)
    ensures
        r matches BaserowError::InvalidResponse(m) ==> m@ == "HTTP "@ + spec_dec(status as nat),
        status == 401 ==> r is AuthenticationFailed,
        status == 404 ==> r is NotFound,
        status != 401 && status != 404 ==> r is InvalidResponse,
{
    if status == 401 {
        BaserowError::AuthenticationFailed
    } else if status == 404 {
        BaserowError::NotFound
    } else {
        let mut m = String::from_str("HTTP ");
        let digits = u64_to_string(status as u64);
        m.append(digits.as_str());
        BaserowError::InvalidResponse(m)
    }
}

/// The MIME type the upload endpoint is told, judged from the filename.
pub open spec fn spec_mime_type(filename: Seq<char>) -> Seq<char> {
    if spec_ends_with(filename, ".jpg"@) || spec_ends_with(filename, ".jpeg"@) {
        "image/jpeg"@
    } else if spec_ends_with(filename, ".png"@) {
        "image/png"@
    } else {
        "application/octet-stream"@
    }
}

/// Picks the MIME type for an uploaded file by its name.
pub fn mime_type_for(filename: &str) -> (r: &'static str)
    ensures
        r@ == spec_mime_type(filename@),
{
    if str_ends_with(filename, ".jpg") || str_ends_with(filename, ".jpeg") {
        "image/jpeg"
    } else if str_ends_with(filename, ".png") {
        "image/png"
    } else {
        "application/octet-stream"
    }
}

} // verus!
