//! The book resolution and enrichment workflow, as one sequential state
//! machine: the caller performs each returned action (a network call or a
//! prompt) and feeds the result back as an event. Every decision between two
//! actions is made here; the transition structure is stated by
//! `spec_transition` and proved of `step`.

use vstd::prelude::*;
use vstd::string::*;
use crate::baserow::{
    find_category_ids_by_names, spec_category_ids, BaserowError, Category, CoverImage,
    CreatedEntry, MediaEntry, MEDIA_TYPE_EBOOK, MEDIA_TYPE_PHYSICAL,
};
use crate::book_search::{
    selection_labels, spec_result_authors, spec_result_description, spec_result_isbn,
    spec_result_title, spec_selection_label, spec_shown, BookResult, SearchResults, SourceError,
};
use crate::config::Config;
use crate::google_books::{spec_best_cover, spec_clean_cover_url};
use crate::llm::{
    clean_synopsis_response, create_category_selection_prompt, create_synopsis_prompt,
    parse_category_response, spec_category_names, spec_category_prompt, spec_clean_synopsis,
    spec_parsed_categories, spec_provider_ok, spec_synopsis_prompt, LlmError, LlmProvider,
};
use crate::open_library::{isbn_cover_url, spec_first_string, spec_isbn_cover_url};
use crate::text::{opt_view, spec_join, views_of};
use crate::web_search::{
    enhance_book_info_with_search, spec_enhanced_failed, spec_enhanced_ok, SearchError,
    SearchResult,
};
use crate::word_count;

verus! {

/// What one run is asked to resolve.
pub enum Query {
    Isbn { isbn: String },
    TitleAuthor { title: String, author: String },
}

impl Clone for Query {
    fn clone(&self) -> (r: Self)
        ensures
            r == *self,
    {
        match self {
            Query::Isbn { isbn } => Query::Isbn { isbn: isbn.clone() },
            Query::TitleAuthor { title, author } => Query::TitleAuthor {
                title: title.clone(),
                author: author.clone(),
            },
        }
    }
}

/// A failure of the interactive prompt surface.
pub struct PromptError {
    pub message: String,
}

/// A failure to download a cover or upload it to the datastore.
pub struct UploadError {
    pub message: String,
}

/// Where one run ends.
pub enum Outcome {
    /// The entry was written; the datastore assigned this identifier.
    Created { book: BookResult, entry_id: u64 },
    /// The user declined at confirmation; no entry was written.
    Cancelled { book: BookResult },
    /// The confirmation prompt itself failed; no entry is written without an
    /// explicit confirmation.
    PromptFailed { book: BookResult },
    /// The user chose the cancel entry at disambiguation.
    NoSelection,
    /// Neither source returned a candidate.
    NoCandidates,
    /// The second source failed; terminal for the query.
    SourceFailed { error: SourceError },
    /// The category table could not be fetched.
    CategoriesUnavailable { book: BookResult, error: BaserowError },
    /// The category table was empty.
    NoCategories { book: BookResult },
    /// Category selection failed: a transport or configuration error, or a
    /// reply matching none of the controlled vocabulary. The fetched table
    /// rides along so the caller can show it again for manual reference.
    CategorySelectionFailed { book: BookResult, categories: Vec<Category>, error: LlmError },
    /// The datastore rejected the entry, or no selected name resolved to an
    /// identifier.
    CreateFailed { book: BookResult, error: BaserowError },
    /// An event arrived that does not answer the pending action.
    OutOfTurn,
}

/// What the machine is waiting for.
pub enum State {
    AwaitPrimary { query: Query },
    AwaitFallback { query: Query },
    AwaitSelection { books: Vec<BookResult>, shown: usize },
    AwaitCategories { book: BookResult },
    AwaitCategoryInfo { book: BookResult, categories: Vec<Category> },
    AwaitCategoryReply { book: BookResult, categories: Vec<Category> },
    AwaitSynopsisInfo { book: BookResult, categories: Vec<Category>, selected: Vec<String> },
    AwaitSynopsisReply { book: BookResult, categories: Vec<Category>, selected: Vec<String> },
    AwaitConfirmation {
        book: BookResult,
        categories: Vec<Category>,
        selected: Vec<String>,
        synopsis: String,
    },
    AwaitCover {
        book: BookResult,
        categories: Vec<Category>,
        selected: Vec<String>,
        synopsis: String,
        fallback_isbn: Option<String>,
    },
    AwaitCreate { book: BookResult },
    Done { outcome: Outcome },
}

/// What the caller reports back.
pub enum Event {
    Primary { result: Result<SearchResults, SourceError> },
    Fallback { result: Result<SearchResults, SourceError> },
    /// The raw prompt index; the index one past the shown candidates is the
    /// cancel entry. An error is an interaction failure.
    Selected { result: Result<usize, PromptError> },
    Categories { result: Result<Vec<Category>, BaserowError> },
    WebSearched { result: Result<Vec<SearchResult>, SearchError> },
    CategoryReply { result: Result<String, LlmError> },
    SynopsisReply { result: Result<String, LlmError> },
    Confirmed { result: Result<bool, PromptError> },
    CoverUploaded { result: Result<CoverImage, UploadError> },
    EntryCreated { result: Result<CreatedEntry, BaserowError> },
}

/// What the caller must do next.
pub enum Action {
    SearchPrimary { query: Query },
    SearchFallback { query: Query },
    PromptSelect { items: Vec<String> },
    FetchCategories,
    SearchWeb { title: String, author: String },
    CompleteCategories { prompt: String },
    CompleteSynopsis { prompt: String },
    PromptConfirm { summary: String },
    AcquireCover { url: String, filename: String },
    CreateEntry { entry: MediaEntry },
    Finish,
}

/// The state variants, without their data.
pub enum Phase {
    Primary,
    Fallback,
    Selection,
    Categories,
    CategoryInfo,
    CategoryReply,
    SynopsisInfo,
    SynopsisReply,
    Confirmation,
    Cover,
    Create,
    Finished,
}

/// The action variants, without their data.
pub enum ActionKind {
    SearchPrimary,
    SearchFallback,
    PromptSelect,
    FetchCategories,
    SearchWeb,
    CompleteCategories,
    CompleteSynopsis,
    PromptConfirm,
    AcquireCover,
    CreateEntry,
    Finish,
}

/// The phase a state belongs to.
pub open spec fn phase_of(s: State) -> Phase {
    match s {
        State::AwaitPrimary { .. } => Phase::Primary,
        State::AwaitFallback { .. } => Phase::Fallback,
        State::AwaitSelection { .. } => Phase::Selection,
        State::AwaitCategories { .. } => Phase::Categories,
        State::AwaitCategoryInfo { .. } => Phase::CategoryInfo,
        State::AwaitCategoryReply { .. } => Phase::CategoryReply,
        State::AwaitSynopsisInfo { .. } => Phase::SynopsisInfo,
        State::AwaitSynopsisReply { .. } => Phase::SynopsisReply,
        State::AwaitConfirmation { .. } => Phase::Confirmation,
        State::AwaitCover { .. } => Phase::Cover,
        State::AwaitCreate { .. } => Phase::Create,
        State::Done { .. } => Phase::Finished,
    }
}

/// The kind of an action.
pub open spec fn kind_of(a: Action) -> ActionKind {
    match a {
        Action::SearchPrimary { .. } => ActionKind::SearchPrimary,
        Action::SearchFallback { .. } => ActionKind::SearchFallback,
        Action::PromptSelect { .. } => ActionKind::PromptSelect,
        Action::FetchCategories => ActionKind::FetchCategories,
        Action::SearchWeb { .. } => ActionKind::SearchWeb,
        Action::CompleteCategories { .. } => ActionKind::CompleteCategories,
        Action::CompleteSynopsis { .. } => ActionKind::CompleteSynopsis,
        Action::PromptConfirm { .. } => ActionKind::PromptConfirm,
        Action::AcquireCover { .. } => ActionKind::AcquireCover,
        Action::CreateEntry { .. } => ActionKind::CreateEntry,
        Action::Finish => ActionKind::Finish,
    }
}

/// The description text used when enriching for category selection.
pub open spec fn spec_desc_or_placeholder(b: BookResult) -> Seq<char> {
    match spec_result_description(b) {
        Some(d) => d,
        None => "No description available"@,
    }
}

/// The description text used for word counting and synopsis enrichment.
pub open spec fn spec_desc_or_empty(b: BookResult) -> Seq<char> {
    match spec_result_description(b) {
        Some(d) => d,
        None => Seq::<char>::empty(),
    }
}

/// The enrichment text for a candidate, given how the web search went.
pub open spec fn spec_enhanced_with(
    b: BookResult,
    desc: Seq<char>,
    result: Result<Vec<SearchResult>, SearchError>,
) -> Seq<char> {
    match result {
        Ok(res) => spec_enhanced_ok(spec_result_title(b), spec_result_authors(b), desc, res@),
        Err(_) => spec_enhanced_failed(spec_result_title(b), spec_result_authors(b), desc),
    }
}

/// The best-guess primary cover URL of a candidate: the first source's
/// largest image variant normalized for retrieval, or the ISBN-keyed
/// provider URL for the second source.
pub open spec fn spec_cover_url(b: BookResult) -> Option<Seq<char>> {
    match b {
        BookResult::Google(item) => match item.volume_info.image_links {
            Some(links) => match spec_best_cover(links) {
                Some(u) => Some(spec_clean_cover_url(u)),
                None => None,
            },
            None => None,
        },
        BookResult::OpenLibrary(book) => match spec_first_string(book.isbn) {
            Some(i) => Some(spec_isbn_cover_url(i)),
            None => None,
        },
    }
}

/// The media-type label shown at confirmation.
pub open spec fn spec_media_label(is_ebook: bool) -> Seq<char> {
    if is_ebook {
        "Ebook"@
    } else {
        "Physical Book"@
    }
}

/// The synopsis preview shown at confirmation: long texts are cut at 297
/// characters with an ellipsis.
pub open spec fn spec_preview(s: Seq<char>) -> Seq<char> {
    if s.len() > 300 {
        s.take(297) + "..."@
    } else {
        s
    }
}

/// The confirmation summary text.
pub open spec fn spec_summary(
    b: BookResult,
    names: Seq<Seq<char>>,
    synopsis: Seq<char>,
    is_ebook: bool,
) -> Seq<char> {
    "\n==================================================\n               CONFIRMATION SUMMARY\n==================================================\nTitle:     "@
        + spec_result_title(b) + "\nAuthor:    "@ + spec_result_authors(b) + (
    match spec_result_isbn(b) {
        Some(i) => "\nISBN:      "@ + i,
        None => Seq::<char>::empty(),
    }) + "\nType:      "@ + spec_media_label(is_ebook) + "\nCategories: "@ + spec_join(
        names,
        ", "@,
    ) + "\nSynopsis:  "@ + spec_preview(synopsis)
        + "\n==================================================\n"@
}

/// What a source outcome leads to from the primary tier: one or more
/// candidates are used and the second source is never asked; zero candidates
/// or any error falls back to the second source.
pub open spec fn spec_after_primary(result: Result<SearchResults, SourceError>) -> (
    Phase,
    ActionKind,
) {
    match result {
        Ok(res) => if res.books@.len() > 1 {
            (Phase::Selection, ActionKind::PromptSelect)
        } else if res.books@.len() == 1 {
            (Phase::Categories, ActionKind::FetchCategories)
        } else {
            (Phase::Fallback, ActionKind::SearchFallback)
        },
        Err(_) => (Phase::Fallback, ActionKind::SearchFallback),
    }
}

/// What a source outcome leads to from the fallback tier: its candidates are
/// used verbatim; zero candidates or an error is terminal.
pub open spec fn spec_after_fallback(result: Result<SearchResults, SourceError>) -> (
    Phase,
    ActionKind,
) {
    match result {
        Ok(res) => if res.books@.len() > 1 {
            (Phase::Selection, ActionKind::PromptSelect)
        } else if res.books@.len() == 1 {
            (Phase::Categories, ActionKind::FetchCategories)
        } else {
            (Phase::Finished, ActionKind::Finish)
        },
        Err(_) => (Phase::Finished, ActionKind::Finish),
    }
}

/// What a selection reply leads to: a shown index picks that candidate, the
/// entry past the shown candidates cancels, and a prompt failure falls back
/// to the first candidate.
pub open spec fn spec_after_selection(
    books_len: nat,
    shown: nat,
    result: Result<usize, PromptError>,
) -> (Phase, ActionKind) {
    match result {
        Ok(i) => if i < shown && i < books_len {
            (Phase::Categories, ActionKind::FetchCategories)
        } else {
            (Phase::Finished, ActionKind::Finish)
        },
        Err(_) => if books_len > 0 {
            (Phase::Categories, ActionKind::FetchCategories)
        } else {
            (Phase::Finished, ActionKind::Finish)
        },
    }
}

/// What the fetched category table leads to: a non-empty table starts the
/// web enrichment; an empty table or a fetch failure is terminal.
pub open spec fn spec_after_categories(result: Result<Vec<Category>, BaserowError>) -> (
    Phase,
    ActionKind,
) {
    match result {
        Ok(cats) => if cats@.len() > 0 {
            (Phase::CategoryInfo, ActionKind::SearchWeb)
        } else {
            (Phase::Finished, ActionKind::Finish)
        },
        Err(_) => (Phase::Finished, ActionKind::Finish),
    }
}

/// What the web enrichment for categories leads to: with a usable provider
/// the model is asked; an unconfigured provider stops entry creation.
pub open spec fn spec_after_category_info(c: Config) -> (Phase, ActionKind) {
    if spec_provider_ok(c) {
        (Phase::CategoryReply, ActionKind::CompleteCategories)
    } else {
        (Phase::Finished, ActionKind::Finish)
    }
}

/// What the model's category reply leads to: a reply matching nothing of the
/// vocabulary, or a transport error, is terminal; otherwise the synopsis is
/// generated exactly when the existing description is below the word
/// threshold.
pub open spec fn spec_after_category_reply(
    c: Config,
    b: BookResult,
    cats: Seq<Category>,
    result: Result<String, LlmError>,
) -> (Phase, ActionKind) {
    match result {
        Ok(text) => if spec_parsed_categories(text@, cats).len() == 0 {
            (Phase::Finished, ActionKind::Finish)
        } else if word_count(spec_desc_or_empty(b)) < c.app.min_synopsis_words {
            (Phase::SynopsisInfo, ActionKind::SearchWeb)
        } else {
            (Phase::Confirmation, ActionKind::PromptConfirm)
        },
        Err(_) => (Phase::Finished, ActionKind::Finish),
    }
}

/// What the web enrichment for the synopsis leads to: with a usable provider
/// the model is asked; otherwise the existing description is kept and the
/// run continues to confirmation.
pub open spec fn spec_after_synopsis_info(c: Config) -> (Phase, ActionKind) {
    if spec_provider_ok(c) {
        (Phase::SynopsisReply, ActionKind::CompleteSynopsis)
    } else {
        (Phase::Confirmation, ActionKind::PromptConfirm)
    }
}

/// A synopsis reply always continues to confirmation: a failure only means
/// the existing description is kept.
pub open spec fn spec_after_synopsis_reply() -> (Phase, ActionKind) {
    (Phase::Confirmation, ActionKind::PromptConfirm)
}

/// What assembling the record leads to: with at least one resolved category
/// identifier the row is created, else the run ends without a row.
pub open spec fn spec_assembly(selected: Seq<Seq<char>>, cats: Seq<Category>) -> (
    Phase,
    ActionKind,
) {
    if spec_category_ids(selected, cats).len() > 0 {
        (Phase::Create, ActionKind::CreateEntry)
    } else {
        (Phase::Finished, ActionKind::Finish)
    }
}

/// What the confirmation reply leads to: declining or a prompt failure ends
/// the run without any datastore call; approval starts cover acquisition
/// when a cover URL exists, else goes straight to assembly.
pub open spec fn spec_after_confirmation(
    b: BookResult,
    selected: Seq<Seq<char>>,
    cats: Seq<Category>,
    result: Result<bool, PromptError>,
) -> (Phase, ActionKind) {
    match result {
        Ok(approved) => if !approved {
            (Phase::Finished, ActionKind::Finish)
        } else {
            match spec_cover_url(b) {
                Some(_) => (Phase::Cover, ActionKind::AcquireCover),
                None => spec_assembly(selected, cats),
            }
        },
        Err(_) => (Phase::Finished, ActionKind::Finish),
    }
}

/// What a cover attempt's outcome leads to: success attaches the reference;
/// a failure tries the ISBN-keyed provider once when an ISBN is at hand,
/// else the entry proceeds with no cover.
pub open spec fn spec_after_cover(
    fallback_isbn: Option<String>,
    selected: Seq<Seq<char>>,
    cats: Seq<Category>,
    result: Result<CoverImage, UploadError>,
) -> (Phase, ActionKind) {
    match result {
        Ok(_) => spec_assembly(selected, cats),
        Err(_) => match fallback_isbn {
            Some(_) => (Phase::Cover, ActionKind::AcquireCover),
            None => spec_assembly(selected, cats),
        },
    }
}

/// The whole transition structure of the machine, at the level of phases and
/// action kinds; an event that does not answer the pending action ends the
/// run.
pub open spec fn spec_transition(w: Workflow, e: Event) -> (Phase, ActionKind) {
    match w.state {
        State::AwaitPrimary { .. } => match e {
            Event::Primary { result } => spec_after_primary(result),
            _ => (Phase::Finished, ActionKind::Finish),
        },
        State::AwaitFallback { .. } => match e {
            Event::Fallback { result } => spec_after_fallback(result),
            _ => (Phase::Finished, ActionKind::Finish),
        },
        State::AwaitSelection { books, shown } => match e {
            Event::Selected { result } => spec_after_selection(
                books@.len(),
                shown as nat,
                result,
            ),
            _ => (Phase::Finished, ActionKind::Finish),
        },
        State::AwaitCategories { .. } => match e {
            Event::Categories { result } => spec_after_categories(result),
            _ => (Phase::Finished, ActionKind::Finish),
        },
        State::AwaitCategoryInfo { .. } => match e {
            Event::WebSearched { .. } => spec_after_category_info(w.config),
            _ => (Phase::Finished, ActionKind::Finish),
        },
        State::AwaitCategoryReply { book, categories } => match e {
            Event::CategoryReply { result } => spec_after_category_reply(
                w.config,
                book,
                categories@,
                result,
            ),
            _ => (Phase::Finished, ActionKind::Finish),
        },
        State::AwaitSynopsisInfo { .. } => match e {
            Event::WebSearched { .. } => spec_after_synopsis_info(w.config),
            _ => (Phase::Finished, ActionKind::Finish),
        },
        State::AwaitSynopsisReply { .. } => match e {
            Event::SynopsisReply { .. } => spec_after_synopsis_reply(),
            _ => (Phase::Finished, ActionKind::Finish),
        },
        State::AwaitConfirmation { book, categories, selected, .. } => match e {
            Event::Confirmed { result } => spec_after_confirmation(
                book,
                views_of(selected@),
                categories@,
                result,
            ),
            _ => (Phase::Finished, ActionKind::Finish),
        },
        State::AwaitCover { categories, selected, fallback_isbn, .. } => match e {
            Event::CoverUploaded { result } => spec_after_cover(
                fallback_isbn,
                views_of(selected@),
                categories@,
                result,
            ),
            _ => (Phase::Finished, ActionKind::Finish),
        },
        State::AwaitCreate { .. } => match e {
            Event::EntryCreated { .. } => (Phase::Finished, ActionKind::Finish),
            _ => (Phase::Finished, ActionKind::Finish),
        },
        State::Done { .. } => (Phase::Finished, ActionKind::Finish),
    }
}

/// One run of the pipeline: the configuration, the edition flag of this
/// invocation, and what the machine is waiting for.
pub struct Workflow {
    pub config: Config,
    pub is_ebook: bool,
    pub state: State,
}

/// The searcher that runs the two-tier fallback over both sources: its
/// entry points start a run of the workflow machine.
pub struct CombinedBookSearcher {
    pub config: Config,
}

impl CombinedBookSearcher {
    /// Bundles the configuration the runs will read.
    pub fn new(config: Config) -> (r: Self)
        ensures
            r.config == config,
    {
        CombinedBookSearcher { config }
    }

    /// Starts a run that resolves an ISBN: the first source is asked first.
    pub fn search_by_isbn(self, isbn: String, is_ebook: bool) -> (r: (Workflow, Action))
        ensures
            r.0.config == self.config,
            r.0.is_ebook == is_ebook,
            r.0.state matches State::AwaitPrimary { query: Query::Isbn { isbn: i } } && i == isbn,
            r.1 matches Action::SearchPrimary { query: Query::Isbn { isbn: i } } && i == isbn,
    {
        let query = Query::Isbn { isbn };
        let action_query = query.clone();
        (
            Workflow { config: self.config, is_ebook, state: State::AwaitPrimary { query } },
            Action::SearchPrimary { query: action_query },
        )
    }

    /// Starts a run that resolves a title/author pair: the first source is
    /// asked first.
    pub fn search_by_title_author(self, title: String, author: String, is_ebook: bool) -> (r: (
        Workflow,
        Action,
    ))
        ensures
            r.0.config == self.config,
            r.0.is_ebook == is_ebook,
            r.0.state matches State::AwaitPrimary {
                query: Query::TitleAuthor { title: t, author: a },
            } && t == title && a == author,
            r.1 matches Action::SearchPrimary {
                query: Query::TitleAuthor { title: t, author: a },
            } && t == title && a == author,
    {
        let query = Query::TitleAuthor { title, author };
        let action_query = query.clone();
        (
            Workflow { config: self.config, is_ebook, state: State::AwaitPrimary { query } },
            Action::SearchPrimary { query: action_query },
        )
    }
}

/// Whether the existing description is below the configured word threshold,
/// which is exactly when a synopsis is generated.
pub fn needs_synopsis(existing_description: &str, min_words: usize) -> (r: bool)
    ensures
        r == (word_count(existing_description@) < min_words),
{
    let n = crate::text::count_words(existing_description);
    n < min_words
}

/// The description used for category enrichment, with the placeholder when
/// the candidate carries none.
pub fn description_or_placeholder(b: &BookResult) -> (r: String)
    ensures
        r@ == spec_desc_or_placeholder(*b),
{
    match b.get_description() {
        Some(d) => d,
        None => String::from_str("No description available"),
    }
}

/// The description used for word counting and synopsis enrichment, empty
/// when the candidate carries none.
pub fn description_or_empty(b: &BookResult) -> (r: String)
    ensures
        r@ == spec_desc_or_empty(*b),
{
    match b.get_description() {
        Some(d) => d,
        None => String::new(),
    }
}

/// The best-guess primary cover URL of a candidate.
pub fn get_cover_image_url(b: &BookResult) -> (r: Option<String>)
    ensures
        opt_view(r) == spec_cover_url(*b),
{
    match b {
        BookResult::Google(item) => {
            match item.get_best_cover_image() {
                Some(u) => Some(crate::google_books::clean_cover_url(u.as_str())),
                None => None,
            }
        },
        BookResult::OpenLibrary(book) => {
            match book.get_best_isbn() {
                Some(i) => Some(isbn_cover_url(i.as_str())),
                None => None,
            }
        },
    }
}

/// Renders the confirmation summary.
pub fn confirmation_summary(
    b: &BookResult,
    selected: &Vec<String>,
    synopsis: &str,
    is_ebook: bool,
) -> (r: String)
    ensures
        r@ == spec_summary(*b, views_of(selected@), synopsis@, is_ebook),
{
    let mut r = String::from_str(
        "\n==================================================\n               CONFIRMATION SUMMARY\n==================================================\nTitle:     ",
    );
    let title = b.get_full_title();
    r.append(title.as_str());
    r.append("\nAuthor:    ");
    let authors = b.get_all_authors();
    r.append(authors.as_str());
    match b.get_isbn() {
        Some(i) => {
            r.append("\nISBN:      ");
            r.append(i.as_str());
        },
        None => {},
    }
    r.append("\nType:      ");
    if is_ebook {
        r.append("Ebook");
    } else {
        r.append("Physical Book");
    }
    r.append("\nCategories: ");
    let joined = crate::text::join_with(selected, ", ");
    r.append(joined.as_str());
    r.append("\nSynopsis:  ");
    let len = synopsis.unicode_len();
    if len > 300 {
        r.append(synopsis.substring_char(0, 297));
        r.append("...");
        assert(synopsis@.subrange(0, 297) =~= synopsis@.take(297));
    } else {
        r.append(synopsis);
    }
    r.append("\n==================================================\n");
    r
}

/// The record submitted for `book` under the confirmed names and synopsis:
/// the candidate's own title, author text and best ISBN, the resolved
/// category identifiers, the fixed media-type code, and the unread, unrated,
/// empty-location defaults.
pub open spec fn spec_entry_matches(
    entry: MediaEntry,
    book: BookResult,
    categories: Seq<Category>,
    selected: Seq<String>,
    synopsis: String,
    is_ebook: bool,
) -> bool {
    &&& entry.title@ == spec_result_title(book)
    &&& entry.author@ == spec_result_authors(book)
    &&& opt_view(entry.isbn) == spec_result_isbn(book)
    &&& entry.synopsis == synopsis
    &&& entry.category@ == spec_category_ids(views_of(selected), categories)
    &&& entry.category@.len() > 0
    &&& entry.read == false
    &&& entry.rating == 0
    &&& entry.media_type == Some(
        if is_ebook {
            MEDIA_TYPE_EBOOK
        } else {
            MEDIA_TYPE_PHYSICAL
        },
    )
    &&& entry.location@.len() == 0
}

fn out_of_turn() -> (r: (State, Action))
    ensures
        r.0 == (State::Done { outcome: Outcome::OutOfTurn }),
        r.1 == Action::Finish,
{
    (State::Done { outcome: Outcome::OutOfTurn }, Action::Finish)
}

/// Builds the record and asks for its creation; with no resolved category
/// identifier the run ends instead, and no row is ever created.
fn to_create(
    is_ebook: bool,
    book: BookResult,
    categories: Vec<Category>,
    selected: Vec<String>,
    synopsis: String,
    covers: Vec<CoverImage>,
) -> (r: (State, Action))
    ensures
        (phase_of(r.0), kind_of(r.1)) == spec_assembly(views_of(selected@), categories@),
        r.1 matches Action::CreateEntry { entry } ==> spec_entry_matches(
            entry,
            book,
            categories@,
            selected@,
            synopsis,
            is_ebook,
        ) && entry.cover == covers,
        r.1 is CreateEntry ==> (r.0 matches State::AwaitCreate { book: b } && b == book),
        r.1 is Finish ==> (r.0 matches State::Done {
            outcome: Outcome::CreateFailed { book: b, error: _ },
        } && b == book),
{
    let ids = find_category_ids_by_names(&selected, &categories);
    if ids.len() == 0 {
        (
            State::Done {
                outcome: Outcome::CreateFailed {
                    book,
                    error: BaserowError::InvalidResponse(
                        String::from_str("No valid category IDs found for selected categories"),
                    ),
                },
            },
            Action::Finish,
        )
    } else {
        let title = book.get_full_title();
        let author = book.get_all_authors();
        let isbn = book.get_isbn();
        let media_type: u64 = if is_ebook {
            MEDIA_TYPE_EBOOK
        } else {
            MEDIA_TYPE_PHYSICAL
        };
        let entry = MediaEntry {
            title,
            author,
            isbn,
            synopsis,
            category: ids,
            read: false,
            rating: 0,
            media_type: Some(media_type),
            location: Vec::new(),
            cover: covers,
        };
        (State::AwaitCreate { book }, Action::CreateEntry { entry })
    }
}

/// Moves a run to confirmation, rendering the summary of what would be
/// written.
fn to_confirmation(
    is_ebook: bool,
    book: BookResult,
    categories: Vec<Category>,
    selected: Vec<String>,
    synopsis: String,
) -> (r: (State, Action))
    ensures
        phase_of(r.0) == Phase::Confirmation,
        kind_of(r.1) == ActionKind::PromptConfirm,
        r.0 matches State::AwaitConfirmation { book: b, categories: c, selected: s, synopsis: y }
            && b == book && c == categories && s == selected && y == synopsis,
        r.1 matches Action::PromptConfirm { summary } && summary@ == spec_summary(
            book,
            views_of(selected@),
            synopsis@,
            is_ebook,
        ),
{
    let summary = confirmation_summary(&book, &selected, synopsis.as_str(), is_ebook);
    (
        State::AwaitConfirmation { book, categories, selected, synopsis },
        Action::PromptConfirm { summary },
    )
}

impl Workflow {
    /// Feeds one event in and hands back the machine with the next action.
    /// The phase and action-kind structure follows `spec_transition`; the
    /// clauses below pin the data each interesting transition carries.
    pub fn step(self, e: Event) -> (r: (Workflow, Action))
        ensures
            r.0.config == self.config,
            r.0.is_ebook == self.is_ebook,
            (phase_of(r.0.state), kind_of(r.1)) == spec_transition(self, e),
            // the second source is asked with the unchanged query, and only
            // after the first returned nothing or failed
            r.1 matches Action::SearchFallback { query: q } ==> (self.state
                matches State::AwaitPrimary { query: q0 } && q == q0 && (r.0.state
                matches State::AwaitFallback { query: q1 } && q1 == q0)),
            // a fallback outcome is adopted verbatim
            self.state is AwaitFallback ==> (e matches Event::Fallback { result: Ok(res) } ==> (
            res.books@.len() > 1 ==> (r.0.state matches State::AwaitSelection { books, shown }
                && books == res.books && shown == spec_shown(
                res.books@.len(),
                self.config.app.max_search_results as nat,
            )))),
            self.state is AwaitPrimary ==> (e matches Event::Primary { result: Ok(res) } ==> (
            res.books@.len() > 1 ==> (r.0.state matches State::AwaitSelection { books, shown }
                && books == res.books && shown == spec_shown(
                res.books@.len(),
                self.config.app.max_search_results as nat,
            )))),
            // a single candidate is adopted without a prompt
            self.state is AwaitPrimary ==> (e matches Event::Primary { result: Ok(res) } ==> (
            res.books@.len() == 1 ==> (r.0.state matches State::AwaitCategories { book } && book
                == res.books@[0]))),
            self.state is AwaitFallback ==> (e matches Event::Fallback { result: Ok(res) } ==> (
            res.books@.len() == 1 ==> (r.0.state matches State::AwaitCategories { book } && book
                == res.books@[0]))),
            // with the fallback tier also empty the run ends as no
            // candidates; a fallback-tier failure ends it carrying that
            // source's error
            self.state is AwaitFallback ==> (e matches Event::Fallback { result: Ok(res) } ==> (
            res.books@.len() == 0 ==> (r.0.state matches State::Done {
                outcome: Outcome::NoCandidates,
            }))),
            self.state is AwaitFallback ==> (e matches Event::Fallback { result: Err(err) } ==> (
            r.0.state matches State::Done { outcome: Outcome::SourceFailed { error } } && error
                == err)),
            // the disambiguator offers the shown candidates and one cancel
            // entry, labelled in original order
            r.1 matches Action::PromptSelect { items } ==> (r.0.state
                matches State::AwaitSelection { books, shown } && items@.len() == shown + 1
                && shown == spec_shown(books@.len(), self.config.app.max_search_results as nat)
                && (forall|k: int|
                0 <= k < items@.len() - 1 ==> items@[k]@ == spec_selection_label(books@[k]))),
            // a chosen index picks that candidate; the cancel entry ends the
            // run with no selection; a prompt failure falls back to the
            // first candidate
            self.state matches State::AwaitSelection { books, shown } ==> (e
                matches Event::Selected { result: Ok(i) } ==> (i < shown && i < books@.len()
                ==> (r.0.state matches State::AwaitCategories { book } && book == books@[
                i as int
            ]))),
            self.state matches State::AwaitSelection { books, shown } ==> (e
                matches Event::Selected { result: Ok(i) } ==> (i == shown ==> (r.0.state
                matches State::Done { outcome: Outcome::NoSelection }))),
            self.state matches State::AwaitSelection { books, .. } ==> (books@.len() > 0 ==> (e
                matches Event::Selected { result: Err(_) } ==> (r.0.state
                matches State::AwaitCategories { book } && book == books@[0]))),
            // the fetched table is carried onward with the selected book; an
            // empty table or a fetch failure ends the run saying so
            self.state matches State::AwaitCategories { book } ==> (e matches Event::Categories {
                result: Ok(cats),
            } ==> (cats@.len() > 0 ==> (r.0.state matches State::AwaitCategoryInfo {
                book: b,
                categories: c,
            } && b == book && c == cats))),
            self.state matches State::AwaitCategories { book } ==> (e matches Event::Categories {
                result: Ok(cats),
            } ==> (cats@.len() == 0 ==> (r.0.state matches State::Done {
                outcome: Outcome::NoCategories { book: b },
            } && b == book))),
            self.state matches State::AwaitCategories { book } ==> (e matches Event::Categories {
                result: Err(err),
            } ==> (r.0.state matches State::Done {
                outcome: Outcome::CategoriesUnavailable { book: b, error },
            } && b == book && error == err)),
            // web enrichment is asked for with the selected candidate's own
            // title and author text
            self.state matches State::AwaitCategories { book } ==> (r.1
                matches Action::SearchWeb { title, author } ==> title@ == spec_result_title(book)
                && author@ == spec_result_authors(book)),
            self.state matches State::AwaitCategoryReply { book, .. } ==> (r.1
                matches Action::SearchWeb { title, author } ==> title@ == spec_result_title(book)
                && author@ == spec_result_authors(book)),
            // the category prompt holds the enriched text and the
            // vocabulary, and the book and table ride along; an unconfigured
            // provider ends the run before any model call, saying so
            self.state matches State::AwaitCategoryInfo { book, categories } ==> (e
                matches Event::WebSearched { result } ==> (r.1
                matches Action::CompleteCategories { prompt } ==> prompt@ == spec_category_prompt(
                spec_enhanced_with(book, spec_desc_or_placeholder(book), result),
                spec_category_names(categories@),
            ))),
            self.state matches State::AwaitCategoryInfo { book, categories } ==> (e
                is WebSearched ==> (r.1 is CompleteCategories ==> (r.0.state
                matches State::AwaitCategoryReply { book: b, categories: c } && b == book && c
                == categories))),
            self.state matches State::AwaitCategoryInfo { book, categories } ==> (e
                is WebSearched ==> (!spec_provider_ok(self.config) ==> (r.0.state
                matches State::Done {
                outcome: Outcome::CategorySelectionFailed { book: b, categories: c, error },
            } && b == book && c == categories && error is ConfigurationError))),
            // the parsed category names are carried onward exactly, with the
            // book and table; a reply matching nothing, or a model failure,
            // ends the run saying so, the table still at hand
            self.state matches State::AwaitCategoryReply { book, categories } ==> (e
                matches Event::CategoryReply { result: Ok(text) } ==> spec_parsed_categories(
                text@,
                categories@,
            ).len() > 0 ==> ({
                let picked = spec_parsed_categories(text@, categories@);
                ||| (r.0.state matches State::AwaitSynopsisInfo {
                    book: b,
                    categories: c,
                    selected,
                } && b == book && c == categories && views_of(selected@) == picked)
                ||| (r.0.state matches State::AwaitConfirmation {
                    book: b,
                    categories: c,
                    selected,
                    synopsis,
                } && b == book && c == categories && views_of(selected@) == picked && synopsis@
                    == spec_desc_or_placeholder(book))
            })),
            self.state matches State::AwaitCategoryReply { book, categories } ==> (e
                matches Event::CategoryReply { result: Ok(text) } ==> (spec_parsed_categories(
                text@,
                categories@,
            ).len() == 0 ==> (r.0.state matches State::Done {
                outcome: Outcome::CategorySelectionFailed { book: b, categories: c, error },
            } && b == book && c == categories && error is InvalidResponse))),
            self.state matches State::AwaitCategoryReply { book, categories } ==> (e
                matches Event::CategoryReply { result: Err(err) } ==> (r.0.state
                matches State::Done {
                outcome: Outcome::CategorySelectionFailed { book: b, categories: c, error },
            } && b == book && c == categories && error == err)),
            // the synopsis prompt holds the enriched text and the target,
            // and the run's data rides along; an unconfigured provider here
            // keeps the existing description and continues to confirmation
            self.state matches State::AwaitSynopsisInfo { book, .. } ==> (e
                matches Event::WebSearched { result } ==> (r.1 matches Action::CompleteSynopsis {
                prompt,
            } ==> prompt@ == spec_synopsis_prompt(
                spec_enhanced_with(book, spec_desc_or_empty(book), result),
                self.config.app.target_synopsis_words as nat,
            ))),
            self.state matches State::AwaitSynopsisInfo { book, categories, selected } ==> (e
                is WebSearched ==> (r.1 is CompleteSynopsis ==> (r.0.state
                matches State::AwaitSynopsisReply { book: b, categories: c, selected: s } && b
                == book && c == categories && s == selected))),
            self.state matches State::AwaitSynopsisInfo { book, categories, selected } ==> (e
                is WebSearched ==> (!spec_provider_ok(self.config) ==> (r.0.state
                matches State::AwaitConfirmation { book: b, categories: c, selected: s, synopsis }
                && b == book && c == categories && s == selected && synopsis@
                == spec_desc_or_placeholder(book)))),
            // a synopsis reply is cleaned and used; a failed reply keeps the
            // existing description; either way the run's data rides along
            self.state is AwaitSynopsisReply ==> (e matches Event::SynopsisReply {
                result: Ok(text),
            } ==> (r.0.state matches State::AwaitConfirmation { synopsis, .. } && synopsis@
                == spec_clean_synopsis(text@))),
            self.state matches State::AwaitSynopsisReply { book, .. } ==> (e
                matches Event::SynopsisReply { result: Err(_) } ==> (r.0.state
                matches State::AwaitConfirmation { synopsis, .. } && synopsis@
                == spec_desc_or_placeholder(book))),
            self.state matches State::AwaitSynopsisReply { book, categories, selected } ==> (e
                is SynopsisReply ==> (r.0.state matches State::AwaitConfirmation {
                book: b,
                categories: c,
                selected: s,
                synopsis: _,
            } && b == book && c == categories && s == selected)),
            // the confirmation summary shows what would be written
            r.1 matches Action::PromptConfirm { summary } ==> (r.0.state
                matches State::AwaitConfirmation { book, selected, synopsis, .. } && summary@
                == spec_summary(book, views_of(selected@), synopsis@, self.is_ebook)),
            // declining at confirmation ends the run with the candidate
            // handed back, and nothing is downloaded, uploaded or created
            self.state matches State::AwaitConfirmation { book, .. } ==> (e
                matches Event::Confirmed { result: Ok(approved) } ==> (approved == false ==> ((
            r.0.state matches State::Done { outcome: Outcome::Cancelled { book: b } } && b == book)
                && r.1 is Finish))),
            // a confirmation-prompt failure ends the run with no entry, the
            // candidate handed back
            self.state matches State::AwaitConfirmation { book, .. } ==> (e
                matches Event::Confirmed { result: Err(_) } ==> (r.0.state matches State::Done {
                outcome: Outcome::PromptFailed { book: b },
            } && b == book)),
            // approval attempts the primary cover first, remembering the
            // ISBN for one secondary attempt and carrying the run's data
            self.state matches State::AwaitConfirmation { book, categories, selected, synopsis }
                ==> (e matches Event::Confirmed { result: Ok(approved) } ==> (approved == true
                && spec_cover_url(book) is Some ==> ((r.1 matches Action::AcquireCover {
                url,
                filename,
            } && Some(url@) == spec_cover_url(book) && filename@ == "cover.jpg"@) && (r.0.state
                matches State::AwaitCover {
                book: b,
                categories: c,
                selected: s,
                synopsis: y,
                fallback_isbn,
            } && b == book && c == categories && s == selected && y == synopsis && opt_view(
                fallback_isbn,
            ) == spec_result_isbn(book))))),
            // approval with no usable cover URL goes straight to assembly:
            // the record, when one is asked for, is exactly the confirmed
            // one with zero cover references; with no resolvable category
            // identifier the run ends as a creation failure instead
            self.state matches State::AwaitConfirmation { book, categories, selected, synopsis }
                ==> (e matches Event::Confirmed { result: Ok(approved) } ==> (approved == true
                && spec_cover_url(book) is None ==> ((r.1 matches Action::CreateEntry { entry }
                ==> spec_entry_matches(
                entry,
                book,
                categories@,
                selected@,
                synopsis,
                self.is_ebook,
            ) && entry.cover@.len() == 0) && (r.1 is CreateEntry ==> (r.0.state
                matches State::AwaitCreate { book: b } && b == book)) && (r.1 is Finish ==> (
            r.0.state matches State::Done { outcome: Outcome::CreateFailed { book: b, error: _ } }
                && b == book))))),
            // a failed attempt retries once through the ISBN-keyed provider,
            // and only once, the run's data riding along
            self.state matches State::AwaitCover {
                book,
                categories,
                selected,
                synopsis,
                fallback_isbn: Some(isbn),
            } ==> (e matches Event::CoverUploaded { result: Err(_) } ==> ((r.1
                matches Action::AcquireCover { url, filename } && url@ == spec_isbn_cover_url(
                isbn@,
            ) && filename@ == "cover-fallback.jpg"@) && (r.0.state matches State::AwaitCover {
                book: b,
                categories: c,
                selected: s,
                synopsis: y,
                fallback_isbn: f2,
            } && b == book && c == categories && s == selected && y == synopsis && f2 is None))),
            // with both attempts failed, or no ISBN, the entry proceeds with
            // zero cover references
            self.state matches State::AwaitCover { fallback_isbn: None, .. } ==> (e
                matches Event::CoverUploaded { result: Err(_) } ==> (r.1
                matches Action::CreateEntry { entry } ==> entry.cover@.len() == 0)),
            self.state is AwaitCover ==> (e matches Event::CoverUploaded { result: Ok(c) } ==> (
            r.1 matches Action::CreateEntry { entry } ==> entry.cover@ =~= seq![c])),
            // whatever the cover attempts came to, the record asked for is
            // exactly the confirmed one; assembly failure ends the run as a
            // creation failure with the candidate handed back
            self.state matches State::AwaitCover { book, categories, selected, synopsis, .. }
                ==> (e is CoverUploaded ==> ((r.1 matches Action::CreateEntry { entry }
                ==> spec_entry_matches(
                entry,
                book,
                categories@,
                selected@,
                synopsis,
                self.is_ebook,
            )) && (r.1 is CreateEntry ==> (r.0.state matches State::AwaitCreate { book: b } && b
                == book)) && (r.1 is Finish ==> (r.0.state matches State::Done {
                outcome: Outcome::CreateFailed { book: b, error: _ },
            } && b == book)))),
            // whatever is created is a well-formed record: at least one
            // category identifier, empty location, unread, unrated
            r.1 matches Action::CreateEntry { entry } ==> entry.category@.len() > 0
                && entry.location@.len() == 0 && entry.read == false && entry.rating == 0,
            // the datastore's reply ends the run: with its assigned id, or
            // carrying the datastore's error
            self.state matches State::AwaitCreate { book } ==> (e matches Event::EntryCreated {
                result: Ok(ce),
            } ==> (r.0.state matches State::Done {
                outcome: Outcome::Created { book: b, entry_id },
            } && b == book && entry_id == ce.id)),
            self.state matches State::AwaitCreate { book } ==> (e matches Event::EntryCreated {
                result: Err(err),
            } ==> (r.0.state matches State::Done {
                outcome: Outcome::CreateFailed { book: b, error },
            } && b == book && error == err)),
            // a finished run stays finished and asks for nothing more
            self.state is Done ==> r.0.state == self.state && r.1 is Finish,
    {
        let Workflow { config, is_ebook, state } = self;
        let (new_state, action): (State, Action) = match state {
            State::AwaitPrimary { query } => match e {
                Event::Primary { result } => step_source(&config, query, result, true),
                _ => out_of_turn(),
            },
            State::AwaitFallback { query } => match e {
                Event::Fallback { result } => step_source(&config, query, result, false),
                _ => out_of_turn(),
            },
            State::AwaitSelection { books, shown } => match e {
                Event::Selected { result } => step_selection(books, shown, result),
                _ => out_of_turn(),
            },
            State::AwaitCategories { book } => match e {
                Event::Categories { result } => step_categories(book, result),
                _ => out_of_turn(),
            },
            State::AwaitCategoryInfo { book, categories } => match e {
                Event::WebSearched { result } => step_category_info(
                    &config,
                    book,
                    categories,
                    result,
                ),
                _ => out_of_turn(),
            },
            State::AwaitCategoryReply { book, categories } => match e {
                Event::CategoryReply { result } => step_category_reply(
                    &config,
                    is_ebook,
                    book,
                    categories,
                    result,
                ),
                _ => out_of_turn(),
            },
            State::AwaitSynopsisInfo { book, categories, selected } => match e {
                Event::WebSearched { result } => step_synopsis_info(
                    &config,
                    is_ebook,
                    book,
                    categories,
                    selected,
                    result,
                ),
                _ => out_of_turn(),
            },
            State::AwaitSynopsisReply { book, categories, selected } => match e {
                Event::SynopsisReply { result } => step_synopsis_reply(
                    is_ebook,
                    book,
                    categories,
                    selected,
                    result,
                ),
                _ => out_of_turn(),
            },
            State::AwaitConfirmation { book, categories, selected, synopsis } => match e {
                Event::Confirmed { result } => step_confirmed(
                    is_ebook,
                    book,
                    categories,
                    selected,
                    synopsis,
                    result,
                ),
                _ => out_of_turn(),
            },
            State::AwaitCover { book, categories, selected, synopsis, fallback_isbn } => match e {
                Event::CoverUploaded { result } => step_cover(
                    is_ebook,
                    book,
                    categories,
                    selected,
                    synopsis,
                    fallback_isbn,
                    result,
                ),
                _ => out_of_turn(),
            },
            State::AwaitCreate { book } => match e {
                Event::EntryCreated { result } => step_created(book, result),
                _ => out_of_turn(),
            },
            State::Done { outcome } => (State::Done { outcome }, Action::Finish),
        };
        (Workflow { config, is_ebook, state: new_state }, action)
    }
}

/// Handles a source outcome of either tier.
fn step_source(
    config: &Config,
    query: Query,
    result: Result<SearchResults, SourceError>,
    primary: bool,
) -> (r: (State, Action))
    ensures
        (phase_of(r.0), kind_of(r.1)) == if primary {
            spec_after_primary(result)
        } else {
            spec_after_fallback(result)
        },
        r.1 matches Action::SearchFallback { query: q } ==> q == query && (r.0
            matches State::AwaitFallback { query: q1 } && q1 == query),
        result matches Ok(res) ==> res.books@.len() > 1 ==> (r.0 matches State::AwaitSelection {
            books,
            shown,
        } && books == res.books && shown == spec_shown(
            res.books@.len(),
            config.app.max_search_results as nat,
        )),
        r.1 matches Action::PromptSelect { items } ==> (r.0 matches State::AwaitSelection {
            books,
            shown,
        } && items@.len() == shown + 1 && shown == spec_shown(
            books@.len(),
            config.app.max_search_results as nat,
        ) && (forall|k: int|
            0 <= k < items@.len() - 1 ==> items@[k]@ == spec_selection_label(books@[k]))),
        result matches Ok(res) ==> res.books@.len() == 1 ==> (r.0
            matches State::AwaitCategories { book } && book == res.books@[0]),
        !primary ==> (result matches Ok(res) ==> (res.books@.len() == 0 ==> (r.0
            matches State::Done { outcome: Outcome::NoCandidates }))),
        !primary ==> (result matches Err(e2) ==> (r.0 matches State::Done {
            outcome: Outcome::SourceFailed { error },
        } && error == e2)),
{
    match result {
        Ok(res) => {
            if res.books.len() > 1 {
                let items = selection_labels(&res.books, config.app.max_search_results);
                let shown: usize = if res.books.len() > config.app.max_search_results {
                    config.app.max_search_results
                } else {
                    res.books.len()
                };
                (
                    State::AwaitSelection { books: res.books, shown },
                    Action::PromptSelect { items },
                )
            } else if res.books.len() == 1 {
                let mut books = res.books;
                let book = books.remove(0);
                (State::AwaitCategories { book }, Action::FetchCategories)
            } else if primary {
                let fq = query.clone();
                (State::AwaitFallback { query }, Action::SearchFallback { query: fq })
            } else {
                (State::Done { outcome: Outcome::NoCandidates }, Action::Finish)
            }
        },
        Err(error) => {
            if primary {
                let fq = query.clone();
                (State::AwaitFallback { query }, Action::SearchFallback { query: fq })
            } else {
                (State::Done { outcome: Outcome::SourceFailed { error } }, Action::Finish)
            }
        },
    }
}

/// Handles the disambiguation reply.
fn step_selection(books: Vec<BookResult>, shown: usize, result: Result<usize, PromptError>) -> (r:
    (State, Action))
    ensures
        (phase_of(r.0), kind_of(r.1)) == spec_after_selection(books@.len(), shown as nat, result),
        result matches Ok(i) ==> i < shown && i < books@.len() ==> (r.0
            matches State::AwaitCategories { book } && book == books@[i as int]),
        result matches Ok(i) ==> (i == shown ==> (r.0 matches State::Done {
            outcome: Outcome::NoSelection,
        })),
        result is Err && books@.len() > 0 ==> (r.0 matches State::AwaitCategories { book } && book
            == books@[0]),
{
    match result {
        Ok(i) => {
            if i < shown && i < books.len() {
                let mut books = books;
                let book = books.remove(i);
                (State::AwaitCategories { book }, Action::FetchCategories)
            } else if i == shown {
                (State::Done { outcome: Outcome::NoSelection }, Action::Finish)
            } else {
                out_of_turn()
            }
        },
        Err(_) => {
            if books.len() > 0 {
                let mut books = books;
                let book = books.remove(0);
                (State::AwaitCategories { book }, Action::FetchCategories)
            } else {
                out_of_turn()
            }
        },
    }
}

/// Handles the fetched category table.
fn step_categories(book: BookResult, result: Result<Vec<Category>, BaserowError>) -> (r: (
    State,
    Action,
))
    ensures
        (phase_of(r.0), kind_of(r.1)) == spec_after_categories(result),
        r.1 matches Action::SearchWeb { title, author } ==> title@ == spec_result_title(book)
            && author@ == spec_result_authors(book),
        result matches Ok(cats) ==> cats@.len() > 0 ==> (r.0 matches State::AwaitCategoryInfo {
            book: b,
            categories,
        } && b == book && categories == cats),
        result matches Ok(cats) ==> cats@.len() == 0 ==> (r.0 matches State::Done {
            outcome: Outcome::NoCategories { book: b },
        } && b == book),
        result matches Err(e) ==> (r.0 matches State::Done {
            outcome: Outcome::CategoriesUnavailable { book: b, error },
        } && b == book && error == e),
{
    match result {
        Ok(cats) => {
            if cats.len() > 0 {
                let title = book.get_full_title();
                let author = book.get_all_authors();
                (
                    State::AwaitCategoryInfo { book, categories: cats },
                    Action::SearchWeb { title, author },
                )
            } else {
                (State::Done { outcome: Outcome::NoCategories { book } }, Action::Finish)
            }
        },
        Err(error) => {
            (
                State::Done { outcome: Outcome::CategoriesUnavailable { book, error } },
                Action::Finish,
            )
        },
    }
}

/// Handles the web enrichment for category selection.
fn step_category_info(
    config: &Config,
    book: BookResult,
    categories: Vec<Category>,
    result: Result<Vec<SearchResult>, SearchError>,
) -> (r: (State, Action))
    ensures
        (phase_of(r.0), kind_of(r.1)) == spec_after_category_info(*config),
        r.1 matches Action::CompleteCategories { prompt } ==> prompt@ == spec_category_prompt(
            spec_enhanced_with(book, spec_desc_or_placeholder(book), result),
            spec_category_names(categories@),
        ),
        r.1 is CompleteCategories ==> (r.0 matches State::AwaitCategoryReply {
            book: b,
            categories: c,
        } && b == book && c == categories),
        !spec_provider_ok(*config) ==> (r.0 matches State::Done {
            outcome: Outcome::CategorySelectionFailed { book: b, categories: c, error },
        } && b == book && c == categories && error is ConfigurationError),
{
    match LlmProvider::from_config(config) {
        Err(error) => {
            (
                State::Done {
                    outcome: Outcome::CategorySelectionFailed { book, categories, error },
                },
                Action::Finish,
            )
        },
        Ok(_) => {
            let title = book.get_full_title();
            let author = book.get_all_authors();
            let desc = description_or_placeholder(&book);
            let info = enhance_book_info_with_search(
                title.as_str(),
                author.as_str(),
                desc.as_str(),
                &result,
            );
            let prompt = create_category_selection_prompt(info.as_str(), &categories);
            (
                State::AwaitCategoryReply { book, categories },
                Action::CompleteCategories { prompt },
            )
        },
    }
}

/// Handles the model's category reply.
fn step_category_reply(
    config: &Config,
    is_ebook: bool,
    book: BookResult,
    categories: Vec<Category>,
    result: Result<String, LlmError>,
) -> (r: (State, Action))
    ensures
        (phase_of(r.0), kind_of(r.1)) == spec_after_category_reply(
            *config,
            book,
            categories@,
            result,
        ),
        result matches Ok(text) ==> spec_parsed_categories(text@, categories@).len() > 0 ==> ({
            let picked = spec_parsed_categories(text@, categories@);
            ||| (r.0 matches State::AwaitSynopsisInfo { book: b, categories: c, selected } && b
                == book && c == categories && views_of(selected@) == picked)
            ||| (r.0 matches State::AwaitConfirmation { book: b, categories: c, selected, synopsis }
                && b == book && c == categories && views_of(selected@) == picked && synopsis@
                == spec_desc_or_placeholder(book))
        }),
        result matches Ok(text) ==> (spec_parsed_categories(text@, categories@).len() == 0 ==> (
        r.0 matches State::Done {
            outcome: Outcome::CategorySelectionFailed { book: b, categories: c, error },
        } && b == book && c == categories && error is InvalidResponse)),
        result matches Err(e) ==> (r.0 matches State::Done {
            outcome: Outcome::CategorySelectionFailed { book: b, categories: c, error },
        } && b == book && c == categories && error == e),
        r.1 matches Action::SearchWeb { title, author } ==> title@ == spec_result_title(book)
            && author@ == spec_result_authors(book),
        r.1 matches Action::PromptConfirm { summary } ==> (r.0
            matches State::AwaitConfirmation { book: b, selected, synopsis, .. } && summary@
            == spec_summary(b, views_of(selected@), synopsis@, is_ebook)),
{
    match result {
        Ok(text) => {
            match parse_category_response(text.as_str(), &categories) {
                Err(error) => {
                    (
                        State::Done {
                            outcome: Outcome::CategorySelectionFailed { book, categories, error },
                        },
                        Action::Finish,
                    )
                },
                Ok(selected) => {
                    let desc = description_or_empty(&book);
                    if needs_synopsis(desc.as_str(), config.app.min_synopsis_words) {
                        let title = book.get_full_title();
                        let author = book.get_all_authors();
                        (
                            State::AwaitSynopsisInfo { book, categories, selected },
                            Action::SearchWeb { title, author },
                        )
                    } else {
                        let synopsis = description_or_placeholder(&book);
                        to_confirmation(is_ebook, book, categories, selected, synopsis)
                    }
                },
            }
        },
        Err(error) => {
            (
                State::Done {
                    outcome: Outcome::CategorySelectionFailed { book, categories, error },
                },
                Action::Finish,
            )
        },
    }
}

/// Handles the web enrichment for synopsis generation.
fn step_synopsis_info(
    config: &Config,
    is_ebook: bool,
    book: BookResult,
    categories: Vec<Category>,
    selected: Vec<String>,
    result: Result<Vec<SearchResult>, SearchError>,
) -> (r: (State, Action))
    ensures
        (phase_of(r.0), kind_of(r.1)) == spec_after_synopsis_info(*config),
        r.1 matches Action::CompleteSynopsis { prompt } ==> prompt@ == spec_synopsis_prompt(
            spec_enhanced_with(book, spec_desc_or_empty(book), result),
            config.app.target_synopsis_words as nat,
        ),
        r.1 is CompleteSynopsis ==> (r.0 matches State::AwaitSynopsisReply {
            book: b,
            categories: c,
            selected: s,
        } && b == book && c == categories && s == selected),
        !spec_provider_ok(*config) ==> (r.0 matches State::AwaitConfirmation {
            book: b,
            categories: c,
            selected: s,
            synopsis,
        } && b == book && c == categories && s == selected && synopsis@
            == spec_desc_or_placeholder(book)),
        r.1 matches Action::PromptConfirm { summary } ==> (r.0
            matches State::AwaitConfirmation { book: b, selected: s, synopsis, .. } && summary@
            == spec_summary(b, views_of(s@), synopsis@, is_ebook)),
{
    match LlmProvider::from_config(config) {
        Err(_) => {
            let synopsis = description_or_placeholder(&book);
            to_confirmation(is_ebook, book, categories, selected, synopsis)
        },
        Ok(_) => {
            let title = book.get_full_title();
            let author = book.get_all_authors();
            let desc = description_or_empty(&book);
            let info = enhance_book_info_with_search(
                title.as_str(),
                author.as_str(),
                desc.as_str(),
                &result,
            );
            let prompt = create_synopsis_prompt(info.as_str(), config.app.target_synopsis_words);
            (
                State::AwaitSynopsisReply { book, categories, selected },
                Action::CompleteSynopsis { prompt },
            )
        },
    }
}

/// Handles the model's synopsis reply; a failure keeps the existing
/// description and the run continues.
fn step_synopsis_reply(
    is_ebook: bool,
    book: BookResult,
    categories: Vec<Category>,
    selected: Vec<String>,
    result: Result<String, LlmError>,
) -> (r: (State, Action))
    ensures
        (phase_of(r.0), kind_of(r.1)) == spec_after_synopsis_reply(),
        result matches Ok(text) ==> (r.0 matches State::AwaitConfirmation { synopsis, .. }
            && synopsis@ == spec_clean_synopsis(text@)),
        result is Err ==> (r.0 matches State::AwaitConfirmation { synopsis, .. } && synopsis@
            == spec_desc_or_placeholder(book)),
        r.0 matches State::AwaitConfirmation { book: b, categories: c, selected: s, .. } && b
            == book && c == categories && s == selected,
        r.1 matches Action::PromptConfirm { summary } ==> (r.0
            matches State::AwaitConfirmation { book: b, selected: s, synopsis, .. } && summary@
            == spec_summary(b, views_of(s@), synopsis@, is_ebook)),
{
    let synopsis: String = match result {
        Ok(text) => clean_synopsis_response(text.as_str()),
        Err(_) => description_or_placeholder(&book),
    };
    to_confirmation(is_ebook, book, categories, selected, synopsis)
}

/// Handles the confirmation reply.
fn step_confirmed(
    is_ebook: bool,
    book: BookResult,
    categories: Vec<Category>,
    selected: Vec<String>,
    synopsis: String,
    result: Result<bool, PromptError>,
) -> (r: (State, Action))
    ensures
        (phase_of(r.0), kind_of(r.1)) == spec_after_confirmation(
            book,
            views_of(selected@),
            categories@,
            result,
        ),
        result matches Ok(approved) ==> approved == false ==> (r.0 matches State::Done {
            outcome: Outcome::Cancelled { book: b },
        } && b == book) && r.1 is Finish,
        result is Err ==> (r.0 matches State::Done { outcome: Outcome::PromptFailed { book: b } }
            && b == book),
        result matches Ok(approved) ==> approved == true && spec_cover_url(book) is Some ==> ((
        r.1 matches Action::AcquireCover { url, filename } && Some(url@) == spec_cover_url(book)
            && filename@ == "cover.jpg"@) && (r.0 matches State::AwaitCover {
            book: b,
            categories: c,
            selected: s,
            synopsis: y,
            fallback_isbn,
        } && b == book && c == categories && s == selected && y == synopsis && opt_view(
            fallback_isbn,
        ) == spec_result_isbn(book))),
        r.1 matches Action::CreateEntry { entry } ==> spec_entry_matches(
            entry,
            book,
            categories@,
            selected@,
            synopsis,
            is_ebook,
        ) && entry.cover@.len() == 0,
        result matches Ok(approved) ==> (approved == true && spec_cover_url(book) is None ==> (
        r.1 is Finish ==> (r.0 matches State::Done {
            outcome: Outcome::CreateFailed { book: b, error: _ },
        } && b == book))),
        r.1 is CreateEntry ==> (r.0 matches State::AwaitCreate { book: b } && b == book),
{
    match result {
        Ok(approved) => {
            if !approved {
                (State::Done { outcome: Outcome::Cancelled { book } }, Action::Finish)
            } else {
                match get_cover_image_url(&book) {
                    Some(url) => {
                        let fallback_isbn = book.get_isbn();
                        (
                            State::AwaitCover {
                                book,
                                categories,
                                selected,
                                synopsis,
                                fallback_isbn,
                            },
                            Action::AcquireCover {
                                url,
                                filename: String::from_str("cover.jpg"),
                            },
                        )
                    },
                    None => to_create(is_ebook, book, categories, selected, synopsis, Vec::new()),
                }
            }
        },
        Err(_) => {
            (State::Done { outcome: Outcome::PromptFailed { book } }, Action::Finish)
        },
    }
}

/// Handles a cover attempt's outcome.
fn step_cover(
    is_ebook: bool,
    book: BookResult,
    categories: Vec<Category>,
    selected: Vec<String>,
    synopsis: String,
    fallback_isbn: Option<String>,
    result: Result<CoverImage, UploadError>,
) -> (r: (State, Action))
    ensures
        (phase_of(r.0), kind_of(r.1)) == spec_after_cover(
            fallback_isbn,
            views_of(selected@),
            categories@,
            result,
        ),
        fallback_isbn matches Some(isbn) ==> result is Err ==> ((r.1
            matches Action::AcquireCover { url, filename } && url@ == spec_isbn_cover_url(isbn@)
            && filename@ == "cover-fallback.jpg"@) && (r.0 matches State::AwaitCover {
            book: b,
            categories: c,
            selected: s,
            synopsis: y,
            fallback_isbn: f2,
        } && b == book && c == categories && s == selected && y == synopsis && f2 is None)),
        fallback_isbn is None && result is Err ==> (r.1 matches Action::CreateEntry { entry }
            ==> entry.cover@.len() == 0),
        result matches Ok(c) ==> (r.1 matches Action::CreateEntry { entry } ==> entry.cover@
            =~= seq![c]),
        r.1 matches Action::CreateEntry { entry } ==> spec_entry_matches(
            entry,
            book,
            categories@,
            selected@,
            synopsis,
            is_ebook,
        ),
        r.1 is Finish ==> (r.0 matches State::Done {
            outcome: Outcome::CreateFailed { book: b, error: _ },
        } && b == book),
        r.1 is CreateEntry ==> (r.0 matches State::AwaitCreate { book: b } && b == book),
{
    match result {
        Ok(cover) => {
            let mut covers: Vec<CoverImage> = Vec::new();
            covers.push(cover);
            to_create(is_ebook, book, categories, selected, synopsis, covers)
        },
        Err(_) => {
            match fallback_isbn {
                Some(isbn) => {
                    let url = isbn_cover_url(isbn.as_str());
                    (
                        State::AwaitCover {
                            book,
                            categories,
                            selected,
                            synopsis,
                            fallback_isbn: None,
                        },
                        Action::AcquireCover {
                            url,
                            filename: String::from_str("cover-fallback.jpg"),
                        },
                    )
                },
                None => to_create(is_ebook, book, categories, selected, synopsis, Vec::new()),
            }
        },
    }
}

/// Handles the datastore's reply to row creation.
fn step_created(book: BookResult, result: Result<CreatedEntry, BaserowError>) -> (r: (
    State,
    Action,
))
    ensures
        phase_of(r.0) == Phase::Finished,
        kind_of(r.1) == ActionKind::Finish,
        result matches Ok(ce) ==> (r.0 matches State::Done {
            outcome: Outcome::Created { book: b, entry_id },
        } && b == book && entry_id == ce.id),
        result matches Err(e) ==> (r.0 matches State::Done {
            outcome: Outcome::CreateFailed { book: b, error },
        } && b == book && error == e),
{
    match result {
        Ok(ce) => {
            (State::Done { outcome: Outcome::Created { book, entry_id: ce.id } }, Action::Finish)
        },
        Err(error) => {
            (State::Done { outcome: Outcome::CreateFailed { book, error } }, Action::Finish)
        },
    }
}

// What follows states the trace-level guarantees of the machine: each is a
// fact about `spec_transition`, the transition structure that `step` is
// proved to follow.

/// When the first source returns at least one candidate, no transition asks
/// the second source: its outcome is used and the fallback tier never runs.
pub proof fn lemma_no_fallback_after_hit(w: Workflow, e: Event)
    requires
        w.state is AwaitPrimary,
        e matches Event::Primary { result: Ok(res) } && res.books@.len() > 0,
    ensures
        spec_transition(w, e).1 != ActionKind::SearchFallback,
        spec_transition(w, e).0 != Phase::Fallback,
{
}

/// When the first source returns zero candidates or fails, the one next
/// action is to ask the second source.
pub proof fn lemma_fallback_on_miss(w: Workflow, e: Event)
    requires
        w.state is AwaitPrimary,
        e matches Event::Primary { result } && (result matches Ok(res) ==> res.books@.len() == 0),
    ensures
        spec_transition(w, e) == (Phase::Fallback, ActionKind::SearchFallback),
{
}

/// The second source is only ever asked from the primary tier, on empty or
/// failed primary results; since no transition re-enters the primary tier,
/// it is asked at most once per run.
pub proof fn lemma_fallback_only_from_primary(w: Workflow, e: Event)
    ensures
        spec_transition(w, e).1 == ActionKind::SearchFallback ==> w.state is AwaitPrimary,
        spec_transition(w, e).0 != Phase::Primary,
{
}

/// Declining at confirmation finishes the run at once.
pub proof fn lemma_decline_is_terminal(w: Workflow, e: Event)
    requires
        w.state is AwaitConfirmation,
        e matches Event::Confirmed { result: Ok(approved) } && approved == false,
    ensures
        spec_transition(w, e) == (Phase::Finished, ActionKind::Finish),
{
}

/// A finished run asks for nothing more: in particular it never asks for a
/// row creation or a cover upload, so declining at confirmation keeps the
/// datastore untouched for the rest of the run.
pub proof fn lemma_finished_is_absorbing(w: Workflow, e: Event)
    requires
        w.state is Done,
    ensures
        spec_transition(w, e) == (Phase::Finished, ActionKind::Finish),
{
}

/// Rows are created and covers acquired only at or after confirmation: every
/// transition that asks for either starts from the confirmation state or
/// from the cover states that only approval enters.
pub proof fn lemma_datastore_needs_confirmation(w: Workflow, e: Event)
    ensures
        spec_transition(w, e).1 == ActionKind::CreateEntry ==> (w.state is AwaitConfirmation
            || w.state is AwaitCover),
        spec_transition(w, e).1 == ActionKind::AcquireCover ==> (w.state is AwaitConfirmation
            || w.state is AwaitCover),
        spec_transition(w, e).0 == Phase::Cover ==> (w.state is AwaitConfirmation
            || w.state is AwaitCover),
{
}

/// A failed cover attempt without a remembered ISBN attempts nothing
/// further: the secondary provider is tried at most once, and only when the
/// candidate carries an ISBN.
pub proof fn lemma_cover_fallback_once(w: Workflow, e: Event)
    requires
        w.state matches State::AwaitCover { fallback_isbn: None, .. },
        e matches Event::CoverUploaded { result: Err(_) },
    ensures
        spec_transition(w, e).1 != ActionKind::AcquireCover,
{
}

/// Every category name the reply parsing keeps names some category of the
/// vocabulary, case-insensitively; in particular nothing outside the
/// controlled vocabulary is ever selected, and never more than five names.
pub proof fn lemma_selected_categories_sound(
    tokens: Seq<Seq<char>>,
    cats: Seq<Category>,
    cap: nat,
)
    ensures
        crate::llm::spec_selected_categories(tokens, cats, cap).len() <= cap,
        forall|k: int|
            0 <= k < crate::llm::spec_selected_categories(tokens, cats, cap).len()
                ==> crate::llm::spec_token_matches(
                #[trigger] crate::llm::spec_selected_categories(tokens, cats, cap)[k],
                cats,
            ),
    decreases tokens.len(),
{
    if tokens.len() == 0 || cap == 0 {
    } else {
        lemma_selected_categories_sound(tokens.drop_first(), cats, (cap - 1) as nat);
        lemma_selected_categories_sound(tokens.drop_first(), cats, cap);
    }
}

/// Every resolved category identifier is the identifier of some available
/// category whose name one selected name matches: entries never point at
/// rows outside the fetched table.
pub proof fn lemma_category_ids_sound(names: Seq<Seq<char>>, cats: Seq<Category>)
    ensures
        spec_category_ids(names, cats).len() <= names.len(),
        forall|k: int|
            0 <= k < spec_category_ids(names, cats).len() ==> exists|j: int|
                0 <= j < cats.len() && (#[trigger] spec_category_ids(names, cats)[k])
                    == cats[j].id,
    decreases names.len(),
{
    if names.len() == 0 {
    } else {
        lemma_category_ids_sound(names.drop_first(), cats);
        match crate::baserow::spec_find_category_id(names[0], cats) {
            Some(_) => {
                lemma_find_category_id_sound(names[0], cats);
            },
            None => {},
        }
    }
}

proof fn lemma_find_category_id_sound(name: Seq<char>, cats: Seq<Category>)
    requires
        crate::baserow::spec_find_category_id(name, cats) is Some,
    ensures
        exists|j: int|
            0 <= j < cats.len() && crate::baserow::spec_find_category_id(name, cats)
                == Some(#[trigger] cats[j].id),
    decreases cats.len(),
{
    if cats.len() == 0 {
    } else if crate::baserow::spec_name_matches_category(name, cats[0]) {
        assert(crate::baserow::spec_find_category_id(name, cats) == Some(cats[0].id));
    } else {
        lemma_find_category_id_sound(name, cats.drop_first());
        let j = choose|j: int|
            0 <= j < cats.drop_first().len() && crate::baserow::spec_find_category_id(
                name,
                cats.drop_first(),
            ) == Some(cats.drop_first()[j].id);
        assert(cats.drop_first()[j] == cats[j + 1]);
    }
}

} // verus!
