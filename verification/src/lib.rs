//! A personal-library cataloging core: multi-source book search with strict
//! two-tier fallback, interactive disambiguation, category and synopsis
//! enrichment through a language model, cover-image acquisition with a
//! secondary provider fallback, and assembly of a finished catalog record.
//!
//! All decision logic lives here and is verified; network and prompt I/O is
//! left to the surrounding application, which feeds results back as events.

pub mod baserow;
pub mod book_search;
pub mod config;
pub mod foreign;
pub mod google_books;
pub mod llm;
pub mod open_library;
pub mod text;
pub mod web_search;
pub mod workflow;

use vstd::prelude::*;

verus! {

/// Number of whitespace-delimited words in `s`, starting outside a word.
pub open spec fn word_count(s: Seq<char>) -> nat {
    text::count_words_from(s, false)
}

} // verus!
