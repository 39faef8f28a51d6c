//! Web-search augmentation: query-URL construction, conversion of the search
//! provider's reply into result snippets, the guaranteed non-empty fallback
//! result, and the text block that enriches a candidate before the
//! language-model calls.

use vstd::prelude::*;
use vstd::string::*;
use crate::foreign::{url_encode, url_encoded};
use crate::text::{spec_dec, u64_to_string};

verus! {

/// One snippet of additional information found on the web.
pub struct SearchResult {
    pub title: String,
    pub url: String,
    pub snippet: String,
}

/// The instant-answer reply of the search provider.
pub struct DuckDuckGoResponse {
    pub related_topics: Vec<DuckDuckGoTopic>,
    pub abstract_text: String,
    pub abstract_text_plain: String,
    pub abstract_source: String,
    pub abstract_url: String,
}

/// One related topic of the search provider's reply.
pub struct DuckDuckGoTopic {
    pub text: String,
    pub first_url: Option<String>,
}

/// The web-search error taxonomy; none of these ever aborts the pipeline.
#[derive(Debug)]
pub enum SearchError {
    RequestFailed(String),
    ParseError(String),
    NoResults,
}

/// The search text sent for a book: title, author and fixed search terms.
pub open spec fn spec_book_query(title: Seq<char>, author: Seq<char>) -> Seq<char> {
    title + " by "@ + author + " book synopsis review"@
}

/// The instant-answer URL for a book query, percent-encoded.
pub open spec fn spec_search_url(title: Seq<char>, author: Seq<char>) -> Seq<char> {
    "https://api.duckduckgo.com/?q="@ + url_encoded(spec_book_query(title, author))
        + "&format=json&no_redirect=1&no_html=1&skip_disambig=1"@
}

/// Builds the instant-answer query URL for a book.
pub fn search_url(title: &str, author: &str) -> (r: String)
    ensures
        r@ == spec_search_url(title@, author@),
{
    let mut q = String::from_str(title);
    q.append(" by ");
    q.append(author);
    q.append(" book synopsis review");
    let encoded = url_encode(q.as_str());
    let mut r = String::from_str("https://api.duckduckgo.com/?q=");
    r.append(encoded.as_str());
    r.append("&format=json&no_redirect=1&no_html=1&skip_disambig=1");
    r
}

/// The topics kept from a reply: of the first `cap` topics, those whose text
/// is non-empty, in order.
pub open spec fn spec_kept_topics(topics: Seq<DuckDuckGoTopic>, cap: nat) -> Seq<DuckDuckGoTopic>
    decreases topics.len(),
{
    if topics.len() == 0 || cap == 0 {
        Seq::<DuckDuckGoTopic>::empty()
    } else if topics[0].text@.len() > 0 {
        seq![topics[0]] + spec_kept_topics(topics.drop_first(), (cap - 1) as nat)
    } else {
        spec_kept_topics(topics.drop_first(), (cap - 1) as nat)
    }
}

/// The URL attached to a kept topic: its first URL, or empty.
pub open spec fn spec_topic_url(t: DuckDuckGoTopic) -> Seq<char> {
    match t.first_url {
        Some(u) => u@,
        None => Seq::<char>::empty(),
    }
}

/// Converts the search provider's reply into result snippets: the abstract
/// first when it carries text, then up to three non-empty related topics.
pub fn duckduckgo_results(resp: DuckDuckGoResponse, title: &str) -> (r: Vec<SearchResult>)
    ensures
        ({
            let kept = spec_kept_topics(resp.related_topics@, 3);
            let base: int = if resp.abstract_text_plain@.len() > 0 {
                1
            } else {
                0
            };
            &&& r@.len() == kept.len() + base
            &&& (resp.abstract_text_plain@.len() > 0 ==> {
                &&& r@[0].title@ == title@ + " - "@ + resp.abstract_source@
                &&& r@[0].url@ == resp.abstract_url@
                &&& r@[0].snippet@ == resp.abstract_text_plain@
            })
            &&& forall|k: int|
                base <= k < r@.len() ==> {
                    &&& (#[trigger] r@[k]).title@ == "Related: "@ + title@
                    &&& r@[k].url@ == spec_topic_url(kept[k - base])
                    &&& r@[k].snippet@ == kept[k - base].text@
                }
        }),
{
    let ghost kept = spec_kept_topics(resp.related_topics@, 3);
    let mut r: Vec<SearchResult> = Vec::new();
    if resp.abstract_text_plain.unicode_len() > 0 {
        let mut t = String::from_str(title);
        t.append(" - ");
        t.append(resp.abstract_source.as_str());
        r.push(
            SearchResult {
                title: t,
                url: resp.abstract_url,
                snippet: resp.abstract_text_plain,
            },
        );
    }
    let ghost base = r@.len() as int;
    let mut topics = resp.related_topics;
    let ghost orig = topics@;
    let ghost mut done = Seq::<DuckDuckGoTopic>::empty();
    let mut taken: usize = 0;
    assert(orig.skip(0) =~= orig);
    assert(kept =~= done + spec_kept_topics(orig.skip(0), 3));
    while taken < 3 && topics.len() > 0
        invariant
            taken <= 3,
            base <= r@.len(),
            taken <= orig.len(),
            topics@.len() == orig.len() - taken,
            topics@ =~= orig.skip(taken as int),
            kept == spec_kept_topics(orig, 3),
            kept == done + spec_kept_topics(orig.skip(taken as int), (3 - taken) as nat),
            r@.len() == base + done.len(),
            forall|k: int|
                base <= k < r@.len() ==> {
                    &&& (#[trigger] r@[k]).title@ == "Related: "@ + title@
                    &&& r@[k].url@ == spec_topic_url(done[k - base])
                    &&& r@[k].snippet@ == done[k - base].text@
                },
            resp.abstract_text_plain@.len() > 0 ==> base == 1 && {
                &&& r@[0].title@ == title@ + " - "@ + resp.abstract_source@
                &&& r@[0].url@ == resp.abstract_url@
                &&& r@[0].snippet@ == resp.abstract_text_plain@
            },
            resp.abstract_text_plain@.len() == 0 ==> base == 0,
        decreases 3 - taken,
    {
        proof {
            assert(orig.skip(taken as int)[0] == orig[taken as int]);
            assert(orig.skip(taken as int).drop_first() =~= orig.skip(taken as int + 1));
        }
        let t = topics.remove(0);
        let ghost gt = t;
        if t.text.unicode_len() > 0 {
            let mut label = String::from_str("Related: ");
            label.append(title);
            let url: String = match t.first_url {
                Some(u) => u,
                None => String::new(),
            };
            r.push(SearchResult { title: label, url, snippet: t.text });
            proof {
                done = done + seq![gt];
            }
        }
        taken = taken + 1;
    }
    proof {
        if taken == 3 {
            assert(spec_kept_topics(orig.skip(3), 0) =~= Seq::<DuckDuckGoTopic>::empty());
        } else {
            assert(orig.skip(taken as int).len() == 0);
            assert(spec_kept_topics(orig.skip(taken as int), (3 - taken) as nat)
                =~= Seq::<DuckDuckGoTopic>::empty());
        }
        assert(kept =~= done);
    }
    r
}

/// The always-available result standing in when the search found nothing: it
/// points the reader at manual sources.
pub fn basic_search_result(title: &str, author: &str) -> (r: SearchResult)
    ensures
        r.title@ == title@ + " by "@ + author@,
        r.url@.len() == 0,
        r.snippet@ == "Additional information needed for "@ + title@ + " by "@ + author@
            + ". Consider checking Goodreads, Wikipedia, or publisher websites for detailed synopsis and genre information."@,
{
    let mut t = String::from_str(title);
    t.append(" by ");
    t.append(author);
    let mut s = String::from_str("Additional information needed for ");
    s.append(title);
    s.append(" by ");
    s.append(author);
    s.append(
        ". Consider checking Goodreads, Wikipedia, or publisher websites for detailed synopsis and genre information.",
    );
    SearchResult { title: t, url: String::new(), snippet: s }
}

/// Keeps a non-empty result list as it is; an empty one degrades to the one
/// fallback result.
pub fn ensure_results(results: Vec<SearchResult>, title: &str, author: &str) -> (r: Vec<
    SearchResult,
>)
    ensures
        results@.len() > 0 ==> r@ == results@,
        results@.len() == 0 ==> r@.len() == 1 && r@[0].title@ == title@ + " by "@ + author@,
{
    if results.len() > 0 {
        results
    } else {
        let mut r: Vec<SearchResult> = Vec::new();
        r.push(basic_search_result(title, author));
        r
    }
}

/// The display block of one result under its one-based position.
pub open spec fn spec_result_block(r: SearchResult, idx: nat) -> Seq<char> {
    "\n"@ + spec_dec(idx) + ". "@ + r.title@ + "\n   "@ + r.snippet@ + "\n   Source: "@ + (
    if r.url@.len() == 0 {
        "N/A"@
    } else {
        r.url@
    }) + "\n"@
}

/// The blocks of the first `n` results, in order.
pub open spec fn spec_blocks_upto(results: Seq<SearchResult>, n: nat) -> Seq<char>
    decreases n,
{
    if n == 0 {
        Seq::<char>::empty()
    } else {
        spec_blocks_upto(results, (n - 1) as nat) + spec_result_block(results[n - 1], n)
    }
}

/// The full web-search section of the enrichment text.
pub open spec fn spec_formatted_results(results: Seq<SearchResult>) -> Seq<char> {
    if results.len() == 0 {
        "No additional information found from web search."@
    } else {
        "=== Additional Information from Web Search ===\n"@ + spec_blocks_upto(
            results,
            results.len(),
        ) + "\n=== End of Web Search Results ===\n"@
    }
}

/// Renders the search results as the numbered text block handed to the
/// language model.
pub fn format_search_results(results: &Vec<SearchResult>) -> (r: String)
    ensures
        r@ == spec_formatted_results(results@),
{
    if results.len() == 0 {
        return String::from_str("No additional information found from web search.");
    }
    let mut out = String::from_str("=== Additional Information from Web Search ===\n");
    let ghost head = out@;
    let mut i: usize = 0;
    while i < results.len()
        invariant
            i <= results@.len(),
            out@ == head + spec_blocks_upto(results@, i as nat),
        decreases results@.len() - i,
    {
        out.append("\n");
        let digits = u64_to_string((i + 1) as u64);
        out.append(digits.as_str());
        out.append(". ");
        out.append(results[i].title.as_str());
        out.append("\n   ");
        out.append(results[i].snippet.as_str());
        out.append("\n   Source: ");
        if results[i].url.unicode_len() == 0 {
            out.append("N/A");
        } else {
            out.append(results[i].url.as_str());
        }
        out.append("\n");
        i = i + 1;
    }
    out.append("\n=== End of Web Search Results ===\n");
    out
}

/// The enrichment text when the web search answered: original details first,
/// then the formatted results.
pub open spec fn spec_enhanced_ok(
    title: Seq<char>,
    author: Seq<char>,
    desc: Seq<char>,
    results: Seq<SearchResult>,
) -> Seq<char> {
    "=== Original Book Information ===\nTitle: "@ + title + "\nAuthor: "@ + author
        + "\nDescription: "@ + desc + "\n\n"@ + spec_formatted_results(results)
}

/// The enrichment text when the web search failed: original details and a
/// note, and nothing more; the failure never propagates.
pub open spec fn spec_enhanced_failed(
    title: Seq<char>,
    author: Seq<char>,
    desc: Seq<char>,
) -> Seq<char> {
    "=== Book Information (Web Search Failed) ===\nTitle: "@ + title + "\nAuthor: "@ + author
        + "\nDescription: "@ + desc
        + "\n\nNote: Unable to fetch additional information from web search."@
}

/// Builds the text block that enriches a candidate: its own details plus
/// whatever the web search contributed; a failed search degrades to a note.
pub fn enhance_book_info_with_search(
    title: &str,
    author: &str,
    existing_description: &str,
    search: &Result<Vec<SearchResult>, SearchError>,
) -> (r: String)
    ensures
        match search {
            Ok(results) => r@ == spec_enhanced_ok(
                title@,
                author@,
                existing_description@,
                results@,
            ),
            Err(_) => r@ == spec_enhanced_failed(title@, author@, existing_description@),
        },
{
    match search {
        Ok(results) => {
            let mut out = String::from_str("=== Original Book Information ===\nTitle: ");
            out.append(title);
            out.append("\nAuthor: ");
            out.append(author);
            out.append("\nDescription: ");
            out.append(existing_description);
            out.append("\n\n");
            let formatted = format_search_results(results);
            out.append(formatted.as_str());
            out
        },
        Err(_) => {
            let mut out = String::from_str("=== Book Information (Web Search Failed) ===\nTitle: ");
            out.append(title);
            out.append("\nAuthor: ");
            out.append(author);
            out.append("\nDescription: ");
            out.append(existing_description);
            out.append("\n\nNote: Unable to fetch additional information from web search.");
            out
        },
    }
}

} // verus!
