//! The language-model side of enrichment: provider selection from
//! configuration, the two prompts, parsing of the category reply against the
//! controlled vocabulary, and cleanup of the synopsis reply.

use vstd::prelude::*;
use vstd::string::*;
use crate::baserow::{spec_category_name, spec_name_matches_category, Category};
use crate::config::{spec_placeholder, Config};
use crate::text::{
    lemma_views_push, spec_dec, spec_join, spec_starts_with, split_commas, split_commas_spec,
    str_contains, str_eq, str_starts_with, trim, trim_spec, u64_to_string, views_of,
};

verus! {

/// The provider selected at startup, with what a call to it needs.
pub enum LlmProvider {
    Ollama { base_url: String, model: String },
    OpenAi { api_key: String, base_url: String, model: String },
    Anthropic { api_key: String, base_url: String, model: String },
}

/// The language-model error taxonomy.
#[derive(Debug)]
pub enum LlmError {
    RequestFailed(String),
    InvalidResponse(String),
    ModelNotAvailable,
    ConfigurationError(String),
}

/// A request to the local provider's generation endpoint.
pub struct OllamaRequest {
    pub model: String,
    pub prompt: String,
    pub stream: bool,
}

/// The local provider's generation reply.
pub struct OllamaResponse {
    pub response: String,
    pub done: bool,
}

/// One chat message of the first hosted provider's API.
pub struct OpenAiMessage {
    pub role: String,
    pub content: String,
}

/// The first hosted provider's chat reply.
pub struct OpenAiResponse {
    pub choices: Vec<OpenAiChoice>,
}

/// One choice of the first hosted provider's chat reply.
pub struct OpenAiChoice {
    pub message: OpenAiMessage,
}

/// The configuration selects a known provider whose credential is usable.
pub open spec fn spec_provider_ok(c: Config) -> bool {
    ||| c.llm.provider@ == "ollama"@
    ||| (c.llm.provider@ == "openai"@ && !spec_placeholder(c.llm.openai.api_key@))
    ||| (c.llm.provider@ == "anthropic"@ && !spec_placeholder(c.llm.anthropic.api_key@))
}

impl LlmProvider {
    /// Selects the provider the configuration names; an unknown name or a
    /// placeholder credential is a configuration error, found before any
    /// call is made.
    pub fn from_config(config: &Config) -> (r: Result<LlmProvider, LlmError>)
        ensures
            r is Ok <==> spec_provider_ok(*config),
            r matches Ok(p) ==> match p {
                LlmProvider::Ollama { base_url, model } => config.llm.provider@ == "ollama"@
                    && base_url@ == config.llm.ollama.base_url@ && model@
                    == config.llm.ollama.model@,
                LlmProvider::OpenAi { api_key, base_url, model } => config.llm.provider@
                    == "openai"@ && api_key@ == config.llm.openai.api_key@ && base_url@
                    == config.llm.openai.base_url@ && model@ == config.llm.openai.model@,
                LlmProvider::Anthropic { api_key, base_url, model } => config.llm.provider@
                    == "anthropic"@ && api_key@ == config.llm.anthropic.api_key@ && base_url@
                    == config.llm.anthropic.base_url@ && model@ == config.llm.anthropic.model@,
            },
            r matches Err(e) ==> e is ConfigurationError,
    {
        proof {
            reveal_strlit("ollama");
            reveal_strlit("openai");
            reveal_strlit("anthropic");
            assert("ollama"@[1] == 'l' && "openai"@[1] == 'p');
            assert("ollama"@ != "openai"@);
            assert("ollama"@.len() == 6 && "anthropic"@.len() == 9 && "openai"@.len() == 6);
            assert("ollama"@ != "anthropic"@);
            assert("openai"@ != "anthropic"@);
        }
        if str_eq(config.llm.provider.as_str(), "ollama") {
            Ok(
                LlmProvider::Ollama {
                    base_url: config.llm.ollama.base_url.clone(),
                    model: config.llm.ollama.model.clone(),
                },
            )
        } else if str_eq(config.llm.provider.as_str(), "openai") {
            if str_contains(config.llm.openai.api_key.as_str(), "your_") {
                Err(
                    LlmError::ConfigurationError(
                        String::from_str("OpenAI API key not configured"),
                    ),
                )
            } else {
                Ok(
                    LlmProvider::OpenAi {
                        api_key: config.llm.openai.api_key.clone(),
                        base_url: config.llm.openai.base_url.clone(),
                        model: config.llm.openai.model.clone(),
                    },
                )
            }
        } else if str_eq(config.llm.provider.as_str(), "anthropic") {
            if str_contains(config.llm.anthropic.api_key.as_str(), "your_") {
                Err(
                    LlmError::ConfigurationError(
                        String::from_str("Anthropic API key not configured"),
                    ),
                )
            } else {
                Ok(
                    LlmProvider::Anthropic {
                        api_key: config.llm.anthropic.api_key.clone(),
                        base_url: config.llm.anthropic.base_url.clone(),
                        model: config.llm.anthropic.model.clone(),
                    },
                )
            }
        } else {
            let mut m = String::from_str("Unsupported LLM provider: ");
            m.append(config.llm.provider.as_str());
            m.append(". Supported providers: ollama, openai, anthropic");
            Err(LlmError::ConfigurationError(m))
        }
    }
}

/// The names of the categories that have one, in catalog order: the
/// controlled vocabulary offered to the model.
pub open spec fn spec_category_names(cats: Seq<Category>) -> Seq<Seq<char>>
    decreases cats.len(),
{
    if cats.len() == 0 {
        Seq::<Seq<char>>::empty()
    } else {
        let rest = spec_category_names(cats.drop_first());
        match spec_category_name(cats[0]) {
            Some(n) => seq![n] + rest,
            None => rest,
        }
    }
}

/// Collects the controlled vocabulary from the category list.
pub fn category_names(cats: &Vec<Category>) -> (r: Vec<String>)
    ensures
        views_of(r@) == spec_category_names(cats@),
{
    let mut r: Vec<String> = Vec::new();
    let mut i: usize = 0;
    assert(cats@.skip(0) =~= cats@);
    assert(views_of(r@) =~= Seq::<Seq<char>>::empty());
    while i < cats.len()
        invariant
            i <= cats@.len(),
            spec_category_names(cats@) == views_of(r@) + spec_category_names(
                cats@.skip(i as int),
            ),
        decreases cats@.len() - i,
    {
        assert(cats@.skip(i as int)[0] == cats@[i as int]);
        assert(cats@.skip(i as int).drop_first() =~= cats@.skip(i as int + 1));
        let ghost before = r@;
        match cats[i].get_name() {
            Some(n) => {
                let ghost gn = n;
                r.push(n);
                proof {
                    lemma_views_push(before, gn);
                }
            },
            None => {},
        }
        i = i + 1;
    }
    assert(cats@.skip(cats@.len() as int) =~= Seq::<Category>::empty());
    assert(views_of(r@) =~= spec_category_names(cats@));
    r
}

/// The category-selection prompt: the enriched book information, the
/// controlled vocabulary, and the instruction to pick three to five names
/// from it.
pub open spec fn spec_category_prompt(info: Seq<char>, names: Seq<Seq<char>>) -> Seq<char> {
    "You are a librarian helping to categorize books. Based on the book information provided, select 3-5 categories that best describe this book.\n\nBOOK INFORMATION:\n"@
        + info + "\n\nAVAILABLE CATEGORIES (you MUST choose ONLY from these exact categories):\n"@
        + spec_join(names, ", "@)
        + "\n\nINSTRUCTIONS:\n1. Select 3-5 categories from the list above that best fit this book\n2. Consider genre, subject matter, target audience, and content type\n3. Return ONLY the category names, separated by commas\n4. Use the exact category names as listed above\n5. Do not create new categories or modify existing ones\n\nRESPONSE FORMAT: Category1, Category2, Category3, Category4, Category5"@
}

/// Builds the category-selection prompt.
pub fn create_category_selection_prompt(book_info: &str, categories: &Vec<Category>) -> (r:
    String)
    ensures
        r@ == spec_category_prompt(book_info@, spec_category_names(categories@)),
{
    let names = category_names(categories);
    let list = crate::text::join_with(&names, ", ");
    let mut r = String::from_str(
        "You are a librarian helping to categorize books. Based on the book information provided, select 3-5 categories that best describe this book.\n\nBOOK INFORMATION:\n",
    );
    r.append(book_info);
    r.append("\n\nAVAILABLE CATEGORIES (you MUST choose ONLY from these exact categories):\n");
    r.append(list.as_str());
    r.append(
        "\n\nINSTRUCTIONS:\n1. Select 3-5 categories from the list above that best fit this book\n2. Consider genre, subject matter, target audience, and content type\n3. Return ONLY the category names, separated by commas\n4. Use the exact category names as listed above\n5. Do not create new categories or modify existing ones\n\nRESPONSE FORMAT: Category1, Category2, Category3, Category4, Category5",
    );
    r
}

/// The synopsis prompt: the enriched book information and the target length,
/// stated twice as the instructions do.
pub open spec fn spec_synopsis_prompt(info: Seq<char>, target_words: nat) -> Seq<char> {
    "Based on the book information provided, write a comprehensive synopsis of approximately "@
        + spec_dec(target_words) + " words.\n\nBOOK INFORMATION:\n"@ + info
        + "\n\nINSTRUCTIONS:\n1. Write a clear, engaging synopsis that captures the book's essence\n2. Include main themes, plot elements (without major spoilers), and key characters\n3. Target length: approximately "@
        + spec_dec(target_words)
        + " words\n4. Write in an informative yet engaging style suitable for a library catalog\n5. Focus on what makes this book unique and interesting to potential readers\n\nSYNOPSIS:"@
}

/// Builds the synopsis prompt.
pub fn create_synopsis_prompt(book_info: &str, target_words: usize) -> (r: String)
    ensures
        r@ == spec_synopsis_prompt(book_info@, target_words as nat),
{
    let digits = u64_to_string(target_words as u64);
    let mut r = String::from_str(
        "Based on the book information provided, write a comprehensive synopsis of approximately ",
    );
    r.append(digits.as_str());
    r.append(" words.\n\nBOOK INFORMATION:\n");
    r.append(book_info);
    r.append(
        "\n\nINSTRUCTIONS:\n1. Write a clear, engaging synopsis that captures the book's essence\n2. Include main themes, plot elements (without major spoilers), and key characters\n3. Target length: approximately ",
    );
    r.append(digits.as_str());
    r.append(
        " words\n4. Write in an informative yet engaging style suitable for a library catalog\n5. Focus on what makes this book unique and interesting to potential readers\n\nSYNOPSIS:",
    );
    r
}

/// `t` names some category of the vocabulary, case-insensitively.
pub open spec fn spec_token_matches(t: Seq<char>, cats: Seq<Category>) -> bool {
    exists|j: int| 0 <= j < cats.len() && spec_name_matches_category(t, #[trigger] cats[j])
}

fn token_matches(t: &str, cats: &Vec<Category>) -> (r: bool)
    ensures
        r == spec_token_matches(t@, cats@),
{
    let mut j: usize = 0;
    while j < cats.len()
        invariant
            j <= cats@.len(),
            forall|k: int| 0 <= k < j ==> !spec_name_matches_category(t@, #[trigger] cats@[k]),
        decreases cats@.len() - j,
    {
        let matched: bool = match cats[j].get_name() {
            Some(n) => crate::foreign::eq_ignore_case(n.as_str(), t),
            None => false,
        };
        if matched {
            assert(spec_name_matches_category(t@, cats@[j as int]));
            return true;
        }
        j = j + 1;
    }
    false
}

/// The category names kept from the reply's tokens: each token trimmed, the
/// empty ones dropped, only names of the vocabulary kept (case-insensitively,
/// in the reply's own spelling), and at most `cap` of them.
pub open spec fn spec_selected_categories(
    tokens: Seq<Seq<char>>,
    cats: Seq<Category>,
    cap: nat,
) -> Seq<Seq<char>>
    decreases tokens.len(),
{
    if tokens.len() == 0 || cap == 0 {
        Seq::<Seq<char>>::empty()
    } else {
        let t = trim_spec(tokens[0]);
        if t.len() > 0 && spec_token_matches(t, cats) {
            seq![t] + spec_selected_categories(tokens.drop_first(), cats, (cap - 1) as nat)
        } else {
            spec_selected_categories(tokens.drop_first(), cats, cap)
        }
    }
}

/// What parsing the model's comma-separated reply yields: the matching
/// trimmed tokens, capped at five.
pub open spec fn spec_parsed_categories(response: Seq<char>, cats: Seq<Category>) -> Seq<
    Seq<char>,
> {
    spec_selected_categories(split_commas_spec(response), cats, 5)
}

/// Parses the model's comma-separated category reply against the controlled
/// vocabulary: split on commas, trim, drop empties, keep only names of the
/// vocabulary, cap at five; a reply in which nothing valid remains is the
/// hard failure that stops entry creation.
pub fn parse_category_response(response: &str, available_categories: &Vec<Category>) -> (r:
    Result<Vec<String>, LlmError>)
    ensures
        ({
            let picked = spec_parsed_categories(response@, available_categories@);
            match r {
                Ok(v) => picked.len() > 0 && views_of(v@) == picked,
                Err(e) => picked.len() == 0 && (e matches LlmError::InvalidResponse(m) && m@
                    == "No valid categories found in LLM response"@),
            }
        }),
{
    let tokens = split_commas(response);
    let ghost split = split_commas_spec(response@);
    let ghost goal = spec_selected_categories(split, available_categories@, 5);
    let mut out: Vec<String> = Vec::new();
    let mut i: usize = 0;
    assert(split.skip(0) =~= split);
    assert(views_of(out@) =~= Seq::<Seq<char>>::empty());
    while i < tokens.len()
        invariant
            i <= tokens@.len(),
            tokens@.len() == split.len(),
            forall|k: int| 0 <= k < split.len() ==> tokens@[k]@ == split[k],
            out@.len() <= 5,
            goal == spec_selected_categories(split, available_categories@, 5),
            goal == views_of(out@) + spec_selected_categories(
                split.skip(i as int),
                available_categories@,
                (5 - out@.len()) as nat,
            ),
        decreases tokens@.len() - i,
    {
        proof {
            assert(split.skip(i as int)[0] == split[i as int]);
            assert(split.skip(i as int).drop_first() =~= split.skip(i as int + 1));
        }
        let trimmed = trim(tokens[i].as_str());
        if out.len() < 5 && trimmed.unicode_len() > 0 && token_matches(
            trimmed,
            available_categories,
        ) {
            let ghost before = out@;
            let kept = String::from_str(trimmed);
            let ghost gk = kept;
            out.push(kept);
            proof {
                lemma_views_push(before, gk);
                assert(views_of(before) + (seq![gk@] + spec_selected_categories(
                    split.skip(i as int + 1),
                    available_categories@,
                    (5 - out@.len()) as nat,
                )) =~= views_of(out@) + spec_selected_categories(
                    split.skip(i as int + 1),
                    available_categories@,
                    (5 - out@.len()) as nat,
                ));
            }
        }
        i = i + 1;
    }
    assert(split.skip(split.len() as int) =~= Seq::<Seq<char>>::empty());
    if out.len() == 0 {
        assert(goal =~= Seq::<Seq<char>>::empty());
        Err(LlmError::InvalidResponse(String::from_str("No valid categories found in LLM response")))
    } else {
        assert(views_of(out@) =~= goal);
        Ok(out)
    }
}

/// The reply with one known redundant prefix removed after trimming, and
/// trimmed again.
pub open spec fn spec_strip_synopsis_prefix(s: Seq<char>) -> Seq<char> {
    if spec_starts_with(s, "**SYNOPSIS**"@) {
        s.skip("**SYNOPSIS**"@.len() as int)
    } else if spec_starts_with(s, "SYNOPSIS:"@) {
        s.skip("SYNOPSIS:"@.len() as int)
    } else if spec_starts_with(s, "Synopsis:"@) {
        s.skip("Synopsis:"@.len() as int)
    } else if spec_starts_with(s, "**Synopsis**"@) {
        s.skip("**Synopsis**"@.len() as int)
    } else {
        s
    }
}

/// The synopsis text used from a model reply.
pub open spec fn spec_clean_synopsis(s: Seq<char>) -> Seq<char> {
    trim_spec(spec_strip_synopsis_prefix(trim_spec(s)))
}

/// Cleans a synopsis reply: trims it, strips one known redundant label
/// prefix, and trims what remains.
pub fn clean_synopsis_response(response: &str) -> (r: String)
    ensures
        r@ == spec_clean_synopsis(response@),
{
    proof {
        reveal_strlit("**SYNOPSIS**");
        reveal_strlit("SYNOPSIS:");
        reveal_strlit("Synopsis:");
        reveal_strlit("**Synopsis**");
    }
    let t = trim(response);
    let len = t.unicode_len();
    let stripped: &str = if str_starts_with(t, "**SYNOPSIS**") {
        assert(t@.subrange(12, t@.len() as int) =~= t@.skip("**SYNOPSIS**"@.len() as int));
        t.substring_char(12, len)
    } else if str_starts_with(t, "SYNOPSIS:") {
        assert(t@.subrange(9, t@.len() as int) =~= t@.skip("SYNOPSIS:"@.len() as int));
        t.substring_char(9, len)
    } else if str_starts_with(t, "Synopsis:") {
        assert(t@.subrange(9, t@.len() as int) =~= t@.skip("Synopsis:"@.len() as int));
        t.substring_char(9, len)
    } else if str_starts_with(t, "**Synopsis**") {
        assert(t@.subrange(12, t@.len() as int) =~= t@.skip("**Synopsis**"@.len() as int));
        t.substring_char(12, len)
    } else {
        t
    };
    String::from_str(trim(stripped))
}

} // verus!
