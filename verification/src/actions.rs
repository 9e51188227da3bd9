//! The computed side of the browser action primitives: the search-engine
//! URL, the prompts the content-extraction actions send to the oracle,
//! the document file paths, prompts and content clean-up. The browser
//! and file work around these stands outside the library.

use crate::textutil::{
    lower_all, replace_all, replace_str, to_lowercase_ascii, trim_spaces, trim_spaces_spec,
};
use vstd::prelude::*;
use vstd::string::StrSliceExecFns;
use vstd::string::StringExecFns;

verus! {

/// What urlencoding::encode returns for this text: its percent-encoded
/// form. The result depends on the characters alone.
pub uninterp spec fn url_encoded(s: Seq<char>) -> Seq<char>;

/// Relies on urlencoding::encode: percent-encodes every byte except
/// ASCII alphanumerics and `-`, `_`, `.`, `~`; an empty text stays empty.
#[verifier::external_body]
fn encode_component(s: &str) -> (r: String)
    ensures
        r@ == url_encoded(s@),
        s@.len() == 0 ==> r@.len() == 0,
{
    urlencoding::encode(s).into_owned()
}

/// The search-engine URL for one query.
pub open spec fn search_url_spec(term: Seq<char>) -> Seq<char> {
    "https://duckduckgo.com/?q="@ + url_encoded(term)
}

/// Build the search-engine URL for a query, the search term
/// percent-encoded.
pub fn search_url(term: &str) -> (r: String)
    ensures
        r@ == search_url_spec(term@),
{
    let encoded = encode_component(term);
    let mut s = String::from_str("https://duckduckgo.com/?q=");
    s.append(encoded.as_str());
    s
}

/// The prompt that asks the oracle to summarize an extracted page.
pub open spec fn summary_prompt_spec(content: Seq<char>) -> Seq<char> {
    "Summarize the following webpage content and identify the most important text on the page: "@
        + trim_spaces_spec(content)
}

/// Build the summarization prompt for extracted page content.
pub fn summary_prompt(content: &str) -> (r: String)
    ensures
        r@ == summary_prompt_spec(content@),
{
    let trimmed = trim_spaces(content);
    let mut s = String::from_str(
        "Summarize the following webpage content and identify the most important text on the page: ",
    );
    s.append(trimmed.as_str());
    s
}

/// Extracted content and its summary, as the extraction action reports
/// them together.
pub open spec fn content_with_summary_spec(content: Seq<char>, summary: Seq<char>) -> Seq<char> {
    content + "\n\nSummary: "@ + summary
}

/// Join extracted content with the oracle's summary of it.
pub fn content_with_summary(content: &str, summary: &str) -> (r: String)
    ensures
        r@ == content_with_summary_spec(content@, summary@),
{
    let mut s = content.to_owned();
    s.append("\n\nSummary: ");
    s.append(summary);
    s
}

/// The prompt that asks the oracle whether the goal is reached on this
/// page, and for a structured final answer.
pub open spec fn extraction_prompt_spec(current_state: Seq<char>, content: Seq<char>) -> Seq<
    char,
> {
    "Analyze the current page and extract relevant information given the current task and the body of the content: "@
        + current_state + ", "@ + trim_spaces_spec(content)
        + ". I want you to give the answer in the following format: ```json {\n        \"final_goal_reached\": true or false,\n        \"final_answer\": \"The final answer to the question\"\n        }```"@
}

/// Build the information-extraction prompt.
pub fn extraction_prompt(current_state: &str, content: &str) -> (r: String)
    ensures
        r@ == extraction_prompt_spec(current_state@, content@),
{
    let trimmed = trim_spaces(content);
    let mut s = String::from_str(
        "Analyze the current page and extract relevant information given the current task and the body of the content: ",
    );
    s.append(current_state);
    s.append(", ");
    s.append(trimmed.as_str());
    s.append(
        ". I want you to give the answer in the following format: ```json {\n        \"final_goal_reached\": true or false,\n        \"final_answer\": \"The final answer to the question\"\n        }```",
    );
    s
}

/// The file suffix a document format maps to; plain text is the default.
pub open spec fn doc_suffix(fmt_l: Seq<char>) -> Seq<char> {
    if fmt_l == "markdown"@ || fmt_l == "md"@ {
        ".md"@
    } else if fmt_l == "text"@ || fmt_l == "txt"@ {
        ".txt"@
    } else if fmt_l == "json"@ {
        ".json"@
    } else if fmt_l == "html"@ {
        ".html"@
    } else {
        ".txt"@
    }
}

/// The path a document is stored under: the documents directory, the
/// filename, and the suffix of its format.
pub open spec fn document_path_spec(filename: Seq<char>, format_type: Seq<char>) -> Seq<char> {
    "documents/"@ + filename + doc_suffix(lower_all(format_type))
}

/// The storage path for a document of the given format.
pub fn document_path(filename: &str, format_type: &str) -> (r: String)
    ensures
        r@ == document_path_spec(filename@, format_type@),
{
    let fmt_l = to_lowercase_ascii(format_type);
    let mut s = String::from_str("documents/");
    s.append(filename);
    if crate::textutil::str_eq(fmt_l.as_str(), "markdown") || crate::textutil::str_eq(
        fmt_l.as_str(),
        "md",
    ) {
        s.append(".md");
    } else if crate::textutil::str_eq(fmt_l.as_str(), "text") || crate::textutil::str_eq(
        fmt_l.as_str(),
        "txt",
    ) {
        s.append(".txt");
    } else if crate::textutil::str_eq(fmt_l.as_str(), "json") {
        s.append(".json");
    } else if crate::textutil::str_eq(fmt_l.as_str(), "html") {
        s.append(".html");
    } else {
        s.append(".txt");
    }
    s
}

/// The prompt that asks the oracle to write a document of the given
/// format for a task.
pub open spec fn document_prompt_spec(task: Seq<char>, fmt_l: Seq<char>) -> Seq<char> {
    if fmt_l == "markdown"@ || fmt_l == "md"@ {
        "Create a well-structured markdown document for the following task: "@ + task
            + ". \n            Include appropriate headings, formatting, and organization. \n            Make it professional and comprehensive."@
    } else if fmt_l == "text"@ || fmt_l == "txt"@ {
        "Create a well-structured text document for the following task: "@ + task
            + ". \n            Make it clear, organized, and professional."@
    } else if fmt_l == "json"@ {
        "Create a JSON document containing structured data for the following task: "@ + task
            + ". \n            Ensure valid JSON format with appropriate structure."@
    } else if fmt_l == "html"@ {
        "Create a complete HTML document for the following task: "@ + task
            + ". \n            Include proper HTML structure, styling, and semantic markup."@
    } else {
        "Create a document for the following task: "@ + task
    }
}

/// Build the document-generation prompt for a task and format.
pub fn document_prompt(task_description: &str, format_type: &str) -> (r: String)
    ensures
        r@ == document_prompt_spec(task_description@, lower_all(format_type@)),
{
    let fmt_l = to_lowercase_ascii(format_type);
    if crate::textutil::str_eq(fmt_l.as_str(), "markdown") || crate::textutil::str_eq(
        fmt_l.as_str(),
        "md",
    ) {
        let mut s = String::from_str(
            "Create a well-structured markdown document for the following task: ",
        );
        s.append(task_description);
        s.append(
            ". \n            Include appropriate headings, formatting, and organization. \n            Make it professional and comprehensive.",
        );
        s
    } else if crate::textutil::str_eq(fmt_l.as_str(), "text") || crate::textutil::str_eq(
        fmt_l.as_str(),
        "txt",
    ) {
        let mut s = String::from_str(
            "Create a well-structured text document for the following task: ",
        );
        s.append(task_description);
        s.append(". \n            Make it clear, organized, and professional.");
        s
    } else if crate::textutil::str_eq(fmt_l.as_str(), "json") {
        let mut s = String::from_str(
            "Create a JSON document containing structured data for the following task: ",
        );
        s.append(task_description);
        s.append(". \n            Ensure valid JSON format with appropriate structure.");
        s
    } else if crate::textutil::str_eq(fmt_l.as_str(), "html") {
        let mut s = String::from_str(
            "Create a complete HTML document for the following task: ",
        );
        s.append(task_description);
        s.append(
            ". \n            Include proper HTML structure, styling, and semantic markup.",
        );
        s
    } else {
        let mut s = String::from_str("Create a document for the following task: ");
        s.append(task_description);
        s
    }
}

/// Generated document content with the code-fence markers of its format
/// removed and whitespace trimmed; other formats stay as they came.
pub open spec fn cleaned_document_spec(content: Seq<char>, fmt_l: Seq<char>) -> Seq<char> {
    if fmt_l == "markdown"@ || fmt_l == "md"@ {
        trim_spaces_spec(
            replace_all(
                replace_all(content, "```markdown"@, Seq::empty()),
                "```"@,
                Seq::empty(),
            ),
        )
    } else if fmt_l == "html"@ {
        trim_spaces_spec(
            replace_all(replace_all(content, "```html"@, Seq::empty()), "```"@, Seq::empty()),
        )
    } else if fmt_l == "json"@ {
        trim_spaces_spec(
            replace_all(replace_all(content, "```json"@, Seq::empty()), "```"@, Seq::empty()),
        )
    } else {
        content
    }
}

/// Strip code-fence markers from generated document content.
pub fn clean_generated_content(content: &str, format_type: &str) -> (r: String)
    ensures
        r@ == cleaned_document_spec(content@, lower_all(format_type@)),
{
    proof {
        reveal_strlit("");
        reveal_strlit("```markdown");
        reveal_strlit("```html");
        reveal_strlit("```json");
        reveal_strlit("```");
        assert(""@ =~= Seq::<char>::empty());
    }
    let fmt_l = to_lowercase_ascii(format_type);
    if crate::textutil::str_eq(fmt_l.as_str(), "markdown") || crate::textutil::str_eq(
        fmt_l.as_str(),
        "md",
    ) {
        let a = replace_str(content, "```markdown", "");
        let b = replace_str(a.as_str(), "```", "");
        trim_spaces(b.as_str())
    } else if crate::textutil::str_eq(fmt_l.as_str(), "html") {
        let a = replace_str(content, "```html", "");
        let b = replace_str(a.as_str(), "```", "");
        trim_spaces(b.as_str())
    } else if crate::textutil::str_eq(fmt_l.as_str(), "json") {
        let a = replace_str(content, "```json", "");
        let b = replace_str(a.as_str(), "```", "");
        trim_spaces(b.as_str())
    } else {
        content.to_owned()
    }
}

} // verus!
