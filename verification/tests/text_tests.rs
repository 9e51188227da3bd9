use project_oculus::actions::{
    clean_generated_content, content_with_summary, document_path, document_prompt,
    extraction_prompt, search_url, summary_prompt,
};
use project_oculus::executor::{extraction_outcome, StepOutcome};
use project_oculus::numtext::to_decimal;
use project_oculus::planner::{clean_planner_response, context_for_step, AgentStep};
use project_oculus::prompts::AGENT_TASK_PROMPT;
use project_oculus::task::{build_task_input, clean_oracle_reply};
use project_oculus::textutil::{
    join_strings, replace_str, sanitize_text, split_lines, split_words, str_eq,
    to_lowercase_ascii, trim_end_matches_str, trim_spaces, trim_start_matches_str,
};

#[test]
fn decimal_rendering() {
    assert_eq!(to_decimal(0), "0");
    assert_eq!(to_decimal(7), "7");
    assert_eq!(to_decimal(10), "10");
    assert_eq!(to_decimal(12345), "12345");
    assert_eq!(to_decimal(u64::MAX), "18446744073709551615");
}

#[test]
fn trimming_and_comparing() {
    assert_eq!(trim_spaces("  \t hello world \r\n"), "hello world");
    assert_eq!(trim_spaces("   "), "");
    assert!(str_eq("abc", "abc"));
    assert!(!str_eq("abc", "abd"));
    assert!(!str_eq("abc", "ab"));
}

#[test]
fn splitting_words_and_lines() {
    assert_eq!(split_words("  one  two\tthree "), vec!["one", "two", "three"]);
    assert!(split_words("   ").is_empty());
    assert_eq!(split_lines("a\r\nb\nc"), vec!["a", "b", "c"]);
    assert_eq!(split_lines("a\n\nb\n"), vec!["a", "", "b"]);
}

#[test]
fn sanitizing_keys_drops_collapses_and_trims() {
    assert_eq!(sanitize_text("A__b!!c__"), "a_bc");
    // spaces are foreign characters here: words are joined by
    // underscores before sanitization, not by it
    assert_eq!(sanitize_text("Hello, World!"), "helloworld");
    assert_eq!(sanitize_text("Hello_World"), "hello_world");
    assert_eq!(sanitize_text("!!!"), "");
    assert_eq!(sanitize_text("___"), "");
}

#[test]
fn replacement_scans_left_to_right_without_overlap() {
    assert_eq!(replace_str("aaa", "aa", "b"), "ba");
    assert_eq!(replace_str("x'y'z", "'", "\\'"), "x\\'y\\'z");
    assert_eq!(replace_str("none here", "zz", "q"), "none here");
}

#[test]
fn prefix_and_suffix_stripping_repeats() {
    assert_eq!(trim_start_matches_str("ababX", "ab"), "X");
    assert_eq!(trim_end_matches_str("Xczczc", "zc"), "Xc");
    assert_eq!(trim_start_matches_str("plain", "ab"), "plain");
}

#[test]
fn ascii_lowercasing_leaves_other_characters() {
    assert_eq!(to_lowercase_ascii("MiXeD 42!"), "mixed 42!");
    assert_eq!(to_lowercase_ascii("ABC-d\u{c9}f"), "abc-d\u{c9}f");
}

#[test]
fn joining_inserts_the_separator_between_parts() {
    let parts = vec![String::from("a"), String::from("b"), String::from("c")];
    assert_eq!(join_strings(&parts, "\n"), "a\nb\nc");
    assert_eq!(join_strings(&vec![String::from("solo")], ", "), "solo");
    assert_eq!(join_strings(&Vec::new(), ", "), "");
}

#[test]
fn oracle_reply_cleanup() {
    assert_eq!(
        clean_oracle_reply("```json\n{\"next_action\": {}}\n```"),
        "{\"next_action\": {}}"
    );
    assert_eq!(clean_oracle_reply("plain"), "plain");
}

#[test]
fn planner_reply_cleanup() {
    assert_eq!(
        clean_planner_response("```json\n{\"steps\": []}\n```"),
        "{\"steps\": []}"
    );
    assert_eq!(clean_planner_response("  {\"steps\": []}  "), "{\"steps\": []}");
}

#[test]
fn task_input_starts_with_the_fixed_prompt() {
    let input = build_task_input("the page state");
    assert_eq!(input, format!("{}{}", AGENT_TASK_PROMPT, "the page state"));
}

#[test]
fn search_urls_are_percent_encoded() {
    assert_eq!(
        search_url("rust verifier"),
        "https://duckduckgo.com/?q=rust%20verifier"
    );
    assert_eq!(search_url("a&b=c"), "https://duckduckgo.com/?q=a%26b%3Dc");
    assert_eq!(search_url(""), "https://duckduckgo.com/?q=");
}

#[test]
fn document_paths_follow_the_format() {
    assert_eq!(document_path("report", "markdown"), "documents/report.md");
    assert_eq!(document_path("report", "MD"), "documents/report.md");
    assert_eq!(document_path("notes", "text"), "documents/notes.txt");
    assert_eq!(document_path("notes", "txt"), "documents/notes.txt");
    assert_eq!(document_path("data", "json"), "documents/data.json");
    assert_eq!(document_path("page", "HTML"), "documents/page.html");
    assert_eq!(document_path("misc", "docx"), "documents/misc.txt");
}

#[test]
fn document_prompts_name_the_task() {
    assert_eq!(
        document_prompt("list the results", "markdown"),
        "Create a well-structured markdown document for the following task: list the results. \n            Include appropriate headings, formatting, and organization. \n            Make it professional and comprehensive."
    );
    assert_eq!(
        document_prompt("list the results", "other"),
        "Create a document for the following task: list the results"
    );
}

#[test]
fn generated_content_is_unfenced() {
    assert_eq!(
        clean_generated_content("```markdown\n# Title\n```", "markdown"),
        "# Title"
    );
    assert_eq!(
        clean_generated_content("```json\n{\"a\": 1}\n```", "JSON"),
        "{\"a\": 1}"
    );
    assert_eq!(clean_generated_content(" raw \n", "other"), " raw \n");
}

#[test]
fn extraction_prompts_embed_state_and_content() {
    let p = extraction_prompt("find the price", " the body ");
    assert_eq!(
        p,
        "Analyze the current page and extract relevant information given the current task and the body of the content: find the price, the body. I want you to give the answer in the following format: ```json {\n        \"final_goal_reached\": true or false,\n        \"final_answer\": \"The final answer to the question\"\n        }```"
    );
    let s = summary_prompt("  words  ");
    assert_eq!(
        s,
        "Summarize the following webpage content and identify the most important text on the page: words"
    );
    assert_eq!(
        content_with_summary("body", "short"),
        "body\n\nSummary: short"
    );
}

#[test]
fn extraction_replies_classify_by_goal_reached() {
    let done = extraction_outcome(
        "{\"final_goal_reached\": true, \"final_answer\": \"99\"}",
    );
    assert!(matches!(&done, StepOutcome::FinalAnswer(a) if a == "99"));
    let not_done = extraction_outcome(
        "{\"final_goal_reached\": false, \"final_answer\": \"99\"}",
    );
    assert!(matches!(not_done, StepOutcome::Continue));
    let malformed = extraction_outcome("nonsense");
    assert!(matches!(malformed, StepOutcome::Continue));
}

#[test]
fn step_context_follows_the_plan_wiring() {
    let step = AgentStep {
        id: String::from("ResponseAgent2"),
        goal: String::from("summarize"),
        description: String::from("second step"),
        tools: String::from("web"),
        role: String::from("Summarizer"),
        backstory: String::from(""),
        context: String::from("fallback context"),
        run_in_parallel: false,
        needs_context_from: Some(0),
    };
    let outputs = vec![Some(String::from("first output")), None];
    assert_eq!(context_for_step(&step, &outputs), "first output");
    let mut unwired = step;
    unwired.needs_context_from = None;
    assert_eq!(context_for_step(&unwired, &outputs), "fallback context");
    unwired.needs_context_from = Some(9);
    assert_eq!(context_for_step(&unwired, &outputs), "");
    unwired.needs_context_from = Some(1);
    assert_eq!(context_for_step(&unwired, &outputs), "");
}
