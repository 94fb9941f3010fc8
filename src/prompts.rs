use vstd::prelude::*;
use vstd::string::StringExecFns;
use crate::search::{SearchResult, result_line};

verus! {

pub const FILTER_HEAD: &'static str = "You are a search result filter. Your task is to identify relevant search results for a given topic. Below is the topic and a list of search results. Each search result is formatted as 'Title: [title] URL: [url]'.\n\nTopic: '";

pub const FILTER_MID: &'static str = "'\n\nSearch Results:\n";

pub const FILTER_TAIL: &'static str = "\n\nRespond with a JSON object containing a key 'results' which is an array of objects, where each object has 'title' and 'url' keys.\nExample:\n{\n  \"results\": [\n    {\n      \"title\": \"Example Example\",\n      \"url\": \"https://example.com\"\n    }\n  ]\n}";

/// The reply shape that the filter prompt illustrates.
pub const RESULTS_EXAMPLE: &'static str = "{\n  \"results\": [\n    {\n      \"title\": \"Example Title\",\n      \"url\": \"https://example.com\"\n    }\n  ]\n}";

pub const SUMMARIZE_HEAD: &'static str = "Summarize the following text in relation to the question: '";

pub const SUMMARIZE_MID: &'static str = "'.\n\nText:\n";

pub const ANSWER_HEAD: &'static str = "Synthesize the information in the research summary to directly answer the following question: '";

pub const ANSWER_MID: &'static str = "'.\n\nResearch Summary:\n";

pub const TOOL_HEAD: &'static str = "Given the sub-question: '";

pub const TOOL_TAIL: &'static str = "', decide whether to use Wikipedia or DuckDuckGo. Use Wikipedia for factual, well-defined topics (e.g., historical events, scientific concepts, biographies). Use DuckDuckGo for broader, more current, less structured, or time-sensitive queries (e.g., 'latest news', 'current events', 'how-to guides', 'opinions', 'troubleshooting'). Respond with 'wikipedia' or 'duckduckgo'.";

pub const DECOMPOSE_HEAD: &'static str = "Break down this complex question into concrete, specific sub-questions needed to answer it step by step. Reply in JSON list of strings.\n\nQuestion: '";

pub const QUOTE: &'static str = "'";

pub const FIRST_HEAD: &'static str = "You are a meticulous research assistant. Your task is to generate a specific and relevant sub-question to help answer the main question.\nFor the first sub-question, focus on identifying the core event or entity mentioned in the main question, including any specific dates or locations. Do not try to answer the main question directly yet.\nThe sub-question should be a single, focused query that can be effectively used for a web search.\nRespond with a JSON object containing a single key \"question\".\n\nExample:\n{\n  \"question\": \"What happened on September 21, 2001 in France?\"\n}\n\nMain Question: '";

pub const NEXT_HEAD: &'static str = "You are a meticulous research assistant. Based on the main question and the research context provided below, generate the next single, specific sub-question to continue the research.\nPay strict attention to the details provided in the main question and context, such as dates, names, and locations. Do not invent or change these details.\nThe sub-question should be a focused query suitable for a web search.\nRespond with a JSON object containing a single key \"question\".\n\nMain Question: '";

pub const NEXT_MID: &'static str = "'\n\nResearch Context:\n";

pub const STOP_HEAD: &'static str = "Based on the research summary so far:\n";

pub const STOP_MID: &'static str = "\n\nCan you now provide a comprehensive answer to the main question: '";

pub const STOP_TAIL: &'static str = "'? Respond with a JSON object containing a single key \"decision\" with value \"yes\" or \"no\".";

pub open spec fn filter_prompt(q: Seq<char>, listing: Seq<char>) -> Seq<char> {
    FILTER_HEAD@ + q + FILTER_MID@ + listing + FILTER_TAIL@
}

pub open spec fn summarize_prompt(q: Seq<char>, text: Seq<char>) -> Seq<char> {
    SUMMARIZE_HEAD@ + q + SUMMARIZE_MID@ + text
}

pub open spec fn answer_prompt(q: Seq<char>, summary: Seq<char>) -> Seq<char> {
    ANSWER_HEAD@ + q + ANSWER_MID@ + summary
}

pub open spec fn tool_prompt(q: Seq<char>) -> Seq<char> {
    TOOL_HEAD@ + q + TOOL_TAIL@
}

pub open spec fn decompose_prompt(q: Seq<char>) -> Seq<char> {
    DECOMPOSE_HEAD@ + q + QUOTE@
}

pub open spec fn first_prompt(q: Seq<char>) -> Seq<char> {
    FIRST_HEAD@ + q + QUOTE@
}

pub open spec fn next_prompt(q: Seq<char>, context: Seq<char>) -> Seq<char> {
    NEXT_HEAD@ + q + NEXT_MID@ + context
}

pub open spec fn stop_prompt(summary: Seq<char>, q: Seq<char>) -> Seq<char> {
    STOP_HEAD@ + summary + STOP_MID@ + q + STOP_TAIL@
}

/// The sub-question prompt for a given context: the decomposition variant
/// while nothing has been gathered, the refinement variant afterwards.
pub open spec fn sub_question_prompt(q: Seq<char>, context: Seq<char>) -> Seq<char> {
    if context.len() == 0 {
        first_prompt(q)
    } else {
        next_prompt(q, context)
    }
}

/// Each result as `Title: <title> URL: <url>`, one per line.
pub open spec fn listing(rs: Seq<SearchResult>) -> Seq<char>
    decreases rs.len(),
{
    if rs.len() == 0 {
        Seq::empty()
    } else if rs.len() == 1 {
        result_line(rs[0])
    } else {
        listing(rs.drop_last()) + "\n"@ + result_line(rs.last())
    }
}

/// Asks which of the given results bear on `sub_question`. The example
/// argument is accepted for callers that pass one; the prompt carries its own.
pub fn filter_search_results_prompt(sub_question: &str, results_str: &str, json_example: &str) -> (r: String)
    ensures
        r@ == filter_prompt(sub_question@, results_str@),
{
    let mut r = String::from_str(FILTER_HEAD);
    r.append(sub_question);
    r.append(FILTER_MID);
    r.append(results_str);
    r.append(FILTER_TAIL);
    r
}

/// Asks for a summary of `text` with respect to `sub_question`.
pub fn summarize_text_prompt(sub_question: &str, text: &str) -> (r: String)
    ensures
        r@ == summarize_prompt(sub_question@, text@),
{
    let mut r = String::from_str(SUMMARIZE_HEAD);
    r.append(sub_question);
    r.append(SUMMARIZE_MID);
    r.append(text);
    r
}

/// Asks for the final answer to `main_question` from the gathered summary.
pub fn evaluate_completeness_and_answer_prompt(main_question: &str, global_summary: &str) -> (r: String)
    ensures
        r@ == answer_prompt(main_question@, global_summary@),
{
    let mut r = String::from_str(ANSWER_HEAD);
    r.append(main_question);
    r.append(ANSWER_MID);
    r.append(global_summary);
    r
}

/// Asks which search tool suits `sub_question`.
pub fn decide_search_tool_prompt(sub_question: &str) -> (r: String)
    ensures
        r@ == tool_prompt(sub_question@),
{
    let mut r = String::from_str(TOOL_HEAD);
    r.append(sub_question);
    r.append(TOOL_TAIL);
    r
}

/// Asks for a list of sub-questions that together answer `question`.
pub fn decompose_question_prompt_initial(question: &str) -> (r: String)
    ensures
        r@ == decompose_prompt(question@),
{
    let mut r = String::from_str(DECOMPOSE_HEAD);
    r.append(question);
    r.append(QUOTE);
    r
}

/// Asks for the next sub-question, given what has been gathered so far.
pub fn decompose_question_prompt_iterative(main_question: &str, context: &str) -> (r: String)
    ensures
        r@ == next_prompt(main_question@, context@),
{
    let mut r = String::from_str(NEXT_HEAD);
    r.append(main_question);
    r.append(NEXT_MID);
    r.append(context);
    r
}

/// Asks for the first sub-question of a session.
pub fn first_sub_question_prompt(main_question: &str) -> (r: String)
    ensures
        r@ == first_prompt(main_question@),
{
    let mut r = String::from_str(FIRST_HEAD);
    r.append(main_question);
    r.append(QUOTE);
    r
}

/// The sub-question prompt: the first-question variant for an empty
/// context, the refinement variant otherwise.
pub fn sub_question_prompt_for(main_question: &str, context: &str) -> (r: String)
    ensures
        r@ == sub_question_prompt(main_question@, context@),
{
    if context.unicode_len() == 0 {
        first_sub_question_prompt(main_question)
    } else {
        decompose_question_prompt_iterative(main_question, context)
    }
}

/// Asks whether the gathered summary suffices to answer `main_question`.
pub fn check_if_answer_is_complete_prompt(global_summary: &str, main_question: &str) -> (r: String)
    ensures
        r@ == stop_prompt(global_summary@, main_question@),
{
    let mut r = String::from_str(STOP_HEAD);
    r.append(global_summary);
    r.append(STOP_MID);
    r.append(main_question);
    r.append(STOP_TAIL);
    r
}

/// The relevance request for `results`: none where there are no results,
/// so that no reasoning call is made for an empty set.
pub fn relevance_request(sub_question: &str, results: &Vec<SearchResult>) -> (r: Option<String>)
    ensures
        results@.len() == 0 <==> r is None,
        r matches Some(p) ==> p@ == filter_prompt(sub_question@, listing(results@)),
{
    if results.len() == 0 {
        None
    } else {
        let lines = results_listing(results);
        Some(filter_search_results_prompt(sub_question, lines.as_str(), RESULTS_EXAMPLE))
    }
}

/// The listing of `results` that the filter prompt carries.
pub fn results_listing(results: &Vec<SearchResult>) -> (r: String)
    ensures
        r@ == listing(results@),
{
    let mut r = String::new();
    let mut i: usize = 0;
    while i < results.len()
        invariant
            i <= results@.len(),
            r@ == listing(results@.subrange(0, i as int)),
        decreases results@.len() - i,
    {
        let line = crate::search::format_result_line(&results[i]);
        proof {
            let pre = results@.subrange(0, i as int);
            let cur = results@.subrange(0, i + 1);
            assert(cur.drop_last() =~= pre);
            assert(cur.last() == results@[i as int]);
        }
        if i > 0 {
            r.append("\n");
        }
        r.append(line.as_str());
        i = i + 1;
    }
    proof {
        assert(results@.subrange(0, results@.len() as int) =~= results@);
    }
    r
}

} // verus!
