use vstd::prelude::*;
use vstd::string::StringExecFns;
use crate::html::{opt_view, string_views};
use crate::search::SearchResult;
use crate::text::{normalize, normalized, starts_with_seq, starts_with_str};

verus! {

/// Why a reasoning exchange gave no usable decision.
pub enum OllamaError {
    /// The backend could not be reached or answered with an error.
    ApiError(String),
    /// The backend answered, but not in the requested shape; holds the reply.
    JsonParseError(String),
    /// A page could not be fetched.
    FetchError(String),
}

pub const API_TAG: &'static str = "Ollama API: ";

pub const PARSE_TAG: &'static str = "JSON parse error: ";

pub const FETCH_TAG: &'static str = "Fetch error: ";

impl OllamaError {
    /// The error as a line of text: its kind, then what it carries.
    pub fn message(&self) -> (r: String)
        ensures
            r@ == match self {
                OllamaError::ApiError(m) => API_TAG@ + m@,
                OllamaError::JsonParseError(t) => PARSE_TAG@ + t@,
                OllamaError::FetchError(m) => FETCH_TAG@ + m@,
            },
    {
        match self {
            OllamaError::ApiError(m) => {
                let mut r = String::from_str(API_TAG);
                r.append(m.as_str());
                r
            },
            OllamaError::JsonParseError(t) => {
                let mut r = String::from_str(PARSE_TAG);
                r.append(t.as_str());
                r
            },
            OllamaError::FetchError(m) => {
                let mut r = String::from_str(FETCH_TAG);
                r.append(m.as_str());
                r
            },
        }
    }
}

/// The output shape that a reasoning request asks the backend to follow.
#[derive(PartialEq, Eq, Structural, Clone, Copy, Debug)]
pub enum Schema {
    /// `{question}`
    SubQuestion,
    /// `{tool}`
    Tool,
    /// `{results: [{title, url}]}`
    Results,
    /// `{summary}`
    Summary,
    /// `{decision}`
    Decision,
    /// `{answer, refined_sub_questions}`
    Answer,
    /// `{sub_questions}`
    SubQuestions,
}

/// The string member `key` of the JSON object that `text` holds; none
/// where `text` is no JSON object or that member is absent or no string.
pub uninterp spec fn json_member_str(text: Seq<char>, key: Seq<char>) -> Option<Seq<char>>;

/// The member `key` of the JSON object that `text` holds as a list of
/// strings; none where it is absent or not an array of strings.
pub uninterp spec fn json_member_strs(text: Seq<char>, key: Seq<char>) -> Option<Seq<Seq<char>>>;

/// The member `key` of the JSON object that `text` holds, read as an array
/// of objects, each giving its string members `a` and `b`; none where any
/// part of that is missing or of another kind.
pub uninterp spec fn json_member_pairs(text: Seq<char>, key: Seq<char>, a: Seq<char>, b: Seq<char>) -> Option<Seq<(Seq<char>, Seq<char>)>>;

/// Whether `text` holds a JSON object that has a member `key`.
pub uninterp spec fn json_has_member(text: Seq<char>, key: Seq<char>) -> bool;

/// The compact JSON array of the given strings.
pub uninterp spec fn json_string_array(items: Seq<Seq<char>>) -> Seq<char>;

pub open spec fn opt_strings_view(o: Option<Vec<String>>) -> Option<Seq<Seq<char>>> {
    match o {
        Some(v) => Some(string_views(v@)),
        None => None,
    }
}

pub open spec fn pair_views(v: Seq<(String, String)>) -> Seq<(Seq<char>, Seq<char>)> {
    v.map_values(|p: (String, String)| (p.0@, p.1@))
}

pub open spec fn opt_pairs_view(o: Option<Vec<(String, String)>>) -> Option<Seq<(Seq<char>, Seq<char>)>> {
    match o {
        Some(v) => Some(pair_views(v@)),
        None => None,
    }
}

/// Relies on `serde_json::from_str` into a `Value`, `Value::get` and
/// `Value::as_str`: reads one string member of a JSON object.
#[verifier::external_body]
fn member_str(text: &str, key: &str) -> (r: Option<String>)
    ensures
        opt_view(r) == json_member_str(text@, key@),
{
    let v: serde_json::Value = serde_json::from_str(text).ok()?;
    v.get(key)?.as_str().map(|s| s.to_string())
}

/// Relies on `serde_json::from_str` into a `Value`, `Value::get`,
/// `Value::as_array` and `Value::as_str`: reads a member that is an array
/// of strings.
#[verifier::external_body]
fn member_strs(text: &str, key: &str) -> (r: Option<Vec<String>>)
    ensures
        opt_strings_view(r) == json_member_strs(text@, key@),
{
    let v: serde_json::Value = serde_json::from_str(text).ok()?;
    v.get(key)?.as_array()?.iter().map(|e| e.as_str().map(|s| s.to_string())).collect()
}

/// Relies on `serde_json::from_str` into a `Value`, `Value::get`,
/// `Value::as_array` and `Value::as_str`: reads a member that is an array
/// of objects with two string members.
#[verifier::external_body]
fn member_pairs(text: &str, key: &str, a: &str, b: &str) -> (r: Option<Vec<(String, String)>>)
    ensures
        opt_pairs_view(r) == json_member_pairs(text@, key@, a@, b@),
{
    let v: serde_json::Value = serde_json::from_str(text).ok()?;
    v.get(key)?.as_array()?.iter().map(|e| {
        Some((e.get(a)?.as_str()?.to_string(), e.get(b)?.as_str()?.to_string()))
    }).collect()
}

/// Relies on `serde_json::from_str` into a `Value` and `Value::get`: whether
/// the object has the member at all.
#[verifier::external_body]
fn has_member(text: &str, key: &str) -> (r: bool)
    ensures
        r == json_has_member(text@, key@),
{
    match serde_json::from_str::<serde_json::Value>(text) {
        Ok(v) => v.get(key).is_some(),
        Err(_) => false,
    }
}

/// Relies on `serde_json::to_string` of a list of strings, which cannot
/// fail: the compact JSON array.
#[verifier::external_body]
fn string_array_json(items: &Vec<String>) -> (r: String)
    ensures
        r@ == json_string_array(string_views(items@)),
{
    serde_json::to_string(items).unwrap_or_default()
}

/// A shape error holds the reply it could not read.
pub open spec fn rejects<T>(r: Result<T, OllamaError>, reply: Seq<char>) -> bool {
    match r {
        Ok(_) => false,
        Err(OllamaError::JsonParseError(t)) => t@ == reply,
        Err(_) => false,
    }
}

/// Reads a string member as the decision, or rejects the reply.
fn decode_member(text: &str, key: &str) -> (r: Result<String, OllamaError>)
    ensures
        match json_member_str(text@, key@) {
            Some(v) => r matches Ok(s) && s@ == v,
            None => rejects(r, text@),
        },
{
    match member_str(text, key) {
        Some(s) => Ok(s),
        None => Err(OllamaError::JsonParseError(String::from_str(text))),
    }
}

/// The sub-question of a `{question}` reply.
pub fn parse_sub_question(text: &str) -> (r: Result<String, OllamaError>)
    ensures
        match json_member_str(text@, "question"@) {
            Some(v) => r matches Ok(s) && s@ == v,
            None => rejects(r, text@),
        },
{
    decode_member(text, "question")
}

/// The summary of a `{summary}` reply.
pub fn summarize_text(text: &str) -> (r: Result<String, OllamaError>)
    ensures
        match json_member_str(text@, "summary"@) {
            Some(v) => r matches Ok(s) && s@ == v,
            None => rejects(r, text@),
        },
{
    decode_member(text, "summary")
}

/// The tool named by a `{tool}` reply, trimmed and lowercased.
pub fn decide_search_tool(text: &str) -> (r: Result<String, OllamaError>)
    ensures
        match json_member_str(text@, "tool"@) {
            Some(v) => r matches Ok(s) && s@ == normalized(v),
            None => rejects(r, text@),
        },
{
    match member_str(text, "tool") {
        Some(s) => Ok(normalize(s.as_str())),
        None => Err(OllamaError::JsonParseError(String::from_str(text))),
    }
}

/// The decision of a `{decision}` reply, trimmed and lowercased.
pub fn check_if_answer_is_complete(text: &str) -> (r: Result<String, OllamaError>)
    ensures
        match json_member_str(text@, "decision"@) {
            Some(v) => r matches Ok(s) && s@ == normalized(v),
            None => rejects(r, text@),
        },
{
    match member_str(text, "decision") {
        Some(s) => Ok(normalize(s.as_str())),
        None => Err(OllamaError::JsonParseError(String::from_str(text))),
    }
}

/// A stop decision reply says to stop: it is well-formed and its decision,
/// normalized, begins with "yes". Anything else, a malformed reply
/// included, means to go on.
pub open spec fn says_stop(text: Seq<char>) -> bool {
    match json_member_str(text, "decision"@) {
        Some(d) => starts_with_seq(normalized(d), "yes"@),
        None => false,
    }
}

/// Whether a stop decision reply says to stop; a malformed reply reads as
/// "no".
pub fn should_stop(text: &str) -> (r: bool)
    ensures
        r == says_stop(text@),
{
    match check_if_answer_is_complete(text) {
        Ok(d) => starts_with_str(d.as_str(), "yes"),
        Err(_) => false,
    }
}

/// A reply that is not in the decision shape is read as an explicit "no".
pub proof fn lemma_malformed_decision_is_no(text: Seq<char>)
    requires
        json_member_str(text, "decision"@) is None,
    ensures
        !says_stop(text),
{
}

/// The results of a `{results: [{title, url}]}` reply, as the backend gave
/// them.
pub fn filter_search_results(text: &str) -> (r: Result<Vec<SearchResult>, OllamaError>)
    ensures
        match json_member_pairs(text@, "results"@, "title"@, "url"@) {
            Some(v) => r matches Ok(rs) && rs@.len() == v.len() && forall|i: int|
                0 <= i < v.len() ==> (#[trigger] rs@[i]).title@ == v[i].0 && rs@[i].url@ == v[i].1,
            None => rejects(r, text@),
        },
{
    match member_pairs(text, "results", "title", "url") {
        Some(pairs) => {
            let mut rs: Vec<SearchResult> = Vec::new();
            let mut i: usize = 0;
            while i < pairs.len()
                invariant
                    i <= pairs@.len(),
                    rs@.len() == i,
                    forall|j: int|
                        0 <= j < i ==> (#[trigger] rs@[j]).title@ == pairs@[j].0@ && rs@[j].url@
                            == pairs@[j].1@,
                decreases pairs@.len() - i,
            {
                rs.push(SearchResult { title: pairs[i].0.clone(), url: pairs[i].1.clone() });
                i = i + 1;
            }
            proof {
                assert forall|j: int| 0 <= j < pairs@.len() implies pair_views(pairs@)[j] == (
                    pairs@[j].0@,
                    pairs@[j].1@,
                ) by {}
            }
            Ok(rs)
        },
        None => Err(OllamaError::JsonParseError(String::from_str(text))),
    }
}

/// The sub-questions of a `{sub_questions}` reply.
pub fn decompose_question(text: &str) -> (r: Result<Vec<String>, OllamaError>)
    ensures
        match json_member_strs(text@, "sub_questions"@) {
            Some(v) => r matches Ok(qs) && string_views(qs@) == v,
            None => rejects(r, text@),
        },
{
    match member_strs(text, "sub_questions") {
        Some(qs) => Ok(qs),
        None => Err(OllamaError::JsonParseError(String::from_str(text))),
    }
}

pub const ANSWER_OPEN: &'static str = "{\"answer\":\"\",\"refined_sub_questions\":";

pub const ANSWER_CLOSE: &'static str = "}";

/// The refined sub-questions of an answer reply: the listed ones, none
/// where the member is absent; unreadable where present but malformed.
pub open spec fn refined_of(text: Seq<char>) -> Option<Seq<Seq<char>>> {
    if json_has_member(text, "refined_sub_questions"@) {
        json_member_strs(text, "refined_sub_questions"@)
    } else {
        Some(Seq::empty())
    }
}

/// The final answer that a well-formed answer reply gives: its answer, or,
/// where that is empty and refined sub-questions are listed, the reply
/// written back in compact form.
pub open spec fn answer_of(answer: Seq<char>, refined: Seq<Seq<char>>) -> Seq<char> {
    if answer.len() == 0 && refined.len() > 0 {
        ANSWER_OPEN@ + json_string_array(refined) + ANSWER_CLOSE@
    } else {
        answer
    }
}

/// The final answer of an `{answer, refined_sub_questions}` reply.
pub fn evaluate_completeness_and_answer(text: &str) -> (r: Result<String, OllamaError>)
    ensures
        match (json_member_str(text@, "answer"@), refined_of(text@)) {
            (Some(a), Some(q)) => r matches Ok(s) && s@ == answer_of(a, q),
            _ => rejects(r, text@),
        },
{
    let answer = match member_str(text, "answer") {
        Some(a) => a,
        None => {
            return Err(OllamaError::JsonParseError(String::from_str(text)));
        },
    };
    let refined = if has_member(text, "refined_sub_questions") {
        match member_strs(text, "refined_sub_questions") {
            Some(q) => q,
            None => {
                return Err(OllamaError::JsonParseError(String::from_str(text)));
            },
        }
    } else {
        Vec::new()
    };
    proof {
        assert(string_views(Seq::<String>::empty()) =~= Seq::<Seq<char>>::empty());
    }
    if answer.unicode_len() == 0 && refined.len() > 0 {
        let mut r = String::from_str(ANSWER_OPEN);
        let arr = string_array_json(&refined);
        r.append(arr.as_str());
        r.append(ANSWER_CLOSE);
        Ok(r)
    } else {
        Ok(answer)
    }
}

} // verus!
