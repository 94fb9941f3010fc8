use vstd::prelude::*;
use vstd::string::StringExecFns;
use crate::html::{extract_content, extracted_content, matched_links, string_views};
use crate::prompts::{
    answer_prompt, check_if_answer_is_complete_prompt, decide_search_tool_prompt,
    evaluate_completeness_and_answer_prompt, filter_prompt, listing, relevance_request,
    stop_prompt, sub_question_prompt, sub_question_prompt_for, summarize_prompt,
    summarize_text_prompt, tool_prompt,
};
use crate::reasoning::{
    answer_of, decide_search_tool, evaluate_completeness_and_answer,
    filter_search_results, json_member_pairs, json_member_str, parse_sub_question, refined_of,
    says_stop, should_stop, summarize_text, OllamaError, Schema,
};
use crate::search::{
    choose_tool, duckduckgo_results, exclude_blocked, is_blocked, kept,
    link_results, result_views, tool_of, wikipedia_results, wikipedia_views, SearchResult,
    ToolChoice, RESULT_LINK,
};
use crate::text::normalized;

verus! {

/// Where a session stands: the step whose outcome it waits for.
#[derive(PartialEq, Eq, Structural, Clone, Copy, Debug)]
pub enum Phase {
    SubQuestion,
    Tool,
    Search,
    Filter,
    Fetch,
    Summary,
    Stop,
    Answer,
    Done,
}

/// What the session needs done next by the collaborators around it.
pub enum Action {
    /// Send `prompt` to the reasoning backend, asking for the `schema` shape.
    Reason { prompt: String, schema: Schema },
    /// Search the encyclopedia for `query` and report the titles found.
    SearchEncyclopedia { query: String },
    /// Fetch the web search results page for `query` and report its HTML.
    SearchWeb { query: String },
    /// Fetch the page at `url` and report its HTML.
    FetchPage { url: String },
    /// The session is over; its answer, if any, is in `answer`.
    Finished,
}

/// The outcome of the last action.
pub enum Event {
    /// The text that came back: a reply of the backend, or a page's HTML.
    Reply(String),
    /// The titles that an encyclopedia search found.
    Titles(Vec<String>),
    /// The action failed; the message says why.
    Failed(String),
}

/// The error that an event other than the expected reply stands for.
fn failure(e: &Event) -> (r: OllamaError) {
    match e {
        Event::Failed(m) => OllamaError::ApiError(m.clone()),
        _ => OllamaError::ApiError(String::from_str("the collaborator answered with an outcome of another kind")),
    }
}

/// The error that an event other than a fetched page stands for.
fn fetch_failure(e: &Event) -> (r: OllamaError) {
    match e {
        Event::Failed(m) => OllamaError::FetchError(m.clone()),
        _ => OllamaError::FetchError(String::from_str("the collaborator answered with an outcome of another kind")),
    }
}

/// The string member `key` of a reply; none for any other event.
pub open spec fn reply_member(e: Event, key: Seq<char>) -> Option<Seq<char>> {
    match e {
        Event::Reply(t) => json_member_str(t@, key),
        _ => None,
    }
}

/// The search results that an event reports, before exclusion: encyclopedia
/// titles with their addresses, or the result links of a web results page.
pub open spec fn found(e: Event) -> Option<Seq<(Seq<char>, Seq<char>)>> {
    match e {
        Event::Titles(ts) => Some(wikipedia_views(string_views(ts@))),
        Event::Reply(html) => Some(link_results(matched_links(html@, RESULT_LINK@))),
        Event::Failed(_) => None,
    }
}

/// The relevant results that a filter reply lists.
pub open spec fn filtered(e: Event) -> Option<Seq<(Seq<char>, Seq<char>)>> {
    match e {
        Event::Reply(t) => json_member_pairs(t@, "results"@, "title"@, "url"@),
        _ => None,
    }
}

/// The final answer that an answer reply gives.
pub open spec fn final_answer(e: Event) -> Option<Seq<char>> {
    match e {
        Event::Reply(t) => match (json_member_str(t@, "answer"@), refined_of(t@)) {
            (Some(x), Some(q)) => Some(answer_of(x, q)),
            _ => None,
        },
        _ => None,
    }
}

/// Whether an event is a reply that says to stop.
pub open spec fn stop_reply(e: Event) -> bool {
    match e {
        Event::Reply(t) => says_stop(t@),
        _ => false,
    }
}

/// How a well-formed session `o` moves to `n` with action `a` on event `e`.
pub open spec fn transition(o: ResearchSession, e: Event, n: ResearchSession, a: Action) -> bool {
    match o.phase {
        Phase::SubQuestion => match reply_member(e, "question"@) {
            Some(q) => {
                &&& n.sub_question@ == q
                &&& n.phase == Phase::Tool
                &&& asks(a, Schema::Tool, tool_prompt(q))
            },
            None => n.iteration == o.iteration && n.finalizes(a),
        },
        Phase::Tool => match reply_member(e, "tool"@) {
            Some(v) => {
                &&& n.phase == Phase::Search
                &&& match tool_of(normalized(v)) {
                    ToolChoice::Encyclopedia => a matches Action::SearchEncyclopedia { query }
                        && query@ == o.sub_question@,
                    ToolChoice::Web => a matches Action::SearchWeb { query } && query@
                        == o.sub_question@,
                }
            },
            None => n.checks_stop(a),
        },
        Phase::Search => match found(e) {
            Some(f) => {
                &&& result_views(n.candidates@) == kept(f)
                &&& if kept(f).len() == 0 {
                    n.checks_stop(a)
                } else {
                    &&& n.phase == Phase::Filter
                    &&& asks(a, Schema::Results, filter_prompt(o.sub_question@, listing(n.candidates@)))
                }
            },
            None => n.checks_stop(a),
        },
        Phase::Filter => match filtered(e) {
            Some(v) => {
                &&& result_views(n.relevant@) == v
                &&& n.next == 0
                &&& n.advances(a)
            },
            None => n.checks_stop(a),
        },
        Phase::Fetch => match e {
            Event::Reply(html) => {
                &&& n.phase == Phase::Summary
                &&& n.next == o.next
                &&& asks(a, Schema::Summary, summarize_prompt(o.sub_question@, extracted_content(html@)))
            },
            _ => n.next == o.next + 1 && n.advances(a),
        },
        Phase::Summary => {
            &&& n.next == o.next + 1
            &&& n.relevant == o.relevant
            &&& n.advances(a)
            &&& match reply_member(e, "summary"@) {
                Some(s) => {
                    &&& n.fragments@ == o.fragments@.push(s)
                    &&& n.global_summary@ == o.global_summary@ + s + "\n\n"@
                },
                None => n.global_summary == o.global_summary && n.fragments == o.fragments,
            }
        },
        Phase::Stop => if stop_reply(e) {
            n.iteration == o.iteration && n.finalizes(a)
        } else {
            n.goes_on(&o, a)
        },
        Phase::Answer => {
            &&& n.phase == Phase::Done
            &&& a is Finished
            &&& match final_answer(e) {
                Some(x) => n.answer matches Some(s) && s@ == x,
                None => n.answer is None,
            }
        },
        Phase::Done => n.phase == Phase::Done && a is Finished,
    }
}

/// The fragments, each followed by a blank line, in order.
pub open spec fn summary_text(frags: Seq<Seq<char>>) -> Seq<char>
    decreases frags.len(),
{
    if frags.len() == 0 {
        Seq::empty()
    } else {
        summary_text(frags.drop_last()) + frags.last() + "\n\n"@
    }
}

/// Appending a fragment extends the summary by that fragment and a blank
/// line, and leaves what was there before untouched.
pub proof fn lemma_summary_appends(frags: Seq<Seq<char>>, s: Seq<char>)
    ensures
        summary_text(frags.push(s)) == summary_text(frags) + s + "\n\n"@,
{
    assert(frags.push(s).drop_last() =~= frags);
}

/// A well-formed session never begins more rounds than its bound allows.
pub proof fn lemma_rounds_bounded(s: ResearchSession)
    requires
        s.wf(),
    ensures
        s.iteration <= s.max_iterations,
{
}

/// A research session: one question, researched for at most
/// `max_iterations` rounds, with the summary gathered so far.
pub struct ResearchSession {
    pub question: String,
    pub model: String,
    pub max_iterations: u8,
    /// Rounds begun so far.
    pub iteration: u8,
    /// Every summary fragment gathered, each followed by a blank line.
    pub global_summary: String,
    pub phase: Phase,
    /// The sub-question of the current round.
    pub sub_question: String,
    /// The search results of the current round, excluded domains removed.
    pub candidates: Vec<SearchResult>,
    /// The results judged relevant in the current round.
    pub relevant: Vec<SearchResult>,
    /// The index in `relevant` of the result being worked on.
    pub next: usize,
    /// The final answer, once the session is done and one was produced.
    pub answer: Option<String>,
    /// The failure of the last step, if it had one.
    pub last_error: Option<OllamaError>,
    /// The summary fragments gathered, in order.
    pub fragments: Ghost<Seq<Seq<char>>>,
}

/// `a` asks the backend for `prompt` in the `schema` shape.
pub open spec fn asks(a: Action, schema: Schema, prompt: Seq<char>) -> bool {
    &&& a matches Action::Reason { prompt: p, schema: s }
    &&& p@ == prompt
    &&& s == schema
}

impl ResearchSession {
    pub open spec fn wf(&self) -> bool {
        &&& self.iteration <= self.max_iterations
        &&& self.global_summary@ == summary_text(self.fragments@)
        &&& self.next <= self.relevant@.len()
        &&& (self.phase == Phase::Fetch || self.phase == Phase::Summary) ==> self.next
            < self.relevant@.len()
        &&& forall|i: int|
            0 <= i < self.candidates@.len() ==> !is_blocked(#[trigger] self.candidates@[i].url@)
    }

    /// `self` differs from `o` in its phase at most.
    pub open spec fn same_but_phase(&self, o: &ResearchSession) -> bool {
        &&& self.question == o.question
        &&& self.model == o.model
        &&& self.max_iterations == o.max_iterations
        &&& self.iteration == o.iteration
        &&& self.global_summary == o.global_summary
        &&& self.sub_question == o.sub_question
        &&& self.candidates == o.candidates
        &&& self.relevant == o.relevant
        &&& self.next == o.next
        &&& self.answer == o.answer
        &&& self.fragments == o.fragments
    }

    /// The session asks whether it knows enough, over its summary.
    pub open spec fn checks_stop(&self, a: Action) -> bool {
        &&& self.phase == Phase::Stop
        &&& asks(a, Schema::Decision, stop_prompt(self.global_summary@, self.question@))
    }

    /// The session asks for the final answer, over its summary.
    pub open spec fn finalizes(&self, a: Action) -> bool {
        &&& self.phase == Phase::Answer
        &&& asks(a, Schema::Answer, answer_prompt(self.question@, self.global_summary@))
    }

    /// The session goes on to the result at `next`, or, past the last one,
    /// to the stop check.
    pub open spec fn advances(&self, a: Action) -> bool {
        if self.next < self.relevant@.len() {
            &&& self.phase == Phase::Fetch
            &&& a matches Action::FetchPage { url } && url@ == self.relevant@[self.next as int].url@
        } else {
            self.checks_stop(a)
        }
    }

    /// From `o`, a new round begins where the bound allows one, and the
    /// session finalizes otherwise.
    pub open spec fn goes_on(&self, o: &ResearchSession, a: Action) -> bool {
        &&& self.global_summary == o.global_summary
        &&& self.fragments == o.fragments
        &&& if o.iteration < o.max_iterations {
            &&& self.iteration == o.iteration + 1
            &&& self.phase == Phase::SubQuestion
            &&& asks(a, Schema::SubQuestion, sub_question_prompt(o.question@, o.global_summary@))
        } else {
            &&& self.iteration == o.iteration
            &&& self.finalizes(a)
        }
    }

    fn to_stop(&mut self) -> (a: Action)
        ensures
            final(self).same_but_phase(old(self)),
            final(self).checks_stop(a),
    {
        self.phase = Phase::Stop;
        let prompt = check_if_answer_is_complete_prompt(self.global_summary.as_str(), self.question.as_str());
        Action::Reason { prompt, schema: Schema::Decision }
    }

    fn to_answer(&mut self) -> (a: Action)
        ensures
            final(self).same_but_phase(old(self)),
            final(self).finalizes(a),
    {
        self.phase = Phase::Answer;
        let prompt = evaluate_completeness_and_answer_prompt(self.question.as_str(), self.global_summary.as_str());
        Action::Reason { prompt, schema: Schema::Answer }
    }

    fn advance(&mut self) -> (a: Action)
        ensures
            final(self).same_but_phase(old(self)),
            final(self).advances(a),
    {
        if self.next < self.relevant.len() {
            self.phase = Phase::Fetch;
            let url = self.relevant[self.next].url.clone();
            Action::FetchPage { url }
        } else {
            self.to_stop()
        }
    }

    fn go_on(&mut self) -> (a: Action)
        ensures
            final(self).goes_on(old(self), a),
            final(self).question == old(self).question,
            final(self).model == old(self).model,
            final(self).max_iterations == old(self).max_iterations,
            final(self).sub_question == old(self).sub_question,
            final(self).candidates == old(self).candidates,
            final(self).relevant == old(self).relevant,
            final(self).next == old(self).next,
            final(self).answer == old(self).answer,
    {
        if self.iteration < self.max_iterations {
            self.iteration = self.iteration + 1;
            self.phase = Phase::SubQuestion;
            let prompt = sub_question_prompt_for(self.question.as_str(), self.global_summary.as_str());
            Action::Reason { prompt, schema: Schema::SubQuestion }
        } else {
            self.to_answer()
        }
    }

    /// Takes the outcome of the last action and returns the next action.
    ///
    /// A round asks for a sub-question (from the question alone at first,
    /// from the gathered summary later), then for the tool, searches, drops
    /// excluded domains, asks which results are relevant, and fetches and
    /// summarizes each relevant result in turn, appending each summary and a
    /// blank line; then it asks whether enough is known. A failed
    /// sub-question ends the rounds; a failed tool choice, search or filter
    /// skips to the stop check; a failed fetch or summary skips that result;
    /// a failed or malformed stop decision counts as "no". The final answer
    /// is asked for once, however the rounds ended.
    pub fn step(&mut self, event: Event) -> (a: Action)
        ensures
            final(self).question == old(self).question,
            final(self).model == old(self).model,
            final(self).max_iterations == old(self).max_iterations,
            old(self).wf() ==> final(self).wf(),
            final(self).iteration == old(self).iteration || (final(self).iteration
                == old(self).iteration + 1 && old(self).iteration < old(self).max_iterations
                && final(self).phase == Phase::SubQuestion),
            old(self).phase != Phase::Summary ==> final(self).global_summary
                == old(self).global_summary && final(self).fragments == old(self).fragments,
            old(self).wf() ==> transition(*old(self), event, *final(self), a),
    {
        self.last_error = None;
        let a = match self.phase {
            Phase::SubQuestion => {
                let r = match &event {
                    Event::Reply(t) => parse_sub_question(t.as_str()),
                    _ => Err(failure(&event)),
                };
                match r {
                    Ok(q) => {
                        self.phase = Phase::Tool;
                        let prompt = decide_search_tool_prompt(q.as_str());
                        self.sub_question = q;
                        Action::Reason { prompt, schema: Schema::Tool }
                    },
                    Err(e) => {
                        self.last_error = Some(e);
                        self.to_answer()
                    },
                }
            },
            Phase::Tool => {
                let r = match &event {
                    Event::Reply(t) => decide_search_tool(t.as_str()),
                    _ => Err(failure(&event)),
                };
                match r {
                    Ok(tool) => {
                        self.phase = Phase::Search;
                        let query = self.sub_question.clone();
                        match choose_tool(tool.as_str()) {
                            ToolChoice::Encyclopedia => Action::SearchEncyclopedia { query },
                            ToolChoice::Web => Action::SearchWeb { query },
                        }
                    },
                    Err(e) => {
                        self.last_error = Some(e);
                        self.to_stop()
                    },
                }
            },
            Phase::Search => {
                let found = match &event {
                    Event::Titles(ts) => Some(wikipedia_results(ts)),
                    Event::Reply(html) => Some(duckduckgo_results(html.as_str())),
                    Event::Failed(_) => None,
                };
                match found {
                    Some(f) => {
                        self.candidates = exclude_blocked(&f);
                        match relevance_request(self.sub_question.as_str(), &self.candidates) {
                            None => self.to_stop(),
                            Some(prompt) => {
                                self.phase = Phase::Filter;
                                Action::Reason { prompt, schema: Schema::Results }
                            },
                        }
                    },
                    None => {
                        self.last_error = Some(failure(&event));
                        self.to_stop()
                    },
                }
            },
            Phase::Filter => {
                let r = match &event {
                    Event::Reply(t) => filter_search_results(t.as_str()),
                    _ => Err(failure(&event)),
                };
                match r {
                    Ok(rs) => {
                        proof {
                            if let Event::Reply(t) = event {
                                let v = json_member_pairs(t@, "results"@, "title"@, "url"@)->Some_0;
                                assert(result_views(rs@) =~= v);
                            }
                        }
                        self.relevant = rs;
                        self.next = 0;
                        self.advance()
                    },
                    Err(e) => {
                        self.last_error = Some(e);
                        self.to_stop()
                    },
                }
            },
            Phase::Fetch => {
                match &event {
                    Event::Reply(html) => {
                        let content = extract_content(html.as_str());
                        let prompt = summarize_text_prompt(self.sub_question.as_str(), content.as_str());
                        self.phase = Phase::Summary;
                        Action::Reason { prompt, schema: Schema::Summary }
                    },
                    _ => {
                        self.last_error = Some(fetch_failure(&event));
                        if self.next < self.relevant.len() {
                            self.next = self.next + 1;
                        }
                        self.advance()
                    },
                }
            },
            Phase::Summary => {
                let r = match &event {
                    Event::Reply(t) => summarize_text(t.as_str()),
                    _ => Err(failure(&event)),
                };
                match r {
                    Ok(s) => {
                        proof {
                            lemma_summary_appends(self.fragments@, s@);
                        }
                        self.global_summary.append(s.as_str());
                        self.global_summary.append("\n\n");
                        self.fragments = Ghost(self.fragments@.push(s@));
                    },
                    Err(e) => {
                        self.last_error = Some(e);
                    },
                }
                if self.next < self.relevant.len() {
                    self.next = self.next + 1;
                }
                self.advance()
            },
            Phase::Stop => {
                let stop = match &event {
                    Event::Reply(t) => should_stop(t.as_str()),
                    _ => {
                        self.last_error = Some(failure(&event));
                        false
                    },
                };
                if stop {
                    self.to_answer()
                } else {
                    self.go_on()
                }
            },
            Phase::Answer => {
                let r = match &event {
                    Event::Reply(t) => evaluate_completeness_and_answer(t.as_str()),
                    _ => Err(failure(&event)),
                };
                self.phase = Phase::Done;
                match r {
                    Ok(x) => {
                        self.answer = Some(x);
                    },
                    Err(e) => {
                        self.last_error = Some(e);
                        self.answer = None;
                    },
                }
                Action::Finished
            },
            Phase::Done => Action::Finished,
        };
        a
    }

    /// A new session on `question`, with nothing gathered, and its first
    /// action: the first sub-question request, or, where no round is
    /// allowed, the final answer request over the empty summary.
    pub fn new(question: String, model: String, max_iterations: u8) -> (r: (ResearchSession, Action))
        ensures
            r.0.wf(),
            r.0.question == question,
            r.0.model == model,
            r.0.max_iterations == max_iterations,
            r.0.global_summary@ == Seq::<char>::empty(),
            r.0.fragments@ == Seq::<Seq<char>>::empty(),
            r.0.answer is None,
            max_iterations > 0 ==> r.0.iteration == 1 && r.0.phase == Phase::SubQuestion && asks(
                r.1,
                Schema::SubQuestion,
                sub_question_prompt(question@, Seq::empty()),
            ),
            max_iterations == 0 ==> r.0.iteration == 0 && r.0.finalizes(r.1),
    {
        let mut s = ResearchSession {
            question,
            model,
            max_iterations,
            iteration: 0,
            global_summary: String::new(),
            phase: Phase::SubQuestion,
            sub_question: String::new(),
            candidates: Vec::new(),
            relevant: Vec::new(),
            next: 0,
            answer: None,
            last_error: None,
            fragments: Ghost(Seq::empty()),
        };
        let a = s.go_on();
        (s, a)
    }
}

} // verus!
