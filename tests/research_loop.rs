use deep_research::prompts::{
    check_if_answer_is_complete_prompt, decide_search_tool_prompt,
    evaluate_completeness_and_answer_prompt, first_sub_question_prompt,
    decompose_question_prompt_iterative, summarize_text_prompt,
};
use deep_research::reasoning::Schema;
use deep_research::session::{Action, Event, Phase, ResearchSession};

fn reply(s: &str) -> Event {
    Event::Reply(s.to_string())
}

fn failed() -> Event {
    Event::Failed("unreachable".to_string())
}

fn ask(a: &Action) -> Option<(String, Schema)> {
    match a {
        Action::Reason { prompt, schema } => Some((prompt.clone(), *schema)),
        _ => None,
    }
}

fn schema(a: &Action) -> Option<Schema> {
    ask(a).map(|p| p.1)
}

#[test]
fn first_action_asks_for_first_sub_question() {
    let (s, a) = ResearchSession::new("Q".to_string(), "m".to_string(), 3);
    assert_eq!(s.iteration, 1);
    assert_eq!(s.phase, Phase::SubQuestion);
    assert_eq!(ask(&a), Some((first_sub_question_prompt("Q"), Schema::SubQuestion)));
}

#[test]
fn no_rounds_allowed_goes_straight_to_the_answer() {
    let (s, a) = ResearchSession::new("Q".to_string(), "m".to_string(), 0);
    assert_eq!(s.iteration, 0);
    assert_eq!(ask(&a), Some((evaluate_completeness_and_answer_prompt("Q", ""), Schema::Answer)));
}

#[test]
fn first_sub_question_failure_finalizes_on_empty_summary() {
    let (mut s, _) = ResearchSession::new("Q".to_string(), "m".to_string(), 3);
    let a = s.step(failed());
    assert_eq!(s.iteration, 1);
    assert_eq!(ask(&a), Some((evaluate_completeness_and_answer_prompt("Q", ""), Schema::Answer)));
    let a = s.step(reply("{\"answer\": \"unknown\"}"));
    assert!(matches!(a, Action::Finished));
    assert_eq!(s.answer, Some("unknown".to_string()));
    assert!(matches!(s.step(reply("x")), Action::Finished));
}

#[test]
fn malformed_sub_question_also_finalizes() {
    let (mut s, _) = ResearchSession::new("Q".to_string(), "m".to_string(), 3);
    let a = s.step(reply("{\"nope\": 1}"));
    assert_eq!(schema(&a), Some(Schema::Answer));
}

#[test]
fn failed_final_answer_gives_none() {
    let (mut s, _) = ResearchSession::new("Q".to_string(), "m".to_string(), 0);
    let a = s.step(reply("not json"));
    assert!(matches!(a, Action::Finished));
    assert_eq!(s.answer, None);
    assert_eq!(s.phase, Phase::Done);
}

/// Runs one round from the sub-question request to the stop request, with
/// one encyclopedia title, one relevant result and the given summary reply.
fn round(s: &mut ResearchSession, summary_reply: &str) -> Action {
    let a = s.step(reply("{\"question\": \"sq\"}"));
    assert_eq!(ask(&a), Some((decide_search_tool_prompt("sq"), Schema::Tool)));
    let a = s.step(reply("{\"tool\": \"Wikipedia\"}"));
    match &a {
        Action::SearchEncyclopedia { query } => assert_eq!(query, "sq"),
        _ => panic!("expected an encyclopedia search"),
    }
    let a = s.step(Event::Titles(vec!["World War II".to_string()]));
    assert_eq!(schema(&a), Some(Schema::Results));
    assert!(ask(&a).unwrap().0.contains("Title: World War II URL: https://en.wikipedia.org/wiki/World_War_II"));
    let a = s.step(reply(
        "{\"results\": [{\"title\": \"World War II\", \"url\": \"https://en.wikipedia.org/wiki/World_War_II\"}]}",
    ));
    match &a {
        Action::FetchPage { url } => assert_eq!(url, "https://en.wikipedia.org/wiki/World_War_II"),
        _ => panic!("expected a fetch"),
    }
    let a = s.step(reply("<html><body><article>war text</article></body></html>"));
    assert_eq!(ask(&a), Some((summarize_text_prompt("sq", "war text\n"), Schema::Summary)));
    s.step(reply(summary_reply))
}

#[test]
fn one_full_round_then_answer() {
    let (mut s, _) = ResearchSession::new("Q".to_string(), "m".to_string(), 1);
    let a = round(&mut s, "{\"summary\": \"S1\"}");
    assert_eq!(s.global_summary, "S1\n\n");
    assert_eq!(ask(&a), Some((check_if_answer_is_complete_prompt("S1\n\n", "Q"), Schema::Decision)));
    let a = s.step(reply("{\"decision\": \"no\"}"));
    assert_eq!(ask(&a), Some((evaluate_completeness_and_answer_prompt("Q", "S1\n\n"), Schema::Answer)));
    let a = s.step(reply("{\"answer\": \"A\"}"));
    assert!(matches!(a, Action::Finished));
    assert_eq!(s.answer, Some("A".to_string()));
}

#[test]
fn summary_accumulates_across_rounds_and_skips_failures() {
    let (mut s, _) = ResearchSession::new("Q".to_string(), "m".to_string(), 3);
    round(&mut s, "{\"summary\": \"S1\"}");
    let a = s.step(reply("{\"decision\": \"no\"}"));
    assert_eq!(s.iteration, 2);
    assert_eq!(ask(&a), Some((decompose_question_prompt_iterative("Q", "S1\n\n"), Schema::SubQuestion)));
    round(&mut s, "garbage");
    assert_eq!(s.global_summary, "S1\n\n");
    s.step(reply("{\"decision\": \"no\"}"));
    round(&mut s, "{\"summary\": \"S3\"}");
    assert_eq!(s.global_summary, "S1\n\nS3\n\n");
}

#[test]
fn yes_stops_before_the_bound() {
    let (mut s, _) = ResearchSession::new("Q".to_string(), "m".to_string(), 5);
    round(&mut s, "{\"summary\": \"S1\"}");
    let a = s.step(reply("{\"decision\": \"Yes\"}"));
    assert_eq!(s.iteration, 1);
    assert_eq!(schema(&a), Some(Schema::Answer));
}

#[test]
fn malformed_stop_decision_continues_like_no() {
    let (mut s, _) = ResearchSession::new("Q".to_string(), "m".to_string(), 2);
    round(&mut s, "{\"summary\": \"S1\"}");
    let a = s.step(reply("yes"));
    assert_eq!(s.iteration, 2);
    assert_eq!(schema(&a), Some(Schema::SubQuestion));
    let (mut t, _) = ResearchSession::new("Q".to_string(), "m".to_string(), 2);
    round(&mut t, "{\"summary\": \"S1\"}");
    let b = t.step(failed());
    assert_eq!(t.iteration, 2);
    assert_eq!(schema(&b), Some(Schema::SubQuestion));
}

#[test]
fn rounds_never_exceed_the_bound() {
    for n in 1u8..5 {
        let (mut s, mut a) = ResearchSession::new("Q".to_string(), "m".to_string(), n);
        let mut rounds = 0u32;
        for _ in 0..100 {
            match schema(&a) {
                Some(Schema::SubQuestion) => {
                    rounds += 1;
                    a = s.step(reply("{\"question\": \"sq\"}"));
                }
                Some(Schema::Tool) => a = s.step(failed()),
                Some(Schema::Decision) => a = s.step(reply("{\"decision\": \"no\"}")),
                Some(Schema::Answer) => a = s.step(reply("{\"answer\": \"A\"}")),
                _ => break,
            }
        }
        assert!(matches!(a, Action::Finished));
        assert_eq!(rounds, n as u32);
        assert!(s.iteration <= n);
    }
}

#[test]
fn blocked_results_never_reach_the_filter() {
    let (mut s, _) = ResearchSession::new("Q".to_string(), "m".to_string(), 1);
    s.step(reply("{\"question\": \"sq\"}"));
    let a = s.step(reply("{\"tool\": \"duckduckgo\"}"));
    assert!(matches!(a, Action::SearchWeb { .. }));
    let page = "<html><body><a class=\"result__a\" href=\"https://www.youtube.com/v\">V</a>\
                <a class=\"result__a\" href=\"//example.com/e\">E</a>\
                <a class=\"result__a\" href=\"https://reddit.com/r\">R</a></body></html>";
    let a = s.step(reply(page));
    assert_eq!(s.candidates.len(), 1);
    assert_eq!(s.candidates[0].url, "https://example.com/e");
    let prompt = ask(&a).unwrap().0;
    assert!(!prompt.contains("youtube.com"));
    assert!(!prompt.contains("reddit.com"));
}

#[test]
fn empty_search_skips_the_filter_call() {
    let (mut s, _) = ResearchSession::new("Q".to_string(), "m".to_string(), 1);
    s.step(reply("{\"question\": \"sq\"}"));
    s.step(reply("{\"tool\": \"wikipedia\"}"));
    let a = s.step(Event::Titles(Vec::new()));
    assert_eq!(schema(&a), Some(Schema::Decision));
}

#[test]
fn only_blocked_results_skip_the_filter_call() {
    let (mut s, _) = ResearchSession::new("Q".to_string(), "m".to_string(), 1);
    s.step(reply("{\"question\": \"sq\"}"));
    s.step(reply("{\"tool\": \"duckduckgo\"}"));
    let page = "<a class=\"result__a\" href=\"https://youtube.com/x\">V</a>";
    let a = s.step(reply(page));
    assert_eq!(schema(&a), Some(Schema::Decision));
}

#[test]
fn failed_search_goes_to_the_stop_check() {
    let (mut s, _) = ResearchSession::new("Q".to_string(), "m".to_string(), 2);
    s.step(reply("{\"question\": \"sq\"}"));
    s.step(reply("{\"tool\": \"wikipedia\"}"));
    let a = s.step(failed());
    assert_eq!(ask(&a), Some((check_if_answer_is_complete_prompt("", "Q"), Schema::Decision)));
    assert_eq!(s.iteration, 1);
}

#[test]
fn failed_fetch_skips_only_that_result() {
    let (mut s, _) = ResearchSession::new("Q".to_string(), "m".to_string(), 1);
    s.step(reply("{\"question\": \"sq\"}"));
    s.step(reply("{\"tool\": \"wikipedia\"}"));
    s.step(Event::Titles(vec!["A".to_string(), "B".to_string()]));
    let a = s.step(reply(
        "{\"results\": [{\"title\": \"A\", \"url\": \"ua\"}, {\"title\": \"B\", \"url\": \"ub\"}]}",
    ));
    assert!(matches!(&a, Action::FetchPage { url } if url == "ua"));
    let a = s.step(failed());
    assert!(matches!(&a, Action::FetchPage { url } if url == "ub"));
    s.step(reply("<body>b</body>"));
    let a = s.step(reply("{\"summary\": \"SB\"}"));
    assert_eq!(s.global_summary, "SB\n\n");
    assert_eq!(schema(&a), Some(Schema::Decision));
}
