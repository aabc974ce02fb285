use agentic_ai::scratchpad::{
    json_object_candidate, non_json_output_message, web_search, AgentAction, PlannerAgent,
    Scratchpad, StepOutcome, MAX_STEPS, MEMORY_WINDOW,
};

fn s(t: &str) -> String {
    t.to_string()
}

fn action(thought: &str, act: &str, input: &str) -> AgentAction {
    AgentAction { thought: s(thought), action: s(act), input: s(input) }
}

#[test]
fn new_scratchpad_is_empty() {
    let pad = Scratchpad::new(3);
    assert_eq!(pad.steps.len(), 0);
    assert_eq!(pad.max_steps, 3);
    assert_eq!(pad.render(), "(empty)");
}

#[test]
fn default_scratchpad_keeps_nothing() {
    let mut pad = Scratchpad::default();
    pad.add(s("t"), s("a"), s("o"));
    assert_eq!(pad.steps.len(), 0);
}

#[test]
fn sliding_window_keeps_most_recent_steps() {
    let mut pad = Scratchpad::new(2);
    pad.add(s("t1"), s("a1"), s("o1"));
    pad.add(s("t2"), s("a2"), s("o2"));
    pad.add(s("t3"), s("a3"), s("o3"));
    assert_eq!(pad.steps.len(), 2);
    assert_eq!(pad.steps[0].thought, "t2");
    assert_eq!(pad.steps[1].observation, "o3");
}

#[test]
fn render_numbers_steps_from_one() {
    let mut pad = Scratchpad::new(10);
    pad.add(s("think"), s("act"), s("see"));
    pad.add(s("more"), s("finish"), s("done"));
    assert_eq!(
        pad.render(),
        "1. Thought: think\n   Action: act\n   Observation: see\n2. Thought: more\n   Action: finish\n   Observation: done\n"
    );
}

#[test]
fn render_numbers_past_nine() {
    let mut pad = Scratchpad::new(20);
    for i in 0..11 {
        pad.add(format!("t{i}"), s("a"), s("o"));
    }
    let text = pad.render();
    assert!(text.contains("\n11. Thought: t10\n"));
    assert!(text.starts_with("1. Thought: t0\n"));
}

#[test]
fn build_prompt_with_empty_memory() {
    let pad = Scratchpad::new(10);
    let expected = "You are an agent planner.\nReturn ONLY JSON:\n{\n  \"thought\": string,\n  \"action\": \"web_search\" | \"finish\",\n  \"input\": string\n}\n\nGOAL:\nFind a GPU\n\nWORKING MEMORY:\n(empty)\n";
    assert_eq!(pad.build_prompt("Find a GPU"), expected);
}

#[test]
fn build_prompt_with_memory() {
    let mut pad = Scratchpad::new(10);
    pad.add(s("T"), s("A"), s("O"));
    let prompt = pad.build_prompt("G");
    assert!(prompt.ends_with("GOAL:\nG\n\nWORKING MEMORY:\nThought: T\nAction: A\nObservation: O\n\n"));
}

#[test]
fn web_search_mock_result() {
    assert_eq!(
        web_search("laptop gpu"),
        "[mock-search-result] laptop gpu: RTX 4090 has strong local value; H100 leads datacenter throughput."
    );
}

#[test]
fn candidate_extracts_object_from_mixed_text() {
    assert_eq!(
        json_object_candidate("Sure! {\"a\": {\"b\": 1}} hope it helps"),
        Some(s("{\"a\": {\"b\": 1}}"))
    );
}

#[test]
fn candidate_of_whole_object_is_itself() {
    assert_eq!(json_object_candidate("{\"x\":1}"), Some(s("{\"x\":1}")));
}

#[test]
fn candidate_absent_without_braces_in_order() {
    assert_eq!(json_object_candidate("no json here"), None);
    assert_eq!(json_object_candidate("} then {"), None);
    assert_eq!(json_object_candidate("only {"), None);
}

#[test]
fn non_json_message_keeps_first_200_chars() {
    let raw: String = std::iter::repeat('é').take(250).collect();
    let msg = non_json_output_message(&raw);
    let expected = format!("Model returned non-JSON output: {}", "é".repeat(200));
    assert_eq!(msg, expected);
    assert_eq!(non_json_output_message("oops"), "Model returned non-JSON output: oops");
}

#[test]
fn planner_finishes_with_input() {
    let mut agent = PlannerAgent::new(s("goal"));
    assert_eq!(agent.scratchpad.max_steps, MEMORY_WINDOW);
    assert!(agent.next_prompt().is_some());
    let outcome = agent.on_reply(Some(action("done", "finish", "Buy the 4090")));
    assert_eq!(outcome, StepOutcome::Finished);
    assert_eq!(outcome.label(), "finished");
    assert_eq!(agent.final_answer(), "Buy the 4090");
    assert!(agent.next_prompt().is_none());
    assert_eq!(agent.scratchpad.steps[0].action, "finish");
    assert_eq!(agent.scratchpad.steps[0].observation, "Buy the 4090");
}

#[test]
fn planner_runs_search_and_records_it() {
    let mut agent = PlannerAgent::new(s("goal"));
    agent.next_prompt();
    let outcome = agent.on_reply(Some(action("look", "web_search", "gpus")));
    assert_eq!(outcome, StepOutcome::WebSearch);
    assert_eq!(outcome.label(), "tool=web_search");
    let step = &agent.scratchpad.steps[0];
    assert_eq!(step.action, "web_search(gpus)");
    assert_eq!(step.observation, web_search("gpus"));
    assert!(agent.answer.is_none());
    let prompt = agent.next_prompt().unwrap();
    assert!(prompt.contains("Action: web_search(gpus)\n"));
}

#[test]
fn planner_unknown_action() {
    let mut agent = PlannerAgent::new(s("goal"));
    let outcome = agent.on_reply(Some(action("hm", "dance", "x")));
    assert_eq!(outcome, StepOutcome::Unknown);
    assert_eq!(outcome.label(), "tool=unknown");
    assert_eq!(agent.scratchpad.steps[0].action, "dance");
    assert_eq!(agent.scratchpad.steps[0].observation, "Unknown action. Ask model to finish.");
}

#[test]
fn planner_stops_on_unreadable_reply() {
    let mut agent = PlannerAgent::new(s("goal"));
    let outcome = agent.on_reply(None);
    assert_eq!(outcome, StepOutcome::ParseError);
    assert_eq!(outcome.label(), "parse_error");
    assert_eq!(agent.scratchpad.steps[0].thought, "Parser failure");
    assert_eq!(
        agent.scratchpad.steps[0].observation,
        "Model output was not valid JSON. Retrying with stricter prompt is recommended."
    );
    assert_eq!(agent.final_answer(), "Stopped: model did not return valid structured output.");
    assert!(agent.next_prompt().is_none());
}

#[test]
fn planner_gives_up_after_max_steps() {
    let mut agent = PlannerAgent::new(s("goal"));
    let mut calls = 0;
    while agent.next_prompt().is_some() {
        calls += 1;
        agent.on_reply(Some(action("t", "web_search", "q")));
    }
    assert_eq!(calls, MAX_STEPS);
    assert_eq!(agent.steps_taken, MAX_STEPS);
    assert_eq!(agent.final_answer(), "Stopped: reached max iterations without final answer.");
}
