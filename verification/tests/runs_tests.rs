use agentic_ai::anatomy::{Action, Agent, AgentRun, ToolKind, ToolRegistry, MAX_STEPS};
use agentic_ai::file_count::{count_visible_files, get_count_files_schema, DirEntryInfo};
use agentic_ai::function_calling::{get_tool_schemas, AgentState as CallingState, IterationEnd};
use agentic_ai::graph::{GraphRun, Route, MAX_ITERATIONS};
use agentic_ai::planner::reply_body;
use agentic_ai::puzzle::{take_reply, AgentState as PuzzleState, Turn};
use agentic_ai::tools::ToolReport;

fn act(t: &str, name: Option<&str>, query: Option<&str>, answer: Option<&str>) -> Action {
    Action {
        action_type: t.to_string(),
        name: name.map(|s| s.to_string()),
        query: query.map(|s| s.to_string()),
        answer: answer.map(|s| s.to_string()),
    }
}

fn agent() -> Agent {
    let mut reg = ToolRegistry::new();
    reg.insert("web_search".to_string(), ToolKind::WebSearch);
    Agent::new(reg)
}

#[test]
fn agent_run_sends_goal_then_observations() {
    let mut run = AgentRun::new(agent(), "Research MCP");
    let first = run.next_request().unwrap();
    assert_eq!(first.len(), 2);
    assert_eq!(first[1].content, "Research MCP");
    assert!(!run.on_reply("r".to_string(), act("tool", Some("web_search"), Some("MCP"), None)));
    let second = run.next_request().unwrap();
    assert_eq!(second.len(), 4);
    assert_eq!(second[3].content, "[mock] top search results for: MCP");
    assert!(run.on_reply("r2".to_string(), act("final", None, None, Some("done"))));
    assert!(run.next_request().is_none());
    assert_eq!(run.final_answer(), "done");
    assert_eq!(run.steps_taken, 2);
}

#[test]
fn agent_run_stops_after_max_steps() {
    let mut run = AgentRun::new(agent(), "g");
    let mut turns = 0;
    while run.next_request().is_some() {
        turns += 1;
        run.on_reply("r".to_string(), act("think", None, None, None));
    }
    assert_eq!(turns, MAX_STEPS);
    assert_eq!(run.final_answer(), "Stopped: reached max iterations without final answer.");
}

#[test]
fn graph_run_tools_then_answer() {
    let mut run = GraphRun::new("Compare".to_string());
    let p = run.next_round().unwrap();
    assert!(p.starts_with("Goal: Compare\n\nHistory:\n"));
    assert_eq!(run.after_reasoning(Ok("Use Tool".to_string())), Route::Tools);
    assert!(!run.finished);
    assert_eq!(run.state.messages.len(), 2);
    run.next_round().unwrap();
    assert_eq!(run.after_reasoning(Ok("final_answer".to_string())), Route::FinalAnswer);
    assert!(run.finished);
    assert!(run.next_round().is_none());
    run.on_final_answer(Some("H100 wins".to_string()));
    assert_eq!(run.state.report_text(), "H100 wins");
    assert_eq!(run.rounds, 2);
}

#[test]
fn graph_run_caps_rounds() {
    let mut run = GraphRun::new("g".to_string());
    let mut rounds = 0;
    while run.next_round().is_some() {
        rounds += 1;
        assert_eq!(run.after_reasoning(Ok("tool".to_string())), Route::Tools);
    }
    assert_eq!(rounds, MAX_ITERATIONS);
    assert_eq!(run.state.report_text(), "No report generated.");
}

#[test]
fn graph_run_failed_reasoning_goes_to_answer() {
    let mut run = GraphRun::new("g".to_string());
    run.next_round();
    assert_eq!(run.after_reasoning(Err("offline".to_string())), Route::FinalAnswer);
    assert!(run.state.messages.is_empty());
    run.on_final_answer(None);
    assert_eq!(run.state.report_text(), "No report generated.");
}

#[test]
fn puzzle_turns() {
    assert!(matches!(take_reply(None, Some(3)), Turn::NoToolCall));
    assert!(matches!(
        take_reply(Some("guess_number"), Some(12)),
        Turn::Solved(ToolReport::Guess { input: 12, correct: true, .. })
    ));
    assert!(matches!(
        take_reply(Some("guess_number"), Some(3)),
        Turn::Continue(ToolReport::Guess { correct: false, .. })
    ));
    assert!(matches!(take_reply(Some("x"), None), Turn::Continue(ToolReport::UnknownTool)));
    let mut state = PuzzleState::new("g", 8);
    assert_eq!(state.record_result("{\"a\":1}".to_string()), "Tool result: {\"a\":1}");
    assert_eq!(state.observations, vec!["{\"a\":1}".to_string()]);
}

#[test]
fn calling_round_records_until_solved() {
    let mut state = CallingState::new("g", 8);
    assert!(state.start_iteration());
    assert_eq!(state.end_iteration(), IterationEnd::NoToolCall);
    let results = vec![
        Some("Ok(a)".to_string()),
        None,
        Some("Ok({\"correct\":true})".to_string()),
        Some("Ok(after)".to_string()),
    ];
    let solved = state.record_results(&results);
    assert_eq!(solved, Some("Tool result 3: Ok({\"correct\":true})".to_string()));
    assert_eq!(
        state.observations,
        vec!["Tool result 1: Ok(a)".to_string(), "Tool result 3: Ok({\"correct\":true})".to_string()]
    );
    assert_eq!(state.end_iteration(), IterationEnd::NextIteration);
    assert!(state.start_iteration());
    assert!(!state.made_tool_call);
}

#[test]
fn calling_round_without_solution() {
    let mut state = CallingState::new("g", 8);
    assert_eq!(state.record_results(&vec![None, Some("x".to_string())]), None);
    assert_eq!(state.observations, vec!["Tool result 2: x".to_string()]);
    assert!(state.made_tool_call);
}

#[test]
fn schemas_are_objects_with_required_parameter() {
    for schema in get_tool_schemas() {
        assert_eq!(schema.parameters_type, "OBJECT");
        assert_eq!(schema.required, vec!["n".to_string()]);
    }
    let count = get_count_files_schema();
    assert_eq!(count.parameters_type, "OBJECT");
    assert_eq!(count.required, vec!["directory".to_string()]);
}

#[test]
fn one_more_entry_changes_count_by_what_it_is() {
    let e = |n: &str, f: bool| Some(DirEntryInfo { name: n.to_string(), is_file: f });
    let before = vec![e("a", true), e("dir", false)];
    assert_eq!(count_visible_files(&before), 1);
    let with_file = vec![e("dir", false), e("new.txt", true), e("a", true)];
    assert_eq!(count_visible_files(&with_file), 2);
    let with_hidden = vec![e(".hidden", true), e("dir", false), e("a", true)];
    assert_eq!(count_visible_files(&with_hidden), 1);
    let with_dir = vec![e("a", true), e("sub", false), e("dir", false)];
    assert_eq!(count_visible_files(&with_dir), 1);
}

#[test]
fn reply_body_trims_white_space() {
    assert_eq!(reply_body("  {\"steps\": []}\n\t"), "{\"steps\": []}");
    assert_eq!(reply_body("\u{2003}x\u{2003}"), "x");
}

#[test]
fn white_space_matches_std_on_every_char() {
    for u in 0u32..=0x10FFFF {
        if let Some(c) = char::from_u32(u) {
            assert_eq!(agentic_ai::planner::is_white_space_char(c), c.is_whitespace(), "U+{u:04X}");
        }
    }
}

#[test]
fn reply_body_agrees_with_str_trim() {
    let samples = [
        "",
        "   ",
        "\u{3000}\u{85}abc def\u{2029}\r\n",
        "no-space",
        "\u{200B}zero-width is not white space\u{200B}",
        " \t{\"steps\":[1]} \u{a0}",
    ];
    for s in samples {
        assert_eq!(reply_body(s), s.trim(), "{s:?}");
    }
}
