use agentic_ai::anatomy::{Action, Agent, ToolKind, ToolRegistry, web_search as anatomy_search};
use agentic_ai::chat::{ChatMessage, Role};
use agentic_ai::file_count::{
    count_files, count_visible_files, get_count_files_schema, resolve_directory,
    tool_result_message, CountFiles, CountReport, DirEntryInfo, DirListing,
};
use agentic_ai::graph::{decide_next_action, AgentState as GraphState, Route, MAX_ITERATIONS};
use agentic_ai::planner::{plan_parse_error, plan_prompt, Plan, Step};
use agentic_ai::text::{contains_str, join, push_decimal, to_lowercase};

fn entry(name: &str, is_file: bool) -> Option<DirEntryInfo> {
    Some(DirEntryInfo { name: name.to_string(), is_file })
}

#[test]
fn counts_only_visible_regular_files() {
    let entries = vec![entry("a.txt", true), entry(".env", true), entry("src", false), None, entry("b", true)];
    assert_eq!(count_visible_files(&entries), 2);
    assert_eq!(count_visible_files(&vec![]), 0);
}

#[test]
fn count_files_reports() {
    match CountFiles::execute(".", DirListing::Entries(vec![entry("x", true)])) {
        CountReport::Count { directory, count } => {
            assert_eq!(directory, ".");
            assert_eq!(count, 1);
        }
        other => panic!("unexpected {other:?}"),
    }
    match CountFiles::execute("nope", DirListing::Missing) {
        CountReport::Error(e) => assert_eq!(e, "directory 'nope' does not exist"),
        other => panic!("unexpected {other:?}"),
    }
    match count_files::execute("d", DirListing::Unreadable("denied".to_string())) {
        Ok(CountReport::Error(e)) => assert_eq!(e, "failed to read directory: denied"),
        other => panic!("unexpected {other:?}"),
    }
}

#[test]
fn directory_defaults_to_current() {
    assert_eq!(resolve_directory(None), ".");
    assert_eq!(resolve_directory(Some("/tmp")), "/tmp");
}

#[test]
fn count_schema_and_feedback() {
    let schema = get_count_files_schema();
    assert_eq!(schema.name, "count_files");
    assert_eq!(schema.parameter, "directory");
    assert_eq!(schema.parameter_type, "STRING");
    assert_eq!(tool_result_message("{\"count\":3}"), "Tool result: {\"count\":3}. Now complete the task.");
}

#[test]
fn graph_reasoning_routes() {
    let mut state = GraphState::new("Compare GPUs".to_string());
    assert_eq!(
        state.reasoning_prompt(),
        "Goal: Compare GPUs\n\nHistory:\n\n\nDecide next action. Reply with 'use tool' to call a tool, or 'final_answer' to finish."
    );
    state.on_reasoning(Ok("I will USE TOOL now".to_string()));
    assert_eq!(state.next_action, "tools");
    assert_eq!(state.route(), Route::Tools);
    state.tool_node();
    assert_eq!(
        state.messages,
        vec![
            "Assistant: I will USE TOOL now".to_string(),
            "Tool result: H100 outperforms RTX 4090 in training throughput by 2-3x.".to_string()
        ]
    );
    state.on_reasoning(Ok("final_answer".to_string()));
    assert_eq!(state.route(), Route::FinalAnswer);
    assert_eq!(
        state.final_prompt(),
        "Summarize a clear final answer based on:\nAssistant: I will USE TOOL now\nTool result: H100 outperforms RTX 4090 in training throughput by 2-3x.\nAssistant: final_answer"
    );
    assert_eq!(state.report_text(), "No report generated.");
    state.on_final_answer(None);
    assert_eq!(state.report_text(), "No report generated.");
    state.on_final_answer(Some("H100".to_string()));
    assert_eq!(state.report_text(), "H100");
    assert_eq!(MAX_ITERATIONS, 10);
}

#[test]
fn graph_failed_call_goes_to_answer() {
    let mut state = GraphState::default();
    state.on_reasoning(Err("down".to_string()));
    assert_eq!(state.next_action, "final_answer");
    assert!(state.messages.is_empty());
    assert_eq!(state.route(), Route::FinalAnswer);
    state.next_action = "other".to_string();
    assert_eq!(state.route(), Route::Stop);
}

#[test]
fn next_action_from_lowercase() {
    assert_eq!(decide_next_action("use tool"), "tools");
    assert_eq!(decide_next_action("USE TOOL"), "final_answer");
    assert_eq!(to_lowercase("USE TOOL"), "use tool");
}

#[test]
fn registry_behaves_as_map() {
    let mut reg = ToolRegistry::new();
    assert_eq!(reg.get("web_search"), None);
    reg.insert("web_search".to_string(), ToolKind::WebSearch);
    assert_eq!(reg.get("web_search"), Some(ToolKind::WebSearch));
    reg.insert("web_search".to_string(), ToolKind::WebSearch);
    assert_eq!(reg.tools.len(), 1);
    assert_eq!(reg.get("other"), None);
}

fn act(t: &str, name: Option<&str>, query: Option<&str>, answer: Option<&str>) -> Action {
    Action {
        action_type: t.to_string(),
        name: name.map(|s| s.to_string()),
        query: query.map(|s| s.to_string()),
        answer: answer.map(|s| s.to_string()),
    }
}

fn agent() -> Agent {
    let mut reg = ToolRegistry::new();
    reg.insert("web_search".to_string(), ToolKind::WebSearch);
    Agent::new(reg)
}

#[test]
fn anatomy_final_reply() {
    let mut a = agent();
    assert_eq!(a.on_reply("raw".to_string(), act("final", None, None, Some("42"))), ("42".to_string(), true));
    assert_eq!(a.on_reply("raw".to_string(), act("final", None, None, None)), ("No answer provided.".to_string(), true));
    assert_eq!(a.history.len(), 2);
    assert_eq!(a.history[0].role, Role::Assistant);
}

#[test]
fn anatomy_tool_reply() {
    let mut a = agent();
    let (obs, done) = a.on_reply("r".to_string(), act("tool", Some("web_search"), Some("MCP"), None));
    assert!(!done);
    assert_eq!(obs, "[mock] top search results for: MCP");
    assert_eq!(a.history.len(), 2);
    assert_eq!(a.history[1].role, Role::User);
    assert_eq!(a.history[1].content, "Tool result: [mock] top search results for: MCP");
    let (obs, _) = a.on_reply("r".to_string(), act("tool", Some("web_search"), None, None));
    assert_eq!(obs, "[mock] top search results for: unknown query");
    let (obs, _) = a.on_reply("r".to_string(), act("tool", Some("calc"), None, None));
    assert_eq!(obs, "Tool 'calc' not available.");
    let (obs, _) = a.on_reply("r".to_string(), act("tool", None, None, None));
    assert_eq!(obs, "Tool '' not available.");
}

#[test]
fn anatomy_unknown_reply() {
    let mut a = agent();
    let (obs, done) = a.on_reply("r".to_string(), act("think", None, None, None));
    assert_eq!(obs, "Unknown action type: think");
    assert!(!done);
    assert_eq!(a.history.len(), 1);
}

#[test]
fn anatomy_request_messages() {
    let mut a = agent();
    a.on_reply("r".to_string(), act("think", None, None, None));
    let msgs = a.request_messages("obs".to_string());
    assert_eq!(msgs.len(), 3);
    assert_eq!(msgs[0].role, Role::System);
    assert_eq!(
        msgs[0].content,
        "Return ONLY JSON: {\"type\":\"tool|final\",\"name\":string|null,\"args\":object,\"answer\":string|null}"
    );
    assert_eq!(msgs[1].content, "r");
    assert_eq!(msgs[2].role, Role::User);
    assert_eq!(msgs[2].content, "obs");
    assert_eq!(anatomy_search(Some("q")).unwrap(), "[mock] top search results for: q");
}

#[test]
fn chat_constructors() {
    let m = ChatMessage::user("hi".to_string());
    assert_eq!(m.role, Role::User);
    let d = m.duplicate();
    assert_eq!(d.content, "hi");
    assert_eq!(ChatMessage::system("s".to_string()).role, Role::System);
    assert_eq!(ChatMessage::assistant("a".to_string()).role, Role::Assistant);
}

#[test]
fn plan_prompt_and_lines() {
    let p = plan_prompt("Pick a GPU");
    assert!(p.starts_with("You are an expert agent planner.\nBreak the GOAL"));
    assert!(p.contains("\n\nGoal: Pick a GPU\n\nReturn **ONLY** valid JSON"));
    assert!(p.ends_with("  ]\n}"));
    let plan = Plan {
        steps: vec![
            Step { number: 1, description: "Survey".to_string() },
            Step { number: 10, description: "Decide".to_string() },
        ],
    };
    assert_eq!(plan.lines(), vec!["1. Survey".to_string(), "10. Decide".to_string()]);
    assert_eq!(plan_parse_error("bad", "raw"), "Failed to parse plan JSON: bad. Raw output: raw");
}

#[test]
fn text_helpers() {
    let mut s = String::new();
    push_decimal(&mut s, 0);
    s.push(' ');
    push_decimal(&mut s, 1234567890);
    assert_eq!(s, "0 1234567890");
    assert!(contains_str("abc", ""));
    assert!(contains_str("hello world", "o w"));
    assert!(!contains_str("ab", "abc"));
    assert_eq!(join(&vec!["a".to_string(), "b".to_string()], ", "), "a, b");
    assert_eq!(join(&vec![], ", "), "");
}
