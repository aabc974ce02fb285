use agentic_ai::function_calling::{
    get_tool_schemas, greater_than, guess_number, is_divisible_by, is_solved_observation,
    observation_line, AgentState as CallingState,
};
use agentic_ai::puzzle::AgentState as PuzzleState;
use agentic_ai::tools::ToolReport;

#[test]
fn puzzle_prompt_without_observations() {
    let state = PuzzleState::new("Find the secret number between 1 and 20.", 8);
    let expected = "You are a careful puzzle-solving agent.\nGoal: Find the secret number between 1 and 20.\nIteration: 0/8\nThe secret number is between 1 and 20.\nUse tools strategically. Do not guess early.\n\nObservations: none\n\nAvailable tools:\n1. greater_than(n)\n2. is_divisible_by(n)\n3. guess_number(n)\n\nRespond ONLY with JSON:\n{ \"tool\": \"name\", \"arguments\": { \"n\": number } }\n";
    assert_eq!(state.build_prompt(), expected);
}

#[test]
fn puzzle_prompt_lists_observations() {
    let mut state = PuzzleState::new("g", 8);
    assert!(state.start_iteration());
    state.record("first".to_string());
    state.record("second".to_string());
    let prompt = state.build_prompt();
    assert!(prompt.contains("Iteration: 1/8\n"));
    assert!(prompt.contains("Observations:\n1. first\n2. second\n\nAvailable tools:"));
}

#[test]
fn puzzle_iterations_stop_at_budget() {
    let mut state = PuzzleState::new("g", 2);
    assert!(state.start_iteration());
    assert!(state.start_iteration());
    assert!(!state.start_iteration());
    assert_eq!(state.iteration, 2);
}

#[test]
fn calling_prompt_without_observations() {
    let state = CallingState::new("Find the secret number between 1 and 20.", 8);
    let expected = "You are a careful puzzle-solving agent.\nGoal: Find the secret number between 1 and 20.\nIteration: 0/8\nThe secret number is an integer between 1 and 20.\nYou must discover it by using tools strategically.\nDo not guess too early.\nUse the observations you already have to narrow the possibilities.\nWhen you are confident enough, call guess_number.\n\nObservations so far: none.\n\nThink step by step.\nChoose the single best next tool call.\nIf you already have enough evidence, use guess_number.\n";
    assert_eq!(state.build_prompt(), expected);
}

#[test]
fn calling_prompt_lists_observations() {
    let mut state = CallingState::new("g", 30);
    for _ in 0..12 {
        state.start_iteration();
    }
    state.record("x".to_string());
    let prompt = state.build_prompt();
    assert!(prompt.contains("Iteration: 12/30\n"));
    assert!(prompt.contains("Observations so far:\n1. x\n\nThink step by step."));
}

#[test]
fn calling_tools_need_n() {
    assert_eq!(greater_than::execute(None).unwrap_err(), "Missing or invalid 'n'");
    assert_eq!(is_divisible_by::execute(None).unwrap_err(), "Missing or invalid 'n'");
    assert_eq!(guess_number::execute(None).unwrap_err(), "Missing or invalid 'n'");
}

#[test]
fn calling_tools_answer() {
    assert!(matches!(
        greater_than::execute(Some(3)),
        Ok(ToolReport::GreaterThan { input: 3, result: true })
    ));
    assert!(matches!(
        is_divisible_by::execute(Some(3)),
        Ok(ToolReport::DivisibleBy { input: 3, result: true })
    ));
    match is_divisible_by::execute(Some(0)) {
        Ok(ToolReport::DivisionByZero { input, error }) => {
            assert_eq!(input, 0);
            assert_eq!(error, "Division by zero is not allowed");
        }
        other => panic!("unexpected {other:?}"),
    }
    assert!(matches!(
        guess_number::execute(Some(12)),
        Ok(ToolReport::Guess { input: 12, correct: true, .. })
    ));
}

#[test]
fn calling_schemas() {
    let schemas = get_tool_schemas();
    assert_eq!(schemas.len(), 3);
    assert_eq!(schemas[0].name, "greater_than");
    assert_eq!(schemas[1].description, "Check whether the secret number is divisible by n.");
    assert_eq!(schemas[2].parameter, "n");
    assert_eq!(schemas[2].parameter_type, "NUMBER");
    assert_eq!(schemas[2].parameter_description, "Your guess for the secret number.");
}

#[test]
fn observations_and_solved_check() {
    assert_eq!(observation_line(0, "Ok(1)"), "Tool result 1: Ok(1)");
    assert!(is_solved_observation("Tool result 1: {\"correct\":true}"));
    assert!(!is_solved_observation("Tool result 1: {\"correct\":false}"));
    assert!(!is_solved_observation(""));
}
