//! The hidden-number agent driven through a model with native function
//! calling: the tools as the model calls them, their declarations, and the
//! agent's state and prompt.

use vstd::prelude::*;
use crate::text::{
    contains_seq, contains_str, decimal, numbered_lines, push_decimal, push_numbered_lines,
    push_str, string_from, views,
};
use crate::tools::{guess_message, guess_number as guess, is_divisible_by_with, divides_secret, ToolReport, SECRET_NUMBER};

verus! {

/// The declaration of a tool that takes one parameter: an object whose
/// only property is that parameter, which is required.
#[derive(Debug)]
pub struct ToolSchema {
    pub name: String,
    pub description: String,
    /// The type of the parameters as a whole (`OBJECT`).
    pub parameters_type: String,
    pub parameter: String,
    pub parameter_type: String,
    pub parameter_description: String,
    /// The parameters that must be given.
    pub required: Vec<String>,
}

impl View for ToolSchema {
    type V = (Seq<char>, Seq<char>, Seq<char>, Seq<char>, Seq<char>, Seq<char>, Seq<Seq<char>>);

    open spec fn view(&self) -> (Seq<char>, Seq<char>, Seq<char>, Seq<char>, Seq<char>, Seq<char>, Seq<Seq<char>>) {
        (
            self.name@,
            self.description@,
            self.parameters_type@,
            self.parameter@,
            self.parameter_type@,
            self.parameter_description@,
            views(self.required@),
        )
    }
}

/// The declaration of a tool with one required parameter.
pub fn tool_schema(
    name: &str,
    description: &str,
    parameter: &str,
    parameter_type: &str,
    parameter_description: &str,
) -> (s: ToolSchema)
    ensures
        s@ == (
            name@,
            description@,
            "OBJECT"@,
            parameter@,
            parameter_type@,
            parameter_description@,
            seq![parameter@],
        ),
{
    let mut required: Vec<String> = Vec::new();
    required.push(string_from(parameter));
    let s = ToolSchema {
        name: string_from(name),
        description: string_from(description),
        parameters_type: string_from("OBJECT"),
        parameter: string_from(parameter),
        parameter_type: string_from(parameter_type),
        parameter_description: string_from(parameter_description),
        required,
    };
    assert(views(s.required@) =~= seq![parameter@]);
    s
}

/// The declarations of the three game tools, in order.
pub open spec fn game_schemas() -> Seq<(Seq<char>, Seq<char>, Seq<char>, Seq<char>, Seq<char>, Seq<char>, Seq<Seq<char>>)> {
    seq![
        (
            "greater_than"@,
            "Check whether the secret number is greater than n."@,
            "OBJECT"@,
            "n"@,
            "NUMBER"@,
            "A number to compare against the secret number."@,
            seq!["n"@],
        ),
        (
            "is_divisible_by"@,
            "Check whether the secret number is divisible by n."@,
            "OBJECT"@,
            "n"@,
            "NUMBER"@,
            "A divisor to test against the secret number."@,
            seq!["n"@],
        ),
        (
            "guess_number"@,
            "Make a final guess for the secret number."@,
            "OBJECT"@,
            "n"@,
            "NUMBER"@,
            "Your guess for the secret number."@,
            seq!["n"@],
        ),
    ]
}

/// The declarations of the three game tools.
pub fn get_tool_schemas() -> (v: Vec<ToolSchema>)
    ensures
        v@.map_values(|s: ToolSchema| s@) == game_schemas(),
{
    let mut v: Vec<ToolSchema> = Vec::new();
    v.push(tool_schema(
        "greater_than",
        "Check whether the secret number is greater than n.",
        "n",
        "NUMBER",
        "A number to compare against the secret number.",
    ));
    v.push(tool_schema(
        "is_divisible_by",
        "Check whether the secret number is divisible by n.",
        "n",
        "NUMBER",
        "A divisor to test against the secret number.",
    ));
    v.push(tool_schema(
        "guess_number",
        "Make a final guess for the secret number.",
        "n",
        "NUMBER",
        "Your guess for the secret number.",
    ));
    assert(v@.map_values(|s: ToolSchema| s@) =~= game_schemas());
    v
}

/// The error for a call whose `n` is missing or not an integer.
pub open spec fn missing_n() -> Seq<char> {
    "Missing or invalid 'n'"@
}

/// The `greater_than` tool.
#[allow(non_camel_case_types)]
pub struct greater_than;

/// The `is_divisible_by` tool.
#[allow(non_camel_case_types)]
pub struct is_divisible_by;

/// The `guess_number` tool.
#[allow(non_camel_case_types)]
pub struct guess_number;

impl greater_than {
    /// Whether the secret is greater than `n` (cut to 32 bits); `n` is the
    /// integer the call carried, if it carried one.
    pub fn execute(n: Option<i64>) -> (r: Result<ToolReport, String>)
        ensures
            n is None ==> (r matches Err(e) && e@ == missing_n()),
            n matches Some(v) ==> r == Ok::<ToolReport, String>(
                ToolReport::GreaterThan { input: v as i32, result: SECRET_NUMBER > v as i32 },
            ),
    {
        match n {
            None => Err(string_from("Missing or invalid 'n'")),
            Some(v) => {
                let n: i32 = #[verifier::truncate] (v as i32);
                Ok(crate::tools::greater_than(n))
            },
        }
    }
}

impl is_divisible_by {
    /// Whether the secret is divisible by `n` (cut to 32 bits); a zero
    /// divisor reports `Division by zero is not allowed`.
    pub fn execute(n: Option<i64>) -> (r: Result<ToolReport, String>)
        ensures
            n is None ==> (r matches Err(e) && e@ == missing_n()),
            n matches Some(v) ==> (v as i32 == 0 ==> (r matches Ok(
                ToolReport::DivisionByZero { input, error },
            ) && input == 0 && error@ == "Division by zero is not allowed"@)),
            n matches Some(v) ==> (v as i32 != 0 ==> r == Ok::<ToolReport, String>(
                ToolReport::DivisibleBy { input: v as i32, result: divides_secret(v as i32 as int) },
            )),
    {
        match n {
            None => Err(string_from("Missing or invalid 'n'")),
            Some(v) => {
                let n: i32 = #[verifier::truncate] (v as i32);
                Ok(is_divisible_by_with(n, "Division by zero is not allowed"))
            },
        }
    }
}

impl guess_number {
    /// A guess of `n` (cut to 32 bits) at the secret.
    pub fn execute(n: Option<i64>) -> (r: Result<ToolReport, String>)
        ensures
            n is None ==> (r matches Err(e) && e@ == missing_n()),
            n matches Some(v) ==> (r matches Ok(ToolReport::Guess { input, correct, message })
                && input == v as i32 && correct == (SECRET_NUMBER == v as i32)
                && message@ == guess_message(SECRET_NUMBER == v as i32)),
    {
        match n {
            None => Err(string_from("Missing or invalid 'n'")),
            Some(v) => {
                let n: i32 = #[verifier::truncate] (v as i32);
                Ok(guess(n))
            },
        }
    }
}

/// Goal, observations gathered so far and the iteration budget.
#[derive(Debug)]
pub struct AgentState {
    pub goal: String,
    pub observations: Vec<String>,
    pub iteration: usize,
    pub max_iterations: usize,
    /// Whether the model called a tool during the current iteration.
    pub made_tool_call: bool,
}

/// The observations section of the prompt.
pub open spec fn observations_section(obs: Seq<Seq<char>>) -> Seq<char> {
    if obs.len() == 0 {
        "Observations so far: none.\n"@
    } else {
        "Observations so far:\n"@ + numbered_lines(obs)
    }
}

/// The prompt of one iteration.
pub open spec fn game_prompt(
    goal: Seq<char>,
    iteration: nat,
    max_iterations: nat,
    obs: Seq<Seq<char>>,
) -> Seq<char> {
    "You are a careful puzzle-solving agent.\nGoal: "@ + goal + "\nIteration: "@ + decimal(iteration)
        + "/"@ + decimal(max_iterations)
        + "\nThe secret number is an integer between 1 and 20.\nYou must discover it by using tools strategically.\nDo not guess too early.\nUse the observations you already have to narrow the possibilities.\nWhen you are confident enough, call guess_number.\n\n"@
        + observations_section(obs)
        + "\nThink step by step.\nChoose the single best next tool call.\nIf you already have enough evidence, use guess_number.\n"@
}

impl AgentState {
    /// A fresh state for `goal` with a budget of `max_iterations`.
    pub fn new(goal: &str, max_iterations: usize) -> (s: Self)
        ensures
            s.goal@ == goal@,
            s.observations@.len() == 0,
            s.iteration == 0,
            s.max_iterations == max_iterations,
            !s.made_tool_call,
    {
        Self {
            goal: string_from(goal),
            observations: Vec::new(),
            iteration: 0,
            max_iterations,
            made_tool_call: false,
        }
    }

    /// The prompt for the current iteration.
    pub fn build_prompt(&self) -> (p: String)
        ensures
            p@ == game_prompt(
                self.goal@,
                self.iteration as nat,
                self.max_iterations as nat,
                views(self.observations@),
            ),
    {
        let mut p = string_from("You are a careful puzzle-solving agent.\nGoal: ");
        push_str(&mut p, self.goal.as_str());
        push_str(&mut p, "\nIteration: ");
        push_decimal(&mut p, self.iteration);
        push_str(&mut p, "/");
        push_decimal(&mut p, self.max_iterations);
        push_str(
            &mut p,
            "\nThe secret number is an integer between 1 and 20.\nYou must discover it by using tools strategically.\nDo not guess too early.\nUse the observations you already have to narrow the possibilities.\nWhen you are confident enough, call guess_number.\n\n",
        );
        if self.observations.len() == 0 {
            push_str(&mut p, "Observations so far: none.\n");
        } else {
            push_str(&mut p, "Observations so far:\n");
            push_numbered_lines(&mut p, &self.observations);
        }
        push_str(
            &mut p,
            "\nThink step by step.\nChoose the single best next tool call.\nIf you already have enough evidence, use guess_number.\n",
        );
        assert(p@ =~= game_prompt(
            self.goal@,
            self.iteration as nat,
            self.max_iterations as nat,
            views(self.observations@),
        ));
        p
    }

    /// Starts the next iteration, unless the budget is spent.
    pub fn start_iteration(&mut self) -> (started: bool)
        ensures
            started == (old(self).iteration < old(self).max_iterations),
            final(self).iteration == if started { old(self).iteration + 1 } else { old(self).iteration as int },
            final(self).goal == old(self).goal,
            final(self).observations == old(self).observations,
            final(self).max_iterations == old(self).max_iterations,
            old(self).iteration <= old(self).max_iterations ==> final(self).iteration
                <= final(self).max_iterations,
            final(self).made_tool_call == (old(self).made_tool_call && !started),
    {
        if self.iteration >= self.max_iterations {
            false
        } else {
            self.iteration = self.iteration + 1;
            self.made_tool_call = false;
            true
        }
    }

    /// Adds an observation at the end.
    pub fn record(&mut self, observation: String)
        ensures
            final(self).observations@ == old(self).observations@.push(observation),
            final(self).goal == old(self).goal,
            final(self).iteration == old(self).iteration,
            final(self).max_iterations == old(self).max_iterations,
            final(self).made_tool_call == old(self).made_tool_call,
    {
        self.observations.push(observation);
    }
}

/// The observation recorded for the `index`-th result (from 0) of a round
/// of function calls, whose printed form is `detail`.
pub open spec fn observation_text(index: nat, detail: Seq<char>) -> Seq<char> {
    "Tool result "@ + decimal(index + 1) + ": "@ + detail
}

/// The observation recorded for the `index`-th result of a round of calls.
pub fn observation_line(index: usize, detail: &str) -> (r: String)
    requires
        index < usize::MAX,
    ensures
        r@ == observation_text(index as nat, detail@),
{
    let mut r = string_from("Tool result ");
    push_decimal(&mut r, index + 1);
    push_str(&mut r, ": ");
    push_str(&mut r, detail);
    r
}

/// Whether an observation reports a correct guess.
pub fn is_solved_observation(observation: &str) -> (b: bool)
    ensures
        b == contains_seq(observation@, "\"correct\":true"@),
{
    contains_str(observation, "\"correct\":true")
}

/// The text that marks a correct guess in a printed result.
pub open spec fn solved_marker() -> Seq<char> {
    "\"correct\":true"@
}

/// The printed results of one round of calls, `None` for a declared tool
/// the model did not call.
pub open spec fn result_views(v: Seq<Option<String>>) -> Seq<Option<Seq<char>>> {
    v.map_values(|o: Option<String>| match o {
        Some(s) => Some(s@),
        None => None,
    })
}

/// The observations a round's results give, in order.
pub open spec fn round_lines(results: Seq<Option<Seq<char>>>) -> Seq<Seq<char>>
    decreases results.len(),
{
    if results.len() == 0 {
        Seq::empty()
    } else {
        let prev = round_lines(results.drop_last());
        match results.last() {
            Some(d) => prev.push(observation_text((results.len() - 1) as nat, d)),
            None => prev,
        }
    }
}

/// The `k`-th result reports a correct guess.
pub open spec fn solves(results: Seq<Option<Seq<char>>>, k: int) -> bool {
    &&& 0 <= k < results.len()
    &&& results[k] matches Some(d) && contains_seq(observation_text(k as nat, d), solved_marker())
}

/// A result solves the round exactly when its observation holds the text
/// `"correct":true`.
pub proof fn lemma_solves_by_marker(results: Seq<Option<Seq<char>>>, k: int)
    ensures
        solves(results, k) == (0 <= k < results.len() && results[k] is Some && contains_seq(
            observation_text(k as nat, results[k]->0),
            "\"correct\":true"@,
        )),
{
}

/// Every result of a round appears among the round's observations.
pub proof fn lemma_round_lines_contains(results: Seq<Option<Seq<char>>>, k: int)
    requires
        0 <= k < results.len(),
        results[k] is Some,
    ensures
        round_lines(results).contains(observation_text(k as nat, results[k]->0)),
    decreases results.len(),
{
    let prev = round_lines(results.drop_last());
    if k == results.len() - 1 {
        assert(round_lines(results) == prev.push(observation_text(k as nat, results[k]->0)));
        assert(round_lines(results)[prev.len() as int] == observation_text(
            k as nat,
            results[k]->0,
        ));
    } else {
        lemma_round_lines_contains(results.drop_last(), k);
        let i = choose|i: int|
            0 <= i < prev.len() && prev[i] == observation_text(k as nat, results[k]->0);
        match results.last() {
            Some(d) => {
                assert(round_lines(results)[i] == prev[i]);
            },
            None => {},
        }
    }
}

/// How an iteration ends once the model stops calling tools.
#[derive(Clone, Copy, Debug, PartialEq, Eq)]
pub enum IterationEnd {
    /// A tool was called: the next iteration starts.
    NextIteration,
    /// No tool was called: the agent stops.
    NoToolCall,
}

impl AgentState {
    /// Takes in a round of function calls: each result becomes an
    /// observation, up to and including the first that reports a correct
    /// guess, which is returned. Marks that a tool was called.
    pub fn record_results(&mut self, results: &Vec<Option<String>>) -> (solved: Option<String>)
        ensures
            final(self).made_tool_call,
            final(self).goal == old(self).goal,
            final(self).iteration == old(self).iteration,
            final(self).max_iterations == old(self).max_iterations,
            solved matches Some(o) ==> contains_seq(o@, "\"correct\":true"@),
            solved is None ==> forall|k: int|
                #![trigger results@[k]]
                0 <= k < results@.len() ==> (results@[k] matches Some(d) ==> !contains_seq(
                    observation_text(k as nat, d@),
                    "\"correct\":true"@,
                )),
            solved is None ==> forall|k: int|
                #![trigger results@[k]]
                0 <= k < results@.len() ==> (results@[k] matches Some(d) ==> views(
                    final(self).observations@,
                ).contains(observation_text(k as nat, d@))),
            solved is None ==> {
                &&& forall|k: int| !solves(result_views(results@), k)
                &&& views(final(self).observations@) == views(old(self).observations@)
                    + round_lines(result_views(results@))
            },
            solved matches Some(o) ==> exists|k: int|
                {
                    &&& #[trigger] solves(result_views(results@), k)
                    &&& forall|j: int| 0 <= j < k ==> !solves(result_views(results@), j)
                    &&& o@ == observation_text(k as nat, result_views(results@)[k]->0)
                    &&& views(final(self).observations@) == views(old(self).observations@)
                        + round_lines(result_views(results@).take(k + 1))
                },
    {
        self.made_tool_call = true;
        let ghost rv = result_views(results@);
        let mut i: usize = 0;
        while i < results.len()
            invariant
                rv == result_views(results@),
                i <= results@.len(),
                forall|j: int| 0 <= j < i ==> !solves(rv, j),
                views(self.observations@) == views(old(self).observations@) + round_lines(
                    rv.take(i as int),
                ),
                self.made_tool_call,
                self.goal == old(self).goal,
                self.iteration == old(self).iteration,
                self.max_iterations == old(self).max_iterations,
            decreases results@.len() - i,
        {
            assert(rv.take(i + 1).drop_last() =~= rv.take(i as int));
            match &results[i] {
                Some(detail) => {
                    let observation = observation_line(i, detail.as_str());
                    let solved = is_solved_observation(observation.as_str());
                    let ghost before = views(self.observations@);
                    self.observations.push(observation.clone());
                    assert(views(self.observations@) =~= before.push(observation@));
                    assert(views(self.observations@) =~= views(old(self).observations@)
                        + round_lines(rv.take(i + 1)));
                    if solved {
                        assert(solves(rv, i as int));
                        return Some(observation);
                    }
                },
                None => {
                    assert(views(self.observations@) =~= views(old(self).observations@)
                        + round_lines(rv.take(i + 1)));
                },
            }
            i = i + 1;
        }
        assert(rv.take(i as int) =~= rv);
        proof {
            assert forall|k: int|
                #![trigger results@[k]]
                0 <= k < results@.len() implies (results@[k] matches Some(d) ==> views(
                self.observations@,
            ).contains(observation_text(k as nat, d@))) by {
                if results@[k] is Some {
                    assert(rv[k] == Some(results@[k]->0@));
                    lemma_round_lines_contains(rv, k);
                    let i = choose|i: int|
                        0 <= i < round_lines(rv).len() && round_lines(rv)[i] == observation_text(
                            k as nat,
                            rv[k]->0,
                        );
                    assert(views(self.observations@)[views(old(self).observations@).len() + i]
                        == round_lines(rv)[i]);
                }
            }
            assert forall|k: int|
                #![trigger results@[k]]
                0 <= k < results@.len() implies (results@[k] matches Some(d) ==> !contains_seq(
                observation_text(k as nat, d@),
                "\"correct\":true"@,
            )) by {
                if results@[k] is Some {
                    assert(rv[k] == Some(results@[k]->0@));
                    assert(!solves(rv, k));
                }
            }
        }
        None
    }

    /// How the iteration ends when the model answers without a call.
    pub fn end_iteration(&self) -> (e: IterationEnd)
        ensures
            e == if self.made_tool_call { IterationEnd::NextIteration } else { IterationEnd::NoToolCall },
    {
        if self.made_tool_call {
            IterationEnd::NextIteration
        } else {
            IterationEnd::NoToolCall
        }
    }
}

} // verus!
