//! The hidden-number agent driven through a chat model that answers with a
//! JSON tool call: its state and the prompt it sends each iteration.

use vstd::prelude::*;
use crate::text::{decimal, numbered_lines, push_decimal, push_numbered_lines, push_str, string_from, views};
use crate::tools::{dispatch_tool, dispatched, ToolReport};

verus! {

/// Goal, observations gathered so far and the iteration budget.
#[derive(Debug)]
pub struct AgentState {
    pub goal: String,
    pub observations: Vec<String>,
    pub iteration: usize,
    pub max_iterations: usize,
}

/// The observations section of the prompt.
pub open spec fn observations_section(obs: Seq<Seq<char>>) -> Seq<char> {
    if obs.len() == 0 {
        "Observations: none\n"@
    } else {
        "Observations:\n"@ + numbered_lines(obs)
    }
}

/// The closing section: the tools and the reply format.
pub open spec fn tools_section() -> Seq<char> {
    "\nAvailable tools:\n1. greater_than(n)\n2. is_divisible_by(n)\n3. guess_number(n)\n\nRespond ONLY with JSON:\n{ \"tool\": \"name\", \"arguments\": { \"n\": number } }\n"@
}

/// The prompt of one iteration.
pub open spec fn puzzle_prompt(
    goal: Seq<char>,
    iteration: nat,
    max_iterations: nat,
    obs: Seq<Seq<char>>,
) -> Seq<char> {
    "You are a careful puzzle-solving agent.\nGoal: "@ + goal + "\nIteration: "@ + decimal(iteration)
        + "/"@ + decimal(max_iterations)
        + "\nThe secret number is between 1 and 20.\nUse tools strategically. Do not guess early.\n\n"@
        + observations_section(obs) + tools_section()
}

/// What the agent does with one model reply.
#[derive(Debug)]
pub enum Turn {
    /// The reply names no tool: the agent stops.
    NoToolCall,
    /// The reply's guess found the secret: the agent stops.
    Solved(ToolReport),
    /// The tool ran; its report goes back to the model.
    Continue(ToolReport),
}

/// Decides on a reply, given the tool it names and the integer `n` among
/// its arguments (both as read from the reply's JSON, if there).
pub fn take_reply(tool: Option<&str>, n: Option<i64>) -> (t: Turn)
    ensures
        tool is None ==> t is NoToolCall,
        tool matches Some(name) ==> match t {
            Turn::Solved(r) => dispatched(name@, n, r) && r.solved(),
            Turn::Continue(r) => dispatched(name@, n, r) && !r.solved(),
            Turn::NoToolCall => false,
        },
{
    match tool {
        None => Turn::NoToolCall,
        Some(name) => {
            let r = dispatch_tool(name, n);
            if r.is_solved() {
                Turn::Solved(r)
            } else {
                Turn::Continue(r)
            }
        },
    }
}

impl AgentState {
    /// A fresh state for `goal` with a budget of `max_iterations`.
    pub fn new(goal: &str, max_iterations: usize) -> (s: Self)
        ensures
            s.goal@ == goal@,
            s.observations@.len() == 0,
            s.iteration == 0,
            s.max_iterations == max_iterations,
    {
        Self { goal: string_from(goal), observations: Vec::new(), iteration: 0, max_iterations }
    }

    /// The prompt for the current iteration.
    pub fn build_prompt(&self) -> (p: String)
        ensures
            p@ == puzzle_prompt(
                self.goal@,
                self.iteration as nat,
                self.max_iterations as nat,
                views(self.observations@),
            ),
    {
        let mut p = string_from("You are a careful puzzle-solving agent.\nGoal: ");
        push_str(&mut p, self.goal.as_str());
        push_str(&mut p, "\nIteration: ");
        push_decimal(&mut p, self.iteration);
        push_str(&mut p, "/");
        push_decimal(&mut p, self.max_iterations);
        push_str(
            &mut p,
            "\nThe secret number is between 1 and 20.\nUse tools strategically. Do not guess early.\n\n",
        );
        if self.observations.len() == 0 {
            push_str(&mut p, "Observations: none\n");
        } else {
            push_str(&mut p, "Observations:\n");
            push_numbered_lines(&mut p, &self.observations);
        }
        push_str(
            &mut p,
            "\nAvailable tools:\n1. greater_than(n)\n2. is_divisible_by(n)\n3. guess_number(n)\n\nRespond ONLY with JSON:\n{ \"tool\": \"name\", \"arguments\": { \"n\": number } }\n",
        );
        assert(p@ =~= puzzle_prompt(
            self.goal@,
            self.iteration as nat,
            self.max_iterations as nat,
            views(self.observations@),
        ));
        p
    }

    /// Starts the next iteration, unless the budget is spent.
    pub fn start_iteration(&mut self) -> (started: bool)
        ensures
            started == (old(self).iteration < old(self).max_iterations),
            final(self).iteration == if started { old(self).iteration + 1 } else { old(self).iteration as int },
            final(self).goal == old(self).goal,
            final(self).observations == old(self).observations,
            final(self).max_iterations == old(self).max_iterations,
            old(self).iteration <= old(self).max_iterations ==> final(self).iteration
                <= final(self).max_iterations,
    {
        if self.iteration >= self.max_iterations {
            false
        } else {
            self.iteration = self.iteration + 1;
            true
        }
    }

    /// Adds an observation at the end.
    pub fn record(&mut self, observation: String)
        ensures
            final(self).observations@ == old(self).observations@.push(observation),
            final(self).goal == old(self).goal,
            final(self).iteration == old(self).iteration,
            final(self).max_iterations == old(self).max_iterations,
    {
        self.observations.push(observation);
    }
}

impl AgentState {
    /// Keeps a tool result (as printed) as an observation, and gives the
    /// message that hands it back to the model.
    pub fn record_result(&mut self, observation: String) -> (m: String)
        ensures
            final(self).observations@ == old(self).observations@.push(observation),
            m@ == "Tool result: "@ + observation@,
            final(self).goal == old(self).goal,
            final(self).iteration == old(self).iteration,
            final(self).max_iterations == old(self).max_iterations,
    {
        let mut m = string_from("Tool result: ");
        push_str(&mut m, observation.as_str());
        self.observations.push(observation);
        m
    }
}

} // verus!
