//! A reasoning / tool / final-answer graph: the state passed between its
//! nodes, what each node does to it, and which node comes next.

use vstd::prelude::*;
use crate::text::{
    contains_seq, contains_str, join, joined, lowercase, push_str, string_from, to_lowercase,
    views,
};

verus! {

/// Number of reasoning rounds before the graph gives up.
pub const MAX_ITERATIONS: usize = 10;

/// The state that flows through the graph.
#[derive(Debug)]
pub struct AgentState {
    pub goal: String,
    pub messages: Vec<String>,
    pub next_action: String,
    pub final_report: Option<String>,
}

/// The node that runs after reasoning.
#[derive(Clone, Copy, Debug, PartialEq, Eq)]
pub enum Route {
    Tools,
    FinalAnswer,
    Stop,
}

/// The next action that a reasoning reply asks for, given its lowercase
/// form: the tool node when it mentions a tool.
pub open spec fn next_action_for(lowered: Seq<char>) -> Seq<char> {
    if contains_seq(lowered, "tool"@) {
        "tools"@
    } else {
        "final_answer"@
    }
}

/// The next action for a reply whose lowercase form is `lowered`.
pub fn decide_next_action(lowered: &str) -> (a: String)
    ensures
        a@ == next_action_for(lowered@),
{
    if contains_str(lowered, "tool") {
        string_from("tools")
    } else {
        string_from("final_answer")
    }
}

/// The node that follows reasoning, for a given next action.
pub open spec fn route_of(next_action: Seq<char>) -> Route {
    if next_action == "tools"@ {
        Route::Tools
    } else if next_action == "final_answer"@ {
        Route::FinalAnswer
    } else {
        Route::Stop
    }
}

/// After the reasoning node the graph never stops on its own: a reply
/// leads to the tools when it mentions a tool and to the final answer
/// otherwise, and a failed call leads to the final answer.
pub proof fn lemma_reasoning_never_stops(lowered: Seq<char>)
    ensures
        route_of(next_action_for(lowered)) == if contains_seq(lowered, "tool"@) {
            Route::Tools
        } else {
            Route::FinalAnswer
        },
        route_of("final_answer"@) == Route::FinalAnswer,
{
    reveal_strlit("tools");
    reveal_strlit("final_answer");
    assert("final_answer"@.len() != "tools"@.len());
}

/// The reasoning prompt.
pub open spec fn reasoning_prompt_text(goal: Seq<char>, messages: Seq<Seq<char>>) -> Seq<char> {
    "Goal: "@ + goal + "\n\nHistory:\n"@ + joined(messages, "\n"@)
        + "\n\nDecide next action. Reply with 'use tool' to call a tool, or 'final_answer' to finish."@
}

/// The prompt asking for the final answer.
pub open spec fn final_prompt_text(messages: Seq<Seq<char>>) -> Seq<char> {
    "Summarize a clear final answer based on:\n"@ + joined(messages, "\n"@)
}

/// What the tool node reports.
pub open spec fn tool_observation() -> Seq<char> {
    "Tool result: H100 outperforms RTX 4090 in training throughput by 2-3x."@
}

impl Default for AgentState {
    /// Empty goal, no messages, no next action, no report.
    fn default() -> (s: Self)
        ensures
            s.goal@ == Seq::<char>::empty(),
            s.messages@.len() == 0,
            s.next_action@ == Seq::<char>::empty(),
            s.final_report is None,
    {
        AgentState {
            goal: String::new(),
            messages: Vec::new(),
            next_action: String::new(),
            final_report: None,
        }
    }
}

impl AgentState {
    /// A state for `goal`, otherwise empty.
    pub fn new(goal: String) -> (s: Self)
        ensures
            s.goal == goal,
            s.messages@.len() == 0,
            s.next_action@ == Seq::<char>::empty(),
            s.final_report is None,
    {
        AgentState { goal, messages: Vec::new(), next_action: String::new(), final_report: None }
    }

    /// The prompt of the reasoning node.
    pub fn reasoning_prompt(&self) -> (p: String)
        ensures
            p@ == reasoning_prompt_text(self.goal@, views(self.messages@)),
    {
        let mut p = string_from("Goal: ");
        push_str(&mut p, self.goal.as_str());
        push_str(&mut p, "\n\nHistory:\n");
        let history = join(&self.messages, "\n");
        push_str(&mut p, history.as_str());
        push_str(
            &mut p,
            "\n\nDecide next action. Reply with 'use tool' to call a tool, or 'final_answer' to finish.",
        );
        p
    }

    /// The reasoning node takes the model's reply (`Err` when the call
    /// failed): a reply names the next action and joins the history; a
    /// failed call leads to the final answer.
    pub fn on_reasoning(&mut self, response: Result<String, String>)
        ensures
            final(self).goal == old(self).goal,
            final(self).final_report == old(self).final_report,
            match response {
                Ok(r) => {
                    &&& final(self).next_action@ == next_action_for(lowercase(r@))
                    &&& views(final(self).messages@) == views(old(self).messages@).push(
                        "Assistant: "@ + r@,
                    )
                },
                Err(_) => {
                    &&& final(self).next_action@ == "final_answer"@
                    &&& final(self).messages == old(self).messages
                },
            },
    {
        match response {
            Ok(r) => {
                let lowered = to_lowercase(r.as_str());
                self.next_action = decide_next_action(lowered.as_str());
                let mut m = string_from("Assistant: ");
                push_str(&mut m, r.as_str());
                self.messages.push(m);
                assert(views(self.messages@) =~= views(old(self).messages@).push("Assistant: "@ + r@));
            },
            Err(_) => {
                self.next_action = string_from("final_answer");
            },
        }
    }

    /// The tool node: a canned benchmark result joins the history.
    pub fn tool_node(&mut self)
        ensures
            final(self).goal == old(self).goal,
            final(self).next_action == old(self).next_action,
            final(self).final_report == old(self).final_report,
            views(final(self).messages@) == views(old(self).messages@).push(tool_observation()),
    {
        self.messages.push(
            string_from("Tool result: H100 outperforms RTX 4090 in training throughput by 2-3x."),
        );
        assert(views(self.messages@) =~= views(old(self).messages@).push(tool_observation()));
    }

    /// The prompt of the final-answer node.
    pub fn final_prompt(&self) -> (p: String)
        ensures
            p@ == final_prompt_text(views(self.messages@)),
    {
        let mut p = string_from("Summarize a clear final answer based on:\n");
        let history = join(&self.messages, "\n");
        push_str(&mut p, history.as_str());
        p
    }

    /// The final-answer node takes the model's reply: a report is kept, a
    /// failed call leaves the state as it was.
    pub fn on_final_answer(&mut self, report: Option<String>)
        ensures
            final(self).goal == old(self).goal,
            final(self).messages == old(self).messages,
            final(self).next_action == old(self).next_action,
            final(self).final_report == match report {
                Some(r) => Some(r),
                None => old(self).final_report,
            },
    {
        if let Some(r) = report {
            self.final_report = Some(r);
        }
    }

    /// The node that follows reasoning.
    pub fn route(&self) -> (r: Route)
        ensures
            r == route_of(self.next_action@),
    {
        if crate::text::eq_str(self.next_action.as_str(), "tools") {
            Route::Tools
        } else if crate::text::eq_str(self.next_action.as_str(), "final_answer") {
            Route::FinalAnswer
        } else {
            Route::Stop
        }
    }

    /// The report, or a note that none was produced.
    pub fn report_text(&self) -> (t: String)
        ensures
            t@ == match self.final_report {
                Some(r) => r@,
                None => "No report generated."@,
            },
    {
        match &self.final_report {
            Some(r) => r.clone(),
            None => string_from("No report generated."),
        }
    }
}

/// The next action a reasoning call leads to.
pub open spec fn reasoning_action(response: Result<String, String>) -> Seq<char> {
    match response {
        Ok(r) => next_action_for(lowercase(r@)),
        Err(_) => "final_answer"@,
    }
}

/// The messages a reasoning round adds: the reply, and the tool node's
/// result when the round goes to the tools.
pub open spec fn round_messages(response: Result<String, String>) -> Seq<Seq<char>> {
    let reply = match response {
        Ok(r) => seq!["Assistant: "@ + r@],
        Err(_) => Seq::empty(),
    };
    if route_of(reasoning_action(response)) == Route::Tools {
        reply.push(tool_observation())
    } else {
        reply
    }
}

/// Every successful reasoning reply joins the history, whatever the
/// route; the tool node's result follows it only on the tool route, and a
/// failed call adds nothing and leads to the final answer.
pub proof fn lemma_round_messages(response: Result<String, String>)
    ensures
        response matches Ok(r) ==> {
            &&& round_messages(response).len() == if route_of(reasoning_action(response))
                == Route::Tools {
                2int
            } else {
                1int
            }
            &&& round_messages(response)[0] == "Assistant: "@ + r@
        },
        response is Err ==> round_messages(response).len() == 0 && route_of(
            reasoning_action(response),
        ) == Route::FinalAnswer,
        route_of(reasoning_action(response)) == Route::Tools ==> round_messages(response).last()
            == "Tool result: H100 outperforms RTX 4090 in training throughput by 2-3x."@,
{
    lemma_reasoning_never_stops(Seq::empty());
}

/// A run of the graph: its state, the reasoning rounds made, and whether
/// it has left the loop.
#[derive(Debug)]
pub struct GraphRun {
    pub state: AgentState,
    pub rounds: usize,
    pub finished: bool,
}

impl GraphRun {
    /// A run towards `goal` that has made no round.
    pub fn new(goal: String) -> (g: Self)
        ensures
            g.state.goal == goal,
            g.state.messages@.len() == 0,
            g.state.final_report is None,
            g.rounds == 0,
            !g.finished,
    {
        GraphRun { state: AgentState::new(goal), rounds: 0, finished: false }
    }

    /// The reasoning prompt of the next round, or `None` once the run has
    /// left the loop or made `MAX_ITERATIONS` rounds.
    pub fn next_round(&mut self) -> (p: Option<String>)
        ensures
            final(self).state == old(self).state,
            final(self).finished == old(self).finished,
            (!old(self).finished && old(self).rounds < MAX_ITERATIONS) ==> {
                &&& final(self).rounds == old(self).rounds + 1
                &&& p matches Some(t) && t@ == reasoning_prompt_text(
                    old(self).state.goal@,
                    views(old(self).state.messages@),
                )
            },
            !(!old(self).finished && old(self).rounds < MAX_ITERATIONS) ==> {
                &&& final(self).rounds == old(self).rounds
                &&& p is None
            },
            old(self).rounds <= MAX_ITERATIONS ==> final(self).rounds <= MAX_ITERATIONS,
    {
        if !self.finished && self.rounds < MAX_ITERATIONS {
            self.rounds = self.rounds + 1;
            Some(self.state.reasoning_prompt())
        } else {
            None
        }
    }

    /// Takes in the reasoning call's outcome and runs the node it routes
    /// to: the tool node runs at once; the final-answer route and the stop
    /// route end the loop (the final-answer node is still to run).
    pub fn after_reasoning(&mut self, response: Result<String, String>) -> (r: Route)
        ensures
            r == route_of(reasoning_action(response)),
            final(self).state.next_action@ == reasoning_action(response),
            views(final(self).state.messages@) == views(old(self).state.messages@) + round_messages(
                response,
            ),
            final(self).state.goal == old(self).state.goal,
            final(self).state.final_report == old(self).state.final_report,
            final(self).rounds == old(self).rounds,
            final(self).finished == (old(self).finished || r != Route::Tools),
            response matches Ok(reply) ==> {
                &&& views(final(self).state.messages@).len() == views(old(self).state.messages@).len()
                    + if r == Route::Tools { 2int } else { 1int }
                &&& views(final(self).state.messages@).take(
                    views(old(self).state.messages@).len() + 1int,
                ) == views(old(self).state.messages@).push("Assistant: "@ + reply@)
            },
            response is Err ==> r == Route::FinalAnswer && views(final(self).state.messages@)
                == views(old(self).state.messages@),
            r == Route::Tools ==> views(final(self).state.messages@).last()
                == "Tool result: H100 outperforms RTX 4090 in training throughput by 2-3x."@,
    {
        let ghost before = views(self.state.messages@);
        proof {
            lemma_round_messages(response);
        }
        self.state.on_reasoning(response);
        let ghost mid = views(self.state.messages@);
        let r = self.state.route();
        match r {
            Route::Tools => {
                self.state.tool_node();
                assert(views(self.state.messages@) =~= before + round_messages(response));
            },
            _ => {
                self.finished = true;
                assert(mid =~= before + round_messages(response));
            },
        }
        r
    }

    /// The final-answer node takes the model's reply: a report is kept.
    pub fn on_final_answer(&mut self, report: Option<String>)
        ensures
            final(self).state.goal == old(self).state.goal,
            final(self).state.next_action == old(self).state.next_action,
            final(self).state.messages == old(self).state.messages,
            final(self).state.final_report == match report {
                Some(t) => Some(t),
                None => old(self).state.final_report,
            },
            final(self).rounds == old(self).rounds,
            final(self).finished,
    {
        self.state.on_final_answer(report);
        self.finished = true;
    }
}

} // verus!
