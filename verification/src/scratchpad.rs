//! A planner that keeps a sliding window of thought / action / observation
//! steps as working memory, and the decisions it takes on each model reply.

use vstd::prelude::*;
use crate::text::{
    chars_of, contains_seq, decimal, occurs_at, eq_str, find_char, is_first_index, is_last_index, push_decimal, push_str,
    rfind_char, string_from, string_of_range,
};

verus! {

/// Number of model calls the planner makes before it gives up.
pub const MAX_STEPS: usize = 6;

/// Number of steps that the planner's working memory keeps.
pub const MEMORY_WINDOW: usize = 10;

/// One recorded step of the planner.
#[derive(Debug)]
pub struct Step {
    pub thought: String,
    pub action: String,
    pub observation: String,
}

impl View for Step {
    type V = (Seq<char>, Seq<char>, Seq<char>);

    open spec fn view(&self) -> (Seq<char>, Seq<char>, Seq<char>) {
        (self.thought@, self.action@, self.observation@)
    }
}

/// Working memory: the most recent steps, at most `max_steps` of them.
#[derive(Debug)]
pub struct Scratchpad {
    pub steps: Vec<Step>,
    pub max_steps: usize,
}

/// The last `max` items of `s` (all of them when there are fewer).
pub open spec fn window<T>(s: Seq<T>, max: nat) -> Seq<T> {
    if s.len() > max {
        s.subrange(s.len() - max, s.len() as int)
    } else {
        s
    }
}

/// The sliding window: after a push it holds at most `max` items, the
/// newest last, and as many as it can.
pub proof fn lemma_window_push<T>(s: Seq<T>, x: T, max: nat)
    ensures
        window(s.push(x), max).len() == if s.len() + 1 <= max { s.len() + 1 } else { max },
        max > 0 ==> window(s.push(x), max).last() == x,
        s.len() + 1 <= max ==> window(s.push(x), max) == s.push(x),
{
}

/// The text of one step in the planner's prompt.
pub open spec fn memory_entry(v: (Seq<char>, Seq<char>, Seq<char>)) -> Seq<char> {
    "Thought: "@ + v.0 + "\nAction: "@ + v.1 + "\nObservation: "@ + v.2 + "\n\n"@
}

/// The text of a sequence of steps in the planner's prompt.
pub open spec fn memory_entries(m: Seq<(Seq<char>, Seq<char>, Seq<char>)>) -> Seq<char>
    decreases m.len(),
{
    if m.len() == 0 {
        Seq::empty()
    } else {
        memory_entries(m.drop_last()) + memory_entry(m.last())
    }
}

/// The working-memory section of the planner's prompt.
pub open spec fn working_memory(m: Seq<(Seq<char>, Seq<char>, Seq<char>)>) -> Seq<char> {
    if m.len() == 0 {
        "(empty)\n"@
    } else {
        memory_entries(m)
    }
}

/// The text of steps `a` then `b` is the text of `a` followed by that of
/// `b`.
pub proof fn lemma_memory_entries_concat(
    a: Seq<(Seq<char>, Seq<char>, Seq<char>)>,
    b: Seq<(Seq<char>, Seq<char>, Seq<char>)>,
)
    ensures
        memory_entries(a + b) == memory_entries(a) + memory_entries(b),
    decreases b.len(),
{
    if b.len() == 0 {
        assert(a + b =~= a);
        assert(memory_entries(a) + memory_entries(b) =~= memory_entries(a));
    } else {
        lemma_memory_entries_concat(a, b.drop_last());
        assert((a + b).drop_last() =~= a + b.drop_last());
        assert((a + b).last() == b.last());
        assert(memory_entries(a + b) =~= memory_entries(a) + memory_entries(b));
    }
}

/// Working memory holds every step, oldest first: one step gives its own
/// text, and one more step after some appends its text at the end.
pub proof fn lemma_working_memory_steps(
    m: Seq<(Seq<char>, Seq<char>, Seq<char>)>,
    x: (Seq<char>, Seq<char>, Seq<char>),
)
    ensures
        working_memory(seq![x]) == memory_entry(x),
        m.len() > 0 ==> working_memory(m.push(x)) == working_memory(m) + memory_entry(x),
{
    let one = seq![x];
    let none = Seq::<(Seq<char>, Seq<char>, Seq<char>)>::empty();
    assert(one.drop_last() =~= none);
    assert(memory_entries(none) =~= Seq::<char>::empty());
    assert(one.last() == x);
    assert(memory_entries(one) =~= memory_entry(x));
    assert(m.push(x).drop_last() =~= m);
}

/// The text of step `i` occurs, whole, in the text of the steps.
pub proof fn lemma_memory_entry_occurs(m: Seq<(Seq<char>, Seq<char>, Seq<char>)>, i: int)
    requires
        0 <= i < m.len(),
    ensures
        occurs_at(
            memory_entries(m),
            memory_entry(m[i]),
            memory_entries(m.take(i)).len() as int,
        ),
{
    let a = m.take(i);
    let b = m.skip(i);
    assert(m =~= a + b);
    lemma_memory_entries_concat(a, b);
    let c = b.skip(1);
    assert(b =~= seq![m[i]] + c);
    lemma_memory_entries_concat(seq![m[i]], c);
    lemma_working_memory_steps(Seq::empty(), m[i]);
    let t = memory_entries(m);
    let pre = memory_entries(a);
    let e = memory_entry(m[i]);
    assert(t =~= pre + e + memory_entries(c));
    assert(t.subrange(pre.len() as int, (pre.len() + e.len()) as int) =~= e);
}

/// The fixed opening of the planner's prompt, up to the goal.
pub open spec fn planner_header() -> Seq<char> {
    "You are an agent planner.\nReturn ONLY JSON:\n{\n  \"thought\": string,\n  \"action\": \"web_search\" | \"finish\",\n  \"input\": string\n}\n\nGOAL:\n"@
}

/// The whole prompt for `goal` with working memory `m`.
pub open spec fn planner_prompt(goal: Seq<char>, m: Seq<(Seq<char>, Seq<char>, Seq<char>)>) -> Seq<char> {
    planner_header() + goal + "\n\nWORKING MEMORY:\n"@ + working_memory(m)
}

/// One step as shown in the rendered scratchpad, numbered from 1.
pub open spec fn render_entry(i: nat, v: (Seq<char>, Seq<char>, Seq<char>)) -> Seq<char> {
    decimal(i + 1) + ". Thought: "@ + v.0 + "\n   Action: "@ + v.1 + "\n   Observation: "@ + v.2
        + "\n"@
}

/// The numbered steps of `m`.
pub open spec fn render_entries(m: Seq<(Seq<char>, Seq<char>, Seq<char>)>) -> Seq<char>
    decreases m.len(),
{
    if m.len() == 0 {
        Seq::empty()
    } else {
        render_entries(m.drop_last()) + render_entry((m.len() - 1) as nat, m.last())
    }
}

/// The rendered scratchpad.
pub open spec fn rendered(m: Seq<(Seq<char>, Seq<char>, Seq<char>)>) -> Seq<char> {
    if m.len() == 0 {
        "(empty)"@
    } else {
        render_entries(m)
    }
}

impl Scratchpad {
    /// The steps, by their views.
    pub open spec fn memory(&self) -> Seq<(Seq<char>, Seq<char>, Seq<char>)> {
        self.steps@.map_values(|s: Step| s@)
    }

    /// An empty scratchpad that keeps at most `max_steps` steps.
    pub fn new(max_steps: usize) -> (s: Self)
        ensures
            s.steps@.len() == 0,
            s.max_steps == max_steps,
    {
        Self { steps: Vec::new(), max_steps }
    }

    /// Records a step; when more than `max_steps` are held, the oldest go.
    pub fn add(&mut self, thought: String, action: String, observation: String)
        ensures
            final(self).max_steps == old(self).max_steps,
            final(self).steps@ == window(
                old(self).steps@.push(Step { thought, action, observation }),
                old(self).max_steps as nat,
            ),
            final(self).memory() == window(
                old(self).memory().push((thought@, action@, observation@)),
                old(self).max_steps as nat,
            ),
            final(self).steps@.len() <= final(self).max_steps,
    {
        let ghost step = Step { thought, action, observation };
        self.steps.push(Step { thought, action, observation });
        let ghost pushed = self.steps@;
        if self.steps.len() > self.max_steps {
            let keep_from = self.steps.len() - self.max_steps;
            self.steps = self.steps.split_off(keep_from);
        }
        assert(self.steps@ == window(old(self).steps@.push(step), old(self).max_steps as nat));
        assert(self.memory() =~= window(
            old(self).memory().push((thought@, action@, observation@)),
            old(self).max_steps as nat,
        ));
    }

    /// The planner's prompt for `goal` over the current working memory.
    pub fn build_prompt(&self, goal: &str) -> (p: String)
        ensures
            p@ == planner_prompt(goal@, self.memory()),
            forall|i: int|
                0 <= i < self.memory().len() ==> contains_seq(
                    p@,
                    #[trigger] memory_entry(self.memory()[i]),
                ),
    {
        let mut memory = String::new();
        if self.steps.len() == 0 {
            push_str(&mut memory, "(empty)\n");
        } else {
            let mut i: usize = 0;
            while i < self.steps.len()
                invariant
                    i <= self.steps@.len(),
                    memory@ == memory_entries(self.memory().take(i as int)),
                decreases self.steps@.len() - i,
            {
                let step = &self.steps[i];
                push_str(&mut memory, "Thought: ");
                push_str(&mut memory, step.thought.as_str());
                push_str(&mut memory, "\nAction: ");
                push_str(&mut memory, step.action.as_str());
                push_str(&mut memory, "\nObservation: ");
                push_str(&mut memory, step.observation.as_str());
                push_str(&mut memory, "\n\n");
                assert(self.memory().take(i + 1).drop_last() =~= self.memory().take(i as int));
                i = i + 1;
            }
            assert(self.memory().take(i as int) =~= self.memory());
        }
        let mut p = String::new();
        push_str(
            &mut p,
            "You are an agent planner.\nReturn ONLY JSON:\n{\n  \"thought\": string,\n  \"action\": \"web_search\" | \"finish\",\n  \"input\": string\n}\n\nGOAL:\n",
        );
        push_str(&mut p, goal);
        push_str(&mut p, "\n\nWORKING MEMORY:\n");
        push_str(&mut p, memory.as_str());
        assert(p@ =~= planner_prompt(goal@, self.memory()));
        proof {
            let head = planner_header() + goal@ + "\n\nWORKING MEMORY:\n"@;
            assert forall|i: int|
                0 <= i < self.memory().len() implies contains_seq(
                p@,
                #[trigger] memory_entry(self.memory()[i]),
            ) by {
                let m = self.memory();
                lemma_memory_entry_occurs(m, i);
                let k = memory_entries(m.take(i)).len() as int;
                let e = memory_entry(m[i]);
                assert(p@ =~= head + memory_entries(m));
                assert(p@.subrange(head.len() + k, head.len() + k + e.len()) =~= memory_entries(
                    m,
                ).subrange(k, k + e.len()));
                assert(occurs_at(p@, e, head.len() + k));
            }
        }
        p
    }

    /// The scratchpad as numbered lines, or `(empty)`.
    pub fn render(&self) -> (t: String)
        ensures
            t@ == rendered(self.memory()),
    {
        if self.steps.len() == 0 {
            return string_from("(empty)");
        }
        let mut text = String::new();
        let mut i: usize = 0;
        while i < self.steps.len()
            invariant
                i <= self.steps@.len(),
                text@ == render_entries(self.memory().take(i as int)),
            decreases self.steps@.len() - i,
        {
            let step = &self.steps[i];
            push_decimal(&mut text, i + 1);
            push_str(&mut text, ". Thought: ");
            push_str(&mut text, step.thought.as_str());
            push_str(&mut text, "\n   Action: ");
            push_str(&mut text, step.action.as_str());
            push_str(&mut text, "\n   Observation: ");
            push_str(&mut text, step.observation.as_str());
            push_str(&mut text, "\n");
            assert(self.memory().take(i + 1).drop_last() =~= self.memory().take(i as int));
            i = i + 1;
        }
        assert(self.memory().take(i as int) =~= self.memory());
        text
    }
}

impl Default for Scratchpad {
    /// An empty scratchpad with a window of zero steps.
    fn default() -> (s: Self)
        ensures
            s.steps@.len() == 0,
            s.max_steps == 0,
    {
        Self::new(0)
    }
}

/// What the mock search tool answers to `query`.
pub open spec fn search_result(query: Seq<char>) -> Seq<char> {
    "[mock-search-result] "@ + query
        + ": RTX 4090 has strong local value; H100 leads datacenter throughput."@
}

/// A mock web search: a fixed verdict on GPUs, prefixed by the query.
pub fn web_search(query: &str) -> (r: String)
    ensures
        r@ == search_result(query@),
{
    let mut r = string_from("[mock-search-result] ");
    push_str(&mut r, query);
    push_str(&mut r, ": RTX 4090 has strong local value; H100 leads datacenter throughput.");
    r
}

/// What the model asks the planner to do next.
#[derive(Debug)]
pub struct AgentAction {
    pub thought: String,
    pub action: String,
    pub input: String,
}

/// The text from the first `{` to the last `}` of `raw`, both included,
/// when the last `}` comes after the first `{`.
pub open spec fn json_object_candidate_spec(raw: Seq<char>) -> Option<Seq<char>> {
    if exists|i: int, j: int|
        is_first_index(raw, '{', i) && is_last_index(raw, '}', j) && i < j {
        let (i, j) = choose|i: int, j: int|
            is_first_index(raw, '{', i) && is_last_index(raw, '}', j) && i < j;
        Some(raw.subrange(i, j + 1))
    } else {
        None
    }
}

proof fn lemma_first_unique(s: Seq<char>, c: char, i: int, k: int)
    requires
        is_first_index(s, c, i),
        is_first_index(s, c, k),
    ensures
        i == k,
{
}

proof fn lemma_last_unique(s: Seq<char>, c: char, i: int, k: int)
    requires
        is_last_index(s, c, i),
        is_last_index(s, c, k),
    ensures
        i == k,
{
}

/// The part of a mixed reply that may hold a JSON object: from the first
/// `{` to the last `}`.
pub fn json_object_candidate(raw: &str) -> (r: Option<String>)
    ensures
        r matches Some(t) ==> json_object_candidate_spec(raw@) == Some(t@),
        r is None ==> json_object_candidate_spec(raw@) is None,
{
    let v = chars_of(raw);
    match (find_char(&v, '{'), rfind_char(&v, '}')) {
        (Some(start), Some(end)) => {
            if end > start {
                let t = string_of_range(&v, start, end + 1);
                proof {
                    assert(is_first_index(raw@, '{', start as int));
                    assert(is_last_index(raw@, '}', end as int));
                    let (i, j) = choose|i: int, j: int|
                        is_first_index(raw@, '{', i) && is_last_index(raw@, '}', j) && i < j;
                    lemma_first_unique(raw@, '{', i, start as int);
                    lemma_last_unique(raw@, '}', j, end as int);
                }
                Some(t)
            } else {
                proof {
                    assert forall|i: int, j: int|
                        is_first_index(raw@, '{', i) && is_last_index(raw@, '}', j) implies !(i
                        < j) by {
                        lemma_first_unique(raw@, '{', i, start as int);
                        lemma_last_unique(raw@, '}', j, end as int);
                    }
                }
                None
            }
        },
        (None, _) => {
            None
        },
        (_, None) => {
            None
        },
    }
}

/// A reply that starts with `{` and ends with `}` is its own candidate.
pub proof fn lemma_candidate_of_object(raw: Seq<char>)
    requires
        raw.len() >= 2,
        raw[0] == '{',
        raw[raw.len() - 1] == '}',
    ensures
        json_object_candidate_spec(raw) == Some(raw),
{
    assert(is_first_index(raw, '{', 0));
    assert(is_last_index(raw, '}', raw.len() - 1));
    let (i, j) = choose|i: int, j: int|
        is_first_index(raw, '{', i) && is_last_index(raw, '}', j) && i < j;
    lemma_first_unique(raw, '{', i, 0);
    lemma_last_unique(raw, '}', j, raw.len() - 1);
    assert(raw.subrange(0, raw.len() as int) =~= raw);
}

/// The error text for a reply that holds no JSON: its first 200 characters.
pub open spec fn non_json_message(raw: Seq<char>) -> Seq<char> {
    "Model returned non-JSON output: "@ + raw.take(if raw.len() < 200 { raw.len() as int } else { 200 })
}

/// The error for a reply from which no action could be read.
pub fn non_json_output_message(raw: &str) -> (r: String)
    ensures
        r@ == non_json_message(raw@),
{
    let v = chars_of(raw);
    let n: usize = if v.len() < 200 { v.len() } else { 200 };
    let mut r = string_from("Model returned non-JSON output: ");
    let head = string_of_range(&v, 0, n);
    push_str(&mut r, head.as_str());
    assert(v@.subrange(0, n as int) =~= raw@.take(n as int));
    r
}

/// What became of one model reply.
#[derive(Clone, Copy, Debug, PartialEq, Eq)]
pub enum StepOutcome {
    /// No action could be read from the reply: the planner stops.
    ParseError,
    /// The model finished: its input is the answer.
    Finished,
    /// The model asked for a web search, which was run.
    WebSearch,
    /// The model named an action the planner does not know.
    Unknown,
}

impl StepOutcome {
    /// The tag under which the step is logged.
    pub fn label(&self) -> (r: &'static str)
        ensures
            r@ == outcome_label(*self),
    {
        match self {
            StepOutcome::ParseError => "parse_error",
            StepOutcome::Finished => "finished",
            StepOutcome::WebSearch => "tool=web_search",
            StepOutcome::Unknown => "tool=unknown",
        }
    }
}

/// The tag under which an outcome is logged.
pub open spec fn outcome_label(o: StepOutcome) -> Seq<char> {
    match o {
        StepOutcome::ParseError => "parse_error"@,
        StepOutcome::Finished => "finished"@,
        StepOutcome::WebSearch => "tool=web_search"@,
        StepOutcome::Unknown => "tool=unknown"@,
    }
}

/// The answer given when no action could be read from a reply.
pub open spec fn parse_failure_answer() -> Seq<char> {
    "Stopped: model did not return valid structured output."@
}

/// The answer given when the planner runs out of steps.
pub open spec fn out_of_steps_answer() -> Seq<char> {
    "Stopped: reached max iterations without final answer."@
}

/// The step that a reply adds to working memory.
pub open spec fn reply_step(parsed: Option<AgentAction>) -> (Seq<char>, Seq<char>, Seq<char>) {
    match parsed {
        None => (
            "Parser failure"@,
            "finish"@,
            "Model output was not valid JSON. Retrying with stricter prompt is recommended."@,
        ),
        Some(a) => if a.action@ == "finish"@ {
            (a.thought@, "finish"@, a.input@)
        } else if a.action@ == "web_search"@ {
            (a.thought@, "web_search("@ + a.input@ + ")"@, search_result(a.input@))
        } else {
            (a.thought@, a.action@, "Unknown action. Ask model to finish."@)
        },
    }
}

/// How a reply is classified.
pub open spec fn reply_outcome(parsed: Option<AgentAction>) -> StepOutcome {
    match parsed {
        None => StepOutcome::ParseError,
        Some(a) => if a.action@ == "finish"@ {
            StepOutcome::Finished
        } else if a.action@ == "web_search"@ {
            StepOutcome::WebSearch
        } else {
            StepOutcome::Unknown
        },
    }
}

/// The answer a reply ends the run with, if it ends it.
pub open spec fn reply_answer(parsed: Option<AgentAction>) -> Option<Seq<char>> {
    match parsed {
        None => Some(parse_failure_answer()),
        Some(a) => if a.action@ == "finish"@ {
            Some(a.input@)
        } else {
            None
        },
    }
}

/// The answer of a run that made all its model calls without finishing.
pub fn out_of_steps_message() -> (r: String)
    ensures
        r@ == out_of_steps_answer(),
{
    string_from("Stopped: reached max iterations without final answer.")
}

/// Only an unreadable reply or a reply whose action is exactly `finish`
/// ends the run: a search or any other action leaves it going.
pub proof fn lemma_only_finish_ends_run(parsed: Option<AgentAction>)
    ensures
        parsed is None ==> reply_answer(parsed) == Some(
            "Stopped: model did not return valid structured output."@,
        ),
        parsed matches Some(a) ==> (a.action@ == "finish"@ ==> reply_answer(parsed) == Some(
            a.input@,
        )),
        parsed matches Some(a) ==> (a.action@ != "finish"@ ==> reply_answer(parsed) is None),
{
}

/// A planner run: the goal, its working memory, how many model calls were
/// made and, once the run is over, its answer.
#[derive(Debug)]
pub struct PlannerAgent {
    pub goal: String,
    pub scratchpad: Scratchpad,
    pub steps_taken: usize,
    pub answer: Option<String>,
}

impl PlannerAgent {
    /// The answer held, by its view.
    pub open spec fn answer_view(&self) -> Option<Seq<char>> {
        match self.answer {
            Some(a) => Some(a@),
            None => None,
        }
    }

    /// A run towards `goal`, with an empty working memory of
    /// `MEMORY_WINDOW` steps.
    pub fn new(goal: String) -> (a: Self)
        ensures
            a.goal == goal,
            a.scratchpad.steps@.len() == 0,
            a.scratchpad.max_steps == MEMORY_WINDOW,
            a.steps_taken == 0,
            a.answer is None,
    {
        PlannerAgent { goal, scratchpad: Scratchpad::new(MEMORY_WINDOW), steps_taken: 0, answer: None }
    }

    /// The prompt of the next model call, or `None` once the run has an
    /// answer or has made `MAX_STEPS` calls.
    pub fn next_prompt(&mut self) -> (p: Option<String>)
        ensures
            final(self).goal == old(self).goal,
            final(self).scratchpad == old(self).scratchpad,
            final(self).answer == old(self).answer,
            (old(self).answer is None && old(self).steps_taken < MAX_STEPS) ==> {
                &&& final(self).steps_taken == old(self).steps_taken + 1
                &&& p matches Some(t) && t@ == planner_prompt(
                    old(self).goal@,
                    old(self).scratchpad.memory(),
                )
            },
            !(old(self).answer is None && old(self).steps_taken < MAX_STEPS) ==> {
                &&& final(self).steps_taken == old(self).steps_taken
                &&& p is None
            },
            old(self).steps_taken <= MAX_STEPS ==> final(self).steps_taken <= MAX_STEPS,
    {
        if self.answer.is_none() && self.steps_taken < MAX_STEPS {
            self.steps_taken = self.steps_taken + 1;
            Some(self.scratchpad.build_prompt(self.goal.as_str()))
        } else {
            None
        }
    }

    /// Takes in the action read from a reply (`None` when none could be
    /// read): records the step, runs the search it asks for, and ends the
    /// run on a finish or on an unreadable reply.
    pub fn on_reply(&mut self, parsed: Option<AgentAction>) -> (o: StepOutcome)
        ensures
            final(self).goal == old(self).goal,
            final(self).steps_taken == old(self).steps_taken,
            final(self).scratchpad.max_steps == old(self).scratchpad.max_steps,
            final(self).scratchpad.memory() == window(
                old(self).scratchpad.memory().push(reply_step(parsed)),
                old(self).scratchpad.max_steps as nat,
            ),
            o == reply_outcome(parsed),
            final(self).answer_view() == (match reply_answer(parsed) {
                Some(a) => Some(a),
                None => old(self).answer_view(),
            }),
            parsed is None ==> final(self).answer_view() == Some(
                "Stopped: model did not return valid structured output."@,
            ),
            parsed matches Some(a) ==> (a.action@ == "finish"@ ==> final(self).answer_view()
                == Some(a.input@)),
            parsed matches Some(a) ==> (a.action@ != "finish"@ ==> final(self).answer_view()
                == old(self).answer_view()),
    {
        match parsed {
            None => {
                self.scratchpad.add(
                    string_from("Parser failure"),
                    string_from("finish"),
                    string_from(
                        "Model output was not valid JSON. Retrying with stricter prompt is recommended.",
                    ),
                );
                self.answer = Some(string_from("Stopped: model did not return valid structured output."));
                StepOutcome::ParseError
            },
            Some(a) => {
                if eq_str(a.action.as_str(), "finish") {
                    let answer = a.input.clone();
                    self.scratchpad.add(a.thought, string_from("finish"), a.input);
                    self.answer = Some(answer);
                    StepOutcome::Finished
                } else if eq_str(a.action.as_str(), "web_search") {
                    let result = web_search(a.input.as_str());
                    let mut call = string_from("web_search(");
                    push_str(&mut call, a.input.as_str());
                    push_str(&mut call, ")");
                    self.scratchpad.add(a.thought, call, result);
                    StepOutcome::WebSearch
                } else {
                    self.scratchpad.add(
                        a.thought,
                        a.action,
                        string_from("Unknown action. Ask model to finish."),
                    );
                    StepOutcome::Unknown
                }
            },
        }
    }

    /// The run's answer: the one it ended with, or that it ran out of steps.
    pub fn final_answer(&self) -> (r: String)
        ensures
            r@ == (match self.answer_view() {
                Some(a) => a,
                None => out_of_steps_answer(),
            }),
    {
        match &self.answer {
            Some(a) => a.clone(),
            None => out_of_steps_message(),
        }
    }
}

} // verus!
