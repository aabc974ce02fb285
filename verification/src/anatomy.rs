//! An agent that keeps a chat history and a registry of named tools, and
//! turns each structured model reply into an observation for the next turn.

use vstd::prelude::*;
use crate::chat::{message_views, ChatMessage, Role};
use crate::scratchpad::{out_of_steps_answer, out_of_steps_message};
use crate::text::{eq_str, push_str, string_from};

verus! {

/// Number of turns before the agent gives up.
pub const MAX_STEPS: usize = 6;

/// The tools an agent can have.
#[derive(Clone, Copy, Debug, PartialEq, Eq)]
pub enum ToolKind {
    /// A mock web search over the call's `query` argument.
    WebSearch,
}

/// A tool under the name the model calls it by.
#[derive(Debug)]
pub struct RegisteredTool {
    pub name: String,
    pub kind: ToolKind,
}

/// Tools by name. Registering a name again replaces its tool.
#[derive(Debug)]
pub struct ToolRegistry {
    pub tools: Vec<RegisteredTool>,
}

/// The registry's entries, by their views.
pub open spec fn entries(v: Seq<RegisteredTool>) -> Seq<(Seq<char>, ToolKind)> {
    v.map_values(|t: RegisteredTool| (t.name@, t.kind))
}

/// The tool registered under `name`: the first entry with that name.
pub open spec fn lookup_in(e: Seq<(Seq<char>, ToolKind)>, name: Seq<char>) -> Option<ToolKind>
    decreases e.len(),
{
    if e.len() == 0 {
        None
    } else if e[0].0 == name {
        Some(e[0].1)
    } else {
        lookup_in(e.drop_first(), name)
    }
}

proof fn lemma_lookup_skip(e: Seq<(Seq<char>, ToolKind)>, name: Seq<char>, i: int)
    requires
        0 <= i <= e.len(),
        forall|j: int| 0 <= j < i ==> e[j].0 != name,
    ensures
        lookup_in(e, name) == lookup_in(e.skip(i), name),
    decreases i,
{
    if i > 0 {
        lemma_lookup_skip(e.drop_first(), name, i - 1);
        assert(e.drop_first().skip(i - 1) =~= e.skip(i));
    } else {
        assert(e.skip(0) =~= e);
    }
}

proof fn lemma_lookup_push(e: Seq<(Seq<char>, ToolKind)>, x: (Seq<char>, ToolKind), name: Seq<char>)
    ensures
        lookup_in(e.push(x), name) == match lookup_in(e, name) {
            Some(k) => Some(k),
            None => if x.0 == name { Some(x.1) } else { None },
        },
    decreases e.len(),
{
    if e.len() > 0 {
        assert(e.push(x)[0] == e[0]);
        assert(e.push(x).drop_first() =~= e.drop_first().push(x));
        lemma_lookup_push(e.drop_first(), x, name);
    } else {
        assert(e.push(x)[0] == x);
        assert(e.push(x).drop_first() =~= e);
        assert(lookup_in(e, name) is None);
    }
}

proof fn lemma_lookup_update(
    e: Seq<(Seq<char>, ToolKind)>,
    i: int,
    x: (Seq<char>, ToolKind),
    name: Seq<char>,
)
    requires
        0 <= i < e.len(),
        e[i].0 == x.0,
        forall|j: int| 0 <= j < i ==> e[j].0 != x.0,
    ensures
        lookup_in(e.update(i, x), name) == if name == x.0 {
            Some(x.1)
        } else {
            lookup_in(e, name)
        },
    decreases i,
{
    if i > 0 {
        assert(e.update(i, x)[0] == e[0]);
        assert(e.update(i, x).drop_first() =~= e.drop_first().update(i - 1, x));
        lemma_lookup_update(e.drop_first(), i - 1, x, name);
    } else {
        assert(e.update(0, x)[0] == x);
        assert(e.update(0, x).drop_first() =~= e.drop_first());
    }
}

impl ToolRegistry {
    /// The tool registered under `name`, if any.
    pub open spec fn tool_for(&self, name: Seq<char>) -> Option<ToolKind> {
        lookup_in(entries(self.tools@), name)
    }

    /// A registry with no tools.
    pub fn new() -> (r: Self)
        ensures
            forall|n: Seq<char>| r.tool_for(n) is None,
    {
        ToolRegistry { tools: Vec::new() }
    }

    /// The position of the first entry named `name`, if any.
    fn position(&self, name: &str) -> (r: Option<usize>)
        ensures
            r matches Some(i) ==> i < self.tools@.len() && entries(self.tools@)[i as int].0
                == name@ && forall|j: int| 0 <= j < i ==> entries(self.tools@)[j].0 != name@,
            r is None ==> forall|j: int| 0 <= j < self.tools@.len() ==> entries(self.tools@)[j].0 != name@,
    {
        let mut i: usize = 0;
        while i < self.tools.len()
            invariant
                i <= self.tools@.len(),
                forall|j: int| 0 <= j < i ==> entries(self.tools@)[j].0 != name@,
            decreases self.tools@.len() - i,
        {
            if eq_str(self.tools[i].name.as_str(), name) {
                return Some(i);
            }
            i = i + 1;
        }
        None
    }

    /// The tool registered under `name` (`HashMap::get`).
    pub fn get(&self, name: &str) -> (r: Option<ToolKind>)
        ensures
            r == self.tool_for(name@),
    {
        match self.position(name) {
            Some(i) => {
                proof {
                    lemma_lookup_skip(entries(self.tools@), name@, i as int);
                }
                Some(self.tools[i].kind)
            },
            None => {
                proof {
                    lemma_lookup_skip(entries(self.tools@), name@, self.tools@.len() as int);
                }
                None
            },
        }
    }

    /// Registers `kind` under `name`, replacing the tool it had
    /// (`HashMap::insert`).
    pub fn insert(&mut self, name: String, kind: ToolKind)
        ensures
            forall|n: Seq<char>| #[trigger] final(self).tool_for(n) == if n == name@ {
                Some(kind)
            } else {
                old(self).tool_for(n)
            },
    {
        let ghost x = (name@, kind);
        match self.position(name.as_str()) {
            Some(i) => {
                self.tools.set(i, RegisteredTool { name, kind });
                proof {
                    assert(entries(self.tools@) =~= entries(old(self).tools@).update(i as int, x));
                    assert forall|n: Seq<char>| #[trigger] self.tool_for(n) == if n == x.0 {
                        Some(kind)
                    } else {
                        old(self).tool_for(n)
                    } by {
                        lemma_lookup_update(entries(old(self).tools@), i as int, x, n);
                    }
                }
            },
            None => {
                self.tools.push(RegisteredTool { name, kind });
                proof {
                    assert(entries(self.tools@) =~= entries(old(self).tools@).push(x));
                    assert forall|n: Seq<char>| #[trigger] self.tool_for(n) == if n == x.0 {
                        Some(kind)
                    } else {
                        old(self).tool_for(n)
                    } by {
                        lemma_lookup_push(entries(old(self).tools@), x, n);
                        if n == x.0 {
                            lemma_lookup_skip(
                                entries(old(self).tools@),
                                n,
                                old(self).tools@.len() as int,
                            );
                        }
                    }
                }
            },
        }
    }
}

/// What the mock search answers, given the call's `query` argument.
pub open spec fn search_text(query: Option<Seq<char>>) -> Seq<char> {
    "[mock] top search results for: "@ + match query {
        Some(q) => q,
        None => "unknown query"@,
    }
}

/// A mock web search; without a query it searches for `unknown query`.
pub fn web_search(query: Option<&str>) -> (r: Result<String, String>)
    ensures
        r matches Ok(t) && t@ == search_text(match query {
            Some(q) => Some(q@),
            None => None,
        }),
{
    let mut t = string_from("[mock] top search results for: ");
    match query {
        Some(q) => push_str(&mut t, q),
        None => push_str(&mut t, "unknown query"),
    }
    Ok(t)
}

/// The view of an optional text.
pub open spec fn opt_view(o: Option<String>) -> Option<Seq<char>> {
    match o {
        Some(s) => Some(s@),
        None => None,
    }
}

/// Runs the tool `kind` on the call's `query` argument.
pub fn run_tool(kind: ToolKind, query: &Option<String>) -> (r: Result<String, String>)
    ensures
        r matches Ok(t) && t@ == search_text(opt_view(*query)),
{
    match kind {
        ToolKind::WebSearch => match query {
            Some(q) => web_search(Some(q.as_str())),
            None => web_search(None),
        },
    }
}

/// The action a model reply asks for.
#[derive(Debug)]
pub struct Action {
    /// `tool` or `final`.
    pub action_type: String,
    /// The tool to call.
    pub name: Option<String>,
    /// The `query` text among the call's arguments, if it has one.
    pub query: Option<String>,
    /// The final answer.
    pub answer: Option<String>,
}

/// The instruction that opens every request.
pub open spec fn system_text() -> Seq<char> {
    "Return ONLY JSON: {\"type\":\"tool|final\",\"name\":string|null,\"args\":object,\"answer\":string|null}"@
}

/// The text a tool call gives back: the tool's result, or that no tool
/// has that name.
pub open spec fn tool_call_text(kind: Option<ToolKind>, name: Seq<char>, query: Option<Seq<char>>) -> Seq<char> {
    match kind {
        Some(_) => search_text(query),
        None => "Tool '"@ + name + "' not available."@,
    }
}

/// The name a tool call gives, empty when it gives none.
pub open spec fn call_name(a: Action) -> Seq<char> {
    match a.name {
        Some(n) => n@,
        None => Seq::empty(),
    }
}

/// The observation and whether the run is done, for action `a`.
pub open spec fn turn_result(reg: ToolRegistry, a: Action) -> (Seq<char>, bool) {
    if a.action_type@ == "final"@ {
        (
            match a.answer {
                Some(t) => t@,
                None => "No answer provided."@,
            },
            true,
        )
    } else if a.action_type@ == "tool"@ {
        (tool_call_text(reg.tool_for(call_name(a)), call_name(a), opt_view(a.query)), false)
    } else {
        ("Unknown action type: "@ + a.action_type@, false)
    }
}

/// The history after a reply `raw` asking for `a`, whose observation is
/// `obs`: the reply, then for a tool call the tool's result.
pub open spec fn history_after(
    h: Seq<(Role, Seq<char>)>,
    raw: Seq<char>,
    a: Action,
    obs: Seq<char>,
) -> Seq<(Role, Seq<char>)> {
    if a.action_type@ != "final"@ && a.action_type@ == "tool"@ {
        h.push((Role::Assistant, raw)).push((Role::User, "Tool result: "@ + obs))
    } else {
        h.push((Role::Assistant, raw))
    }
}

/// A reply ends the run exactly when its type is `final`: a tool call,
/// whether the tool is registered or not, and any other type go on.
pub proof fn lemma_only_final_ends_run(reg: ToolRegistry, a: Action)
    ensures
        turn_result(reg, a).1 == (a.action_type@ == "final"@),
{
}

/// The model, its tools and the conversation so far.
#[derive(Debug)]
pub struct Agent {
    pub tools: ToolRegistry,
    pub history: Vec<ChatMessage>,
}

impl Agent {
    /// An agent with `tools` and an empty history.
    pub fn new(tools: ToolRegistry) -> (a: Self)
        ensures
            a.tools == tools,
            a.history@.len() == 0,
    {
        Agent { tools, history: Vec::new() }
    }

    /// The messages of the next request: the instruction, the history and
    /// the latest observation.
    pub fn request_messages(&self, observation: String) -> (v: Vec<ChatMessage>)
        ensures
            message_views(v@) == seq![(Role::System, system_text())] + message_views(
                self.history@,
            ) + seq![(Role::User, observation@)],
    {
        let mut v: Vec<ChatMessage> = Vec::new();
        v.push(ChatMessage::system(string_from(
            "Return ONLY JSON: {\"type\":\"tool|final\",\"name\":string|null,\"args\":object,\"answer\":string|null}",
        )));
        let mut i: usize = 0;
        while i < self.history.len()
            invariant
                i <= self.history@.len(),
                message_views(v@) == seq![(Role::System, system_text())] + message_views(
                    self.history@.take(i as int),
                ),
            decreases self.history@.len() - i,
        {
            let ghost before = v@;
            v.push(self.history[i].duplicate());
            assert(message_views(v@) =~= message_views(before).push(self.history@[i as int]@));
            assert(message_views(self.history@.take(i + 1)) =~= message_views(
                self.history@.take(i as int),
            ).push(self.history@[i as int]@));
            i = i + 1;
            assert(message_views(v@) =~= seq![(Role::System, system_text())] + message_views(
                self.history@.take(i as int),
            ));
        }
        assert(self.history@.take(i as int) =~= self.history@);
        v.push(ChatMessage::user(observation));
        assert(message_views(v@) =~= seq![(Role::System, system_text())] + message_views(
            self.history@,
        ) + seq![(Role::User, observation@)]);
        v
    }

    /// Takes in a reply, `raw` as the model wrote it and `action` as read
    /// from it: the reply joins the history; a tool call runs the tool and
    /// its result joins the history too. Returns the next observation and
    /// whether the run is done.
    pub fn on_reply(&mut self, raw: String, action: Action) -> (r: (String, bool))
        ensures
            final(self).tools == old(self).tools,
            (r.0@, r.1) == turn_result(old(self).tools, action),
            r.1 == (action.action_type@ == "final"@),
            message_views(final(self).history@) == history_after(
                message_views(old(self).history@),
                raw@,
                action,
                r.0@,
            ),
    {
        let ghost raw_view = raw@;
        self.history.push(ChatMessage::assistant(raw));
        assert(message_views(self.history@) =~= message_views(old(self).history@).push(
            (Role::Assistant, raw_view),
        ));
        if eq_str(action.action_type.as_str(), "final") {
            let answer = match action.answer {
                Some(t) => t,
                None => string_from("No answer provided."),
            };
            return (answer, true);
        }
        if eq_str(action.action_type.as_str(), "tool") {
            let tool_name = match action.name {
                Some(n) => n,
                None => String::new(),
            };
            let result = match self.tools.get(tool_name.as_str()) {
                Some(kind) => match run_tool(kind, &action.query) {
                    Ok(t) => t,
                    Err(e) => {
                        let mut m = string_from("Tool error: ");
                        push_str(&mut m, e.as_str());
                        m
                    },
                },
                None => {
                    let mut m = string_from("Tool '");
                    push_str(&mut m, tool_name.as_str());
                    push_str(&mut m, "' not available.");
                    m
                },
            };
            let ghost before = self.history@;
            let mut feedback = string_from("Tool result: ");
            push_str(&mut feedback, result.as_str());
            self.history.push(ChatMessage::user(feedback));
            assert(message_views(self.history@) =~= message_views(before).push(
                (Role::User, "Tool result: "@ + result@),
            ));
            return (result, false);
        }
        let mut m = string_from("Unknown action type: ");
        push_str(&mut m, action.action_type.as_str());
        (m, false)
    }
}

/// A run of the agent: the agent, the observation to send next, the turns
/// taken and whether the model has answered.
#[derive(Debug)]
pub struct AgentRun {
    pub agent: Agent,
    pub observation: String,
    pub steps_taken: usize,
    pub done: bool,
}

impl AgentRun {
    /// A run of `agent` towards `goal`: the goal is the first observation.
    pub fn new(agent: Agent, goal: &str) -> (r: Self)
        ensures
            r.agent == agent,
            r.observation@ == goal@,
            r.steps_taken == 0,
            !r.done,
    {
        AgentRun { agent, observation: string_from(goal), steps_taken: 0, done: false }
    }

    /// The messages of the next turn, or `None` once the model has answered
    /// or `MAX_STEPS` turns were taken.
    pub fn next_request(&mut self) -> (m: Option<Vec<ChatMessage>>)
        ensures
            final(self).agent == old(self).agent,
            final(self).observation == old(self).observation,
            final(self).done == old(self).done,
            (!old(self).done && old(self).steps_taken < MAX_STEPS) ==> {
                &&& final(self).steps_taken == old(self).steps_taken + 1
                &&& m matches Some(v) && message_views(v@) == seq![(Role::System, system_text())]
                    + message_views(old(self).agent.history@) + seq![
                    (Role::User, old(self).observation@),
                ]
            },
            !(!old(self).done && old(self).steps_taken < MAX_STEPS) ==> {
                &&& final(self).steps_taken == old(self).steps_taken
                &&& m is None
            },
            old(self).steps_taken <= MAX_STEPS ==> final(self).steps_taken <= MAX_STEPS,
    {
        if !self.done && self.steps_taken < MAX_STEPS {
            self.steps_taken = self.steps_taken + 1;
            Some(self.agent.request_messages(self.observation.clone()))
        } else {
            None
        }
    }

    /// Takes in the turn's reply: its observation is sent next, and a final
    /// answer ends the run. Returns whether the run is done.
    pub fn on_reply(&mut self, raw: String, action: Action) -> (done: bool)
        ensures
            final(self).agent.tools == old(self).agent.tools,
            (final(self).observation@, done) == turn_result(old(self).agent.tools, action),
            done == (action.action_type@ == "final"@),
            final(self).done == done,
            final(self).steps_taken == old(self).steps_taken,
            message_views(final(self).agent.history@) == history_after(
                message_views(old(self).agent.history@),
                raw@,
                action,
                final(self).observation@,
            ),
    {
        let (observation, done) = self.agent.on_reply(raw, action);
        self.observation = observation;
        self.done = done;
        done
    }

    /// The run's answer: the model's, or that it ran out of turns.
    pub fn final_answer(&self) -> (r: String)
        ensures
            r@ == if self.done { self.observation@ } else { out_of_steps_answer() },
    {
        if self.done {
            self.observation.clone()
        } else {
            out_of_steps_message()
        }
    }
}

} // verus!
