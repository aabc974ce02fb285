//! A one-shot planner: the prompt that asks a model for a numbered plan,
//! and how a plan it returned is listed.

use vstd::prelude::*;
use crate::text::{chars_of, decimal, push_decimal, push_str, string_from, string_of_range};

verus! {

/// One step of a plan.
#[derive(Debug)]
pub struct Step {
    pub number: usize,
    pub description: String,
}

/// A plan: its steps in order.
#[derive(Debug)]
pub struct Plan {
    pub steps: Vec<Step>,
}

/// The planning prompt for `goal`.
pub open spec fn plan_prompt_text(goal: Seq<char>) -> Seq<char> {
    "You are an expert agent planner.\nBreak the GOAL into a clear, logical, numbered sequence of steps.\nConsider available tools, constraints, and possible uncertainties.\n\nGoal: "@
        + goal
        + "\n\nReturn **ONLY** valid JSON in this exact format (no extra text):\n{\n  \"steps\": [\n    {\"number\": 1, \"description\": \"First step description here\"},\n    {\"number\": 2, \"description\": \"Second step description here\"}\n  ]\n}"@
}

/// The prompt asking the model to plan towards `goal`.
pub fn plan_prompt(goal: &str) -> (p: String)
    ensures
        p@ == plan_prompt_text(goal@),
{
    let mut p = string_from(
        "You are an expert agent planner.\nBreak the GOAL into a clear, logical, numbered sequence of steps.\nConsider available tools, constraints, and possible uncertainties.\n\nGoal: ",
    );
    push_str(&mut p, goal);
    push_str(
        &mut p,
        "\n\nReturn **ONLY** valid JSON in this exact format (no extra text):\n{\n  \"steps\": [\n    {\"number\": 1, \"description\": \"First step description here\"},\n    {\"number\": 2, \"description\": \"Second step description here\"}\n  ]\n}",
    );
    p
}

/// A step as it is listed: `number. description`.
pub open spec fn step_line(number: nat, description: Seq<char>) -> Seq<char> {
    decimal(number) + ". "@ + description
}

impl Plan {
    /// The plan's steps as listed lines, in order.
    pub fn lines(&self) -> (v: Vec<String>)
        ensures
            v@.len() == self.steps@.len(),
            forall|i: int| 0 <= i < v@.len() ==> #[trigger] v@[i]@ == step_line(
                self.steps@[i].number as nat,
                self.steps@[i].description@,
            ),
    {
        let mut v: Vec<String> = Vec::new();
        let mut i: usize = 0;
        while i < self.steps.len()
            invariant
                i <= self.steps@.len(),
                v@.len() == i,
                forall|k: int| 0 <= k < i ==> #[trigger] v@[k]@ == step_line(
                    self.steps@[k].number as nat,
                    self.steps@[k].description@,
                ),
            decreases self.steps@.len() - i,
        {
            let mut line = String::new();
            push_decimal(&mut line, self.steps[i].number);
            push_str(&mut line, ". ");
            push_str(&mut line, self.steps[i].description.as_str());
            v.push(line);
            i = i + 1;
        }
        v
    }
}

/// Unicode white space (the `White_Space` property, which
/// `char::is_whitespace` and `str::trim` go by): tab to carriage return,
/// space, next line, no-break space, ogham space mark, the spaces from en
/// quad to hair space, line and paragraph separators, narrow no-break
/// space, medium mathematical space and ideographic space.
pub open spec fn is_white_space(c: char) -> bool {
    let u = c as u32;
    ||| 0x9 <= u <= 0xD
    ||| u == 0x20
    ||| u == 0x85
    ||| u == 0xA0
    ||| u == 0x1680
    ||| 0x2000 <= u <= 0x200A
    ||| u == 0x2028
    ||| u == 0x2029
    ||| u == 0x202F
    ||| u == 0x205F
    ||| u == 0x3000
}

/// Whether `c` is Unicode white space.
pub fn is_white_space_char(c: char) -> (b: bool)
    ensures
        b == is_white_space(c),
{
    let u = c as u32;
    (0x9 <= u && u <= 0xD) || u == 0x20 || u == 0x85 || u == 0xA0 || u == 0x1680 || (0x2000 <= u
        && u <= 0x200A) || u == 0x2028 || u == 0x2029 || u == 0x202F || u == 0x205F || u == 0x3000
}

/// `s` without its leading white space.
pub open spec fn trim_start(s: Seq<char>) -> Seq<char>
    decreases s.len(),
{
    if s.len() > 0 && is_white_space(s[0]) {
        trim_start(s.drop_first())
    } else {
        s
    }
}

/// `s` without its trailing white space.
pub open spec fn trim_end(s: Seq<char>) -> Seq<char>
    decreases s.len(),
{
    if s.len() > 0 && is_white_space(s.last()) {
        trim_end(s.drop_last())
    } else {
        s
    }
}

/// `s` without its leading and trailing white space (what `str::trim`
/// gives).
pub open spec fn trimmed(s: Seq<char>) -> Seq<char> {
    trim_end(trim_start(s))
}

proof fn lemma_trim_start_skip(s: Seq<char>, i: int)
    requires
        0 <= i <= s.len(),
        forall|k: int| 0 <= k < i ==> is_white_space(s[k]),
    ensures
        trim_start(s) == trim_start(s.skip(i)),
    decreases i,
{
    if i > 0 {
        lemma_trim_start_skip(s.drop_first(), i - 1);
        assert(s.drop_first().skip(i - 1) =~= s.skip(i));
    } else {
        assert(s.skip(0) =~= s);
    }
}

proof fn lemma_trim_end_take(s: Seq<char>, j: int)
    requires
        0 <= j <= s.len(),
        forall|k: int| j <= k < s.len() ==> is_white_space(s[k]),
    ensures
        trim_end(s) == trim_end(s.take(j)),
    decreases s.len() - j,
{
    if j < s.len() {
        lemma_trim_end_take(s.drop_last(), j);
        assert(s.drop_last().take(j) =~= s.take(j));
    } else {
        assert(s.take(j) =~= s);
    }
}

/// The part of a model reply that is read as a plan: the reply without its
/// surrounding white space (`str::trim`).
pub fn reply_body(content: &str) -> (r: String)
    ensures
        r@ == trimmed(content@),
{
    let v = chars_of(content);
    let mut i: usize = 0;
    while i < v.len() && is_white_space_char(v[i])
        invariant
            i <= v@.len(),
            forall|k: int| 0 <= k < i ==> is_white_space(v@[k]),
        decreases v@.len() - i,
    {
        i = i + 1;
    }
    let mut j: usize = v.len();
    while j > i && is_white_space_char(v[j - 1])
        invariant
            i <= j <= v@.len(),
            forall|k: int| j <= k < v@.len() ==> is_white_space(v@[k]),
        decreases j,
    {
        j = j - 1;
    }
    proof {
        let s = content@;
        lemma_trim_start_skip(s, i as int);
        assert(trim_start(s.skip(i as int)) == s.skip(i as int));
        let t = s.skip(i as int);
        lemma_trim_end_take(t, j - i);
        assert(t.take(j - i) =~= s.subrange(i as int, j as int));
        assert(trim_end(t.take(j - i)) == t.take(j - i));
    }
    string_of_range(&v, i, j)
}

/// The error for a reply that is not a plan: why, and what came back.
pub fn plan_parse_error(reason: &str, raw: &str) -> (m: String)
    ensures
        m@ == "Failed to parse plan JSON: "@ + reason@ + ". Raw output: "@ + raw@,
{
    let mut m = string_from("Failed to parse plan JSON: ");
    push_str(&mut m, reason);
    push_str(&mut m, ". Raw output: ");
    push_str(&mut m, raw);
    m
}

} // verus!
