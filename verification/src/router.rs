//! Agent routing: which kind of agent a conversation needs next.
//!
//! The decision looks at the most recent comment only. A comment that asks
//! for a change of direction goes to the planner whatever else is known; a
//! conversation without a plan goes to the planner too; everything else goes
//! to the executor. The phrases that signal a change of direction form a
//! table, so the policy can be extended without touching the decision.

use crate::text::{chars_of, contains_chars, contains_text};
use crate::tracker::Comment;
use vstd::prelude::*;

verus! {

/// The two kinds of agent session.
#[derive(Clone, Copy, Debug, PartialEq, Eq, Structural)]
pub enum Agent {
    /// Architectural reasoning: writes or rewrites the plan.
    Planner,
    /// Fast iteration on an existing plan.
    Executor,
}

/// The lowercase form that `str::to_lowercase` gives to `text`.
pub uninterp spec fn lowercase_of(text: Seq<char>) -> Seq<char>;

/// Calls `str::to_lowercase`, whose result depends on the text alone and
/// follows the Unicode lowercase mapping; the contract only names that result.
#[verifier::external_body]
fn to_lowercase(text: &str) -> (folded: String)
    ensures
        folded@ == lowercase_of(text@),
{
    text.to_lowercase()
}

/// The phrases that signal a wish to change direction, in lower case.
pub open spec fn replanning_phrases() -> Seq<Seq<char>> {
    seq![
        "different approach"@,
        "rethink"@,
        "redesign"@,
        "change architecture"@,
        "breaking change"@,
        "major refactor"@,
        "let's try"@,
        "instead of"@,
        "better way"@,
    ]
}

/// `folded_body` holds at least one of the replanning phrases.
pub open spec fn wants_replanning(folded_body: Seq<char>) -> bool {
    exists|k: int|
        0 <= k < replanning_phrases().len() && contains_text(
            folded_body,
            #[trigger] replanning_phrases()[k],
        )
}

/// The agent for a conversation whose latest comment, in lower case, is
/// `folded_body`: a replanning phrase beats the plan, and a missing plan
/// beats the default.
pub open spec fn agent_for(folded_body: Seq<char>, has_plan: bool) -> Agent {
    if wants_replanning(folded_body) {
        Agent::Planner
    } else if !has_plan {
        Agent::Planner
    } else {
        Agent::Executor
    }
}

/// The agent for a conversation with the given new comments, oldest first.
pub open spec fn decision(comments: Seq<Comment>, has_plan: bool) -> Agent {
    if comments.len() == 0 {
        Agent::Executor
    } else {
        agent_for(lowercase_of(comments.last().body@), has_plan)
    }
}

/// The table of replanning phrases.
pub fn replanning_keywords() -> (table: Vec<&'static str>)
    ensures
        table@.len() == replanning_phrases().len(),
        forall|k: int| 0 <= k < table@.len() ==> (#[trigger] table@[k])@ == replanning_phrases()[k],
{
    let table = vec![
        "different approach",
        "rethink",
        "redesign",
        "change architecture",
        "breaking change",
        "major refactor",
        "let's try",
        "instead of",
        "better way",
    ];
    table
}

/// Whether a comment body, already in lower case, asks for a change of direction.
pub fn mentions_replanning(folded_body: &str) -> (asked: bool)
    ensures
        asked == wants_replanning(folded_body@),
{
    let body = chars_of(folded_body);
    let table = replanning_keywords();
    let mut k: usize = 0;
    while k < table.len()
        invariant
            k <= table@.len(),
            body@ == folded_body@,
            table@.len() == replanning_phrases().len(),
            forall|j: int|
                0 <= j < table@.len() ==> (#[trigger] table@[j])@ == replanning_phrases()[j],
            forall|j: int|
                0 <= j < k ==> !contains_text(folded_body@, #[trigger] replanning_phrases()[j]),
        decreases table@.len() - k,
    {
        let phrase = chars_of(table[k]);
        if contains_chars(&body, &phrase) {
            return true;
        }
        k += 1;
    }
    false
}

/// Routes a conversation by its latest comment, given in lower case.
///
/// A replanning phrase sends it to the planner whether or not a plan exists;
/// without such a phrase a missing plan sends it to the planner; otherwise it
/// goes to the executor.
pub fn route(folded_body: &str, has_plan: bool) -> (agent: Agent)
    ensures
        agent == agent_for(folded_body@, has_plan),
{
    if mentions_replanning(folded_body) {
        Agent::Planner
    } else if !has_plan {
        Agent::Planner
    } else {
        Agent::Executor
    }
}

/// Decides which agent to spawn for the new comments of a conversation,
/// oldest first. Without comments there is nothing to react to and the
/// executor is the default; otherwise the latest comment, folded to lower
/// case, is routed by `route`.
pub fn decide(comments: &[Comment], has_plan: bool) -> (agent: Agent)
    ensures
        agent == decision(comments@, has_plan),
{
    if comments.len() == 0 {
        return Agent::Executor;
    }
    let latest = &comments[comments.len() - 1];
    let folded = to_lowercase(latest.body.as_str());
    route(folded.as_str(), has_plan)
}

/// Precedence is fixed and total: a replanning phrase decides for the planner
/// whatever the plan status, a missing plan decides for the planner whatever
/// the comment says, and the executor is chosen only when a plan exists and
/// no phrase occurs.
pub proof fn lemma_routing_precedence(folded_body: Seq<char>, has_plan: bool)
    ensures
        wants_replanning(folded_body) ==> agent_for(folded_body, has_plan) == Agent::Planner,
        !has_plan ==> agent_for(folded_body, has_plan) == Agent::Planner,
        agent_for(folded_body, has_plan) == Agent::Executor <==> has_plan && !wants_replanning(
            folded_body,
        ),
{
}

} // verus!
