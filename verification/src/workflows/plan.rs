//! The `/plan` workflow.

use crate::commands::skills::{SkillScore, SkillSelection};
use crate::workflows::{TaskResult, TaskResultView};
use vstd::prelude::*;
use vstd::string::StringExecFns;

verus! {

/// The names of `skills`, one bullet line each, separated by line feeds.
pub open spec fn skill_lines(skills: Seq<SkillScore>) -> Seq<char>
    decreases skills.len(),
{
    if skills.len() == 0 {
        Seq::empty()
    } else if skills.len() == 1 {
        "- "@ + skills[0].name@
    } else {
        skill_lines(skills.drop_last()) + "\n"@ + "- "@ + skills.last().name@
    }
}

/// The plan document for a request: title, goal, the changes still to be
/// worked out, and the skills that were used.
pub open spec fn plan_text(user_request: Seq<char>, skills: Seq<SkillScore>) -> Seq<char> {
    "# Implementation Plan: "@ + user_request + "\n\n## Goal\n"@ + user_request
        + "\n\n## Proposed Changes\n- [ ] TBD based on analysis\n\n## Skills Used\n"@ + skill_lines(
        skills,
    ) + "\n"@
}

/// The outcome of planning: a plan to be reviewed.
pub open spec fn plan_outcome() -> TaskResultView {
    TaskResultView::RequiresReview {
        artifact: "implementation_plan.md"@,
        next_step: "Review and approve the plan to proceed"@,
    }
}

fn lines_of(skills: &Vec<SkillScore>) -> (r: String)
    ensures
        r@ == skill_lines(skills@),
{
    let mut s = String::new();
    let mut i: usize = 0;
    while i < skills.len()
        invariant
            i <= skills.len(),
            s@ == skill_lines(skills@.take(i as int)),
        decreases skills.len() - i,
    {
        let ghost head = skills@.take(i as int);
        let ghost next = skills@.take(i + 1);
        assert(next.drop_last() == head);
        assert(next.last() == skills@[i as int]);
        if i > 0 {
            s.append("\n");
        }
        s.append("- ");
        s.append(skills[i].name.as_str());
        assert(s@ == skill_lines(next)) by {
            if i == 0 {
                assert(head.len() == 0);
                assert(s@ =~= "- "@ + skills@[0].name@);
            } else {
                assert(s@ =~= skill_lines(head) + "\n"@ + "- "@ + skills@[i as int].name@);
            }
        }
        i += 1;
    }
    assert(skills@.take(i as int) == skills@);
    s
}

/// Drafts the plan document for a request.
pub fn draft_plan(user_request: &str, skills: &SkillSelection) -> (r: String)
    ensures
        r@ == plan_text(user_request@, skills.skills@),
{
    let mut s = String::from_str("# Implementation Plan: ");
    s.append(user_request);
    s.append("\n\n## Goal\n");
    s.append(user_request);
    s.append("\n\n## Proposed Changes\n- [ ] TBD based on analysis\n\n## Skills Used\n");
    let lines = lines_of(&skills.skills);
    s.append(lines.as_str());
    s.append("\n");
    s
}

/// Runs the `/plan` workflow on a request. It always comes to a plan that
/// waits for review, whatever the request and the skills.
pub fn execute(user_request: String, skills: &SkillSelection) -> (r: Result<TaskResult, String>)
    ensures
        r matches Ok(outcome) && outcome@ == plan_outcome() && outcome.well_formed(),
{
    Ok(
        TaskResult::RequiresReview {
            artifact: String::from_str("implementation_plan.md"),
            next_step: String::from_str("Review and approve the plan to proceed"),
        },
    )
}

} // verus!
