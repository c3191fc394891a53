//! The `/debug` workflow.

use crate::commands::skills::SkillSelection;
use crate::workflows::{TaskResult, TaskResultView};
use vstd::prelude::*;
use vstd::string::StringExecFns;

verus! {

/// The diagnosis that the workflow gives.
pub open spec fn diagnosis() -> TaskResultView {
    TaskResultView::DebugDiagnosis {
        root_cause: "Hypothetical Root Cause: Configuration mismatch"@,
        proposed_fix: "Update config.toml with correct port"@,
        confidence_percent: 85,
    }
}

/// Runs the `/debug` workflow on a request. It always comes to a
/// diagnosis, whatever the request and the skills.
pub fn execute(user_request: String, skills: &SkillSelection) -> (r: Result<TaskResult, String>)
    ensures
        r matches Ok(outcome) && outcome@ == diagnosis() && outcome.well_formed(),
{
    Ok(
        TaskResult::DebugDiagnosis {
            root_cause: String::from_str("Hypothetical Root Cause: Configuration mismatch"),
            proposed_fix: String::from_str("Update config.toml with correct port"),
            confidence_percent: 85,
        },
    )
}

} // verus!
