//! What a workflow comes to, and the strategies that run one.

use vstd::prelude::*;

pub mod debug;
pub mod plan;

verus! {

/// The outcome of one user message.
#[derive(Debug)]
pub enum TaskResult {
    /// The user has to review something before work goes on.
    RequiresReview { artifact: String, next_step: String },
    /// A diagnosis. The confidence is given in percent, from 0 to 100.
    DebugDiagnosis { root_cause: String, proposed_fix: String, confidence_percent: u8 },
    /// The work is done.
    Completed { summary: String },
}

/// An outcome as a mathematical value.
pub enum TaskResultView {
    RequiresReview { artifact: Seq<char>, next_step: Seq<char> },
    DebugDiagnosis { root_cause: Seq<char>, proposed_fix: Seq<char>, confidence_percent: u8 },
    Completed { summary: Seq<char> },
}

impl View for TaskResult {
    type V = TaskResultView;

    open spec fn view(&self) -> TaskResultView {
        match *self {
            TaskResult::RequiresReview { artifact, next_step } => TaskResultView::RequiresReview {
                artifact: artifact@,
                next_step: next_step@,
            },
            TaskResult::DebugDiagnosis {
                root_cause,
                proposed_fix,
                confidence_percent,
            } => TaskResultView::DebugDiagnosis {
                root_cause: root_cause@,
                proposed_fix: proposed_fix@,
                confidence_percent,
            },
            TaskResult::Completed { summary } => TaskResultView::Completed { summary: summary@ },
        }
    }
}

impl TaskResult {
    /// What holds of every outcome: a confidence is at most 100 percent.
    pub open spec fn well_formed(&self) -> bool {
        self matches TaskResult::DebugDiagnosis { confidence_percent, .. } ==> confidence_percent
            <= 100
    }
}

} // verus!
