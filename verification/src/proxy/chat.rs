//! The chat channel: what client and server say to each other, and the
//! staged handling of one message.
//!
//! A user message runs through a fixed sequence: the workflow is read from
//! its text and checked against the session's standing; skills are ranked;
//! the selection is adjusted and announced; skill content is loaded; the
//! workflow runs and its outcome is the reply. Ranking, loading and the
//! store are the caller's part. Each function here takes what the caller
//! brought back and says what to send and what to do next, so the order of
//! the stages is fixed by the types: a stage can only be resumed with the
//! value that the stage before it handed out.

use crate::commands::skills::{
    SkillScore,
    SkillScoreView,
    SkillSelection,
    SkillSelectionView,
    DEFAULT_MAX_BYTES,
    DEFAULT_MAX_SKILLS,
    check_selection,
    limits_fault_text,
    skill_views,
};
use crate::commands::workflows::{
    WidgetRegistry,
    WorkflowCommand,
    WIDGET_MAX_SKILLS,
    at_most,
    denial_text,
    description_text,
    get_widget_allowed_skills,
    is_allowed_skill,
    is_widget_mode,
    lists_skill,
    parse_workflow_command,
    parsed_command,
    persona_text,
    validate_widget_workflow,
    widget_allowed_skills,
    widget_allowed_workflows,
    workflow_permitted,
};
use crate::modules::chat_db::{ChatMessage, ChatSession, ChatSessionView};
use crate::utils::ambient::unix_time;
use crate::utils::text::{decimal, decimal_text, lowercase_text, optional_text, texts, trim_start};
use crate::workflows::debug::diagnosis;
use crate::workflows::plan::plan_outcome;
use crate::workflows::{TaskResult, TaskResultView};
use vstd::prelude::*;
use vstd::string::StringExecFns;

verus! {

/// What a client sends.
#[derive(Debug)]
pub enum ClientMessage {
    CreateSession { title: String, repo: String, branch: Option<String> },
    ListSessions,
    LoadSession { session_id: String },
    UserMessage { session_id: String, content: String },
}

/// A session as the client is told of it.
#[derive(Debug)]
pub struct TaskSessionResponse {
    pub id: String,
    pub title: String,
    pub repo_name: String,
    pub branch_name: Option<String>,
    pub status: String,
    pub created_at: i64,
}

/// A message as the client is told of it.
#[derive(Debug)]
pub struct TaskMessageResponse {
    pub id: i64,
    pub role: String,
    pub content: String,
    pub created_at: i64,
}

/// A selected skill as the client is told of it.
#[derive(Debug)]
pub struct SkillSummary {
    pub id: String,
    pub name: String,
    /// The relevance score, a double carried as its IEEE 754 bit pattern.
    pub score_bits: u64,
}

/// What the server sends.
#[derive(Debug)]
#[allow(inconsistent_fields)]
pub enum ServerMessage {
    SessionList { sessions: Vec<TaskSessionResponse> },
    SessionLoaded { session: TaskSessionResponse, messages: Vec<TaskMessageResponse> },
    MessageAppended { session_id: String, message: TaskMessageResponse },
    /// The skills that were selected for a request.
    SkillsSelected {
        session_id: String,
        persona: String,
        category: String,
        skills: Vec<SkillSummary>,
        total_bytes: usize,
    },
    /// Where the handling of a request stands.
    TaskStatus { session_id: String, status: String, details: String },
    Error { message: String },
}

/// The content of one skill.
#[derive(Debug)]
pub struct SkillContent {
    pub id: String,
    pub content: String,
}

pub enum ClientMessageView {
    CreateSession { title: Seq<char>, repo: Seq<char>, branch: Option<Seq<char>> },
    ListSessions,
    LoadSession { session_id: Seq<char> },
    UserMessage { session_id: Seq<char>, content: Seq<char> },
}

pub struct TaskMessageView {
    pub id: i64,
    pub role: Seq<char>,
    pub content: Seq<char>,
    pub created_at: i64,
}

pub struct SkillSummaryView {
    pub id: Seq<char>,
    pub name: Seq<char>,
    pub score_bits: u64,
}

#[allow(inconsistent_fields)]
pub enum ServerMessageView {
    SessionList { sessions: Seq<ChatSessionView> },
    SessionLoaded { session: ChatSessionView, messages: Seq<TaskMessageView> },
    MessageAppended { session_id: Seq<char>, message: TaskMessageView },
    SkillsSelected {
        session_id: Seq<char>,
        persona: Seq<char>,
        category: Seq<char>,
        skills: Seq<SkillSummaryView>,
        total_bytes: usize,
    },
    TaskStatus { session_id: Seq<char>, status: Seq<char>, details: Seq<char> },
    Error { message: Seq<char> },
}

impl View for ClientMessage {
    type V = ClientMessageView;

    open spec fn view(&self) -> ClientMessageView {
        match *self {
            ClientMessage::CreateSession { title, repo, branch } => ClientMessageView::CreateSession {
                title: title@,
                repo: repo@,
                branch: optional_text(branch),
            },
            ClientMessage::ListSessions => ClientMessageView::ListSessions,
            ClientMessage::LoadSession { session_id } => ClientMessageView::LoadSession {
                session_id: session_id@,
            },
            ClientMessage::UserMessage { session_id, content } => ClientMessageView::UserMessage {
                session_id: session_id@,
                content: content@,
            },
        }
    }
}

impl View for TaskSessionResponse {
    type V = ChatSessionView;

    open spec fn view(&self) -> ChatSessionView {
        ChatSessionView {
            id: self.id@,
            title: self.title@,
            repo_name: self.repo_name@,
            branch_name: optional_text(self.branch_name),
            status: self.status@,
            created_at: self.created_at,
        }
    }
}

impl View for TaskMessageResponse {
    type V = TaskMessageView;

    open spec fn view(&self) -> TaskMessageView {
        TaskMessageView {
            id: self.id,
            role: self.role@,
            content: self.content@,
            created_at: self.created_at,
        }
    }
}

impl View for SkillSummary {
    type V = SkillSummaryView;

    open spec fn view(&self) -> SkillSummaryView {
        SkillSummaryView { id: self.id@, name: self.name@, score_bits: self.score_bits }
    }
}

impl View for ServerMessage {
    type V = ServerMessageView;

    open spec fn view(&self) -> ServerMessageView {
        match *self {
            ServerMessage::SessionList { sessions } => ServerMessageView::SessionList {
                sessions: sessions@.map_values(|s: TaskSessionResponse| s@),
            },
            ServerMessage::SessionLoaded { session, messages } => ServerMessageView::SessionLoaded {
                session: session@,
                messages: messages@.map_values(|m: TaskMessageResponse| m@),
            },
            ServerMessage::MessageAppended {
                session_id,
                message,
            } => ServerMessageView::MessageAppended { session_id: session_id@, message: message@ },
            ServerMessage::SkillsSelected {
                session_id,
                persona,
                category,
                skills,
                total_bytes,
            } => ServerMessageView::SkillsSelected {
                session_id: session_id@,
                persona: persona@,
                category: category@,
                skills: skills@.map_values(|s: SkillSummary| s@),
                total_bytes,
            },
            ServerMessage::TaskStatus {
                session_id,
                status,
                details,
            } => ServerMessageView::TaskStatus {
                session_id: session_id@,
                status: status@,
                details: details@,
            },
            ServerMessage::Error { message } => ServerMessageView::Error { message: message@ },
        }
    }
}

/// A user message whose skills are being ranked.
#[derive(Debug)]
pub struct SelectionPending {
    pub session_id: String,
    pub content: String,
    pub workflow: Option<WorkflowCommand>,
    /// The most skills that the ranking was asked for.
    pub max_skills: usize,
    /// The most bytes that the ranking was asked for.
    pub max_bytes: usize,
}

/// A user message whose skill content is being loaded.
#[derive(Debug)]
pub struct ContentPending {
    pub session_id: String,
    pub content: String,
    pub workflow: Option<WorkflowCommand>,
    pub selection: SkillSelection,
}

/// What is to be done for a message that has just come in.
#[derive(Debug)]
pub enum Started {
    /// Nothing but to send this reply.
    Reply(ServerMessage),
    /// Store a new session, then go on with `session_created`.
    CreateSession { title: String, repo: String, branch: Option<String> },
    /// Read all sessions, then go on with `sessions_listed`.
    ListSessions,
    /// Read a session and its messages, then go on with `session_loaded`.
    LoadSession { session_id: String },
    /// Send `status`, rank skills for `query` within the two limits, then
    /// resume `pending` with the answer.
    SelectSkills {
        status: ServerMessage,
        query: String,
        max_skills: usize,
        max_bytes: usize,
        pending: SelectionPending,
    },
}

/// What is to be done once the ranking has answered.
#[derive(Debug)]
pub enum Selected {
    /// Nothing but to send this reply.
    Reply(ServerMessage),
    /// Send `notice`, then `status`, load the content of `skill_ids`, then
    /// resume `pending` with it.
    LoadContent {
        notice: ServerMessage,
        status: ServerMessage,
        skill_ids: Vec<String>,
        pending: ContentPending,
    },
}

/// The end of a user message: send `status`, then `reply`. `contents` is
/// the content the workflow ran with.
#[derive(Debug)]
pub struct Finished {
    pub status: ServerMessage,
    pub reply: ServerMessage,
    pub contents: Vec<SkillContent>,
}

/// What a connection has read.
#[derive(Debug)]
pub enum Frame {
    /// A text frame, and the message in it or why it holds none.
    Text(Result<ClientMessage, String>),
    /// The client closes the connection.
    Close,
    /// Any other frame.
    Other,
    /// Reading failed.
    Failed,
}

/// What a connection does with what it has read.
#[derive(Debug)]
pub enum FrameStep {
    /// Handle the message and send what comes of it.
    Handle(ClientMessage),
    /// Send this reply and read on.
    Reply(ServerMessage),
    /// Read on.
    Skip,
    /// End the connection.
    Stop,
}

/// A status notice.
pub open spec fn status_view(session_id: Seq<char>, status: Seq<char>, details: Seq<char>) -> ServerMessageView {
    ServerMessageView::TaskStatus { session_id, status, details }
}

/// The notice that skills are being ranked.
pub open spec fn selecting_status(session_id: Seq<char>) -> ServerMessageView {
    status_view(
        session_id,
        "selecting_skills"@,
        "Analyzing request and selecting relevant skills..."@,
    )
}

/// The notice that skill content is being loaded.
pub open spec fn loading_status(session_id: Seq<char>) -> ServerMessageView {
    status_view(session_id, "loading_skills"@, "Loading selected skill content..."@)
}

/// How a workflow is called in a status notice.
pub open spec fn workflow_label(workflow: Option<WorkflowCommand>) -> Seq<char> {
    match workflow {
        Some(cmd) => description_text(cmd),
        None => "standard"@,
    }
}

/// The notice that the workflow runs.
pub open spec fn processing_status(
    session_id: Seq<char>,
    workflow: Option<WorkflowCommand>,
    persona: Seq<char>,
) -> ServerMessageView {
    status_view(
        session_id,
        "processing"@,
        "Executing "@ + workflow_label(workflow) + " workflow as "@ + persona + "..."@,
    )
}

/// The skills that a widget session keeps of a ranking: those on the
/// allowlist, in their order, and no more than `WIDGET_MAX_SKILLS`.
pub open spec fn widget_skills(skills: Seq<SkillScoreView>) -> Seq<SkillScoreView> {
    at_most(
        skills.filter(|s: SkillScoreView| is_allowed_skill(s.id)),
        WIDGET_MAX_SKILLS as nat,
    )
}

/// The selection that a request works with: a workflow forces its persona
/// on the ranking's answer, and a widget session keeps only its skills.
pub open spec fn adjusted_selection(
    selection: SkillSelectionView,
    workflow: Option<WorkflowCommand>,
    constrained: bool,
) -> SkillSelectionView {
    SkillSelectionView {
        persona: match workflow {
            Some(cmd) => persona_text(cmd),
            None => selection.persona,
        },
        category: selection.category,
        skills: if constrained {
            widget_skills(selection.skills)
        } else {
            selection.skills
        },
        total_bytes: selection.total_bytes,
        limits: selection.limits,
    }
}

/// What the client is told of a skill.
pub open spec fn summary_of(skill: SkillScoreView) -> SkillSummaryView {
    SkillSummaryView { id: skill.id, name: skill.name, score_bits: skill.score_bits }
}

/// The notice of the skills that a request works with.
pub open spec fn skills_notice(session_id: Seq<char>, selection: SkillSelectionView) -> ServerMessageView {
    ServerMessageView::SkillsSelected {
        session_id,
        persona: selection.persona,
        category: selection.category,
        skills: selection.skills.map_values(|s: SkillScoreView| summary_of(s)),
        total_bytes: selection.total_bytes,
    }
}

/// The ids of `skills`, in order.
pub open spec fn skill_ids_of(skills: Seq<SkillScoreView>) -> Seq<Seq<char>> {
    skills.map_values(|s: SkillScoreView| s.id)
}

/// The summary of a request that ran no workflow of its own.
pub open spec fn standard_summary(persona: Seq<char>, skills: nat) -> Seq<char> {
    "Standard response (Persona: "@ + persona + "). Skills: "@ + decimal_text(skills)
}

/// The outcome of a request: planning and debugging have their own, every
/// other request is completed with the standard summary.
pub open spec fn outcome_of(
    workflow: Option<WorkflowCommand>,
    persona: Seq<char>,
    skills: nat,
) -> TaskResultView {
    match workflow {
        Some(WorkflowCommand::Plan) => plan_outcome(),
        Some(WorkflowCommand::Debug) => diagnosis(),
        _ => TaskResultView::Completed { summary: standard_summary(persona, skills) },
    }
}

/// An outcome as the text of a message; `content` is what the user wrote.
pub open spec fn rendered(outcome: TaskResultView, content: Seq<char>) -> Seq<char> {
    match outcome {
        TaskResultView::RequiresReview { artifact, next_step } => "📝 **Plan Created:** `"@
            + artifact + "`\n\n👉 **Next Step:** "@ + next_step
            + "\n\n_Review the artifact to proceed._"@,
        TaskResultView::DebugDiagnosis {
            root_cause,
            proposed_fix,
            confidence_percent,
        } => "🔍 **Diagnosis:** "@ + root_cause + "\n\n🛠️ **Proposed Fix:** "@ + proposed_fix
            + "\n\n✅ **Confidence:** "@ + decimal_text(confidence_percent as nat) + "%"@,
        TaskResultView::Completed { summary } => "✅ **Done:** "@ + summary
            + "\n\n_Your message: "@ + content + "_"@,
    }
}

/// The reply that ends a request: the outcome as a message of the
/// assistant, numbered and dated by the time `now`.
pub open spec fn outcome_reply(
    session_id: Seq<char>,
    outcome: TaskResultView,
    content: Seq<char>,
    now: i64,
) -> ServerMessageView {
    ServerMessageView::MessageAppended {
        session_id,
        message: TaskMessageView {
            id: now,
            role: "assistant"@,
            content: rendered(outcome, content),
            created_at: now,
        },
    }
}

/// The reply that a request ends with at the time `now`.
pub open spec fn final_reply(
    session_id: Seq<char>,
    content: Seq<char>,
    workflow: Option<WorkflowCommand>,
    selection: SkillSelectionView,
    now: i64,
) -> ServerMessageView {
    outcome_reply(
        session_id,
        outcome_of(workflow, selection.persona, selection.skills.len()),
        content,
        now,
    )
}

/// What the client is told of a stored message.
pub open spec fn message_view(m: ChatMessage) -> TaskMessageView {
    TaskMessageView { id: m.id, role: m.role@, content: m.content@, created_at: m.created_at }
}

fn status_message(session_id: &str, status: &str, details: String) -> (r: ServerMessage)
    ensures
        r@ == status_view(session_id@, status@, details@),
{
    ServerMessage::TaskStatus {
        session_id: String::from_str(session_id),
        status: String::from_str(status),
        details,
    }
}

/// Takes in a message of the client and says what is to be done for it.
///
/// A user message has its workflow read and checked first: a widget
/// session that asks for a workflow it may not run gets the denial and
/// nothing else. Every other user message goes on to the ranking, with
/// the default limits. The other messages go to the store.
pub fn handle_client_message(msg: ClientMessage, registry: &WidgetRegistry) -> (r: Started)
    ensures
        match msg@ {
            ClientMessageView::CreateSession { title, repo, branch } => r matches Started::CreateSession {
                title: t,
                repo: p,
                branch: b,
            } && t@ == title && p@ == repo && optional_text(b) == branch,
            ClientMessageView::ListSessions => r is ListSessions,
            ClientMessageView::LoadSession { session_id } => r matches Started::LoadSession {
                session_id: s,
            } && s@ == session_id,
            ClientMessageView::UserMessage { session_id, content } => if workflow_permitted(
                registry@.contains(session_id),
                parsed_command(content),
            ) {
                r matches Started::SelectSkills { status, query, max_skills, max_bytes, pending }
                    && status@ == selecting_status(session_id) && query@ == content && max_skills
                    == DEFAULT_MAX_SKILLS && max_bytes == DEFAULT_MAX_BYTES && pending.session_id@
                    == session_id && pending.content@ == content && pending.workflow
                    == parsed_command(content) && pending.max_skills == DEFAULT_MAX_SKILLS
                    && pending.max_bytes == DEFAULT_MAX_BYTES
            } else {
                r matches Started::Reply(reply) && reply@ == (ServerMessageView::Error {
                    message: denial_text(),
                })
            },
        },
{
    match msg {
        ClientMessage::CreateSession { title, repo, branch } => Started::CreateSession {
            title,
            repo,
            branch,
        },
        ClientMessage::ListSessions => Started::ListSessions,
        ClientMessage::LoadSession { session_id } => Started::LoadSession { session_id },
        ClientMessage::UserMessage { session_id, content } => {
            let workflow = parse_workflow_command(content.as_str());
            match validate_widget_workflow(registry, session_id.as_str(), &workflow) {
                Err(message) => Started::Reply(ServerMessage::Error { message }),
                Ok(_) => {
                    let status = status_message(
                        session_id.as_str(),
                        "selecting_skills",
                        String::from_str("Analyzing request and selecting relevant skills..."),
                    );
                    let query = content.clone();
                    Started::SelectSkills {
                        status,
                        query,
                        max_skills: DEFAULT_MAX_SKILLS,
                        max_bytes: DEFAULT_MAX_BYTES,
                        pending: SelectionPending {
                            session_id,
                            content,
                            workflow,
                            max_skills: DEFAULT_MAX_SKILLS,
                            max_bytes: DEFAULT_MAX_BYTES,
                        },
                    }
                },
            }
        },
    }
}

/// The skills of a ranking that a widget session keeps.
pub fn retain_widget_skills(skills: &Vec<SkillScore>) -> (r: Vec<SkillScore>)
    ensures
        skill_views(r@) == widget_skills(skill_views(skills@)),
{
    let allowed = get_widget_allowed_skills();
    let ghost all = skill_views(skills@);
    let ghost pred = |s: SkillScoreView| is_allowed_skill(s.id);
    let mut kept: Vec<SkillScore> = Vec::new();
    let mut i: usize = 0;
    proof {
        reveal(Seq::filter);
        assert(all.take(0).filter(pred) =~= Seq::<SkillScoreView>::empty());
        assert(skill_views(kept@) =~= Seq::<SkillScoreView>::empty());
    }
    while i < skills.len()
        invariant
            i <= skills.len(),
            all == skill_views(skills@),
            pred == (|s: SkillScoreView| is_allowed_skill(s.id)),
            texts(allowed@) == widget_allowed_skills(),
            skill_views(kept@) == at_most(all.take(i as int).filter(pred), WIDGET_MAX_SKILLS as nat),
        decreases skills.len() - i,
    {
        let ghost head = all.take(i as int);
        let ghost next = all.take(i + 1);
        proof {
            reveal(Seq::filter);
            assert(next.drop_last() == head);
            assert(next.last() == skills@[i as int]@);
        }
        if lists_skill(&allowed, skills[i].id.as_str()) && kept.len() < WIDGET_MAX_SKILLS {
            let ghost before = kept@;
            kept.push(skills[i].duplicate());
            assert(skill_views(kept@) =~= skill_views(before).push(skills@[i as int]@));
            assert(skill_views(kept@) =~= at_most(next.filter(pred), WIDGET_MAX_SKILLS as nat));
        } else {
            assert(skill_views(kept@) =~= at_most(next.filter(pred), WIDGET_MAX_SKILLS as nat));
        }
        i += 1;
    }
    assert(all.take(i as int) == all);
    kept
}

/// What the client is told of each of `skills`.
pub fn summaries(skills: &Vec<SkillScore>) -> (r: Vec<SkillSummary>)
    ensures
        r@.map_values(|s: SkillSummary| s@) == skill_views(skills@).map_values(
            |s: SkillScoreView| summary_of(s),
        ),
{
    let mut out: Vec<SkillSummary> = Vec::new();
    let mut i: usize = 0;
    while i < skills.len()
        invariant
            i <= skills.len(),
            out@.len() == i,
            forall|j: int| 0 <= j < i ==> (#[trigger] out@[j])@ == summary_of(skills@[j]@),
        decreases skills.len() - i,
    {
        out.push(
            SkillSummary {
                id: skills[i].id.clone(),
                name: skills[i].name.clone(),
                score_bits: skills[i].score_bits,
            },
        );
        i += 1;
    }
    assert(out@.map_values(|s: SkillSummary| s@) =~= skill_views(skills@).map_values(
        |s: SkillScoreView| summary_of(s),
    ));
    out
}

/// The ids of `skills`, in order.
pub fn ids_of(skills: &Vec<SkillScore>) -> (r: Vec<String>)
    ensures
        texts(r@) == skill_ids_of(skill_views(skills@)),
{
    let mut out: Vec<String> = Vec::new();
    let mut i: usize = 0;
    while i < skills.len()
        invariant
            i <= skills.len(),
            out@.len() == i,
            forall|j: int| 0 <= j < i ==> (#[trigger] out@[j])@ == skills@[j].id@,
        decreases skills.len() - i,
    {
        out.push(skills[i].id.clone());
        i += 1;
    }
    assert(texts(out@) =~= skill_ids_of(skill_views(skills@)));
    out
}

/// Why the answer of a ranking cannot be worked with, if it cannot: the
/// ranking failed, or its selection is no fit answer to a request with
/// the given limits.
pub open spec fn selection_fault(
    answer: Result<SkillSelection, String>,
    max_skills: usize,
    max_bytes: usize,
) -> Option<Seq<char>> {
    match answer {
        Err(e) => Some(e@),
        Ok(selection) => if selection@.answers(max_skills, max_bytes) {
            None
        } else {
            Some(limits_fault_text())
        },
    }
}

/// Adjusting a selection takes nothing from its fitness: it is still well
/// formed and within the limits that were asked for.
pub proof fn lemma_adjusted_answers(
    selection: SkillSelectionView,
    workflow: Option<WorkflowCommand>,
    constrained: bool,
    max_skills: usize,
    max_bytes: usize,
)
    requires
        selection.answers(max_skills, max_bytes),
    ensures
        adjusted_selection(selection, workflow, constrained).answers(max_skills, max_bytes),
        adjusted_selection(selection, workflow, constrained).limits == selection.limits,
        adjusted_selection(selection, workflow, constrained).skills.len() <= selection.skills.len(),
{
    selection.skills.lemma_filter_len(|s: SkillScoreView| is_allowed_skill(s.id));
}

impl SelectionPending {
    /// Goes on with the answer of the ranking.
    ///
    /// A failed ranking ends the request with an error, and so does a
    /// selection that is not well formed or exceeds the limits that were
    /// asked for. Otherwise the workflow, if there is one, forces its
    /// persona, whatever the ranking proposed; a widget session keeps only
    /// its allowed skills; and the selection so adjusted is announced and
    /// is what content is loaded for. Whether the session is a widget is
    /// asked of the registry as it stands now.
    pub fn resume(self, answer: Result<SkillSelection, String>, registry: &WidgetRegistry) -> (r:
        Selected)
        ensures
            match selection_fault(answer, self.max_skills, self.max_bytes) {
                Some(fault) => r matches Selected::Reply(reply) && reply@
                    == (ServerMessageView::Error { message: "Skill selection failed: "@ + fault }),
                None => {
                    let adjusted = adjusted_selection(
                        answer->Ok_0@,
                        self.workflow,
                        registry@.contains(self.session_id@),
                    );
                    r matches Selected::LoadContent { notice, status, skill_ids, pending }
                        && notice@ == skills_notice(self.session_id@, adjusted) && status@
                        == loading_status(self.session_id@) && texts(skill_ids@) == skill_ids_of(
                        adjusted.skills,
                    ) && pending.session_id@ == self.session_id@ && pending.content@
                        == self.content@ && pending.workflow == self.workflow && pending.selection@
                        == adjusted && pending.selection@.answers(self.max_skills, self.max_bytes)
                },
            },
    {
        let checked = match answer {
            Err(e) => Err(e),
            Ok(selection) => check_selection(selection, self.max_skills, self.max_bytes),
        };
        match checked {
            Err(fault) => {
                let mut message = String::from_str("Skill selection failed: ");
                message.append(fault.as_str());
                Selected::Reply(ServerMessage::Error { message })
            },
            Ok(selection) => {
                proof {
                    lemma_adjusted_answers(
                        selection@,
                        self.workflow,
                        registry@.contains(self.session_id@),
                        self.max_skills,
                        self.max_bytes,
                    );
                }
                let mut selection = selection;
                match self.workflow {
                    Some(cmd) => {
                        selection.persona = String::from_str(cmd.get_persona());
                    },
                    None => {},
                }
                if is_widget_mode(registry, self.session_id.as_str()) {
                    let kept = retain_widget_skills(&selection.skills);
                    selection.skills = kept;
                }
                let notice = ServerMessage::SkillsSelected {
                    session_id: self.session_id.clone(),
                    persona: selection.persona.clone(),
                    category: selection.category.clone(),
                    skills: summaries(&selection.skills),
                    total_bytes: selection.total_bytes,
                };
                let status = status_message(
                    self.session_id.as_str(),
                    "loading_skills",
                    String::from_str("Loading selected skill content..."),
                );
                let skill_ids = ids_of(&selection.skills);
                Selected::LoadContent {
                    notice,
                    status,
                    skill_ids,
                    pending: ContentPending {
                        session_id: self.session_id,
                        content: self.content,
                        workflow: self.workflow,
                        selection,
                    },
                }
            },
        }
    }
}

/// Renders an outcome as the text of a message.
pub fn render_outcome(outcome: &TaskResult, content: &str) -> (r: String)
    ensures
        r@ == rendered(outcome@, content@),
{
    match outcome {
        TaskResult::RequiresReview { artifact, next_step } => {
            let mut s = String::from_str("📝 **Plan Created:** `");
            s.append(artifact.as_str());
            s.append("`\n\n👉 **Next Step:** ");
            s.append(next_step.as_str());
            s.append("\n\n_Review the artifact to proceed._");
            s
        },
        TaskResult::DebugDiagnosis { root_cause, proposed_fix, confidence_percent } => {
            let mut s = String::from_str("🔍 **Diagnosis:** ");
            s.append(root_cause.as_str());
            s.append("\n\n🛠️ **Proposed Fix:** ");
            s.append(proposed_fix.as_str());
            s.append("\n\n✅ **Confidence:** ");
            let percent = decimal(*confidence_percent as u64);
            s.append(percent.as_str());
            s.append("%");
            s
        },
        TaskResult::Completed { summary } => {
            let mut s = String::from_str("✅ **Done:** ");
            s.append(summary.as_str());
            s.append("\n\n_Your message: ");
            s.append(content);
            s.append("_");
            s
        },
    }
}

/// Runs the workflow of a request.
pub fn run_workflow(
    workflow: Option<WorkflowCommand>,
    content: &str,
    selection: &SkillSelection,
) -> (r: Result<TaskResult, String>)
    ensures
        r matches Ok(outcome) && outcome@ == outcome_of(
            workflow,
            selection.persona@,
            selection.skills@.len(),
        ),
{
    match workflow {
        Some(WorkflowCommand::Plan) => crate::workflows::plan::execute(
            String::from_str(content),
            selection,
        ),
        Some(WorkflowCommand::Debug) => crate::workflows::debug::execute(
            String::from_str(content),
            selection,
        ),
        _ => {
            let mut summary = String::from_str("Standard response (Persona: ");
            summary.append(selection.persona.as_str());
            summary.append("). Skills: ");
            let count = decimal(selection.skills.len() as u64);
            summary.append(count.as_str());
            Ok(TaskResult::Completed { summary })
        },
    }
}

impl ContentPending {
    /// Ends the request at the time `now`: the workflow runs and its
    /// outcome is the reply. Content that could not be loaded does not
    /// stop the request: the workflow then runs with none.
    pub fn finish(self, loaded: Result<Vec<SkillContent>, String>, now: i64) -> (r: Finished)
        ensures
            r.status@ == processing_status(
                self.session_id@,
                self.workflow,
                self.selection.persona@,
            ),
            r.reply@ == final_reply(
                self.session_id@,
                self.content@,
                self.workflow,
                self.selection@,
                now,
            ),
            match loaded {
                Ok(contents) => r.contents == contents,
                Err(_) => r.contents@.len() == 0,
            },
    {
        let contents = match loaded {
            Ok(contents) => contents,
            Err(_) => Vec::new(),
        };
        let mut details = String::from_str("Executing ");
        match self.workflow {
            Some(cmd) => details.append(cmd.get_description()),
            None => details.append("standard"),
        }
        details.append(" workflow as ");
        details.append(self.selection.persona.as_str());
        details.append("...");
        let status = status_message(self.session_id.as_str(), "processing", details);
        let reply = match run_workflow(self.workflow, self.content.as_str(), &self.selection) {
            Ok(outcome) => {
                let text = render_outcome(&outcome, self.content.as_str());
                ServerMessage::MessageAppended {
                    session_id: self.session_id,
                    message: TaskMessageResponse {
                        id: now,
                        role: String::from_str("assistant"),
                        content: text,
                        created_at: now,
                    },
                }
            },
            Err(e) => {
                let mut message = String::from_str("Workflow execution failed: ");
                message.append(e.as_str());
                ServerMessage::Error { message }
            },
        };
        Finished { status, reply, contents }
    }

    /// Ends the request now: `finish` at the current time.
    pub fn resume(self, loaded: Result<Vec<SkillContent>, String>) -> (r: Finished)
        ensures
            r.status@ == processing_status(
                self.session_id@,
                self.workflow,
                self.selection.persona@,
            ),
            exists|now: i64|
                r.reply@ == final_reply(
                    self.session_id@,
                    self.content@,
                    self.workflow,
                    self.selection@,
                    now,
                ),
            match loaded {
                Ok(contents) => r.contents == contents,
                Err(_) => r.contents@.len() == 0,
            },
    {
        let now = unix_time();
        self.finish(loaded, now)
    }
}

fn session_response(session: &ChatSession) -> (r: TaskSessionResponse)
    ensures
        r@ == session@,
{
    TaskSessionResponse {
        id: session.id.clone(),
        title: session.title.clone(),
        repo_name: session.repo_name.clone(),
        branch_name: match &session.branch_name {
            Some(b) => Some(b.clone()),
            None => None,
        },
        status: session.status.clone(),
        created_at: session.created_at,
    }
}

fn session_responses(sessions: &Vec<ChatSession>) -> (r: Vec<TaskSessionResponse>)
    ensures
        r@.map_values(|s: TaskSessionResponse| s@) == sessions@.map_values(|s: ChatSession| s@),
{
    let mut out: Vec<TaskSessionResponse> = Vec::new();
    let mut i: usize = 0;
    while i < sessions.len()
        invariant
            i <= sessions.len(),
            out@.len() == i,
            forall|j: int| 0 <= j < i ==> (#[trigger] out@[j])@ == sessions@[j]@,
        decreases sessions.len() - i,
    {
        out.push(session_response(&sessions[i]));
        i += 1;
    }
    assert(out@.map_values(|s: TaskSessionResponse| s@) =~= sessions@.map_values(
        |s: ChatSession| s@,
    ));
    out
}

fn message_responses(messages: &Vec<ChatMessage>) -> (r: Vec<TaskMessageResponse>)
    ensures
        r@.map_values(|m: TaskMessageResponse| m@) == messages@.map_values(
            |m: ChatMessage| message_view(m),
        ),
{
    let mut out: Vec<TaskMessageResponse> = Vec::new();
    let mut i: usize = 0;
    while i < messages.len()
        invariant
            i <= messages.len(),
            out@.len() == i,
            forall|j: int| 0 <= j < i ==> (#[trigger] out@[j])@ == message_view(messages@[j]),
        decreases messages.len() - i,
    {
        out.push(
            TaskMessageResponse {
                id: messages[i].id,
                role: messages[i].role.clone(),
                content: messages[i].content.clone(),
                created_at: messages[i].created_at,
            },
        );
        i += 1;
    }
    assert(out@.map_values(|m: TaskMessageResponse| m@) =~= messages@.map_values(
        |m: ChatMessage| message_view(m),
    ));
    out
}

/// The reply to `CreateSession`, from what the store said: the new session
/// as a list of one, or the store's error.
pub fn session_created(stored: Result<ChatSession, String>) -> (r: ServerMessage)
    ensures
        r@ == match stored {
            Ok(session) => ServerMessageView::SessionList { sessions: seq![session@] },
            Err(e) => ServerMessageView::Error { message: e@ },
        },
{
    match stored {
        Ok(session) => {
            let mut sessions: Vec<TaskSessionResponse> = Vec::new();
            sessions.push(session_response(&session));
            assert(sessions@.map_values(|s: TaskSessionResponse| s@) =~= seq![session@]);
            ServerMessage::SessionList { sessions }
        },
        Err(message) => ServerMessage::Error { message },
    }
}

/// The reply to `ListSessions`, from what the store said: the sessions in
/// the store's order, or the store's error.
pub fn sessions_listed(stored: Result<Vec<ChatSession>, String>) -> (r: ServerMessage)
    ensures
        r@ == match stored {
            Ok(sessions) => ServerMessageView::SessionList {
                sessions: sessions@.map_values(|s: ChatSession| s@),
            },
            Err(e) => ServerMessageView::Error { message: e@ },
        },
{
    match stored {
        Ok(sessions) => ServerMessage::SessionList { sessions: session_responses(&sessions) },
        Err(message) => ServerMessage::Error { message },
    }
}

/// The reply to `LoadSession`, from what the store said: the session and
/// its messages in the store's order, or the store's error.
pub fn session_loaded(stored: Result<(ChatSession, Vec<ChatMessage>), String>) -> (r: ServerMessage)
    ensures
        r@ == match stored {
            Ok((session, messages)) => ServerMessageView::SessionLoaded {
                session: session@,
                messages: messages@.map_values(|m: ChatMessage| message_view(m)),
            },
            Err(e) => ServerMessageView::Error { message: e@ },
        },
{
    match stored {
        Ok((session, messages)) => ServerMessage::SessionLoaded {
            session: session_response(&session),
            messages: message_responses(&messages),
        },
        Err(message) => ServerMessage::Error { message },
    }
}

/// Says what a connection does with what it has read. A text frame that
/// holds no message is answered with an error and the connection reads
/// on; only a close frame or a failed read ends it.
pub fn handle_frame(frame: Frame) -> (r: FrameStep)
    ensures
        match frame {
            Frame::Text(Ok(msg)) => r matches FrameStep::Handle(m) && m == msg,
            Frame::Text(Err(e)) => r matches FrameStep::Reply(reply) && reply@
                == (ServerMessageView::Error { message: "Invalid message format: "@ + e@ }),
            Frame::Close => r is Stop,
            Frame::Other => r is Skip,
            Frame::Failed => r is Stop,
        },
{
    match frame {
        Frame::Text(Ok(msg)) => FrameStep::Handle(msg),
        Frame::Text(Err(e)) => {
            let mut message = String::from_str("Invalid message format: ");
            message.append(e.as_str());
            FrameStep::Reply(ServerMessage::Error { message })
        },
        Frame::Close => FrameStep::Stop,
        Frame::Other => FrameStep::Skip,
        Frame::Failed => FrameStep::Stop,
    }
}

/// A message that opens with the debug command, once trimmed and
/// lowercased, is announced with the debug persona, whatever persona the
/// ranking proposed and whatever the standing of the session.
pub proof fn lemma_debug_forces_persona(
    session_id: Seq<char>,
    content: Seq<char>,
    selection: SkillSelectionView,
    constrained: bool,
)
    requires
        "/debug"@.is_prefix_of(lowercase_text(trim_start(content))),
    ensures
        parsed_command(content) == Some(WorkflowCommand::Debug),
        workflow_permitted(constrained, parsed_command(content)),
        adjusted_selection(selection, parsed_command(content), constrained).persona
            == "troubleshooter"@,
        skills_notice(
            session_id,
            adjusted_selection(selection, parsed_command(content), constrained),
        )->SkillsSelected_persona == "troubleshooter"@,
{
    let lowered = lowercase_text(trim_start(content));
    reveal_strlit("/debug");
    reveal_strlit("/plan");
    assert("/debug"@.len() == 6);
    assert(lowered.subrange(0, 6)[1] == "/debug"@[1]);
    assert(lowered[1] == 'd');
    if "/plan"@.is_prefix_of(lowered) {
        assert("/plan"@.len() == 5);
        assert(lowered.subrange(0, 5)[1] == "/plan"@[1]);
        assert(lowered[1] == 'p');
    }
    assert(widget_allowed_workflows()[0] == WorkflowCommand::Debug);
}

/// Every workflow forces its own persona on the selection.
pub proof fn lemma_workflow_forces_persona(
    selection: SkillSelectionView,
    cmd: WorkflowCommand,
    constrained: bool,
)
    ensures
        adjusted_selection(selection, Some(cmd), constrained).persona == persona_text(cmd),
{
}

/// A widget session is announced, and has content loaded, for skills of
/// the allowlist only, and for no more than `WIDGET_MAX_SKILLS`.
pub proof fn lemma_widget_selection_allowed(
    session_id: Seq<char>,
    selection: SkillSelectionView,
    workflow: Option<WorkflowCommand>,
)
    ensures
        ({
            let adjusted = adjusted_selection(selection, workflow, true);
            let announced = skills_notice(session_id, adjusted)->SkillsSelected_skills;
            &&& adjusted.skills.len() <= WIDGET_MAX_SKILLS
            &&& announced.len() == adjusted.skills.len()
            &&& skill_ids_of(adjusted.skills).len() == adjusted.skills.len()
            &&& forall|i: int|
                0 <= i < adjusted.skills.len() ==> is_allowed_skill(
                    (#[trigger] adjusted.skills[i]).id,
                )
            &&& forall|i: int|
                0 <= i < announced.len() ==> is_allowed_skill((#[trigger] announced[i]).id)
            &&& forall|i: int|
                0 <= i < adjusted.skills.len() ==> is_allowed_skill(
                    #[trigger] skill_ids_of(adjusted.skills)[i],
                )
        }),
{
    let pred = |s: SkillScoreView| is_allowed_skill(s.id);
    let kept = selection.skills.filter(pred);
    let adjusted = adjusted_selection(selection, workflow, true);
    assert forall|i: int| 0 <= i < adjusted.skills.len() implies is_allowed_skill(
        (#[trigger] adjusted.skills[i]).id,
    ) by {
        assert(adjusted.skills[i] == kept[i]);
        selection.skills.lemma_filter_pred(pred, i);
    }
    let announced = skills_notice(session_id, adjusted)->SkillsSelected_skills;
    assert forall|i: int| 0 <= i < announced.len() implies is_allowed_skill(
        (#[trigger] announced[i]).id,
    ) by {
        assert(announced[i].id == adjusted.skills[i].id);
    }
    assert forall|i: int| 0 <= i < adjusted.skills.len() implies is_allowed_skill(
        #[trigger] skill_ids_of(adjusted.skills)[i],
    ) by {
        assert(skill_ids_of(adjusted.skills)[i] == adjusted.skills[i].id);
    }
}

/// A session that is no widget keeps the ranking's skills as they are.
pub proof fn lemma_free_selection_unfiltered(
    selection: SkillSelectionView,
    workflow: Option<WorkflowCommand>,
)
    ensures
        adjusted_selection(selection, workflow, false).skills == selection.skills,
{
}

} // verus!
