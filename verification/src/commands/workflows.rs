//! Workflow commands and the widget security gate.
//!
//! A message may open with a command such as `/plan`; the command forces a
//! persona and an execution strategy. A session registered as a widget is
//! held to the debugging workflow and to a curated list of skills.

use crate::utils::text::{chars_of, has_prefix, lowercase_text, same_text, skip_whitespace, to_lowercase, trim_start, texts};
use vstd::prelude::*;
use vstd::string::StrSliceExecFns;
use vstd::string::StringExecFns;

verus! {

/// The workflow that a message asks for.
#[derive(Debug, Clone, Copy, PartialEq, Eq, Structural)]
pub enum WorkflowCommand {
    /// `/plan`: draft an implementation plan.
    Plan,
    /// `/debug`: systematic troubleshooting.
    Debug,
    /// `/create`: generate a new feature.
    Create,
    /// `/test`: write and run tests.
    Test,
    /// `/deploy`: deployment procedures.
    Deploy,
}

/// The most skills that a widget session is given.
pub const WIDGET_MAX_SKILLS: usize = 3;

/// The most bytes of skill content that a widget session is given.
pub const WIDGET_MAX_BYTES: usize = 30_000;

/// The persona that a workflow forces.
pub open spec fn persona_text(cmd: WorkflowCommand) -> Seq<char> {
    match cmd {
        WorkflowCommand::Plan => "architect"@,
        WorkflowCommand::Debug => "troubleshooter"@,
        WorkflowCommand::Create => "builder"@,
        WorkflowCommand::Test => "qa-engineer"@,
        WorkflowCommand::Deploy => "devops-engineer"@,
    }
}

/// What a workflow does, in words.
pub open spec fn description_text(cmd: WorkflowCommand) -> Seq<char> {
    match cmd {
        WorkflowCommand::Plan => "Creating structured implementation plan"@,
        WorkflowCommand::Debug => "Performing systematic troubleshooting"@,
        WorkflowCommand::Create => "Generating new feature"@,
        WorkflowCommand::Test => "Writing and executing tests"@,
        WorkflowCommand::Deploy => "Executing deployment procedures"@,
    }
}

/// The name of a workflow as it is printed in a list.
pub open spec fn variant_name(cmd: WorkflowCommand) -> Seq<char> {
    match cmd {
        WorkflowCommand::Plan => "Plan"@,
        WorkflowCommand::Debug => "Debug"@,
        WorkflowCommand::Create => "Create"@,
        WorkflowCommand::Test => "Test"@,
        WorkflowCommand::Deploy => "Deploy"@,
    }
}

/// The workflow that a trimmed, lowercased message opens with: the first of
/// the five command tokens that is a prefix of it.
pub open spec fn command_of(lowered: Seq<char>) -> Option<WorkflowCommand> {
    if "/plan"@.is_prefix_of(lowered) {
        Some(WorkflowCommand::Plan)
    } else if "/debug"@.is_prefix_of(lowered) {
        Some(WorkflowCommand::Debug)
    } else if "/create"@.is_prefix_of(lowered) {
        Some(WorkflowCommand::Create)
    } else if "/test"@.is_prefix_of(lowered) {
        Some(WorkflowCommand::Test)
    } else if "/deploy"@.is_prefix_of(lowered) {
        Some(WorkflowCommand::Deploy)
    } else {
        None
    }
}

/// The workflow that a message asks for: leading whitespace is dropped, the
/// rest is lowercased, and the command is read from its start.
pub open spec fn parsed_command(message: Seq<char>) -> Option<WorkflowCommand> {
    command_of(lowercase_text(trim_start(message)))
}

/// The workflows open to a widget session.
pub open spec fn widget_allowed_workflows() -> Seq<WorkflowCommand> {
    seq![WorkflowCommand::Debug]
}

/// The skills open to a widget session.
pub open spec fn widget_allowed_skills() -> Seq<Seq<char>> {
    seq![
        "awesome-troubleshooting"@,
        "awesome-error-analysis"@,
        "awesome-debugging-mindset"@,
        "awesome-root-cause-analysis"@,
    ]
}

/// Whether a skill is open to a widget session.
pub open spec fn is_allowed_skill(id: Seq<char>) -> bool {
    widget_allowed_skills().contains(id)
}

/// `s`, cut to its first `n` items where it has more.
pub open spec fn at_most<A>(s: Seq<A>, n: nat) -> Seq<A> {
    if s.len() <= n {
        s
    } else {
        s.take(n as int)
    }
}

/// The skills that a widget session keeps of `ids`: those on the allowlist,
/// in their order, and no more than `WIDGET_MAX_SKILLS` of them.
pub open spec fn widget_filter(ids: Seq<Seq<char>>) -> Seq<Seq<char>> {
    at_most(ids.filter(|id: Seq<char>| is_allowed_skill(id)), WIDGET_MAX_SKILLS as nat)
}

/// The names of `cmds`, separated by a comma and a space.
pub open spec fn joined_names(cmds: Seq<WorkflowCommand>) -> Seq<char>
    decreases cmds.len(),
{
    if cmds.len() == 0 {
        Seq::empty()
    } else if cmds.len() == 1 {
        variant_name(cmds[0])
    } else {
        joined_names(cmds.drop_last()) + ", "@ + variant_name(cmds.last())
    }
}

/// The message that tells a widget session that its workflow is denied; it
/// names the allowed workflows.
pub open spec fn denial_text() -> Seq<char> {
    "Widget mode: only ["@ + joined_names(widget_allowed_workflows()) + "] workflows allowed"@
}

/// Whether a session with the given standing may run the given workflow:
/// a widget session may run none but the allowed ones.
pub open spec fn workflow_permitted(constrained: bool, workflow: Option<WorkflowCommand>) -> bool {
    constrained ==> match workflow {
        Some(cmd) => widget_allowed_workflows().contains(cmd),
        None => true,
    }
}

impl WorkflowCommand {
    /// The persona that this workflow forces.
    pub fn get_persona(&self) -> (r: &'static str)
        ensures
            r@ == persona_text(*self),
    {
        match self {
            WorkflowCommand::Plan => "architect",
            WorkflowCommand::Debug => "troubleshooter",
            WorkflowCommand::Create => "builder",
            WorkflowCommand::Test => "qa-engineer",
            WorkflowCommand::Deploy => "devops-engineer",
        }
    }

    /// What this workflow does, in words.
    pub fn get_description(&self) -> (r: &'static str)
        ensures
            r@ == description_text(*self),
    {
        match self {
            WorkflowCommand::Plan => "Creating structured implementation plan",
            WorkflowCommand::Debug => "Performing systematic troubleshooting",
            WorkflowCommand::Create => "Generating new feature",
            WorkflowCommand::Test => "Writing and executing tests",
            WorkflowCommand::Deploy => "Executing deployment procedures",
        }
    }

    /// The name of this workflow as it is printed in a list.
    pub fn name(&self) -> (r: &'static str)
        ensures
            r@ == variant_name(*self),
    {
        match self {
            WorkflowCommand::Plan => "Plan",
            WorkflowCommand::Debug => "Debug",
            WorkflowCommand::Create => "Create",
            WorkflowCommand::Test => "Test",
            WorkflowCommand::Deploy => "Deploy",
        }
    }
}

/// Whether `text` begins with `token`.
fn opens_with(text: &Vec<char>, token: &str) -> (r: bool)
    ensures
        r == token@.is_prefix_of(text@),
{
    let t = chars_of(token);
    assert(text@.subrange(0, text@.len() as int) == text@);
    has_prefix(text, 0, text.len(), &t)
}

/// Reads the workflow from a message that is already trimmed and lowercased.
pub fn match_command(lowered: &str) -> (r: Option<WorkflowCommand>)
    ensures
        r == command_of(lowered@),
{
    let text = chars_of(lowered);
    if opens_with(&text, "/plan") {
        Some(WorkflowCommand::Plan)
    } else if opens_with(&text, "/debug") {
        Some(WorkflowCommand::Debug)
    } else if opens_with(&text, "/create") {
        Some(WorkflowCommand::Create)
    } else if opens_with(&text, "/test") {
        Some(WorkflowCommand::Test)
    } else if opens_with(&text, "/deploy") {
        Some(WorkflowCommand::Deploy)
    } else {
        None
    }
}

/// Reads the workflow that a message asks for. Only the server decides
/// this, from the text of the message.
pub fn parse_workflow_command(message: &str) -> (r: Option<WorkflowCommand>)
    ensures
        r == parsed_command(message@),
{
    let text = chars_of(message);
    let n = text.len();
    assert(text@.subrange(0, n as int) == text@);
    let start = skip_whitespace(&text, 0, n);
    let trimmed = message.substring_char(start, n);
    let lowered = to_lowercase(trimmed);
    match_command(lowered.as_str())
}

/// The texts that occur in `v`.
pub open spec fn text_set(v: Seq<String>) -> Set<Seq<char>> {
    Set::new(|id: Seq<char>| exists|i: int| 0 <= i < v.len() && #[trigger] v[i]@ == id)
}

/// Appending a string adds its text to the set.
pub proof fn lemma_text_set_push(v: Seq<String>, s: String)
    ensures
        text_set(v.push(s)) == text_set(v).insert(s@),
{
    let w = v.push(s);
    assert forall|id: Seq<char>| text_set(w).contains(id) == text_set(v).insert(s@).contains(
        id,
    ) by {
        if text_set(w).contains(id) {
            let i = choose|i: int| 0 <= i < w.len() && #[trigger] w[i]@ == id;
            if i < v.len() {
                assert(v[i]@ == id);
            }
        }
        if text_set(v).contains(id) {
            let i = choose|i: int| 0 <= i < v.len() && #[trigger] v[i]@ == id;
            assert(w[i]@ == id);
        }
        if id == s@ {
            assert(w[v.len() as int]@ == id);
        }
    }
    assert(text_set(w) =~= text_set(v).insert(s@));
}

/// The sessions that run as widgets. Membership is decided here alone: no
/// flag in a client's message stands in for it.
pub struct WidgetRegistry {
    sessions: Vec<String>,
}

impl View for WidgetRegistry {
    type V = Set<Seq<char>>;

    closed spec fn view(&self) -> Set<Seq<char>> {
        text_set(self.sessions@)
    }
}

impl WidgetRegistry {
    /// A registry with no widget session.
    pub fn new() -> (r: WidgetRegistry)
        ensures
            r@ == Set::<Seq<char>>::empty(),
    {
        let r = WidgetRegistry { sessions: Vec::new() };
        assert(r@ =~= Set::<Seq<char>>::empty());
        r
    }

    /// Whether `session_id` is registered.
    pub fn contains(&self, session_id: &str) -> (r: bool)
        ensures
            r == self@.contains(session_id@),
    {
        let mut i: usize = 0;
        while i < self.sessions.len()
            invariant
                i <= self.sessions.len(),
                forall|j: int| 0 <= j < i ==> #[trigger] self.sessions@[j]@ != session_id@,
            decreases self.sessions.len() - i,
        {
            if same_text(self.sessions[i].as_str(), session_id) {
                return true;
            }
            i += 1;
        }
        false
    }

    /// Registers `session_id`; a second registration changes nothing.
    pub fn insert(&mut self, session_id: String)
        ensures
            final(self)@ == old(self)@.insert(session_id@),
    {
        if !self.contains(session_id.as_str()) {
            proof {
                lemma_text_set_push(self.sessions@, session_id);
            }
            self.sessions.push(session_id);
        } else {
            assert(self@ =~= old(self)@.insert(session_id@));
        }
    }

    /// Removes `session_id`; where it is not registered nothing changes.
    pub fn remove(&mut self, session_id: &str)
        ensures
            final(self)@ == old(self)@.remove(session_id@),
    {
        let mut kept: Vec<String> = Vec::new();
        let mut i: usize = 0;
        assert(text_set(kept@) =~= text_set(self.sessions@.take(0)).remove(session_id@));
        while i < self.sessions.len()
            invariant
                i <= self.sessions.len(),
                text_set(kept@) == text_set(self.sessions@.take(i as int)).remove(session_id@),
            decreases self.sessions.len() - i,
        {
            let ghost head = self.sessions@.take(i as int);
            proof {
                assert(self.sessions@.take(i + 1) == head.push(self.sessions@[i as int]));
                lemma_text_set_push(head, self.sessions@[i as int]);
            }
            if !same_text(self.sessions[i].as_str(), session_id) {
                let item = self.sessions[i].clone();
                proof {
                    lemma_text_set_push(kept@, item);
                }
                kept.push(item);
                assert(text_set(kept@) =~= text_set(self.sessions@.take(i + 1)).remove(
                    session_id@,
                ));
            } else {
                assert(text_set(kept@) =~= text_set(self.sessions@.take(i + 1)).remove(
                    session_id@,
                ));
            }
            i += 1;
        }
        assert(self.sessions@.take(i as int) == self.sessions@);
        self.sessions = kept;
    }
}

/// Whether the session runs as a widget.
pub fn is_widget_mode(registry: &WidgetRegistry, session_id: &str) -> (r: bool)
    ensures
        r == registry@.contains(session_id@),
{
    registry.contains(session_id)
}

/// Registers a session as a widget.
pub fn register_widget_session(registry: &mut WidgetRegistry, session_id: String)
    ensures
        final(registry)@ == old(registry)@.insert(session_id@),
{
    registry.insert(session_id);
}

/// Ends a session's standing as a widget.
pub fn unregister_widget_session(registry: &mut WidgetRegistry, session_id: &str)
    ensures
        final(registry)@ == old(registry)@.remove(session_id@),
{
    registry.remove(session_id);
}

/// The workflows open to a widget session.
pub fn get_widget_allowed_workflows() -> (r: Vec<WorkflowCommand>)
    ensures
        r@ == widget_allowed_workflows(),
{
    let mut v: Vec<WorkflowCommand> = Vec::new();
    v.push(WorkflowCommand::Debug);
    assert(v@ =~= widget_allowed_workflows());
    v
}

/// The skills open to a widget session: a curated list.
pub fn get_widget_allowed_skills() -> (r: Vec<String>)
    ensures
        texts(r@) == widget_allowed_skills(),
{
    let mut v: Vec<String> = Vec::new();
    v.push(String::from_str("awesome-troubleshooting"));
    v.push(String::from_str("awesome-error-analysis"));
    v.push(String::from_str("awesome-debugging-mindset"));
    v.push(String::from_str("awesome-root-cause-analysis"));
    assert(texts(v@) =~= widget_allowed_skills());
    v
}

/// Whether `cmd` is among `allowed`.
fn lists_workflow(allowed: &Vec<WorkflowCommand>, cmd: WorkflowCommand) -> (r: bool)
    ensures
        r == allowed@.contains(cmd),
{
    let mut i: usize = 0;
    while i < allowed.len()
        invariant
            i <= allowed.len(),
            forall|j: int| 0 <= j < i ==> allowed@[j] != cmd,
        decreases allowed.len() - i,
    {
        if allowed[i] == cmd {
            return true;
        }
        i += 1;
    }
    false
}

/// Whether `id` is among `allowed`.
pub fn lists_skill(allowed: &Vec<String>, id: &str) -> (r: bool)
    ensures
        r == texts(allowed@).contains(id@),
{
    let mut i: usize = 0;
    while i < allowed.len()
        invariant
            i <= allowed.len(),
            forall|j: int| 0 <= j < i ==> texts(allowed@)[j] != id@,
        decreases allowed.len() - i,
    {
        if same_text(allowed[i].as_str(), id) {
            assert(texts(allowed@)[i as int] == id@);
            return true;
        }
        i += 1;
    }
    false
}

/// Joins the names of `cmds` with a comma and a space.
fn names_joined(cmds: &Vec<WorkflowCommand>) -> (r: String)
    ensures
        r@ == joined_names(cmds@),
{
    let mut s = String::new();
    let mut i: usize = 0;
    while i < cmds.len()
        invariant
            i <= cmds.len(),
            s@ == joined_names(cmds@.take(i as int)),
        decreases cmds.len() - i,
    {
        let ghost head = cmds@.take(i as int);
        let ghost next = cmds@.take(i + 1);
        assert(next.drop_last() == head);
        assert(next.last() == cmds@[i as int]);
        if i > 0 {
            s.append(", ");
        }
        s.append(cmds[i].name());
        assert(s@ == joined_names(next)) by {
            if i == 0 {
                assert(head.len() == 0);
                assert(s@ =~= variant_name(cmds@[0]));
            } else {
                assert(s@ =~= joined_names(head) + ", "@ + variant_name(cmds@[i as int]));
            }
        }
        i += 1;
    }
    assert(cmds@.take(i as int) == cmds@);
    s
}

/// Denies a widget session every workflow but the allowed ones. A session
/// that is no widget is not restricted, and a message without a command is
/// always in order.
pub fn validate_widget_workflow(
    registry: &WidgetRegistry,
    session_id: &str,
    workflow: &Option<WorkflowCommand>,
) -> (r: Result<(), String>)
    ensures
        r is Ok <==> workflow_permitted(registry@.contains(session_id@), *workflow),
        r matches Err(message) ==> message@ == denial_text(),
{
    if !is_widget_mode(registry, session_id) {
        return Ok(());
    }
    match workflow {
        Some(cmd) => {
            let allowed = get_widget_allowed_workflows();
            if !lists_workflow(&allowed, *cmd) {
                let mut message = String::from_str("Widget mode: only [");
                let names = names_joined(&allowed);
                message.append(names.as_str());
                message.append("] workflows allowed");
                return Err(message);
            }
            Ok(())
        },
        None => Ok(()),
    }
}

/// Holds a widget session to the allowlist: `skill_ids` keeps the allowed
/// skills in their order, and at most `WIDGET_MAX_SKILLS` of them. For any
/// other session it is left as it is.
pub fn filter_skills_for_widget(
    registry: &WidgetRegistry,
    session_id: &str,
    skill_ids: &mut Vec<String>,
)
    ensures
        registry@.contains(session_id@) ==> texts(final(skill_ids)@) == widget_filter(
            texts(old(skill_ids)@),
        ),
        !registry@.contains(session_id@) ==> *final(skill_ids) == *old(skill_ids),
{
    if !is_widget_mode(registry, session_id) {
        return ;
    }
    let allowed = get_widget_allowed_skills();
    let ghost ids = texts(skill_ids@);
    let ghost pred = |id: Seq<char>| is_allowed_skill(id);
    let mut kept: Vec<String> = Vec::new();
    let mut i: usize = 0;
    proof {
        reveal(Seq::filter);
        assert(ids.take(0).filter(pred) =~= Seq::<Seq<char>>::empty());
        assert(texts(kept@) =~= Seq::<Seq<char>>::empty());
    }
    while i < skill_ids.len()
        invariant
            i <= skill_ids.len(),
            ids == texts(skill_ids@),
            pred == (|id: Seq<char>| is_allowed_skill(id)),
            texts(allowed@) == widget_allowed_skills(),
            texts(kept@) == at_most(ids.take(i as int).filter(pred), WIDGET_MAX_SKILLS as nat),
        decreases skill_ids.len() - i,
    {
        let ghost head = ids.take(i as int);
        let ghost next = ids.take(i + 1);
        proof {
            reveal(Seq::filter);
            assert(next.drop_last() == head);
            assert(next.last() == skill_ids@[i as int]@);
        }
        if lists_skill(&allowed, skill_ids[i].as_str()) && kept.len() < WIDGET_MAX_SKILLS {
            let ghost before = kept@;
            kept.push(skill_ids[i].clone());
            assert(texts(kept@) =~= texts(before).push(skill_ids@[i as int]@));
            assert(texts(kept@) =~= at_most(next.filter(pred), WIDGET_MAX_SKILLS as nat));
        } else {
            assert(texts(kept@) =~= at_most(next.filter(pred), WIDGET_MAX_SKILLS as nat));
        }
        i += 1;
    }
    assert(ids.take(i as int) == ids);
    *skill_ids = kept;
}

/// Registration is idempotent, and one unregistration undoes any number of
/// registrations: a session that was registered twice and unregistered once
/// is no widget.
pub proof fn lemma_register_twice_unregister_once(registry: Set<Seq<char>>, session_id: Seq<char>)
    ensures
        registry.insert(session_id).insert(session_id) == registry.insert(session_id),
        !registry.insert(session_id).insert(session_id).remove(session_id).contains(session_id),
        registry.remove(session_id).remove(session_id) == registry.remove(session_id),
{
    assert(registry.insert(session_id).insert(session_id) =~= registry.insert(session_id));
    assert(registry.remove(session_id).remove(session_id) =~= registry.remove(session_id));
}

/// Unregistration touches no other session.
pub proof fn lemma_unregister_keeps_others(
    registry: Set<Seq<char>>,
    session_id: Seq<char>,
    other: Seq<char>,
)
    requires
        other != session_id,
    ensures
        registry.remove(session_id).contains(other) == registry.contains(other),
        registry.insert(session_id).contains(other) == registry.contains(other),
{
}

/// What a widget session keeps lies on the allowlist and is no more than
/// `WIDGET_MAX_SKILLS` skills.
pub proof fn lemma_widget_filter_allowed(ids: Seq<Seq<char>>)
    ensures
        widget_filter(ids).len() <= WIDGET_MAX_SKILLS,
        forall|i: int|
            0 <= i < widget_filter(ids).len() ==> is_allowed_skill(#[trigger] widget_filter(ids)[i]),
{
    let pred = |id: Seq<char>| is_allowed_skill(id);
    let kept = ids.filter(pred);
    assert forall|i: int| 0 <= i < widget_filter(ids).len() implies is_allowed_skill(
        #[trigger] widget_filter(ids)[i],
    ) by {
        assert(widget_filter(ids)[i] == kept[i]);
        ids.lemma_filter_pred(pred, i);
    }
}

} // verus!
