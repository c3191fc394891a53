//! The boundary to the skill ranking service: what is asked of it, what it
//! answers, and how a skill's content is found in the index.
//!
//! Ranking itself happens in another process, and content is read from
//! disk; both are the caller's part. Here are the values that cross the
//! boundary and the decisions taken on them.

use crate::utils::text::{decimal, decimal_text, same_text, texts};
use vstd::prelude::*;
use vstd::string::StringExecFns;

verus! {

/// How many skills are asked for where the caller names no number.
pub const DEFAULT_MAX_SKILLS: usize = 8;

/// How many bytes of skill content are asked for where the caller names no number.
pub const DEFAULT_MAX_BYTES: usize = 80000;

/// The limits that a selection was asked for and what it came to.
#[derive(Debug, Clone, Copy, PartialEq, Eq, Structural)]
pub struct SelectionLimits {
    pub max_skills: usize,
    pub max_bytes: usize,
    pub actual_skills: usize,
    pub actual_bytes: usize,
}

/// One ranked skill.
#[derive(Debug)]
pub struct SkillScore {
    pub id: String,
    pub name: String,
    /// The relevance score, a double carried as its IEEE 754 bit pattern.
    pub score_bits: u64,
    pub matched_terms: Vec<String>,
    pub size_bytes: usize,
}

/// What the ranking service answers.
#[derive(Debug)]
pub struct SkillSelection {
    pub persona: String,
    pub category: String,
    pub skills: Vec<SkillScore>,
    pub total_bytes: usize,
    pub limits: SelectionLimits,
}

/// One entry of the skill index: where a skill's content lies.
#[derive(Debug)]
pub struct SkillMetadata {
    pub id: String,
    pub path: String,
}

/// The skill index.
#[derive(Debug)]
pub struct SkillsIndex {
    pub skills: Vec<SkillMetadata>,
}

/// A ranked skill as a mathematical value.
pub struct SkillScoreView {
    pub id: Seq<char>,
    pub name: Seq<char>,
    pub score_bits: u64,
    pub matched_terms: Seq<Seq<char>>,
    pub size_bytes: usize,
}

/// A selection as a mathematical value.
pub struct SkillSelectionView {
    pub persona: Seq<char>,
    pub category: Seq<char>,
    pub skills: Seq<SkillScoreView>,
    pub total_bytes: usize,
    pub limits: SelectionLimits,
}

impl View for SkillScore {
    type V = SkillScoreView;

    open spec fn view(&self) -> SkillScoreView {
        SkillScoreView {
            id: self.id@,
            name: self.name@,
            score_bits: self.score_bits,
            matched_terms: texts(self.matched_terms@),
            size_bytes: self.size_bytes,
        }
    }
}

/// The values of a sequence of skills.
pub open spec fn skill_views(v: Seq<SkillScore>) -> Seq<SkillScoreView> {
    v.map_values(|s: SkillScore| s@)
}

impl View for SkillSelection {
    type V = SkillSelectionView;

    open spec fn view(&self) -> SkillSelectionView {
        SkillSelectionView {
            persona: self.persona@,
            category: self.category@,
            skills: skill_views(self.skills@),
            total_bytes: self.total_bytes,
            limits: self.limits,
        }
    }
}

impl SelectionLimits {
    /// What holds of the limits of every selection: it has no more skills
    /// and no more bytes than were asked for.
    pub open spec fn well_formed(&self) -> bool {
        self.actual_skills <= self.max_skills && self.actual_bytes <= self.max_bytes
    }

    pub fn is_well_formed(&self) -> (r: bool)
        ensures
            r == self.well_formed(),
    {
        self.actual_skills <= self.max_skills && self.actual_bytes <= self.max_bytes
    }
}

/// A copy of each string of `v`.
pub fn duplicate_texts(v: &Vec<String>) -> (r: Vec<String>)
    ensures
        texts(r@) == texts(v@),
{
    let mut out: Vec<String> = Vec::new();
    let mut i: usize = 0;
    while i < v.len()
        invariant
            i <= v.len(),
            texts(out@) == texts(v@).take(i as int),
        decreases v.len() - i,
    {
        let ghost before = out@;
        out.push(v[i].clone());
        assert(texts(out@) =~= texts(before).push(v@[i as int]@));
        assert(texts(v@).take(i + 1) =~= texts(v@).take(i as int).push(v@[i as int]@));
        i += 1;
    }
    assert(texts(v@).take(i as int) == texts(v@));
    out
}

impl SkillScore {
    /// A copy of this skill.
    pub fn duplicate(&self) -> (r: SkillScore)
        ensures
            r@ == self@,
    {
        SkillScore {
            id: self.id.clone(),
            name: self.name.clone(),
            score_bits: self.score_bits,
            matched_terms: duplicate_texts(&self.matched_terms),
            size_bytes: self.size_bytes,
        }
    }
}

/// The arguments of one call of the ranking service: the runner's name for
/// the script, the script, the query, both limits, and the flag that asks
/// for JSON.
pub open spec fn router_arguments_text(
    script: Seq<char>,
    query: Seq<char>,
    k: Option<usize>,
    max_bytes: Option<usize>,
) -> Seq<Seq<char>> {
    seq![
        "tsx"@,
        script,
        query,
        "--k"@,
        decimal_text(
            match k {
                Some(n) => n,
                None => DEFAULT_MAX_SKILLS,
            } as nat,
        ),
        "--max-bytes"@,
        decimal_text(
            match max_bytes {
                Some(n) => n,
                None => DEFAULT_MAX_BYTES,
            } as nat,
        ),
        "--json"@,
    ]
}

/// Builds the arguments of one call of the ranking service. A limit that
/// the caller leaves out takes its default.
pub fn router_arguments(script: &str, query: &str, k: Option<usize>, max_bytes: Option<usize>) -> (r:
    Vec<String>)
    ensures
        texts(r@) == router_arguments_text(script@, query@, k, max_bytes),
{
    let k = match k {
        Some(n) => n,
        None => DEFAULT_MAX_SKILLS,
    };
    let max_bytes = match max_bytes {
        Some(n) => n,
        None => DEFAULT_MAX_BYTES,
    };
    let mut v: Vec<String> = Vec::new();
    v.push(String::from_str("tsx"));
    v.push(String::from_str(script));
    v.push(String::from_str(query));
    v.push(String::from_str("--k"));
    v.push(decimal(k as u64));
    v.push(String::from_str("--max-bytes"));
    v.push(decimal(max_bytes as u64));
    v.push(String::from_str("--json"));
    assert(texts(v@) =~= router_arguments_text(script@, query@, Some(k), Some(max_bytes)));
    v
}

/// What the end of the ranking process means: a process that did not end
/// in success fails the request, with what it wrote to standard error.
pub fn router_exit(success: bool, stderr: &str) -> (r: Result<(), String>)
    ensures
        r is Ok <==> success,
        r matches Err(message) ==> message@ == "Router execution failed: "@ + stderr@,
{
    if success {
        Ok(())
    } else {
        let mut message = String::from_str("Router execution failed: ");
        message.append(stderr);
        Err(message)
    }
}

impl SkillSelectionView {
    /// What holds of every selection: its record of limits is in order,
    /// and it holds no more skills and no more bytes than the record says
    /// were asked for.
    pub open spec fn well_formed(self) -> bool {
        &&& self.limits.well_formed()
        &&& self.skills.len() <= self.limits.max_skills
        &&& self.total_bytes <= self.limits.max_bytes
    }

    /// Whether the selection holds no more skills and no more bytes than
    /// the given limits allow.
    pub open spec fn within(self, max_skills: usize, max_bytes: usize) -> bool {
        self.skills.len() <= max_skills && self.total_bytes <= max_bytes
    }

    /// Whether the selection is a fit answer to a request with the given
    /// limits: well formed, and within them.
    pub open spec fn answers(self, max_skills: usize, max_bytes: usize) -> bool {
        self.well_formed() && self.within(max_skills, max_bytes)
    }
}

/// The number of skills that a request asks for.
pub open spec fn requested_skills(k: Option<usize>) -> usize {
    match k {
        Some(n) => n,
        None => DEFAULT_MAX_SKILLS,
    }
}

/// The number of bytes that a request asks for.
pub open spec fn requested_bytes(max_bytes: Option<usize>) -> usize {
    match max_bytes {
        Some(n) => n,
        None => DEFAULT_MAX_BYTES,
    }
}

/// What is said of a selection that is no fit answer to its request.
pub open spec fn limits_fault_text() -> Seq<char> {
    "Router returned a selection that exceeds its limits"@
}

/// Holds a selection against the limits that were asked for. A selection
/// that is not well formed, or has more skills or bytes than were asked
/// for, is no answer: it is refused, and handed on unchanged otherwise.
pub fn check_selection(selection: SkillSelection, max_skills: usize, max_bytes: usize) -> (r:
    Result<SkillSelection, String>)
    ensures
        r is Ok <==> selection@.answers(max_skills, max_bytes),
        r matches Ok(checked) ==> checked == selection,
        r matches Err(message) ==> message@ == limits_fault_text(),
{
    let fits = selection.limits.is_well_formed() && selection.skills.len()
        <= selection.limits.max_skills && selection.total_bytes <= selection.limits.max_bytes
        && selection.skills.len() <= max_skills && selection.total_bytes <= max_bytes;
    if fits {
        Ok(selection)
    } else {
        Err(String::from_str("Router returned a selection that exceeds its limits"))
    }
}

/// What the ranking service's answer comes to, for a request with the
/// limits `k` and `max_bytes`, where a limit left out takes its default.
pub open spec fn router_answer_text(
    parsed: Result<SkillSelection, String>,
    k: Option<usize>,
    max_bytes: Option<usize>,
) -> Result<SkillSelectionView, Seq<char>> {
    match parsed {
        Err(complaint) => Err("Failed to parse router output: "@ + complaint@),
        Ok(selection) => if selection@.answers(requested_skills(k), requested_bytes(max_bytes)) {
            Ok(selection@)
        } else {
            Err(limits_fault_text())
        },
    }
}

/// What the reading of the ranking service's answer means. An answer that
/// is no selection fails the request, with the reader's complaint; so does
/// a selection that is not well formed or exceeds the limits that were
/// asked for. Any other selection is handed on unchanged.
pub fn router_answer(
    parsed: Result<SkillSelection, String>,
    k: Option<usize>,
    max_bytes: Option<usize>,
) -> (r: Result<SkillSelection, String>)
    ensures
        r is Ok <==> (parsed matches Ok(s) && s@.answers(
            requested_skills(k),
            requested_bytes(max_bytes),
        )),
        r matches Ok(selection) ==> selection == parsed->Ok_0,
        match r {
            Ok(selection) => router_answer_text(parsed, k, max_bytes) == Ok::<
                SkillSelectionView,
                Seq<char>,
            >(selection@),
            Err(message) => router_answer_text(parsed, k, max_bytes) == Err::<
                SkillSelectionView,
                Seq<char>,
            >(message@),
        },
{
    let max_skills = match k {
        Some(n) => n,
        None => DEFAULT_MAX_SKILLS,
    };
    let max_bytes = match max_bytes {
        Some(n) => n,
        None => DEFAULT_MAX_BYTES,
    };
    match parsed {
        Ok(selection) => check_selection(selection, max_skills, max_bytes),
        Err(complaint) => {
            let mut message = String::from_str("Failed to parse router output: ");
            message.append(complaint.as_str());
            Err(message)
        },
    }
}

/// The position of the first entry of `entries` whose id is `id`.
pub open spec fn first_entry(entries: Seq<SkillMetadata>, id: Seq<char>) -> Option<int>
    decreases entries.len(),
{
    if entries.len() == 0 {
        None
    } else if entries[0].id@ == id {
        Some(0)
    } else {
        match first_entry(entries.drop_first(), id) {
            Some(i) => Some(i + 1),
            None => None,
        }
    }
}

/// An entry before which no entry has the id is the first with it; where
/// no entry has the id there is none.
pub proof fn lemma_first_entry(entries: Seq<SkillMetadata>, id: Seq<char>, k: int)
    requires
        0 <= k <= entries.len(),
        forall|j: int| 0 <= j < k ==> (#[trigger] entries[j]).id@ != id,
        k < entries.len() ==> entries[k].id@ == id,
    ensures
        first_entry(entries, id) == if k < entries.len() {
            Some(k)
        } else {
            None::<int>
        },
    decreases k,
{
    if k > 0 {
        let rest = entries.drop_first();
        assert forall|j: int| 0 <= j < k - 1 implies (#[trigger] rest[j]).id@ != id by {
            assert(rest[j] == entries[j + 1]);
        }
        lemma_first_entry(rest, id, k - 1);
    }
}

/// Finds where the content of a skill lies: the path of the first entry of
/// the index with that id. A skill that the index does not hold fails the
/// request.
pub fn find_skill_path(index: &SkillsIndex, skill_id: &str) -> (r: Result<String, String>)
    ensures
        r is Ok <==> first_entry(index.skills@, skill_id@) is Some,
        r matches Ok(path) ==> path@ == index.skills@[first_entry(
            index.skills@,
            skill_id@,
        )->Some_0].path@,
        r matches Err(message) ==> message@ == "Skill not found: "@ + skill_id@,
{
    let mut i: usize = 0;
    while i < index.skills.len()
        invariant
            i <= index.skills.len(),
            forall|j: int| 0 <= j < i ==> (#[trigger] index.skills@[j]).id@ != skill_id@,
        decreases index.skills.len() - i,
    {
        if same_text(index.skills[i].id.as_str(), skill_id) {
            proof {
                lemma_first_entry(index.skills@, skill_id@, i as int);
            }
            return Ok(index.skills[i].path.clone());
        }
        i += 1;
    }
    proof {
        lemma_first_entry(index.skills@, skill_id@, i as int);
    }
    let mut message = String::from_str("Skill not found: ");
    message.append(skill_id);
    Err(message)
}

} // verus!
