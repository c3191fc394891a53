use control_plane::commands::skills::{
    check_selection, duplicate_texts, find_skill_path, router_answer, router_arguments,
    router_exit,
    SelectionLimits, SkillMetadata, SkillScore, SkillSelection, SkillsIndex, DEFAULT_MAX_BYTES,
    DEFAULT_MAX_SKILLS,
};
use control_plane::workflows::{debug, plan, TaskResult};

fn index() -> SkillsIndex {
    SkillsIndex {
        skills: vec![
            SkillMetadata { id: "a".to_string(), path: "/skills/a/SKILL.md".to_string() },
            SkillMetadata { id: "b".to_string(), path: "/skills/b/SKILL.md".to_string() },
            SkillMetadata { id: "a".to_string(), path: "/skills/a2/SKILL.md".to_string() },
        ],
    }
}

fn selection(names: &[&str]) -> SkillSelection {
    SkillSelection {
        persona: "p".to_string(),
        category: "c".to_string(),
        skills: names
            .iter()
            .map(|n| SkillScore {
                id: n.to_lowercase(),
                name: n.to_string(),
                score_bits: 1.0f64.to_bits(),
                matched_terms: Vec::new(),
                size_bytes: 1,
            })
            .collect(),
        total_bytes: names.len(),
        limits: SelectionLimits {
            max_skills: 8,
            max_bytes: 80000,
            actual_skills: names.len(),
            actual_bytes: names.len(),
        },
    }
}

#[test]
fn router_arguments_with_defaults() {
    assert_eq!(
        router_arguments("/p/tools/router.ts", "fix docker", None, None),
        vec!["tsx", "/p/tools/router.ts", "fix docker", "--k", "8", "--max-bytes", "80000", "--json"]
    );
    assert_eq!(DEFAULT_MAX_SKILLS, 8);
    assert_eq!(DEFAULT_MAX_BYTES, 80000);
}

#[test]
fn router_arguments_with_limits() {
    assert_eq!(
        router_arguments("s", "q", Some(0), Some(1234567)),
        vec!["tsx", "s", "q", "--k", "0", "--max-bytes", "1234567", "--json"]
    );
    assert_eq!(
        router_arguments("s", "--json", Some(10), Some(9)),
        vec!["tsx", "s", "--json", "--k", "10", "--max-bytes", "9", "--json"]
    );
}

#[test]
fn router_exit_and_answer() {
    assert_eq!(router_exit(true, "warning"), Ok(()));
    assert_eq!(
        router_exit(false, "no such file"),
        Err("Router execution failed: no such file".to_string())
    );
    match router_answer(Ok(selection(&["A"])), None, None) {
        Ok(s) => assert_eq!(s.skills[0].name, "A"),
        Err(e) => panic!("{}", e),
    }
    match router_answer(Err("expected value at line 1 column 1".to_string()), None, None) {
        Err(e) => {
            assert_eq!(e, "Failed to parse router output: expected value at line 1 column 1")
        }
        Ok(_) => panic!("no error"),
    }
}

#[test]
fn skill_path_is_that_of_the_first_entry() {
    assert_eq!(find_skill_path(&index(), "a"), Ok("/skills/a/SKILL.md".to_string()));
    assert_eq!(find_skill_path(&index(), "b"), Ok("/skills/b/SKILL.md".to_string()));
    assert_eq!(find_skill_path(&index(), "c"), Err("Skill not found: c".to_string()));
    assert_eq!(
        find_skill_path(&SkillsIndex { skills: Vec::new() }, "a"),
        Err("Skill not found: a".to_string())
    );
}

#[test]
fn limits_are_well_formed_when_within() {
    let within = SelectionLimits { max_skills: 8, max_bytes: 100, actual_skills: 8, actual_bytes: 100 };
    let many = SelectionLimits { max_skills: 8, max_bytes: 100, actual_skills: 9, actual_bytes: 1 };
    let large = SelectionLimits { max_skills: 8, max_bytes: 100, actual_skills: 1, actual_bytes: 101 };
    assert!(within.is_well_formed());
    assert!(!many.is_well_formed());
    assert!(!large.is_well_formed());
}

#[test]
fn duplicates_are_equal() {
    let v = vec!["x".to_string(), String::new(), "zz".to_string()];
    assert_eq!(duplicate_texts(&v), v);
    let s = selection(&["A"]);
    let d = s.skills[0].duplicate();
    assert_eq!(d.id, "a");
    assert_eq!(d.name, "A");
    assert_eq!(d.score_bits, 1.0f64.to_bits());
    assert_eq!(d.size_bytes, 1);
}

#[test]
fn plan_workflow_asks_for_review() {
    match plan::execute("Add OAuth login".to_string(), &selection(&["A", "B"])) {
        Ok(TaskResult::RequiresReview { artifact, next_step }) => {
            assert_eq!(artifact, "implementation_plan.md");
            assert_eq!(next_step, "Review and approve the plan to proceed");
        }
        other => panic!("{:?}", other),
    }
}

#[test]
fn plan_document_lists_the_skills() {
    assert_eq!(
        plan::draft_plan("Add OAuth", &selection(&["One", "Two"])),
        "# Implementation Plan: Add OAuth\n\n## Goal\nAdd OAuth\n\n## Proposed Changes\n- [ ] TBD based on analysis\n\n## Skills Used\n- One\n- Two\n"
    );
    assert_eq!(
        plan::draft_plan("x", &selection(&[])),
        "# Implementation Plan: x\n\n## Goal\nx\n\n## Proposed Changes\n- [ ] TBD based on analysis\n\n## Skills Used\n\n"
    );
}

#[test]
fn debug_workflow_gives_a_diagnosis() {
    match debug::execute("it crashes".to_string(), &selection(&[])) {
        Ok(TaskResult::DebugDiagnosis { root_cause, proposed_fix, confidence_percent }) => {
            assert_eq!(root_cause, "Hypothetical Root Cause: Configuration mismatch");
            assert_eq!(proposed_fix, "Update config.toml with correct port");
            assert_eq!(confidence_percent, 85);
        }
        other => panic!("{:?}", other),
    }
}

fn limits_fault() -> String {
    "Router returned a selection that exceeds its limits".to_string()
}

#[test]
fn router_answer_refuses_a_selection_beyond_its_limits() {
    let mut more_than_recorded = selection(&["A"]);
    more_than_recorded.limits.actual_skills = 5;
    more_than_recorded.limits.max_skills = 1;
    assert_eq!(router_answer(Ok(more_than_recorded), None, None).unwrap_err(), limits_fault());

    let mut bytes_beyond = selection(&["A"]);
    bytes_beyond.limits.actual_bytes = 80001;
    assert_eq!(router_answer(Ok(bytes_beyond), None, None).unwrap_err(), limits_fault());

    let mut more_skills_than_limit = selection(&["A", "B", "C"]);
    more_skills_than_limit.limits.max_skills = 2;
    more_skills_than_limit.limits.actual_skills = 2;
    assert_eq!(router_answer(Ok(more_skills_than_limit), None, None).unwrap_err(), limits_fault());

    let mut total_beyond = selection(&["A"]);
    total_beyond.total_bytes = 80001;
    assert_eq!(router_answer(Ok(total_beyond), None, None).unwrap_err(), limits_fault());
}

#[test]
fn router_answer_holds_a_selection_to_the_request() {
    assert!(router_answer(Ok(selection(&["A", "B"])), Some(2), Some(2)).is_ok());
    assert_eq!(
        router_answer(Ok(selection(&["A", "B"])), Some(1), None).unwrap_err(),
        limits_fault()
    );
    assert_eq!(
        router_answer(Ok(selection(&["A", "B"])), None, Some(1)).unwrap_err(),
        limits_fault()
    );
    assert!(router_answer(Ok(selection(&[])), Some(0), Some(0)).is_ok());
    let many: Vec<String> = (0..9).map(|i| format!("S{}", i)).collect();
    let names: Vec<&str> = many.iter().map(|s| s.as_str()).collect();
    let mut nine = selection(&names);
    nine.limits.max_skills = 9;
    assert_eq!(router_answer(Ok(nine), None, None).unwrap_err(), limits_fault());
}

#[test]
fn check_selection_hands_a_fit_selection_on() {
    match check_selection(selection(&["A", "B"]), 8, 80000) {
        Ok(s) => {
            assert_eq!(s.skills.len(), 2);
            assert_eq!(s.skills[1].name, "B");
            assert_eq!(s.total_bytes, 2);
            assert_eq!(s.limits.actual_skills, 2);
        }
        Err(e) => panic!("{}", e),
    }
    assert_eq!(check_selection(selection(&["A", "B"]), 1, 80000).unwrap_err(), limits_fault());
}
