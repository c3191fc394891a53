use control_plane::commands::workflows::{
    filter_skills_for_widget, get_widget_allowed_skills, get_widget_allowed_workflows,
    is_widget_mode, match_command, parse_workflow_command, register_widget_session,
    unregister_widget_session, validate_widget_workflow, WidgetRegistry, WorkflowCommand,
    WIDGET_MAX_BYTES, WIDGET_MAX_SKILLS,
};

#[test]
fn test_parse_workflow_commands() {
    assert_eq!(parse_workflow_command("/plan"), Some(WorkflowCommand::Plan));
    assert_eq!(parse_workflow_command("/debug issue"), Some(WorkflowCommand::Debug));
    assert_eq!(parse_workflow_command("  /PLAN  "), Some(WorkflowCommand::Plan));
    assert_eq!(parse_workflow_command("regular message"), None);
}

#[test]
fn test_widget_mode_tracking() {
    let mut registry = WidgetRegistry::new();
    let session = "test-session-123";
    assert!(!is_widget_mode(&registry, session));

    register_widget_session(&mut registry, session.to_string());
    assert!(is_widget_mode(&registry, session));

    unregister_widget_session(&mut registry, session);
    assert!(!is_widget_mode(&registry, session));
}

#[test]
fn test_widget_workflow_validation() {
    let mut registry = WidgetRegistry::new();
    let session = "widget-test";

    assert!(validate_widget_workflow(&registry, session, &Some(WorkflowCommand::Plan)).is_ok());

    register_widget_session(&mut registry, session.to_string());
    assert!(validate_widget_workflow(&registry, session, &Some(WorkflowCommand::Debug)).is_ok());
    assert!(validate_widget_workflow(&registry, session, &Some(WorkflowCommand::Plan)).is_err());

    unregister_widget_session(&mut registry, session);
}

#[test]
fn parse_reads_every_command() {
    assert_eq!(parse_workflow_command("/create a page"), Some(WorkflowCommand::Create));
    assert_eq!(parse_workflow_command("/test it"), Some(WorkflowCommand::Test));
    assert_eq!(parse_workflow_command("/deploy now"), Some(WorkflowCommand::Deploy));
    assert_eq!(parse_workflow_command("\t\n /Debug"), Some(WorkflowCommand::Debug));
    assert_eq!(parse_workflow_command("/planning ahead"), Some(WorkflowCommand::Plan));
}

#[test]
fn parse_wants_the_command_at_the_start() {
    assert_eq!(parse_workflow_command(""), None);
    assert_eq!(parse_workflow_command("   "), None);
    assert_eq!(parse_workflow_command("please /plan"), None);
    assert_eq!(parse_workflow_command("/pla"), None);
    assert_eq!(parse_workflow_command("/ plan"), None);
}

#[test]
fn parse_drops_unicode_whitespace_and_lowers_case() {
    assert_eq!(parse_workflow_command("\u{2003}\u{a0}/DEPLOY"), Some(WorkflowCommand::Deploy));
    assert_eq!(parse_workflow_command("\u{3000}/TeSt"), Some(WorkflowCommand::Test));
}

#[test]
fn match_command_reads_lowercased_text_only() {
    assert_eq!(match_command("/plan x"), Some(WorkflowCommand::Plan));
    assert_eq!(match_command("/PLAN x"), None);
    assert_eq!(match_command(" /plan"), None);
}

#[test]
fn personas_and_descriptions() {
    assert_eq!(WorkflowCommand::Plan.get_persona(), "architect");
    assert_eq!(WorkflowCommand::Debug.get_persona(), "troubleshooter");
    assert_eq!(WorkflowCommand::Create.get_persona(), "builder");
    assert_eq!(WorkflowCommand::Test.get_persona(), "qa-engineer");
    assert_eq!(WorkflowCommand::Deploy.get_persona(), "devops-engineer");
    assert_eq!(WorkflowCommand::Plan.get_description(), "Creating structured implementation plan");
    assert_eq!(WorkflowCommand::Debug.get_description(), "Performing systematic troubleshooting");
    assert_eq!(WorkflowCommand::Create.get_description(), "Generating new feature");
    assert_eq!(WorkflowCommand::Test.get_description(), "Writing and executing tests");
    assert_eq!(WorkflowCommand::Deploy.get_description(), "Executing deployment procedures");
}

#[test]
fn registering_twice_then_unregistering_once() {
    let mut registry = WidgetRegistry::new();
    register_widget_session(&mut registry, "s".to_string());
    register_widget_session(&mut registry, "s".to_string());
    assert!(is_widget_mode(&registry, "s"));
    unregister_widget_session(&mut registry, "s");
    assert!(!is_widget_mode(&registry, "s"));
}

#[test]
fn unregistering_an_unknown_session_changes_nothing() {
    let mut registry = WidgetRegistry::new();
    register_widget_session(&mut registry, "a".to_string());
    unregister_widget_session(&mut registry, "b");
    assert!(is_widget_mode(&registry, "a"));
    assert!(!is_widget_mode(&registry, "b"));
}

#[test]
fn registry_keeps_sessions_apart() {
    let mut registry = WidgetRegistry::new();
    register_widget_session(&mut registry, "a".to_string());
    register_widget_session(&mut registry, "b".to_string());
    unregister_widget_session(&mut registry, "a");
    assert!(!is_widget_mode(&registry, "a"));
    assert!(is_widget_mode(&registry, "b"));
}

#[test]
fn allowlists() {
    assert_eq!(get_widget_allowed_workflows(), vec![WorkflowCommand::Debug]);
    assert_eq!(
        get_widget_allowed_skills(),
        vec![
            "awesome-troubleshooting".to_string(),
            "awesome-error-analysis".to_string(),
            "awesome-debugging-mindset".to_string(),
            "awesome-root-cause-analysis".to_string(),
        ]
    );
    assert_eq!(WIDGET_MAX_SKILLS, 3);
    assert_eq!(WIDGET_MAX_BYTES, 30_000);
}

#[test]
fn denial_names_the_allowed_workflows() {
    let mut registry = WidgetRegistry::new();
    register_widget_session(&mut registry, "w".to_string());
    for cmd in [
        WorkflowCommand::Plan,
        WorkflowCommand::Create,
        WorkflowCommand::Test,
        WorkflowCommand::Deploy,
    ] {
        assert_eq!(
            validate_widget_workflow(&registry, "w", &Some(cmd)),
            Err("Widget mode: only [Debug] workflows allowed".to_string())
        );
    }
    assert_eq!(validate_widget_workflow(&registry, "w", &None), Ok(()));
    assert_eq!(validate_widget_workflow(&registry, "other", &Some(WorkflowCommand::Deploy)), Ok(()));
}

#[test]
fn filter_keeps_allowed_skills_in_order_up_to_three() {
    let mut registry = WidgetRegistry::new();
    register_widget_session(&mut registry, "w".to_string());
    let mut ids = vec![
        "awesome-root-cause-analysis".to_string(),
        "other".to_string(),
        "awesome-troubleshooting".to_string(),
        "awesome-error-analysis".to_string(),
        "awesome-debugging-mindset".to_string(),
    ];
    filter_skills_for_widget(&registry, "w", &mut ids);
    assert_eq!(
        ids,
        vec![
            "awesome-root-cause-analysis".to_string(),
            "awesome-troubleshooting".to_string(),
            "awesome-error-analysis".to_string(),
        ]
    );
}

#[test]
fn filter_leaves_other_sessions_alone() {
    let registry = WidgetRegistry::new();
    let mut ids = vec!["x".to_string(), "awesome-troubleshooting".to_string(), "y".to_string(), "z".to_string()];
    filter_skills_for_widget(&registry, "free", &mut ids);
    assert_eq!(ids, vec!["x".to_string(), "awesome-troubleshooting".to_string(), "y".to_string(), "z".to_string()]);
}

#[test]
fn filter_may_leave_nothing() {
    let mut registry = WidgetRegistry::new();
    register_widget_session(&mut registry, "w".to_string());
    let mut ids = vec!["x".to_string(), "y".to_string()];
    filter_skills_for_widget(&registry, "w", &mut ids);
    assert!(ids.is_empty());
}
