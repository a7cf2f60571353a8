use colossus::cli::{CliApp, LogLevel};
use colossus::datum::Datum;
use colossus::workflow::input::WorkflowInput;
use colossus::workflow::node::WorkflowNode;
use colossus::workflow::variable::WorkflowVariable;
use colossus::workflow::workflow::Workflow;
use std::path::PathBuf;

#[test]
fn verbose_logging_is_at_debug_level() {
    assert_eq!(CliApp::logging_level(LogLevel::Error, true), LogLevel::Debug);
    assert_eq!(CliApp::logging_level(LogLevel::Trace, true), LogLevel::Debug);
    assert_eq!(CliApp::logging_level(LogLevel::Error, false), LogLevel::Error);
    assert_eq!(CliApp::logging_level(LogLevel::Warn, false), LogLevel::Warn);
    assert_eq!(CliApp::logging_level(LogLevel::Info, false), LogLevel::Info);
    assert_eq!(CliApp::logging_level(LogLevel::Trace, false), LogLevel::Trace);
}

#[test]
fn workflow_files_are_known_by_their_extension() {
    assert!(CliApp::is_workflow_file(&PathBuf::from("a.yml")));
    assert!(CliApp::is_workflow_file(&PathBuf::from("a.YAML")));
    assert!(CliApp::is_workflow_file(&PathBuf::from("dir/a.json")));
    assert!(!CliApp::is_workflow_file(&PathBuf::from("a.txt")));
    assert!(!CliApp::is_workflow_file(&PathBuf::from("yml")));
}

#[test]
fn a_report_describes_a_bare_workflow() {
    assert_eq!(
        CliApp::output_text(&Workflow::default()),
        vec![
            "Workflow Information",
            "===================",
            "Name: Unnamed",
            "ID: Not specified",
            "Version: Unknown",
            "Nodes: 0",
            "Inputs: None",
            "Variables: None",
        ]
    );
}

#[test]
fn a_report_describes_a_full_workflow() {
    let mut workflow = Workflow::new("Demo").with_id("demo-1").with_version("1.0.0");
    workflow.inputs = Some(vec![
        WorkflowInput::new("count", "number"),
        WorkflowInput::new("label", "string"),
    ]);
    workflow.variables = Some(vec![WorkflowVariable::new("who", Datum::Null)]);
    workflow.add_node(WorkflowNode::new("a", "Log", None));
    workflow.add_node(WorkflowNode::with_condition("b", "Http", None, "debug == true"));
    assert_eq!(
        CliApp::output_text(&workflow),
        vec![
            "Workflow Information",
            "===================",
            "Name: Demo",
            "ID: demo-1",
            "Version: 1.0.0",
            "Nodes: 2",
            "Inputs: 2",
            "  - count",
            "  - label",
            "Variables: 1",
            "  - who",
            "Node Details:",
            "  - a (type: Log)",
            "  - b (type: Http)",
            "    Condition: debug == true",
        ]
    );
}

#[test]
fn a_report_lists_empty_declarations_with_their_count() {
    let mut workflow = Workflow::new("Empty lists");
    workflow.inputs = Some(vec![]);
    workflow.variables = Some(vec![]);
    workflow.nodes = Some(vec![]);
    assert_eq!(
        CliApp::output_text(&workflow),
        vec![
            "Workflow Information",
            "===================",
            "Name: Empty lists",
            "ID: Not specified",
            "Version: Unknown",
            "Nodes: 0",
            "Inputs: 0",
            "Variables: 0",
            "Node Details:",
        ]
    );
}

#[test]
fn a_valid_workflow_is_confirmed() {
    let mut workflow = Workflow::new("Demo").with_version("2.1");
    for i in 0..12 {
        workflow.add_node(WorkflowNode::new(&format!("n{}", i), "Log", None));
    }
    assert_eq!(
        CliApp::validation_text(&workflow),
        vec![
            "\u{2713} Workflow is valid",
            "  Name: Demo",
            "  Version: 2.1",
            "  Nodes: 12",
        ]
    );
    assert_eq!(
        CliApp::validation_text(&Workflow::default()),
        vec![
            "\u{2713} Workflow is valid",
            "  Name: Unnamed",
            "  Version: Unknown",
            "  Nodes: 0",
        ]
    );
}

#[test]
fn a_listing_names_the_workflow_and_its_file() {
    let mut workflow = Workflow::new("Demo");
    workflow.add_node(WorkflowNode::new("a", "Log", None));
    assert_eq!(
        CliApp::get_workflow_info(&workflow, "demo.yml"),
        "  Demo (1 nodes) - demo.yml"
    );
    assert_eq!(
        CliApp::get_workflow_info(&Workflow::default(), "x.json"),
        "  Unnamed (0 nodes) - x.json"
    );
}
