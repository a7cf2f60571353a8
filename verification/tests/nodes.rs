use colossus::datum::Datum;
use colossus::engine::WorkflowError;
use colossus::heap::Heap;
use colossus::nodes::base::{BaseNode, BaseNodeRunOptions};
use colossus::nodes::log::LogNode;
use colossus::nodes::{Node, NodeBuilder};
use colossus::workflow::node::WorkflowNode;

#[test]
fn test_base_node_run_options_new() {
    let heap = Heap::new();
    let options = BaseNodeRunOptions::new(&heap, "test_node");

    assert!(std::ptr::eq(options.heap(), &heap));
    assert_eq!(options.prefix(), "test_node");
}

#[test]
fn test_base_node_run_options_with_heap() {
    let heap1 = Heap::new();
    let heap2 = Heap::new();
    let options = BaseNodeRunOptions::new(&heap1, "test_node").with_heap(&heap2);

    assert!(std::ptr::eq(options.heap(), &heap2));
    assert_eq!(options.prefix(), "test_node");
}

#[test]
fn test_base_node_run_options_with_prefix() {
    let heap = Heap::new();
    let options =
        BaseNodeRunOptions::new(&heap, "initial_prefix").with_prefix("updated_prefix");

    assert!(std::ptr::eq(options.heap(), &heap));
    assert_eq!(options.prefix(), "updated_prefix");
}

#[test]
fn test_base_node_run_options_builder_pattern() {
    let heap = Heap::new();
    let options = BaseNodeRunOptions::new(&heap, "initial")
        .with_heap(&heap)
        .with_prefix("final");

    assert_eq!(options.prefix(), "final");
}

#[test]
fn test_base_node_run_options_string_conversion() {
    let heap = Heap::new();
    let options = BaseNodeRunOptions::new(&heap, "test_node");

    assert_eq!(options.prefix(), "test_node");
}

#[test]
fn test_base_node_run_options_heap_reference() {
    let mut heap = Heap::new();
    heap.insert("test_key", Some(Datum::String("test_value".to_string())));

    let options = BaseNodeRunOptions::new(&heap, "test_node");
    let heap_ref = options.heap();

    assert_eq!(
        heap_ref.get("test_key"),
        Some(&Datum::String("test_value".to_string()))
    );
}

#[test]
fn test_log_node_new() {
    let input = Datum::String("test message".to_string());
    let node = LogNode::new(Some(input.clone()));
    assert_eq!(node.input(), Some(&input));
}

#[test]
fn test_log_node_new_none() {
    let node = LogNode::new(None);
    assert_eq!(node.input(), None);
}

#[test]
fn test_log_node_default() {
    let node = LogNode::default();
    assert_eq!(node.input(), None);
}

#[test]
fn test_log_node_from_value() {
    let input = Datum::String("test message".to_string());
    let node = LogNode::from(input.clone());
    assert_eq!(node.input(), Some(&input));
}

#[test]
fn test_log_node_from_option_value() {
    let input = Datum::String("test message".to_string());
    let node = LogNode::from(Some(input.clone()));
    assert_eq!(node.input(), Some(&input));
}

#[test]
fn test_log_node_from_option_none() {
    let node = LogNode::from(None as Option<Datum>);
    assert_eq!(node.input(), None);
}

#[test]
fn test_log_node_execute_with_input() {
    let input = Datum::String("Hello, World!".to_string());
    let node = LogNode::new(Some(input.clone()));
    let heap = Heap::new();
    let options = BaseNodeRunOptions::new(&heap, "test");

    let result = node.execute(options);
    assert!(result.is_ok());
    assert_eq!(result.unwrap(), input);
}

#[test]
fn test_log_node_execute_without_input() {
    let node = LogNode::new(None);
    let heap = Heap::new();
    let options = BaseNodeRunOptions::new(&heap, "test");

    let result = node.execute(options);
    assert!(result.is_err());

    match result.unwrap_err() {
        WorkflowError::NodeExecutionFailed(msg) => {
            assert!(msg.contains("Log node requires an input value"));
        }
        _ => panic!("Expected NodeExecutionFailed error"),
    }
}

#[test]
fn test_log_node_execute_with_number_input() {
    let input = Datum::Number(42.into());
    let node = LogNode::new(Some(input.clone()));
    let heap = Heap::new();
    let options = BaseNodeRunOptions::new(&heap, "test");

    let result = node.execute(options);
    assert!(result.is_ok());
    assert_eq!(result.unwrap(), input);
}

#[test]
fn test_log_node_execute_with_boolean_input() {
    let input = Datum::Bool(true);
    let node = LogNode::new(Some(input.clone()));
    let heap = Heap::new();
    let options = BaseNodeRunOptions::new(&heap, "test");

    let result = node.execute(options);
    assert!(result.is_ok());
    assert_eq!(result.unwrap(), input);
}

#[test]
fn test_log_node_execute_with_null_input() {
    let input = Datum::Null;
    let node = LogNode::new(Some(input.clone()));
    let heap = Heap::new();
    let options = BaseNodeRunOptions::new(&heap, "test");

    let result = node.execute(options);
    assert!(result.is_ok());
    assert_eq!(result.unwrap(), input);
}

#[test]
fn test_node_builder_new() {
    let builder = NodeBuilder::new();
    assert!(builder.workflow_node().is_none());
    assert!(builder.input().is_none());
}

#[test]
fn test_node_builder_default() {
    let builder = NodeBuilder::default();
    assert!(builder.workflow_node().is_none());
    assert!(builder.input().is_none());
}

#[test]
fn test_node_builder_with_workflow_node() {
    let node = WorkflowNode::new("test", "Log", Some(Datum::String("message".to_string())));
    let builder = NodeBuilder::new().with_workflow_node(node.clone());

    let builder_node = builder.workflow_node().unwrap();
    assert_eq!(builder_node.id, node.id);
    assert_eq!(builder.input(), Some(&Datum::String("message".to_string())));
}

#[test]
fn test_node_builder_with_input() {
    let input = Datum::String("custom input".to_string());
    let builder = NodeBuilder::new().with_input(input.clone());

    assert_eq!(builder.input(), Some(&input));
}

#[test]
fn test_node_builder_build_log_node() {
    let mut heap = Heap::new();
    let node = WorkflowNode::new(
        "log1",
        "Log",
        Some(Datum::String("Hello, World!".to_string())),
    );
    let builder = NodeBuilder::new().with_workflow_node(node);

    let result = builder.build(&mut heap);
    assert!(result.is_ok());

    let _node_instance = result.unwrap();
}

#[test]
fn test_node_builder_build_invalid_node() {
    let mut heap = Heap::new();
    let node = WorkflowNode::new("invalid", "InvalidNode", None);
    let builder = NodeBuilder::new().with_workflow_node(node);

    let result = builder.build(&mut heap);
    assert!(result.is_err());

    if let Err(WorkflowError::InvalidNode(node_type)) = result {
        assert_eq!(node_type, "InvalidNode");
    } else {
        panic!("Expected InvalidNode error");
    }
}

#[test]
fn test_node_builder_build_no_workflow_node() {
    let mut heap = Heap::new();
    let builder = NodeBuilder::new();

    let result = builder.build(&mut heap);
    assert!(result.is_err());

    if let Err(WorkflowError::NodeBuilder(msg)) = result {
        assert!(msg.contains("No workflow node configuration provided"));
    } else {
        panic!("Expected NodeBuilder error");
    }
}

#[test]
fn test_node_builder_from_workflow_node() {
    let node = WorkflowNode::new("test", "Log", Some(Datum::String("message".to_string())));
    let builder = NodeBuilder::from(node.clone());

    let builder_node = builder.workflow_node().unwrap();
    assert_eq!(builder_node.id, node.id);
    assert_eq!(builder.input(), Some(&Datum::String("message".to_string())));
}

#[test]
fn test_node_builder_with_heap_parsing() {
    let mut heap = Heap::new();
    heap.insert("name", Some(Datum::String("John".to_string())));

    let node = WorkflowNode::new(
        "log1",
        "Log",
        Some(Datum::String("Hello {{name}}".to_string())),
    );
    let builder = NodeBuilder::new().with_workflow_node(node);

    let result = builder.build(&mut heap);
    assert!(result.is_ok());

    let _node_instance = result.unwrap();
}

fn input_of(node: &Node) -> Option<&Datum> {
    match node {
        Node::Log(log) => log.input(),
    }
}

#[test]
fn build_substitutes_the_input_against_the_heap() {
    let mut heap = Heap::new();
    heap.insert("name", Some(Datum::String("John".to_string())));

    let node = WorkflowNode::new(
        "log1",
        "Log",
        Some(Datum::String("Hello ${{name}}".to_string())),
    );
    let built = NodeBuilder::new().with_workflow_node(node).build(&mut heap).unwrap();
    assert_eq!(input_of(&built), Some(&Datum::String("Hello John".to_string())));
    assert_eq!(heap.len(), 1);

    let heap = Heap::new();
    let result = built.execute(BaseNodeRunOptions::new(&heap, "log1"));
    assert_eq!(result.unwrap(), Datum::String("Hello John".to_string()));
}

#[test]
fn build_uses_the_input_set_last() {
    let mut heap = Heap::new();
    let node = WorkflowNode::new("n", "Log", Some(Datum::Bool(false)));
    let built = NodeBuilder::new()
        .with_workflow_node(node.clone())
        .with_input(Datum::Bool(true))
        .build(&mut heap)
        .unwrap();
    assert_eq!(input_of(&built), Some(&Datum::Bool(true)));
    let built = NodeBuilder::new()
        .with_input(Datum::Bool(true))
        .with_workflow_node(node)
        .build(&mut heap)
        .unwrap();
    assert_eq!(input_of(&built), Some(&Datum::Bool(false)));
}

#[test]
fn build_matches_the_tag_exactly() {
    let mut heap = Heap::new();
    for tag in ["log", "LOG", "Log ", " Log", "", "Logger"] {
        let node = WorkflowNode::new("n", tag, Some(Datum::Null));
        match NodeBuilder::new().with_workflow_node(node).build(&mut heap) {
            Err(WorkflowError::InvalidNode(found)) => assert_eq!(found, tag),
            other => panic!("expected InvalidNode, got {:?}", other),
        }
    }
}

#[test]
fn build_without_a_workflow_node_fails_even_with_an_input() {
    let mut heap = Heap::new();
    let result = NodeBuilder::new().with_input(Datum::Null).build(&mut heap);
    match result {
        Err(WorkflowError::NodeBuilder(message)) => {
            assert_eq!(message, "No workflow node configuration provided");
        }
        other => panic!("expected NodeBuilder, got {:?}", other),
    }
}
