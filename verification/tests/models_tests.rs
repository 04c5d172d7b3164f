use plumb::models::{
    copy_name, plan_create, CreatePlan, Edge, Node, NodeStatus, NodeType, Pipeline,
    PipelineStatus,
};
use std::str::FromStr;

fn json(text: &str) -> serde_json::Value {
    serde_json::from_str(text).unwrap()
}

#[test]
fn status_parses_known_names() {
    assert_eq!(PipelineStatus::parse("running"), PipelineStatus::Running);
    assert_eq!(PipelineStatus::parse("error"), PipelineStatus::Error);
    assert_eq!(PipelineStatus::parse("idle"), PipelineStatus::Idle);
}

#[test]
fn status_unknown_text_reads_as_idle() {
    assert_eq!(PipelineStatus::parse("RUNNING"), PipelineStatus::Idle);
    assert_eq!(PipelineStatus::parse(""), PipelineStatus::Idle);
    assert_eq!(PipelineStatus::parse("running "), PipelineStatus::Idle);
    assert_eq!(PipelineStatus::parse("stopped"), PipelineStatus::Idle);
}

#[test]
fn status_from_str_never_fails() {
    assert_eq!(PipelineStatus::from_str("error"), Ok(PipelineStatus::Error));
    assert_eq!("whatever".parse::<PipelineStatus>(), Ok(PipelineStatus::Idle));
    assert_eq!("running".parse::<PipelineStatus>().unwrap_or_default(), PipelineStatus::Running);
}

#[test]
fn status_names_read_back() {
    for (name, status) in [
        ("idle", PipelineStatus::Idle),
        ("running", PipelineStatus::Running),
        ("error", PipelineStatus::Error),
    ] {
        assert_eq!(PipelineStatus::parse(name), status);
    }
}

#[test]
fn statuses_default_to_idle() {
    assert_eq!(PipelineStatus::default(), PipelineStatus::Idle);
    assert_eq!(NodeStatus::default(), NodeStatus::Idle);
}

#[test]
fn node_type_names() {
    assert_eq!(NodeType::Connector { max_outputs: Some(2) }.as_str(), "connector");
    assert_eq!(
        NodeType::Transformation { min_inputs: 1, max_inputs: None, min_outputs: 1, max_outputs: Some(3) }
            .as_str(),
        "transformation"
    );
    assert_eq!(NodeType::Destination.as_str(), "destination");
}

#[test]
fn node_new_is_unsaved_and_idle() {
    let n = Node::new(7, "src".to_string(), NodeType::Destination, json("{\"a\":1}"), None);
    assert_eq!(n.id, 0);
    assert_eq!(n.pipeline_id, 7);
    assert_eq!(n.name, "src");
    assert_eq!(n.node_type, NodeType::Destination);
    assert_eq!(n.config, json("{\"a\":1}"));
    assert_eq!(n.constraints, None);
    assert_eq!(n.status, NodeStatus::Idle);
    assert_eq!(n.created_at, None);
    assert_eq!(n.updated_at, None);
}

#[test]
fn node_builders_set_kind() {
    let c = Node::connector(1, "c".to_string(), Some(4), json("{}"), Some(json("[1]")));
    assert_eq!(c.node_type, NodeType::Connector { max_outputs: Some(4) });
    assert_eq!(c.constraints, Some(json("[1]")));
    assert_eq!(c.pipeline_id, 1);

    let t = Node::transformation(2, "t".to_string(), 1, Some(2), 0, None, json("{\"k\":true}"));
    assert_eq!(
        t.node_type,
        NodeType::Transformation { min_inputs: 1, max_inputs: Some(2), min_outputs: 0, max_outputs: None }
    );
    assert_eq!(t.constraints, None);
    assert_eq!(t.config, json("{\"k\":true}"));

    let d = Node::destination(3, "d".to_string(), json("null"));
    assert_eq!(d.node_type, NodeType::Destination);
    assert_eq!(d.constraints, None);
    assert_eq!(d.id, 0);
}

#[test]
fn node_json_texts() {
    let n = Node::connector(1, "c".to_string(), None, json("{\"path\":\"a.csv\"}"), None);
    assert_eq!(n.config_json().unwrap(), "{\"path\":\"a.csv\"}");
    assert_eq!(n.constraints_json().unwrap(), "null");
    let m = Node::connector(1, "c".to_string(), None, json("[]"), Some(json("{\"max\":2}")));
    assert_eq!(m.constraints_json().unwrap(), "{\"max\":2}");
}

#[test]
fn node_clone_is_equal() {
    let n = Node::connector(1, "c".to_string(), Some(1), json("{\"x\":[1,2]}"), Some(json("3")));
    let m = n.clone();
    assert_eq!(m.id, n.id);
    assert_eq!(m.name, n.name);
    assert_eq!(m.config, n.config);
    assert_eq!(m.constraints, n.constraints);
    assert_eq!(m.node_type, n.node_type);
}

#[test]
fn pipeline_new_is_blank() {
    let p = Pipeline::new("etl".to_string());
    assert_eq!(p.id, 0);
    assert_eq!(p.name, "etl");
    assert!(p.nodes.is_empty());
    assert!(p.edges.is_empty());
    assert_eq!(p.status, PipelineStatus::Idle);
    assert_eq!(p.created_at, None);
}

#[test]
fn pipeline_from_stored_row() {
    let p = Pipeline::from_stored(5, "p".to_string(), "running", Some("2024-01-01".to_string()));
    assert_eq!(p.id, 5);
    assert_eq!(p.status, PipelineStatus::Running);
    assert_eq!(p.created_at, Some("2024-01-01".to_string()));
    assert!(p.nodes.is_empty() && p.edges.is_empty());
    let q = Pipeline::from_stored(6, "q".to_string(), "bogus", None);
    assert_eq!(q.status, PipelineStatus::Idle);
}

#[test]
fn copy_name_appends_suffix() {
    assert_eq!(copy_name("etl"), "etl_copy");
    assert_eq!(copy_name(""), "_copy");
    assert_eq!(copy_name("a_copy"), "a_copy_copy");
}

fn sample_pipeline() -> Pipeline {
    let mut p = Pipeline::new("flow".to_string());
    p.id = 9;
    p.status = PipelineStatus::Error;
    p.created_at = Some("yesterday".to_string());
    p.nodes.push(Node::destination(9, "sink".to_string(), json("{}")));
    p.edges.push(Edge { from: 1, to: 2 });
    p
}

#[test]
fn duplicate_renames_and_resets() {
    let p = sample_pipeline();
    let d = p.duplicate(42);
    assert_eq!(d.id, 42);
    assert_eq!(d.name, "flow_copy");
    assert_eq!(d.nodes.len(), 1);
    assert_eq!(d.nodes[0].name, "sink");
    assert_eq!(d.edges, vec![Edge { from: 1, to: 2 }]);
    assert_eq!(d.status, PipelineStatus::Idle);
    assert_eq!(d.created_at, None);
}

#[test]
fn pipeline_clone_keeps_everything() {
    let p = sample_pipeline();
    let c = p.clone();
    assert_eq!(c.id, 9);
    assert_eq!(c.name, "flow");
    assert_eq!(c.status, PipelineStatus::Error);
    assert_eq!(c.created_at, Some("yesterday".to_string()));
    assert_eq!(c.edges, p.edges);
    assert_eq!(c.nodes.len(), 1);
}

#[test]
fn plan_create_blank_is_fresh() {
    let mut payload = Pipeline::new("new one".to_string());
    payload.id = 77;
    payload.status = PipelineStatus::Running;
    match plan_create(payload) {
        CreatePlan::Fresh(p) => {
            assert_eq!(p.id, 0);
            assert_eq!(p.name, "new one");
            assert_eq!(p.status, PipelineStatus::Idle);
            assert!(p.nodes.is_empty() && p.edges.is_empty());
        }
        CreatePlan::CopyOf(_) => panic!("blank payload must be created fresh"),
    }
}

#[test]
fn plan_create_with_content_is_copied() {
    let payload = sample_pipeline();
    match plan_create(payload) {
        CreatePlan::CopyOf(p) => {
            assert_eq!(p.name, "flow");
            assert_eq!(p.nodes.len(), 1);
        }
        CreatePlan::Fresh(_) => panic!("payload with nodes must be copied"),
    }
    let mut only_edges = Pipeline::new("e".to_string());
    only_edges.edges.push(Edge { from: 3, to: 4 });
    assert!(matches!(plan_create(only_edges), CreatePlan::CopyOf(_)));
}

#[test]
fn node_json_texts_always_encode() {
    let config = json("{\"b\":[1.5,-2,null,true],\"a\":{\"x\":\"y\\n\"}}");
    let n = Node::connector(1, "c".to_string(), None, config, Some(json("0.25")));
    assert_eq!(n.config_json().unwrap(), "{\"a\":{\"x\":\"y\\n\"},\"b\":[1.5,-2,null,true]}");
    assert_eq!(n.constraints_json().unwrap(), "0.25");
}

#[test]
fn node_json_texts_are_the_encoder_texts() {
    let config = json("{\"z\":1,\"a\":[\"q\"]}");
    let extra = json("{\"limit\":3}");
    let n = Node::connector(1, "c".to_string(), None, config.clone(), Some(extra.clone()));
    assert_eq!(n.config_json().unwrap(), serde_json::to_string(&config).unwrap());
    assert_eq!(n.constraints_json().unwrap(), serde_json::to_string(&extra).unwrap());
}
