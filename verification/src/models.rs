//! Pipelines, their nodes and edges, and the status of each.
use vstd::prelude::*;
use crate::text::str_equals;
use crate::json::{value_json_text, value_to_string, optional_value_to_string};

verus! {

/// The state a pipeline is in.
#[derive(Clone, Copy, Debug, PartialEq, Eq, Structural)]
pub enum PipelineStatus {
    Idle,
    Running,
    Error,
}

/// The name under which a pipeline status is written out (its lowercase variant name).
pub open spec fn pipeline_status_name(s: PipelineStatus) -> Seq<char> {
    match s {
        PipelineStatus::Idle => "idle"@,
        PipelineStatus::Running => "running"@,
        PipelineStatus::Error => "error"@,
    }
}

/// What a stored status text reads as: `running` and `error` name their
/// status, and any other text reads as the default, `Idle`.
pub open spec fn pipeline_status_from_text(t: Seq<char>) -> PipelineStatus {
    if t == "running"@ {
        PipelineStatus::Running
    } else if t == "error"@ {
        PipelineStatus::Error
    } else {
        PipelineStatus::Idle
    }
}

impl PipelineStatus {
    /// Reads a status from its stored text; text that names no other status reads as `Idle`.
    pub fn parse(s: &str) -> (r: PipelineStatus)
        ensures
            r == pipeline_status_from_text(s@),
    {
        if str_equals(s, "running") {
            PipelineStatus::Running
        } else if str_equals(s, "error") {
            PipelineStatus::Error
        } else {
            PipelineStatus::Idle
        }
    }
}

impl Default for PipelineStatus {
    fn default() -> (r: PipelineStatus)
        ensures
            r == PipelineStatus::Idle,
    {
        PipelineStatus::Idle
    }
}

impl core::str::FromStr for PipelineStatus {
    type Err = ();

    fn from_str(s: &str) -> (r: Result<PipelineStatus, ()>)
        ensures
            r == Ok::<PipelineStatus, ()>(pipeline_status_from_text(s@)),
    {
        Ok(PipelineStatus::parse(s))
    }
}


/// The state a node is in.
#[derive(Clone, Copy, Debug, PartialEq, Eq, Structural)]
pub enum NodeStatus {
    Idle,
    Running,
    Error,
}

impl Default for NodeStatus {
    fn default() -> (r: NodeStatus)
        ensures
            r == NodeStatus::Idle,
    {
        NodeStatus::Idle
    }
}

/// The role of a node in a pipeline, with the bounds on its inputs and outputs.
#[derive(Clone, Copy, Debug, PartialEq, Eq, Structural)]
pub enum NodeType {
    Connector { max_outputs: Option<usize> },
    Transformation {
        min_inputs: usize,
        max_inputs: Option<usize>,
        min_outputs: usize,
        max_outputs: Option<usize>,
    },
    Destination,
}

/// The name of a node's kind, as stored and as written in the `kind` tag.
pub open spec fn node_type_name(t: NodeType) -> Seq<char> {
    match t {
        NodeType::Connector { .. } => "connector"@,
        NodeType::Transformation { .. } => "transformation"@,
        NodeType::Destination => "destination"@,
    }
}

impl NodeType {
    /// The name of this node's kind.
    pub fn as_str(&self) -> (r: &'static str)
        ensures
            r@ == node_type_name(*self),
            self is Connector ==> r@ == "connector"@,
            self is Transformation ==> r@ == "transformation"@,
            self is Destination ==> r@ == "destination"@,
    {
        match self {
            NodeType::Connector { .. } => "connector",
            NodeType::Transformation { .. } => "transformation",
            NodeType::Destination => "destination",
        }
    }
}

/// A node's kind name depends on its variant alone: every connector is named
/// `connector`, every transformation `transformation`, the destination
/// `destination`, whatever the bounds they carry.
pub proof fn lemma_node_type_name_by_variant(a: NodeType, b: NodeType)
    ensures
        a is Connector ==> node_type_name(a) == seq!['c', 'o', 'n', 'n', 'e', 'c', 't', 'o', 'r'],
        a is Transformation ==> node_type_name(a) == seq![
            't', 'r', 'a', 'n', 's', 'f', 'o', 'r', 'm', 'a', 't', 'i', 'o', 'n',
        ],
        a is Destination ==> node_type_name(a) == seq!['d', 'e', 's', 't', 'i', 'n', 'a', 't', 'i', 'o', 'n'],
        (a is Connector && b is Connector) || (a is Transformation && b is Transformation) || (a is Destination
            && b is Destination) ==> node_type_name(a) == node_type_name(b),
{
    reveal_strlit("connector");
    reveal_strlit("transformation");
    reveal_strlit("destination");
    assert("connector"@ =~= seq!['c', 'o', 'n', 'n', 'e', 'c', 't', 'o', 'r']);
    assert("transformation"@ =~= seq!['t', 'r', 'a', 'n', 's', 'f', 'o', 'r', 'm', 'a', 't', 'i', 'o', 'n']);
    assert("destination"@ =~= seq!['d', 'e', 's', 't', 'i', 'n', 'a', 't', 'i', 'o', 'n']);
}

/// Nodes of different kinds have different kind names.
pub proof fn lemma_node_type_names_distinct(a: NodeType, b: NodeType)
    requires
        node_type_name(a) == node_type_name(b),
    ensures
        a is Connector <==> b is Connector,
        a is Transformation <==> b is Transformation,
        a is Destination <==> b is Destination,
{
    reveal_strlit("connector");
    reveal_strlit("transformation");
    reveal_strlit("destination");
    assert("connector"@.len() == 9 && "transformation"@.len() == 14 && "destination"@.len() == 11);
}

/// A directed link from the node with id `from` to the node with id `to`.
#[derive(Clone, Copy, Debug, PartialEq, Eq, Structural)]
pub struct Edge {
    pub from: i32,
    pub to: i32,
}

/// A node of a pipeline: its kind, its configuration and its constraints.
#[derive(Debug)]
pub struct Node {
    pub id: i32,
    pub pipeline_id: i32,
    pub node_type: NodeType,
    pub name: String,
    pub config: serde_json::Value,
    pub constraints: Option<serde_json::Value>,
    pub status: NodeStatus,
    pub created_at: Option<String>,
    pub updated_at: Option<String>,
}

impl Clone for Node {
    fn clone(&self) -> (r: Node)
        ensures
            r == *self,
    {
        Node {
            id: self.id,
            pipeline_id: self.pipeline_id,
            node_type: self.node_type,
            name: self.name.clone(),
            config: self.config.clone(),
            constraints: self.constraints.clone(),
            status: self.status,
            created_at: self.created_at.clone(),
            updated_at: self.updated_at.clone(),
        }
    }
}

impl Node {
    /// A node not yet stored: id 0, status `Idle`, no timestamps.
    pub fn new(
        pipeline_id: i32,
        name: String,
        node_type: NodeType,
        config: serde_json::Value,
        constraints: Option<serde_json::Value>,
    ) -> (r: Node)
        ensures
            r.id == 0,
            r.pipeline_id == pipeline_id,
            r.node_type == node_type,
            r.name == name,
            r.config == config,
            r.constraints == constraints,
            r.status == NodeStatus::Idle,
            r.created_at is None,
            r.updated_at is None,
    {
        Node {
            id: 0,
            pipeline_id,
            node_type,
            name,
            config,
            constraints,
            status: NodeStatus::Idle,
            created_at: None,
            updated_at: None,
        }
    }

    /// The configuration encoded as JSON text; encoding a JSON value always succeeds.
    pub fn config_json(&self) -> (r: Result<String, serde_json::Error>)
        ensures
            r matches Ok(text) && text@ == value_json_text(self.config),
    {
        value_to_string(&self.config)
    }

    /// The constraints encoded as JSON text (`null` where there are none); encoding always succeeds.
    pub fn constraints_json(&self) -> (r: Result<String, serde_json::Error>)
        ensures
            r is Ok,
            self.constraints is None ==> (r matches Ok(text) && text@ == "null"@),
            self.constraints matches Some(v) ==> (r matches Ok(text) && text@ == value_json_text(v)),
    {
        optional_value_to_string(&self.constraints)
    }

    /// A connector node, which reads from a source and feeds at most `max_outputs` nodes.
    pub fn connector(
        pipeline_id: i32,
        name: String,
        max_outputs: Option<usize>,
        config: serde_json::Value,
        constraints: Option<serde_json::Value>,
    ) -> (r: Node)
        ensures
            r == Node::spec_new(
                pipeline_id,
                name,
                NodeType::Connector { max_outputs },
                config,
                constraints,
            ),
            r.id == 0,
            r.status == NodeStatus::Idle,
            r.created_at is None,
            r.updated_at is None,
            r.pipeline_id == pipeline_id,
            r.name == name,
            r.config == config,
            r.node_type == (NodeType::Connector { max_outputs }),
            r.constraints == constraints,
    {
        Self::new(pipeline_id, name, NodeType::Connector { max_outputs }, config, constraints)
    }

    /// A transformation node with the given bounds on its inputs and outputs; it has no constraints.
    pub fn transformation(
        pipeline_id: i32,
        name: String,
        min_inputs: usize,
        max_inputs: Option<usize>,
        min_outputs: usize,
        max_outputs: Option<usize>,
        config: serde_json::Value,
    ) -> (r: Node)
        ensures
            r == Node::spec_new(
                pipeline_id,
                name,
                NodeType::Transformation { min_inputs, max_inputs, min_outputs, max_outputs },
                config,
                None,
            ),
            r.id == 0,
            r.status == NodeStatus::Idle,
            r.created_at is None,
            r.updated_at is None,
            r.pipeline_id == pipeline_id,
            r.name == name,
            r.config == config,
            r.node_type == (NodeType::Transformation { min_inputs, max_inputs, min_outputs, max_outputs }),
            r.constraints is None,
    {
        Self::new(
            pipeline_id,
            name,
            NodeType::Transformation { min_inputs, max_inputs, min_outputs, max_outputs },
            config,
            None,
        )
    }

    /// A destination node; it has no constraints.
    pub fn destination(pipeline_id: i32, name: String, config: serde_json::Value) -> (r: Node)
        ensures
            r == Node::spec_new(pipeline_id, name, NodeType::Destination, config, None),
            r.id == 0,
            r.status == NodeStatus::Idle,
            r.created_at is None,
            r.updated_at is None,
            r.pipeline_id == pipeline_id,
            r.name == name,
            r.config == config,
            r.node_type == NodeType::Destination,
            r.constraints is None,
    {
        Self::new(pipeline_id, name, NodeType::Destination, config, None)
    }

    /// The node that `new` builds from these arguments.
    pub open spec fn spec_new(
        pipeline_id: i32,
        name: String,
        node_type: NodeType,
        config: serde_json::Value,
        constraints: Option<serde_json::Value>,
    ) -> Node {
        Node {
            id: 0,
            pipeline_id,
            node_type,
            name,
            config,
            constraints,
            status: NodeStatus::Idle,
            created_at: None,
            updated_at: None,
        }
    }
}


/// A pipeline: its nodes, the edges between them, and its status.
#[derive(Debug)]
pub struct Pipeline {
    pub id: i32,
    pub name: String,
    pub nodes: Vec<Node>,
    pub edges: Vec<Edge>,
    pub status: PipelineStatus,
    pub created_at: Option<String>,
}

impl Clone for Pipeline {
    fn clone(&self) -> (r: Pipeline)
        ensures
            r.id == self.id,
            r.name == self.name,
            r.nodes@ == self.nodes@,
            r.edges@ == self.edges@,
            r.status == self.status,
            r.created_at == self.created_at,
    {
        let nodes = self.nodes.clone();
        let edges = self.edges.clone();
        proof {
            assert(nodes@ =~= self.nodes@);
            assert(edges@ =~= self.edges@);
        }
        Pipeline {
            id: self.id,
            name: self.name.clone(),
            nodes,
            edges,
            status: self.status,
            created_at: self.created_at.clone(),
        }
    }
}

/// `p` is a pipeline not yet stored, named `name`: id 0, no nodes, no edges,
/// status `Idle`, no creation time.
pub open spec fn is_new_pipeline(p: Pipeline, name: Seq<char>) -> bool {
    &&& p.id == 0
    &&& p.name@ == name
    &&& p.nodes@.len() == 0
    &&& p.edges@.len() == 0
    &&& p.status == PipelineStatus::Idle
    &&& p.created_at is None
}

/// The name a copy of a pipeline named `name` gets.
pub open spec fn copy_name_of(name: Seq<char>) -> Seq<char> {
    name + "_copy"@
}

/// The name a copy of a pipeline named `name` gets: the name followed by `_copy`.
pub fn copy_name(name: &str) -> (r: String)
    ensures
        r@ == copy_name_of(name@),
        r@.len() == name@.len() + 5,
        r@.subrange(0, name@.len() as int) == name@,
        r@.subrange(name@.len() as int, (name@.len() + 5) as int) == seq!['_', 'c', 'o', 'p', 'y'],
{
    let base = String::from_str(name);
    let r = base.concat("_copy");
    proof {
        lemma_copy_name_appends_suffix(name@);
    }
    r
}

/// Whatever the name, its copy's name is the name itself followed by exactly
/// the five characters `_copy`.
pub proof fn lemma_copy_name_appends_suffix(name: Seq<char>)
    ensures
        copy_name_of(name).len() == name.len() + 5,
        copy_name_of(name).subrange(0, name.len() as int) == name,
        copy_name_of(name).subrange(name.len() as int, (name.len() + 5) as int) == seq!['_', 'c', 'o', 'p', 'y'],
{
    reveal_strlit("_copy");
    assert(copy_name_of(name).subrange(0, name.len() as int) =~= name);
    assert(copy_name_of(name).subrange(name.len() as int, (name.len() + 5) as int) =~= seq!['_', 'c', 'o', 'p', 'y']);
}

/// Different names give different copy names.
pub proof fn lemma_copy_name_injective(a: Seq<char>, b: Seq<char>)
    requires
        copy_name_of(a) == copy_name_of(b),
    ensures
        a == b,
{
    lemma_copy_name_appends_suffix(a);
    lemma_copy_name_appends_suffix(b);
    assert(a =~= copy_name_of(a).subrange(0, a.len() as int));
}

/// What creating a pipeline from a submitted one comes to.
pub enum CreatePlan {
    /// Store this new, empty pipeline.
    Fresh(Pipeline),
    /// Store a copy of this pipeline, with its nodes and edges.
    CopyOf(Pipeline),
}

impl Pipeline {
    /// A pipeline not yet stored, with no nodes and no edges.
    pub fn new(name: String) -> (r: Pipeline)
        ensures
            is_new_pipeline(r, name@),
            r.name == name,
    {
        Pipeline {
            id: 0,
            name,
            nodes: Vec::new(),
            edges: Vec::new(),
            status: PipelineStatus::Idle,
            created_at: None,
        }
    }

    /// A stored pipeline as listed: its id, name, status text and creation time,
    /// without its nodes and edges; an unknown status text reads as `Idle`.
    pub fn from_stored(id: i32, name: String, status: &str, created_at: Option<String>) -> (r: Pipeline)
        ensures
            r.id == id,
            r.name == name,
            r.nodes@.len() == 0,
            r.edges@.len() == 0,
            r.status == pipeline_status_from_text(status@),
            r.created_at == created_at,
    {
        Pipeline {
            id,
            name,
            nodes: Vec::new(),
            edges: Vec::new(),
            status: PipelineStatus::parse(status),
            created_at,
        }
    }

    /// The copy of this pipeline stored under `new_id`: named with `_copy` after
    /// the name, with the same nodes and edges, status `Idle` and no creation time.
    pub fn duplicate(&self, new_id: i32) -> (r: Pipeline)
        ensures
            r.id == new_id,
            r.name@ == copy_name_of(self.name@),
            r.nodes@ == self.nodes@,
            r.edges@ == self.edges@,
            r.status == PipelineStatus::Idle,
            r.created_at is None,
    {
        let nodes = self.nodes.clone();
        let edges = self.edges.clone();
        proof {
            assert(nodes@ =~= self.nodes@);
            assert(edges@ =~= self.edges@);
        }
        Pipeline {
            id: new_id,
            name: copy_name(self.name.as_str()),
            nodes,
            edges,
            status: PipelineStatus::Idle,
            created_at: None,
        }
    }
}

/// Decides how a submitted pipeline is created: one with neither nodes nor
/// edges becomes a new empty pipeline of the same name; any other is copied.
pub fn plan_create(payload: Pipeline) -> (r: CreatePlan)
    ensures
        payload.nodes@.len() == 0 && payload.edges@.len() == 0 ==> (r matches CreatePlan::Fresh(p)
            && is_new_pipeline(p, payload.name@)),
        !(payload.nodes@.len() == 0 && payload.edges@.len() == 0) ==> (r matches CreatePlan::CopyOf(p)
            && p == payload),
{
    if payload.nodes.len() == 0 && payload.edges.len() == 0 {
        CreatePlan::Fresh(Pipeline::new(payload.name))
    } else {
        CreatePlan::CopyOf(payload)
    }
}

/// Every node built by `new` (and so by `connector`, `transformation` and
/// `destination`) is not yet stored and idle: id 0, status `Idle`, no
/// timestamps, with the given pipeline, name, kind, configuration and constraints.
pub proof fn lemma_built_nodes_are_unsaved_and_idle(
    pipeline_id: i32,
    name: String,
    node_type: NodeType,
    config: serde_json::Value,
    constraints: Option<serde_json::Value>,
)
    ensures
        Node::spec_new(pipeline_id, name, node_type, config, constraints).id == 0,
        Node::spec_new(pipeline_id, name, node_type, config, constraints).status == NodeStatus::Idle,
        Node::spec_new(pipeline_id, name, node_type, config, constraints).created_at is None,
        Node::spec_new(pipeline_id, name, node_type, config, constraints).updated_at is None,
        Node::spec_new(pipeline_id, name, node_type, config, constraints).pipeline_id == pipeline_id,
        Node::spec_new(pipeline_id, name, node_type, config, constraints).name == name,
        Node::spec_new(pipeline_id, name, node_type, config, constraints).node_type == node_type,
        Node::spec_new(pipeline_id, name, node_type, config, constraints).config == config,
        Node::spec_new(pipeline_id, name, node_type, config, constraints).constraints == constraints,
{
}

/// Reading the written name of a status gives the status back.
pub proof fn lemma_pipeline_status_name_round_trip(s: PipelineStatus)
    ensures
        pipeline_status_from_text(pipeline_status_name(s)) == s,
{
    reveal_strlit("idle");
    reveal_strlit("running");
    reveal_strlit("error");
    assert("idle"@.len() == 4 && "running"@.len() == 7 && "error"@.len() == 5);
}

} // verus!
