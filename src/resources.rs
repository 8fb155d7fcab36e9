//! Display records for pods and nodes, and their extraction from the raw
//! objects that the cluster returns.
use vstd::prelude::*;
use crate::metadata::Metadata;
use crate::sorted_map::SortedMap;
use crate::text::str_eq;

verus! {

/// Container name to that container's environment variables, in name order.
pub type ContainerEnvVars = SortedMap<Metadata>;

/// A pod as the cluster reports it; every field may be missing.
pub struct RawPod {
    pub name: Option<String>,
    pub namespace: Option<String>,
    /// The node the pod is scheduled on.
    pub node_name: Option<String>,
    pub labels: Option<Metadata>,
    pub annotations: Option<Metadata>,
    pub container_env_vars: ContainerEnvVars,
}

/// One status condition of a node, such as `Ready` with status `True`.
pub struct RawCondition {
    pub type_: String,
    pub status: String,
}

/// A node as the cluster reports it; every field may be missing.
pub struct RawNode {
    pub name: Option<String>,
    pub labels: Option<Metadata>,
    pub annotations: Option<Metadata>,
    pub conditions: Option<Vec<RawCondition>>,
}

/// A pod as displayed.
pub struct FarosPod {
    pub name: String,
    pub namespace: String,
    /// The node the pod runs on; `None` when it is not scheduled.
    pub node: Option<String>,
    pub labels: Metadata,
    pub annotations: Metadata,
    pub container_env_vars: ContainerEnvVars,
}

/// Readiness of a node.
#[derive(PartialEq, Eq, Structural, Clone, Copy, Debug)]
pub enum NodeStatus {
    Ready,
    NotReady,
    Unknown,
}

/// A node as displayed.
pub struct FarosNode {
    pub name: String,
    pub labels: Metadata,
    pub annotations: Metadata,
    pub status: NodeStatus,
}

pub open spec fn ready_text() -> Seq<char> {
    seq!['R', 'e', 'a', 'd', 'y']
}

pub open spec fn true_text() -> Seq<char> {
    seq!['T', 'r', 'u', 'e']
}

/// Condition `i` is the first whose type is `Ready`.
pub open spec fn first_ready(conds: Seq<RawCondition>, i: int) -> bool {
    &&& 0 <= i < conds.len()
    &&& conds[i].type_@ == ready_text()
    &&& forall|j: int| 0 <= j < i ==> conds[j].type_@ != ready_text()
}

/// The status that a list of conditions gives: from the first `Ready`
/// condition, `Ready` when its status is `True` and `NotReady` otherwise;
/// `Unknown` when there is no such condition.
pub open spec fn status_in(c: Seq<RawCondition>) -> NodeStatus {
    if exists|i: int| first_ready(c, i) {
        let i = choose|i: int| first_ready(c, i);
        if c[i].status@ == true_text() {
            NodeStatus::Ready
        } else {
            NodeStatus::NotReady
        }
    } else {
        NodeStatus::Unknown
    }
}

/// The status of a node whose condition list may be missing (`Unknown`).
pub open spec fn status_of(conds: Option<Seq<RawCondition>>) -> NodeStatus {
    match conds {
        None => NodeStatus::Unknown,
        Some(c) => status_in(c),
    }
}

pub open spec fn conditions_view(conds: Option<Vec<RawCondition>>) -> Option<Seq<RawCondition>> {
    match conds {
        Some(v) => Some(v@),
        None => None,
    }
}

impl NodeStatus {
    pub open spec fn text(self) -> Seq<char> {
        match self {
            NodeStatus::Ready => ready_text(),
            NodeStatus::NotReady => seq!['N', 'o', 't', 'R', 'e', 'a', 'd', 'y'],
            NodeStatus::Unknown => seq!['U', 'n', 'k', 'n', 'o', 'w', 'n'],
        }
    }

    /// The status as shown in a table.
    pub fn to_text(&self) -> (r: String)
        ensures
            r@ == self.text(),
    {
        proof {
            reveal_strlit("Ready");
            reveal_strlit("NotReady");
            reveal_strlit("Unknown");
        }
        match self {
            NodeStatus::Ready => String::from_str("Ready"),
            NodeStatus::NotReady => String::from_str("NotReady"),
            NodeStatus::Unknown => String::from_str("Unknown"),
        }
    }
}

/// The status that a present list of conditions gives.
fn status_from_conditions(c: &Vec<RawCondition>) -> (r: NodeStatus)
    ensures
        r == status_in(c@),
        (forall|i: int| 0 <= i < c.len() ==> c@[i].type_@ != ready_text()) ==> r == NodeStatus::Unknown,
        forall|i: int| #[trigger] first_ready(c@, i) ==> r == if c@[i].status@ == true_text() {
            NodeStatus::Ready
        } else {
            NodeStatus::NotReady
        },
{
    let ready = String::from_str("Ready");
    let truth = String::from_str("True");
    proof {
        reveal_strlit("Ready");
        reveal_strlit("True");
    }
    let mut i: usize = 0;
    while i < c.len()
        invariant
            ready@ == ready_text(),
            truth@ == true_text(),
            i <= c.len(),
            forall|j: int| 0 <= j < i ==> c@[j].type_@ != ready_text(),
        decreases c.len() - i,
    {
        if c[i].type_ == ready {
            let up = c[i].status == truth;
            proof {
                assert(first_ready(c@, i as int));
                assert forall|k: int| #[trigger] first_ready(c@, k) implies k == i by {
                    if k > i {
                        assert(c@[i as int].type_@ != ready_text());
                    }
                }
                assert(exists|k: int| first_ready(c@, k));
                assert((choose|k: int| first_ready(c@, k)) == i);
            }
            return if up {
                NodeStatus::Ready
            } else {
                NodeStatus::NotReady
            };
        }
        i = i + 1;
    }
    NodeStatus::Unknown
}

/// Derives a node's status from its conditions: the first condition of
/// type `Ready` decides, `Ready` when its status is `True` and `NotReady`
/// otherwise; with no such condition the status is `Unknown`.
pub fn node_status(conditions: &Option<Vec<RawCondition>>) -> (r: NodeStatus)
    ensures
        r == status_of(conditions_view(*conditions)),
        conditions is None ==> r == NodeStatus::Unknown,
        conditions matches Some(c) ==> {
            &&& (forall|i: int| 0 <= i < c.len() ==> c@[i].type_@ != ready_text()) ==> r == NodeStatus::Unknown
            &&& forall|i: int| #[trigger] first_ready(c@, i) ==> r == if c@[i].status@ == true_text() {
                NodeStatus::Ready
            } else {
                NodeStatus::NotReady
            }
        },
{
    match conditions {
        None => NodeStatus::Unknown,
        Some(c) => status_from_conditions(c),
    }
}

pub open spec fn text_or_empty(o: Option<String>) -> Seq<char> {
    match o {
        Some(s) => s@,
        None => Seq::empty(),
    }
}

pub open spec fn entries_or_empty(o: Option<Metadata>) -> Seq<(Seq<char>, Seq<char>)> {
    match o {
        Some(m) => m@,
        None => Seq::empty(),
    }
}

pub open spec fn str_opt_view(o: Option<&str>) -> Option<Seq<char>> {
    match o {
        Some(s) => Some(s@),
        None => None,
    }
}

/// A field passes a name filter: no filter, or the field is present and
/// equal to the wanted name.
pub open spec fn field_selected(value: Option<String>, wanted: Option<Seq<char>>) -> bool {
    match wanted {
        None => true,
        Some(w) => value matches Some(v) && v@ == w,
    }
}

fn field_matches(value: &Option<String>, wanted: Option<&str>) -> (r: bool)
    ensures
        r == field_selected(*value, str_opt_view(wanted)),
{
    match wanted {
        None => true,
        Some(w) => match value {
            Some(v) => str_eq(v.as_str(), w),
            None => false,
        },
    }
}

fn text_or_default(o: Option<String>) -> (r: String)
    ensures
        r@ == text_or_empty(o),
{
    match o {
        Some(s) => s,
        None => String::new(),
    }
}

fn metadata_or_default(o: Option<Metadata>) -> (r: Metadata)
    ensures
        r@ == entries_or_empty(o),
{
    match o {
        Some(m) => m,
        None => SortedMap::new(),
    }
}

/// A raw pod passes the node and name filters.
pub open spec fn pod_selected(raw: RawPod, node: Option<Seq<char>>, name: Option<Seq<char>>) -> bool {
    &&& field_selected(raw.node_name, node)
    &&& field_selected(raw.name, name)
}

/// The raw pods that pass the filters, in their order.
pub open spec fn pods_selected(raws: Seq<RawPod>, node: Option<Seq<char>>, name: Option<Seq<char>>) -> Seq<RawPod>
    decreases raws.len(),
{
    if raws.len() == 0 {
        Seq::empty()
    } else {
        let init = pods_selected(raws.drop_last(), node, name);
        if pod_selected(raws.last(), node, name) {
            init.push(raws.last())
        } else {
            init
        }
    }
}

/// `p` is the record of `raw`: missing names are empty, a missing node
/// stays missing, missing mappings are empty.
pub open spec fn pod_from_raw(p: FarosPod, raw: RawPod) -> bool {
    &&& p.name@ == text_or_empty(raw.name)
    &&& p.namespace@ == text_or_empty(raw.namespace)
    &&& p.node == raw.node_name
    &&& p.labels@ == entries_or_empty(raw.labels)
    &&& p.annotations@ == entries_or_empty(raw.annotations)
    &&& p.container_env_vars@ == raw.container_env_vars@
}

/// The record of a raw pod.
pub fn pod_record(raw: RawPod) -> (r: FarosPod)
    ensures
        pod_from_raw(r, raw),
{
    let RawPod { name, namespace, node_name, labels, annotations, container_env_vars } = raw;
    FarosPod {
        name: text_or_default(name),
        namespace: text_or_default(namespace),
        node: node_name,
        labels: metadata_or_default(labels),
        annotations: metadata_or_default(annotations),
        container_env_vars,
    }
}

/// The records of the raw pods that pass every given filter (node and pod
/// name, each an exact match), in their order. The namespace is chosen when
/// the pods are listed.
pub fn extract_pods(raws: Vec<RawPod>, node_name: Option<&str>, pod_name: Option<&str>) -> (r: Vec<FarosPod>)
    ensures
        r.len() == pods_selected(raws@, str_opt_view(node_name), str_opt_view(pod_name)).len(),
        forall|i: int| 0 <= i < r.len() ==> pod_from_raw(#[trigger] r@[i],
            pods_selected(raws@, str_opt_view(node_name), str_opt_view(pod_name))[i]),
{
    let ghost nd = str_opt_view(node_name);
    let ghost nm = str_opt_view(pod_name);
    let ghost all = raws@;
    let mut out: Vec<FarosPod> = Vec::new();
    for raw in it: raws.into_iter()
        invariant
            it.seq() == all,
            nd == str_opt_view(node_name),
            nm == str_opt_view(pod_name),
            out.len() == pods_selected(all.take(it.index() as int), nd, nm).len(),
            forall|i: int| 0 <= i < out.len() ==> pod_from_raw(#[trigger] out@[i], pods_selected(all.take(it.index() as int), nd, nm)[i]),
    {
        let ghost k = it.index() as int;
        proof {
            assert(all.take(k + 1).drop_last() =~= all.take(k));
            assert(all.take(k + 1).last() == raw);
        }
        if field_matches(&raw.node_name, node_name) && field_matches(&raw.name, pod_name) {
            out.push(pod_record(raw));
        }
    }
    proof {
        assert(all.take(all.len() as int) =~= all);
    }
    out
}

/// A raw node passes the name filter.
pub open spec fn node_selected(raw: RawNode, name: Option<Seq<char>>) -> bool {
    field_selected(raw.name, name)
}

/// The raw nodes that pass the name filter, in their order.
pub open spec fn nodes_selected(raws: Seq<RawNode>, name: Option<Seq<char>>) -> Seq<RawNode>
    decreases raws.len(),
{
    if raws.len() == 0 {
        Seq::empty()
    } else {
        let init = nodes_selected(raws.drop_last(), name);
        if node_selected(raws.last(), name) {
            init.push(raws.last())
        } else {
            init
        }
    }
}

/// `n` is the record of `raw`.
pub open spec fn node_from_raw(n: FarosNode, raw: RawNode) -> bool {
    &&& n.name@ == text_or_empty(raw.name)
    &&& n.labels@ == entries_or_empty(raw.labels)
    &&& n.annotations@ == entries_or_empty(raw.annotations)
    &&& n.status == status_of(conditions_view(raw.conditions))
}

/// The record of a raw node.
pub fn node_record(raw: RawNode) -> (r: FarosNode)
    ensures
        node_from_raw(r, raw),
{
    let status = node_status(&raw.conditions);
    let RawNode { name, labels, annotations, conditions: _ } = raw;
    FarosNode {
        name: text_or_default(name),
        labels: metadata_or_default(labels),
        annotations: metadata_or_default(annotations),
        status,
    }
}

/// The records of the raw nodes whose name is `node_name`, or of all of
/// them when no name is given, in their order.
pub fn extract_nodes(raws: Vec<RawNode>, node_name: Option<&str>) -> (r: Vec<FarosNode>)
    ensures
        r.len() == nodes_selected(raws@, str_opt_view(node_name)).len(),
        forall|i: int| 0 <= i < r.len() ==> node_from_raw(#[trigger] r@[i], nodes_selected(raws@, str_opt_view(node_name))[i]),
{
    let ghost nm = str_opt_view(node_name);
    let ghost all = raws@;
    let mut out: Vec<FarosNode> = Vec::new();
    for raw in it: raws.into_iter()
        invariant
            it.seq() == all,
            nm == str_opt_view(node_name),
            out.len() == nodes_selected(all.take(it.index() as int), nm).len(),
            forall|i: int| 0 <= i < out.len() ==> node_from_raw(#[trigger] out@[i], nodes_selected(all.take(it.index() as int), nm)[i]),
    {
        let ghost k = it.index() as int;
        proof {
            assert(all.take(k + 1).drop_last() =~= all.take(k));
            assert(all.take(k + 1).last() == raw);
        }
        if field_matches(&raw.name, node_name) {
            out.push(node_record(raw));
        }
    }
    proof {
        assert(all.take(all.len() as int) =~= all);
    }
    out
}

} // verus!
