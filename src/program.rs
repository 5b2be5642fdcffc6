//! The per-surface state store and the render program that reads it.
use vstd::prelude::*;
use std::collections::HashMap;
use crate::compile::{node_model, nodes_model, KindModel, Node, NodeKind, NodeModel};
use crate::style::TextStyle;
use crate::wire::Scalar;

verus! {

broadcast use vstd::std_specs::hash::group_hash_axioms;

/// The mutable state of one node; its shape depends on the kind of widget that owns it.
#[derive(Clone, Copy, Debug, PartialEq, Eq, Structural)]
pub enum Payload {
    SliderValue(Scalar),
    ScrollOffset { x: Scalar, y: Scalar },
}

/// An update message: the node it addresses and its new state.
pub type UpdateMessage = (u32, Payload);

/// The states of the nodes of one compiled tree, by node id. A node without an entry uses
/// its compiled default.
pub struct StateStore {
    entries: HashMap<u32, Payload>,
}

impl View for StateStore {
    type V = Map<u32, Payload>;

    closed spec fn view(&self) -> Map<u32, Payload> {
        self.entries@
    }
}

/// The state that rendering node `id` reads from `store`.
pub open spec fn lookup(store: Map<u32, Payload>, id: nat) -> Option<Payload> {
    if id <= u32::MAX && store.contains_key(id as u32) {
        Some(store[id as u32])
    } else {
        None
    }
}

impl StateStore {
    /// A store without entries.
    pub fn new() -> (r: StateStore)
        ensures
            r@ == Map::<u32, Payload>::empty(),
    {
        StateStore { entries: HashMap::new() }
    }

    /// The state stored for node `id`, if any.
    pub fn get(&self, id: u32) -> (r: Option<Payload>)
        ensures
            r == lookup(self@, id as nat),
    {
        match self.entries.get(&id) {
            Some(p) => Some(*p),
            None => None,
        }
    }

    /// Stores `payload` as the state of node `id`, replacing what was there.
    pub fn insert(&mut self, id: u32, payload: Payload)
        ensures
            final(self)@ == old(self)@.insert(id, payload),
    {
        self.entries.insert(id, payload);
    }
}

/// One element of a rendered tree: a compiled node together with the state it read.
pub struct Element {
    pub id: u32,
    pub kind: NodeKind,
    pub state: Option<Payload>,
    pub children: Vec<Element>,
}

/// A rendered element as a mathematical tree.
pub struct ElementModel {
    pub id: nat,
    pub kind: KindModel,
    pub state: Option<Payload>,
    pub children: Seq<ElementModel>,
}

pub open spec fn element_model(e: Element) -> ElementModel
    decreases e,
{
    ElementModel {
        id: e.id as nat,
        kind: e.kind@,
        state: e.state,
        children: elements_model(e.children@),
    }
}

pub open spec fn elements_model(s: Seq<Element>) -> Seq<ElementModel>
    decreases s,
{
    if s.len() == 0 {
        Seq::empty()
    } else {
        elements_model(s.drop_last()).push(element_model(s.last()))
    }
}

impl View for Element {
    type V = ElementModel;

    open spec fn view(&self) -> ElementModel {
        element_model(*self)
    }
}

/// The element tree that compiled node `n` renders to when the store holds `store`: each
/// node keeps its kind and children and reads the state stored under its own id.
pub open spec fn rendered(n: NodeModel, store: Map<u32, Payload>) -> ElementModel
    decreases n,
{
    ElementModel {
        id: n.id,
        kind: n.kind,
        state: lookup(store, n.id),
        children: rendered_forest(n.children, store),
    }
}

pub open spec fn rendered_forest(s: Seq<NodeModel>, store: Map<u32, Payload>) -> Seq<
    ElementModel,
>
    decreases s,
{
    if s.len() == 0 {
        Seq::empty()
    } else {
        rendered_forest(s.drop_last(), store).push(rendered(s.last(), store))
    }
}

fn copy_kind(k: &NodeKind) -> (r: NodeKind)
    ensures
        r@ == k@,
{
    match k {
        NodeKind::Text(t) => NodeKind::Text(
            TextStyle {
                content: t.content.clone(),
                size: t.size,
                width: t.width,
                height: t.height,
                horizontal: t.horizontal,
                vertical: t.vertical,
                color: t.color,
            },
        ),
        NodeKind::Column(s) => NodeKind::Column(*s),
        NodeKind::Row(s) => NodeKind::Row(*s),
        NodeKind::Scrollable(s) => NodeKind::Scrollable(*s),
        NodeKind::Container(s) => NodeKind::Container(*s),
    }
}

fn render_node(n: &Node, store: &StateStore) -> (r: Element)
    ensures
        element_model(r) == rendered(node_model(*n), store@),
    decreases n,
{
    let mut children: Vec<Element> = Vec::new();
    let mut i: usize = 0;
    proof {
        assert(n.children@.take(0) =~= Seq::<Node>::empty());
    }
    while i < n.children.len()
        invariant
            0 <= i <= n.children.len(),
            elements_model(children@) == rendered_forest(
                nodes_model(n.children@.take(i as int)),
                store@,
            ),
        decreases n.children.len() - i,
    {
        let e = render_node(&n.children[i], store);
        proof {
            let t = n.children@.take(i + 1);
            assert(t.drop_last() =~= n.children@.take(i as int));
            assert(t.last() == n.children@[i as int]);
            assert(nodes_model(t) == nodes_model(t.drop_last()).push(node_model(t.last())));
            assert(nodes_model(t).drop_last() =~= nodes_model(t.drop_last()));
            assert(children@.push(e).drop_last() =~= children@);
        }
        children.push(e);
        i = i + 1;
    }
    proof {
        assert(n.children@.take(i as int) =~= n.children@);
    }
    Element { id: n.id, kind: copy_kind(&n.kind), state: store.get(n.id), children }
}

/// A compiled widget tree with the state of its nodes.
pub struct SnowcapWidgetProgram {
    pub widgets: Node,
    pub widget_state: StateStore,
}

impl SnowcapWidgetProgram {
    pub fn new(widgets: Node, widget_state: StateStore) -> (r: SnowcapWidgetProgram)
        ensures
            node_model(r.widgets) == node_model(widgets),
            r.widget_state@ == widget_state@,
    {
        SnowcapWidgetProgram { widgets, widget_state }
    }

    /// Applies an update message: the one entry it addresses is replaced, nothing else.
    pub fn update(&mut self, message: UpdateMessage)
        ensures
            final(self).widget_state@ == old(self).widget_state@.insert(message.0, message.1),
            node_model(final(self).widgets) == node_model(old(self).widgets),
    {
        self.widget_state.insert(message.0, message.1);
    }

    /// Renders the compiled tree against the current state.
    pub fn view(&self) -> (r: Element)
        ensures
            element_model(r) == rendered(node_model(self.widgets), self.widget_state@),
    {
        render_node(&self.widgets, &self.widget_state)
    }
}

/// Rendering is a function of the compiled tree and the store alone: two renderings of one
/// tree against stores with the same entries are the same element tree.
pub proof fn view_is_pure(n: NodeModel, s1: Map<u32, Payload>, s2: Map<u32, Payload>)
    requires
        s1 == s2,
    ensures
        rendered(n, s1) == rendered(n, s2),
{
}

/// An update addressed to node `id` leaves the state that every other node reads as it was.
pub proof fn update_non_interference(
    store: Map<u32, Payload>,
    id: u32,
    payload: Payload,
    other: nat,
)
    requires
        other != id as nat,
    ensures
        lookup(store.insert(id, payload), other) == lookup(store, other),
        lookup(store.insert(id, payload), id as nat) == Some(payload),
{
}

/// Two stores hold the same state for every node of tree `n`.
pub open spec fn agree_on(n: NodeModel, s1: Map<u32, Payload>, s2: Map<u32, Payload>) -> bool
    decreases n,
{
    lookup(s1, n.id) == lookup(s2, n.id) && agree_on_forest(n.children, s1, s2)
}

pub open spec fn agree_on_forest(
    s: Seq<NodeModel>,
    s1: Map<u32, Payload>,
    s2: Map<u32, Payload>,
) -> bool
    decreases s,
{
    s.len() == 0 || (agree_on_forest(s.drop_last(), s1, s2) && agree_on(s.last(), s1, s2))
}

proof fn lemma_forest_reads_only_its_nodes(
    s: Seq<NodeModel>,
    s1: Map<u32, Payload>,
    s2: Map<u32, Payload>,
)
    requires
        agree_on_forest(s, s1, s2),
    ensures
        rendered_forest(s, s1) == rendered_forest(s, s2),
    decreases s,
{
    if s.len() > 0 {
        lemma_forest_reads_only_its_nodes(s.drop_last(), s1, s2);
        rendering_reads_only_its_nodes(s.last(), s1, s2);
    }
}

/// Rendering a tree reads the store at the tree's own node ids and nowhere else: stores
/// that agree there render the tree alike, whatever they hold for other ids.
pub proof fn rendering_reads_only_its_nodes(
    n: NodeModel,
    s1: Map<u32, Payload>,
    s2: Map<u32, Payload>,
)
    requires
        agree_on(n, s1, s2),
    ensures
        rendered(n, s1) == rendered(n, s2),
    decreases n,
{
    lemma_forest_reads_only_its_nodes(n.children, s1, s2);
}

} // verus!
