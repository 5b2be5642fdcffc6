//! The widget compiler: a widget-definition tree becomes a tree of nodes, each addressed by
//! the node id that a pre-order walk of the definition gives it.
use vstd::prelude::*;
use crate::program::{Payload, StateStore};
use crate::convert::FromApi;
use crate::style::{
    Align,
    align_of, align_or_start, direction_of, insets_of, length_or_shrink, resolve_direction, resolve_length, resolve_optional_alignment, resolve_padding, BoxStyle,
    FlowStyle, ScrollStyle, TextModel, TextStyle,
};
use crate::wire::{
    child_size, def_size, forest_size, ColumnDef, ContainerDef, RowDef, ScrollableDef, TextDef,
    Widget, WidgetDefinition,
};

verus! {

/// What a compiled node draws, with its static style.
pub enum NodeKind {
    Text(TextStyle),
    Column(FlowStyle),
    Row(FlowStyle),
    Scrollable(ScrollStyle),
    Container(BoxStyle),
}

/// A node kind as a mathematical value.
pub enum KindModel {
    Text(TextModel),
    Column(FlowStyle),
    Row(FlowStyle),
    Scrollable(ScrollStyle),
    Container(BoxStyle),
}

impl View for NodeKind {
    type V = KindModel;

    open spec fn view(&self) -> KindModel {
        match self {
            NodeKind::Text(t) => KindModel::Text(t@),
            NodeKind::Column(s) => KindModel::Column(*s),
            NodeKind::Row(s) => KindModel::Row(*s),
            NodeKind::Scrollable(s) => KindModel::Scrollable(*s),
            NodeKind::Container(s) => KindModel::Container(*s),
        }
    }
}

/// One compiled node: its id, what it draws, and its compiled children in order.
pub struct Node {
    pub id: u32,
    pub kind: NodeKind,
    pub children: Vec<Node>,
}

/// A compiled node as a mathematical tree.
pub struct NodeModel {
    pub id: nat,
    pub kind: KindModel,
    pub children: Seq<NodeModel>,
}

pub open spec fn node_model(n: Node) -> NodeModel
    decreases n,
{
    NodeModel { id: n.id as nat, kind: n.kind@, children: nodes_model(n.children@) }
}

pub open spec fn nodes_model(s: Seq<Node>) -> Seq<NodeModel>
    decreases s,
{
    if s.len() == 0 {
        Seq::empty()
    } else {
        nodes_model(s.drop_last()).push(node_model(s.last()))
    }
}

impl View for Node {
    type V = NodeModel;

    open spec fn view(&self) -> NodeModel {
        node_model(*self)
    }
}

pub open spec fn option_model(n: Option<Node>) -> Option<NodeModel> {
    match n {
        Some(n) => Some(node_model(n)),
        None => None,
    }
}

/// The text style compiled from a text definition; absent content is the empty string.
pub open spec fn text_model(t: TextDef) -> TextModel {
    TextModel {
        content: match t.text {
            Some(s) => s@,
            None => Seq::empty(),
        },
        size: t.pixels,
        width: length_or_shrink(t.width),
        height: length_or_shrink(t.height),
        horizontal: align_of(t.horizontal_alignment),
        vertical: align_of(t.vertical_alignment),
        color: t.color,
    }
}

pub open spec fn column_style(c: ColumnDef) -> FlowStyle {
    FlowStyle {
        spacing: c.spacing,
        padding: insets_of(c.padding),
        item_alignment: align_or_start(c.item_alignment),
        width: length_or_shrink(c.width),
        height: length_or_shrink(c.height),
        max_width: c.max_width,
        clip: c.clip.unwrap_or(false),
    }
}

pub open spec fn row_style(r: RowDef) -> FlowStyle {
    FlowStyle {
        spacing: r.spacing,
        padding: insets_of(r.padding),
        item_alignment: align_or_start(r.item_alignment),
        width: length_or_shrink(r.width),
        height: length_or_shrink(r.height),
        max_width: None,
        clip: r.clip.unwrap_or(false),
    }
}

pub open spec fn scroll_style(s: ScrollableDef) -> ScrollStyle {
    ScrollStyle {
        width: length_or_shrink(s.width),
        height: length_or_shrink(s.height),
        direction: direction_of(s.direction),
    }
}

pub open spec fn box_style(c: ContainerDef) -> BoxStyle {
    BoxStyle {
        padding: insets_of(c.padding),
        width: length_or_shrink(c.width),
        height: length_or_shrink(c.height),
        max_width: c.max_width,
        max_height: c.max_height,
        horizontal: align_or_start(c.horizontal_alignment),
        vertical: align_or_start(c.vertical_alignment),
        clip: c.clip.unwrap_or(false),
        text_color: c.text_color,
        background_color: c.background_color,
        border_radius: c.border_radius,
        border_thickness: c.border_thickness,
        border_color: c.border_color,
    }
}

/// The node compiled from `def` when the walk reaches it with id `id`, or `None` when the
/// subtree does not compile: its variant is missing, or so is (or fails) its required child.
/// The children of a column or a row that fail are left out; the others keep their ids.
pub open spec fn compiled(def: WidgetDefinition, id: nat) -> Option<NodeModel>
    decreases def,
{
    match def.widget {
        None => None,
        Some(Widget::Text(t)) => Some(
            NodeModel { id, kind: KindModel::Text(text_model(t)), children: Seq::empty() },
        ),
        Some(Widget::Column(c)) => Some(
            NodeModel {
                id,
                kind: KindModel::Column(column_style(c)),
                children: compiled_forest(c.children@, id + 1),
            },
        ),
        Some(Widget::Row(r)) => Some(
            NodeModel {
                id,
                kind: KindModel::Row(row_style(r)),
                children: compiled_forest(r.children@, id + 1),
            },
        ),
        Some(Widget::Scrollable(s)) => match compiled_child(s.child, id + 1) {
            Some(n) => Some(
                NodeModel {
                    id,
                    kind: KindModel::Scrollable(scroll_style(*s)),
                    children: seq![n],
                },
            ),
            None => None,
        },
        Some(Widget::Container(c)) => match compiled_child(c.child, id + 1) {
            Some(n) => Some(
                NodeModel { id, kind: KindModel::Container(box_style(*c)), children: seq![n] },
            ),
            None => None,
        },
    }
}

/// The node compiled from a required child, `None` when it is absent or fails.
pub open spec fn compiled_child(child: Option<Box<WidgetDefinition>>, id: nat) -> Option<
    NodeModel,
>
    decreases child,
{
    match child {
        Some(d) => compiled(*d, id),
        None => None,
    }
}

/// The nodes compiled from a run of siblings whose first is reached with id `id`: each
/// sibling's id follows the whole subtree of the one before it.
pub open spec fn compiled_forest(defs: Seq<WidgetDefinition>, id: nat) -> Seq<NodeModel>
    decreases defs,
{
    if defs.len() == 0 {
        Seq::empty()
    } else {
        let init = compiled_forest(defs.drop_last(), id);
        match compiled(defs.last(), id + forest_size(defs.drop_last())) {
            Some(n) => init.push(n),
            None => init,
        }
    }
}

/// The largest number of nodes that u32 ids can address.
pub open spec fn id_space() -> nat {
    u32::MAX as nat + 1
}

proof fn lemma_nodes_model_single(s: Seq<Node>)
    requires
        s.len() == 1,
    ensures
        nodes_model(s) == seq![node_model(s[0])],
{
    assert(s.drop_last() =~= Seq::<Node>::empty());
    assert(nodes_model(s.drop_last()) == Seq::<NodeModel>::empty());
    assert(nodes_model(s) =~= seq![node_model(s[0])]);
}

proof fn lemma_forest_size_prefix(s: Seq<WidgetDefinition>, i: int)
    requires
        0 <= i <= s.len(),
    ensures
        forest_size(s.take(i)) <= forest_size(s),
    decreases s.len() - i,
{
    if i < s.len() {
        lemma_forest_size_prefix(s, i + 1);
        assert(s.take(i + 1).drop_last() =~= s.take(i));
    } else {
        assert(s.take(i) =~= s);
    }
}

fn compile_text(t: &TextDef) -> (r: TextStyle)
    ensures
        r@ == text_model(*t),
{
    let content = match &t.text {
        Some(s) => s.clone(),
        None => String::new(),
    };
    TextStyle {
        content,
        size: t.pixels,
        width: resolve_length(t.width),
        height: resolve_length(t.height),
        horizontal: Align::from_api(t.horizontal_alignment),
        vertical: Align::from_api(t.vertical_alignment),
        color: t.color,
    }
}

fn compile_column_style(c: &ColumnDef) -> (r: FlowStyle)
    ensures
        r == column_style(*c),
{
    FlowStyle {
        spacing: c.spacing,
        padding: resolve_padding(c.padding),
        item_alignment: resolve_optional_alignment(c.item_alignment),
        width: resolve_length(c.width),
        height: resolve_length(c.height),
        max_width: c.max_width,
        clip: match c.clip {
            Some(b) => b,
            None => false,
        },
    }
}

fn compile_row_style(r: &RowDef) -> (s: FlowStyle)
    ensures
        s == row_style(*r),
{
    FlowStyle {
        spacing: r.spacing,
        padding: resolve_padding(r.padding),
        item_alignment: resolve_optional_alignment(r.item_alignment),
        width: resolve_length(r.width),
        height: resolve_length(r.height),
        max_width: None,
        clip: match r.clip {
            Some(b) => b,
            None => false,
        },
    }
}

fn compile_scroll_style(s: &ScrollableDef) -> (r: ScrollStyle)
    ensures
        r == scroll_style(*s),
{
    ScrollStyle {
        width: resolve_length(s.width),
        height: resolve_length(s.height),
        direction: resolve_direction(s.direction),
    }
}

fn compile_box_style(c: &ContainerDef) -> (r: BoxStyle)
    ensures
        r == box_style(*c),
{
    BoxStyle {
        padding: resolve_padding(c.padding),
        width: resolve_length(c.width),
        height: resolve_length(c.height),
        max_width: c.max_width,
        max_height: c.max_height,
        horizontal: resolve_optional_alignment(c.horizontal_alignment),
        vertical: resolve_optional_alignment(c.vertical_alignment),
        clip: match c.clip {
            Some(b) => b,
            None => false,
        },
        text_color: c.text_color,
        background_color: c.background_color,
        border_radius: c.border_radius,
        border_thickness: c.border_thickness,
        border_color: c.border_color,
    }
}

/// Compiles `def`, reached with id `id`; returns the node and the id that the walk goes on
/// with.
fn compile_node(def: &WidgetDefinition, id: u64) -> (r: (Option<Node>, u64))
    requires
        id + def_size(*def) <= id_space(),
    ensures
        option_model(r.0) == compiled(*def, id as nat),
        r.1 == id + def_size(*def),
    decreases def,
{
    match &def.widget {
        None => (None, id + 1),
        Some(Widget::Text(t)) => {
            let node = Node { id: id as u32, kind: NodeKind::Text(compile_text(t)), children: Vec::new() };
            assert(nodes_model(node.children@) =~= Seq::<NodeModel>::empty());
            (Some(node), id + 1)
        },
        Some(Widget::Column(c)) => {
            let (children, next) = compile_children(&c.children, id + 1);
            let node = Node {
                id: id as u32,
                kind: NodeKind::Column(compile_column_style(c)),
                children,
            };
            (Some(node), next)
        },
        Some(Widget::Row(rd)) => {
            let (children, next) = compile_children(&rd.children, id + 1);
            let node = Node { id: id as u32, kind: NodeKind::Row(compile_row_style(rd)), children };
            (Some(node), next)
        },
        Some(Widget::Scrollable(s)) => {
            let (child, next) = compile_child(&s.child, id + 1);
            match child {
                Some(n) => {
                    let mut children = Vec::new();
                    children.push(n);
                    proof {
                        lemma_nodes_model_single(children@);
                    }
                    let node = Node {
                        id: id as u32,
                        kind: NodeKind::Scrollable(compile_scroll_style(s)),
                        children,
                    };
                    (Some(node), next)
                },
                None => (None, next),
            }
        },
        Some(Widget::Container(c)) => {
            let (child, next) = compile_child(&c.child, id + 1);
            match child {
                Some(n) => {
                    let mut children = Vec::new();
                    children.push(n);
                    proof {
                        lemma_nodes_model_single(children@);
                    }
                    let node = Node {
                        id: id as u32,
                        kind: NodeKind::Container(compile_box_style(c)),
                        children,
                    };
                    (Some(node), next)
                },
                None => (None, next),
            }
        },
    }
}

fn compile_child(child: &Option<Box<WidgetDefinition>>, id: u64) -> (r: (Option<Node>, u64))
    requires
        id + child_size(*child) <= id_space(),
    ensures
        option_model(r.0) == compiled_child(*child, id as nat),
        r.1 == id + child_size(*child),
    decreases child,
{
    match child {
        Some(d) => compile_node(d, id),
        None => (None, id),
    }
}

fn compile_children(defs: &Vec<WidgetDefinition>, id: u64) -> (r: (Vec<Node>, u64))
    requires
        id + forest_size(defs@) <= id_space(),
    ensures
        nodes_model(r.0@) == compiled_forest(defs@, id as nat),
        r.1 == id + forest_size(defs@),
    decreases defs,
{
    let mut nodes: Vec<Node> = Vec::new();
    let mut next: u64 = id;
    let mut i: usize = 0;
    proof {
        assert(defs@.take(0) =~= Seq::<WidgetDefinition>::empty());
    }
    while i < defs.len()
        invariant
            0 <= i <= defs.len(),
            id + forest_size(defs@) <= id_space(),
            next == id + forest_size(defs@.take(i as int)),
            nodes_model(nodes@) == compiled_forest(defs@.take(i as int), id as nat),
        decreases defs.len() - i,
    {
        proof {
            lemma_forest_size_prefix(defs@, i + 1);
            assert(defs@.take(i + 1).drop_last() =~= defs@.take(i as int));
            assert(defs@.take(i + 1).last() == defs@[i as int]);
        }
        let (node, after) = compile_node(&defs[i], next);
        match node {
            Some(n) => {
                proof {
                    assert(nodes@.push(n).drop_last() =~= nodes@);
                }
                nodes.push(n);
            },
            None => {},
        }
        next = after;
        i = i + 1;
    }
    proof {
        assert(defs@.take(i as int) =~= defs@);
    }
    (nodes, next)
}

fn measure(def: &WidgetDefinition, budget: u64) -> (r: Option<u64>)
    requires
        budget <= id_space(),
    ensures
        match r {
            Some(n) => n == def_size(*def) && n <= budget,
            None => def_size(*def) > budget,
        },
    decreases def,
{
    if budget == 0 {
        return None;
    }
    let inner = match &def.widget {
        Some(Widget::Column(c)) => measure_forest(&c.children, budget - 1),
        Some(Widget::Row(rd)) => measure_forest(&rd.children, budget - 1),
        Some(Widget::Scrollable(s)) => measure_child(&s.child, budget - 1),
        Some(Widget::Container(c)) => measure_child(&c.child, budget - 1),
        _ => Some(0),
    };
    match inner {
        Some(n) => Some(n + 1),
        None => None,
    }
}

fn measure_child(child: &Option<Box<WidgetDefinition>>, budget: u64) -> (r: Option<u64>)
    requires
        budget <= id_space(),
    ensures
        match r {
            Some(n) => n == child_size(*child) && n <= budget,
            None => child_size(*child) > budget,
        },
    decreases child,
{
    match child {
        Some(d) => measure(d, budget),
        None => Some(0),
    }
}

fn measure_forest(defs: &Vec<WidgetDefinition>, budget: u64) -> (r: Option<u64>)
    requires
        budget <= id_space(),
    ensures
        match r {
            Some(n) => n == forest_size(defs@) && n <= budget,
            None => forest_size(defs@) > budget,
        },
    decreases defs,
{
    let mut total: u64 = 0;
    let mut i: usize = 0;
    proof {
        assert(defs@.take(0) =~= Seq::<WidgetDefinition>::empty());
    }
    while i < defs.len()
        invariant
            0 <= i <= defs.len(),
            budget <= id_space(),
            total == forest_size(defs@.take(i as int)),
            total <= budget,
        decreases defs.len() - i,
    {
        proof {
            lemma_forest_size_prefix(defs@, i + 1);
            assert(defs@.take(i + 1).drop_last() =~= defs@.take(i as int));
            assert(defs@.take(i + 1).last() == defs@[i as int]);
        }
        match measure(&defs[i], budget - total) {
            Some(n) => {
                total = total + n;
            },
            None => {
                return None;
            },
        }
        i = i + 1;
    }
    proof {
        assert(defs@.take(i as int) =~= defs@);
    }
    Some(total)
}

/// Compiles a widget-definition tree whose root is reached with node id 0.
///
/// Returns `None` when the root does not compile, or when the tree has more nodes than u32
/// ids can address; otherwise the compiled tree and an empty state store, in which every
/// node uses its compiled default.
pub fn widget_def_to_fn(def: &WidgetDefinition) -> (r: Option<(Node, StateStore)>)
    ensures
        match r {
            Some((root, store)) => {
                &&& def_size(*def) <= id_space()
                &&& compiled(*def, 0) == Some(node_model(root))
                &&& store@ == Map::<u32, Payload>::empty()
            },
            None => def_size(*def) > id_space() || compiled(*def, 0) is None,
        },
{
    match measure(def, 4294967296) {
        None => None,
        Some(_) => {
            let (root, _) = compile_node(def, 0);
            match root {
                Some(root) => Some((root, StateStore::new())),
                None => None,
            }
        },
    }
}

/// A definition in which every node has its variant and every required child is present.
pub open spec fn well_formed(def: WidgetDefinition) -> bool
    decreases def,
{
    match def.widget {
        None => false,
        Some(Widget::Text(_)) => true,
        Some(Widget::Column(c)) => well_formed_forest(c.children@),
        Some(Widget::Row(r)) => well_formed_forest(r.children@),
        Some(Widget::Scrollable(s)) => well_formed_child(s.child),
        Some(Widget::Container(c)) => well_formed_child(c.child),
    }
}

pub open spec fn well_formed_child(child: Option<Box<WidgetDefinition>>) -> bool
    decreases child,
{
    match child {
        Some(d) => well_formed(*d),
        None => false,
    }
}

pub open spec fn well_formed_forest(defs: Seq<WidgetDefinition>) -> bool
    decreases defs,
{
    defs.len() == 0 || (well_formed_forest(defs.drop_last()) && well_formed(defs.last()))
}

/// The ids of a compiled tree in pre-order.
pub open spec fn preorder_ids(n: NodeModel) -> Seq<nat>
    decreases n,
{
    seq![n.id] + preorder_forest(n.children)
}

pub open spec fn preorder_forest(s: Seq<NodeModel>) -> Seq<nat>
    decreases s,
{
    if s.len() == 0 {
        Seq::empty()
    } else {
        preorder_forest(s.drop_last()) + preorder_ids(s.last())
    }
}

/// The `count` consecutive ids from `start` on.
pub open spec fn consecutive(start: nat, count: nat) -> Seq<nat> {
    Seq::new(count, |i: int| (start + i) as nat)
}

proof fn lemma_preorder_single(n: NodeModel)
    ensures
        preorder_forest(seq![n]) == preorder_ids(n),
{
    assert(seq![n].drop_last() =~= Seq::<NodeModel>::empty());
    assert(seq![n].last() == n);
    assert(preorder_forest(Seq::<NodeModel>::empty()) == Seq::<nat>::empty());
    assert(Seq::<nat>::empty() + preorder_ids(n) =~= preorder_ids(n));
}

proof fn lemma_compiled_preorder(def: WidgetDefinition, id: nat)
    requires
        well_formed(def),
    ensures
        compiled(def, id) is Some,
        preorder_ids(compiled(def, id)->0) == consecutive(id, def_size(def)),
    decreases def,
{
    match def.widget {
        Some(Widget::Text(_)) => {
            assert(preorder_forest(Seq::<NodeModel>::empty()) == Seq::<nat>::empty());
            assert(preorder_ids(compiled(def, id)->0) =~= consecutive(id, 1));
        },
        Some(Widget::Column(c)) => {
            lemma_forest_preorder(c.children@, id + 1);
            assert(preorder_ids(compiled(def, id)->0) =~= consecutive(id, def_size(def)));
        },
        Some(Widget::Row(r)) => {
            lemma_forest_preorder(r.children@, id + 1);
            assert(preorder_ids(compiled(def, id)->0) =~= consecutive(id, def_size(def)));
        },
        Some(Widget::Scrollable(s)) => {
            lemma_child_preorder(s.child, id + 1);
            let n = compiled_child(s.child, id + 1)->0;
            lemma_preorder_single(n);
            assert(preorder_ids(compiled(def, id)->0) =~= consecutive(id, def_size(def)));
        },
        Some(Widget::Container(c)) => {
            lemma_child_preorder(c.child, id + 1);
            let n = compiled_child(c.child, id + 1)->0;
            lemma_preorder_single(n);
            assert(preorder_ids(compiled(def, id)->0) =~= consecutive(id, def_size(def)));
        },
        None => {},
    }
}

proof fn lemma_child_preorder(child: Option<Box<WidgetDefinition>>, id: nat)
    requires
        well_formed_child(child),
    ensures
        compiled_child(child, id) is Some,
        preorder_ids(compiled_child(child, id)->0) == consecutive(id, child_size(child)),
    decreases child,
{
    match child {
        Some(d) => lemma_compiled_preorder(*d, id),
        None => {},
    }
}

proof fn lemma_forest_preorder(defs: Seq<WidgetDefinition>, id: nat)
    requires
        well_formed_forest(defs),
    ensures
        compiled_forest(defs, id).len() == defs.len(),
        preorder_forest(compiled_forest(defs, id)) == consecutive(id, forest_size(defs)),
    decreases defs,
{
    if defs.len() == 0 {
        assert(consecutive(id, 0) =~= Seq::<nat>::empty());
    } else {
        let init = defs.drop_last();
        let a = forest_size(init);
        lemma_forest_preorder(init, id);
        lemma_compiled_preorder(defs.last(), id + a);
        let xs = compiled_forest(init, id);
        let n = compiled(defs.last(), id + a)->0;
        assert(xs.push(n).drop_last() =~= xs);
        assert(consecutive(id, a) + consecutive(id + a, def_size(defs.last())) =~= consecutive(
            id,
            forest_size(defs),
        ));
    }
}

/// Compiling a well-formed definition succeeds, and its nodes, read in pre-order, carry the
/// ids 0, 1, 2, ...: the n-th node that the walk visits has id n - 1.
pub proof fn compile_assigns_preorder_ids(def: WidgetDefinition)
    requires
        well_formed(def),
    ensures
        compiled(def, 0) is Some,
        preorder_ids(compiled(def, 0)->0) == consecutive(0, def_size(def)),
{
    lemma_compiled_preorder(def, 0);
}

} // verus!
