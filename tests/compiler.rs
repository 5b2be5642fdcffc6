use snowcap::compile::{widget_def_to_fn, Node, NodeKind};
use snowcap::program::{Payload, SnowcapWidgetProgram, StateStore};
use snowcap::style::{Align, ScrollAlign, ScrollDirection};
use snowcap::wire::{
    Alignment, ColumnDef, ContainerDef, Length, Padding, RowDef, Scalar, ScrollableDef,
    ScrollableDirection, ScrollableProperties, ScrollableAlignment, TextDef, Widget,
    WidgetDefinition,
};

fn text(s: &str) -> WidgetDefinition {
    WidgetDefinition {
        widget: Some(Widget::Text(TextDef {
            text: Some(s.to_string()),
            pixels: None,
            width: None,
            height: None,
            horizontal_alignment: Alignment::Unspecified,
            vertical_alignment: Alignment::Unspecified,
            color: None,
        })),
    }
}

fn row(children: Vec<WidgetDefinition>) -> WidgetDefinition {
    WidgetDefinition {
        widget: Some(Widget::Row(RowDef {
            spacing: None,
            padding: None,
            item_alignment: None,
            width: None,
            height: None,
            clip: None,
            children,
        })),
    }
}

fn column(children: Vec<WidgetDefinition>) -> WidgetDefinition {
    WidgetDefinition {
        widget: Some(Widget::Column(ColumnDef {
            spacing: None,
            padding: None,
            item_alignment: None,
            width: None,
            height: None,
            max_width: None,
            clip: None,
            children,
        })),
    }
}

fn scrollable(child: Option<WidgetDefinition>) -> WidgetDefinition {
    WidgetDefinition {
        widget: Some(Widget::Scrollable(Box::new(ScrollableDef {
            width: None,
            height: None,
            direction: None,
            child: child.map(Box::new),
        }))),
    }
}

fn container(child: Option<WidgetDefinition>) -> WidgetDefinition {
    WidgetDefinition {
        widget: Some(Widget::Container(Box::new(ContainerDef {
            padding: None,
            width: None,
            height: None,
            max_width: None,
            max_height: None,
            horizontal_alignment: None,
            vertical_alignment: None,
            clip: None,
            child: child.map(Box::new),
            text_color: None,
            background_color: None,
            border_radius: None,
            border_thickness: None,
            border_color: None,
        }))),
    }
}

fn preorder(n: &Node, out: &mut Vec<u32>) {
    out.push(n.id);
    for c in n.children.iter() {
        preorder(c, out);
    }
}

fn ids(def: &WidgetDefinition) -> Vec<u32> {
    let (root, _) = widget_def_to_fn(def).expect("compiles");
    let mut out = Vec::new();
    preorder(&root, &mut out);
    out
}

fn content(n: &Node) -> String {
    match &n.kind {
        NodeKind::Text(t) => t.content.clone(),
        _ => panic!("not a text node"),
    }
}

#[test]
fn row_of_two_texts_gets_ids_in_preorder() {
    let def = row(vec![text("a"), text("b")]);
    let (root, store) = widget_def_to_fn(&def).expect("compiles");
    assert_eq!(root.id, 0);
    assert!(matches!(root.kind, NodeKind::Row(_)));
    assert_eq!(root.children.len(), 2);
    assert_eq!(root.children[0].id, 1);
    assert_eq!(content(&root.children[0]), "a");
    assert_eq!(root.children[1].id, 2);
    assert_eq!(content(&root.children[1]), "b");
    assert_eq!(store.get(0), None);
}

#[test]
fn nested_well_formed_tree_ids_count_up_in_preorder() {
    let def = column(vec![
        row(vec![text("a"), scrollable(Some(text("b")))]),
        container(Some(column(vec![text("c")]))),
        text("d"),
    ]);
    assert_eq!(ids(&def), vec![0, 1, 2, 3, 4, 5, 6, 7, 8]);
}

#[test]
fn compiling_twice_gives_the_same_ids() {
    let def = column(vec![row(vec![text("a"), text("b")]), text("c")]);
    assert_eq!(ids(&def), ids(&def));
}

#[test]
fn failed_child_is_skipped_but_keeps_its_id() {
    let def = column(vec![
        scrollable(None),
        WidgetDefinition { widget: None },
        text("x"),
    ]);
    let (root, _) = widget_def_to_fn(&def).expect("compiles");
    assert_eq!(root.children.len(), 1);
    assert_eq!(root.children[0].id, 3);
    assert_eq!(content(&root.children[0]), "x");
}

#[test]
fn scrollable_whose_child_fails_is_skipped() {
    let def = row(vec![
        scrollable(Some(WidgetDefinition { widget: None })),
        container(Some(text("y"))),
    ]);
    let (root, _) = widget_def_to_fn(&def).expect("compiles");
    assert_eq!(root.children.len(), 1);
    assert_eq!(root.children[0].id, 3);
    assert_eq!(root.children[0].children[0].id, 4);
}

#[test]
fn root_without_variant_does_not_compile() {
    assert!(widget_def_to_fn(&WidgetDefinition { widget: None }).is_none());
    assert!(widget_def_to_fn(&scrollable(None)).is_none());
    assert!(widget_def_to_fn(&container(None)).is_none());
}

#[test]
fn empty_column_compiles_to_a_leaf() {
    let (root, _) = widget_def_to_fn(&column(vec![])).expect("compiles");
    assert_eq!(root.id, 0);
    assert!(root.children.is_empty());
}

#[test]
fn defaults_apply_to_unset_style_fields() {
    let def = WidgetDefinition {
        widget: Some(Widget::Text(TextDef {
            text: None,
            pixels: Some(Scalar { bits: 0x4140_0000 }),
            width: None,
            height: Some(Length::Fill),
            horizontal_alignment: Alignment::Center,
            vertical_alignment: Alignment::Unspecified,
            color: None,
        })),
    };
    let (root, _) = widget_def_to_fn(&def).expect("compiles");
    match &root.kind {
        NodeKind::Text(t) => {
            assert_eq!(t.content, "");
            assert_eq!(t.size, Some(Scalar { bits: 0x4140_0000 }));
            assert_eq!(t.width, Length::Shrink);
            assert_eq!(t.height, Length::Fill);
            assert_eq!(t.horizontal, Align::Center);
            assert_eq!(t.vertical, Align::Start);
        }
        _ => panic!("not a text node"),
    }
}

#[test]
fn column_padding_and_alignment_resolve() {
    let one = Scalar { bits: 0x3f80_0000 };
    let def = WidgetDefinition {
        widget: Some(Widget::Column(ColumnDef {
            spacing: None,
            padding: Some(Padding { top: Some(one), right: None, bottom: None, left: Some(one) }),
            item_alignment: Some(Alignment::End),
            width: None,
            height: None,
            max_width: None,
            clip: Some(true),
            children: vec![],
        })),
    };
    let (root, _) = widget_def_to_fn(&def).expect("compiles");
    match &root.kind {
        NodeKind::Column(s) => {
            assert_eq!(s.padding.top, one);
            assert_eq!(s.padding.right, Scalar { bits: 0 });
            assert_eq!(s.padding.left, one);
            assert_eq!(s.item_alignment, Align::End);
            assert!(s.clip);
            assert_eq!(s.width, Length::Shrink);
        }
        _ => panic!("not a column"),
    }
}

#[test]
fn scroll_direction_resolves() {
    let bar = ScrollableProperties {
        width: None,
        margin: None,
        scroller_width: None,
        alignment: Some(ScrollableAlignment::End),
    };
    let def = WidgetDefinition {
        widget: Some(Widget::Scrollable(Box::new(ScrollableDef {
            width: None,
            height: None,
            direction: Some(ScrollableDirection { vertical: None, horizontal: Some(bar) }),
            child: Some(Box::new(text("t"))),
        }))),
    };
    let (root, _) = widget_def_to_fn(&def).expect("compiles");
    match &root.kind {
        NodeKind::Scrollable(s) => match s.direction {
            ScrollDirection::Horizontal(b) => assert_eq!(b.alignment, ScrollAlign::End),
            _ => panic!("wrong direction"),
        },
        _ => panic!("not a scrollable"),
    }
    let (plain, _) = widget_def_to_fn(&scrollable(Some(text("t")))).expect("compiles");
    match &plain.kind {
        NodeKind::Scrollable(s) => assert!(matches!(s.direction, ScrollDirection::Vertical(_))),
        _ => panic!("not a scrollable"),
    }
}

#[test]
fn view_twice_with_unchanged_store_is_identical() {
    let (root, store) = widget_def_to_fn(&row(vec![text("a"), text("b")])).expect("compiles");
    let mut program = SnowcapWidgetProgram::new(root, store);
    program.update((2, Payload::SliderValue(Scalar { bits: 7 })));
    let first = program.view();
    let second = program.view();
    assert_eq!(first.id, second.id);
    assert_eq!(first.children.len(), second.children.len());
    assert_eq!(first.children[1].state, second.children[1].state);
    assert_eq!(first.children[1].state, Some(Payload::SliderValue(Scalar { bits: 7 })));
    assert_eq!(first.children[0].state, None);
}

#[test]
fn update_changes_only_its_own_node() {
    let mut store = StateStore::new();
    store.insert(1, Payload::SliderValue(Scalar { bits: 1 }));
    store.insert(2, Payload::ScrollOffset { x: Scalar { bits: 2 }, y: Scalar { bits: 3 } });
    let (root, _) = widget_def_to_fn(&row(vec![text("a"), text("b")])).expect("compiles");
    let mut program = SnowcapWidgetProgram::new(root, store);
    program.update((1, Payload::SliderValue(Scalar { bits: 9 })));
    assert_eq!(program.widget_state.get(1), Some(Payload::SliderValue(Scalar { bits: 9 })));
    assert_eq!(
        program.widget_state.get(2),
        Some(Payload::ScrollOffset { x: Scalar { bits: 2 }, y: Scalar { bits: 3 } })
    );
    assert_eq!(program.widget_state.get(0), None);
}

#[test]
fn entries_for_other_ids_do_not_change_the_rendering() {
    let def = row(vec![text("a"), text("b")]);
    let (root, store) = widget_def_to_fn(&def).expect("compiles");
    let plain = SnowcapWidgetProgram::new(root, store).view();
    let (root, _) = widget_def_to_fn(&def).expect("compiles");
    let mut store = StateStore::new();
    store.insert(99, Payload::SliderValue(Scalar { bits: 4 }));
    let with_other = SnowcapWidgetProgram::new(root, store).view();
    assert_eq!(plain.state, with_other.state);
    assert_eq!(plain.children[0].state, with_other.children[0].state);
    assert_eq!(plain.children[1].state, with_other.children[1].state);
    assert_eq!(with_other.children[1].state, None);
}
