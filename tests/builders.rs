use snowcap::compile::widget_def_to_fn;
use snowcap::convert::IntoApi;
use snowcap::layer::{Anchor, ExclusiveZone, KeyboardInteractivity, ZLayer};
use snowcap::state::{NewLayerRequest, State};
use snowcap::widget::{
    Alignment, Color, Column, Container, Length, Padding, Row, Scrollable, ScrollableAlignment,
    ScrollableDirection, ScrollableProperties, Text, WidgetDef, WidgetId,
};
use snowcap::wire::{self, Scalar};

fn sc(bits: u32) -> Scalar {
    Scalar { bits }
}

#[test]
fn widget_id_round_trips() {
    assert_eq!(WidgetId::from(7).into_inner(), 7);
    assert_eq!(WidgetId::default().into_inner(), 0);
}

#[test]
fn text_builder_sets_fields() {
    let t = Text::new("hi")
        .with_size(sc(1))
        .with_width(Length::Fill)
        .with_height(Length::FillPortion(3))
        .with_horizontal_alignment(Alignment::Center)
        .with_vertical_alignment(Alignment::End)
        .with_color(Color { red: sc(1), green: sc(2), blue: sc(3), alpha: sc(4) });
    assert_eq!(t.text, "hi");
    assert_eq!(t.size, Some(sc(1)));
    assert_eq!(t.width, Some(Length::Fill));
    assert_eq!(t.height, Some(Length::FillPortion(3)));
    assert_eq!(t.horizontal_alignment, Some(Alignment::Center));
    assert_eq!(t.vertical_alignment, Some(Alignment::End));
}

#[test]
fn text_converts_to_wire() {
    let t = Text::new("hi")
        .with_height(Length::FillPortion(3))
        .with_vertical_alignment(Alignment::End)
        .with_color(Color { red: sc(1), green: sc(2), blue: sc(3), alpha: sc(4) });
    match WidgetDef::from(t).into_api().widget {
        Some(wire::Widget::Text(d)) => {
            assert_eq!(d.text, Some("hi".to_string()));
            assert_eq!(d.width, None);
            assert_eq!(d.height, Some(wire::Length::FillPortion(3)));
            assert_eq!(d.horizontal_alignment, wire::Alignment::Unspecified);
            assert_eq!(d.vertical_alignment, wire::Alignment::End);
            let c = d.color.expect("color");
            assert_eq!(c.red, Some(sc(1)));
            assert_eq!(c.green, Some(sc(2)));
            assert_eq!(c.blue, Some(sc(3)));
            assert_eq!(c.alpha, Some(sc(4)));
        }
        _ => panic!("not a text definition"),
    }
}

#[test]
fn column_builder_pushes_children_in_order() {
    let c = Column::new()
        .with_spacing(sc(5))
        .with_item_alignment(Alignment::Center)
        .with_padding(Padding { top: sc(1), right: sc(2), bottom: sc(3), left: sc(4) })
        .with_max_width(sc(9))
        .with_clip(true)
        .push(Text::new("a").into())
        .push(Text::new("b").into());
    assert_eq!(c.children.len(), 2);
    match WidgetDef::from(c).into_api().widget {
        Some(wire::Widget::Column(d)) => {
            assert_eq!(d.spacing, Some(sc(5)));
            assert_eq!(d.item_alignment, Some(wire::Alignment::Center));
            assert_eq!(
                d.padding,
                Some(wire::Padding {
                    top: Some(sc(1)),
                    right: Some(sc(2)),
                    bottom: Some(sc(3)),
                    left: Some(sc(4)),
                })
            );
            assert_eq!(d.max_width, Some(sc(9)));
            assert_eq!(d.clip, Some(true));
            assert_eq!(d.children.len(), 2);
            match &d.children[1].widget {
                Some(wire::Widget::Text(t)) => assert_eq!(t.text, Some("b".to_string())),
                _ => panic!("not a text definition"),
            }
        }
        _ => panic!("not a column definition"),
    }
}

#[test]
fn scrollable_direction_converts() {
    let props = ScrollableProperties {
        width: Some(sc(1)),
        margin: None,
        scroller_width: None,
        alignment: Some(ScrollableAlignment::End),
    };
    let s = Scrollable::new(Text::new("x").into())
        .with_width(Length::Shrink)
        .with_direction(ScrollableDirection::Both { vertical: props, horizontal: props });
    match WidgetDef::from(s).into_api().widget {
        Some(wire::Widget::Scrollable(d)) => {
            assert_eq!(d.width, Some(wire::Length::Shrink));
            let dir = d.direction.expect("direction");
            let v = dir.vertical.expect("vertical");
            assert_eq!(v.width, Some(sc(1)));
            assert_eq!(v.alignment, Some(wire::ScrollableAlignment::End));
            assert!(dir.horizontal.is_some());
            assert!(d.child.is_some());
        }
        _ => panic!("not a scrollable definition"),
    }
}

#[test]
fn built_tree_compiles_with_preorder_ids() {
    let tree = Row::new_with_children(vec![
        Container::new(Text::new("a").into()).with_border_radius(sc(2)).into(),
        Scrollable::new(Column::new().push(Text::new("b").into()).into()).into(),
    ]);
    let def = WidgetDef::from(tree).into_api();
    let (root, _) = widget_def_to_fn(&def).expect("compiles");
    assert_eq!(root.id, 0);
    assert_eq!(root.children[0].id, 1);
    assert_eq!(root.children[0].children[0].id, 2);
    assert_eq!(root.children[1].id, 3);
    assert_eq!(root.children[1].children[0].id, 4);
    assert_eq!(root.children[1].children[0].children[0].id, 5);
}

#[test]
fn request_for_widget_opens_a_layer() {
    let req = NewLayerRequest::for_widget(
        Text::new("hi").into(),
        400,
        200,
        Some(Anchor::Top),
        KeyboardInteractivity::OnDemand,
        ExclusiveZone::Exclusive(32),
        ZLayer::Overlay,
    );
    assert_eq!(req.exclusive_zone, Some(32));
    let mut state = State::new();
    let (id, placement) = state.new_layer(req, 11).expect("opens");
    assert_eq!(id, 0);
    assert_eq!(placement.exclusive_zone, 32);
    assert_eq!(placement.anchor.bits(), 1);
    assert_eq!(placement.keyboard_interactivity, KeyboardInteractivity::OnDemand);
    assert_eq!(placement.layer, ZLayer::Overlay);
}

#[test]
fn container_builder_sets_fields() {
    let c = Container::new(Text::new("a").into())
        .with_padding(Padding { top: sc(1), right: sc(1), bottom: sc(1), left: sc(1) })
        .with_width(Length::Fixed(sc(100)))
        .with_height(Length::Fill)
        .with_max_width(sc(3))
        .with_max_height(sc(4))
        .with_horizontal_alignment(Alignment::End)
        .with_vertical_alignment(Alignment::Center)
        .with_clip(false)
        .with_text_color(Color { red: sc(0), green: sc(0), blue: sc(0), alpha: sc(1) })
        .with_background_color(Color { red: sc(1), green: sc(1), blue: sc(1), alpha: sc(1) })
        .with_border_thickness(sc(6))
        .with_border_color(Color { red: sc(2), green: sc(2), blue: sc(2), alpha: sc(2) });
    match WidgetDef::from(c).into_api().widget {
        Some(wire::Widget::Container(d)) => {
            assert_eq!(d.width, Some(wire::Length::Fixed(sc(100))));
            assert_eq!(d.max_height, Some(sc(4)));
            assert_eq!(d.horizontal_alignment, Some(wire::Alignment::End));
            assert_eq!(d.clip, Some(false));
            assert_eq!(d.border_thickness, Some(sc(6)));
            assert_eq!(d.border_radius, None);
            assert!(d.child.is_some());
        }
        _ => panic!("not a container definition"),
    }
}
