use snowcap::input::{
    button_to_iced_button, Modifiers, PointerButton, PointerInput, UiEvent,
};
use snowcap::layer::{Anchor, Edges, ExclusiveZone, KeyboardInteractivity, ZLayer};
use snowcap::program::Payload;
use snowcap::session::{Configure, Phase, Teardown};
use snowcap::state::{KeyDelivery, LayerError, NewLayerRequest, State};
use snowcap::wire::{Alignment, RowDef, Scalar, TextDef, Widget, WidgetDefinition};

fn text(s: &str) -> WidgetDefinition {
    WidgetDefinition {
        widget: Some(Widget::Text(TextDef {
            text: Some(s.to_string()),
            pixels: None,
            width: None,
            height: None,
            horizontal_alignment: Alignment::Unspecified,
            vertical_alignment: Alignment::Unspecified,
            color: None,
        })),
    }
}

fn row(children: Vec<WidgetDefinition>) -> WidgetDefinition {
    WidgetDefinition {
        widget: Some(Widget::Row(RowDef {
            spacing: None,
            padding: None,
            item_alignment: None,
            width: None,
            height: None,
            clip: None,
            children,
        })),
    }
}

fn request(def: Option<WidgetDefinition>) -> NewLayerRequest {
    NewLayerRequest {
        widget_def: def,
        width: Some(400),
        height: Some(200),
        anchor: None,
        keyboard_interactivity: Some(KeyboardInteractivity::NoFocus),
        exclusive_zone: Some(i32::from(ExclusiveZone::Respect)),
        layer: Some(ZLayer::Top),
    }
}

#[test]
fn new_layer_then_close_acks() {
    let mut state = State::new();
    let (id, placement) = state.new_layer(request(Some(text("hi"))), 10).expect("opens");
    assert_eq!(id, 0);
    assert_eq!(placement.width, 400);
    assert_eq!(placement.height, 200);
    assert_eq!(placement.anchor.bits(), 0);
    assert_eq!(placement.exclusive_zone, 0);
    assert_eq!(placement.keyboard_interactivity, KeyboardInteractivity::NoFocus);
    assert_eq!(placement.layer, ZLayer::Top);
    assert_eq!(state.layer_count(), 1);
    let closed = state.close(id);
    assert_eq!(
        closed.teardown,
        vec![Teardown::ReleaseDrawingSurface, Teardown::ReleaseOverlaySurface]
    );
    assert!(closed.ended.is_empty());
    assert_eq!(state.layer_count(), 0);
}

#[test]
fn new_layer_defaults() {
    let mut state = State::new();
    let req = NewLayerRequest {
        widget_def: Some(text("d")),
        width: None,
        height: None,
        anchor: Some(Anchor::BottomRight),
        keyboard_interactivity: None,
        exclusive_zone: None,
        layer: None,
    };
    let (_, placement) = state.new_layer(req, 1).expect("opens");
    assert_eq!(placement.width, 600);
    assert_eq!(placement.height, 480);
    assert_eq!(placement.anchor, Edges { top: false, bottom: true, left: false, right: true });
    assert_eq!(placement.anchor.bits(), 2 | 8);
    assert_eq!(placement.keyboard_interactivity, KeyboardInteractivity::NoFocus);
    assert_eq!(placement.exclusive_zone, 0);
    assert_eq!(placement.layer, ZLayer::Top);
}

#[test]
fn new_layer_errors() {
    let mut state = State::new();
    assert_eq!(state.new_layer(request(None), 1).unwrap_err(), LayerError::InvalidArgument);
    assert_eq!(
        state.new_layer(request(Some(WidgetDefinition { widget: None })), 1).unwrap_err(),
        LayerError::InvalidArgument
    );
    assert_eq!(state.layer_count(), 0);
    state.new_layer(request(Some(text("a"))), 1).expect("opens");
    assert_eq!(
        state.new_layer(request(Some(text("b"))), 1).unwrap_err(),
        LayerError::SurfaceInUse
    );
    assert_eq!(state.subscribe_keys(42).unwrap_err(), LayerError::UnknownLayer);
}

#[test]
fn closing_an_unknown_layer_does_nothing() {
    let mut state = State::new();
    state.new_layer(request(Some(text("a"))), 1).expect("opens");
    let closed = state.close(7);
    assert!(closed.teardown.is_empty());
    assert_eq!(state.layer_count(), 1);
}

#[test]
fn no_draw_before_first_configure() {
    let mut state = State::new();
    state.new_layer(request(Some(text("a"))), 5).expect("opens");
    assert!(state.draw(5).is_none());
    match state.configure(5, 0, 0) {
        Configure::Resize { width, height, draw_now } => {
            assert_eq!((width, height), (400, 200));
            assert!(draw_now);
        }
        Configure::Ignored => panic!("configure ignored"),
    }
    let frame = state.draw(5).expect("draws");
    assert_eq!((frame.width, frame.height), (400, 200));
    match state.configure(5, 300, 100) {
        Configure::Resize { width, height, draw_now } => {
            assert_eq!((width, height), (300, 100));
            assert!(!draw_now);
        }
        Configure::Ignored => panic!("configure ignored"),
    }
    assert_eq!(state.configure(99, 1, 1), Configure::Ignored);
}

#[test]
fn close_releases_drawing_surface_first_and_clears_focus() {
    let mut state = State::new();
    let (id, _) = state.new_layer(request(Some(text("a"))), 3).expect("opens");
    state.keyboard_enter(3);
    assert_eq!(state.keyboard_focus(), Some(3));
    let closed = state.surface_closed(3);
    assert_eq!(closed.teardown[0], Teardown::ReleaseDrawingSurface);
    assert_eq!(closed.teardown[1], Teardown::ReleaseOverlaySurface);
    assert_eq!(state.keyboard_focus(), None);
    assert!(state.render_layer(id).is_none());
}

#[test]
fn pointer_motion_outside_known_surfaces_is_dropped() {
    let mut state = State::new();
    state.new_layer(request(Some(text("a"))), 3).expect("opens");
    let motion = PointerInput::Motion { x: Scalar { bits: 1 }, y: Scalar { bits: 2 } };
    assert!(!state.pointer_input(4, motion));
    assert!(state.tick().is_empty());
    assert!(state.take_input(3).is_empty());
    assert!(state.pointer_input(3, motion));
    assert_eq!(state.tick(), vec![3]);
    assert_eq!(
        state.take_input(3),
        vec![UiEvent::PointerMoved { x: Scalar { bits: 1 }, y: Scalar { bits: 2 } }]
    );
}

#[test]
fn unknown_pointer_button_is_dropped() {
    let mut state = State::new();
    state.new_layer(request(Some(text("a"))), 3).expect("opens");
    assert!(!state.pointer_input(3, PointerInput::Button { code: 0x113, pressed: true }));
    assert!(state.pointer_input(3, PointerInput::Button { code: 0x111, pressed: false }));
    assert_eq!(state.take_input(3), vec![UiEvent::PointerReleased(PointerButton::Right)]);
}

#[test]
fn two_layers_have_independent_stores() {
    let mut state = State::new();
    let (a, _) = state.new_layer(request(Some(row(vec![text("x"), text("y")]))), 1).expect("a");
    let (b, _) = state.new_layer(request(Some(row(vec![text("x"), text("y")]))), 2).expect("b");
    assert_ne!(a, b);
    state.configure(1, 0, 0);
    let redraw = state.apply_updates(1, &vec![(1, Payload::SliderValue(Scalar { bits: 5 }))]);
    assert!(redraw);
    assert_eq!(state.state_of(a, 1), Some(Payload::SliderValue(Scalar { bits: 5 })));
    assert_eq!(state.state_of(b, 1), None);
    let rendered = state.render_layer(b).expect("renders");
    assert_eq!(rendered.children[0].id, 1);
    assert_eq!(rendered.children[0].state, None);
    let rendered_a = state.render_layer(a).expect("renders");
    assert_eq!(rendered_a.children[0].state, Some(Payload::SliderValue(Scalar { bits: 5 })));
}

#[test]
fn key_stream_follows_focus_and_ends_on_close() {
    let mut state = State::new();
    let (a, _) = state.new_layer(request(Some(text("a"))), 1).expect("a");
    let (b, _) = state.new_layer(request(Some(text("b"))), 2).expect("b");
    let sub = state.subscribe_keys(a).expect("subscribes");
    assert!(state.press_key(0x61).is_empty());
    state.keyboard_enter(1);
    state.update_modifiers(Modifiers { ctrl: true, alt: false, shift: false, logo: false });
    let mods = Modifiers { ctrl: true, alt: false, shift: false, logo: false };
    assert_eq!(
        state.press_key(0x61),
        vec![KeyDelivery { subscription: sub, keysym: 0x61, modifiers: mods }]
    );
    assert_eq!(state.press_key(0x62).len(), 1);
    state.keyboard_leave(1);
    assert!(state.press_key(0x63).is_empty());
    state.keyboard_enter(2);
    assert!(state.press_key(0x64).is_empty());
    state.keyboard_enter(1);
    let closed = state.close(a);
    assert_eq!(closed.ended, vec![sub]);
    assert_eq!(state.keyboard_focus(), None);
    assert!(state.press_key(0x65).is_empty());
    let _ = b;
}

#[test]
fn unsubscribe_stops_deliveries() {
    let mut state = State::new();
    let (a, _) = state.new_layer(request(Some(text("a"))), 1).expect("a");
    let s1 = state.subscribe_keys(a).expect("s1");
    let s2 = state.subscribe_keys(a).expect("s2");
    state.keyboard_enter(1);
    assert_eq!(state.press_key(0x61).len(), 2);
    state.unsubscribe(s1);
    let d = state.press_key(0x61);
    assert_eq!(d.len(), 1);
    assert_eq!(d[0].subscription, s2);
}

#[test]
fn key_events_are_queued_on_the_focused_session() {
    let mut state = State::new();
    state.new_layer(request(Some(text("a"))), 1).expect("a");
    state.keyboard_enter(7);
    assert_eq!(state.keyboard_focus(), None);
    state.keyboard_enter(1);
    state.press_key(0x61);
    state.release_key(0xffe1);
    state.release_key(0x62);
    let none = Modifiers::none();
    assert_eq!(
        state.take_input(1),
        vec![
            UiEvent::KeyPressed { key: 'a', modifiers: none },
            UiEvent::KeyReleased { key: 'b', modifiers: none },
        ]
    );
}

#[test]
fn dead_focus_is_cleared_on_tick() {
    let mut state = State::new();
    state.new_layer(request(Some(text("a"))), 1).expect("a");
    state.keyboard_enter(1);
    state.tick();
    assert_eq!(state.keyboard_focus(), Some(1));
    state.close(0);
    state.tick();
    assert_eq!(state.keyboard_focus(), None);
}

#[test]
fn keypad_enter_types_carriage_return() {
    let mut state = State::new();
    let (a, _) = state.new_layer(request(Some(text("a"))), 1).expect("a");
    let sub = state.subscribe_keys(a).expect("subscribes");
    state.keyboard_enter(1);
    assert_eq!(state.press_key(0xff8d).len(), 1);
    state.press_key(0x41);
    let none = Modifiers::none();
    assert_eq!(
        state.take_input(1),
        vec![
            UiEvent::KeyPressed { key: '\r', modifiers: none },
            UiEvent::KeyPressed { key: 'A', modifiers: none },
        ]
    );
    let _ = sub;
}

#[test]
fn keys_without_a_character_are_dropped() {
    let mut state = State::new();
    let (a, _) = state.new_layer(request(Some(text("a"))), 1).expect("a");
    state.subscribe_keys(a).expect("subscribes");
    state.keyboard_enter(1);
    assert!(state.press_key(0).is_empty());
    assert!(state.press_key(0xffe1).is_empty());
    state.release_key(0);
    state.release_key(0xffe1);
    assert!(state.press_key_with(0x61, None).is_empty());
    state.release_key_with(None);
    assert!(state.take_input(1).is_empty());
    assert!(state.tick().is_empty());
    assert_eq!(state.press_key_with(0x61, Some('x')).len(), 1);
    state.release_key_with(Some('x'));
    let none = Modifiers::none();
    assert_eq!(
        state.take_input(1),
        vec![
            UiEvent::KeyPressed { key: 'x', modifiers: none },
            UiEvent::KeyReleased { key: 'x', modifiers: none },
        ]
    );
}

#[test]
fn each_press_reaches_each_stream_once() {
    let mut state = State::new();
    let (a, _) = state.new_layer(request(Some(text("a"))), 1).expect("a");
    let (b, _) = state.new_layer(request(Some(text("b"))), 2).expect("b");
    let s1 = state.subscribe_keys(a).expect("s1");
    let s2 = state.subscribe_keys(b).expect("s2");
    let s3 = state.subscribe_keys(a).expect("s3");
    assert!(s1 < s2 && s2 < s3);
    state.keyboard_enter(1);
    let d = state.press_key(0x61);
    let ids: Vec<u32> = d.iter().map(|x| x.subscription).collect();
    assert_eq!(ids, vec![s1, s3]);
    state.keyboard_enter(2);
    let d = state.press_key(0x61);
    let ids: Vec<u32> = d.iter().map(|x| x.subscription).collect();
    assert_eq!(ids, vec![s2]);
}

#[test]
fn pointer_buttons_map_from_evdev_codes() {
    assert_eq!(button_to_iced_button(0x110), Some(PointerButton::Left));
    assert_eq!(button_to_iced_button(0x111), Some(PointerButton::Right));
    assert_eq!(button_to_iced_button(0x112), Some(PointerButton::Middle));
    assert_eq!(button_to_iced_button(0x113), None);
}

#[test]
fn exclusive_zone_values() {
    assert_eq!(i32::from(ExclusiveZone::Exclusive(10)), 10);
    assert_eq!(i32::from(ExclusiveZone::Exclusive(0)), 0);
    assert_eq!(i32::from(ExclusiveZone::Respect), 0);
    assert_eq!(i32::from(ExclusiveZone::Ignore), -1);
    assert_eq!(i32::from(ExclusiveZone::Exclusive(u32::MAX)), i32::MAX);
    assert_eq!(i32::from(ExclusiveZone::Exclusive(1 << 31)), i32::MAX);
    assert_eq!(i32::from(ExclusiveZone::Exclusive(i32::MAX as u32)), i32::MAX);
}

#[test]
fn anchor_edges() {
    assert_eq!(Edges::from_anchor(None).bits(), 0);
    assert_eq!(Edges::from_anchor(Some(Anchor::Top)).bits(), 1);
    assert_eq!(Edges::from_anchor(Some(Anchor::TopLeft)).bits(), 5);
    assert_eq!(Edges::from_anchor(Some(Anchor::BottomRight)).bits(), 10);
    assert_eq!(Edges::from_anchor(Some(Anchor::Right)).bits(), 8);
}

#[test]
fn closed_session_ignores_configure() {
    let mut state = State::new();
    state.new_layer(request(Some(text("a"))), 1).expect("a");
    state.close(0);
    assert_eq!(state.configure(1, 10, 10), Configure::Ignored);
    let _ = Phase::Closed;
}

#[test]
fn modifier_change_reaches_only_the_focused_session() {
    let mut state = State::new();
    state.new_layer(request(Some(text("a"))), 1).expect("a");
    state.new_layer(request(Some(text("b"))), 2).expect("b");
    let shift = Modifiers { ctrl: false, alt: false, shift: true, logo: false };
    state.update_modifiers(shift);
    assert!(state.take_input(1).is_empty());
    state.keyboard_enter(2);
    state.update_modifiers(shift);
    assert!(state.take_input(1).is_empty());
    assert_eq!(state.take_input(2), vec![UiEvent::ModifiersChanged(shift)]);
    state.press_key(0x61);
    assert_eq!(
        state.take_input(2),
        vec![UiEvent::KeyPressed { key: 'a', modifiers: shift }]
    );
}
