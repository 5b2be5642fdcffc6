//! The state that the command/event loop owns: the open sessions, keyboard focus and key
//! subscriptions, and the decisions taken on each command and input event.
use vstd::prelude::*;
use crate::compile::{compiled, id_space, widget_def_to_fn};
use crate::input::{
    key_char, keysym_char, pointer_event_of, pointer_to_event, Modifiers,
    PointerInput, UiEvent,
};
use crate::convert::IntoApi;
use crate::layer::{
    edges_of, zone_value, Anchor, Edges, ExclusiveZone, KeyboardInteractivity, Placement, ZLayer,
};
use crate::widget::{def_api, WidgetDef};
use crate::program::{element_model, lookup, rendered, Element, Payload, SnowcapWidgetProgram, UpdateMessage};
use crate::session::{
    apply_all, configured_size, Configure, Frame, Phase, SessionModel, SurfaceSession, Teardown,
};
use crate::wire::{def_size, WidgetDefinition};

verus! {

/// A request for a new overlay surface showing a widget tree.
pub struct NewLayerRequest {
    pub widget_def: Option<WidgetDefinition>,
    pub width: Option<u32>,
    pub height: Option<u32>,
    pub anchor: Option<Anchor>,
    pub keyboard_interactivity: Option<KeyboardInteractivity>,
    pub exclusive_zone: Option<i32>,
    pub layer: Option<ZLayer>,
}

impl NewLayerRequest {
    /// The request for a layer showing `widget`, with every placement field given.
    pub fn for_widget(
        widget: WidgetDef,
        width: u32,
        height: u32,
        anchor: Option<Anchor>,
        keyboard_interactivity: KeyboardInteractivity,
        exclusive_zone: ExclusiveZone,
        layer: ZLayer,
    ) -> (r: NewLayerRequest)
        ensures
            r.widget_def is Some,
            def_api(widget, r.widget_def->0),
            r.width == Some(width),
            r.height == Some(height),
            r.anchor == anchor,
            r.keyboard_interactivity == Some(keyboard_interactivity),
            r.exclusive_zone == Some(zone_value(exclusive_zone)),
            r.layer == Some(layer),
    {
        NewLayerRequest {
            widget_def: Some(widget.into_api()),
            width: Some(width),
            height: Some(height),
            anchor,
            keyboard_interactivity: Some(keyboard_interactivity),
            exclusive_zone: Some(i32::from(exclusive_zone)),
            layer: Some(layer),
        }
    }
}

/// Why a command was refused.
#[derive(Clone, Copy, Debug, PartialEq, Eq, Structural)]
pub enum LayerError {
    /// The widget definition is absent, or its root does not compile.
    InvalidArgument,
    /// The overlay surface already belongs to an open session.
    SurfaceInUse,
    /// No layer has the given id.
    UnknownLayer,
    /// Every id has been handed out.
    IdsExhausted,
}

/// A subscriber to the key presses of one layer.
#[derive(Clone, Copy, Debug, PartialEq, Eq, Structural)]
pub struct KeySubscription {
    pub id: u32,
    pub layer_id: u32,
}

/// One key press for one subscriber.
#[derive(Clone, Copy, Debug, PartialEq, Eq, Structural)]
pub struct KeyDelivery {
    pub subscription: u32,
    pub keysym: u32,
    pub modifiers: Modifiers,
}

/// What closing a layer asks of the caller: the teardown steps, in order, and the key
/// subscriptions that ended with the layer.
pub struct Closed {
    pub teardown: Vec<Teardown>,
    pub ended: Vec<u32>,
}

/// The loop's state as a mathematical value.
pub struct StateModel {
    pub layers: Seq<SessionModel>,
    pub keyboard_focus: Option<u32>,
    pub keyboard_modifiers: Modifiers,
    pub next_layer_id: u32,
    pub subscriptions: Seq<KeySubscription>,
    pub next_subscription_id: u32,
}

pub struct State {
    layers: Vec<SurfaceSession>,
    keyboard_focus: Option<u32>,
    keyboard_modifiers: Modifiers,
    next_layer_id: u32,
    subscriptions: Vec<KeySubscription>,
    next_subscription_id: u32,
}

pub open spec fn session_views(s: Seq<SurfaceSession>) -> Seq<SessionModel> {
    Seq::new(s.len(), |i: int| s[i]@)
}

impl View for State {
    type V = StateModel;

    closed spec fn view(&self) -> StateModel {
        StateModel {
            layers: session_views(self.layers@),
            keyboard_focus: self.keyboard_focus,
            keyboard_modifiers: self.keyboard_modifiers,
            next_layer_id: self.next_layer_id,
            subscriptions: self.subscriptions@,
            next_subscription_id: self.next_subscription_id,
        }
    }
}

/// Open sessions are never closed ones; layer ids are unique and below the next one handed
/// out; no two sessions share an overlay surface; subscription ids are below the next one
/// and increase along the subscriptions, so no two subscriptions share an id.
pub open spec fn wf_model(m: StateModel) -> bool {
    &&& forall|i: int|
        0 <= i < m.layers.len() ==> (#[trigger] m.layers[i]).phase != Phase::Closed
            && m.layers[i].layer_id < m.next_layer_id
    &&& forall|i: int, j: int|
        0 <= i < m.layers.len() && 0 <= j < m.layers.len() && i != j ==> (#[trigger] m.layers[i]).layer_id
            != (#[trigger] m.layers[j]).layer_id && m.layers[i].surface_id != m.layers[j].surface_id
    &&& forall|k: int|
        0 <= k < m.subscriptions.len() ==> (#[trigger] m.subscriptions[k]).id
            < m.next_subscription_id
    &&& ids_increasing(m.subscriptions)
}

/// Subscription ids strictly increase along `subs`.
pub open spec fn ids_increasing(subs: Seq<KeySubscription>) -> bool {
    forall|k: int, l: int|
        0 <= k < l < subs.len() ==> (#[trigger] subs[k]).id < (#[trigger] subs[l]).id
}

pub open spec fn surface_index(layers: Seq<SessionModel>, surface_id: u32, i: int) -> bool {
    0 <= i < layers.len() && layers[i].surface_id == surface_id
}

pub open spec fn layer_index(layers: Seq<SessionModel>, layer_id: u32, i: int) -> bool {
    0 <= i < layers.len() && layers[i].layer_id == layer_id
}

pub open spec fn has_surface(layers: Seq<SessionModel>, surface_id: u32) -> bool {
    exists|i: int| surface_index(layers, surface_id, i)
}

pub open spec fn has_layer(layers: Seq<SessionModel>, layer_id: u32) -> bool {
    exists|i: int| layer_index(layers, layer_id, i)
}

/// A widget definition that compiles: its root compiles and its ids fit in u32.
pub open spec fn compiles(def: WidgetDefinition) -> bool {
    def_size(def) <= id_space() && compiled(def, 0) is Some
}

/// The default size of a new layer.
pub const DEFAULT_WIDTH: u32 = 600;

pub const DEFAULT_HEIGHT: u32 = 480;

/// The placement a request asks for, with the defaults: 600 by 480, no anchor, no keyboard
/// focus, respecting other exclusive zones, on the top layer.
pub open spec fn placement_of(req: NewLayerRequest) -> Placement {
    Placement {
        width: req.width.unwrap_or(DEFAULT_WIDTH),
        height: req.height.unwrap_or(DEFAULT_HEIGHT),
        anchor: edges_of(req.anchor),
        keyboard_interactivity: req.keyboard_interactivity.unwrap_or(
            KeyboardInteractivity::NoFocus,
        ),
        exclusive_zone: req.exclusive_zone.unwrap_or(0i32),
        layer: req.layer.unwrap_or(ZLayer::Top),
    }
}

/// The deliveries of one key press to the subscribers of layer `layer_id`, in subscription
/// order.
pub open spec fn deliveries(
    subs: Seq<KeySubscription>,
    layer_id: u32,
    keysym: u32,
    modifiers: Modifiers,
) -> Seq<KeyDelivery>
    decreases subs.len(),
{
    if subs.len() == 0 {
        Seq::empty()
    } else {
        let init = deliveries(subs.drop_last(), layer_id, keysym, modifiers);
        if subs.last().layer_id == layer_id {
            init.push(KeyDelivery { subscription: subs.last().id, keysym, modifiers })
        } else {
            init
        }
    }
}

/// The subscriptions that are not for layer `layer_id`, in order.
pub open spec fn subs_without_layer(subs: Seq<KeySubscription>, layer_id: u32) -> Seq<
    KeySubscription,
>
    decreases subs.len(),
{
    if subs.len() == 0 {
        Seq::empty()
    } else {
        let init = subs_without_layer(subs.drop_last(), layer_id);
        if subs.last().layer_id != layer_id {
            init.push(subs.last())
        } else {
            init
        }
    }
}

/// The ids of the subscriptions for layer `layer_id`, in order.
pub open spec fn sub_ids_of_layer(subs: Seq<KeySubscription>, layer_id: u32) -> Seq<u32>
    decreases subs.len(),
{
    if subs.len() == 0 {
        Seq::empty()
    } else {
        let init = sub_ids_of_layer(subs.drop_last(), layer_id);
        if subs.last().layer_id == layer_id {
            init.push(subs.last().id)
        } else {
            init
        }
    }
}

/// The subscriptions other than `id`, in order.
pub open spec fn subs_without_id(subs: Seq<KeySubscription>, id: u32) -> Seq<KeySubscription>
    decreases subs.len(),
{
    if subs.len() == 0 {
        Seq::empty()
    } else {
        let init = subs_without_id(subs.drop_last(), id);
        if subs.last().id != id {
            init.push(subs.last())
        } else {
            init
        }
    }
}

/// The overlay surfaces of the sessions with queued input, in session order.
pub open spec fn surfaces_with_input(layers: Seq<SessionModel>) -> Seq<u32>
    decreases layers.len(),
{
    if layers.len() == 0 {
        Seq::empty()
    } else {
        let init = surfaces_with_input(layers.drop_last());
        if layers.last().queue.len() > 0 {
            init.push(layers.last().surface_id)
        } else {
            init
        }
    }
}

/// Focus after the liveness check: a focus on a surface that no open session has is cleared.
pub open spec fn live_focus(m: StateModel) -> Option<u32> {
    match m.keyboard_focus {
        Some(s) => if has_surface(m.layers, s) {
            Some(s)
        } else {
            None
        },
        None => None,
    }
}

/// What opening a layer does, as `new_layer` states it.
pub open spec fn new_layer_outcome(
    pre: StateModel,
    request: NewLayerRequest,
    surface_id: u32,
    r: Result<(u32, Placement), LayerError>,
    post: StateModel,
) -> bool {
    if !(request.widget_def is Some && compiles(request.widget_def->0)) {
        r == Err::<(u32, Placement), LayerError>(LayerError::InvalidArgument) && post == pre
    } else if has_surface(pre.layers, surface_id) {
        r == Err::<(u32, Placement), LayerError>(LayerError::SurfaceInUse) && post == pre
    } else if pre.next_layer_id == u32::MAX {
        r == Err::<(u32, Placement), LayerError>(LayerError::IdsExhausted) && post == pre
    } else {
        let placement = placement_of(request);
        let session = SessionModel {
            layer_id: pre.next_layer_id,
            surface_id,
            width: placement.width,
            height: placement.height,
            phase: Phase::Unconfigured,
            tree: compiled(request.widget_def->0, 0)->0,
            store: Map::empty(),
            queue: Seq::empty(),
        };
        &&& r == Ok::<(u32, Placement), LayerError>((pre.next_layer_id, placement))
        &&& post == StateModel {
            layers: pre.layers.push(session),
            next_layer_id: (pre.next_layer_id + 1) as u32,
            ..pre
        }
    }
}

/// Session `i` is the one on the focused surface.
pub open spec fn focused_index(m: StateModel, i: int) -> bool {
    m.keyboard_focus is Some && surface_index(m.layers, m.keyboard_focus->0, i)
}

pub open spec fn has_focused(m: StateModel) -> bool {
    exists|i: int| focused_index(m, i)
}

/// `post` is `pre` with `e` queued on the focused session, or `pre` itself when no open
/// session has the focus.
pub open spec fn queued_on_focus(pre: StateModel, post: StateModel, e: UiEvent) -> bool {
    &&& !has_focused(pre) ==> post == pre
    &&& forall|i: int|
        #[trigger] focused_index(pre, i) ==> post == (StateModel {
            layers: pre.layers.update(i, SessionModel { queue: pre.layers[i].queue.push(e), ..pre.layers[i] }),
            ..pre
        })
}

/// The layer whose session holds keyboard focus, if an open session does.
pub open spec fn focused_layer(m: StateModel) -> Option<u32> {
    if has_focused(m) {
        let i = choose|i: int| focused_index(m, i);
        Some(m.layers[i].layer_id)
    } else {
        None
    }
}

/// The deliveries of a key press: one for each subscriber of the focused layer.
pub open spec fn focused_deliveries(m: StateModel, keysym: u32) -> Seq<KeyDelivery> {
    match focused_layer(m) {
        Some(l) => deliveries(m.subscriptions, l, keysym, m.keyboard_modifiers),
        None => Seq::empty(),
    }
}

/// What a key event does when the key types `ch`: a key that types no character is dropped
/// and changes nothing; otherwise the press or release goes to the focused session.
pub open spec fn key_outcome(pre: StateModel, post: StateModel, ch: Option<char>, pressed: bool) -> bool {
    match ch {
        None => post == pre,
        Some(c) => queued_on_focus(
            pre,
            post,
            if pressed {
                UiEvent::KeyPressed { key: c, modifiers: pre.keyboard_modifiers }
            } else {
                UiEvent::KeyReleased { key: c, modifiers: pre.keyboard_modifiers }
            },
        ),
    }
}

/// The deliveries of a press of a key that types `ch`: none when it types no character.
pub open spec fn press_deliveries(m: StateModel, keysym: u32, ch: Option<char>) -> Seq<
    KeyDelivery,
> {
    match ch {
        Some(_) => focused_deliveries(m, keysym),
        None => Seq::empty(),
    }
}

/// In a well-formed state a surface belongs to at most one session.
proof fn lemma_surface_index_unique(m: StateModel, surface_id: u32, i: int)
    requires
        wf_model(m),
        surface_index(m.layers, surface_id, i),
    ensures
        forall|j: int| #[trigger] surface_index(m.layers, surface_id, j) ==> j == i,
        forall|j: int| #[trigger] focused_index(m, j) && m.keyboard_focus == Some(surface_id) ==> j == i,
{
    assert forall|j: int| #[trigger] surface_index(m.layers, surface_id, j) implies j == i by {
        if j != i {
            assert(m.layers[j].surface_id != m.layers[i].surface_id);
        }
    }
}

/// In a well-formed state a layer id belongs to at most one session.
proof fn lemma_layer_index_unique(m: StateModel, layer_id: u32, i: int)
    requires
        wf_model(m),
        layer_index(m.layers, layer_id, i),
    ensures
        forall|j: int| #[trigger] layer_index(m.layers, layer_id, j) ==> j == i,
{
    assert forall|j: int| #[trigger] layer_index(m.layers, layer_id, j) implies j == i by {
        if j != i {
            assert(m.layers[j].layer_id != m.layers[i].layer_id);
        }
    }
}

/// `post` is `pre` with session `i` replaced by `s`, which keeps its ids and stays open.
proof fn lemma_wf_update(pre: StateModel, post: StateModel, i: int, s: SessionModel)
    requires
        wf_model(pre),
        0 <= i < pre.layers.len(),
        s.layer_id == pre.layers[i].layer_id,
        s.surface_id == pre.layers[i].surface_id,
        s.phase != Phase::Closed,
        post == (StateModel { layers: pre.layers.update(i, s), ..post }),
        post.next_layer_id == pre.next_layer_id,
        post.subscriptions == pre.subscriptions,
        post.next_subscription_id == pre.next_subscription_id,
    ensures
        wf_model(post),
{
    let ls = post.layers;
    assert forall|j: int| 0 <= j < ls.len() implies (#[trigger] ls[j]).phase != Phase::Closed
        && ls[j].layer_id < post.next_layer_id by {
        if j != i {
            assert(ls[j] == pre.layers[j]);
        }
    }
    assert forall|j: int, k: int|
        0 <= j < ls.len() && 0 <= k < ls.len() && j != k implies (#[trigger] ls[j]).layer_id
            != (#[trigger] ls[k]).layer_id && ls[j].surface_id != ls[k].surface_id by {
        assert(pre.layers[j].layer_id != pre.layers[k].layer_id);
    }
    assert forall|k: int| 0 <= k < post.subscriptions.len() implies (
    #[trigger] post.subscriptions[k]).id < post.next_subscription_id by {
        assert(post.subscriptions[k] == pre.subscriptions[k]);
    }
}

/// What closing layer `layer_id` does, as `close` states it: nothing for an unknown layer;
/// otherwise its session is torn down (drawing surface first) and removed, focus on its
/// surface is cleared, and its key subscriptions end.
pub open spec fn close_outcome(
    pre: StateModel,
    layer_id: u32,
    teardown: Seq<Teardown>,
    ended: Seq<u32>,
    post: StateModel,
) -> bool {
    if !has_layer(pre.layers, layer_id) {
        teardown.len() == 0 && ended.len() == 0 && post == pre
    } else {
        let i = choose|i: int| layer_index(pre.layers, layer_id, i);
        &&& teardown == seq![Teardown::ReleaseDrawingSurface, Teardown::ReleaseOverlaySurface]
        &&& ended == sub_ids_of_layer(pre.subscriptions, layer_id)
        &&& post == StateModel {
            layers: pre.layers.remove(i),
            keyboard_focus: if pre.keyboard_focus == Some(pre.layers[i].surface_id) {
                None
            } else {
                pre.keyboard_focus
            },
            subscriptions: subs_without_layer(pre.subscriptions, layer_id),
            ..pre
        }
    }
}

/// Removing a session keeps the state well formed.
proof fn lemma_wf_remove(pre: StateModel, post: StateModel, i: int)
    requires
        wf_model(pre),
        0 <= i < pre.layers.len(),
        post.layers == pre.layers.remove(i),
        post.next_layer_id == pre.next_layer_id,
        post.next_subscription_id == pre.next_subscription_id,
        forall|k: int|
            0 <= k < post.subscriptions.len() ==> (#[trigger] post.subscriptions[k]).id
                < post.next_subscription_id,
        ids_increasing(post.subscriptions),
    ensures
        wf_model(post),
{
    let ls = post.layers;
    assert forall|j: int| 0 <= j < ls.len() implies (#[trigger] ls[j]).phase != Phase::Closed
        && ls[j].layer_id < post.next_layer_id by {
        if j < i {
            assert(ls[j] == pre.layers[j]);
        } else {
            assert(ls[j] == pre.layers[j + 1]);
        }
    }
    assert forall|j: int, k: int|
        0 <= j < ls.len() && 0 <= k < ls.len() && j != k implies (#[trigger] ls[j]).layer_id
            != (#[trigger] ls[k]).layer_id && ls[j].surface_id != ls[k].surface_id by {
        let oj = if j < i {
            j
        } else {
            j + 1
        };
        let ok = if k < i {
            k
        } else {
            k + 1
        };
        assert(ls[j] == pre.layers[oj]);
        assert(ls[k] == pre.layers[ok]);
        assert(pre.layers[oj].layer_id != pre.layers[ok].layer_id);
    }
}

proof fn lemma_subs_without_id_increasing(subs: Seq<KeySubscription>, id: u32)
    requires
        ids_increasing(subs),
    ensures
        ids_increasing(subs_without_id(subs, id)),
    decreases subs.len(),
{
    if subs.len() > 0 {
        let d = subs.drop_last();
        assert forall|k: int, l: int| 0 <= k < l < d.len() implies (#[trigger] d[k]).id < (
        #[trigger] d[l]).id by {
            assert(d[k] == subs[k] && d[l] == subs[l]);
        }
        lemma_subs_without_id_increasing(d, id);
        let init = subs_without_id(d, id);
        if subs.last().id != id {
            assert forall|k: int| 0 <= k < d.len() implies #[trigger] d[k].id < subs.last().id by {
                assert(d[k] == subs[k]);
            }
            lemma_subs_without_id_bounded(d, id, subs.last().id);
            let r = subs_without_id(subs, id);
            assert forall|k: int, l: int| 0 <= k < l < r.len() implies (#[trigger] r[k]).id < (
            #[trigger] r[l]).id by {
                assert(r[k] == init[k]);
                if l < init.len() {
                    assert(r[l] == init[l]);
                }
            }
        }
    }
}

proof fn lemma_subs_without_layer_increasing(subs: Seq<KeySubscription>, layer_id: u32)
    requires
        ids_increasing(subs),
    ensures
        ids_increasing(subs_without_layer(subs, layer_id)),
    decreases subs.len(),
{
    if subs.len() > 0 {
        let d = subs.drop_last();
        assert forall|k: int, l: int| 0 <= k < l < d.len() implies (#[trigger] d[k]).id < (
        #[trigger] d[l]).id by {
            assert(d[k] == subs[k] && d[l] == subs[l]);
        }
        lemma_subs_without_layer_increasing(d, layer_id);
        let init = subs_without_layer(d, layer_id);
        if subs.last().layer_id != layer_id {
            assert forall|k: int| 0 <= k < d.len() implies #[trigger] d[k].id < subs.last().id by {
                assert(d[k] == subs[k]);
            }
            lemma_subs_without_layer_bounded(d, layer_id, subs.last().id);
            let r = subs_without_layer(subs, layer_id);
            assert forall|k: int, l: int| 0 <= k < l < r.len() implies (#[trigger] r[k]).id < (
            #[trigger] r[l]).id by {
                assert(r[k] == init[k]);
                if l < init.len() {
                    assert(r[l] == init[l]);
                }
            }
        }
    }
}

proof fn lemma_subs_without_id_bounded(subs: Seq<KeySubscription>, id: u32, bound: u32)
    requires
        forall|k: int| 0 <= k < subs.len() ==> #[trigger] subs[k].id < bound,
    ensures
        forall|k: int|
            0 <= k < subs_without_id(subs, id).len() ==> #[trigger] subs_without_id(subs, id)[k].id
                < bound,
    decreases subs.len(),
{
    if subs.len() > 0 {
        let d = subs.drop_last();
        assert forall|k: int| 0 <= k < d.len() implies #[trigger] d[k].id < bound by {
            assert(d[k] == subs[k]);
        }
        lemma_subs_without_id_bounded(d, id, bound);
        let init = subs_without_id(d, id);
        let r = subs_without_id(subs, id);
        assert forall|k: int| 0 <= k < r.len() implies #[trigger] r[k].id < bound by {
            if k < init.len() {
                assert(r[k] == init[k]);
            } else {
                assert(r[k] == subs.last());
            }
        }
    }
}

proof fn lemma_subs_without_layer_bounded(subs: Seq<KeySubscription>, layer_id: u32, bound: u32)
    requires
        forall|k: int| 0 <= k < subs.len() ==> #[trigger] subs[k].id < bound,
    ensures
        forall|k: int|
            0 <= k < subs_without_layer(subs, layer_id).len() ==> #[trigger] subs_without_layer(
                subs,
                layer_id,
            )[k].id < bound,
    decreases subs.len(),
{
    if subs.len() > 0 {
        let d = subs.drop_last();
        assert forall|k: int| 0 <= k < d.len() implies #[trigger] d[k].id < bound by {
            assert(d[k] == subs[k]);
        }
        lemma_subs_without_layer_bounded(d, layer_id, bound);
        let init = subs_without_layer(d, layer_id);
        let r = subs_without_layer(subs, layer_id);
        assert forall|k: int| 0 <= k < r.len() implies #[trigger] r[k].id < bound by {
            if k < init.len() {
                assert(r[k] == init[k]);
            } else {
                assert(r[k] == subs.last());
            }
        }
    }
}

impl State {
    pub open spec fn wf(&self) -> bool {
        wf_model(self@)
    }

    /// A state without sessions, focus or subscriptions.
    pub fn new() -> (r: State)
        ensures
            r.wf(),
            r@.layers.len() == 0,
            (r@.keyboard_focus is None),
            r@.keyboard_modifiers == (Modifiers { ctrl: false, alt: false, shift: false, logo: false }),
            r@.next_layer_id == 0,
            r@.subscriptions.len() == 0,
            r@.next_subscription_id == 0,
    {
        let r = State {
            layers: Vec::new(),
            keyboard_focus: None,
            keyboard_modifiers: Modifiers::none(),
            next_layer_id: 0,
            subscriptions: Vec::new(),
            next_subscription_id: 0,
        };
        proof {
            assert(r@.layers =~= Seq::<SessionModel>::empty());
        }
        r
    }

    /// The number of open sessions.
    pub fn layer_count(&self) -> (r: usize)
        ensures
            r == self@.layers.len(),
    {
        self.layers.len()
    }

    /// The overlay surface that holds keyboard focus, if any.
    pub fn keyboard_focus(&self) -> (r: Option<u32>)
        ensures
            r == self@.keyboard_focus,
    {
        self.keyboard_focus
    }

    fn find_surface(&self, surface_id: u32) -> (r: Option<usize>)
        ensures
            match r {
                Some(i) => surface_index(self@.layers, surface_id, i as int),
                None => !has_surface(self@.layers, surface_id),
            },
    {
        let mut i: usize = 0;
        while i < self.layers.len()
            invariant
                0 <= i <= self.layers.len(),
                forall|j: int| 0 <= j < i ==> self@.layers[j].surface_id != surface_id,
            decreases self.layers.len() - i,
        {
            if self.layers[i].surface_id() == surface_id {
                return Some(i);
            }
            i = i + 1;
        }
        None
    }

    fn find_layer(&self, layer_id: u32) -> (r: Option<usize>)
        ensures
            match r {
                Some(i) => layer_index(self@.layers, layer_id, i as int),
                None => !has_layer(self@.layers, layer_id),
            },
    {
        let mut i: usize = 0;
        while i < self.layers.len()
            invariant
                0 <= i <= self.layers.len(),
                forall|j: int| 0 <= j < i ==> self@.layers[j].layer_id != layer_id,
            decreases self.layers.len() - i,
        {
            if self.layers[i].layer_id() == layer_id {
                return Some(i);
            }
            i = i + 1;
        }
        None
    }

    /// Opens a layer: compiles the request's widget definition, binds a new session to
    /// overlay surface `surface_id`, and returns the fresh layer id with the placement that
    /// the surface is to get.
    ///
    /// Fails with `InvalidArgument` when the definition is absent or does not compile, with
    /// `SurfaceInUse` when another session has the surface, and with `IdsExhausted` when no
    /// layer id is left; a failed request changes nothing.
    pub fn new_layer(&mut self, request: NewLayerRequest, surface_id: u32) -> (r: Result<
        (u32, Placement),
        LayerError,
    >)
        requires
            old(self).wf(),
        ensures
            final(self).wf(),
            new_layer_outcome(old(self)@, request, surface_id, r, final(self)@),
    {
        let ghost request_model = placement_of(request);
        let NewLayerRequest {
            widget_def,
            width,
            height,
            anchor,
            keyboard_interactivity,
            exclusive_zone,
            layer,
        } = request;
        let def = match widget_def {
            Some(d) => d,
            None => {
                return Err(LayerError::InvalidArgument);
            },
        };
        let (root, store) = match widget_def_to_fn(&def) {
            Some(compiled_program) => compiled_program,
            None => {
                return Err(LayerError::InvalidArgument);
            },
        };
        match self.find_surface(surface_id) {
            Some(_) => {
                return Err(LayerError::SurfaceInUse);
            },
            None => {},
        }
        if self.next_layer_id == u32::MAX {
            return Err(LayerError::IdsExhausted);
        }
        let placement = Placement {
            width: match width {
                Some(w) => w,
                None => DEFAULT_WIDTH,
            },
            height: match height {
                Some(h) => h,
                None => DEFAULT_HEIGHT,
            },
            anchor: Edges::from_anchor(anchor),
            keyboard_interactivity: match keyboard_interactivity {
                Some(k) => k,
                None => KeyboardInteractivity::NoFocus,
            },
            exclusive_zone: match exclusive_zone {
                Some(z) => z,
                None => 0,
            },
            layer: match layer {
                Some(l) => l,
                None => ZLayer::Top,
            },
        };
        assert(placement == request_model);
        let id = self.next_layer_id;
        let session = SurfaceSession::new(
            id,
            surface_id,
            placement.width,
            placement.height,
            SnowcapWidgetProgram::new(root, store),
        );
        let ghost old_layers = self@.layers;
        self.layers.push(session);
        self.next_layer_id = id + 1;
        proof {
            assert(self@.layers =~= old_layers.push(session@));
            let ls = self@.layers;
            let n = old_layers.len() as int;
            assert(!has_surface(old_layers, surface_id));
            assert forall|i: int| 0 <= i < ls.len() implies (#[trigger] ls[i]).phase != Phase::Closed
                && ls[i].layer_id < self@.next_layer_id by {
                if i < n {
                    assert(ls[i] == old_layers[i]);
                }
            }
            assert forall|i: int, j: int|
                0 <= i < ls.len() && 0 <= j < ls.len() && i != j implies (#[trigger] ls[i]).layer_id
                    != (#[trigger] ls[j]).layer_id && ls[i].surface_id != ls[j].surface_id by {
                if i < n && j < n {
                    assert(ls[i] == old_layers[i] && ls[j] == old_layers[j]);
                } else if i < n {
                    assert(ls[i] == old_layers[i]);
                    assert(old_layers[i].layer_id < id);
                    assert(!surface_index(old_layers, surface_id, i));
                } else {
                    assert(ls[j] == old_layers[j]);
                    assert(old_layers[j].layer_id < id);
                    assert(!surface_index(old_layers, surface_id, j));
                }
            }
            assert(self@.subscriptions == old(self)@.subscriptions);
            assert forall|k: int| 0 <= k < self@.subscriptions.len() implies (
            #[trigger] self@.subscriptions[k]).id < self@.next_subscription_id by {
                assert(self@.subscriptions[k] == old(self)@.subscriptions[k]);
            }
        }
        Ok((id, placement))
    }

    /// Keyboard focus enters `surface_id`: it goes there if an open session has that
    /// surface, and stays where it was otherwise.
    pub fn keyboard_enter(&mut self, surface_id: u32)
        requires
            old(self).wf(),
        ensures
            final(self).wf(),
            final(self)@ == (StateModel {
                keyboard_focus: if has_surface(old(self)@.layers, surface_id) {
                    Some(surface_id)
                } else {
                    old(self)@.keyboard_focus
                },
                ..old(self)@
            }),
    {
        match self.find_surface(surface_id) {
            Some(_) => {
                self.keyboard_focus = Some(surface_id);
            },
            None => {},
        }
    }

    /// Keyboard focus leaves `surface_id`: it is cleared if that surface held it.
    pub fn keyboard_leave(&mut self, surface_id: u32)
        requires
            old(self).wf(),
        ensures
            final(self).wf(),
            final(self)@ == (StateModel {
                keyboard_focus: if old(self)@.keyboard_focus == Some(surface_id) {
                    None
                } else {
                    old(self)@.keyboard_focus
                },
                ..old(self)@
            }),
    {
        match self.keyboard_focus {
            Some(s) => {
                if s == surface_id {
                    self.keyboard_focus = None;
                }
            },
            None => {},
        }
    }

    /// Records the modifier keys now held, and tells the focused session of the change.
    pub fn update_modifiers(&mut self, modifiers: Modifiers)
        requires
            old(self).wf(),
        ensures
            final(self).wf(),
            queued_on_focus(
                StateModel { keyboard_modifiers: modifiers, ..old(self)@ },
                final(self)@,
                UiEvent::ModifiersChanged(modifiers),
            ),
    {
        self.keyboard_modifiers = modifiers;
        match self.focused() {
            Some(i) => {
                let ghost pre = self@;
                self.queue_on(i, UiEvent::ModifiersChanged(modifiers));
                proof {
                    lemma_surface_index_unique(pre, pre.keyboard_focus->0, i as int);
                }
            },
            None => {},
        }
    }

    fn focused(&self) -> (r: Option<usize>)
        requires
            self.wf(),
        ensures
            match r {
                Some(i) => focused_index(self@, i as int),
                None => !has_focused(self@),
            },
    {
        match self.keyboard_focus {
            Some(s) => self.find_surface(s),
            None => None,
        }
    }

    fn queue_on(&mut self, i: usize, event: UiEvent)
        requires
            old(self).wf(),
            i < old(self)@.layers.len(),
        ensures
            final(self).wf(),
            final(self)@ == (StateModel {
                layers: old(self)@.layers.update(
                    i as int,
                    SessionModel { queue: old(self)@.layers[i as int].queue.push(event), ..old(self)@.layers[i as int] },
                ),
                ..old(self)@
            }),
    {
        let ghost pre = self@;
        assert(self.layers@[i as int]@ == pre.layers[i as int]);
        self.layers[i].queue_input(event);
        proof {
            let s = SessionModel { queue: pre.layers[i as int].queue.push(event), ..pre.layers[i as int] };
            assert(self@.layers =~= pre.layers.update(i as int, s));
            lemma_wf_update(pre, self@, i as int, s);
        }
    }

    /// A key that types `ch` is pressed. With a character, the event goes to the focused
    /// session and one delivery to each subscriber of that layer; a key that types no
    /// character is dropped. Without a focused session nothing happens.
    pub fn press_key_with(&mut self, keysym: u32, ch: Option<char>) -> (r: Vec<KeyDelivery>)
        requires
            old(self).wf(),
        ensures
            final(self).wf(),
            key_outcome(old(self)@, final(self)@, ch, true),
            r@ == press_deliveries(old(self)@, keysym, ch),
    {
        let c = match ch {
            Some(c) => c,
            None => {
                let r = Vec::new();
                proof {
                    assert(r@ =~= Seq::<KeyDelivery>::empty());
                }
                return r;
            },
        };
        let i = match self.focused() {
            Some(i) => i,
            None => {
                let r = Vec::new();
                proof {
                    assert(r@ =~= Seq::<KeyDelivery>::empty());
                }
                return r;
            },
        };
        let ghost pre = self@;
        let modifiers = self.keyboard_modifiers;
        let layer_id = self.layers[i].layer_id();
        self.queue_on(i, UiEvent::KeyPressed { key: c, modifiers });
        proof {
            lemma_surface_index_unique(pre, pre.keyboard_focus->0, i as int);
        }
        let mut r: Vec<KeyDelivery> = Vec::new();
        let mut k: usize = 0;
        while k < self.subscriptions.len()
            invariant
                0 <= k <= self.subscriptions.len(),
                self.subscriptions@ == pre.subscriptions,
                r@ == deliveries(self.subscriptions@.take(k as int), layer_id, keysym, modifiers),
            decreases self.subscriptions.len() - k,
        {
            proof {
                assert(self.subscriptions@.take(k + 1).drop_last() =~= self.subscriptions@.take(k as int));
            }
            let sub = self.subscriptions[k];
            if sub.layer_id == layer_id {
                r.push(KeyDelivery { subscription: sub.id, keysym, modifiers });
            }
            k = k + 1;
        }
        proof {
            assert(self.subscriptions@.take(k as int) =~= self.subscriptions@);
        }
        r
    }

    /// A key is pressed: as `press_key_with` for the character the keysym types.
    pub fn press_key(&mut self, keysym: u32) -> (r: Vec<KeyDelivery>)
        requires
            old(self).wf(),
        ensures
            final(self).wf(),
            key_outcome(old(self)@, final(self)@, keysym_char(keysym), true),
            r@ == press_deliveries(old(self)@, keysym, keysym_char(keysym)),
    {
        let ch = key_char(keysym);
        self.press_key_with(keysym, ch)
    }

    /// A key that types `ch` is released. With a character, the event goes to the focused
    /// session; a key that types no character is dropped. Without a focused session nothing
    /// happens.
    pub fn release_key_with(&mut self, ch: Option<char>)
        requires
            old(self).wf(),
        ensures
            final(self).wf(),
            key_outcome(old(self)@, final(self)@, ch, false),
    {
        match ch {
            Some(c) => match self.focused() {
                Some(i) => {
                    let ghost pre = self@;
                    let event = UiEvent::KeyReleased { key: c, modifiers: self.keyboard_modifiers };
                    self.queue_on(i, event);
                    proof {
                        lemma_surface_index_unique(pre, pre.keyboard_focus->0, i as int);
                    }
                },
                None => {},
            },
            None => {},
        }
    }

    /// A key is released: as `release_key_with` for the character the keysym types.
    pub fn release_key(&mut self, keysym: u32)
        requires
            old(self).wf(),
        ensures
            final(self).wf(),
            key_outcome(old(self)@, final(self)@, keysym_char(keysym), false),
    {
        let ch = key_char(keysym);
        self.release_key_with(ch)
    }

    /// Pointer input on `surface_id` goes to the session on that surface, whatever holds
    /// keyboard focus. Input on a surface no session has, or a button the UI does not know,
    /// is dropped and changes nothing. Returns whether the input was queued.
    pub fn pointer_input(&mut self, surface_id: u32, input: PointerInput) -> (r: bool)
        requires
            old(self).wf(),
        ensures
            final(self).wf(),
            r == (has_surface(old(self)@.layers, surface_id) && pointer_event_of(input) is Some),
            !r ==> final(self)@ == old(self)@,
            forall|i: int|
                r && #[trigger] surface_index(old(self)@.layers, surface_id, i) ==> final(self)@ == (
                StateModel {
                    layers: old(self)@.layers.update(
                        i,
                        SessionModel {
                            queue: old(self)@.layers[i].queue.push(pointer_event_of(input)->0),
                            ..old(self)@.layers[i]
                        },
                    ),
                    ..old(self)@
                }),
    {
        let i = match self.find_surface(surface_id) {
            Some(i) => i,
            None => {
                return false;
            },
        };
        let event = match pointer_to_event(input) {
            Some(e) => e,
            None => {
                return false;
            },
        };
        let ghost pre = self@;
        self.queue_on(i, event);
        proof {
            lemma_surface_index_unique(pre, surface_id, i as int);
        }
        true
    }

    /// A configure event for `surface_id`, handed to the session on that surface; for an
    /// unknown surface nothing happens.
    pub fn configure(&mut self, surface_id: u32, width: u32, height: u32) -> (r: Configure)
        requires
            old(self).wf(),
        ensures
            final(self).wf(),
            !has_surface(old(self)@.layers, surface_id) ==> r == Configure::Ignored && final(self)@ == old(self)@,
            forall|i: int| #[trigger]
                surface_index(old(self)@.layers, surface_id, i) ==> {
                    let s = old(self)@.layers[i];
                    let w = configured_size(s.width, width);
                    let h = configured_size(s.height, height);
                    &&& r == (Configure::Resize {
                        width: w,
                        height: h,
                        draw_now: s.phase == Phase::Unconfigured,
                    })
                    &&& final(self)@ == (StateModel {
                        layers: old(self)@.layers.update(
                            i,
                            SessionModel { width: w, height: h, phase: Phase::Configured, ..s },
                        ),
                        ..old(self)@
                    })
                },
    {
        let i = match self.find_surface(surface_id) {
            Some(i) => i,
            None => {
                return Configure::Ignored;
            },
        };
        let ghost pre = self@;
        assert(self.layers@[i as int]@ == pre.layers[i as int]);
        let r = self.layers[i].on_configure(width, height);
        proof {
            let s = pre.layers[i as int];
            let ns = SessionModel {
                width: configured_size(s.width, width),
                height: configured_size(s.height, height),
                phase: Phase::Configured,
                ..s
            };
            assert(self@.layers =~= pre.layers.update(i as int, ns));
            lemma_wf_update(pre, self@, i as int, ns);
            lemma_surface_index_unique(pre, surface_id, i as int);
        }
        r
    }

    /// Draws the session on `surface_id`: its frame when it has been configured, nothing
    /// before that or for an unknown surface.
    pub fn draw(&self, surface_id: u32) -> (r: Option<Frame>)
        requires
            self.wf(),
        ensures
            !has_surface(self@.layers, surface_id) ==> r is None,
            forall|i: int| #[trigger]
                surface_index(self@.layers, surface_id, i) ==> {
                    let s = self@.layers[i];
                    match r {
                        Some(f) => {
                            &&& s.phase == Phase::Configured
                            &&& f.width == s.width
                            &&& f.height == s.height
                            &&& element_model(f.element) == rendered(s.tree, s.store)
                        },
                        None => s.phase != Phase::Configured,
                    }
                },
    {
        match self.find_surface(surface_id) {
            Some(i) => {
                proof {
                    lemma_surface_index_unique(self@, surface_id, i as int);
                }
                self.layers[i].draw()
            },
            None => None,
        }
    }

    /// Hands out the input queued on the session on `surface_id`, oldest first, and empties
    /// its queue; an unknown surface has none.
    pub fn take_input(&mut self, surface_id: u32) -> (r: Vec<UiEvent>)
        requires
            old(self).wf(),
        ensures
            final(self).wf(),
            !has_surface(old(self)@.layers, surface_id) ==> r@.len() == 0 && final(self)@ == old(self)@,
            forall|i: int| #[trigger]
                surface_index(old(self)@.layers, surface_id, i) ==> r@ == old(self)@.layers[i].queue
                    && final(self)@ == (StateModel {
                    layers: old(self)@.layers.update(
                        i,
                        SessionModel { queue: Seq::empty(), ..old(self)@.layers[i] },
                    ),
                    ..old(self)@
                }),
    {
        let i = match self.find_surface(surface_id) {
            Some(i) => i,
            None => {
                return Vec::new();
            },
        };
        let ghost pre = self@;
        assert(self.layers@[i as int]@ == pre.layers[i as int]);
        let r = self.layers[i].take_input();
        proof {
            let ns = SessionModel { queue: Seq::empty(), ..pre.layers[i as int] };
            assert(self@.layers =~= pre.layers.update(i as int, ns));
            lemma_wf_update(pre, self@, i as int, ns);
            lemma_surface_index_unique(pre, surface_id, i as int);
        }
        r
    }

    /// Applies, in order, the update messages that the input of the session on `surface_id`
    /// produced, and empties its queue. Returns whether that session wants a new frame: it
    /// is configured and its state or input changed. An unknown surface changes nothing.
    pub fn apply_updates(&mut self, surface_id: u32, messages: &Vec<UpdateMessage>) -> (r: bool)
        requires
            old(self).wf(),
        ensures
            final(self).wf(),
            !has_surface(old(self)@.layers, surface_id) ==> !r && final(self)@ == old(self)@,
            forall|i: int| #[trigger]
                surface_index(old(self)@.layers, surface_id, i) ==> {
                    let s = old(self)@.layers[i];
                    &&& r == (s.phase == Phase::Configured && (messages@.len() > 0 || s.queue.len()
                        > 0))
                    &&& final(self)@ == (StateModel {
                        layers: old(self)@.layers.update(
                            i,
                            SessionModel {
                                store: apply_all(s.store, messages@),
                                queue: Seq::empty(),
                                ..s
                            },
                        ),
                        ..old(self)@
                    })
                },
    {
        let i = match self.find_surface(surface_id) {
            Some(i) => i,
            None => {
                return false;
            },
        };
        let ghost pre = self@;
        assert(self.layers@[i as int]@ == pre.layers[i as int]);
        let r = self.layers[i].tick(messages);
        proof {
            let s = pre.layers[i as int];
            let ns = SessionModel { store: apply_all(s.store, messages@), queue: Seq::empty(), ..s };
            assert(self@.layers =~= pre.layers.update(i as int, ns));
            lemma_wf_update(pre, self@, i as int, ns);
            lemma_surface_index_unique(pre, surface_id, i as int);
        }
        r
    }

    /// The loop's per-iteration maintenance: a focus on a surface that no open session has
    /// any more is cleared, and the surfaces of the sessions with queued input, in order,
    /// are returned so that a frame is requested for each.
    pub fn tick(&mut self) -> (r: Vec<u32>)
        requires
            old(self).wf(),
        ensures
            final(self).wf(),
            final(self)@ == (StateModel { keyboard_focus: live_focus(old(self)@), ..old(self)@ }),
            r@ == surfaces_with_input(old(self)@.layers),
    {
        match self.keyboard_focus {
            Some(s) => match self.find_surface(s) {
                Some(_) => {},
                None => {
                    self.keyboard_focus = None;
                },
            },
            None => {},
        }
        let mut r: Vec<u32> = Vec::new();
        let mut i: usize = 0;
        while i < self.layers.len()
            invariant
                0 <= i <= self.layers.len(),
                r@ == surfaces_with_input(self@.layers.take(i as int)),
            decreases self.layers.len() - i,
        {
            proof {
                assert(self@.layers.take(i + 1).drop_last() =~= self@.layers.take(i as int));
                assert(self@.layers.take(i + 1).last() == self.layers@[i as int]@);
            }
            if !self.layers[i].is_queue_empty() {
                r.push(self.layers[i].surface_id());
            }
            i = i + 1;
        }
        proof {
            assert(self@.layers.take(i as int) =~= self@.layers);
        }
        r
    }

    /// Closes layer `layer_id`: its session's drawing surface is released before its
    /// overlay surface, the session is removed, focus on it is cleared and its key
    /// subscriptions end. An unknown layer is acknowledged with nothing to do.
    pub fn close(&mut self, layer_id: u32) -> (r: Closed)
        requires
            old(self).wf(),
        ensures
            final(self).wf(),
            close_outcome(old(self)@, layer_id, r.teardown@, r.ended@, final(self)@),
    {
        let i = match self.find_layer(layer_id) {
            Some(i) => i,
            None => {
                let r = Closed { teardown: Vec::new(), ended: Vec::new() };
                proof {
                    assert(r.teardown@.len() == 0 && r.ended@.len() == 0);
                }
                return r;
            },
        };
        let ghost pre = self@;
        proof {
            lemma_layer_index_unique(pre, layer_id, i as int);
        }
        assert(self.layers@[i as int]@ == pre.layers[i as int]);
        let surface = self.layers[i].surface_id();
        let teardown = self.layers[i].close();
        let ghost mid = self.layers@;
        let _ = self.layers.remove(i);
        proof {
            assert(self@.layers =~= pre.layers.remove(i as int)) by {
                assert forall|j: int| 0 <= j < self@.layers.len() implies self@.layers[j]
                    == pre.layers.remove(i as int)[j] by {
                    if j < i {
                        assert(self.layers@[j] == mid[j]);
                    } else {
                        assert(self.layers@[j] == mid[j + 1]);
                    }
                }
            }
        }
        match self.keyboard_focus {
            Some(s) => {
                if s == surface {
                    self.keyboard_focus = None;
                }
            },
            None => {},
        }
        let mut kept: Vec<KeySubscription> = Vec::new();
        let mut ended: Vec<u32> = Vec::new();
        let mut k: usize = 0;
        while k < self.subscriptions.len()
            invariant
                0 <= k <= self.subscriptions.len(),
                self.subscriptions@ == pre.subscriptions,
                kept@ == subs_without_layer(self.subscriptions@.take(k as int), layer_id),
                ended@ == sub_ids_of_layer(self.subscriptions@.take(k as int), layer_id),
            decreases self.subscriptions.len() - k,
        {
            proof {
                assert(self.subscriptions@.take(k + 1).drop_last() =~= self.subscriptions@.take(k as int));
            }
            let sub = self.subscriptions[k];
            if sub.layer_id == layer_id {
                ended.push(sub.id);
            } else {
                kept.push(sub);
            }
            k = k + 1;
        }
        proof {
            assert(self.subscriptions@.take(k as int) =~= self.subscriptions@);
        }
        self.subscriptions = kept;
        proof {
            lemma_subs_without_layer_bounded(pre.subscriptions, layer_id, pre.next_subscription_id);
            lemma_subs_without_layer_increasing(pre.subscriptions, layer_id);
            lemma_wf_remove(pre, self@, i as int);
        }
        Closed { teardown, ended }
    }

    /// The compositor closed `surface_id`: the session on it is torn down as a local close
    /// would. An unknown surface changes nothing.
    pub fn surface_closed(&mut self, surface_id: u32) -> (r: Closed)
        requires
            old(self).wf(),
        ensures
            final(self).wf(),
            !has_surface(old(self)@.layers, surface_id) ==> r.teardown@.len() == 0
                && r.ended@.len() == 0 && final(self)@ == old(self)@,
            forall|i: int| #[trigger]
                surface_index(old(self)@.layers, surface_id, i) ==> close_outcome(
                    old(self)@,
                    old(self)@.layers[i].layer_id,
                    r.teardown@,
                    r.ended@,
                    final(self)@,
                ),
    {
        match self.find_surface(surface_id) {
            Some(i) => {
                let ghost pre = self@;
                proof {
                    lemma_surface_index_unique(pre, surface_id, i as int);
                }
                let layer_id = self.layers[i].layer_id();
                self.close(layer_id)
            },
            None => {
                let r = Closed { teardown: Vec::new(), ended: Vec::new() };
                proof {
                    assert(r.teardown@.len() == 0 && r.ended@.len() == 0);
                }
                r
            },
        }
    }

    /// Subscribes to the key presses of layer `layer_id`; returns the subscription's id.
    /// Fails with `UnknownLayer` when no open layer has that id, and with `IdsExhausted`
    /// when no subscription id is left.
    pub fn subscribe_keys(&mut self, layer_id: u32) -> (r: Result<u32, LayerError>)
        requires
            old(self).wf(),
        ensures
            final(self).wf(),
            !has_layer(old(self)@.layers, layer_id) ==> r == Err::<u32, LayerError>(
                LayerError::UnknownLayer,
            ) && final(self)@ == old(self)@,
            has_layer(old(self)@.layers, layer_id) && old(self)@.next_subscription_id == u32::MAX
                ==> r == Err::<u32, LayerError>(LayerError::IdsExhausted) && final(self)@ == old(self)@,
            has_layer(old(self)@.layers, layer_id) && old(self)@.next_subscription_id < u32::MAX
                ==> r == Ok::<u32, LayerError>(old(self)@.next_subscription_id) && final(self)@ == (
            StateModel {
                subscriptions: old(self)@.subscriptions.push(
                    KeySubscription { id: old(self)@.next_subscription_id, layer_id },
                ),
                next_subscription_id: (old(self)@.next_subscription_id + 1) as u32,
                ..old(self)@
            }),
    {
        match self.find_layer(layer_id) {
            Some(_) => {},
            None => {
                return Err(LayerError::UnknownLayer);
            },
        }
        if self.next_subscription_id == u32::MAX {
            return Err(LayerError::IdsExhausted);
        }
        let ghost pre = self@;
        let id = self.next_subscription_id;
        self.subscriptions.push(KeySubscription { id, layer_id });
        self.next_subscription_id = id + 1;
        proof {
            assert forall|k: int| 0 <= k < self@.subscriptions.len() implies (
            #[trigger] self@.subscriptions[k]).id < self@.next_subscription_id by {
                if k < pre.subscriptions.len() {
                    assert(self@.subscriptions[k] == pre.subscriptions[k]);
                }
            }
            let subs = self@.subscriptions;
            assert forall|k: int, l: int| 0 <= k < l < subs.len() implies (#[trigger] subs[k]).id < (
            #[trigger] subs[l]).id by {
                assert(subs[k] == pre.subscriptions[k]);
                assert(pre.subscriptions[k].id < pre.next_subscription_id);
                if l < pre.subscriptions.len() {
                    assert(subs[l] == pre.subscriptions[l]);
                }
            }
            assert forall|j: int| 0 <= j < self@.layers.len() implies (#[trigger] self@.layers[j])
                == pre.layers[j] by {}
        }
        Ok(id)
    }

    /// Ends subscription `id`; its stream gets no more deliveries.
    pub fn unsubscribe(&mut self, id: u32)
        requires
            old(self).wf(),
        ensures
            final(self).wf(),
            final(self)@ == (StateModel {
                subscriptions: subs_without_id(old(self)@.subscriptions, id),
                ..old(self)@
            }),
    {
        let ghost pre = self@;
        let mut kept: Vec<KeySubscription> = Vec::new();
        let mut k: usize = 0;
        while k < self.subscriptions.len()
            invariant
                0 <= k <= self.subscriptions.len(),
                self.subscriptions@ == pre.subscriptions,
                kept@ == subs_without_id(self.subscriptions@.take(k as int), id),
            decreases self.subscriptions.len() - k,
        {
            proof {
                assert(self.subscriptions@.take(k + 1).drop_last() =~= self.subscriptions@.take(k as int));
            }
            let sub = self.subscriptions[k];
            if sub.id != id {
                kept.push(sub);
            }
            k = k + 1;
        }
        proof {
            assert(self.subscriptions@.take(k as int) =~= self.subscriptions@);
        }
        self.subscriptions = kept;
        proof {
            lemma_subs_without_id_bounded(pre.subscriptions, id, pre.next_subscription_id);
            lemma_subs_without_id_increasing(pre.subscriptions, id);
            assert forall|j: int| 0 <= j < self@.layers.len() implies (#[trigger] self@.layers[j])
                == pre.layers[j] by {}
        }
    }

    /// Renders the widgets of layer `layer_id` against their current state; `None` for an
    /// unknown layer.
    pub fn render_layer(&self, layer_id: u32) -> (r: Option<Element>)
        requires
            self.wf(),
        ensures
            r is None <==> !has_layer(self@.layers, layer_id),
            forall|i: int| #[trigger]
                layer_index(self@.layers, layer_id, i) ==> r is Some && element_model(r->0)
                    == rendered(self@.layers[i].tree, self@.layers[i].store),
    {
        match self.find_layer(layer_id) {
            Some(i) => {
                proof {
                    lemma_layer_index_unique(self@, layer_id, i as int);
                }
                Some(self.layers[i].render())
            },
            None => None,
        }
    }

    /// The overlay surface of layer `layer_id`, if it is open.
    pub fn surface_of_layer(&self, layer_id: u32) -> (r: Option<u32>)
        requires
            self.wf(),
        ensures
            r is None <==> !has_layer(self@.layers, layer_id),
            forall|i: int| #[trigger]
                layer_index(self@.layers, layer_id, i) ==> r == Some(self@.layers[i].surface_id),
    {
        match self.find_layer(layer_id) {
            Some(i) => {
                proof {
                    lemma_layer_index_unique(self@, layer_id, i as int);
                }
                Some(self.layers[i].surface_id())
            },
            None => None,
        }
    }

    /// The state that node `node` of layer `layer_id` reads; `None` for an unknown layer or
    /// a node without stored state.
    pub fn state_of(&self, layer_id: u32, node: u32) -> (r: Option<Payload>)
        requires
            self.wf(),
        ensures
            !has_layer(self@.layers, layer_id) ==> r is None,
            forall|i: int| #[trigger]
                layer_index(self@.layers, layer_id, i) ==> r == lookup(
                    self@.layers[i].store,
                    node as nat,
                ),
    {
        match self.find_layer(layer_id) {
            Some(i) => {
                proof {
                    lemma_layer_index_unique(self@, layer_id, i as int);
                }
                self.layers[i].state_of(node)
            },
            None => None,
        }
    }
}

/// Closing an open layer releases its drawing surface strictly before its overlay surface,
/// removes the layer, and leaves no keyboard focus on the surface it had.
pub proof fn close_releases_drawing_surface_first(
    pre: StateModel,
    layer_id: u32,
    i: int,
    teardown: Seq<Teardown>,
    ended: Seq<u32>,
    post: StateModel,
)
    requires
        wf_model(pre),
        layer_index(pre.layers, layer_id, i),
        close_outcome(pre, layer_id, teardown, ended, post),
    ensures
        teardown.len() == 2,
        teardown[0] == Teardown::ReleaseDrawingSurface,
        teardown[1] == Teardown::ReleaseOverlaySurface,
        post.keyboard_focus != Some(pre.layers[i].surface_id),
        !has_layer(post.layers, layer_id),
{
    let j = choose|j: int| layer_index(pre.layers, layer_id, j);
    assert(layer_index(pre.layers, layer_id, j));
    if j != i {
        assert(pre.layers[i].layer_id != pre.layers[j].layer_id);
    }
    assert(j == i);
    assert forall|k: int| !layer_index(post.layers, layer_id, k) by {
        if 0 <= k < post.layers.len() {
            let ok = if k < i {
                k
            } else {
                k + 1
            };
            assert(post.layers[k] == pre.layers[ok]);
            assert(pre.layers[ok].layer_id != pre.layers[i].layer_id);
        }
    }
}

/// Once a layer is closed its subscriptions are gone: a key press addressed to that layer
/// reaches no one.
pub proof fn closed_layer_gets_no_keys(
    subs: Seq<KeySubscription>,
    layer_id: u32,
    keysym: u32,
    modifiers: Modifiers,
)
    ensures
        deliveries(subs_without_layer(subs, layer_id), layer_id, keysym, modifiers) == Seq::<
            KeyDelivery,
        >::empty(),
    decreases subs.len(),
{
    if subs.len() > 0 {
        closed_layer_gets_no_keys(subs.drop_last(), layer_id, keysym, modifiers);
        let kept = subs_without_layer(subs, layer_id);
        let init = subs_without_layer(subs.drop_last(), layer_id);
        if subs.last().layer_id != layer_id {
            assert(kept.drop_last() =~= init);
        }
    }
}

/// The number of deliveries in `ds` addressed to subscription `s`.
pub open spec fn deliveries_to(ds: Seq<KeyDelivery>, s: u32) -> nat
    decreases ds.len(),
{
    if ds.len() == 0 {
        0
    } else {
        deliveries_to(ds.drop_last(), s) + if ds.last().subscription == s {
            1nat
        } else {
            0nat
        }
    }
}

/// Subscription `s` is one to the key presses of layer `layer_id`.
pub open spec fn subscribed(subs: Seq<KeySubscription>, s: u32, layer_id: u32) -> bool {
    exists|k: int| 0 <= k < subs.len() && subs[k].id == s && subs[k].layer_id == layer_id
}

proof fn lemma_prefix_increasing(subs: Seq<KeySubscription>)
    requires
        ids_increasing(subs),
        subs.len() > 0,
    ensures
        ids_increasing(subs.drop_last()),
        forall|k: int| 0 <= k < subs.len() - 1 ==> #[trigger] subs[k].id < subs.last().id,
{
    let d = subs.drop_last();
    assert forall|k: int, l: int| 0 <= k < l < d.len() implies (#[trigger] d[k]).id < (
    #[trigger] d[l]).id by {
        assert(d[k] == subs[k] && d[l] == subs[l]);
    }
    assert forall|k: int| 0 <= k < subs.len() - 1 implies #[trigger] subs[k].id
        < subs.last().id by {
        assert(subs[k].id < subs[subs.len() - 1].id);
    }
}

proof fn lemma_deliveries_count(
    subs: Seq<KeySubscription>,
    layer_id: u32,
    keysym: u32,
    modifiers: Modifiers,
    s: u32,
)
    requires
        ids_increasing(subs),
    ensures
        deliveries_to(deliveries(subs, layer_id, keysym, modifiers), s) == if subscribed(
            subs,
            s,
            layer_id,
        ) {
            1nat
        } else {
            0nat
        },
    decreases subs.len(),
{
    if subs.len() > 0 {
        let d = subs.drop_last();
        let last = subs.last();
        lemma_prefix_increasing(subs);
        lemma_deliveries_count(d, layer_id, keysym, modifiers, s);
        let x = deliveries(d, layer_id, keysym, modifiers);
        if last.layer_id == layer_id {
            let dl = KeyDelivery { subscription: last.id, keysym, modifiers };
            assert(x.push(dl).drop_last() =~= x);
        }
        if subscribed(subs, s, layer_id) {
            let k = choose|k: int|
                0 <= k < subs.len() && subs[k].id == s && subs[k].layer_id == layer_id;
            if k < d.len() {
                assert(d[k] == subs[k]);
                if last.id == s {
                    assert(subs[k].id < last.id);
                }
            }
        }
        if subscribed(d, s, layer_id) {
            let k = choose|k: int| 0 <= k < d.len() && d[k].id == s && d[k].layer_id == layer_id;
            assert(subs[k] == d[k]);
            assert(subs[k].id < last.id);
        }
        if last.id == s && last.layer_id == layer_id {
            assert(subs[subs.len() - 1] == last);
        }
    } else {
        assert(deliveries(subs, layer_id, keysym, modifiers).len() == 0);
    }
}

proof fn lemma_subscribed_once(subs: Seq<KeySubscription>, s: u32, l1: u32, l2: u32)
    requires
        ids_increasing(subs),
        subscribed(subs, s, l1),
        subscribed(subs, s, l2),
    ensures
        l1 == l2,
{
    let k1 = choose|k: int| 0 <= k < subs.len() && subs[k].id == s && subs[k].layer_id == l1;
    let k2 = choose|k: int| 0 <= k < subs.len() && subs[k].id == s && subs[k].layer_id == l2;
    if k1 < k2 {
        assert(subs[k1].id < subs[k2].id);
    } else if k2 < k1 {
        assert(subs[k2].id < subs[k1].id);
    }
}

/// Each key press reaches a key stream at most once: once when the stream subscribes to the
/// layer that holds keyboard focus, and not at all otherwise. In particular a stream gets
/// nothing from a press while the focus is on another layer, or on none.
pub proof fn each_press_reaches_a_stream_once(m: StateModel, keysym: u32, s: u32)
    requires
        wf_model(m),
    ensures
        deliveries_to(focused_deliveries(m, keysym), s) == match focused_layer(m) {
            Some(l) => if subscribed(m.subscriptions, s, l) {
                1nat
            } else {
                0nat
            },
            None => 0nat,
        },
        forall|l: u32|
            subscribed(m.subscriptions, s, l) && focused_layer(m) != Some(l) ==> deliveries_to(
                #[trigger] focused_deliveries(m, keysym),
                s,
            ) == 0,
{
    match focused_layer(m) {
        Some(f) => {
            lemma_deliveries_count(m.subscriptions, f, keysym, m.keyboard_modifiers, s);
            assert forall|l: u32|
                subscribed(m.subscriptions, s, l) && focused_layer(m) != Some(l) implies deliveries_to(
                #[trigger] focused_deliveries(m, keysym),
                s,
            ) == 0 by {
                if subscribed(m.subscriptions, s, f) {
                    lemma_subscribed_once(m.subscriptions, s, l, f);
                }
            }
        },
        None => {
            assert(focused_deliveries(m, keysym).len() == 0);
        },
    }
}

proof fn lemma_kept_subscriptions(subs: Seq<KeySubscription>, layer_id: u32)
    ensures
        forall|j: int|
            0 <= j < subs_without_layer(subs, layer_id).len() ==> exists|k: int|
                0 <= k < subs.len() && subs[k] == #[trigger] subs_without_layer(subs, layer_id)[j]
                    && subs[k].layer_id != layer_id,
    decreases subs.len(),
{
    if subs.len() > 0 {
        let d = subs.drop_last();
        lemma_kept_subscriptions(d, layer_id);
        let init = subs_without_layer(d, layer_id);
        let r = subs_without_layer(subs, layer_id);
        assert forall|j: int| 0 <= j < r.len() implies exists|k: int|
            0 <= k < subs.len() && subs[k] == #[trigger] r[j] && subs[k].layer_id != layer_id by {
            if j < init.len() {
                assert(r[j] == init[j]);
                let k = choose|k: int|
                    0 <= k < d.len() && d[k] == init[j] && d[k].layer_id != layer_id;
                assert(subs[k] == d[k]);
            } else {
                assert(r[j] == subs[subs.len() - 1]);
            }
        }
    }
}

/// A stream of a closed layer ends: once layer `layer_id` is closed, a subscription `s` to it
/// is a subscription to no layer at all, so no later key press can reach it.
pub proof fn closed_layer_streams_end(subs: Seq<KeySubscription>, layer_id: u32, s: u32)
    requires
        ids_increasing(subs),
        subscribed(subs, s, layer_id),
    ensures
        forall|l: u32| !subscribed(#[trigger] subs_without_layer(subs, layer_id), s, l),
{
    lemma_kept_subscriptions(subs, layer_id);
    let k0 = choose|k: int| 0 <= k < subs.len() && subs[k].id == s && subs[k].layer_id == layer_id;
    assert forall|l: u32| !subscribed(#[trigger] subs_without_layer(subs, layer_id), s, l) by {
        let r = subs_without_layer(subs, layer_id);
        if subscribed(r, s, l) {
            let j = choose|j: int| 0 <= j < r.len() && r[j].id == s && r[j].layer_id == l;
            let k = choose|k: int| 0 <= k < subs.len() && subs[k] == r[j] && subs[k].layer_id != layer_id;
            if k < k0 {
                assert(subs[k].id < subs[k0].id);
            } else if k0 < k {
                assert(subs[k0].id < subs[k].id);
            }
        }
    }
}

} // verus!
