//! A surface session: one overlay surface with its drawing surface, its compiled widgets and
//! their state, through configure, draw and teardown.
use vstd::prelude::*;
use crate::compile::{node_model, NodeModel};
use crate::input::UiEvent;
use crate::program::{
    element_model, rendered, Element, Payload, SnowcapWidgetProgram, UpdateMessage,
};

verus! {

/// Where a session is in its lifecycle.
#[derive(Clone, Copy, Debug, PartialEq, Eq, Structural)]
pub enum Phase {
    /// Created; the compositor has not configured the surface yet, so nothing is drawn.
    Unconfigured,
    /// Configured at least once; draws are allowed.
    Configured,
    /// Torn down for good.
    Closed,
}

/// One step of tearing a session down, in the order it must be carried out.
#[derive(Clone, Copy, Debug, PartialEq, Eq, Structural)]
pub enum Teardown {
    ReleaseDrawingSurface,
    ReleaseOverlaySurface,
}

/// What a configure event asks of the drawing surface.
#[derive(Clone, Copy, Debug, PartialEq, Eq, Structural)]
pub enum Configure {
    /// The session is closed: nothing to do.
    Ignored,
    /// Reconfigure the drawing surface at this size, and draw at once on a first configure.
    Resize { width: u32, height: u32, draw_now: bool },
}

/// What drawing a session presents: its size and the element tree.
pub struct Frame {
    pub width: u32,
    pub height: u32,
    pub element: Element,
}

/// A session as a mathematical value.
pub struct SessionModel {
    pub layer_id: u32,
    pub surface_id: u32,
    pub width: u32,
    pub height: u32,
    pub phase: Phase,
    pub tree: NodeModel,
    pub store: Map<u32, Payload>,
    pub queue: Seq<UiEvent>,
}

pub struct SurfaceSession {
    layer_id: u32,
    surface_id: u32,
    width: u32,
    height: u32,
    phase: Phase,
    program: SnowcapWidgetProgram,
    queue: Vec<UiEvent>,
}

impl View for SurfaceSession {
    type V = SessionModel;

    closed spec fn view(&self) -> SessionModel {
        SessionModel {
            layer_id: self.layer_id,
            surface_id: self.surface_id,
            width: self.width,
            height: self.height,
            phase: self.phase,
            tree: node_model(self.program.widgets),
            store: self.program.widget_state@,
            queue: self.queue@,
        }
    }
}

/// A configured size: a dimension of 0 leaves the choice to the client, which keeps its own.
pub open spec fn configured_size(current: u32, suggested: u32) -> u32 {
    if suggested == 0 {
        current
    } else {
        suggested
    }
}

/// The store after applying `msgs` in order.
pub open spec fn apply_all(store: Map<u32, Payload>, msgs: Seq<UpdateMessage>) -> Map<u32, Payload>
    decreases msgs.len(),
{
    if msgs.len() == 0 {
        store
    } else {
        apply_all(store, msgs.drop_last()).insert(msgs.last().0, msgs.last().1)
    }
}

impl SurfaceSession {
    /// A new, unconfigured session for layer `layer_id`, bound to overlay surface
    /// `surface_id`.
    pub fn new(
        layer_id: u32,
        surface_id: u32,
        width: u32,
        height: u32,
        program: SnowcapWidgetProgram,
    ) -> (r: SurfaceSession)
        ensures
            r@ == (SessionModel {
                layer_id,
                surface_id,
                width,
                height,
                phase: Phase::Unconfigured,
                tree: node_model(program.widgets),
                store: program.widget_state@,
                queue: Seq::empty(),
            }),
    {
        let r = SurfaceSession {
            layer_id,
            surface_id,
            width,
            height,
            phase: Phase::Unconfigured,
            program,
            queue: Vec::new(),
        };
        proof {
            assert(r.queue@ =~= Seq::<UiEvent>::empty());
        }
        r
    }

    pub fn layer_id(&self) -> (r: u32)
        ensures
            r == self@.layer_id,
    {
        self.layer_id
    }

    pub fn surface_id(&self) -> (r: u32)
        ensures
            r == self@.surface_id,
    {
        self.surface_id
    }

    pub fn phase(&self) -> (r: Phase)
        ensures
            r == self@.phase,
    {
        self.phase
    }

    pub fn is_queue_empty(&self) -> (r: bool)
        ensures
            r == (self@.queue.len() == 0),
    {
        self.queue.len() == 0
    }

    /// Handles a configure event from the compositor. The first one on a session asks for
    /// a draw at once; later ones resize only. A closed session ignores it.
    pub fn on_configure(&mut self, width: u32, height: u32) -> (r: Configure)
        ensures
            old(self)@.phase == Phase::Closed ==> r == Configure::Ignored && final(self)@ == old(self)@,
            old(self)@.phase != Phase::Closed ==> {
                let w = configured_size(old(self)@.width, width);
                let h = configured_size(old(self)@.height, height);
                &&& r == (Configure::Resize {
                    width: w,
                    height: h,
                    draw_now: old(self)@.phase == Phase::Unconfigured,
                })
                &&& final(self)@ == (SessionModel {
                    width: w,
                    height: h,
                    phase: Phase::Configured,
                    ..old(self)@
                })
            },
    {
        match self.phase {
            Phase::Closed => Configure::Ignored,
            _ => {
                let draw_now = match self.phase {
                    Phase::Unconfigured => true,
                    _ => false,
                };
                if width != 0 {
                    self.width = width;
                }
                if height != 0 {
                    self.height = height;
                }
                self.phase = Phase::Configured;
                Configure::Resize { width: self.width, height: self.height, draw_now }
            },
        }
    }

    /// Appends a UI event to the input queue; a closed session drops it.
    pub fn queue_input(&mut self, event: UiEvent)
        ensures
            old(self)@.phase == Phase::Closed ==> final(self)@ == old(self)@,
            old(self)@.phase != Phase::Closed ==> final(self)@ == (SessionModel {
                queue: old(self)@.queue.push(event),
                ..old(self)@
            }),
    {
        match self.phase {
            Phase::Closed => {},
            _ => {
                self.queue.push(event);
            },
        }
    }

    /// Hands out the queued input, oldest first, and empties the queue.
    pub fn take_input(&mut self) -> (r: Vec<UiEvent>)
        ensures
            r@ == old(self)@.queue,
            final(self)@ == (SessionModel { queue: Seq::empty(), ..old(self)@ }),
    {
        let mut r: Vec<UiEvent> = Vec::new();
        let mut i: usize = 0;
        while i < self.queue.len()
            invariant
                0 <= i <= self.queue.len(),
                r@ == self.queue@.take(i as int),
            decreases self.queue.len() - i,
        {
            proof {
                assert(self.queue@.take(i + 1) =~= self.queue@.take(i as int).push(self.queue@[i as int]));
            }
            r.push(self.queue[i]);
            i = i + 1;
        }
        proof {
            assert(self.queue@.take(i as int) =~= self.queue@);
        }
        self.queue = Vec::new();
        proof {
            assert(self.queue@ =~= Seq::<UiEvent>::empty());
        }
        r
    }

    /// Applies the update messages that the queued input produced, in order, and empties the
    /// queue. Returns whether a frame should be requested: the session is configured and its
    /// state or its input changed.
    pub fn tick(&mut self, messages: &Vec<UpdateMessage>) -> (request_frame: bool)
        ensures
            old(self)@.phase == Phase::Closed ==> !request_frame && final(self)@ == old(self)@,
            old(self)@.phase != Phase::Closed ==> {
                &&& final(self)@ == (SessionModel {
                    store: apply_all(old(self)@.store, messages@),
                    queue: Seq::empty(),
                    ..old(self)@
                })
                &&& request_frame == (old(self)@.phase == Phase::Configured && (messages@.len()
                    > 0 || old(self)@.queue.len() > 0))
            },
    {
        match self.phase {
            Phase::Closed => {
                return false;
            },
            _ => {},
        }
        let had_input = self.queue.len() > 0;
        let mut i: usize = 0;
        while i < messages.len()
            invariant
                0 <= i <= messages.len(),
                self.phase == old(self).phase,
                self.layer_id == old(self).layer_id,
                self.surface_id == old(self).surface_id,
                self.width == old(self).width,
                self.height == old(self).height,
                self.queue@ == old(self).queue@,
                node_model(self.program.widgets) == node_model(old(self).program.widgets),
                self.program.widget_state@ == apply_all(
                    old(self).program.widget_state@,
                    messages@.take(i as int),
                ),
            decreases messages.len() - i,
        {
            proof {
                assert(messages@.take(i + 1).drop_last() =~= messages@.take(i as int));
            }
            self.program.update(messages[i]);
            i = i + 1;
        }
        proof {
            assert(messages@.take(i as int) =~= messages@);
        }
        self.queue = Vec::new();
        proof {
            assert(self.queue@ =~= Seq::<UiEvent>::empty());
        }
        let configured = match self.phase {
            Phase::Configured => true,
            _ => false,
        };
        configured && (messages.len() > 0 || had_input)
    }

    /// Renders the session for presenting. Before the first configure, and after closing,
    /// there is nothing to draw.
    pub fn draw(&self) -> (r: Option<Frame>)
        ensures
            match r {
                Some(f) => {
                    &&& self@.phase == Phase::Configured
                    &&& f.width == self@.width
                    &&& f.height == self@.height
                    &&& element_model(f.element) == rendered(self@.tree, self@.store)
                },
                None => self@.phase != Phase::Configured,
            },
    {
        match self.phase {
            Phase::Configured => Some(
                Frame { width: self.width, height: self.height, element: self.program.view() },
            ),
            _ => None,
        }
    }

    /// Renders the session's widgets against their current state, whatever the phase.
    pub fn render(&self) -> (r: Element)
        ensures
            element_model(r) == rendered(self@.tree, self@.store),
    {
        self.program.view()
    }

    /// The state stored for node `id`.
    pub fn state_of(&self, id: u32) -> (r: Option<Payload>)
        ensures
            r == crate::program::lookup(self@.store, id as nat),
    {
        self.program.widget_state.get(id)
    }

    /// Closes the session: the drawing surface is released before the overlay surface it is
    /// bound to. Closing a closed session does nothing.
    pub fn close(&mut self) -> (r: Vec<Teardown>)
        ensures
            old(self)@.phase == Phase::Closed ==> r@.len() == 0 && final(self)@ == old(self)@,
            old(self)@.phase != Phase::Closed ==> r@ == seq![
                Teardown::ReleaseDrawingSurface,
                Teardown::ReleaseOverlaySurface,
            ] && final(self)@ == (SessionModel { phase: Phase::Closed, ..old(self)@ }),
    {
        let mut r: Vec<Teardown> = Vec::new();
        match self.phase {
            Phase::Closed => {},
            _ => {
                r.push(Teardown::ReleaseDrawingSurface);
                r.push(Teardown::ReleaseOverlaySurface);
                self.phase = Phase::Closed;
            },
        }
        proof {
            if old(self)@.phase != Phase::Closed {
                assert(r@ =~= seq![Teardown::ReleaseDrawingSurface, Teardown::ReleaseOverlaySurface]);
            }
        }
        r
    }
}

} // verus!
