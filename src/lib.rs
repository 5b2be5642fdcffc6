//! Remotely specified widget trees rendered as overlay surfaces: the widget compiler, the
//! per-surface state, the surface-session lifecycle, input routing and the command loop's
//! decisions.
pub mod wire;
pub mod style;
pub mod compile;
pub mod program;
pub mod input;
pub mod session;
pub mod layer;
pub mod state;
pub mod font;
pub mod convert;
pub mod widget;
