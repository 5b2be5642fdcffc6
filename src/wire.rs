//! The widget-definition message as the RPC layer hands it over.
//!
//! Every optional field of the message stays optional here: defaults are applied by the
//! compiler, and an absent required field is a decode error for that subtree.
use vstd::prelude::*;

verus! {

/// A 32-bit float carried by its IEEE-754 bit pattern.
///
/// The library never computes with these values; it only hands them on to the renderer.
#[derive(Clone, Copy, Debug, PartialEq, Eq, Structural)]
pub struct Scalar {
    pub bits: u32,
}

impl Scalar {
    /// The value `0.0`.
    pub fn zero() -> (r: Scalar)
        ensures
            r.bits == 0,
    {
        Scalar { bits: 0 }
    }
}

/// The id of a callback that the client registered.
#[derive(Clone, Copy, Debug, PartialEq, Eq, Hash, Structural)]
pub struct CallbackId(pub u32);

/// How a widget fills space along one axis.
#[derive(Clone, Copy, Debug, PartialEq, Eq, Structural)]
pub enum Length {
    Fill,
    FillPortion(u32),
    Shrink,
    Fixed(Scalar),
}

/// An alignment as it travels on the wire, where it may be left unspecified.
#[derive(Clone, Copy, Debug, PartialEq, Eq, Structural)]
pub enum Alignment {
    Unspecified,
    Start,
    Center,
    End,
}

/// Padding on the four sides; an absent side is zero.
#[derive(Clone, Copy, Debug, PartialEq, Eq, Structural)]
pub struct Padding {
    pub top: Option<Scalar>,
    pub right: Option<Scalar>,
    pub bottom: Option<Scalar>,
    pub left: Option<Scalar>,
}

/// A color as four channels in `[0, 1]`; an absent alpha is opaque.
#[derive(Clone, Copy, Debug, PartialEq, Eq, Structural)]
pub struct Color {
    pub red: Option<Scalar>,
    pub green: Option<Scalar>,
    pub blue: Option<Scalar>,
    pub alpha: Option<Scalar>,
}

/// Where a scrollbar sits.
#[derive(Clone, Copy, Debug, PartialEq, Eq, Structural)]
pub enum ScrollableAlignment {
    Unspecified,
    Start,
    End,
}

/// The look of one scrollbar.
#[derive(Clone, Copy, Debug, PartialEq, Eq, Structural)]
pub struct ScrollableProperties {
    pub width: Option<Scalar>,
    pub margin: Option<Scalar>,
    pub scroller_width: Option<Scalar>,
    pub alignment: Option<ScrollableAlignment>,
}

/// The axes along which a scrollable scrolls.
#[derive(Clone, Copy, Debug, PartialEq, Eq, Structural)]
pub struct ScrollableDirection {
    pub vertical: Option<ScrollableProperties>,
    pub horizontal: Option<ScrollableProperties>,
}

/// A text label.
pub struct TextDef {
    pub text: Option<String>,
    pub pixels: Option<Scalar>,
    pub width: Option<Length>,
    pub height: Option<Length>,
    pub horizontal_alignment: Alignment,
    pub vertical_alignment: Alignment,
    pub color: Option<Color>,
}

/// A vertical run of children.
pub struct ColumnDef {
    pub spacing: Option<Scalar>,
    pub padding: Option<Padding>,
    pub item_alignment: Option<Alignment>,
    pub width: Option<Length>,
    pub height: Option<Length>,
    pub max_width: Option<Scalar>,
    pub clip: Option<bool>,
    pub children: Vec<WidgetDefinition>,
}

/// A horizontal run of children.
pub struct RowDef {
    pub spacing: Option<Scalar>,
    pub padding: Option<Padding>,
    pub item_alignment: Option<Alignment>,
    pub width: Option<Length>,
    pub height: Option<Length>,
    pub clip: Option<bool>,
    pub children: Vec<WidgetDefinition>,
}

/// A scrolling viewport over one child, which is required.
pub struct ScrollableDef {
    pub width: Option<Length>,
    pub height: Option<Length>,
    pub direction: Option<ScrollableDirection>,
    pub child: Option<Box<WidgetDefinition>>,
}

/// A styled box around one child, which is required.
pub struct ContainerDef {
    pub padding: Option<Padding>,
    pub width: Option<Length>,
    pub height: Option<Length>,
    pub max_width: Option<Scalar>,
    pub max_height: Option<Scalar>,
    pub horizontal_alignment: Option<Alignment>,
    pub vertical_alignment: Option<Alignment>,
    pub clip: Option<bool>,
    pub child: Option<Box<WidgetDefinition>>,
    pub text_color: Option<Color>,
    pub background_color: Option<Color>,
    pub border_radius: Option<Scalar>,
    pub border_thickness: Option<Scalar>,
    pub border_color: Option<Color>,
}

/// The variants of a widget definition.
pub enum Widget {
    Text(TextDef),
    Column(ColumnDef),
    Row(RowDef),
    Scrollable(Box<ScrollableDef>),
    Container(Box<ContainerDef>),
}

/// One node of a widget-definition tree; the variant may be missing on the wire.
pub struct WidgetDefinition {
    pub widget: Option<Widget>,
}

/// The number of nodes visited when compiling `def`: every present definition counts once,
/// and the children of a definition without a variant are never reached.
pub open spec fn def_size(def: WidgetDefinition) -> nat
    decreases def,
{
    match def.widget {
        Some(Widget::Column(c)) => 1 + forest_size(c.children@),
        Some(Widget::Row(r)) => 1 + forest_size(r.children@),
        Some(Widget::Scrollable(s)) => 1 + child_size(s.child),
        Some(Widget::Container(c)) => 1 + child_size(c.child),
        _ => 1,
    }
}

/// The number of nodes visited in an optional single child.
pub open spec fn child_size(child: Option<Box<WidgetDefinition>>) -> nat
    decreases child,
{
    match child {
        Some(d) => def_size(*d),
        None => 0,
    }
}

/// The number of nodes visited in a sequence of sibling definitions.
pub open spec fn forest_size(defs: Seq<WidgetDefinition>) -> nat
    decreases defs,
{
    if defs.len() == 0 {
        0
    } else {
        forest_size(defs.drop_last()) + def_size(defs.last())
    }
}

} // verus!
