//! Resolved style parameters: what a compiled node hands the renderer, with every default
//! of the wire message applied.
use vstd::prelude::*;
use crate::convert::FromApi;
use crate::wire::{
    Alignment, Color, Length, Padding, Scalar, ScrollableAlignment, ScrollableDirection,
    ScrollableProperties,
};

verus! {

/// An alignment after defaults: an unspecified one is `Start`.
#[derive(Clone, Copy, Debug, PartialEq, Eq, Structural)]
pub enum Align {
    Start,
    Center,
    End,
}

/// Where a scrollbar sits, after defaults.
#[derive(Clone, Copy, Debug, PartialEq, Eq, Structural)]
pub enum ScrollAlign {
    Start,
    End,
}

/// The look of one scrollbar; an absent size leaves the renderer's own.
#[derive(Clone, Copy, Debug, PartialEq, Eq, Structural)]
pub struct ScrollbarStyle {
    pub width: Option<Scalar>,
    pub margin: Option<Scalar>,
    pub scroller_width: Option<Scalar>,
    pub alignment: ScrollAlign,
}

/// The axes along which a scrollable scrolls, after defaults.
#[derive(Clone, Copy, Debug, PartialEq, Eq, Structural)]
pub enum ScrollDirection {
    Vertical(ScrollbarStyle),
    Horizontal(ScrollbarStyle),
    Both { vertical: ScrollbarStyle, horizontal: ScrollbarStyle },
}

/// Padding with every side present.
#[derive(Clone, Copy, Debug, PartialEq, Eq, Structural)]
pub struct Insets {
    pub top: Scalar,
    pub right: Scalar,
    pub bottom: Scalar,
    pub left: Scalar,
}

/// The style of a text node.
pub struct TextStyle {
    pub content: String,
    pub size: Option<Scalar>,
    pub width: Length,
    pub height: Length,
    pub horizontal: Align,
    pub vertical: Align,
    pub color: Option<Color>,
}

/// The style of a text node as a mathematical value.
pub struct TextModel {
    pub content: Seq<char>,
    pub size: Option<Scalar>,
    pub width: Length,
    pub height: Length,
    pub horizontal: Align,
    pub vertical: Align,
    pub color: Option<Color>,
}

impl View for TextStyle {
    type V = TextModel;

    open spec fn view(&self) -> TextModel {
        TextModel {
            content: self.content@,
            size: self.size,
            width: self.width,
            height: self.height,
            horizontal: self.horizontal,
            vertical: self.vertical,
            color: self.color,
        }
    }
}

/// The style of a column or a row.
#[derive(Clone, Copy, Debug, PartialEq, Eq, Structural)]
pub struct FlowStyle {
    pub spacing: Option<Scalar>,
    pub padding: Insets,
    pub item_alignment: Align,
    pub width: Length,
    pub height: Length,
    pub max_width: Option<Scalar>,
    pub clip: bool,
}

/// The style of a scrollable.
#[derive(Clone, Copy, Debug, PartialEq, Eq, Structural)]
pub struct ScrollStyle {
    pub width: Length,
    pub height: Length,
    pub direction: ScrollDirection,
}

/// The style of a container.
#[derive(Clone, Copy, Debug, PartialEq, Eq, Structural)]
pub struct BoxStyle {
    pub padding: Insets,
    pub width: Length,
    pub height: Length,
    pub max_width: Option<Scalar>,
    pub max_height: Option<Scalar>,
    pub horizontal: Align,
    pub vertical: Align,
    pub clip: bool,
    pub text_color: Option<Color>,
    pub background_color: Option<Color>,
    pub border_radius: Option<Scalar>,
    pub border_thickness: Option<Scalar>,
    pub border_color: Option<Color>,
}

/// An unspecified length shrinks to its content.
pub open spec fn length_or_shrink(l: Option<Length>) -> Length {
    match l {
        Some(l) => l,
        None => Length::Shrink,
    }
}

pub fn resolve_length(l: Option<Length>) -> (r: Length)
    ensures
        r == length_or_shrink(l),
{
    match l {
        Some(l) => l,
        None => Length::Shrink,
    }
}

/// An unspecified alignment is `Start`.
pub open spec fn align_of(a: Alignment) -> Align {
    match a {
        Alignment::Unspecified => Align::Start,
        Alignment::Start => Align::Start,
        Alignment::Center => Align::Center,
        Alignment::End => Align::End,
    }
}

impl FromApi for Align {
    type ApiType = Alignment;

    open spec fn from_api_spec(api_type: Alignment) -> Align {
        align_of(api_type)
    }

    fn from_api(api_type: Alignment) -> (r: Align) {
        match api_type {
            Alignment::Unspecified => Align::Start,
            Alignment::Start => Align::Start,
            Alignment::Center => Align::Center,
            Alignment::End => Align::End,
        }
    }
}

/// An absent alignment is `Start`.
pub open spec fn align_or_start(a: Option<Alignment>) -> Align {
    match a {
        Some(a) => align_of(a),
        None => Align::Start,
    }
}

pub fn resolve_optional_alignment(a: Option<Alignment>) -> (r: Align)
    ensures
        r == align_or_start(a),
{
    match a {
        Some(a) => Align::from_api(a),
        None => Align::Start,
    }
}

/// An absent side of a padding is zero, and so is an absent padding.
pub open spec fn insets_of(p: Option<Padding>) -> Insets {
    let zero = Scalar { bits: 0 };
    match p {
        Some(p) => insets_of_padding(p),
        None => Insets { top: zero, right: zero, bottom: zero, left: zero },
    }
}

/// The insets of a padding whose absent sides are zero.
pub open spec fn insets_of_padding(p: Padding) -> Insets {
    let zero = Scalar { bits: 0 };
    Insets {
        top: p.top.unwrap_or(zero),
        right: p.right.unwrap_or(zero),
        bottom: p.bottom.unwrap_or(zero),
        left: p.left.unwrap_or(zero),
    }
}

fn side_or_zero(s: Option<Scalar>) -> (r: Scalar)
    ensures
        r == s.unwrap_or(Scalar { bits: 0 }),
{
    match s {
        Some(s) => s,
        None => Scalar::zero(),
    }
}

impl FromApi for Insets {
    type ApiType = Padding;

    open spec fn from_api_spec(api_type: Padding) -> Insets {
        insets_of_padding(api_type)
    }

    fn from_api(api_type: Padding) -> (r: Insets) {
        Insets {
            top: side_or_zero(api_type.top),
            right: side_or_zero(api_type.right),
            bottom: side_or_zero(api_type.bottom),
            left: side_or_zero(api_type.left),
        }
    }
}

pub fn resolve_padding(p: Option<Padding>) -> (r: Insets)
    ensures
        r == insets_of(p),
{
    match p {
        Some(p) => Insets::from_api(p),
        None => Insets {
            top: Scalar::zero(),
            right: Scalar::zero(),
            bottom: Scalar::zero(),
            left: Scalar::zero(),
        },
    }
}

/// A scrollbar's alignment: absent or unspecified is `Start`.
pub open spec fn scroll_align_of(a: Option<ScrollableAlignment>) -> ScrollAlign {
    match a {
        Some(ScrollableAlignment::End) => ScrollAlign::End,
        _ => ScrollAlign::Start,
    }
}

pub open spec fn scrollbar_of(p: ScrollableProperties) -> ScrollbarStyle {
    ScrollbarStyle {
        width: p.width,
        margin: p.margin,
        scroller_width: p.scroller_width,
        alignment: scroll_align_of(p.alignment),
    }
}

impl FromApi for ScrollbarStyle {
    type ApiType = ScrollableProperties;

    open spec fn from_api_spec(api_type: ScrollableProperties) -> ScrollbarStyle {
        scrollbar_of(api_type)
    }

    fn from_api(api_type: ScrollableProperties) -> (r: ScrollbarStyle) {
        let alignment = match api_type.alignment {
            Some(ScrollableAlignment::End) => ScrollAlign::End,
            _ => ScrollAlign::Start,
        };
        ScrollbarStyle {
            width: api_type.width,
            margin: api_type.margin,
            scroller_width: api_type.scroller_width,
            alignment,
        }
    }
}

/// The scrollbar of a property set left entirely at its defaults.
pub open spec fn default_scrollbar() -> ScrollbarStyle {
    ScrollbarStyle { width: None, margin: None, scroller_width: None, alignment: ScrollAlign::Start }
}

/// Which axes scroll: those given, and vertical alone when none is.
pub open spec fn axes_of(d: ScrollableDirection) -> ScrollDirection {
    match (d.vertical, d.horizontal) {
        (Some(v), Some(h)) => ScrollDirection::Both {
            vertical: scrollbar_of(v),
            horizontal: scrollbar_of(h),
        },
        (Some(v), None) => ScrollDirection::Vertical(scrollbar_of(v)),
        (None, Some(h)) => ScrollDirection::Horizontal(scrollbar_of(h)),
        (None, None) => ScrollDirection::Vertical(default_scrollbar()),
    }
}

/// The scrolling axes of a scrollable; an absent direction scrolls vertically.
pub open spec fn direction_of(d: Option<ScrollableDirection>) -> ScrollDirection {
    match d {
        Some(d) => axes_of(d),
        None => ScrollDirection::Vertical(default_scrollbar()),
    }
}

fn default_bar() -> (r: ScrollbarStyle)
    ensures
        r == default_scrollbar(),
{
    ScrollbarStyle { width: None, margin: None, scroller_width: None, alignment: ScrollAlign::Start }
}

impl FromApi for ScrollDirection {
    type ApiType = ScrollableDirection;

    open spec fn from_api_spec(api_type: ScrollableDirection) -> ScrollDirection {
        axes_of(api_type)
    }

    fn from_api(api_type: ScrollableDirection) -> (r: ScrollDirection) {
        match (api_type.vertical, api_type.horizontal) {
            (Some(v), Some(h)) => ScrollDirection::Both {
                vertical: ScrollbarStyle::from_api(v),
                horizontal: ScrollbarStyle::from_api(h),
            },
            (Some(v), None) => ScrollDirection::Vertical(ScrollbarStyle::from_api(v)),
            (None, Some(h)) => ScrollDirection::Horizontal(ScrollbarStyle::from_api(h)),
            (None, None) => ScrollDirection::Vertical(default_bar()),
        }
    }
}

pub fn resolve_direction(d: Option<ScrollableDirection>) -> (r: ScrollDirection)
    ensures
        r == direction_of(d),
{
    match d {
        Some(d) => ScrollDirection::from_api(d),
        None => ScrollDirection::Vertical(default_bar()),
    }
}

} // verus!
