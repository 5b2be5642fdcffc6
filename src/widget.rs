//! The client's widget builders, and their conversion into the wire message.
use vstd::prelude::*;
use crate::convert::IntoApi;
use crate::wire;
use crate::compile::{well_formed, well_formed_child, well_formed_forest};
use crate::wire::Scalar;

verus! {

/// The id of a layer, as the client holds it.
#[derive(Clone, Copy, Default, Debug, PartialEq, Eq, Hash, Structural)]
pub struct WidgetId(pub u32);

impl View for WidgetId {
    type V = u32;

    open spec fn view(&self) -> u32 {
        self.0
    }
}

impl WidgetId {
    pub fn into_inner(self) -> (r: u32)
        ensures
            r == self@,
    {
        self.0
    }
}

impl From<u32> for WidgetId {
    fn from(value: u32) -> (r: WidgetId) {
        WidgetId(value)
    }
}

impl vstd::std_specs::convert::FromSpecImpl<u32> for WidgetId {
    open spec fn obeys_from_spec() -> bool {
        true
    }

    open spec fn from_spec(v: u32) -> WidgetId {
        WidgetId(v)
    }
}

/// An alignment.
#[derive(Clone, Copy, Debug, PartialEq, Eq, Structural)]
pub enum Alignment {
    Start,
    Center,
    End,
}

pub open spec fn alignment_api(a: Alignment) -> wire::Alignment {
    match a {
        Alignment::Start => wire::Alignment::Start,
        Alignment::Center => wire::Alignment::Center,
        Alignment::End => wire::Alignment::End,
    }
}

impl IntoApi for Alignment {
    type ApiType = wire::Alignment;

    open spec fn converts_to(self, api: wire::Alignment) -> bool {
        api == alignment_api(self)
    }

    fn into_api(self) -> (r: wire::Alignment) {
        match self {
            Alignment::Start => wire::Alignment::Start,
            Alignment::Center => wire::Alignment::Center,
            Alignment::End => wire::Alignment::End,
        }
    }
}

/// How a widget fills space along one axis.
#[derive(Clone, Copy, Debug, PartialEq, Eq, Structural)]
pub enum Length {
    Fill,
    FillPortion(u16),
    Shrink,
    Fixed(Scalar),
}

pub open spec fn length_api(l: Length) -> wire::Length {
    match l {
        Length::Fill => wire::Length::Fill,
        Length::FillPortion(p) => wire::Length::FillPortion(p as u32),
        Length::Shrink => wire::Length::Shrink,
        Length::Fixed(s) => wire::Length::Fixed(s),
    }
}

impl IntoApi for Length {
    type ApiType = wire::Length;

    open spec fn converts_to(self, api: wire::Length) -> bool {
        api == length_api(self)
    }

    fn into_api(self) -> (r: wire::Length) {
        match self {
            Length::Fill => wire::Length::Fill,
            Length::FillPortion(p) => wire::Length::FillPortion(p as u32),
            Length::Shrink => wire::Length::Shrink,
            Length::Fixed(s) => wire::Length::Fixed(s),
        }
    }
}

/// A color as four channels in `[0, 1]`.
#[derive(Clone, Copy, Debug, PartialEq, Eq, Structural)]
pub struct Color {
    pub red: Scalar,
    pub green: Scalar,
    pub blue: Scalar,
    pub alpha: Scalar,
}

pub open spec fn color_api(c: Color) -> wire::Color {
    wire::Color {
        red: Some(c.red),
        green: Some(c.green),
        blue: Some(c.blue),
        alpha: Some(c.alpha),
    }
}

impl IntoApi for Color {
    type ApiType = wire::Color;

    open spec fn converts_to(self, api: wire::Color) -> bool {
        api == color_api(self)
    }

    fn into_api(self) -> (r: wire::Color) {
        wire::Color {
            red: Some(self.red),
            green: Some(self.green),
            blue: Some(self.blue),
            alpha: Some(self.alpha),
        }
    }
}

/// Padding on the four sides.
#[derive(Clone, Copy, Debug, PartialEq, Eq, Structural)]
pub struct Padding {
    pub top: Scalar,
    pub right: Scalar,
    pub bottom: Scalar,
    pub left: Scalar,
}

pub open spec fn padding_api(p: Padding) -> wire::Padding {
    wire::Padding {
        top: Some(p.top),
        right: Some(p.right),
        bottom: Some(p.bottom),
        left: Some(p.left),
    }
}

impl IntoApi for Padding {
    type ApiType = wire::Padding;

    open spec fn converts_to(self, api: wire::Padding) -> bool {
        api == padding_api(self)
    }

    fn into_api(self) -> (r: wire::Padding) {
        wire::Padding {
            top: Some(self.top),
            right: Some(self.right),
            bottom: Some(self.bottom),
            left: Some(self.left),
        }
    }
}

/// Where a scrollbar sits.
#[derive(Clone, Copy, Debug, PartialEq, Eq, Structural)]
pub enum ScrollableAlignment {
    Start,
    End,
}

pub open spec fn scrollable_alignment_api(a: ScrollableAlignment) -> wire::ScrollableAlignment {
    match a {
        ScrollableAlignment::Start => wire::ScrollableAlignment::Start,
        ScrollableAlignment::End => wire::ScrollableAlignment::End,
    }
}

impl IntoApi for ScrollableAlignment {
    type ApiType = wire::ScrollableAlignment;

    open spec fn converts_to(self, api: wire::ScrollableAlignment) -> bool {
        api == scrollable_alignment_api(self)
    }

    fn into_api(self) -> (r: wire::ScrollableAlignment) {
        match self {
            ScrollableAlignment::Start => wire::ScrollableAlignment::Start,
            ScrollableAlignment::End => wire::ScrollableAlignment::End,
        }
    }
}

/// The look of one scrollbar.
#[derive(Clone, Copy, Debug, PartialEq, Eq, Structural)]
pub struct ScrollableProperties {
    pub width: Option<Scalar>,
    pub margin: Option<Scalar>,
    pub scroller_width: Option<Scalar>,
    pub alignment: Option<ScrollableAlignment>,
}

pub open spec fn properties_api(p: ScrollableProperties) -> wire::ScrollableProperties {
    wire::ScrollableProperties {
        width: p.width,
        margin: p.margin,
        scroller_width: p.scroller_width,
        alignment: match p.alignment {
            Some(a) => Some(scrollable_alignment_api(a)),
            None => None,
        },
    }
}

impl IntoApi for ScrollableProperties {
    type ApiType = wire::ScrollableProperties;

    open spec fn converts_to(self, api: wire::ScrollableProperties) -> bool {
        api == properties_api(self)
    }

    fn into_api(self) -> (r: wire::ScrollableProperties) {
        wire::ScrollableProperties {
            width: self.width,
            margin: self.margin,
            scroller_width: self.scroller_width,
            alignment: match self.alignment {
                Some(a) => Some(a.into_api()),
                None => None,
            },
        }
    }
}

/// The axes along which a scrollable scrolls.
#[derive(Clone, Copy, Debug, PartialEq, Eq, Structural)]
pub enum ScrollableDirection {
    Vertical(ScrollableProperties),
    Horizontal(ScrollableProperties),
    Both { vertical: ScrollableProperties, horizontal: ScrollableProperties },
}

pub open spec fn direction_api(d: ScrollableDirection) -> wire::ScrollableDirection {
    match d {
        ScrollableDirection::Vertical(p) => wire::ScrollableDirection {
            vertical: Some(properties_api(p)),
            horizontal: None,
        },
        ScrollableDirection::Horizontal(p) => wire::ScrollableDirection {
            vertical: None,
            horizontal: Some(properties_api(p)),
        },
        ScrollableDirection::Both { vertical, horizontal } => wire::ScrollableDirection {
            vertical: Some(properties_api(vertical)),
            horizontal: Some(properties_api(horizontal)),
        },
    }
}

impl IntoApi for ScrollableDirection {
    type ApiType = wire::ScrollableDirection;

    open spec fn converts_to(self, api: wire::ScrollableDirection) -> bool {
        api == direction_api(self)
    }

    fn into_api(self) -> (r: wire::ScrollableDirection) {
        match self {
            ScrollableDirection::Vertical(p) => wire::ScrollableDirection {
                vertical: Some(p.into_api()),
                horizontal: None,
            },
            ScrollableDirection::Horizontal(p) => wire::ScrollableDirection {
                vertical: None,
                horizontal: Some(p.into_api()),
            },
            ScrollableDirection::Both { vertical, horizontal } => wire::ScrollableDirection {
                vertical: Some(vertical.into_api()),
                horizontal: Some(horizontal.into_api()),
            },
        }
    }
}

pub open spec fn opt_length_api(l: Option<Length>) -> Option<wire::Length> {
    match l {
        Some(l) => Some(length_api(l)),
        None => None,
    }
}

fn opt_length_into_api(l: Option<Length>) -> (r: Option<wire::Length>)
    ensures
        r == opt_length_api(l),
{
    match l {
        Some(l) => Some(l.into_api()),
        None => None,
    }
}

pub open spec fn opt_alignment_api(a: Option<Alignment>) -> Option<wire::Alignment> {
    match a {
        Some(a) => Some(alignment_api(a)),
        None => None,
    }
}

fn opt_alignment_into_api(a: Option<Alignment>) -> (r: Option<wire::Alignment>)
    ensures
        r == opt_alignment_api(a),
{
    match a {
        Some(a) => Some(a.into_api()),
        None => None,
    }
}

/// An alignment on the wire, where an absent one is unspecified.
pub open spec fn alignment_or_unspecified(a: Option<Alignment>) -> wire::Alignment {
    match a {
        Some(a) => alignment_api(a),
        None => wire::Alignment::Unspecified,
    }
}

pub open spec fn opt_color_api(c: Option<Color>) -> Option<wire::Color> {
    match c {
        Some(c) => Some(color_api(c)),
        None => None,
    }
}

fn opt_color_into_api(c: Option<Color>) -> (r: Option<wire::Color>)
    ensures
        r == opt_color_api(c),
{
    match c {
        Some(c) => Some(c.into_api()),
        None => None,
    }
}

pub open spec fn opt_padding_api(p: Option<Padding>) -> Option<wire::Padding> {
    match p {
        Some(p) => Some(padding_api(p)),
        None => None,
    }
}

fn opt_padding_into_api(p: Option<Padding>) -> (r: Option<wire::Padding>)
    ensures
        r == opt_padding_api(p),
{
    match p {
        Some(p) => Some(p.into_api()),
        None => None,
    }
}

/// A widget definition tree, as the client builds it.
pub enum WidgetDef {
    Text(Text),
    Column(Column),
    Row(Row),
    Scrollable(Box<Scrollable>),
    Container(Box<Container>),
}

/// A text label.
pub struct Text {
    pub text: String,
    pub size: Option<Scalar>,
    pub width: Option<Length>,
    pub height: Option<Length>,
    pub horizontal_alignment: Option<Alignment>,
    pub vertical_alignment: Option<Alignment>,
    pub color: Option<Color>,
}

/// A vertical run of children.
pub struct Column {
    pub spacing: Option<Scalar>,
    pub padding: Option<Padding>,
    pub item_alignment: Option<Alignment>,
    pub width: Option<Length>,
    pub height: Option<Length>,
    pub max_width: Option<Scalar>,
    pub clip: Option<bool>,
    pub children: Vec<WidgetDef>,
}

/// A horizontal run of children.
pub struct Row {
    pub spacing: Option<Scalar>,
    pub padding: Option<Padding>,
    pub item_alignment: Option<Alignment>,
    pub width: Option<Length>,
    pub height: Option<Length>,
    pub clip: Option<bool>,
    pub children: Vec<WidgetDef>,
}

/// A scrolling viewport over one child.
pub struct Scrollable {
    pub width: Option<Length>,
    pub height: Option<Length>,
    pub direction: Option<ScrollableDirection>,
    pub child: WidgetDef,
}

/// A styled box around one child.
pub struct Container {
    pub padding: Option<Padding>,
    pub width: Option<Length>,
    pub height: Option<Length>,
    pub max_width: Option<Scalar>,
    pub max_height: Option<Scalar>,
    pub horizontal_alignment: Option<Alignment>,
    pub vertical_alignment: Option<Alignment>,
    pub clip: Option<bool>,
    pub child: WidgetDef,
    pub text_color: Option<Color>,
    pub background_color: Option<Color>,
    pub border_radius: Option<Scalar>,
    pub border_thickness: Option<Scalar>,
    pub border_color: Option<Color>,
}

/// The wire text definition of a text label.
pub open spec fn text_api(t: Text, d: wire::TextDef) -> bool {
    &&& d.text == Some(t.text)
    &&& d.pixels == t.size
    &&& d.width == opt_length_api(t.width)
    &&& d.height == opt_length_api(t.height)
    &&& d.horizontal_alignment == alignment_or_unspecified(t.horizontal_alignment)
    &&& d.vertical_alignment == alignment_or_unspecified(t.vertical_alignment)
    &&& d.color == opt_color_api(t.color)
}

/// `d` is the wire definition of `w`: the same tree, each field carried over.
pub open spec fn def_api(w: WidgetDef, d: wire::WidgetDefinition) -> bool
    decreases w,
{
    match (w, d.widget) {
        (WidgetDef::Text(t), Some(wire::Widget::Text(td))) => text_api(t, td),
        (WidgetDef::Column(c), Some(wire::Widget::Column(cd))) => {
            &&& cd.spacing == c.spacing
            &&& cd.padding == opt_padding_api(c.padding)
            &&& cd.item_alignment == opt_alignment_api(c.item_alignment)
            &&& cd.width == opt_length_api(c.width)
            &&& cd.height == opt_length_api(c.height)
            &&& cd.max_width == c.max_width
            &&& cd.clip == c.clip
            &&& forest_api(c.children@, cd.children@)
        },
        (WidgetDef::Row(r), Some(wire::Widget::Row(rd))) => {
            &&& rd.spacing == r.spacing
            &&& rd.padding == opt_padding_api(r.padding)
            &&& rd.item_alignment == opt_alignment_api(r.item_alignment)
            &&& rd.width == opt_length_api(r.width)
            &&& rd.height == opt_length_api(r.height)
            &&& rd.clip == r.clip
            &&& forest_api(r.children@, rd.children@)
        },
        (WidgetDef::Scrollable(s), Some(wire::Widget::Scrollable(sd))) => {
            &&& sd.width == opt_length_api(s.width)
            &&& sd.height == opt_length_api(s.height)
            &&& sd.direction == match s.direction {
                Some(d) => Some(direction_api(d)),
                None => None,
            }
            &&& sd.child is Some
            &&& def_api(s.child, *sd.child->0)
        },
        (WidgetDef::Container(c), Some(wire::Widget::Container(cd))) => {
            &&& cd.padding == opt_padding_api(c.padding)
            &&& cd.width == opt_length_api(c.width)
            &&& cd.height == opt_length_api(c.height)
            &&& cd.max_width == c.max_width
            &&& cd.max_height == c.max_height
            &&& cd.horizontal_alignment == opt_alignment_api(c.horizontal_alignment)
            &&& cd.vertical_alignment == opt_alignment_api(c.vertical_alignment)
            &&& cd.clip == c.clip
            &&& cd.text_color == opt_color_api(c.text_color)
            &&& cd.background_color == opt_color_api(c.background_color)
            &&& cd.border_radius == c.border_radius
            &&& cd.border_thickness == c.border_thickness
            &&& cd.border_color == opt_color_api(c.border_color)
            &&& cd.child is Some
            &&& def_api(c.child, *cd.child->0)
        },
        _ => false,
    }
}

/// `ds` are the wire definitions of `ws`, one for one and in order.
pub open spec fn forest_api(ws: Seq<WidgetDef>, ds: Seq<wire::WidgetDefinition>) -> bool
    decreases ws,
{
    &&& ws.len() == ds.len()
    &&& ws.len() > 0 ==> forest_api(ws.drop_last(), ds.drop_last()) && def_api(
        ws.last(),
        ds.last(),
    )
}

fn text_into_api(t: Text) -> (d: wire::TextDef)
    ensures
        text_api(t, d),
{
    let horizontal_alignment = match t.horizontal_alignment {
        Some(a) => a.into_api(),
        None => wire::Alignment::Unspecified,
    };
    let vertical_alignment = match t.vertical_alignment {
        Some(a) => a.into_api(),
        None => wire::Alignment::Unspecified,
    };
    wire::TextDef {
        text: Some(t.text),
        pixels: t.size,
        width: opt_length_into_api(t.width),
        height: opt_length_into_api(t.height),
        horizontal_alignment,
        vertical_alignment,
        color: opt_color_into_api(t.color),
    }
}

fn children_into_api(children: Vec<WidgetDef>) -> (r: Vec<wire::WidgetDefinition>)
    ensures
        forest_api(children@, r@),
    decreases children,
{
    let ghost orig = children;
    let ghost all = children@;
    let n = children.len();
    let mut rest = children;
    let mut out: Vec<wire::WidgetDefinition> = Vec::new();
    let mut i: usize = 0;
    proof {
        assert(all.take(0) =~= Seq::<WidgetDef>::empty());
        assert(out@ =~= Seq::<wire::WidgetDefinition>::empty());
        assert(rest@ =~= all.skip(0));
    }
    while rest.len() > 0
        invariant
            0 <= i <= all.len(),
            all == orig@,
            orig == children,
            all.len() == n,
            rest.len() + i == all.len(),
            rest@ == all.skip(i as int),
            forest_api(all.take(i as int), out@),
        decreases rest.len(),
    {
        let w = rest.remove(0);
        proof {
            assert(w == all[i as int]);
            assert(decreases_to!(orig => orig@));
            assert(decreases_to!(orig@ => orig@[i as int]));
            assert(decreases_to!(orig => w));
        }
        let d = def_into_api(w);
        proof {
            assert(all.take(i + 1).drop_last() =~= all.take(i as int));
            assert(out@.push(d).drop_last() =~= out@);
            assert(rest@ =~= all.skip(i + 1));
        }
        out.push(d);
        i = i + 1;
    }
    proof {
        assert(all.take(i as int) =~= all);
    }
    out
}

fn def_into_api(w: WidgetDef) -> (d: wire::WidgetDefinition)
    ensures
        def_api(w, d),
    decreases w,
{
    let widget = match w {
        WidgetDef::Text(t) => wire::Widget::Text(text_into_api(t)),
        WidgetDef::Column(c) => wire::Widget::Column(
            wire::ColumnDef {
                spacing: c.spacing,
                padding: opt_padding_into_api(c.padding),
                item_alignment: opt_alignment_into_api(c.item_alignment),
                width: opt_length_into_api(c.width),
                height: opt_length_into_api(c.height),
                max_width: c.max_width,
                clip: c.clip,
                children: children_into_api(c.children),
            },
        ),
        WidgetDef::Row(r) => wire::Widget::Row(
            wire::RowDef {
                spacing: r.spacing,
                padding: opt_padding_into_api(r.padding),
                item_alignment: opt_alignment_into_api(r.item_alignment),
                width: opt_length_into_api(r.width),
                height: opt_length_into_api(r.height),
                clip: r.clip,
                children: children_into_api(r.children),
            },
        ),
        WidgetDef::Scrollable(s) => {
            let Scrollable { width, height, direction, child } = *s;
            wire::Widget::Scrollable(
                Box::new(
                    wire::ScrollableDef {
                        width: opt_length_into_api(width),
                        height: opt_length_into_api(height),
                        direction: match direction {
                            Some(d) => Some(d.into_api()),
                            None => None,
                        },
                        child: Some(Box::new(def_into_api(child))),
                    },
                ),
            )
        },
        WidgetDef::Container(c) => {
            let Container {
                padding,
                width,
                height,
                max_width,
                max_height,
                horizontal_alignment,
                vertical_alignment,
                clip,
                child,
                text_color,
                background_color,
                border_radius,
                border_thickness,
                border_color,
            } = *c;
            wire::Widget::Container(
                Box::new(
                    wire::ContainerDef {
                        padding: opt_padding_into_api(padding),
                        width: opt_length_into_api(width),
                        height: opt_length_into_api(height),
                        max_width,
                        max_height,
                        horizontal_alignment: opt_alignment_into_api(horizontal_alignment),
                        vertical_alignment: opt_alignment_into_api(vertical_alignment),
                        clip,
                        child: Some(Box::new(def_into_api(child))),
                        text_color: opt_color_into_api(text_color),
                        background_color: opt_color_into_api(background_color),
                        border_radius,
                        border_thickness,
                        border_color: opt_color_into_api(border_color),
                    },
                ),
            )
        },
    };
    wire::WidgetDefinition { widget: Some(widget) }
}

impl IntoApi for WidgetDef {
    type ApiType = wire::WidgetDefinition;

    open spec fn converts_to(self, api: wire::WidgetDefinition) -> bool {
        def_api(self, api)
    }

    fn into_api(self) -> (r: wire::WidgetDefinition) {
        def_into_api(self)
    }
}

impl From<Text> for WidgetDef {
    fn from(value: Text) -> (r: WidgetDef) {
        WidgetDef::Text(value)
    }
}

impl vstd::std_specs::convert::FromSpecImpl<Text> for WidgetDef {
    open spec fn obeys_from_spec() -> bool {
        true
    }

    open spec fn from_spec(v: Text) -> WidgetDef {
        WidgetDef::Text(v)
    }
}

impl From<Column> for WidgetDef {
    fn from(value: Column) -> (r: WidgetDef) {
        WidgetDef::Column(value)
    }
}

impl vstd::std_specs::convert::FromSpecImpl<Column> for WidgetDef {
    open spec fn obeys_from_spec() -> bool {
        true
    }

    open spec fn from_spec(v: Column) -> WidgetDef {
        WidgetDef::Column(v)
    }
}

impl From<Row> for WidgetDef {
    fn from(value: Row) -> (r: WidgetDef) {
        WidgetDef::Row(value)
    }
}

impl vstd::std_specs::convert::FromSpecImpl<Row> for WidgetDef {
    open spec fn obeys_from_spec() -> bool {
        true
    }

    open spec fn from_spec(v: Row) -> WidgetDef {
        WidgetDef::Row(v)
    }
}

impl From<Scrollable> for WidgetDef {
    fn from(value: Scrollable) -> (r: WidgetDef) {
        WidgetDef::Scrollable(Box::new(value))
    }
}

impl vstd::std_specs::convert::FromSpecImpl<Scrollable> for WidgetDef {
    open spec fn obeys_from_spec() -> bool {
        true
    }

    open spec fn from_spec(v: Scrollable) -> WidgetDef {
        WidgetDef::Scrollable(Box::new(v))
    }
}

impl From<Box<Scrollable>> for WidgetDef {
    fn from(value: Box<Scrollable>) -> (r: WidgetDef) {
        WidgetDef::Scrollable(value)
    }
}

impl vstd::std_specs::convert::FromSpecImpl<Box<Scrollable>> for WidgetDef {
    open spec fn obeys_from_spec() -> bool {
        true
    }

    open spec fn from_spec(v: Box<Scrollable>) -> WidgetDef {
        WidgetDef::Scrollable(v)
    }
}

impl From<Container> for WidgetDef {
    fn from(value: Container) -> (r: WidgetDef) {
        WidgetDef::Container(Box::new(value))
    }
}

impl vstd::std_specs::convert::FromSpecImpl<Container> for WidgetDef {
    open spec fn obeys_from_spec() -> bool {
        true
    }

    open spec fn from_spec(v: Container) -> WidgetDef {
        WidgetDef::Container(Box::new(v))
    }
}

impl From<Box<Container>> for WidgetDef {
    fn from(value: Box<Container>) -> (r: WidgetDef) {
        WidgetDef::Container(value)
    }
}

impl vstd::std_specs::convert::FromSpecImpl<Box<Container>> for WidgetDef {
    open spec fn obeys_from_spec() -> bool {
        true
    }

    open spec fn from_spec(v: Box<Container>) -> WidgetDef {
        WidgetDef::Container(v)
    }
}

impl Text {
    /// A text label showing `text`, with every style left at its default.
    pub fn new(text: &str) -> (r: Text)
        ensures
            r.text@ == text@,
            r.size is None && r.width is None && r.height is None,
            r.horizontal_alignment is None && r.vertical_alignment is None && r.color is None,
    {
        Text {
            text: text.to_owned(),
            size: None,
            width: None,
            height: None,
            horizontal_alignment: None,
            vertical_alignment: None,
            color: None,
        }
    }

    /// This label with a text size in pixels.
    pub fn with_size(self, size: Scalar) -> (r: Text)
        ensures
            r == (Text { size: Some(size), ..self }),
    {
        Text { size: Some(size), ..self }
    }

    /// This label with a width.
    pub fn with_width(self, width: Length) -> (r: Text)
        ensures
            r == (Text { width: Some(width), ..self }),
    {
        Text { width: Some(width), ..self }
    }

    /// This label with a height.
    pub fn with_height(self, height: Length) -> (r: Text)
        ensures
            r == (Text { height: Some(height), ..self }),
    {
        Text { height: Some(height), ..self }
    }

    /// This label with a text color.
    pub fn with_color(self, color: Color) -> (r: Text)
        ensures
            r == (Text { color: Some(color), ..self }),
    {
        Text { color: Some(color), ..self }
    }

    /// This label with a horizontal alignment.
    pub fn with_horizontal_alignment(self, alignment: Alignment) -> (r: Text)
        ensures
            r == (Text { horizontal_alignment: Some(alignment), ..self }),
    {
        Text { horizontal_alignment: Some(alignment), ..self }
    }

    /// This label with a vertical alignment.
    pub fn with_vertical_alignment(self, alignment: Alignment) -> (r: Text)
        ensures
            r == (Text { vertical_alignment: Some(alignment), ..self }),
    {
        Text { vertical_alignment: Some(alignment), ..self }
    }
}

impl Column {
    /// An empty column with every style left at its default.
    pub fn new() -> (r: Column)
        ensures
            r.children@.len() == 0,
            r.spacing is None && r.padding is None && r.item_alignment is None,
            r.width is None && r.height is None && r.clip is None && r.max_width is None,
    {
        Column::new_with_children(Vec::new())
    }

    /// A column of `children`, with every style left at its default.
    pub fn new_with_children(children: Vec<WidgetDef>) -> (r: Column)
        ensures
            r.children@ == children@,
            r.spacing is None && r.padding is None && r.item_alignment is None,
            r.width is None && r.height is None && r.clip is None && r.max_width is None,
    {
        Column {
            spacing: None,
            padding: None,
            item_alignment: None,
            width: None,
            height: None,
            max_width: None,
            clip: None,
            children,
        }
    }

    /// This column with spacing between children.
    pub fn with_spacing(self, spacing: Scalar) -> (r: Column)
        ensures
            r == (Column { spacing: Some(spacing), ..self }),
    {
        Column { spacing: Some(spacing), ..self }
    }

    /// This column with an alignment for its children.
    pub fn with_item_alignment(self, item_alignment: Alignment) -> (r: Column)
        ensures
            r == (Column { item_alignment: Some(item_alignment), ..self }),
    {
        Column { item_alignment: Some(item_alignment), ..self }
    }

    /// This column with padding.
    pub fn with_padding(self, padding: Padding) -> (r: Column)
        ensures
            r == (Column { padding: Some(padding), ..self }),
    {
        Column { padding: Some(padding), ..self }
    }

    /// This column with a width.
    pub fn with_width(self, width: Length) -> (r: Column)
        ensures
            r == (Column { width: Some(width), ..self }),
    {
        Column { width: Some(width), ..self }
    }

    /// This column with a height.
    pub fn with_height(self, height: Length) -> (r: Column)
        ensures
            r == (Column { height: Some(height), ..self }),
    {
        Column { height: Some(height), ..self }
    }

    /// This column with a maximum width.
    pub fn with_max_width(self, max_width: Scalar) -> (r: Column)
        ensures
            r == (Column { max_width: Some(max_width), ..self }),
    {
        Column { max_width: Some(max_width), ..self }
    }

    /// This column, clipping its children or not.
    pub fn with_clip(self, clip: bool) -> (r: Column)
        ensures
            r == (Column { clip: Some(clip), ..self }),
    {
        Column { clip: Some(clip), ..self }
    }

    /// This column with `child` appended to its children.
    pub fn push(self, child: WidgetDef) -> (r: Column)
        ensures
            r == (Column { children: r.children, ..self }),
            r.children@ == self.children@.push(child),
    {
        let mut children = self.children;
        children.push(child);
        Column { children, ..self }
    }
}

impl Row {
    /// An empty row with every style left at its default.
    pub fn new() -> (r: Row)
        ensures
            r.children@.len() == 0,
            r.spacing is None && r.padding is None && r.item_alignment is None,
            r.width is None && r.height is None && r.clip is None,
    {
        Row::new_with_children(Vec::new())
    }

    /// A row of `children`, with every style left at its default.
    pub fn new_with_children(children: Vec<WidgetDef>) -> (r: Row)
        ensures
            r.children@ == children@,
            r.spacing is None && r.padding is None && r.item_alignment is None,
            r.width is None && r.height is None && r.clip is None,
    {
        Row {
            spacing: None,
            padding: None,
            item_alignment: None,
            width: None,
            height: None,
            clip: None,
            children,
        }
    }

    /// This row with spacing between children.
    pub fn with_spacing(self, spacing: Scalar) -> (r: Row)
        ensures
            r == (Row { spacing: Some(spacing), ..self }),
    {
        Row { spacing: Some(spacing), ..self }
    }

    /// This row with an alignment for its children.
    pub fn with_item_alignment(self, item_alignment: Alignment) -> (r: Row)
        ensures
            r == (Row { item_alignment: Some(item_alignment), ..self }),
    {
        Row { item_alignment: Some(item_alignment), ..self }
    }

    /// This row with padding.
    pub fn with_padding(self, padding: Padding) -> (r: Row)
        ensures
            r == (Row { padding: Some(padding), ..self }),
    {
        Row { padding: Some(padding), ..self }
    }

    /// This row with a width.
    pub fn with_width(self, width: Length) -> (r: Row)
        ensures
            r == (Row { width: Some(width), ..self }),
    {
        Row { width: Some(width), ..self }
    }

    /// This row with a height.
    pub fn with_height(self, height: Length) -> (r: Row)
        ensures
            r == (Row { height: Some(height), ..self }),
    {
        Row { height: Some(height), ..self }
    }

    /// This row, clipping its children or not.
    pub fn with_clip(self, clip: bool) -> (r: Row)
        ensures
            r == (Row { clip: Some(clip), ..self }),
    {
        Row { clip: Some(clip), ..self }
    }

    /// This row with `child` appended to its children.
    pub fn push(self, child: WidgetDef) -> (r: Row)
        ensures
            r == (Row { children: r.children, ..self }),
            r.children@ == self.children@.push(child),
    {
        let mut children = self.children;
        children.push(child);
        Row { children, ..self }
    }
}

impl Scrollable {
    /// A scrollable over `child`, with every style left at its default.
    pub fn new(child: WidgetDef) -> (r: Scrollable)
        ensures
            r == (Scrollable { width: None, height: None, direction: None, child }),
    {
        Scrollable { width: None, height: None, direction: None, child }
    }

    /// This scrollable with a width.
    pub fn with_width(self, width: Length) -> (r: Scrollable)
        ensures
            r == (Scrollable { width: Some(width), ..self }),
    {
        Scrollable { width: Some(width), ..self }
    }

    /// This scrollable with a height.
    pub fn with_height(self, height: Length) -> (r: Scrollable)
        ensures
            r == (Scrollable { height: Some(height), ..self }),
    {
        Scrollable { height: Some(height), ..self }
    }

    /// This scrollable scrolling along other axes.
    pub fn with_direction(self, direction: ScrollableDirection) -> (r: Scrollable)
        ensures
            r == (Scrollable { direction: Some(direction), ..self }),
    {
        Scrollable { direction: Some(direction), ..self }
    }
}

/// A container around `child` with every style left at its default.
pub open spec fn plain_container(child: WidgetDef) -> Container {
    Container {
        padding: None,
        width: None,
        height: None,
        max_width: None,
        max_height: None,
        horizontal_alignment: None,
        vertical_alignment: None,
        clip: None,
        child,
        text_color: None,
        background_color: None,
        border_radius: None,
        border_thickness: None,
        border_color: None,
    }
}

impl Container {
    /// A container around `child`, with every style left at its default.
    pub fn new(child: WidgetDef) -> (r: Container)
        ensures
            r == plain_container(child),
    {
        Container {
            padding: None,
            width: None,
            height: None,
            max_width: None,
            max_height: None,
            horizontal_alignment: None,
            vertical_alignment: None,
            clip: None,
            child,
            text_color: None,
            background_color: None,
            border_radius: None,
            border_thickness: None,
            border_color: None,
        }
    }

    /// This container with padding.
    pub fn with_padding(self, padding: Padding) -> (r: Container)
        ensures
            r == (Container { padding: Some(padding), ..self }),
    {
        Container { padding: Some(padding), ..self }
    }

    /// This container with a width.
    pub fn with_width(self, width: Length) -> (r: Container)
        ensures
            r == (Container { width: Some(width), ..self }),
    {
        Container { width: Some(width), ..self }
    }

    /// This container with a height.
    pub fn with_height(self, height: Length) -> (r: Container)
        ensures
            r == (Container { height: Some(height), ..self }),
    {
        Container { height: Some(height), ..self }
    }

    /// This container with a maximum width.
    pub fn with_max_width(self, max_width: Scalar) -> (r: Container)
        ensures
            r == (Container { max_width: Some(max_width), ..self }),
    {
        Container { max_width: Some(max_width), ..self }
    }

    /// This container with a maximum height.
    pub fn with_max_height(self, max_height: Scalar) -> (r: Container)
        ensures
            r == (Container { max_height: Some(max_height), ..self }),
    {
        Container { max_height: Some(max_height), ..self }
    }

    /// This container aligning its child horizontally.
    pub fn with_horizontal_alignment(self, horizontal_alignment: Alignment) -> (r: Container)
        ensures
            r == (Container { horizontal_alignment: Some(horizontal_alignment), ..self }),
    {
        Container { horizontal_alignment: Some(horizontal_alignment), ..self }
    }

    /// This container aligning its child vertically.
    pub fn with_vertical_alignment(self, vertical_alignment: Alignment) -> (r: Container)
        ensures
            r == (Container { vertical_alignment: Some(vertical_alignment), ..self }),
    {
        Container { vertical_alignment: Some(vertical_alignment), ..self }
    }

    /// This container, clipping its child or not.
    pub fn with_clip(self, clip: bool) -> (r: Container)
        ensures
            r == (Container { clip: Some(clip), ..self }),
    {
        Container { clip: Some(clip), ..self }
    }

    /// This container with a text color.
    pub fn with_text_color(self, text_color: Color) -> (r: Container)
        ensures
            r == (Container { text_color: Some(text_color), ..self }),
    {
        Container { text_color: Some(text_color), ..self }
    }

    /// This container with a background color.
    pub fn with_background_color(self, background_color: Color) -> (r: Container)
        ensures
            r == (Container { background_color: Some(background_color), ..self }),
    {
        Container { background_color: Some(background_color), ..self }
    }

    /// This container with a border radius.
    pub fn with_border_radius(self, border_radius: Scalar) -> (r: Container)
        ensures
            r == (Container { border_radius: Some(border_radius), ..self }),
    {
        Container { border_radius: Some(border_radius), ..self }
    }

    /// This container with a border thickness.
    pub fn with_border_thickness(self, border_thickness: Scalar) -> (r: Container)
        ensures
            r == (Container { border_thickness: Some(border_thickness), ..self }),
    {
        Container { border_thickness: Some(border_thickness), ..self }
    }

    /// This container with a border color.
    pub fn with_border_color(self, border_color: Color) -> (r: Container)
        ensures
            r == (Container { border_color: Some(border_color), ..self }),
    {
        Container { border_color: Some(border_color), ..self }
    }
}

proof fn lemma_def_api_well_formed(w: WidgetDef, d: wire::WidgetDefinition)
    requires
        def_api(w, d),
    ensures
        well_formed(d),
    decreases w,
{
    match (w, d.widget) {
        (WidgetDef::Column(c), Some(wire::Widget::Column(cd))) => {
            lemma_forest_api_well_formed(c.children@, cd.children@);
        },
        (WidgetDef::Row(r), Some(wire::Widget::Row(rd))) => {
            lemma_forest_api_well_formed(r.children@, rd.children@);
        },
        (WidgetDef::Scrollable(s), Some(wire::Widget::Scrollable(sd))) => {
            lemma_def_api_well_formed(s.child, *sd.child->0);
            assert(well_formed_child(sd.child));
        },
        (WidgetDef::Container(c), Some(wire::Widget::Container(cd))) => {
            lemma_def_api_well_formed(c.child, *cd.child->0);
            assert(well_formed_child(cd.child));
        },
        _ => {},
    }
}

proof fn lemma_forest_api_well_formed(ws: Seq<WidgetDef>, ds: Seq<wire::WidgetDefinition>)
    requires
        forest_api(ws, ds),
    ensures
        well_formed_forest(ds),
    decreases ws,
{
    if ws.len() > 0 {
        lemma_forest_api_well_formed(ws.drop_last(), ds.drop_last());
        lemma_def_api_well_formed(ws.last(), ds.last());
    }
}

/// Every tree the builders make reaches the wire well formed: each node has its variant
/// and each required child is present, so it compiles whenever its ids fit.
pub proof fn built_trees_are_well_formed(w: WidgetDef, d: wire::WidgetDefinition)
    requires
        w.converts_to(d),
    ensures
        well_formed(d),
{
    lemma_def_api_well_formed(w, d);
}

} // verus!
