//! Host-side model types exchanged through the codec.
//!
//! These are the crate's own plain-value stand-ins for the GUI library's
//! types: the bridge's logic reads and writes exactly these fields, and the
//! embedding converts them to the real thing at the edge. Fields that stand
//! for floating-point quantities hold the number's IEEE-754 bit pattern.

use vstd::prelude::*;

verus! {

/// A two-component vector; each lane is a number bit pattern.
#[derive(Clone, Copy, PartialEq, Eq, Structural, Debug)]
pub struct Vec2 {
    pub x: u64,
    pub y: u64,
}

/// A position; each lane is a number bit pattern.
#[derive(Clone, Copy, PartialEq, Eq, Structural, Debug)]
pub struct Pos2 {
    pub x: u64,
    pub y: u64,
}

/// A premultiplied RGBA color with one byte per channel.
#[derive(Clone, Copy, PartialEq, Eq, Structural, Debug)]
pub struct Color32 {
    pub r: u8,
    pub g: u8,
    pub b: u8,
    pub a: u8,
}

/// A one-dimensional alignment.
#[derive(Clone, Copy, PartialEq, Eq, Structural, Debug)]
pub enum Align {
    Min,
    Center,
    Max,
}

/// A two-dimensional anchor, one alignment per axis.
#[derive(Clone, Copy, PartialEq, Eq, Structural, Debug)]
pub struct Align2 {
    pub x: Align,
    pub y: Align,
}

/// The layout directions.
#[derive(Clone, Copy, PartialEq, Eq, Structural, Debug)]
pub enum Direction {
    LeftToRight,
    RightToLeft,
    TopDown,
    BottomUp,
}

/// The pointer buttons.
#[derive(Clone, Copy, PartialEq, Eq, Structural, Debug)]
pub enum PointerButton {
    Primary,
    Secondary,
    Middle,
    Extra1,
    Extra2,
}

/// The paint order layers.
#[derive(Clone, Copy, PartialEq, Eq, Structural, Debug)]
pub enum Order {
    Background,
    PanelResizeLine,
    Middle,
    Foreground,
    Tooltip,
    Debug,
}

/// What kinds of interaction a widget senses.
#[derive(Clone, Copy, PartialEq, Eq, Structural, Debug)]
pub struct Sense {
    pub click: bool,
    pub drag: bool,
    pub focusable: bool,
}

impl Sense {
    /// Senses everything either operand senses.
    pub fn union(self, other: Sense) -> (r: Sense)
        ensures
            r.click == (self.click || other.click),
            r.drag == (self.drag || other.drag),
            r.focusable == (self.focusable || other.focusable),
    {
        Sense {
            click: self.click || other.click,
            drag: self.drag || other.drag,
            focusable: self.focusable || other.focusable,
        }
    }
}

/// A text style: one of the closed set, or an open named style.
#[derive(Clone, Debug, PartialEq)]
pub enum TextStyle {
    Small,
    Body,
    Monospace,
    Button,
    Heading,
    Name(String),
}

/// Margins around a frame; number bit patterns.
#[derive(Clone, Copy, PartialEq, Eq, Structural, Debug)]
pub struct Margin {
    pub left: u64,
    pub right: u64,
    pub top: u64,
    pub bottom: u64,
}

/// Corner rounding radii; number bit patterns.
#[derive(Clone, Copy, PartialEq, Eq, Structural, Debug)]
pub struct Rounding {
    pub nw: u64,
    pub ne: u64,
    pub sw: u64,
    pub se: u64,
}

/// An axis-aligned rectangle.
#[derive(Clone, Copy, PartialEq, Eq, Structural, Debug)]
pub struct Rect {
    pub min: Pos2,
    pub max: Pos2,
}

/// A stroke: a width (number bit pattern) and a color.
#[derive(Clone, Copy, PartialEq, Eq, Structural, Debug)]
pub struct Stroke {
    pub width: u64,
    pub color: Color32,
}

/// Styled text.
#[derive(Clone, Debug, PartialEq)]
pub struct RichText {
    pub text: String,
}

/// Pre-shaped, already laid-out text.
#[derive(Clone, Debug, PartialEq)]
pub struct Galley {
    pub text: String,
}

/// Text a widget can display: a raw string, styled text, or pre-shaped text.
///
/// Where a script value could decode into more than one of these, the codec
/// tries them in a fixed, documented order and the first success wins: a raw
/// string is plain text; a table is pre-shaped text where it carries the
/// shaped mark, and styled text otherwise.
#[derive(Clone, Debug, PartialEq)]
pub enum WidgetText {
    Plain(String),
    Rich(RichText),
    Shaped(Galley),
}

/// The interaction result a widget reports for one frame.
#[derive(Clone, Copy, PartialEq, Eq, Structural, Debug)]
pub struct Response {
    pub clicked: bool,
    pub secondary_clicked: bool,
    pub hovered: bool,
    pub changed: bool,
}

impl Response {
    /// A response that reports no interaction at all.
    pub fn inert() -> (r: Response)
        ensures
            !r.clicked && !r.secondary_clicked && !r.hovered && !r.changed,
    {
        Response { clicked: false, secondary_clicked: false, hovered: false, changed: false }
    }
}

/// One drawing command recorded on a surface.
#[derive(Clone, Debug, PartialEq)]
pub enum DrawCmd {
    Label(WidgetText),
    /// A table-described widget: its text, and whether the text may wrap
    /// where the description said so.
    Widget { text: WidgetText, wrap: Option<bool> },
}

/// The mathematical model of a drawing command.
#[verifier::ext_equal]
pub enum DrawCmdModel {
    Label(crate::codec::WidgetTextModel),
    Widget { text: crate::codec::WidgetTextModel, wrap: Option<bool> },
}

impl View for DrawCmd {
    type V = DrawCmdModel;

    open spec fn view(&self) -> DrawCmdModel {
        match self {
            DrawCmd::Label(t) => DrawCmdModel::Label(t@),
            DrawCmd::Widget { text, wrap } => DrawCmdModel::Widget { text: text@, wrap: *wrap },
        }
    }
}

/// The borrowed drawing surface a callback draws on.
///
/// Only ever script-reachable through a scoped handle; the registry decides
/// for how long.
#[derive(Clone, Debug, PartialEq)]
pub struct Ui {
    pub enabled: bool,
    pub visible: bool,
    pub cmds: Vec<DrawCmd>,
}

/// The mathematical model of a drawing surface.
#[verifier::ext_equal]
pub struct UiModel {
    pub enabled: bool,
    pub visible: bool,
    pub cmds: Seq<DrawCmdModel>,
}

/// The models of a command list, in order.
pub open spec fn cmds_model(s: Seq<DrawCmd>) -> Seq<DrawCmdModel> {
    s.map_values(|c: DrawCmd| c@)
}

impl View for Ui {
    type V = UiModel;

    open spec fn view(&self) -> UiModel {
        UiModel { enabled: self.enabled, visible: self.visible, cmds: cmds_model(self.cmds@) }
    }
}

impl Ui {
    /// A fresh, empty surface.
    pub fn new(enabled: bool) -> (r: Ui)
        ensures
            r@ == (UiModel { enabled, visible: true, cmds: Seq::<DrawCmdModel>::empty() }),
    {
        let r = Ui { enabled, visible: true, cmds: Vec::new() };
        proof {
            assert(cmds_model(r.cmds@) =~= Seq::<DrawCmdModel>::empty());
            assert(r@ =~= (UiModel { enabled, visible: true, cmds: Seq::<DrawCmdModel>::empty() }));
        }
        r
    }
}

/// The frame's root context.
#[derive(Clone, Copy, PartialEq, Eq, Structural, Debug)]
pub struct Context {
    pub repaint_requested: bool,
    pub using_pointer: bool,
}

} // verus!
