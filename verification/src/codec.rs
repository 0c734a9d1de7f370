//! Bidirectional conversion between script values and host types.
//!
//! Each exposed host type has a decode and an encode direction. Decoding
//! never defaults silently: a value that matches no accepted variant yields
//! a [`ConversionError`] naming the source value's kind and the destination
//! type. Union-typed destinations decode by an ordered trial whose order is
//! part of the contract: a raw string is a valid decode for more than one
//! variant, and the first success wins.
//!
//! Colors pack their four byte channels into one signed 32-bit integer,
//! least significant byte first: an alpha of 128 or more reaches the sign
//! bit, so the canonical encoding of such a color is negative, and decoding
//! reads the four low bytes of any integer. Two-component vectors cross as
//! the engine's compact vector value, not as a table.

use vstd::arithmetic::div_mod::lemma_fundamental_div_mod_converse;
use vstd::prelude::*;

use crate::error::ConversionError;
use crate::host::{
    Align, Align2, Color32, Direction, Galley, Margin, Order, PointerButton, Pos2, Rect, Response,
    RichText, Rounding, Sense, Stroke, TextStyle, Vec2, WidgetText,
};
use crate::value::{entries_model, tbl_lookup, EntryModel, ScriptValue, TableEntry, ValModel};
use crate::Handle;

verus! {

/// The script-facing type a value is decoded into or encoded from.
#[derive(Clone, Copy, PartialEq, Eq, Structural, Debug)]
pub enum ScriptType {
    Bool,
    Int,
    Num,
    Byte,
    Str,
    Vec2,
    Pos2,
    Color,
    Align,
    Align2,
    Direction,
    PointerButton,
    Order,
    Sense,
    TextStyle,
    Margin,
    Rounding,
    Rect,
    Stroke,
    WidgetText,
    RichText,
    Galley,
    Response,
    Handle,
}

/// A decoded host value, tagged with its type.
#[derive(Debug)]
pub enum HostValue {
    Bool(bool),
    Int(i64),
    Num(u64),
    Byte(u8),
    Str(String),
    Vec2(Vec2),
    Pos2(Pos2),
    Color(Color32),
    Align(Align),
    Align2(Align2),
    Direction(Direction),
    PointerButton(PointerButton),
    Order(Order),
    Sense(Sense),
    TextStyle(TextStyle),
    Margin(Margin),
    Rounding(Rounding),
    Rect(Rect),
    Stroke(Stroke),
    WidgetText(WidgetText),
    RichText(RichText),
    Galley(Galley),
    Response(Response),
    Handle(Handle),
}

/// The mathematical model of a text style.
#[verifier::ext_equal]
pub enum TextStyleModel {
    Small,
    Body,
    Monospace,
    Button,
    Heading,
    Name(Seq<char>),
}

/// The mathematical model of widget text; the variant order is the decode
/// trial order.
#[verifier::ext_equal]
pub enum WidgetTextModel {
    Plain(Seq<char>),
    Rich(Seq<char>),
    Shaped(Seq<char>),
}

/// The mathematical model of a decoded host value.
#[verifier::ext_equal]
pub enum HostModel {
    Bool(bool),
    Int(i64),
    Num(u64),
    Byte(u8),
    Str(Seq<char>),
    Vec2(Vec2),
    Pos2(Pos2),
    Color(Color32),
    Align(Align),
    Align2(Align2),
    Direction(Direction),
    PointerButton(PointerButton),
    Order(Order),
    Sense(Sense),
    TextStyle(TextStyleModel),
    Margin(Margin),
    Rounding(Rounding),
    Rect(Rect),
    Stroke(Stroke),
    WidgetText(WidgetTextModel),
    RichText(Seq<char>),
    Galley(Seq<char>),
    Response(Response),
    Handle(Handle),
}

impl View for TextStyle {
    type V = TextStyleModel;

    open spec fn view(&self) -> TextStyleModel {
        match self {
            TextStyle::Small => TextStyleModel::Small,
            TextStyle::Body => TextStyleModel::Body,
            TextStyle::Monospace => TextStyleModel::Monospace,
            TextStyle::Button => TextStyleModel::Button,
            TextStyle::Heading => TextStyleModel::Heading,
            TextStyle::Name(s) => TextStyleModel::Name(s@),
        }
    }
}

impl View for WidgetText {
    type V = WidgetTextModel;

    open spec fn view(&self) -> WidgetTextModel {
        match self {
            WidgetText::Plain(s) => WidgetTextModel::Plain(s@),
            WidgetText::Rich(r) => WidgetTextModel::Rich(r.text@),
            WidgetText::Shaped(g) => WidgetTextModel::Shaped(g.text@),
        }
    }
}

impl View for RichText {
    type V = Seq<char>;

    open spec fn view(&self) -> Seq<char> {
        self.text@
    }
}

impl View for Galley {
    type V = Seq<char>;

    open spec fn view(&self) -> Seq<char> {
        self.text@
    }
}

impl View for HostValue {
    type V = HostModel;

    open spec fn view(&self) -> HostModel {
        match self {
            HostValue::Bool(b) => HostModel::Bool(*b),
            HostValue::Int(i) => HostModel::Int(*i),
            HostValue::Num(n) => HostModel::Num(*n),
            HostValue::Byte(b) => HostModel::Byte(*b),
            HostValue::Str(s) => HostModel::Str(s@),
            HostValue::Vec2(x) => HostModel::Vec2(*x),
            HostValue::Pos2(x) => HostModel::Pos2(*x),
            HostValue::Color(c) => HostModel::Color(*c),
            HostValue::Align(a) => HostModel::Align(*a),
            HostValue::Align2(a) => HostModel::Align2(*a),
            HostValue::Direction(d) => HostModel::Direction(*d),
            HostValue::PointerButton(p) => HostModel::PointerButton(*p),
            HostValue::Order(o) => HostModel::Order(*o),
            HostValue::Sense(s) => HostModel::Sense(*s),
            HostValue::TextStyle(t) => HostModel::TextStyle(t@),
            HostValue::Margin(m) => HostModel::Margin(*m),
            HostValue::Rounding(r) => HostModel::Rounding(*r),
            HostValue::Rect(r) => HostModel::Rect(*r),
            HostValue::Stroke(s) => HostModel::Stroke(*s),
            HostValue::WidgetText(w) => HostModel::WidgetText(w@),
            HostValue::RichText(r) => HostModel::RichText(r@),
            HostValue::Galley(g) => HostModel::Galley(g@),
            HostValue::Response(r) => HostModel::Response(*r),
            HostValue::Handle(h) => HostModel::Handle(*h),
        }
    }
}

/// The script-facing type a host value belongs to.
pub open spec fn host_type_of(h: HostModel) -> ScriptType {
    match h {
        HostModel::Bool(_) => ScriptType::Bool,
        HostModel::Int(_) => ScriptType::Int,
        HostModel::Num(_) => ScriptType::Num,
        HostModel::Byte(_) => ScriptType::Byte,
        HostModel::Str(_) => ScriptType::Str,
        HostModel::Vec2(_) => ScriptType::Vec2,
        HostModel::Pos2(_) => ScriptType::Pos2,
        HostModel::Color(_) => ScriptType::Color,
        HostModel::Align(_) => ScriptType::Align,
        HostModel::Align2(_) => ScriptType::Align2,
        HostModel::Direction(_) => ScriptType::Direction,
        HostModel::PointerButton(_) => ScriptType::PointerButton,
        HostModel::Order(_) => ScriptType::Order,
        HostModel::Sense(_) => ScriptType::Sense,
        HostModel::TextStyle(_) => ScriptType::TextStyle,
        HostModel::Margin(_) => ScriptType::Margin,
        HostModel::Rounding(_) => ScriptType::Rounding,
        HostModel::Rect(_) => ScriptType::Rect,
        HostModel::Stroke(_) => ScriptType::Stroke,
        HostModel::WidgetText(_) => ScriptType::WidgetText,
        HostModel::RichText(_) => ScriptType::RichText,
        HostModel::Galley(_) => ScriptType::Galley,
        HostModel::Response(_) => ScriptType::Response,
        HostModel::Handle(_) => ScriptType::Handle,
    }
}

// ------------------------------------------------------------------
// Small numeric codecs.
// ------------------------------------------------------------------
/// The color's four byte channels packed into one integer, least
/// significant byte first.
pub open spec fn pack_color(c: Color32) -> int {
    c.r + 256 * (c.g + 256 * (c.b + 256 * (c.a as int)))
}

/// The color read back from a packed integer.
pub open spec fn unpack_color(i: int) -> Color32 {
    Color32 {
        r: (i % 256) as u8,
        g: ((i / 256) % 256) as u8,
        b: ((i / 256 / 256) % 256) as u8,
        a: ((i / 256 / 256 / 256) % 256) as u8,
    }
}

/// Packing then unpacking a color is the identity.
pub proof fn lemma_color_pack_unpack(c: Color32)
    ensures
        0 <= pack_color(c) < 4294967296,
        unpack_color(pack_color(c)) == c,
{
    let i = pack_color(c);
    let q1 = c.g + 256 * (c.b + 256 * (c.a as int));
    let q2 = c.b + 256 * (c.a as int);
    let q3 = c.a as int;
    lemma_fundamental_div_mod_converse(i, 256, q1, c.r as int);
    lemma_fundamental_div_mod_converse(q1, 256, q2, c.g as int);
    lemma_fundamental_div_mod_converse(q2, 256, q3, c.b as int);
    lemma_fundamental_div_mod_converse(q3, 256, 0, c.a as int);
}

/// The color's four byte channels packed into one signed 32-bit integer,
/// least significant byte first: the script-visible color encoding. An
/// alpha of 128 or more lands in the sign bit, so the integer is negative.
pub open spec fn pack_color_i32(c: Color32) -> i64 {
    if pack_color(c) >= 2147483648 {
        (pack_color(c) - 4294967296) as i64
    } else {
        pack_color(c) as i64
    }
}

/// The color read out of the four low little-endian bytes of any integer;
/// higher bits are ignored.
pub open spec fn color_of_int(i: i64) -> Color32 {
    Color32 {
        r: (i & 0xff) as u8,
        g: ((i >> 8) & 0xff) as u8,
        b: ((i >> 16) & 0xff) as u8,
        a: ((i >> 24) & 0xff) as u8,
    }
}

/// The signed packing and the byte extraction agree: encoding a color and
/// reading the low bytes back is the identity.
pub proof fn lemma_color_i32_round_trip(c: Color32)
    ensures
        color_of_int(pack_color_i32(c)) == c,
{
    let r = c.r;
    let g = c.g;
    let b = c.b;
    let a = c.a;
    let i = pack_color_i32(c);
    if pack_color(c) >= 2147483648 {
        assert(i == r + 256 * (g as int) + 65536 * (b as int) + 16777216 * (a as int)
            - 4294967296);
        assert((i & 0xff) as u8 == r && ((i >> 8) & 0xff) as u8 == g && ((i >> 16) & 0xff) as u8
            == b && ((i >> 24) & 0xff) as u8 == a) by (bit_vector)
            requires
                i == r + 256 * (g as int) + 65536 * (b as int) + 16777216 * (a as int)
                    - 4294967296,
        ;
    } else {
        assert(i == r + 256 * (g as int) + 65536 * (b as int) + 16777216 * (a as int));
        assert((i & 0xff) as u8 == r && ((i >> 8) & 0xff) as u8 == g && ((i >> 16) & 0xff) as u8
            == b && ((i >> 24) & 0xff) as u8 == a) by (bit_vector)
            requires
                i == r + 256 * (g as int) + 65536 * (b as int) + 16777216 * (a as int),
        ;
    }
}

/// The integer code of a one-dimensional alignment.
pub open spec fn align_code(a: Align) -> int {
    match a {
        Align::Min => 0,
        Align::Center => 1,
        Align::Max => 2,
    }
}

/// The alignment of an integer code below 3.
pub open spec fn align_of(i: int) -> Align {
    if i == 0 {
        Align::Min
    } else if i == 1 {
        Align::Center
    } else {
        Align::Max
    }
}

/// The integer code of a two-dimensional anchor: the first axis is pushed
/// two bits up, the second fits below it.
pub open spec fn align2_code(a: Align2) -> int {
    4 * align_code(a.x) + align_code(a.y)
}

/// The bit-flag code of a sense: click, drag and focusable, low bit first.
pub open spec fn sense_code(s: Sense) -> int {
    (if s.click {
        1int
    } else {
        0int
    }) + (if s.drag {
        2int
    } else {
        0int
    }) + (if s.focusable {
        4int
    } else {
        0int
    })
}

/// The sense read back from the low three bits of an integer.
pub open spec fn sense_of(i: i64) -> Sense {
    Sense { click: i & 1 != 0, drag: i & 2 != 0, focusable: i & 4 != 0 }
}

/// Packing then unpacking a sense is the identity.
pub proof fn lemma_sense_pack_unpack(s: Sense)
    ensures
        0 <= sense_code(s) < 8,
        sense_of(sense_code(s) as i64) == s,
{
    let c = s.click;
    let d = s.drag;
    let f = s.focusable;
    if c {
        if d {
            if f {
                assert(7i64 & 1 != 0 && 7i64 & 2 != 0 && 7i64 & 4 != 0) by (bit_vector);
            } else {
                assert(3i64 & 1 != 0 && 3i64 & 2 != 0 && 3i64 & 4 == 0) by (bit_vector);
            }
        } else {
            if f {
                assert(5i64 & 1 != 0 && 5i64 & 2 == 0 && 5i64 & 4 != 0) by (bit_vector);
            } else {
                assert(1i64 & 1 != 0 && 1i64 & 2 == 0 && 1i64 & 4 == 0) by (bit_vector);
            }
        }
    } else {
        if d {
            if f {
                assert(6i64 & 1 == 0 && 6i64 & 2 != 0 && 6i64 & 4 != 0) by (bit_vector);
            } else {
                assert(2i64 & 1 == 0 && 2i64 & 2 != 0 && 2i64 & 4 == 0) by (bit_vector);
            }
        } else {
            if f {
                assert(4i64 & 1 == 0 && 4i64 & 2 == 0 && 4i64 & 4 != 0) by (bit_vector);
            } else {
                assert(0i64 & 1 == 0 && 0i64 & 2 == 0 && 0i64 & 4 == 0) by (bit_vector);
            }
        }
    }
}

// ------------------------------------------------------------------
// The decode relation.
// ------------------------------------------------------------------
/// What a table must hold to decode as a margin.
pub open spec fn margin_m(tm: Seq<EntryModel>) -> Option<Margin> {
    match (
        tbl_lookup(tm, "left"@),
        tbl_lookup(tm, "right"@),
        tbl_lookup(tm, "top"@),
        tbl_lookup(tm, "bottom"@),
    ) {
        (
            Some(ValModel::Num(l)),
            Some(ValModel::Num(r)),
            Some(ValModel::Num(t)),
            Some(ValModel::Num(b)),
        ) => Some(Margin { left: l, right: r, top: t, bottom: b }),
        _ => None,
    }
}

/// What a table must hold to decode as corner rounding.
pub open spec fn rounding_m(tm: Seq<EntryModel>) -> Option<Rounding> {
    match (
        tbl_lookup(tm, "nw"@),
        tbl_lookup(tm, "ne"@),
        tbl_lookup(tm, "sw"@),
        tbl_lookup(tm, "se"@),
    ) {
        (
            Some(ValModel::Num(nw)),
            Some(ValModel::Num(ne)),
            Some(ValModel::Num(sw)),
            Some(ValModel::Num(se)),
        ) => Some(Rounding { nw, ne, sw, se }),
        _ => None,
    }
}

/// What a table must hold to decode as a rectangle.
pub open spec fn rect_m(tm: Seq<EntryModel>) -> Option<Rect> {
    match (tbl_lookup(tm, "min"@), tbl_lookup(tm, "max"@)) {
        (Some(ValModel::Vector2(ax, ay)), Some(ValModel::Vector2(bx, by))) => Some(
            Rect { min: Pos2 { x: ax, y: ay }, max: Pos2 { x: bx, y: by } },
        ),
        _ => None,
    }
}

/// What a table must hold to decode as an interaction response.
pub open spec fn response_m(tm: Seq<EntryModel>) -> Option<Response> {
    match (
        tbl_lookup(tm, "clicked"@),
        tbl_lookup(tm, "secondary_clicked"@),
        tbl_lookup(tm, "hovered"@),
        tbl_lookup(tm, "changed"@),
    ) {
        (
            Some(ValModel::Bool(c)),
            Some(ValModel::Bool(s)),
            Some(ValModel::Bool(h)),
            Some(ValModel::Bool(g)),
        ) => Some(Response { clicked: c, secondary_clicked: s, hovered: h, changed: g }),
        _ => None,
    }
}

/// What a table must hold to decode as rich text: a `text` entry, and no
/// `shaped` mark.
pub open spec fn rich_m(tm: Seq<EntryModel>) -> Option<Seq<char>> {
    if tbl_lookup(tm, "shaped"@) is None {
        match tbl_lookup(tm, "text"@) {
            Some(ValModel::Str(s)) => Some(s),
            _ => None,
        }
    } else {
        None
    }
}

/// What a table must hold to decode as pre-shaped text: a true `shaped`
/// mark beside its `text`.
pub open spec fn galley_m(tm: Seq<EntryModel>) -> Option<Seq<char>> {
    if tbl_lookup(tm, "shaped"@) == Some(ValModel::Bool(true)) {
        match tbl_lookup(tm, "text"@) {
            Some(ValModel::Str(s)) => Some(s),
            _ => None,
        }
    } else {
        None
    }
}

/// The decode relation: the host value a script value decodes to at a
/// script-facing type, or nothing where no variant accepts it.
pub open spec fn decode_spec(t: ScriptType, v: ValModel) -> Option<HostModel> {
    match t {
        ScriptType::Bool => match v {
            ValModel::Bool(b) => Some(HostModel::Bool(b)),
            _ => None,
        },
        ScriptType::Int => match v {
            ValModel::Int(i) => Some(HostModel::Int(i)),
            _ => None,
        },
        ScriptType::Num => match v {
            ValModel::Num(n) => Some(HostModel::Num(n)),
            _ => None,
        },
        ScriptType::Byte => match v {
            ValModel::Int(i) => if 0 <= i < 256 {
                Some(HostModel::Byte(i as u8))
            } else {
                None
            },
            _ => None,
        },
        ScriptType::Str => match v {
            ValModel::Str(s) => Some(HostModel::Str(s)),
            _ => None,
        },
        ScriptType::Vec2 => match v {
            ValModel::Vector2(x, y) => Some(HostModel::Vec2(Vec2 { x, y })),
            _ => None,
        },
        ScriptType::Pos2 => match v {
            ValModel::Vector2(x, y) => Some(HostModel::Pos2(Pos2 { x, y })),
            _ => None,
        },
        ScriptType::Color => match v {
            ValModel::Int(i) => Some(HostModel::Color(color_of_int(i))),
            _ => None,
        },
        ScriptType::Align => match v {
            ValModel::Int(i) => if 0 <= i < 3 {
                Some(HostModel::Align(align_of(i as int)))
            } else {
                None
            },
            _ => None,
        },
        ScriptType::Align2 => match v {
            ValModel::Int(i) => if 0 <= i <= 10 && i % 4 < 3 {
                Some(
                    HostModel::Align2(
                        Align2 { x: align_of(i as int / 4), y: align_of(i as int % 4) },
                    ),
                )
            } else {
                None
            },
            _ => None,
        },
        ScriptType::Direction => match v {
            ValModel::Int(i) => if i == 0 {
                Some(HostModel::Direction(Direction::LeftToRight))
            } else if i == 1 {
                Some(HostModel::Direction(Direction::RightToLeft))
            } else if i == 2 {
                Some(HostModel::Direction(Direction::TopDown))
            } else if i == 3 {
                Some(HostModel::Direction(Direction::BottomUp))
            } else {
                None
            },
            _ => None,
        },
        ScriptType::PointerButton => match v {
            ValModel::Int(i) => if i == 0 {
                Some(HostModel::PointerButton(PointerButton::Primary))
            } else if i == 1 {
                Some(HostModel::PointerButton(PointerButton::Secondary))
            } else if i == 2 {
                Some(HostModel::PointerButton(PointerButton::Middle))
            } else if i == 3 {
                Some(HostModel::PointerButton(PointerButton::Extra1))
            } else if i == 4 {
                Some(HostModel::PointerButton(PointerButton::Extra2))
            } else {
                None
            },
            _ => None,
        },
        ScriptType::Order => match v {
            ValModel::Int(i) => if i == 0 {
                Some(HostModel::Order(Order::Background))
            } else if i == 1 {
                Some(HostModel::Order(Order::PanelResizeLine))
            } else if i == 2 {
                Some(HostModel::Order(Order::Middle))
            } else if i == 3 {
                Some(HostModel::Order(Order::Foreground))
            } else if i == 4 {
                Some(HostModel::Order(Order::Tooltip))
            } else if i == 5 {
                Some(HostModel::Order(Order::Debug))
            } else {
                None
            },
            _ => None,
        },
        ScriptType::Sense => match v {
            ValModel::Int(i) => Some(HostModel::Sense(sense_of(i))),
            _ => None,
        },
        ScriptType::TextStyle => match v {
            ValModel::Int(i) => if i == 0 {
                Some(HostModel::TextStyle(TextStyleModel::Small))
            } else if i == 1 {
                Some(HostModel::TextStyle(TextStyleModel::Body))
            } else if i == 2 {
                Some(HostModel::TextStyle(TextStyleModel::Monospace))
            } else if i == 3 {
                Some(HostModel::TextStyle(TextStyleModel::Button))
            } else if i == 4 {
                Some(HostModel::TextStyle(TextStyleModel::Heading))
            } else {
                None
            },
            ValModel::Str(s) => Some(HostModel::TextStyle(TextStyleModel::Name(s))),
            _ => None,
        },
        ScriptType::Margin => match v {
            ValModel::Table(tm) => match margin_m(tm) {
                Some(m) => Some(HostModel::Margin(m)),
                None => None,
            },
            _ => None,
        },
        ScriptType::Rounding => match v {
            ValModel::Table(tm) => match rounding_m(tm) {
                Some(r) => Some(HostModel::Rounding(r)),
                None => None,
            },
            _ => None,
        },
        ScriptType::Rect => match v {
            ValModel::Table(tm) => match rect_m(tm) {
                Some(r) => Some(HostModel::Rect(r)),
                None => None,
            },
            _ => None,
        },
        ScriptType::Stroke => match v {
            ValModel::Vector2(w, c) => if c < 4294967296 {
                Some(HostModel::Stroke(Stroke { width: w, color: unpack_color(c as int) }))
            } else {
                None
            },
            _ => None,
        },
        ScriptType::WidgetText => match v {
            ValModel::Str(s) => Some(HostModel::WidgetText(WidgetTextModel::Plain(s))),
            ValModel::Table(tm) => match galley_m(tm) {
                Some(s) => Some(HostModel::WidgetText(WidgetTextModel::Shaped(s))),
                None => match rich_m(tm) {
                    Some(s) => Some(HostModel::WidgetText(WidgetTextModel::Rich(s))),
                    None => None,
                },
            },
            _ => None,
        },
        ScriptType::RichText => match v {
            ValModel::Str(s) => Some(HostModel::RichText(s)),
            ValModel::Table(tm) => match rich_m(tm) {
                Some(s) => Some(HostModel::RichText(s)),
                None => None,
            },
            _ => None,
        },
        ScriptType::Galley => match v {
            ValModel::Table(tm) => match galley_m(tm) {
                Some(s) => Some(HostModel::Galley(s)),
                None => None,
            },
            _ => None,
        },
        ScriptType::Response => match v {
            ValModel::Table(tm) => match response_m(tm) {
                Some(r) => Some(HostModel::Response(r)),
                None => None,
            },
            _ => None,
        },
        ScriptType::Handle => match v {
            ValModel::Handle(h) => Some(HostModel::Handle(h)),
            _ => None,
        },
    }
}

/// The encode relation: `v` is an encoding of `h`. Encodings of table-backed
/// types are pinned by what looking their keys up yields, so any observably
/// equivalent table is as good as the canonical one.
pub open spec fn encodes(h: HostModel, v: ValModel) -> bool {
    match h {
        HostModel::Bool(b) => v == ValModel::Bool(b),
        HostModel::Int(i) => v == ValModel::Int(i),
        HostModel::Num(n) => v == ValModel::Num(n),
        HostModel::Byte(b) => v == ValModel::Int(b as i64),
        HostModel::Str(s) => v == ValModel::Str(s),
        HostModel::Vec2(x) => v == ValModel::Vector2(x.x, x.y),
        HostModel::Pos2(x) => v == ValModel::Vector2(x.x, x.y),
        HostModel::Color(c) => v == ValModel::Int(pack_color_i32(c)),
        HostModel::Align(a) => v == ValModel::Int(align_code(a) as i64),
        HostModel::Align2(a) => v == ValModel::Int(align2_code(a) as i64),
        HostModel::Direction(d) => v == ValModel::Int(
            match d {
                Direction::LeftToRight => 0i64,
                Direction::RightToLeft => 1i64,
                Direction::TopDown => 2i64,
                Direction::BottomUp => 3i64,
            },
        ),
        HostModel::PointerButton(p) => v == ValModel::Int(
            match p {
                PointerButton::Primary => 0i64,
                PointerButton::Secondary => 1i64,
                PointerButton::Middle => 2i64,
                PointerButton::Extra1 => 3i64,
                PointerButton::Extra2 => 4i64,
            },
        ),
        HostModel::Order(o) => v == ValModel::Int(
            match o {
                Order::Background => 0i64,
                Order::PanelResizeLine => 1i64,
                Order::Middle => 2i64,
                Order::Foreground => 3i64,
                Order::Tooltip => 4i64,
                Order::Debug => 5i64,
            },
        ),
        HostModel::Sense(s) => v == ValModel::Int(sense_code(s) as i64),
        HostModel::TextStyle(t) => match t {
            TextStyleModel::Small => v == ValModel::Int(0),
            TextStyleModel::Body => v == ValModel::Int(1),
            TextStyleModel::Monospace => v == ValModel::Int(2),
            TextStyleModel::Button => v == ValModel::Int(3),
            TextStyleModel::Heading => v == ValModel::Int(4),
            TextStyleModel::Name(s) => v == ValModel::Str(s),
        },
        HostModel::Margin(m) => v is Table && margin_m(v->Table_0) == Some(m),
        HostModel::Rounding(r) => v is Table && rounding_m(v->Table_0) == Some(r),
        HostModel::Rect(r) => v is Table && rect_m(v->Table_0) == Some(r),
        HostModel::Stroke(s) => 0 <= pack_color(s.color) < 4294967296 && v == ValModel::Vector2(
            s.width,
            pack_color(s.color) as u64,
        ),
        HostModel::WidgetText(w) => match w {
            WidgetTextModel::Plain(s) => v == ValModel::Str(s),
            WidgetTextModel::Rich(s) => v is Table && rich_m(v->Table_0) == Some(s),
            WidgetTextModel::Shaped(s) => v is Table && galley_m(v->Table_0) == Some(s),
        },
        HostModel::RichText(s) => v is Table && rich_m(v->Table_0) == Some(s),
        HostModel::Galley(s) => v is Table && galley_m(v->Table_0) == Some(s),
        HostModel::Response(r) => v is Table && response_m(v->Table_0) == Some(r),
        HostModel::Handle(h) => v == ValModel::Handle(h),
    }
}

// ------------------------------------------------------------------
// Executable decode.
// ------------------------------------------------------------------
/// The typed error for a value that matches no accepted decode variant.
fn conv_err(v: &ScriptValue, t: ScriptType) -> (e: ConversionError)
    ensures
        e.from == v@.kind() && e.to == t,
{
    ConversionError { from: v.kind(), to: t }
}

/// The one-dimensional alignment of a code below 3.
fn align_from_code(k: i64) -> (a: Align)
    requires
        0 <= k < 3,
    ensures
        a == align_of(k as int),
{
    if k == 0 {
        Align::Min
    } else if k == 1 {
        Align::Center
    } else {
        Align::Max
    }
}

/// The color packed in the low four bytes of a non-negative integer.
fn unpack_color_exec(i: i64) -> (c: Color32)
    requires
        0 <= i < 4294967296,
    ensures
        c == unpack_color(i as int),
{
    let r = (i % 256) as u8;
    let g = ((i / 256) % 256) as u8;
    let b = ((i / 256 / 256) % 256) as u8;
    let a = ((i / 256 / 256 / 256) % 256) as u8;
    Color32 { r, g, b, a }
}

/// Reads a margin out of a table.
fn decode_margin(entries: &Vec<TableEntry>) -> (r: Option<Margin>)
    ensures
        r == margin_m(entries_model(entries@)),
{
    let l = match crate::value::table_get(entries, "left") {
        Some(ScriptValue::Num(x)) => *x,
        _ => return None,
    };
    let r = match crate::value::table_get(entries, "right") {
        Some(ScriptValue::Num(x)) => *x,
        _ => return None,
    };
    let t = match crate::value::table_get(entries, "top") {
        Some(ScriptValue::Num(x)) => *x,
        _ => return None,
    };
    let b = match crate::value::table_get(entries, "bottom") {
        Some(ScriptValue::Num(x)) => *x,
        _ => return None,
    };
    Some(Margin { left: l, right: r, top: t, bottom: b })
}

/// Reads corner rounding out of a table.
fn decode_rounding(entries: &Vec<TableEntry>) -> (r: Option<Rounding>)
    ensures
        r == rounding_m(entries_model(entries@)),
{
    let nw = match crate::value::table_get(entries, "nw") {
        Some(ScriptValue::Num(x)) => *x,
        _ => return None,
    };
    let ne = match crate::value::table_get(entries, "ne") {
        Some(ScriptValue::Num(x)) => *x,
        _ => return None,
    };
    let sw = match crate::value::table_get(entries, "sw") {
        Some(ScriptValue::Num(x)) => *x,
        _ => return None,
    };
    let se = match crate::value::table_get(entries, "se") {
        Some(ScriptValue::Num(x)) => *x,
        _ => return None,
    };
    Some(Rounding { nw, ne, sw, se })
}

/// Reads a rectangle out of a table.
fn decode_rect(entries: &Vec<TableEntry>) -> (r: Option<Rect>)
    ensures
        r == rect_m(entries_model(entries@)),
{
    let min = match crate::value::table_get(entries, "min") {
        Some(ScriptValue::Vector2(x, y)) => Pos2 { x: *x, y: *y },
        _ => return None,
    };
    let max = match crate::value::table_get(entries, "max") {
        Some(ScriptValue::Vector2(x, y)) => Pos2 { x: *x, y: *y },
        _ => return None,
    };
    Some(Rect { min, max })
}

/// Reads an interaction response out of a table.
fn decode_response(entries: &Vec<TableEntry>) -> (r: Option<Response>)
    ensures
        r == response_m(entries_model(entries@)),
{
    let clicked = match crate::value::table_get(entries, "clicked") {
        Some(ScriptValue::Bool(x)) => *x,
        _ => return None,
    };
    let secondary_clicked = match crate::value::table_get(entries, "secondary_clicked") {
        Some(ScriptValue::Bool(x)) => *x,
        _ => return None,
    };
    let hovered = match crate::value::table_get(entries, "hovered") {
        Some(ScriptValue::Bool(x)) => *x,
        _ => return None,
    };
    let changed = match crate::value::table_get(entries, "changed") {
        Some(ScriptValue::Bool(x)) => *x,
        _ => return None,
    };
    Some(Response { clicked, secondary_clicked, hovered, changed })
}

/// Reads rich text out of a table: its `text`, with no `shaped` mark.
fn decode_rich(entries: &Vec<TableEntry>) -> (r: Option<String>)
    ensures
        match r {
            Some(s) => rich_m(entries_model(entries@)) == Some(s@),
            None => rich_m(entries_model(entries@)) is None,
        },
{
    match crate::value::table_get(entries, "shaped") {
        Some(_) => None,
        None => match crate::value::table_get(entries, "text") {
            Some(ScriptValue::Str(s)) => Some(s.clone()),
            _ => None,
        },
    }
}

/// Reads pre-shaped text out of a table: its `text`, under a true `shaped`
/// mark.
fn decode_galley(entries: &Vec<TableEntry>) -> (r: Option<String>)
    ensures
        match r {
            Some(s) => galley_m(entries_model(entries@)) == Some(s@),
            None => galley_m(entries_model(entries@)) is None,
        },
{
    match crate::value::table_get(entries, "shaped") {
        Some(ScriptValue::Bool(true)) => match crate::value::table_get(entries, "text") {
            Some(ScriptValue::Str(s)) => Some(s.clone()),
            _ => None,
        },
        _ => None,
    }
}

/// Decodes at a scalar or packed-integer type.
fn decode_scalar(t: ScriptType, v: &ScriptValue) -> (r: Result<HostValue, ConversionError>)
    requires
        t == ScriptType::Bool || t == ScriptType::Int || t == ScriptType::Num || t
            == ScriptType::Byte || t == ScriptType::Str || t == ScriptType::Vec2 || t
            == ScriptType::Pos2 || t == ScriptType::Color,
    ensures
        match r {
            Ok(h) => decode_spec(t, v@) == Some(h@),
            Err(e) => decode_spec(t, v@) is None && e.from == v@.kind() && e.to == t,
        },
{
    match t {

        ScriptType::Bool => match v {
            ScriptValue::Bool(b) => Ok(HostValue::Bool(*b)),
            _ => Err(conv_err(v, t)),
        },
        ScriptType::Int => match v {
            ScriptValue::Int(i) => Ok(HostValue::Int(*i)),
            _ => Err(conv_err(v, t)),
        },
        ScriptType::Num => match v {
            ScriptValue::Num(n) => Ok(HostValue::Num(*n)),
            _ => Err(conv_err(v, t)),
        },
        ScriptType::Byte => match v {
            ScriptValue::Int(i) => if 0 <= *i && *i < 256 {
                Ok(HostValue::Byte(*i as u8))
            } else {
                Err(conv_err(v, t))
            },
            _ => Err(conv_err(v, t)),
        },
        ScriptType::Str => match v {
            ScriptValue::Str(s) => Ok(HostValue::Str(s.clone())),
            _ => Err(conv_err(v, t)),
        },
        ScriptType::Vec2 => match v {
            ScriptValue::Vector2(x, y) => Ok(HostValue::Vec2(Vec2 { x: *x, y: *y })),
            _ => Err(conv_err(v, t)),
        },
        ScriptType::Pos2 => match v {
            ScriptValue::Vector2(x, y) => Ok(HostValue::Pos2(Pos2 { x: *x, y: *y })),
            _ => Err(conv_err(v, t)),
        },
        ScriptType::Color => match v {
            ScriptValue::Int(i) => {
                let c = Color32 {
                    r: (*i & 0xff) as u8,
                    g: ((*i >> 8) & 0xff) as u8,
                    b: ((*i >> 16) & 0xff) as u8,
                    a: ((*i >> 24) & 0xff) as u8,
                };
                Ok(HostValue::Color(c))
            },
            _ => Err(conv_err(v, t)),
        },
        _ => Err(conv_err(v, t)),
    }
}


/// Decodes at an enumeration-coded type.
fn decode_enum(t: ScriptType, v: &ScriptValue) -> (r: Result<HostValue, ConversionError>)
    requires
        t == ScriptType::Align || t == ScriptType::Align2 || t == ScriptType::Direction || t
            == ScriptType::PointerButton || t == ScriptType::Order || t == ScriptType::Sense || t
            == ScriptType::TextStyle,
    ensures
        match r {
            Ok(h) => decode_spec(t, v@) == Some(h@),
            Err(e) => decode_spec(t, v@) is None && e.from == v@.kind() && e.to == t,
        },
{
    match t {

        ScriptType::Align => match v {
            ScriptValue::Int(i) => if 0 <= *i && *i < 3 {
                Ok(HostValue::Align(align_from_code(*i)))
            } else {
                Err(conv_err(v, t))
            },
            _ => Err(conv_err(v, t)),
        },
        ScriptType::Align2 => match v {
            ScriptValue::Int(i) => if 0 <= *i && *i <= 10 && *i % 4 < 3 {
                Ok(
                    HostValue::Align2(
                        Align2 { x: align_from_code(*i / 4), y: align_from_code(*i % 4) },
                    ),
                )
            } else {
                Err(conv_err(v, t))
            },
            _ => Err(conv_err(v, t)),
        },
        ScriptType::Direction => match v {
            ScriptValue::Int(i) => if *i == 0 {
                Ok(HostValue::Direction(Direction::LeftToRight))
            } else if *i == 1 {
                Ok(HostValue::Direction(Direction::RightToLeft))
            } else if *i == 2 {
                Ok(HostValue::Direction(Direction::TopDown))
            } else if *i == 3 {
                Ok(HostValue::Direction(Direction::BottomUp))
            } else {
                Err(conv_err(v, t))
            },
            _ => Err(conv_err(v, t)),
        },
        ScriptType::PointerButton => match v {
            ScriptValue::Int(i) => if *i == 0 {
                Ok(HostValue::PointerButton(PointerButton::Primary))
            } else if *i == 1 {
                Ok(HostValue::PointerButton(PointerButton::Secondary))
            } else if *i == 2 {
                Ok(HostValue::PointerButton(PointerButton::Middle))
            } else if *i == 3 {
                Ok(HostValue::PointerButton(PointerButton::Extra1))
            } else if *i == 4 {
                Ok(HostValue::PointerButton(PointerButton::Extra2))
            } else {
                Err(conv_err(v, t))
            },
            _ => Err(conv_err(v, t)),
        },
        ScriptType::Order => match v {
            ScriptValue::Int(i) => if *i == 0 {
                Ok(HostValue::Order(Order::Background))
            } else if *i == 1 {
                Ok(HostValue::Order(Order::PanelResizeLine))
            } else if *i == 2 {
                Ok(HostValue::Order(Order::Middle))
            } else if *i == 3 {
                Ok(HostValue::Order(Order::Foreground))
            } else if *i == 4 {
                Ok(HostValue::Order(Order::Tooltip))
            } else if *i == 5 {
                Ok(HostValue::Order(Order::Debug))
            } else {
                Err(conv_err(v, t))
            },
            _ => Err(conv_err(v, t)),
        },
        ScriptType::Sense => match v {
            ScriptValue::Int(i) => Ok(
                HostValue::Sense(
                    Sense { click: *i & 1 != 0, drag: *i & 2 != 0, focusable: *i & 4 != 0 },
                ),
            ),
            _ => Err(conv_err(v, t)),
        },
        ScriptType::TextStyle => match v {
            ScriptValue::Int(i) => if *i == 0 {
                Ok(HostValue::TextStyle(TextStyle::Small))
            } else if *i == 1 {
                Ok(HostValue::TextStyle(TextStyle::Body))
            } else if *i == 2 {
                Ok(HostValue::TextStyle(TextStyle::Monospace))
            } else if *i == 3 {
                Ok(HostValue::TextStyle(TextStyle::Button))
            } else if *i == 4 {
                Ok(HostValue::TextStyle(TextStyle::Heading))
            } else {
                Err(conv_err(v, t))
            },
            ScriptValue::Str(s) => Ok(HostValue::TextStyle(TextStyle::Name(s.clone()))),
            _ => Err(conv_err(v, t)),
        },
        _ => Err(conv_err(v, t)),
    }
}


/// Decodes at a table-backed, union or opaque type.
fn decode_composite(t: ScriptType, v: &ScriptValue) -> (r: Result<HostValue, ConversionError>)
    requires
        t == ScriptType::Margin || t == ScriptType::Rounding || t == ScriptType::Rect || t
            == ScriptType::Stroke || t == ScriptType::WidgetText || t == ScriptType::RichText || t
            == ScriptType::Galley || t == ScriptType::Response || t == ScriptType::Handle,
    ensures
        match r {
            Ok(h) => decode_spec(t, v@) == Some(h@),
            Err(e) => decode_spec(t, v@) is None && e.from == v@.kind() && e.to == t,
        },
{
    match t {

        ScriptType::Margin => match v {
            ScriptValue::Table(entries) => match decode_margin(entries) {
                Some(m) => Ok(HostValue::Margin(m)),
                None => Err(conv_err(v, t)),
            },
            _ => Err(conv_err(v, t)),
        },
        ScriptType::Rounding => match v {
            ScriptValue::Table(entries) => match decode_rounding(entries) {
                Some(r) => Ok(HostValue::Rounding(r)),
                None => Err(conv_err(v, t)),
            },
            _ => Err(conv_err(v, t)),
        },
        ScriptType::Rect => match v {
            ScriptValue::Table(entries) => match decode_rect(entries) {
                Some(r) => Ok(HostValue::Rect(r)),
                None => Err(conv_err(v, t)),
            },
            _ => Err(conv_err(v, t)),
        },
        ScriptType::Stroke => match v {
            ScriptValue::Vector2(w, c) => if *c < 4294967296 {
                let color = unpack_color_exec(*c as i64);
                Ok(HostValue::Stroke(Stroke { width: *w, color }))
            } else {
                Err(conv_err(v, t))
            },
            _ => Err(conv_err(v, t)),
        },
        ScriptType::WidgetText => match v {
            ScriptValue::Str(s) => Ok(HostValue::WidgetText(WidgetText::Plain(s.clone()))),
            ScriptValue::Table(entries) => match decode_galley(entries) {
                Some(s) => Ok(HostValue::WidgetText(WidgetText::Shaped(Galley { text: s }))),
                None => match decode_rich(entries) {
                    Some(s) => Ok(HostValue::WidgetText(WidgetText::Rich(RichText { text: s }))),
                    None => Err(conv_err(v, t)),
                },
            },
            _ => Err(conv_err(v, t)),
        },
        ScriptType::RichText => match v {
            ScriptValue::Str(s) => Ok(HostValue::RichText(RichText { text: s.clone() })),
            ScriptValue::Table(entries) => match decode_rich(entries) {
                Some(s) => Ok(HostValue::RichText(RichText { text: s })),
                None => Err(conv_err(v, t)),
            },
            _ => Err(conv_err(v, t)),
        },
        ScriptType::Galley => match v {
            ScriptValue::Table(entries) => match decode_galley(entries) {
                Some(s) => Ok(HostValue::Galley(Galley { text: s })),
                None => Err(conv_err(v, t)),
            },
            _ => Err(conv_err(v, t)),
        },
        ScriptType::Response => match v {
            ScriptValue::Table(entries) => match decode_response(entries) {
                Some(r) => Ok(HostValue::Response(r)),
                None => Err(conv_err(v, t)),
            },
            _ => Err(conv_err(v, t)),
        },
        ScriptType::Handle => match v {
            ScriptValue::Handle(h) => Ok(HostValue::Handle(*h)),
            _ => Err(conv_err(v, t)),
        },
        _ => Err(conv_err(v, t)),
    }
}


/// Decodes a script value at a script-facing type.
///
/// Succeeds exactly where the decode relation accepts the value; any other
/// value yields a conversion error naming the value's kind and the type.
pub fn decode(t: ScriptType, v: &ScriptValue) -> (r: Result<HostValue, ConversionError>)
    ensures
        match r {
            Ok(h) => decode_spec(t, v@) == Some(h@),
            Err(e) => decode_spec(t, v@) is None && e.from == v@.kind() && e.to == t,
        },
{
    match t {
        ScriptType::Bool | ScriptType::Int | ScriptType::Num | ScriptType::Byte | ScriptType::Str
            | ScriptType::Vec2 | ScriptType::Pos2 | ScriptType::Color => decode_scalar(t, v),
        ScriptType::Align | ScriptType::Align2 | ScriptType::Direction
            | ScriptType::PointerButton | ScriptType::Order | ScriptType::Sense
            | ScriptType::TextStyle => decode_enum(t, v),
        ScriptType::Margin | ScriptType::Rounding | ScriptType::Rect | ScriptType::Stroke
            | ScriptType::WidgetText | ScriptType::RichText | ScriptType::Galley
            | ScriptType::Response | ScriptType::Handle => decode_composite(t, v),
    }
}


// ------------------------------------------------------------------
// Executable encode.
// ------------------------------------------------------------------
/// A table entry under a literal key.
fn entry(key: &str, val: ScriptValue) -> (e: TableEntry)
    ensures
        e@.key == key@ && e@.val == val@,
{
    TableEntry { key: key.to_owned(), val }
}

/// The canonical table standing for a margin.
fn margin_table(m: Margin) -> (v: ScriptValue)
    ensures
        v@ is Table && margin_m(v@->Table_0) == Some(m),
{
    let mut es: Vec<TableEntry> = Vec::new();
    es.push(entry("left", ScriptValue::Num(m.left)));
    es.push(entry("right", ScriptValue::Num(m.right)));
    es.push(entry("top", ScriptValue::Num(m.top)));
    es.push(entry("bottom", ScriptValue::Num(m.bottom)));
    proof {
        crate::value::lemma_entries_model_index(es@);
        reveal_strlit("left");
        reveal_strlit("right");
        reveal_strlit("top");
        reveal_strlit("bottom");
        reveal_with_fuel(tbl_lookup, 6);
        let tm = entries_model(es@);
        assert(tm.skip(1)[0] == tm[1] && tm.skip(1).skip(1)[0] == tm[2] && tm.skip(1).skip(1).skip(
            1,
        )[0] == tm[3]);
        assert("left"@.len() == 4 && "right"@.len() == 5 && "top"@.len() == 3 && "bottom"@.len()
            == 6);
        assert(tbl_lookup(tm, "left"@) == Some(ValModel::Num(m.left)));
        assert(tbl_lookup(tm, "right"@) == Some(ValModel::Num(m.right)));
        assert(tbl_lookup(tm, "top"@) == Some(ValModel::Num(m.top)));
        assert(tbl_lookup(tm, "bottom"@) == Some(ValModel::Num(m.bottom)));
        assert(margin_m(tm) == Some(m));
    }
    ScriptValue::Table(es)
}

/// The canonical table standing for corner rounding.
fn rounding_table(r: Rounding) -> (v: ScriptValue)
    ensures
        v@ is Table && rounding_m(v@->Table_0) == Some(r),
{
    let mut es: Vec<TableEntry> = Vec::new();
    es.push(entry("nw", ScriptValue::Num(r.nw)));
    es.push(entry("ne", ScriptValue::Num(r.ne)));
    es.push(entry("sw", ScriptValue::Num(r.sw)));
    es.push(entry("se", ScriptValue::Num(r.se)));
    proof {
        crate::value::lemma_entries_model_index(es@);
        reveal_strlit("nw");
        reveal_strlit("ne");
        reveal_strlit("sw");
        reveal_strlit("se");
        reveal_with_fuel(tbl_lookup, 6);
        let tm = entries_model(es@);
        assert(tm.skip(1)[0] == tm[1] && tm.skip(1).skip(1)[0] == tm[2] && tm.skip(1).skip(1).skip(
            1,
        )[0] == tm[3]);
        assert("nw"@[0] == 'n' && "nw"@[1] == 'w' && "ne"@[0] == 'n' && "ne"@[1] == 'e' && "sw"@[0]
            == 's' && "sw"@[1] == 'w' && "se"@[0] == 's' && "se"@[1] == 'e');
        assert(tbl_lookup(tm, "nw"@) == Some(ValModel::Num(r.nw)));
        assert(tbl_lookup(tm, "ne"@) == Some(ValModel::Num(r.ne)));
        assert(tbl_lookup(tm, "sw"@) == Some(ValModel::Num(r.sw)));
        assert(tbl_lookup(tm, "se"@) == Some(ValModel::Num(r.se)));
        assert(rounding_m(tm) == Some(r));
    }
    ScriptValue::Table(es)
}

/// The canonical table standing for a rectangle.
fn rect_table(r: Rect) -> (v: ScriptValue)
    ensures
        v@ is Table && rect_m(v@->Table_0) == Some(r),
{
    let mut es: Vec<TableEntry> = Vec::new();
    es.push(entry("min", ScriptValue::Vector2(r.min.x, r.min.y)));
    es.push(entry("max", ScriptValue::Vector2(r.max.x, r.max.y)));
    proof {
        crate::value::lemma_entries_model_index(es@);
        reveal_strlit("min");
        reveal_strlit("max");
        reveal_with_fuel(tbl_lookup, 4);
        let tm = entries_model(es@);
        assert(tm.skip(1)[0] == tm[1]);
        assert("min"@[1] == 'i' && "max"@[1] == 'a');
        assert(tbl_lookup(tm, "min"@) == Some(ValModel::Vector2(r.min.x, r.min.y)));
        assert(tbl_lookup(tm, "max"@) == Some(ValModel::Vector2(r.max.x, r.max.y)));
        assert(rect_m(tm) == Some(r));
    }
    ScriptValue::Table(es)
}

/// The canonical table standing for an interaction response.
fn response_table(r: Response) -> (v: ScriptValue)
    ensures
        v@ is Table && response_m(v@->Table_0) == Some(r),
{
    let mut es: Vec<TableEntry> = Vec::new();
    es.push(entry("clicked", ScriptValue::Bool(r.clicked)));
    es.push(entry("secondary_clicked", ScriptValue::Bool(r.secondary_clicked)));
    es.push(entry("hovered", ScriptValue::Bool(r.hovered)));
    es.push(entry("changed", ScriptValue::Bool(r.changed)));
    proof {
        crate::value::lemma_entries_model_index(es@);
        reveal_strlit("clicked");
        reveal_strlit("secondary_clicked");
        reveal_strlit("hovered");
        reveal_strlit("changed");
        reveal_with_fuel(tbl_lookup, 6);
        let tm = entries_model(es@);
        assert(tm.skip(1)[0] == tm[1] && tm.skip(1).skip(1)[0] == tm[2] && tm.skip(1).skip(1).skip(
            1,
        )[0] == tm[3]);
        assert("clicked"@.len() == 7 && "secondary_clicked"@.len() == 17 && "hovered"@.len() == 7
            && "changed"@.len() == 7);
        assert("clicked"@[0] == 'c' && "hovered"@[0] == 'h' && "changed"@[0] == 'c'
            && "clicked"@[1] == 'l' && "changed"@[1] == 'h');
        assert(tbl_lookup(tm, "clicked"@) == Some(ValModel::Bool(r.clicked)));
        assert(tbl_lookup(tm, "secondary_clicked"@) == Some(ValModel::Bool(r.secondary_clicked)));
        assert(tbl_lookup(tm, "hovered"@) == Some(ValModel::Bool(r.hovered)));
        assert(tbl_lookup(tm, "changed"@) == Some(ValModel::Bool(r.changed)));
        assert(response_m(tm) == Some(r));
    }
    ScriptValue::Table(es)
}

/// The table standing for a rich-text value.
fn rich_table(text: String) -> (v: ScriptValue)
    ensures
        v@ is Table && rich_m(v@->Table_0) == Some(text@),
{
    let mut es: Vec<TableEntry> = Vec::new();
    es.push(entry("text", ScriptValue::Str(text)));
    proof {
        crate::value::lemma_entries_model_index(es@);
        reveal_strlit("text");
        reveal_strlit("shaped");
        reveal_with_fuel(tbl_lookup, 3);
        let tm = entries_model(es@);
        assert("text"@.len() == 4 && "shaped"@.len() == 6);
        assert(tbl_lookup(tm, "shaped"@) is None);
        assert(tbl_lookup(tm, "text"@) == Some(ValModel::Str(text@)));
        assert(rich_m(tm) == Some(text@));
    }
    ScriptValue::Table(es)
}

/// The table standing for a pre-shaped text value.
fn galley_table(text: String) -> (v: ScriptValue)
    ensures
        v@ is Table && galley_m(v@->Table_0) == Some(text@),
{
    let mut es: Vec<TableEntry> = Vec::new();
    es.push(entry("text", ScriptValue::Str(text)));
    es.push(entry("shaped", ScriptValue::Bool(true)));
    proof {
        crate::value::lemma_entries_model_index(es@);
        reveal_strlit("text");
        reveal_strlit("shaped");
        reveal_with_fuel(tbl_lookup, 4);
        let tm = entries_model(es@);
        assert(tm.skip(1)[0] == tm[1]);
        assert("text"@.len() == 4 && "shaped"@.len() == 6);
        assert(tbl_lookup(tm, "shaped"@) == Some(ValModel::Bool(true)));
        assert(tbl_lookup(tm, "text"@) == Some(ValModel::Str(text@)));
        assert(galley_m(tm) == Some(text@));
    }
    ScriptValue::Table(es)
}

/// Encodes a host value as a script value.
pub fn encode(h: HostValue) -> (v: ScriptValue)
    ensures
        encodes(h@, v@),
{
    match h {
        HostValue::Bool(b) => ScriptValue::Bool(b),
        HostValue::Int(i) => ScriptValue::Int(i),
        HostValue::Num(n) => ScriptValue::Num(n),
        HostValue::Byte(b) => ScriptValue::Int(b as i64),
        HostValue::Str(s) => ScriptValue::Str(s),
        HostValue::Vec2(x) => ScriptValue::Vector2(x.x, x.y),
        HostValue::Pos2(x) => ScriptValue::Vector2(x.x, x.y),
        HostValue::Color(c) => {
            let u: i64 = c.r as i64 + 256 * (c.g as i64 + 256 * (c.b as i64 + 256 * (c.a as i64)));
            let i: i64 = if u >= 2147483648 {
                u - 4294967296
            } else {
                u
            };
            ScriptValue::Int(i)
        },
        HostValue::Align(a) => {
            let k: i64 = match a {
                Align::Min => 0,
                Align::Center => 1,
                Align::Max => 2,
            };
            ScriptValue::Int(k)
        },
        HostValue::Align2(a) => {
            let x: i64 = match a.x {
                Align::Min => 0,
                Align::Center => 1,
                Align::Max => 2,
            };
            let y: i64 = match a.y {
                Align::Min => 0,
                Align::Center => 1,
                Align::Max => 2,
            };
            ScriptValue::Int(4 * x + y)
        },
        HostValue::Direction(d) => ScriptValue::Int(
            match d {
                Direction::LeftToRight => 0,
                Direction::RightToLeft => 1,
                Direction::TopDown => 2,
                Direction::BottomUp => 3,
            },
        ),
        HostValue::PointerButton(p) => ScriptValue::Int(
            match p {
                PointerButton::Primary => 0,
                PointerButton::Secondary => 1,
                PointerButton::Middle => 2,
                PointerButton::Extra1 => 3,
                PointerButton::Extra2 => 4,
            },
        ),
        HostValue::Order(o) => ScriptValue::Int(
            match o {
                Order::Background => 0,
                Order::PanelResizeLine => 1,
                Order::Middle => 2,
                Order::Foreground => 3,
                Order::Tooltip => 4,
                Order::Debug => 5,
            },
        ),
        HostValue::Sense(s) => {
            let i: i64 = (if s.click {
                1i64
            } else {
                0i64
            }) + (if s.drag {
                2i64
            } else {
                0i64
            }) + (if s.focusable {
                4i64
            } else {
                0i64
            });
            ScriptValue::Int(i)
        },
        HostValue::TextStyle(t) => match t {
            TextStyle::Small => ScriptValue::Int(0),
            TextStyle::Body => ScriptValue::Int(1),
            TextStyle::Monospace => ScriptValue::Int(2),
            TextStyle::Button => ScriptValue::Int(3),
            TextStyle::Heading => ScriptValue::Int(4),
            TextStyle::Name(s) => ScriptValue::Str(s),
        },
        HostValue::Margin(m) => margin_table(m),
        HostValue::Rounding(r) => rounding_table(r),
        HostValue::Rect(r) => rect_table(r),
        HostValue::Stroke(s) => {
            proof {
                lemma_color_pack_unpack(s.color);
            }
            let c = s.color;
            let cu: u64 = c.r as u64 + 256 * (c.g as u64 + 256 * (c.b as u64 + 256 * (c.a as u64)));
            ScriptValue::Vector2(s.width, cu)
        },
        HostValue::WidgetText(w) => match w {
            WidgetText::Plain(s) => ScriptValue::Str(s),
            WidgetText::Rich(r) => rich_table(r.text),
            WidgetText::Shaped(g) => galley_table(g.text),
        },
        HostValue::RichText(r) => rich_table(r.text),
        HostValue::Galley(g) => galley_table(g.text),
        HostValue::Response(r) => response_table(r),
        HostValue::Handle(hd) => ScriptValue::Handle(hd),
    }
}

/// Decode then encode loses nothing: whatever a value decoded to, every
/// encoding of the decoded host value decodes back to the same host value.
/// Together with [`decode`]'s contract this is the codec's round trip: a
/// decode either succeeds like this, or fails with an error naming both
/// sides of the mapping.
pub proof fn lemma_codec_round_trip(h: HostModel, v: ValModel)
    requires
        encodes(h, v),
    ensures
        decode_spec(host_type_of(h), v) == Some(h),
{
    match h {
        HostModel::Color(c) => {
            lemma_color_i32_round_trip(c);
        },
        HostModel::Align(a) => {
        },
        HostModel::Align2(a) => {
            let i = align2_code(a);
            lemma_fundamental_div_mod_converse(i, 4, align_code(a.x), align_code(a.y));
        },
        HostModel::Sense(s) => {
            lemma_sense_pack_unpack(s);
        },
        HostModel::Stroke(s) => {
            lemma_color_pack_unpack(s.color);
        },
        _ => {
        },
    }
}

} // verus!
