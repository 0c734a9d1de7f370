//! Widgets built from plain script tables.
//!
//! A script can describe a widget as a table instead of calling a dedicated
//! wrapper; [`ui_add_fn`] reads the table's `widget_type` and dispatches to
//! the type implementing [`LuaEguiWidget`] that renders it. Implementations
//! for other widget kinds, and the `custom` kind whose body is a script
//! function, are supplied by embedders.

use vstd::prelude::*;

use crate::codec::ScriptType;
use crate::error::{BridgeError, ConversionError};
use crate::host::{DrawCmd, DrawCmdModel, Response, Ui, WidgetText};
use crate::value::{entries_model, table_get, tbl_lookup, str_eq, ScriptValue, TableEntry, ValModel};

verus! {

/// A widget that can be read out of a script table and rendered.
pub trait LuaEguiWidget {
    /// Reads the widget's fields from `table` and renders it onto `ui`,
    /// returning the interaction result. On failure the surface is
    /// untouched; on success exactly one command is drawn.
    fn from_table(ui: &mut Ui, table: &Vec<TableEntry>) -> (r: Result<Response, BridgeError>)
        ensures
            match r {
                Ok(_) => {
                    &&& final(ui)@.cmds.len() == old(ui)@.cmds.len() + 1
                    &&& final(ui)@.cmds.subrange(0, old(ui)@.cmds.len() as int) == old(ui)@.cmds
                    &&& final(ui)@.enabled == old(ui)@.enabled
                    &&& final(ui)@.visible == old(ui)@.visible
                },
                Err(_) => final(ui)@ == old(ui)@,
            },
    ;
}

/// A push button described by a table: its `text`, and optionally whether
/// the label may `wrap`.
#[derive(Debug)]
pub struct Button {
    pub text: String,
    pub wrap: Option<bool>,
}

/// The wrap setting a widget table carries: a boolean `wrap` entry and
/// nothing else counts.
pub open spec fn wrap_of(tm: Seq<crate::value::EntryModel>) -> Option<bool> {
    match tbl_lookup(tm, "wrap"@) {
        Some(ValModel::Bool(b)) => Some(b),
        _ => None,
    }
}

impl LuaEguiWidget for Button {
    /// Reads `text` (required) and `wrap` (optional) and draws the button,
    /// with the wrap setting applied exactly where the table carries one.
    /// A missing or non-string `text` is a conversion error naming what
    /// stood there.
    fn from_table(ui: &mut Ui, table: &Vec<TableEntry>) -> (r: Result<Response, BridgeError>)
        ensures
            match r {
                Ok(resp) => {
                    &&& tbl_lookup(entries_model(table@), "text"@) matches Some(ValModel::Str(_))
                    &&& final(ui)@.cmds == old(ui)@.cmds.push(
                        DrawCmdModel::Widget {
                            text: crate::codec::WidgetTextModel::Plain(
                                tbl_lookup(entries_model(table@), "text"@)->0->Str_0,
                            ),
                            wrap: wrap_of(entries_model(table@)),
                        },
                    )
                    &&& resp == (Response {
                        clicked: false,
                        secondary_clicked: false,
                        hovered: false,
                        changed: false,
                    })
                },
                Err(e) => {
                    &&& !(tbl_lookup(entries_model(table@), "text"@) matches Some(
                        ValModel::Str(_),
                    ))
                    &&& final(ui)@ == old(ui)@
                    &&& e matches BridgeError::Conversion { err, position: 0usize }
                },
            },
    {
        let text: String = match table_get(table, "text") {
            Some(ScriptValue::Str(s)) => s.clone(),
            Some(v) => {
                return Err(
                    BridgeError::Conversion {
                        err: ConversionError { from: v.kind(), to: ScriptType::Str },
                        position: 0,
                    },
                );
            },
            None => {
                return Err(
                    BridgeError::Conversion {
                        err: ConversionError {
                            from: crate::error::ValueKind::Nil,
                            to: ScriptType::Str,
                        },
                        position: 0,
                    },
                );
            },
        };
        let wrap: Option<bool> = match table_get(table, "wrap") {
            Some(ScriptValue::Bool(b)) => Some(*b),
            _ => None,
        };
        let ghost before = ui@.cmds;
        ui.cmds.push(DrawCmd::Widget { text: WidgetText::Plain(text), wrap });
        proof {
            assert(crate::host::cmds_model(ui.cmds@) =~= before.push(
                ui.cmds@.last()@,
            ));
        }
        Ok(Response::inert())
    }
}

/// Renders the widget a table describes, dispatched on its `widget_type`.
///
/// The `button` kind is the table-driven widget this crate holds. The
/// `custom` kind runs a script function of the table, which only the
/// embedding can do, and any other kind names no widget here: both are
/// answered with a bad-operand error rather than reaching for code that is
/// not there.
pub fn ui_add_fn(ui: &mut Ui, table: &Vec<TableEntry>) -> (r: Result<Response, BridgeError>)
    ensures
        match r {
            Ok(resp) => {
                &&& tbl_lookup(entries_model(table@), "widget_type"@) == Some(
                    ValModel::Str("button"@),
                )
                &&& tbl_lookup(entries_model(table@), "text"@) matches Some(ValModel::Str(_))
                &&& final(ui)@.cmds == old(ui)@.cmds.push(
                    DrawCmdModel::Widget {
                        text: crate::codec::WidgetTextModel::Plain(
                            tbl_lookup(entries_model(table@), "text"@)->0->Str_0,
                        ),
                        wrap: wrap_of(entries_model(table@)),
                    },
                )
                &&& resp == (Response {
                    clicked: false,
                    secondary_clicked: false,
                    hovered: false,
                    changed: false,
                })
            },
            Err(e) => {
                &&& final(ui)@ == old(ui)@
                &&& (e == BridgeError::BadOperand <==> (
                tbl_lookup(entries_model(table@), "widget_type"@) matches Some(ValModel::Str(s))
                    && s != "button"@))
                &&& (e matches BridgeError::Conversion { err, position: 0usize } ==> !(tbl_lookup(
                    entries_model(table@),
                    "widget_type"@,
                ) matches Some(ValModel::Str(s)) && s != "button"@))
            },
        },
{
    match table_get(table, "widget_type") {
        Some(ScriptValue::Str(s)) => {
            if str_eq(s, "button") {
                Button::from_table(ui, table)
            } else {
                Err(BridgeError::BadOperand)
            }
        },
        Some(v) => Err(
            BridgeError::Conversion {
                err: ConversionError { from: v.kind(), to: ScriptType::Str },
                position: 0,
            },
        ),
        None => Err(
            BridgeError::Conversion {
                err: ConversionError { from: crate::error::ValueKind::Nil, to: ScriptType::Str },
                position: 0,
            },
        ),
    }
}

} // verus!
