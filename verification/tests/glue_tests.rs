use luaegui::codec::{HostValue, ScriptType};
use luaegui::descriptor::{Arg, Converter, InputTokens, LuaImplType};
use luaegui::error::BridgeError;
use luaegui::host::{DrawCmd, Response, Ui, WidgetText};
use luaegui::value::{ScriptValue, TableEntry};
use luaegui::widget::{Button, LuaEguiWidget};
use luaegui::wrapper::{decode_args, encode_rets, wrap_method, HostOp, WrapperTable};

fn arg(name: &str) -> Arg {
    Arg { outer_type: name.to_string(), converter: Converter::Into }
}

fn desc(kind: LuaImplType, name: &str, args: Vec<Arg>, rets: Vec<Arg>) -> InputTokens {
    InputTokens { lua_impl_type: kind, fn_name: name.to_string(), args, rets, last: false }
}

#[test]
fn vector_length_round_trips_through_the_glue() {
    // the host operation itself is the GUI library's; the bridge decodes the
    // vector, hands it over, and encodes the number that comes back
    let length_desc = desc(
        LuaImplType::Function,
        "length",
        vec![arg("vec2")],
        vec![arg("num")],
    );
    let raw = vec![ScriptValue::Vector2(3.0f64.to_bits(), 4.0f64.to_bits())];
    let decoded = decode_args(&length_desc, &raw).unwrap();
    let v = match &decoded[0] {
        HostValue::Vec2(v) => *v,
        _ => panic!("the argument must decode as a vector"),
    };
    let length = f64::from_bits(v.x).hypot(f64::from_bits(v.y));
    assert_eq!(length, 5.0);
    let out = encode_rets(vec![HostValue::Num(length.to_bits())]);
    assert_eq!(out.len(), 1);
    match out[0] {
        ScriptValue::Num(bits) => assert_eq!(f64::from_bits(bits), 5.0),
        _ => panic!("the length must encode back as a script number"),
    }
}

#[test]
fn registration_validates_descriptors() {
    let mut table = WrapperTable::new();
    // the faithful descriptor registers
    let good = desc(
        LuaImplType::Function,
        "union",
        vec![arg("sense"), arg("sense")],
        vec![arg("sense")],
    );
    let idx = wrap_method(&mut table, good, HostOp::SenseUnion).unwrap();
    assert_eq!(idx, 0);
    assert_eq!(table.len(), 1);
    // a wrong kind is rejected at registration, never at call time
    let wrong_kind = desc(
        LuaImplType::MethodRef,
        "union",
        vec![arg("sense"), arg("sense")],
        vec![arg("sense")],
    );
    assert!(wrap_method(&mut table, wrong_kind, HostOp::SenseUnion).is_err());
    // a wrong argument list is rejected
    let wrong_args = desc(LuaImplType::Function, "union", vec![arg("sense")], vec![arg("sense")]);
    assert!(wrap_method(&mut table, wrong_args, HostOp::SenseUnion).is_err());
    // an unknown type name is rejected
    let unknown = desc(
        LuaImplType::Function,
        "union",
        vec![arg("sense"), arg("mystery")],
        vec![arg("sense")],
    );
    assert!(wrap_method(&mut table, unknown, HostOp::SenseUnion).is_err());
    // a custom block or override is hand-written host code, not table glue
    let mut custom = desc(
        LuaImplType::Function,
        "union",
        vec![arg("sense"), arg("sense")],
        vec![arg("sense")],
    );
    custom.args[0].converter = Converter::Block;
    assert!(wrap_method(&mut table, custom, HostOp::SenseUnion).is_err());
    let mut with_override = desc(
        LuaImplType::Function,
        "union",
        vec![arg("sense"), arg("sense")],
        vec![arg("sense")],
    );
    with_override.last = true;
    assert!(wrap_method(&mut table, with_override, HostOp::SenseUnion).is_err());
    // registration failures left the table as it was
    assert_eq!(table.len(), 1);
}

#[test]
fn arity_mismatch_is_named() {
    let d = desc(LuaImplType::Function, "union", vec![arg("sense"), arg("sense")], vec![]);
    let e = decode_args(&d, &vec![ScriptValue::Int(1)]).unwrap_err();
    assert_eq!(e, BridgeError::Arity { expected: 2, got: 1 });
}

#[test]
fn button_from_table_draws_once() {
    let mut ui = Ui::new(true);
    let table = vec![
        TableEntry { key: "text".to_string(), val: ScriptValue::Str("ok".to_string()) },
        TableEntry { key: "wrap".to_string(), val: ScriptValue::Bool(true) },
    ];
    let resp = Button::from_table(&mut ui, &table).unwrap();
    assert_eq!(resp, Response { clicked: false, secondary_clicked: false, hovered: false, changed: false });
    assert_eq!(ui.cmds.len(), 1);
    assert_eq!(
        ui.cmds[0],
        DrawCmd::Widget { text: WidgetText::Plain("ok".to_string()), wrap: Some(true) }
    );
}

#[test]
fn button_from_table_requires_text() {
    let mut ui = Ui::new(true);
    let table = vec![TableEntry { key: "wrap".to_string(), val: ScriptValue::Bool(true) }];
    let e = Button::from_table(&mut ui, &table).unwrap_err();
    match e {
        BridgeError::Conversion { err, position } => {
            assert_eq!(position, 0);
            assert_eq!(err.to, ScriptType::Str);
        }
        _ => panic!("a missing text field is a conversion error"),
    }
    assert!(ui.cmds.is_empty());
    // a non-string text field names the kind that stood there
    let table = vec![TableEntry { key: "text".to_string(), val: ScriptValue::Int(3) }];
    let e = Button::from_table(&mut ui, &table).unwrap_err();
    match e {
        BridgeError::Conversion { err, .. } => {
            assert_eq!(err.from, luaegui::error::ValueKind::Int);
        }
        _ => panic!("a non-string text field is a conversion error"),
    }
}

#[test]
fn deep_copy_preserves_structure() {
    let v = ScriptValue::Table(vec![
        TableEntry {
            key: "inner".to_string(),
            val: ScriptValue::Table(vec![TableEntry {
                key: "n".to_string(),
                val: ScriptValue::Num(2.5f64.to_bits()),
            }]),
        },
        TableEntry { key: "b".to_string(), val: ScriptValue::Bool(true) },
    ]);
    let copy = v.deep_copy();
    assert_eq!(format!("{:?}", copy), format!("{:?}", v));
}

#[test]
fn table_get_takes_the_first_match() {
    let entries = vec![
        TableEntry { key: "k".to_string(), val: ScriptValue::Int(1) },
        TableEntry { key: "k".to_string(), val: ScriptValue::Int(2) },
    ];
    match luaegui::value::table_get(&entries, "k") {
        Some(ScriptValue::Int(1)) => (),
        _ => panic!("lookup must return the first entry"),
    }
    assert!(luaegui::value::table_get(&entries, "missing").is_none());
}

#[test]
fn standard_bindings_register_in_order() {
    let t = luaegui::bridge::register_egui_bindings();
    assert_eq!(t.len(), 9);
    assert_eq!(t.entries[0].desc.fn_name, "request_repaint");
    assert_eq!(t.entries[1].desc.fn_name, "is_using_pointer");
    assert_eq!(t.entries[2].desc.fn_name, "label");
    assert_eq!(t.entries[7].desc.fn_name, "union");
    assert_eq!(t.entries[8].desc.fn_name, "from_rgba_premultiplied");
    assert!(matches!(t.entries[2].op, HostOp::UiLabel));
}

#[test]
fn ui_add_fn_dispatches_on_widget_type() {
    let mut ui = Ui::new(true);
    let table = vec![
        TableEntry { key: "widget_type".to_string(), val: ScriptValue::Str("button".to_string()) },
        TableEntry { key: "text".to_string(), val: ScriptValue::Str("go".to_string()) },
    ];
    let resp = luaegui::widget::ui_add_fn(&mut ui, &table).unwrap();
    assert!(!resp.clicked);
    assert_eq!(ui.cmds.len(), 1);
    assert_eq!(
        ui.cmds[0],
        DrawCmd::Widget { text: WidgetText::Plain("go".to_string()), wrap: None }
    );
    // a kind this crate does not hold (the custom kind is the embedder's)
    let table = vec![
        TableEntry { key: "widget_type".to_string(), val: ScriptValue::Str("custom".to_string()) },
    ];
    assert_eq!(
        luaegui::widget::ui_add_fn(&mut ui, &table).unwrap_err(),
        BridgeError::BadOperand
    );
    // a missing kind is a typed conversion error
    let e = luaegui::widget::ui_add_fn(&mut ui, &vec![]).unwrap_err();
    assert!(matches!(e, BridgeError::Conversion { position: 0, .. }));
    assert_eq!(ui.cmds.len(), 1);
}

#[test]
fn button_wrap_is_carried_only_when_boolean() {
    let mut ui = Ui::new(true);
    let table = vec![
        TableEntry { key: "text".to_string(), val: ScriptValue::Str("a".to_string()) },
        TableEntry { key: "wrap".to_string(), val: ScriptValue::Int(1) },
    ];
    Button::from_table(&mut ui, &table).unwrap();
    assert_eq!(
        ui.cmds[0],
        DrawCmd::Widget { text: WidgetText::Plain("a".to_string()), wrap: None }
    );
    let table = vec![
        TableEntry { key: "text".to_string(), val: ScriptValue::Str("b".to_string()) },
        TableEntry { key: "wrap".to_string(), val: ScriptValue::Bool(false) },
    ];
    Button::from_table(&mut ui, &table).unwrap();
    assert_eq!(
        ui.cmds[1],
        DrawCmd::Widget { text: WidgetText::Plain("b".to_string()), wrap: Some(false) }
    );
}
