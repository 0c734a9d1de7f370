use luaegui::bridge::{register_egui_bindings, Bridge};
use luaegui::error::BridgeError;
use luaegui::host::{Context, DrawCmd, WidgetText};
use luaegui::protocol::{CallbackScript, Operand, ScriptOp};
use luaegui::value::ScriptValue;
use luaegui::Handle;

// the registration order of register_egui_bindings
const LABEL: usize = 2;
const SENSE_UNION: usize = 7;
const COLOR_FROM_RGBA: usize = 8;

fn fresh_bridge() -> Bridge {
    let table = register_egui_bindings();
    Bridge::new(
        Context { repaint_requested: false, using_pointer: false },
        table,
    )
}

fn lit_str(s: &str) -> Operand {
    Operand::Lit(ScriptValue::Str(s.to_string()))
}

fn as_handle(v: &ScriptValue) -> Handle {
    match v {
        ScriptValue::Handle(h) => *h,
        _ => panic!("expected a handle value"),
    }
}

#[test]
fn show_runs_label_and_relays_the_callback_returns() {
    let mut bridge = fresh_bridge();
    let w = bridge
        .window_new(&ScriptValue::Str("T".to_string()))
        .unwrap();
    let body = CallbackScript {
        ops: vec![ScriptOp::Invoke {
            desc: LABEL,
            recv: Some(Operand::CurrentHandle),
            args: vec![lit_str("hello")],
        }],
        ret: vec![lit_str("done")],
    };
    let baseline = bridge.relay.size();
    let out = bridge.show_window(w, &body).unwrap();
    // the flattened result: visibility flag, interaction result, callback returns
    assert_eq!(out.len(), 3);
    assert!(matches!(out[0], ScriptValue::Bool(true)));
    assert!(matches!(out[1], ScriptValue::Table(_)));
    match &out[2] {
        ScriptValue::Str(s) => assert_eq!(s, "done"),
        _ => panic!("the callback's return value must come through the relay"),
    }
    // the label really reached the child surface
    assert_eq!(bridge.surfaces.len(), 1);
    assert_eq!(bridge.surfaces[0].cmds.len(), 1);
    assert_eq!(
        bridge.surfaces[0].cmds[0],
        DrawCmd::Label(WidgetText::Plain("hello".to_string()))
    );
    // relay balance: the store size is back at its baseline
    assert_eq!(bridge.relay.size(), baseline);
    // teardown: no handle survived the scope
    assert_eq!(bridge.registry.live_count(), 0);
}

#[test]
fn closed_window_never_runs_its_callback() {
    let mut bridge = fresh_bridge();
    let w = bridge
        .window_new(&ScriptValue::Str("closed".to_string()))
        .unwrap();
    bridge.builders[w].open(false).unwrap();
    // a callback that would fail loudly if it were invoked at all
    let body = CallbackScript { ops: vec![ScriptOp::Fail], ret: vec![] };
    let out = bridge.show_window(w, &body).unwrap();
    // the result is nil-free shorthand for "nothing ran": only the flag
    assert_eq!(out.len(), 1);
    assert!(matches!(out[0], ScriptValue::Bool(false)));
    assert_eq!(bridge.surfaces.len(), 0);
    assert_eq!(bridge.registry.live_count(), 0);
    assert_eq!(bridge.relay.size(), 0);
}

#[test]
fn collapsed_window_reports_open_without_callback() {
    let mut bridge = fresh_bridge();
    let w = bridge
        .window_new(&ScriptValue::Str("folded".to_string()))
        .unwrap();
    bridge.builders[w].collapsed(true).unwrap();
    let body = CallbackScript { ops: vec![ScriptOp::Fail], ret: vec![] };
    let out = bridge.show_window(w, &body).unwrap();
    assert_eq!(out.len(), 2);
    assert!(matches!(out[0], ScriptValue::Bool(true)));
    assert!(matches!(out[1], ScriptValue::Table(_)));
    assert_eq!(bridge.surfaces.len(), 0);
}

#[test]
fn spent_builder_rejects_mutators_and_a_second_show() {
    let mut bridge = fresh_bridge();
    let w = bridge
        .window_new(&ScriptValue::Str("once".to_string()))
        .unwrap();
    let body = CallbackScript { ops: vec![], ret: vec![] };
    bridge.show_window(w, &body).unwrap();
    assert_eq!(
        bridge.builders[w].open(true).unwrap_err(),
        BridgeError::BuilderReuse
    );
    assert_eq!(
        bridge.builders[w].resizable(false).unwrap_err(),
        BridgeError::BuilderReuse
    );
    assert_eq!(
        bridge.show_window(w, &body).unwrap_err(),
        BridgeError::BuilderReuse
    );
}

#[test]
fn handle_used_after_its_scope_yields_scope_violation() {
    let mut bridge = fresh_bridge();
    let w = bridge
        .window_new(&ScriptValue::Str("escape".to_string()))
        .unwrap();
    // the callback smuggles its own handle out through the relay
    let body = CallbackScript { ops: vec![], ret: vec![Operand::CurrentHandle] };
    let out = bridge.show_window(w, &body).unwrap();
    let escaped = as_handle(&out[2]);
    // using the escaped handle after the scope closed is answered with a
    // scope violation, not a dangling reference
    let e = bridge
        .dispatch(LABEL, Some(escaped), &vec![ScriptValue::Str("x".to_string())])
        .unwrap_err();
    assert_eq!(e, BridgeError::ScopeViolation);
}

#[test]
fn nested_shows_have_independent_handles_and_results() {
    let mut bridge = fresh_bridge();
    let outer = bridge
        .window_new(&ScriptValue::Str("outer".to_string()))
        .unwrap();
    let inner_body = CallbackScript { ops: vec![], ret: vec![Operand::CurrentHandle] };
    let outer_body = CallbackScript {
        ops: vec![
            ScriptOp::WindowNew { title: lit_str("inner") },
            ScriptOp::WindowShow { win: 1, body: inner_body },
        ],
        // the inner show flattened to [flag, response, inner handle]
        ret: vec![Operand::Computed(2), Operand::CurrentHandle],
    };
    let out = bridge.show_window(outer, &outer_body).unwrap();
    assert_eq!(out.len(), 4);
    let inner_handle = as_handle(&out[2]);
    let outer_handle = as_handle(&out[3]);
    // each show opened its own scope with its own handle
    assert_ne!(inner_handle, outer_handle);
    // both scopes were torn down on the way out
    assert_eq!(bridge.registry.live_count(), 0);
    assert_eq!(bridge.relay.size(), 0);
    // mutating the inner builder after the outer result was computed cannot
    // change anything: the builder is spent, and the result already stands
    let snapshot = format!("{:?}", out);
    assert_eq!(
        bridge.builders[1].collapsed(true).unwrap_err(),
        BridgeError::BuilderReuse
    );
    assert_eq!(format!("{:?}", out), snapshot);
}

#[test]
fn script_error_still_tears_scopes_down() {
    let mut bridge = fresh_bridge();
    let w = bridge
        .window_new(&ScriptValue::Str("fails".to_string()))
        .unwrap();
    let body = CallbackScript {
        ops: vec![
            ScriptOp::Invoke {
                desc: LABEL,
                recv: Some(Operand::CurrentHandle),
                args: vec![lit_str("before the error")],
            },
            ScriptOp::Fail,
        ],
        ret: vec![],
    };
    let e = bridge.show_window(w, &body).unwrap_err();
    assert_eq!(e, BridgeError::Raised);
    // unconditional teardown on the unwind path
    assert_eq!(bridge.registry.live_count(), 0);
    assert_eq!(bridge.relay.size(), 0);
    // the builder is spent whether the callback returned or failed
    assert!(bridge.builders[w].is_shown());
}

#[test]
fn dispatch_decodes_invokes_and_encodes() {
    let mut bridge = fresh_bridge();
    // sense union: 1 (click) with 6 (drag + focusable) is 7
    let out = bridge
        .dispatch(SENSE_UNION, None, &vec![ScriptValue::Int(1), ScriptValue::Int(6)])
        .unwrap();
    assert_eq!(out.len(), 1);
    assert!(matches!(out[0], ScriptValue::Int(7)));
    // color packing through the generated glue
    let out = bridge
        .dispatch(
            COLOR_FROM_RGBA,
            None,
            &vec![
                ScriptValue::Int(10),
                ScriptValue::Int(20),
                ScriptValue::Int(30),
                ScriptValue::Int(40),
            ],
        )
        .unwrap();
    assert!(matches!(out[0], ScriptValue::Int(i) if i == 10 + 20 * 256 + 30 * 65536 + 40 * 16777216));
    // an alpha in the sign bit makes the packed integer negative
    let out = bridge
        .dispatch(
            COLOR_FROM_RGBA,
            None,
            &vec![
                ScriptValue::Int(0),
                ScriptValue::Int(0),
                ScriptValue::Int(0),
                ScriptValue::Int(255),
            ],
        )
        .unwrap();
    assert!(matches!(out[0], ScriptValue::Int(-16777216)));
}

#[test]
fn dispatch_names_the_offending_argument() {
    let mut bridge = fresh_bridge();
    let e = bridge
        .dispatch(
            SENSE_UNION,
            None,
            &vec![ScriptValue::Int(1), ScriptValue::Str("no".to_string())],
        )
        .unwrap_err();
    match e {
        BridgeError::Conversion { err, position } => {
            assert_eq!(position, 1);
            assert_eq!(err.from, luaegui::error::ValueKind::Str);
        }
        _ => panic!("a failing decode surfaces as a conversion error"),
    }
    let e = bridge
        .dispatch(SENSE_UNION, None, &vec![ScriptValue::Int(1)])
        .unwrap_err();
    assert_eq!(e, BridgeError::Arity { expected: 2, got: 1 });
    let e = bridge.dispatch(99, None, &vec![]).unwrap_err();
    assert_eq!(e, BridgeError::UnknownDescriptor);
    // a free operation takes no receiver
    let mut reg_bridge = fresh_bridge();
    let h = reg_bridge.registry.enter(0, true);
    let e = bridge
        .dispatch(SENSE_UNION, Some(h), &vec![ScriptValue::Int(1), ScriptValue::Int(2)])
        .unwrap_err();
    assert_eq!(e, BridgeError::BadOperand);
}

#[test]
fn mutating_op_requires_a_writable_handle() {
    let mut bridge = fresh_bridge();
    bridge.surfaces.push(luaegui::host::Ui::new(true));
    let h = bridge.registry.enter(0, false);
    let e = bridge
        .dispatch(LABEL, Some(h), &vec![ScriptValue::Str("x".to_string())])
        .unwrap_err();
    assert_eq!(e, BridgeError::ImmutableHandle);
}
