//! The bridge state and the shared wrapper dispatcher.
//!
//! One bridge holds the frame's root context, the drawing surfaces created
//! by open containers, the scoped handle registry, the relay store and the
//! wrapper table. Every exposed operation goes through [`Bridge::dispatch`]:
//! decode the arguments per the registered descriptor, run the host
//! operation, encode the results.

use vstd::prelude::*;

use crate::codec::{decode_spec, encodes, HostModel, HostValue, ScriptType};
use crate::error::BridgeError;
use crate::host::{
    cmds_model, Color32, Context, DrawCmd, DrawCmdModel, Response, Sense, Ui, UiModel,
};
use crate::registry::{monotone, obj_of, resolves, wf, HandleRegistry, Slot};
use crate::relay::RelayStore;
use crate::value::{ScriptValue, ValModel};
use crate::wrapper::{
    op_args, op_mutates, op_receiver, op_rets, HostOp, Receiver, WrapperTable,
};
use crate::Handle;

verus! {

/// The models of a surface list, in order.
pub open spec fn surfaces_model(s: Seq<Ui>) -> Seq<UiModel> {
    s.map_values(|u: Ui| u@)
}

/// The bridge: everything one frame's call tree runs against.
#[derive(Debug)]
pub struct Bridge {
    pub ctx: Context,
    pub surfaces: Vec<Ui>,
    pub registry: HandleRegistry,
    pub relay: RelayStore,
    pub builders: Vec<crate::builder::WindowBuilder>,
    pub table: WrapperTable,
}

/// The bridge's invariant: the registry can always revoke, every live
/// handle points at an existing surface, and the wrapper table declares its
/// operations faithfully.
pub open spec fn wf_bridge(b: &Bridge) -> bool {
    &&& wf(b.registry@)
    &&& crate::wrapper::wf_table(b.table@)
    &&& forall|i: int|
        0 <= i < b.registry@.len() && (#[trigger] b.registry@[i]).live ==> b.registry@[i].obj
            < b.surfaces@.len()
}

/// Decodes a whole value list at a type list; nothing where any one value
/// fails.
pub open spec fn decode_all(ts: Seq<ScriptType>, vs: Seq<ValModel>) -> Option<Seq<HostModel>>
    decreases ts.len(),
{
    if ts.len() != vs.len() {
        None
    } else if ts.len() == 0 {
        Some(Seq::empty())
    } else {
        match (decode_all(ts.drop_last(), vs.drop_last()), decode_spec(ts.last(), vs.last())) {
            (Some(s), Some(h)) => Some(s.push(h)),
            _ => None,
        }
    }
}

/// Pointwise decodes assemble into a whole-list decode.
pub proof fn lemma_decode_all(ts: Seq<ScriptType>, vs: Seq<ValModel>, hs: Seq<HostModel>)
    requires
        ts.len() == vs.len(),
        hs.len() == vs.len(),
        forall|i: int| 0 <= i < vs.len() ==> decode_spec(ts[i], vs[i]) == Some(#[trigger] hs[i]),
    ensures
        decode_all(ts, vs) == Some(hs),
    decreases ts.len(),
{
    if ts.len() == 0 {
        assert(hs =~= Seq::<HostModel>::empty());
    } else {
        lemma_decode_all(ts.drop_last(), vs.drop_last(), hs.drop_last());
        assert(decode_spec(ts.last(), vs.last()) == Some(hs.last()));
        assert(hs.drop_last().push(hs.last()) =~= hs);
    }
}

/// A decoded value belongs to the type it was decoded at.
pub proof fn lemma_decode_type(t: ScriptType, v: ValModel, h: HostModel)
    requires
        decode_spec(t, v) == Some(h),
    ensures
        crate::codec::host_type_of(h) == t,
{
}

/// Whether a receiver fits an operation: surface operations take one live
/// handle, writable where the operation mutates; everything else takes
/// none.
pub open spec fn recv_ok(reg: Seq<Slot>, op: HostOp, recv: Option<Handle>) -> bool {
    if op_receiver(op) is Surface {
        &&& recv is Some
        &&& resolves(reg, recv->0)
        &&& op_mutates(op) ==> reg[recv->0.index as int].writable
    } else {
        recv is None
    }
}

/// The context after an operation runs.
pub open spec fn op_new_ctx(op: HostOp, ctx: Context) -> Context {
    match op {
        HostOp::RequestRepaint => Context { repaint_requested: true, ..ctx },
        _ => ctx,
    }
}

/// The receiving surface after an operation runs.
pub open spec fn op_new_surface(op: HostOp, s: UiModel, args: Seq<HostModel>) -> UiModel {
    match op {
        HostOp::UiLabel => UiModel {
            cmds: s.cmds.push(DrawCmdModel::Label(args[0]->WidgetText_0)),
            ..s
        },
        HostOp::UiSetEnabled => UiModel { enabled: s.enabled && args[0]->Bool_0, ..s },
        HostOp::UiSetVisible => UiModel { visible: args[0]->Bool_0, ..s },
        _ => s,
    }
}

/// What an operation returns, before encoding.
pub open spec fn op_result(op: HostOp, ctx: Context, s: UiModel, args: Seq<HostModel>) -> Seq<
    HostModel,
> {
    match op {
        HostOp::RequestRepaint => seq![],
        HostOp::IsUsingPointer => seq![HostModel::Bool(ctx.using_pointer)],
        HostOp::UiLabel => seq![
            HostModel::Response(
                Response { clicked: false, secondary_clicked: false, hovered: false, changed: false },
            ),
        ],
        HostOp::UiIsEnabled => seq![HostModel::Bool(s.enabled)],
        HostOp::UiSetEnabled => seq![],
        HostOp::UiIsVisible => seq![HostModel::Bool(s.visible)],
        HostOp::UiSetVisible => seq![],
        HostOp::SenseUnion => seq![
            HostModel::Sense(
                Sense {
                    click: args[0]->Sense_0.click || args[1]->Sense_0.click,
                    drag: args[0]->Sense_0.drag || args[1]->Sense_0.drag,
                    focusable: args[0]->Sense_0.focusable || args[1]->Sense_0.focusable,
                },
            ),
        ],
        HostOp::ColorFromRgba => seq![
            HostModel::Color(
                Color32 {
                    r: args[0]->Byte_0,
                    g: args[1]->Byte_0,
                    b: args[2]->Byte_0,
                    a: args[3]->Byte_0,
                },
            ),
        ],
    }
}

impl Bridge {
    /// A fresh bridge for one frame, over a validated wrapper table.
    pub fn new(ctx: Context, table: WrapperTable) -> (r: Bridge)
        requires
            crate::wrapper::wf_table(table@),
        ensures
            wf_bridge(&r),
            r.ctx == ctx,
            r.table@ == table@,
            surfaces_model(r.surfaces@) =~= Seq::<UiModel>::empty(),
            r.registry@ =~= Seq::<Slot>::empty(),
            r.relay@ =~= Map::<int, Seq<crate::value::ValModel>>::empty(),
            r.relay.size_spec() == 0,
            r.builders@.len() == 0,
    {
        Bridge {
            ctx,
            surfaces: Vec::new(),
            registry: HandleRegistry::new(),
            relay: RelayStore::new(),
            builders: Vec::new(),
            table,
        }
    }

    /// Runs one built-in operation on decoded, well-typed arguments.
    fn run_op(&mut self, op: HostOp, obj: usize, args: Vec<HostValue>) -> (rets: Vec<HostValue>)
        requires
            wf_bridge(old(self)),
            args@.len() == op_args(op).len(),
            forall|i: int|
                0 <= i < args@.len() ==> crate::codec::host_type_of(#[trigger] args@[i]@)
                    == op_args(op)[i],
            op_receiver(op) is Surface ==> obj < old(self).surfaces@.len(),
        ensures
            wf_bridge(final(self)),
            final(self).registry@ == old(self).registry@,
            final(self).relay@ == old(self).relay@,
            final(self).relay.size_spec() == old(self).relay.size_spec(),
            final(self).builders@ == old(self).builders@,
            final(self).table@ == old(self).table@,
            final(self).ctx == op_new_ctx(op, old(self).ctx),
            final(self).surfaces@.len() == old(self).surfaces@.len(),
            surfaces_model(final(self).surfaces@) =~= if op_receiver(op) is Surface {
                surfaces_model(old(self).surfaces@).update(
                    obj as int,
                    op_new_surface(
                        op,
                        surfaces_model(old(self).surfaces@)[obj as int],
                        args_model_of(args@),
                    ),
                )
            } else {
                surfaces_model(old(self).surfaces@)
            },
            rets@.len() == op_rets(op).len(),
            forall|i: int|
                0 <= i < rets@.len() ==> #[trigger] rets@[i]@ == op_result(
                    op,
                    old(self).ctx,
                    if op_receiver(op) is Surface {
                        surfaces_model(old(self).surfaces@)[obj as int]
                    } else {
                        arbitrary()
                    },
                    args_model_of(args@),
                )[i],
    {
        let mut a = args;
        match op {
            HostOp::RequestRepaint => {
                self.ctx.repaint_requested = true;
                Vec::new()
            },
            HostOp::IsUsingPointer => {
                let mut r: Vec<HostValue> = Vec::new();
                r.push(HostValue::Bool(self.ctx.using_pointer));
                r
            },
            HostOp::UiLabel => {
                proof {
                    assert(crate::codec::host_type_of(args@[0]@) == op_args(op)[0]);
                }
                let v0 = a.remove(0);
                let wt = take_widget_text(v0);
                let ghost before = surfaces_model(self.surfaces@);
                self.surfaces[obj].cmds.push(DrawCmd::Label(wt));
                proof {
                    assert(cmds_model(self.surfaces@[obj as int].cmds@) =~= before[obj as int].cmds.push(
                        DrawCmdModel::Label(args_model_of(args@)[0]->WidgetText_0),
                    ));
                    assert(surfaces_model(self.surfaces@) =~= before.update(
                        obj as int,
                        op_new_surface(op, before[obj as int], args_model_of(args@)),
                    ));
                }
                let mut r: Vec<HostValue> = Vec::new();
                r.push(HostValue::Response(Response::inert()));
                r
            },
            HostOp::UiIsEnabled => {
                let mut r: Vec<HostValue> = Vec::new();
                r.push(HostValue::Bool(self.surfaces[obj].enabled));
                proof {
                    assert(surfaces_model(self.surfaces@)[obj as int] == self.surfaces@[obj as int]@);
                }
                r
            },
            HostOp::UiSetEnabled => {
                proof {
                    assert(crate::codec::host_type_of(args@[0]@) == op_args(op)[0]);
                }
                let v0 = a.remove(0);
                let v = take_bool(v0);
                let ghost before = surfaces_model(self.surfaces@);
                let cur = self.surfaces[obj].enabled;
                self.surfaces[obj].enabled = cur && v;
                proof {
                    assert(surfaces_model(self.surfaces@) =~= before.update(
                        obj as int,
                        op_new_surface(op, before[obj as int], args_model_of(args@)),
                    ));
                }
                Vec::new()
            },
            HostOp::UiIsVisible => {
                let mut r: Vec<HostValue> = Vec::new();
                r.push(HostValue::Bool(self.surfaces[obj].visible));
                proof {
                    assert(surfaces_model(self.surfaces@)[obj as int] == self.surfaces@[obj as int]@);
                }
                r
            },
            HostOp::UiSetVisible => {
                proof {
                    assert(crate::codec::host_type_of(args@[0]@) == op_args(op)[0]);
                }
                let v0 = a.remove(0);
                let v = take_bool(v0);
                let ghost before = surfaces_model(self.surfaces@);
                self.surfaces[obj].visible = v;
                proof {
                    assert(surfaces_model(self.surfaces@) =~= before.update(
                        obj as int,
                        op_new_surface(op, before[obj as int], args_model_of(args@)),
                    ));
                }
                Vec::new()
            },
            HostOp::SenseUnion => {
                proof {
                    assert(crate::codec::host_type_of(args@[0]@) == op_args(op)[0]);
                    assert(crate::codec::host_type_of(args@[1]@) == op_args(op)[1]);
                }
                let v0 = a.remove(0);
                proof {
                    assert(a@ =~= args@.skip(1));
                    assert(a@[0] == args@[1]);
                }
                let v1 = a.remove(0);
                let x = take_sense(v0);
                let y = take_sense(v1);
                let mut r: Vec<HostValue> = Vec::new();
                r.push(HostValue::Sense(x.union(y)));
                r
            },
            HostOp::ColorFromRgba => {
                proof {
                    assert(crate::codec::host_type_of(args@[0]@) == op_args(op)[0]);
                    assert(crate::codec::host_type_of(args@[1]@) == op_args(op)[1]);
                    assert(crate::codec::host_type_of(args@[2]@) == op_args(op)[2]);
                    assert(crate::codec::host_type_of(args@[3]@) == op_args(op)[3]);
                }
                let v0 = a.remove(0);
                proof {
                    assert(a@ =~= args@.skip(1));
                    assert(a@[0] == args@[1]);
                }
                let v1 = a.remove(0);
                proof {
                    assert(a@ =~= args@.skip(2));
                    assert(a@[0] == args@[2]);
                }
                let v2 = a.remove(0);
                proof {
                    assert(a@ =~= args@.skip(3));
                    assert(a@[0] == args@[3]);
                }
                let v3 = a.remove(0);
                let cr = take_byte(v0);
                let cg = take_byte(v1);
                let cb = take_byte(v2);
                let ca = take_byte(v3);
                let mut r: Vec<HostValue> = Vec::new();
                r.push(HostValue::Color(Color32 { r: cr, g: cg, b: cb, a: ca }));
                r
            },
        }
    }
}

/// Executable twin of [`op_receiver`].
fn receiver_of(op: HostOp) -> (r: Receiver)
    ensures
        r == op_receiver(op),
{
    match op {
        HostOp::RequestRepaint => Receiver::Context,
        HostOp::IsUsingPointer => Receiver::Context,
        HostOp::UiLabel => Receiver::Surface,
        HostOp::UiIsEnabled => Receiver::Surface,
        HostOp::UiSetEnabled => Receiver::Surface,
        HostOp::UiIsVisible => Receiver::Surface,
        HostOp::UiSetVisible => Receiver::Surface,
        HostOp::SenseUnion => Receiver::Free,
        HostOp::ColorFromRgba => Receiver::Free,
    }
}

/// Executable twin of [`op_mutates`].
fn mutates_of(op: HostOp) -> (r: bool)
    ensures
        r == op_mutates(op),
{
    match op {
        HostOp::RequestRepaint => true,
        HostOp::IsUsingPointer => false,
        HostOp::UiLabel => true,
        HostOp::UiIsEnabled => false,
        HostOp::UiSetEnabled => true,
        HostOp::UiIsVisible => false,
        HostOp::UiSetVisible => true,
        HostOp::SenseUnion => false,
        HostOp::ColorFromRgba => false,
    }
}

impl Bridge {
    /// The shared dispatcher: one generated wrapper's whole call path.
    ///
    /// Decodes each argument per the registered descriptor, runs the host
    /// operation on its receiver, and encodes the results in order. The call
    /// succeeds exactly when the wrapper exists, the receiver fits — one
    /// live handle for a surface operation, writable where the operation
    /// mutates — and every argument decodes; any failure surfaces as a
    /// catchable error and leaves the bridge untouched.
    pub fn dispatch(&mut self, idx: usize, recv: Option<Handle>, raw: &Vec<ScriptValue>) -> (r:
        Result<Vec<ScriptValue>, BridgeError>)
        requires
            wf_bridge(old(self)),
        ensures
            wf_bridge(final(self)),
            final(self).registry@ == old(self).registry@,
            final(self).relay@ == old(self).relay@,
            final(self).relay.size_spec() == old(self).relay.size_spec(),
            final(self).builders@ == old(self).builders@,
            final(self).table@ == old(self).table@,
            final(self).surfaces@.len() == old(self).surfaces@.len(),
            r is Ok <==> ({
                &&& idx < old(self).table@.len()
                &&& recv_ok(old(self).registry@, old(self).table@[idx as int].op, recv)
                &&& decode_all(
                    op_args(old(self).table@[idx as int].op),
                    crate::relay::vals_model(raw@),
                ) is Some
            }),
            r is Err ==> *final(self) == *old(self),
            match r {
                Ok(vs) => ({
                    let op = old(self).table@[idx as int].op;
                    let argsm = decode_all(op_args(op), crate::relay::vals_model(raw@))->0;
                    let surf = if op_receiver(op) is Surface {
                        surfaces_model(old(self).surfaces@)[obj_of(
                            old(self).registry@,
                            recv->0,
                        ) as int]
                    } else {
                        arbitrary()
                    };
                    &&& final(self).ctx == op_new_ctx(op, old(self).ctx)
                    &&& surfaces_model(final(self).surfaces@) == if op_receiver(op) is Surface {
                        surfaces_model(old(self).surfaces@).update(
                            obj_of(old(self).registry@, recv->0) as int,
                            op_new_surface(op, surf, argsm),
                        )
                    } else {
                        surfaces_model(old(self).surfaces@)
                    }
                    &&& vs@.len() == op_rets(op).len()
                    &&& forall|i: int|
                        0 <= i < vs@.len() ==> encodes(
                            op_result(op, old(self).ctx, surf, argsm)[i],
                            #[trigger] vs@[i]@,
                        )
                }),
                Err(e) => ({
                    let valid_idx = idx < old(self).table@.len();
                    let op = old(self).table@[idx as int].op;
                    &&& (e is UnknownDescriptor || e is ScopeViolation || e is ImmutableHandle
                        || e is BadOperand || e matches BridgeError::Arity { .. }
                        || e matches BridgeError::Conversion { .. })
                    &&& (e == BridgeError::UnknownDescriptor <==> !valid_idx)
                    &&& (e == BridgeError::ScopeViolation <==> valid_idx && op_receiver(
                        op,
                    ) is Surface && recv is Some && !resolves(old(self).registry@, recv->0))
                    &&& (e == BridgeError::ImmutableHandle <==> valid_idx && op_receiver(
                        op,
                    ) is Surface && recv is Some && resolves(old(self).registry@, recv->0)
                        && op_mutates(op) && !old(self).registry@[recv->0.index as int].writable)
                    &&& (e == BridgeError::BadOperand <==> valid_idx && ((op_receiver(
                        op,
                    ) is Surface && recv is None) || (!(op_receiver(op) is Surface)
                        && recv is Some)))
                    &&& (e matches BridgeError::Arity { expected, got } ==> valid_idx && recv_ok(
                        old(self).registry@,
                        op,
                        recv,
                    ) && expected == op_args(op).len() && got == raw@.len() && raw@.len()
                        != op_args(op).len())
                    &&& (e matches BridgeError::Conversion { err, position } ==> valid_idx
                        && recv_ok(old(self).registry@, op, recv) && raw@.len() == op_args(
                        op,
                    ).len() && position < raw@.len() && decode_spec(
                        op_args(op)[position as int],
                        raw@[position as int]@,
                    ) is None && err.from == raw@[position as int]@.kind() && err.to == op_args(
                        op,
                    )[position as int])
                }),
            },
    {
        if idx >= self.table.entries.len() {
            return Err(BridgeError::UnknownDescriptor);
        }
        let op = self.table.entries[idx].op;
        proof {
            assert(self.table@[idx as int] == self.table.entries@[idx as int]@);
            assert(crate::wrapper::valid_entry(
                self.table@[idx as int].desc,
                self.table@[idx as int].op,
            ));
        }
        let cls = receiver_of(op);
        let obj: usize = match cls {
            Receiver::Surface => {
                match recv {
                    Some(h) => {
                        match self.registry.resolve(h) {
                            Ok((o, writable)) => {
                                if mutates_of(op) && !writable {
                                    return Err(BridgeError::ImmutableHandle);
                                }
                                o
                            },
                            Err(e) => {
                                return Err(e);
                            },
                        }
                    },
                    None => {
                        return Err(BridgeError::BadOperand);
                    },
                }
            },
            _ => {
                if recv.is_some() {
                    return Err(BridgeError::BadOperand);
                }
                0
            },
        };
        let hv = match crate::wrapper::decode_args(&self.table.entries[idx].desc, raw) {
            Ok(hv) => hv,
            Err(e) => {
                proof {
                    let desc = self.table@[idx as int].desc;
                    let ts = op_args(op);
                    let vsm = crate::relay::vals_model(raw@);
                    assert(ts.len() == desc.args.len());
                    match e {
                        BridgeError::Arity { expected, got } => {
                            assert(vsm.len() == raw@.len());
                            assert(decode_all(ts, vsm) is None);
                        },
                        BridgeError::Conversion { err, position } => {
                            assert(crate::wrapper::type_of_name(
                                desc.args[position as int].outer_type,
                            ) == Some(ts[position as int]));
                            assert(decode_spec(ts[position as int], vsm[position as int]) is None);
                            lemma_decode_all_fails(ts, vsm, position as int);
                        },
                        _ => {
                            assert(false);
                        },
                    }
                }
                return Err(e);
            },
        };
        proof {
            let desc = self.table@[idx as int].desc;
            let ts = op_args(op);
            let vsm = crate::relay::vals_model(raw@);
            let hs = args_model_of(hv@);
            assert(hs.len() == vsm.len());
            assert forall|i: int| 0 <= i < vsm.len() implies decode_spec(ts[i], vsm[i]) == Some(
                #[trigger] hs[i],
            ) by {
                assert(crate::wrapper::type_of_name(desc.args[i].outer_type) == Some(ts[i]));
                assert(decode_spec(
                    crate::wrapper::type_of_name(desc.args[i].outer_type)->0,
                    raw@[i]@,
                ) == Some(hv@[i]@));
            }
            lemma_decode_all(ts, vsm, hs);
            assert forall|i: int| 0 <= i < hs.len() implies crate::codec::host_type_of(
                #[trigger] hv@[i]@,
            ) == ts[i] by {
                lemma_decode_type(ts[i], vsm[i], hs[i]);
            }
            if op_receiver(op) is Surface {
                assert(obj < self.surfaces@.len());
            }
        }
        let rets = self.run_op(op, obj, hv);
        let vs = crate::wrapper::encode_rets(rets);
        Ok(vs)
    }
}

/// A failed pointwise decode fails the whole-list decode.
proof fn lemma_decode_all_fails(ts: Seq<ScriptType>, vs: Seq<ValModel>, p: int)
    requires
        ts.len() == vs.len(),
        0 <= p < ts.len(),
        decode_spec(ts[p], vs[p]) is None,
    ensures
        decode_all(ts, vs) is None,
    decreases ts.len(),
{
    if p < ts.len() - 1 {
        lemma_decode_all_fails(ts.drop_last(), vs.drop_last(), p);
    }
}

/// The widget text a decoded value holds.
fn take_widget_text(v: HostValue) -> (r: crate::host::WidgetText)
    requires
        crate::codec::host_type_of(v@) == ScriptType::WidgetText,
    ensures
        v@ == HostModel::WidgetText(r@),
{
    match v {
        HostValue::WidgetText(w) => w,
        _ => {
            proof {
                assert(false);
            }
            crate::host::WidgetText::Plain(String::new())
        },
    }
}

/// The boolean a decoded value holds.
fn take_bool(v: HostValue) -> (r: bool)
    requires
        crate::codec::host_type_of(v@) == ScriptType::Bool,
    ensures
        v@ == HostModel::Bool(r),
{
    match v {
        HostValue::Bool(b) => b,
        _ => {
            proof {
                assert(false);
            }
            false
        },
    }
}

/// The sense a decoded value holds.
fn take_sense(v: HostValue) -> (r: Sense)
    requires
        crate::codec::host_type_of(v@) == ScriptType::Sense,
    ensures
        v@ == HostModel::Sense(r),
{
    match v {
        HostValue::Sense(s) => s,
        _ => {
            proof {
                assert(false);
            }
            Sense { click: false, drag: false, focusable: false }
        },
    }
}

/// The byte a decoded value holds.
fn take_byte(v: HostValue) -> (r: u8)
    requires
        crate::codec::host_type_of(v@) == ScriptType::Byte,
    ensures
        v@ == HostModel::Byte(r),
{
    match v {
        HostValue::Byte(b) => b,
        _ => {
            proof {
                assert(false);
            }
            0
        },
    }
}

/// The models of a decoded argument list, in order.
pub open spec fn args_model_of(s: Seq<HostValue>) -> Seq<HostModel> {
    s.map_values(|h: HostValue| h@)
}

/// The operations of the standard binding table, in registration order.
pub open spec fn standard_ops() -> Seq<HostOp> {
    seq![
        HostOp::RequestRepaint,
        HostOp::IsUsingPointer,
        HostOp::UiLabel,
        HostOp::UiIsEnabled,
        HostOp::UiSetEnabled,
        HostOp::UiIsVisible,
        HostOp::UiSetVisible,
        HostOp::SenseUnion,
        HostOp::ColorFromRgba,
    ]
}

/// An argument or return descriptor under the default conversion.
fn arg_of(name: &str) -> (a: crate::descriptor::Arg)
    ensures
        a@.outer_type == name@,
        a@.converter == crate::descriptor::Converter::Into,
{
    crate::descriptor::Arg {
        outer_type: name.to_owned(),
        converter: crate::descriptor::Converter::Into,
    }
}

/// An empty descriptor list.
fn args0() -> (v: Vec<crate::descriptor::Arg>)
    ensures
        crate::descriptor::args_model(v@) =~= Seq::<crate::descriptor::ArgModel>::empty(),
{
    let v: Vec<crate::descriptor::Arg> = Vec::new();
    proof {
        assert(crate::descriptor::args_model(v@) =~= Seq::<crate::descriptor::ArgModel>::empty());
    }
    v
}

/// A one-entry descriptor list under the default conversion.
fn args1(n: &str) -> (v: Vec<crate::descriptor::Arg>)
    ensures
        crate::descriptor::args_model(v@).len() == 1,
        crate::descriptor::args_model(v@)[0].outer_type == n@,
        crate::descriptor::args_model(v@)[0].converter == crate::descriptor::Converter::Into,
{
    let mut v: Vec<crate::descriptor::Arg> = Vec::new();
    v.push(arg_of(n));
    proof {
        assert(crate::descriptor::args_model(v@)[0] == v@[0]@);
    }
    v
}

/// A two-entry descriptor list under the default conversion.
fn args2(n0: &str, n1: &str) -> (v: Vec<crate::descriptor::Arg>)
    ensures
        crate::descriptor::args_model(v@).len() == 2,
        crate::descriptor::args_model(v@)[0].outer_type == n0@,
        crate::descriptor::args_model(v@)[1].outer_type == n1@,
        forall|i: int|
            0 <= i < 2 ==> (#[trigger] crate::descriptor::args_model(v@)[i]).converter
                == crate::descriptor::Converter::Into,
{
    let mut v: Vec<crate::descriptor::Arg> = Vec::new();
    v.push(arg_of(n0));
    v.push(arg_of(n1));
    proof {
        assert(crate::descriptor::args_model(v@)[0] == v@[0]@);
        assert(crate::descriptor::args_model(v@)[1] == v@[1]@);
    }
    v
}

/// A four-entry descriptor list, one name, default conversion.
fn args4(n: &str) -> (v: Vec<crate::descriptor::Arg>)
    ensures
        crate::descriptor::args_model(v@).len() == 4,
        forall|i: int|
            0 <= i < 4 ==> (#[trigger] crate::descriptor::args_model(v@)[i]).outer_type == n@,
        forall|i: int|
            0 <= i < 4 ==> (#[trigger] crate::descriptor::args_model(v@)[i]).converter
                == crate::descriptor::Converter::Into,
{
    let mut v: Vec<crate::descriptor::Arg> = Vec::new();
    v.push(arg_of(n));
    v.push(arg_of(n));
    v.push(arg_of(n));
    v.push(arg_of(n));
    proof {
        assert(crate::descriptor::args_model(v@)[0] == v@[0]@);
        assert(crate::descriptor::args_model(v@)[1] == v@[1]@);
        assert(crate::descriptor::args_model(v@)[2] == v@[2]@);
        assert(crate::descriptor::args_model(v@)[3] == v@[3]@);
    }
    v
}

/// A descriptor built from its parts.
fn desc_of(
    kind: crate::descriptor::LuaImplType,
    name: &str,
    args: Vec<crate::descriptor::Arg>,
    rets: Vec<crate::descriptor::Arg>,
) -> (d: crate::descriptor::InputTokens)
    ensures
        d@.lua_impl_type == kind,
        d@.fn_name == name@,
        d@.args == crate::descriptor::args_model(args@),
        d@.rets == crate::descriptor::args_model(rets@),
        !d@.last,
{
    crate::descriptor::InputTokens {
        lua_impl_type: kind,
        fn_name: name.to_owned(),
        args,
        rets,
        last: false,
    }
}

/// Installs a wrapper whose descriptor is known faithful; the registration
/// check cannot fail on it.
fn must_register(t: &mut WrapperTable, d: crate::descriptor::InputTokens, op: HostOp)
    requires
        crate::wrapper::valid_entry(d@, op),
    ensures
        final(t)@ =~= old(t)@.push(crate::wrapper::WrapperEntryModel { desc: d@, op }),
{
    let ghost dm = d@;
    match crate::wrapper::wrap_method(t, d, op) {
        Ok(_) => (),
        Err(_) => {
            proof {
                assert(false);
            }
        },
    }
}

/// Registers the standard bindings: every exposed operation, each behind a
/// validated descriptor, in the order of [`standard_ops`]. The descriptors
/// are faithful by construction, so registration always succeeds.
pub fn register_egui_bindings() -> (r: WrapperTable)
    ensures
        crate::wrapper::wf_table(r@),
        r@.len() == standard_ops().len(),
        forall|i: int| 0 <= i < r@.len() ==> (#[trigger] r@[i].op) == standard_ops()[i],
{
    proof {
        crate::wrapper::lemma_standard_type_names();
    }
    let mut t = WrapperTable::new();

    let d = desc_of(crate::descriptor::LuaImplType::MethodMut, "request_repaint", args0(), args0());
    proof {
        assert(crate::wrapper::valid_entry(d@, HostOp::RequestRepaint));
    }
    must_register(&mut t, d, HostOp::RequestRepaint);

    let d = desc_of(crate::descriptor::LuaImplType::MethodRef, "is_using_pointer", args0(), args1("bool"));
    proof {
        assert(crate::wrapper::valid_entry(d@, HostOp::IsUsingPointer));
    }
    must_register(&mut t, d, HostOp::IsUsingPointer);

    let d = desc_of(crate::descriptor::LuaImplType::MethodMut, "label", args1("widget_text"), args1("response"));
    proof {
        assert(crate::wrapper::valid_entry(d@, HostOp::UiLabel));
    }
    must_register(&mut t, d, HostOp::UiLabel);

    let d = desc_of(crate::descriptor::LuaImplType::MethodRef, "is_enabled", args0(), args1("bool"));
    proof {
        assert(crate::wrapper::valid_entry(d@, HostOp::UiIsEnabled));
    }
    must_register(&mut t, d, HostOp::UiIsEnabled);

    let d = desc_of(crate::descriptor::LuaImplType::MethodMut, "set_enabled", args1("bool"), args0());
    proof {
        assert(crate::wrapper::valid_entry(d@, HostOp::UiSetEnabled));
    }
    must_register(&mut t, d, HostOp::UiSetEnabled);

    let d = desc_of(crate::descriptor::LuaImplType::MethodRef, "is_visible", args0(), args1("bool"));
    proof {
        assert(crate::wrapper::valid_entry(d@, HostOp::UiIsVisible));
    }
    must_register(&mut t, d, HostOp::UiIsVisible);

    let d = desc_of(crate::descriptor::LuaImplType::MethodMut, "set_visible", args1("bool"), args0());
    proof {
        assert(crate::wrapper::valid_entry(d@, HostOp::UiSetVisible));
    }
    must_register(&mut t, d, HostOp::UiSetVisible);

    let d = desc_of(crate::descriptor::LuaImplType::Function, "union", args2("sense", "sense"), args1("sense"));
    proof {
        assert(crate::wrapper::valid_entry(d@, HostOp::SenseUnion));
    }
    must_register(&mut t, d, HostOp::SenseUnion);

    let d = desc_of(
        crate::descriptor::LuaImplType::Function,
        "from_rgba_premultiplied",
        args4("byte"),
        args1("color"),
    );
    proof {
        assert(crate::wrapper::valid_entry(d@, HostOp::ColorFromRgba));
    }
    must_register(&mut t, d, HostOp::ColorFromRgba);

    t
}


} // verus!
