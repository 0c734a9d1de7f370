//! The container show protocol and the callback driver.
//!
//! A callback is data: the sequence of bridge requests a script makes while
//! its scope is open, nested shows included. Driving it through the bridge
//! is what the protocol guarantees are about:
//!
//! - teardown is unconditional: whatever the callback did, and whether it
//!   returned or failed, every handle opened during the call is revoked by
//!   the time the call returns — exactly the handles live before the call
//!   still resolve after it;
//! - the relay is balanced: every store is fetched and deleted in the same
//!   call chain, so the store's contents and size return to their baseline;
//! - a closed container never runs its callback: its result is exactly the
//!   false visibility flag, and the bridge is untouched but for the spent
//!   builder.

use vstd::prelude::*;

use crate::bridge::{surfaces_model, wf_bridge, Bridge};
use crate::builder::{BuilderState, WindowBuilder, WindowBuilderModel};
use crate::codec::{decode, encode, HostValue, ScriptType};
use crate::error::BridgeError;
use crate::host::{Response, Ui};
use crate::registry::{lemma_monotone_trans, monotone, resolves, Slot};
use crate::value::{ScriptValue, ValModel};
use crate::Handle;

verus! {

/// One value position in a callback: a literal, the scope's own handle, or
/// the i-th value computed earlier in the same callback.
#[derive(Debug)]
pub enum Operand {
    Lit(ScriptValue),
    CurrentHandle,
    Computed(usize),
}

/// One bridge request a callback makes.
#[derive(Debug)]
pub enum ScriptOp {
    /// Call a registered wrapper; surface operations name their receiver.
    Invoke { desc: usize, recv: Option<Operand>, args: Vec<Operand> },
    /// Open a fresh window builder; builders number in creation order.
    WindowNew { title: Operand },
    WindowSetOpen { win: usize, v: bool },
    WindowSetCollapsed { win: usize, v: bool },
    /// The terminal show, with the nested callback it runs.
    WindowShow { win: usize, body: CallbackScript },
    /// Raise a script error.
    Fail,
}

/// What a callback does and what it returns.
#[derive(Debug)]
pub struct CallbackScript {
    pub ops: Vec<ScriptOp>,
    pub ret: Vec<Operand>,
}

/// The models of a window-builder list, in order.
pub open spec fn builders_model(s: Seq<WindowBuilder>) -> Seq<WindowBuilderModel> {
    s.map_values(|b: WindowBuilder| b@)
}

/// Registry facts every protocol step preserves: exactly the handles live
/// before still resolve, to unchanged slots, and generations never move
/// backwards.
pub open spec fn registry_preserved(a: Seq<Slot>, b: Seq<Slot>) -> bool {
    &&& monotone(a, b)
    &&& forall|g: Handle| resolves(b, g) <==> resolves(a, g)
    &&& forall|g: Handle| resolves(a, g) ==> b[g.index as int] == a[g.index as int]
}

/// Registry preservation composes.
pub proof fn lemma_preserved_trans(a: Seq<Slot>, b: Seq<Slot>, c: Seq<Slot>)
    requires
        registry_preserved(a, b),
        registry_preserved(b, c),
    ensures
        registry_preserved(a, c),
{
    lemma_monotone_trans(a, b, c);
}

/// A builder once spent stays spent, and builders are only ever added.
pub open spec fn shown_stays(a: Seq<WindowBuilderModel>, b: Seq<WindowBuilderModel>) -> bool {
    &&& a.len() <= b.len()
    &&& forall|j: int|
        0 <= j < a.len() && (#[trigger] a[j]).state == BuilderState::Shown ==> b[j].state
            == BuilderState::Shown
}

/// The observable bridge state, unchanged.
pub open spec fn bridge_same(a: &Bridge, b: &Bridge) -> bool {
    &&& b.ctx == a.ctx
    &&& surfaces_model(b.surfaces@) == surfaces_model(a.surfaces@)
    &&& b.registry@ == a.registry@
    &&& b.relay@ == a.relay@
    &&& b.relay.size_spec() == a.relay.size_spec()
    &&& builders_model(b.builders@) == builders_model(a.builders@)
    &&& b.table@ == a.table@
}

/// What every protocol entry point preserves.
pub open spec fn protocol_frame(a: &Bridge, b: &Bridge) -> bool {
    &&& wf_bridge(b)
    &&& b.table@ == a.table@
    &&& b.relay@ == a.relay@
    &&& b.relay.size_spec() == a.relay.size_spec()
    &&& registry_preserved(a.registry@, b.registry@)
    &&& shown_stays(builders_model(a.builders@), builders_model(b.builders@))
    &&& b.surfaces@.len() >= a.surfaces@.len()
}

/// The models of literal operands, in order; positions holding anything
/// else are unconstrained.
pub open spec fn lit_args_model(args: Seq<Operand>) -> Seq<ValModel> {
    args.map_values(
        |o: Operand|
            match o {
                Operand::Lit(l) => crate::value::val_model(l),
                _ => arbitrary(),
            },
    )
}

/// A callback whose success is decided by its text alone: every request is a
/// wrapper invocation on the scope's own handle (or none, for a free or
/// context operation), every argument is a literal, and every literal
/// decodes at the wrapper's declared types. Such a callback cannot fail.
pub open spec fn invokes_clean(
    tbl: Seq<crate::wrapper::WrapperEntryModel>,
    ops: Seq<ScriptOp>,
) -> bool {
    forall|j: int|
        0 <= j < ops.len() ==> ((#[trigger] ops[j]) matches ScriptOp::Invoke { desc, recv, args }
            && {
            &&& desc < tbl.len()
            &&& if crate::wrapper::op_receiver(tbl[desc as int].op) is Surface {
                recv matches Some(Operand::CurrentHandle)
            } else {
                recv is None
            }
            &&& forall|k: int| 0 <= k < args@.len() ==> (#[trigger] args@[k]) is Lit
            &&& crate::bridge::decode_all(
                crate::wrapper::op_args(tbl[desc as int].op),
                lit_args_model(args@),
            ) is Some
        })
}

/// A callback run that cannot fail: the scope handle is live and writable,
/// every request is a clean invocation, and the returns name no computed
/// position.
pub open spec fn clean_run(pre: &Bridge, s: &CallbackScript, cur: Handle) -> bool {
    &&& resolves(pre.registry@, cur)
    &&& pre.registry@[cur.index as int].writable
    &&& invokes_clean(pre.table@, s.ops@)
    &&& forall|i: int| 0 <= i < s.ret@.len() ==> !((#[trigger] s.ret@[i]) is Computed)
}

/// Instantiates [`invokes_clean`] at one request.
proof fn lemma_clean_at(tbl: Seq<crate::wrapper::WrapperEntryModel>, ops: Seq<ScriptOp>, j: int)
    requires
        invokes_clean(tbl, ops),
        0 <= j < ops.len(),
    ensures
        ops[j] matches ScriptOp::Invoke { desc, recv, args } && {
            &&& desc < tbl.len()
            &&& if crate::wrapper::op_receiver(tbl[desc as int].op) is Surface {
                recv matches Some(Operand::CurrentHandle)
            } else {
                recv is None
            }
            &&& forall|k: int| 0 <= k < args@.len() ==> (#[trigger] args@[k]) is Lit
            &&& crate::bridge::decode_all(
                crate::wrapper::op_args(tbl[desc as int].op),
                lit_args_model(args@),
            ) is Some
        },
{
}

/// Evaluates one operand against the values computed so far.
fn eval_operand(values: &Vec<ScriptValue>, cur: Handle, o: &Operand) -> (r: Result<
    ScriptValue,
    BridgeError,
>)
    ensures
        match r {
            Ok(v) => match o {
                Operand::Lit(l) => v@ == l@,
                Operand::CurrentHandle => v@ == ValModel::Handle(cur),
                Operand::Computed(i) => *i < values@.len() && v@ == values@[*i as int]@,
            },
            Err(e) => e == BridgeError::BadOperand && (o matches Operand::Computed(i) && *i
                >= values@.len()),
        },
{
    match o {
        Operand::Lit(l) => Ok(l.deep_copy()),
        Operand::CurrentHandle => Ok(ScriptValue::Handle(cur)),
        Operand::Computed(i) => {
            if *i < values.len() {
                Ok(values[*i].deep_copy())
            } else {
                Err(BridgeError::BadOperand)
            }
        },
    }
}

/// What an evaluated operand must read as, where its value does not depend
/// on the callback's intermediate computations.
pub open spec fn operand_pinned(o: Operand, cur: Handle, v: ValModel) -> bool {
    match o {
        Operand::Lit(l) => v == crate::value::val_model(l),
        Operand::CurrentHandle => v == ValModel::Handle(cur),
        Operand::Computed(_) => true,
    }
}

/// Evaluates an operand list in order.
fn eval_operands(values: &Vec<ScriptValue>, cur: Handle, os: &Vec<Operand>) -> (r: Result<
    Vec<ScriptValue>,
    BridgeError,
>)
    ensures
        r is Ok ==> r->Ok_0@.len() == os@.len(),
        r is Ok ==> forall|i: int|
            0 <= i < os@.len() ==> operand_pinned(os@[i], cur, #[trigger] r->Ok_0@[i]@),
        r is Err ==> exists|i: int| 0 <= i < os@.len() && (#[trigger] os@[i]) is Computed,
        r is Err ==> r->Err_0 == BridgeError::BadOperand,
{
    let mut out: Vec<ScriptValue> = Vec::new();
    let n = os.len();
    let mut i: usize = 0;
    while i < n
        invariant
            n == os@.len(),
            i <= n,
            out@.len() == i,
            forall|j: int| 0 <= j < i ==> operand_pinned(os@[j], cur, #[trigger] out@[j]@),
        decreases n - i,
    {
        match eval_operand(values, cur, &os[i]) {
            Ok(v) => {
                out.push(v);
            },
            Err(e) => {
                return Err(e);
            },
        }
        i += 1;
    }
    Ok(out)
}

impl Bridge {
    /// Opens a fresh window builder over decoded widget text and returns its
    /// number.
    pub fn window_new(&mut self, title: &ScriptValue) -> (r: Result<usize, BridgeError>)
        requires
            wf_bridge(old(self)),
        ensures
            protocol_frame(old(self), final(self)),
            final(self).registry@ == old(self).registry@,
            final(self).surfaces@ == old(self).surfaces@,
            final(self).ctx == old(self).ctx,
            match r {
                Ok(w) => {
                    &&& crate::codec::decode_spec(ScriptType::WidgetText, title@) is Some
                    &&& w == old(self).builders@.len()
                    &&& builders_model(final(self).builders@) =~= builders_model(
                        old(self).builders@,
                    ).push(builders_model(final(self).builders@).last())
                    &&& builders_model(final(self).builders@).last().state
                        == BuilderState::Configuring
                    &&& builders_model(final(self).builders@).last().config.open
                    &&& !builders_model(final(self).builders@).last().config.collapsed
                },
                Err(e) => {
                    &&& crate::codec::decode_spec(ScriptType::WidgetText, title@) is None
                    &&& bridge_same(old(self), final(self))
                    &&& e matches BridgeError::Conversion { err, position: 0usize }
                },
            },
    {
        let wt = match decode(ScriptType::WidgetText, title) {
            Ok(HostValue::WidgetText(w)) => w,
            Ok(_) => {
                proof {
                    crate::bridge::lemma_decode_type(
                        ScriptType::WidgetText,
                        title@,
                        crate::codec::decode_spec(ScriptType::WidgetText, title@)->0,
                    );
                    assert(false);
                }
                return Err(BridgeError::BadOperand);
            },
            Err(e) => {
                return Err(BridgeError::Conversion { err: e, position: 0 });
            },
        };
        let w = self.builders.len();
        self.builders.push(WindowBuilder::new(wt));
        proof {
            let bm = builders_model(self.builders@);
            let old_bm = builders_model(old(self).builders@);
            assert(bm =~= old_bm.push(self.builders@.last()@));
        }
        Ok(w)
    }

    /// Runs one callback against the bridge: its requests in order, then its
    /// return values. Fails on the first failing request; the protocol
    /// invariants hold either way.
    pub fn run_script(&mut self, s: &CallbackScript, cur: Handle) -> (r: Result<
        Vec<ScriptValue>,
        BridgeError,
    >)
        requires
            wf_bridge(old(self)),
        ensures
            protocol_frame(old(self), final(self)),
            r is Ok ==> r->Ok_0@.len() == s.ret@.len(),
            r is Ok ==> forall|i: int|
                0 <= i < s.ret@.len() ==> operand_pinned(s.ret@[i], cur, #[trigger] r->Ok_0@[i]@),
            s.ops@.len() == 0 && (forall|i: int|
                0 <= i < s.ret@.len() ==> !((#[trigger] s.ret@[i]) is Computed)) ==> r is Ok,
            s.ops@.len() > 0 && s.ops@[0] is Fail ==> r == Err::<Vec<ScriptValue>, _>(
                BridgeError::Raised,
            ),
            clean_run(old(self), s, cur) ==> r is Ok,
            r is Err ==> !(r->Err_0 is RelayLeak),
        decreases *s, 0nat,
    {
        let mut values: Vec<ScriptValue> = Vec::new();
        let n = s.ops.len();
        let mut i: usize = 0;
        while i < n
            invariant
                wf_bridge(self),
                n == s.ops@.len(),
                i <= n,
                protocol_frame(old(self), self),
                forall|j: int| 0 <= j < i ==> !((#[trigger] s.ops@[j]) is Fail),
                decreases_to!(*s => s.ops@),
            decreases n - i,
        {
            let ghost pre = &*self;
            let ghost pre_reg = self.registry@;
            let ghost pre_bm = builders_model(self.builders@);
            proof {
                if clean_run(old(self), s, cur) {
                    lemma_clean_at(old(self).table@, s.ops@, i as int);
                }
            }
            match &s.ops[i] {
                ScriptOp::Invoke { desc, recv, args } => {
                    let recvh: Option<Handle> = match recv {
                        Some(o) => match eval_operand(&values, cur, o) {
                            Ok(ScriptValue::Handle(h)) => Some(h),
                            Ok(_) => {
                                proof {
                                    if clean_run(old(self), s, cur) {
                                        assert(false);
                                    }
                                }
                                return Err(BridgeError::BadOperand);
                            },
                            Err(e) => {
                                proof {
                                    if clean_run(old(self), s, cur) {
                                        assert(false);
                                    }
                                }
                                return Err(e);
                            },
                        },
                        None => None,
                    };
                    let raws = match eval_operands(&values, cur, args) {
                        Ok(vs) => vs,
                        Err(e) => {
                            proof {
                                if clean_run(old(self), s, cur) {
                                    assert(false);
                                }
                            }
                            return Err(e);
                        },
                    };
                    proof {
                        if clean_run(old(self), s, cur) {
                            assert forall|k: int| 0 <= k < args@.len() implies #[trigger] crate::relay::vals_model(
                                raws@,
                            )[k] == lit_args_model(args@)[k] by {
                                assert(args@[k] is Lit);
                                assert(operand_pinned(args@[k], cur, raws@[k]@));
                                assert(crate::relay::vals_model(raws@)[k] == raws@[k]@);
                            }
                            assert(crate::relay::vals_model(raws@) =~= lit_args_model(args@));
                            let op = old(self).table@[*desc as int].op;
                            if crate::wrapper::op_receiver(op) is Surface {
                                assert(recvh == Some(cur));
                                assert(resolves(self.registry@, cur));
                                assert(self.registry@[cur.index as int] == old(
                                    self,
                                ).registry@[cur.index as int]);
                            }
                            assert(crate::bridge::recv_ok(self.registry@, op, recvh));
                        }
                    }
                    match self.dispatch(*desc, recvh, &raws) {
                        Ok(mut vs) => {
                            values.append(&mut vs);
                        },
                        Err(e) => {
                            proof {
                                if clean_run(old(self), s, cur) {
                                    assert(false);
                                }
                            }
                            return Err(e);
                        },
                    }
                },
                ScriptOp::WindowNew { title } => {
                    let tv = match eval_operand(&values, cur, title) {
                        Ok(v) => v,
                        Err(e) => {
                            return Err(e);
                        },
                    };
                    let wres = self.window_new(&tv);
                    proof {
                        lemma_preserved_trans(old(self).registry@, pre_reg, self.registry@);
                    }
                    match wres {
                        Ok(_) => (),
                        Err(e) => {
                            return Err(e);
                        },
                    }
                },
                ScriptOp::WindowSetOpen { win, v } => {
                    if *win >= self.builders.len() {
                        return Err(BridgeError::UnknownBuilder);
                    }
                    let sres = self.builders[*win].open(*v);
                    proof {
                        assert(builders_model(self.builders@)[*win as int]
                            == self.builders@[*win as int]@);
                        assert forall|j: int|
                            0 <= j < pre_bm.len() && (#[trigger] pre_bm[j]).state
                                == BuilderState::Shown implies builders_model(
                            self.builders@,
                        )[j].state == BuilderState::Shown by {
                            assert(builders_model(self.builders@)[j] == self.builders@[j]@);
                        }
                    }
                    match sres {
                        Ok(()) => (),
                        Err(e) => {
                            return Err(e);
                        },
                    }
                },
                ScriptOp::WindowSetCollapsed { win, v } => {
                    if *win >= self.builders.len() {
                        return Err(BridgeError::UnknownBuilder);
                    }
                    let sres = self.builders[*win].collapsed(*v);
                    proof {
                        assert(builders_model(self.builders@)[*win as int]
                            == self.builders@[*win as int]@);
                        assert forall|j: int|
                            0 <= j < pre_bm.len() && (#[trigger] pre_bm[j]).state
                                == BuilderState::Shown implies builders_model(
                            self.builders@,
                        )[j].state == BuilderState::Shown by {
                            assert(builders_model(self.builders@)[j] == self.builders@[j]@);
                        }
                    }
                    match sres {
                        Ok(()) => (),
                        Err(e) => {
                            return Err(e);
                        },
                    }
                },
                ScriptOp::WindowShow { win, body } => {
                    proof {
                        assert(decreases_to!(s.ops@ => s.ops@[i as int]));
                    }
                    let sres = self.show_window(*win, body);
                    proof {
                        lemma_preserved_trans(old(self).registry@, pre_reg, self.registry@);
                    }
                    match sres {
                        Ok(mut vs) => {
                            values.append(&mut vs);
                        },
                        Err(e) => {
                            return Err(e);
                        },
                    }
                },
                ScriptOp::Fail => {
                    return Err(BridgeError::Raised);
                },
            }
            i += 1;
        }
        eval_operands(&values, cur, &s.ret)
    }

    /// The terminal show of a window builder.
    ///
    /// Spends the builder; a spent one is rejected with a builder-reuse
    /// error. A window configured closed runs no callback at all: the result
    /// is exactly the false visibility flag and nothing else happened. A
    /// collapsed window reports itself open and returns the outer
    /// interaction result, callback still not run. Otherwise a fresh child
    /// surface opens a scope, the callback runs inside it, its values are
    /// relayed past the scope's unconditional teardown, and the flattened
    /// result is the visibility flag, the outer interaction result, then the
    /// callback's returns.
    pub fn show_window(&mut self, win: usize, body: &CallbackScript) -> (r: Result<
        Vec<ScriptValue>,
        BridgeError,
    >)
        requires
            wf_bridge(old(self)),
        ensures
            protocol_frame(old(self), final(self)),
            win >= old(self).builders@.len() ==> r == Err::<Vec<ScriptValue>, _>(
                BridgeError::UnknownBuilder,
            ) && bridge_same(old(self), final(self)),
            win < old(self).builders@.len() && builders_model(old(self).builders@)[win as int].state
                == BuilderState::Shown ==> r == Err::<Vec<ScriptValue>, _>(
                BridgeError::BuilderReuse,
            ) && bridge_same(old(self), final(self)),
            r is Err ==> !(r->Err_0 is RelayLeak),
            win < old(self).builders@.len() && builders_model(old(self).builders@)[win as int].state
                == BuilderState::Configuring ==> ({
                let before = builders_model(old(self).builders@);
                // the builder is spent whether the callback returned or
                // failed; the show itself fails only through the callback
                &&& builders_model(final(self).builders@)[win as int].state == BuilderState::Shown
                &&& (!before[win as int].config.open ==> r is Ok)
                &&& (before[win as int].config.open && before[win as int].config.collapsed
                    ==> r is Ok)
                &&& (before[win as int].config.open && !before[win as int].config.collapsed
                    && body.ops@.len() == 0 && (forall|i: int|
                    0 <= i < body.ret@.len() ==> !((#[trigger] body.ret@[i]) is Computed))
                    ==> r is Ok)
                &&& (before[win as int].config.open && !before[win as int].config.collapsed
                    && invokes_clean(old(self).table@, body.ops@) && (forall|i: int|
                    0 <= i < body.ret@.len() ==> !((#[trigger] body.ret@[i]) is Computed))
                    ==> r is Ok)
                &&& (before[win as int].config.open && !before[win as int].config.collapsed
                    && body.ops@.len() > 0 && body.ops@[0] is Fail ==> r == Err::<
                    Vec<ScriptValue>,
                    _,
                >(BridgeError::Raised))
            }),
            match r {
                Ok(vs) => ({
                    let before = builders_model(old(self).builders@);
                    &&& win < before.len()
                    &&& before[win as int].state == BuilderState::Configuring
                    &&& builders_model(final(self).builders@)[win as int].state
                        == BuilderState::Shown
                    &&& vs@.len() >= 1
                    &&& (!before[win as int].config.open ==> {
                        &&& vs@.len() == 1
                        &&& vs@[0]@ == ValModel::Bool(false)
                        &&& final(self).registry@ == old(self).registry@
                        &&& surfaces_model(final(self).surfaces@) == surfaces_model(
                            old(self).surfaces@,
                        )
                        &&& final(self).ctx == old(self).ctx
                        &&& builders_model(final(self).builders@).len() == before.len()
                        &&& forall|j: int|
                            0 <= j < before.len() && j != win ==> builders_model(
                                final(self).builders@,
                            )[j] == before[j]
                        &&& builders_model(final(self).builders@)[win as int].config
                            == before[win as int].config
                    })
                    &&& (before[win as int].config.open ==> {
                        &&& vs@.len() >= 2
                        &&& vs@[0]@ == ValModel::Bool(true)
                        &&& vs@[1]@ is Table
                        &&& crate::codec::response_m(vs@[1]@->Table_0) == Some(
                            Response {
                                clicked: false,
                                secondary_clicked: false,
                                hovered: false,
                                changed: false,
                            },
                        )
                    })
                    &&& (before[win as int].config.open && before[win as int].config.collapsed
                        ==> {
                        &&& vs@.len() == 2
                        &&& final(self).registry@ == old(self).registry@
                        &&& surfaces_model(final(self).surfaces@) == surfaces_model(
                            old(self).surfaces@,
                        )
                        &&& final(self).ctx == old(self).ctx
                    })
                    &&& (before[win as int].config.open && !before[win as int].config.collapsed
                        ==> {
                        &&& vs@.len() == 2 + body.ret@.len()
                        &&& forall|i: int|
                            0 <= i < body.ret@.len() ==> (body.ret@[i] matches Operand::Lit(l)
                                ==> #[trigger] vs@[2 + i]@ == crate::value::val_model(l))
                    })
                }),
                Err(_) => true,
            },
        decreases *body, 1nat,
    {
        let ghost b0 = builders_model(self.builders@);
        if win >= self.builders.len() {
            return Err(BridgeError::UnknownBuilder);
        }
        proof {
            assert(b0[win as int] == self.builders@[win as int]@);
        }
        let mres = self.builders[win].mark_shown();
        proof {
            assert(builders_model(self.builders@)[win as int] == self.builders@[win as int]@);
            assert forall|j: int| 0 <= j < b0.len() && j != win implies builders_model(
                self.builders@,
            )[j] == b0[j] by {
                assert(builders_model(self.builders@)[j] == self.builders@[j]@);
            }
        }
        match mres {
            Ok(()) => (),
            Err(e) => {
                proof {
                    assert(builders_model(self.builders@) =~= b0);
                }
                return Err(e);
            },
        }
        let ghost b1 = builders_model(self.builders@);
        let open = self.builders[win].config.open;
        let collapsed = self.builders[win].config.collapsed;
        let enabled = self.builders[win].config.enabled;
        if !open {
            let mut vs: Vec<ScriptValue> = Vec::new();
            vs.push(ScriptValue::Bool(false));
            return Ok(vs);
        }
        if collapsed {
            let mut vs: Vec<ScriptValue> = Vec::new();
            vs.push(ScriptValue::Bool(true));
            vs.push(encode(HostValue::Response(Response::inert())));
            return Ok(vs);
        }
        let ghost reg0 = self.registry@;
        let obj = self.surfaces.len();
        self.surfaces.push(Ui::new(enabled));
        proof {
            assert(crate::registry::obj_free(self.registry@, obj));
        }
        let h = self.registry.enter(obj, true);
        let ghost reg1 = self.registry@;
        proof {
            if invokes_clean(old(self).table@, body.ops@) {
                assert(resolves(self.registry@, h) && self.registry@[h.index as int].writable);
            }
        }
        let cb = self.run_script(body, h);
        let ghost reg2 = self.registry@;
        match cb {
            Ok(vals) => {
                let ghost rets_m = crate::relay::vals_model(vals@);
                let ghost rets_len = vals@.len();
                let ghost vals_views = vals@.map_values(|v: ScriptValue| v@);
                let key = self.relay.store(vals);
                self.registry.revoke(h);
                let ghost reg3 = self.registry@;
                proof {
                    lemma_scope_bracket(reg0, reg1, reg2, reg3, h, obj);
                }
                match self.relay.fetch_delete(key) {
                    Ok(relayed) => {
                        proof {
                            assert(self.relay@ =~= old(self).relay@);
                            assert(crate::relay::vals_model(relayed@) == rets_m);
                            assert(crate::relay::vals_model(relayed@).len() == relayed@.len());
                            assert(rets_m.len() == rets_len);
                            assert(relayed@.len() == rets_len);
                            assert forall|i: int| 0 <= i < rets_len implies #[trigger] relayed@[i]@
                                == vals_views[i] by {
                                assert(crate::relay::vals_model(relayed@)[i] == relayed@[i]@);
                                assert(rets_m[i] == vals_views[i]);
                            }
                        }
                        let mut out: Vec<ScriptValue> = Vec::new();
                        out.push(ScriptValue::Bool(true));
                        out.push(encode(HostValue::Response(Response::inert())));
                        let mut tail = relayed;
                        out.append(&mut tail);
                        Ok(out)
                    },
                    Err(_) => {
                        proof {
                            assert(false);
                        }
                        Err(BridgeError::RelayLeak)
                    },
                }
            },
            Err(e) => {
                proof {
                    if invokes_clean(old(self).table@, body.ops@) && (forall|i: int|
                        0 <= i < body.ret@.len() ==> !((#[trigger] body.ret@[i]) is Computed)) {
                        assert(false);
                    }
                }
                self.registry.revoke(h);
                let ghost reg3 = self.registry@;
                proof {
                    lemma_scope_bracket(reg0, reg1, reg2, reg3, h, obj);
                }
                Err(e)
            },
        }
    }
}

/// The scope-violation law: a handle that was not live before a protocol
/// call — in particular one minted inside the call's own scope — does not
/// resolve after the call returns, so any later use of it is answered with
/// a scope violation, never a dangling reference.
pub proof fn lemma_post_scope_use_fails(pre: Seq<Slot>, post: Seq<Slot>, g: Handle)
    requires
        registry_preserved(pre, post),
        !resolves(pre, g),
    ensures
        !resolves(post, g),
{
}

/// The relay-balance law: storing under a fresh key and then fetching and
/// deleting that key returns the store to exactly its baseline.
pub proof fn lemma_relay_balance(
    m: Map<int, Seq<ValModel>>,
    k: int,
    vals: Seq<ValModel>,
)
    requires
        !m.dom().contains(k),
    ensures
        m.insert(k, vals).remove(k) == m,
{
    assert(m.insert(k, vals).remove(k) =~= m);
}

/// Opening a scope, preserving the registry through its callback, and
/// revoking the scope's handle leaves the registry preserved end to end.
proof fn lemma_scope_bracket(
    reg0: Seq<Slot>,
    reg1: Seq<Slot>,
    reg2: Seq<Slot>,
    reg3: Seq<Slot>,
    h: Handle,
    obj: usize,
)
    requires
        // what enter ensured, reg0 to reg1:
        resolves(reg1, h),
        !resolves(reg0, h),
        monotone(reg0, reg1),
        h.index < reg1.len(),
        forall|i: int| 0 <= i < reg0.len() && i != h.index ==> reg1[i] == reg0[i],
        h.index < reg0.len() ==> !reg0[h.index as int].live,
        reg1.len() == if h.index < reg0.len() {
            reg0.len()
        } else {
            reg0.len() + 1
        },
        forall|g: Handle| resolves(reg1, g) && g != h ==> resolves(reg0, g),
        // what the callback preserved, reg1 to reg2:
        registry_preserved(reg1, reg2),
        // what revoke ensured, reg2 to reg3:
        monotone(reg2, reg3),
        !resolves(reg3, h),
        reg3.len() == reg2.len(),
        forall|i: int| 0 <= i < reg2.len() && i != h.index ==> reg3[i] == reg2[i],
        forall|g: Handle| resolves(reg3, g) ==> resolves(reg2, g),
    ensures
        registry_preserved(reg0, reg3),
{
    lemma_monotone_trans(reg0, reg1, reg2);
    lemma_monotone_trans(reg0, reg2, reg3);
    assert forall|g: Handle| resolves(reg3, g) implies resolves(reg0, g) by {
        assert(resolves(reg2, g));
        assert(resolves(reg1, g));
        if g == h {
            assert(false);
        }
        assert(resolves(reg0, g));
    }
    assert forall|g: Handle| resolves(reg0, g) implies resolves(reg3, g) by {
        assert(g != h);
        assert(g.index != h.index) by {
            if g.index == h.index {
                assert(h.index < reg0.len());
                assert(!reg0[h.index as int].live);
                assert(false);
            }
        }
        assert(resolves(reg1, g));
        assert(resolves(reg2, g));
        assert(reg3[g.index as int] == reg2[g.index as int]);
        assert(resolves(reg3, g));
    }
    assert forall|g: Handle| resolves(reg0, g) implies reg3[g.index as int] == reg0[g.index
        as int] by {
        assert(g.index != h.index) by {
            if g.index == h.index {
                assert(!reg0[h.index as int].live);
                assert(false);
            }
        }
        assert(reg1[g.index as int] == reg0[g.index as int]);
        assert(resolves(reg1, g));
        assert(reg2[g.index as int] == reg1[g.index as int]);
        assert(reg3[g.index as int] == reg2[g.index as int]);
    }
}

} // verus!
