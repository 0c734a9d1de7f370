//! The method-wrapper generator, as a runtime table.
//!
//! The shape of every exposed operation is identical glue: decode
//! each argument per its descriptor, invoke the host operation positionally,
//! encode the results per the return descriptors. Instead of hand-writing
//! that glue per operation, a descriptor is registered next to the host
//! operation it wraps; one shared dispatcher interprets the table. A
//! malformed descriptor fails at registration, never at call time.

use vstd::prelude::*;

use crate::codec::{decode, decode_spec, encode, encodes, HostModel, HostValue, ScriptType};
use crate::descriptor::{Converter, InputModel, InputTokens, LuaImplType};
use crate::error::BridgeError;
use crate::value::{str_eq, ScriptValue, ValModel};

verus! {

/// The built-in host operations the dispatcher can run.
#[derive(Clone, Copy, PartialEq, Eq, Structural, Debug)]
pub enum HostOp {
    RequestRepaint,
    IsUsingPointer,
    UiLabel,
    UiIsEnabled,
    UiSetEnabled,
    UiIsVisible,
    UiSetVisible,
    SenseUnion,
    ColorFromRgba,
}

/// What an operation is invoked on.
#[derive(Clone, Copy, PartialEq, Eq, Structural, Debug)]
pub enum Receiver {
    /// A free function.
    Free,
    /// The frame's root context.
    Context,
    /// A drawing surface, reached through a scoped handle.
    Surface,
}

/// The receiver class of an operation.
pub open spec fn op_receiver(op: HostOp) -> Receiver {
    match op {
        HostOp::RequestRepaint => Receiver::Context,
        HostOp::IsUsingPointer => Receiver::Context,
        HostOp::UiLabel => Receiver::Surface,
        HostOp::UiIsEnabled => Receiver::Surface,
        HostOp::UiSetEnabled => Receiver::Surface,
        HostOp::UiIsVisible => Receiver::Surface,
        HostOp::UiSetVisible => Receiver::Surface,
        HostOp::SenseUnion => Receiver::Free,
        HostOp::ColorFromRgba => Receiver::Free,
    }
}

/// Whether an operation mutates its receiver.
pub open spec fn op_mutates(op: HostOp) -> bool {
    match op {
        HostOp::RequestRepaint => true,
        HostOp::IsUsingPointer => false,
        HostOp::UiLabel => true,
        HostOp::UiIsEnabled => false,
        HostOp::UiSetEnabled => true,
        HostOp::UiIsVisible => false,
        HostOp::UiSetVisible => true,
        HostOp::SenseUnion => false,
        HostOp::ColorFromRgba => false,
    }
}

/// The call kind an operation's descriptor must declare.
pub open spec fn op_kind(op: HostOp) -> LuaImplType {
    if op_receiver(op) is Free {
        LuaImplType::Function
    } else if op_mutates(op) {
        LuaImplType::MethodMut
    } else {
        LuaImplType::MethodRef
    }
}

/// The argument types an operation takes, receiver aside.
pub open spec fn op_args(op: HostOp) -> Seq<ScriptType> {
    match op {
        HostOp::RequestRepaint => seq![],
        HostOp::IsUsingPointer => seq![],
        HostOp::UiLabel => seq![ScriptType::WidgetText],
        HostOp::UiIsEnabled => seq![],
        HostOp::UiSetEnabled => seq![ScriptType::Bool],
        HostOp::UiIsVisible => seq![],
        HostOp::UiSetVisible => seq![ScriptType::Bool],
        HostOp::SenseUnion => seq![ScriptType::Sense, ScriptType::Sense],
        HostOp::ColorFromRgba => seq![
            ScriptType::Byte,
            ScriptType::Byte,
            ScriptType::Byte,
            ScriptType::Byte,
        ],
    }
}

/// The result types an operation returns.
pub open spec fn op_rets(op: HostOp) -> Seq<ScriptType> {
    match op {
        HostOp::RequestRepaint => seq![],
        HostOp::IsUsingPointer => seq![ScriptType::Bool],
        HostOp::UiLabel => seq![ScriptType::Response],
        HostOp::UiIsEnabled => seq![ScriptType::Bool],
        HostOp::UiSetEnabled => seq![],
        HostOp::UiIsVisible => seq![ScriptType::Bool],
        HostOp::UiSetVisible => seq![],
        HostOp::SenseUnion => seq![ScriptType::Sense],
        HostOp::ColorFromRgba => seq![ScriptType::Color],
    }
}

/// The script-facing type a descriptor's type name resolves to, if any.
pub open spec fn type_of_name(s: Seq<char>) -> Option<ScriptType> {
    if s == "bool"@ {
        Some(ScriptType::Bool)
    } else if s == "int"@ {
        Some(ScriptType::Int)
    } else if s == "num"@ {
        Some(ScriptType::Num)
    } else if s == "byte"@ {
        Some(ScriptType::Byte)
    } else if s == "string"@ {
        Some(ScriptType::Str)
    } else if s == "vec2"@ {
        Some(ScriptType::Vec2)
    } else if s == "pos2"@ {
        Some(ScriptType::Pos2)
    } else if s == "color"@ {
        Some(ScriptType::Color)
    } else if s == "align"@ {
        Some(ScriptType::Align)
    } else if s == "align2"@ {
        Some(ScriptType::Align2)
    } else if s == "direction"@ {
        Some(ScriptType::Direction)
    } else if s == "pointer_button"@ {
        Some(ScriptType::PointerButton)
    } else if s == "order"@ {
        Some(ScriptType::Order)
    } else if s == "sense"@ {
        Some(ScriptType::Sense)
    } else if s == "text_style"@ {
        Some(ScriptType::TextStyle)
    } else if s == "margin"@ {
        Some(ScriptType::Margin)
    } else if s == "rounding"@ {
        Some(ScriptType::Rounding)
    } else if s == "rect"@ {
        Some(ScriptType::Rect)
    } else if s == "stroke"@ {
        Some(ScriptType::Stroke)
    } else if s == "widget_text"@ {
        Some(ScriptType::WidgetText)
    } else if s == "rich_text"@ {
        Some(ScriptType::RichText)
    } else if s == "galley"@ {
        Some(ScriptType::Galley)
    } else if s == "response"@ {
        Some(ScriptType::Response)
    } else if s == "handle"@ {
        Some(ScriptType::Handle)
    } else {
        None
    }
}

/// The resolutions of the type names the standard bindings declare,
/// evaluated from the name table.
pub(crate) proof fn lemma_standard_type_names()
    ensures
        type_of_name("bool"@) == Some(ScriptType::Bool),
        type_of_name("byte"@) == Some(ScriptType::Byte),
        type_of_name("color"@) == Some(ScriptType::Color),
        type_of_name("sense"@) == Some(ScriptType::Sense),
        type_of_name("widget_text"@) == Some(ScriptType::WidgetText),
        type_of_name("response"@) == Some(ScriptType::Response),
{
    reveal_strlit("bool");
    reveal_strlit("int");
    reveal_strlit("num");
    reveal_strlit("byte");
    reveal_strlit("string");
    reveal_strlit("vec2");
    reveal_strlit("pos2");
    reveal_strlit("color");
    reveal_strlit("align");
    reveal_strlit("align2");
    reveal_strlit("direction");
    reveal_strlit("pointer_button");
    reveal_strlit("order");
    reveal_strlit("sense");
    reveal_strlit("text_style");
    reveal_strlit("margin");
    reveal_strlit("rounding");
    reveal_strlit("rect");
    reveal_strlit("stroke");
    reveal_strlit("widget_text");
    reveal_strlit("rich_text");
    reveal_strlit("galley");
    reveal_strlit("response");
    assert("bool"@.len() == 4 && "int"@.len() == 3 && "num"@.len() == 3 && "byte"@.len() == 4
        && "string"@.len() == 6 && "vec2"@.len() == 4 && "pos2"@.len() == 4 && "color"@.len() == 5
        && "align"@.len() == 5 && "align2"@.len() == 6 && "direction"@.len() == 9
        && "pointer_button"@.len() == 14 && "order"@.len() == 5 && "sense"@.len() == 5
        && "text_style"@.len() == 10 && "margin"@.len() == 6 && "rounding"@.len() == 8
        && "rect"@.len() == 4 && "stroke"@.len() == 6 && "widget_text"@.len() == 11
        && "rich_text"@.len() == 9 && "galley"@.len() == 6 && "response"@.len() == 8);
    assert("bool"@[1] == 'o' && "byte"@[1] == 'y');
    assert("vec2"@[0] == 'v' && "pos2"@[0] == 'p' && "rect"@[0] == 'r');
    assert("sense"@[0] == 's' && "color"@[0] == 'c' && "align"@[0] == 'a' && "order"@[0] == 'o');
    assert("response"@[1] == 'e' && "rounding"@[1] == 'o');
}

/// Executable twin of [`type_of_name`].
pub fn resolve_type_name(s: &String) -> (r: Option<ScriptType>)
    ensures
        r == type_of_name(s@),
{
    if str_eq(s, "bool") {
        Some(ScriptType::Bool)
    } else if str_eq(s, "int") {
        Some(ScriptType::Int)
    } else if str_eq(s, "num") {
        Some(ScriptType::Num)
    } else if str_eq(s, "byte") {
        Some(ScriptType::Byte)
    } else if str_eq(s, "string") {
        Some(ScriptType::Str)
    } else if str_eq(s, "vec2") {
        Some(ScriptType::Vec2)
    } else if str_eq(s, "pos2") {
        Some(ScriptType::Pos2)
    } else if str_eq(s, "color") {
        Some(ScriptType::Color)
    } else if str_eq(s, "align") {
        Some(ScriptType::Align)
    } else if str_eq(s, "align2") {
        Some(ScriptType::Align2)
    } else if str_eq(s, "direction") {
        Some(ScriptType::Direction)
    } else if str_eq(s, "pointer_button") {
        Some(ScriptType::PointerButton)
    } else if str_eq(s, "order") {
        Some(ScriptType::Order)
    } else if str_eq(s, "sense") {
        Some(ScriptType::Sense)
    } else if str_eq(s, "text_style") {
        Some(ScriptType::TextStyle)
    } else if str_eq(s, "margin") {
        Some(ScriptType::Margin)
    } else if str_eq(s, "rounding") {
        Some(ScriptType::Rounding)
    } else if str_eq(s, "rect") {
        Some(ScriptType::Rect)
    } else if str_eq(s, "stroke") {
        Some(ScriptType::Stroke)
    } else if str_eq(s, "widget_text") {
        Some(ScriptType::WidgetText)
    } else if str_eq(s, "rich_text") {
        Some(ScriptType::RichText)
    } else if str_eq(s, "galley") {
        Some(ScriptType::Galley)
    } else if str_eq(s, "response") {
        Some(ScriptType::Response)
    } else if str_eq(s, "handle") {
        Some(ScriptType::Handle)
    } else {
        None
    }
}

/// Why a descriptor was refused at registration.
#[derive(Clone, Copy, PartialEq, Eq, Structural, Debug)]
pub enum RegistrationError {
    /// More than four arguments or returns.
    TooMany,
    /// A type name resolves to no script-facing type.
    UnknownType,
    /// A custom conversion block or an override block. A block holds
    /// arbitrary host code, which a runtime table cannot carry: an operation
    /// that needs one is written as its own host function beside the table,
    /// not registered through it. The restriction is deliberate and checked
    /// here, at registration.
    CustomUnsupported,
    /// The descriptor's kind or types do not match the operation's
    /// signature.
    SignatureMismatch,
}

/// One descriptor list faithfully declares one side of a signature: the
/// lengths agree, no custom block stands in for the default conversion, and
/// every name resolves to the declared type.
pub open spec fn list_ok(args: Seq<crate::descriptor::ArgModel>, expected: Seq<ScriptType>) -> bool {
    &&& args.len() == expected.len()
    &&& forall|i: int| 0 <= i < args.len() ==> (#[trigger] args[i].converter) != Converter::Block
    &&& forall|i: int|
        0 <= i < args.len() ==> type_of_name(#[trigger] args[i].outer_type) == Some(expected[i])
}

/// A descriptor is a faithful declaration of an operation's signature.
pub open spec fn valid_entry(d: InputModel, op: HostOp) -> bool {
    &&& d.lua_impl_type == op_kind(op)
    &&& d.args.len() <= 4
    &&& d.rets.len() <= 4
    &&& !d.last
    &&& list_ok(d.args, op_args(op))
    &&& list_ok(d.rets, op_rets(op))
}

/// One registered wrapper: the descriptor and the operation it wraps.
#[derive(Debug)]
pub struct WrapperEntry {
    pub desc: InputTokens,
    pub op: HostOp,
}

/// The mathematical model of a registered wrapper.
#[verifier::ext_equal]
pub struct WrapperEntryModel {
    pub desc: InputModel,
    pub op: HostOp,
}

impl View for WrapperEntry {
    type V = WrapperEntryModel;

    open spec fn view(&self) -> WrapperEntryModel {
        WrapperEntryModel { desc: self.desc@, op: self.op }
    }
}

/// The table of registered wrappers, interpreted by one shared dispatcher.
#[derive(Debug)]
pub struct WrapperTable {
    pub entries: Vec<WrapperEntry>,
}

/// Every entry of the table is a faithful declaration.
pub open spec fn wf_table(t: Seq<WrapperEntryModel>) -> bool {
    forall|i: int| 0 <= i < t.len() ==> valid_entry(#[trigger] t[i].desc, t[i].op)
}

impl View for WrapperTable {
    type V = Seq<WrapperEntryModel>;

    open spec fn view(&self) -> Seq<WrapperEntryModel> {
        self.entries@.map_values(|e: WrapperEntry| e@)
    }
}

impl WrapperTable {
    /// An empty table.
    pub fn new() -> (r: WrapperTable)
        ensures
            r@ =~= Seq::<WrapperEntryModel>::empty(),
    {
        let r = WrapperTable { entries: Vec::new() };
        proof {
            assert(r@ =~= Seq::<WrapperEntryModel>::empty());
        }
        r
    }

    /// How many wrappers are registered.
    pub fn len(&self) -> (n: usize)
        ensures
            n == self@.len(),
    {
        self.entries.len()
    }
}

/// Validates a descriptor against the operation it is to wrap, and installs
/// the wrapper. Malformed descriptors fail here, at registration.
pub fn wrap_method(table: &mut WrapperTable, desc: InputTokens, op: HostOp) -> (r: Result<
    usize,
    RegistrationError,
>)
    ensures
        match r {
            Ok(idx) => {
                &&& valid_entry(desc@, op)
                &&& idx == old(table)@.len()
                &&& final(table)@ =~= old(table)@.push(
                    WrapperEntryModel { desc: desc@, op },
                )
            },
            Err(_) => {
                &&& !valid_entry(desc@, op)
                &&& *final(table) == *old(table)
            },
        },
{
    if desc.args.len() > 4 || desc.rets.len() > 4 {
        return Err(RegistrationError::TooMany);
    }
    if desc.last {
        return Err(RegistrationError::CustomUnsupported);
    }
    let kind_ok = check_kind(&desc, op);
    if !kind_ok {
        return Err(RegistrationError::SignatureMismatch);
    }
    match check_list(&desc.args, op, true) {
        Ok(()) => (),
        Err(e) => {
            return Err(e);
        },
    }
    match check_list(&desc.rets, op, false) {
        Ok(()) => (),
        Err(e) => {
            return Err(e);
        },
    }
    let idx = table.entries.len();
    let ghost dm = desc@;
    table.entries.push(WrapperEntry { desc, op });
    proof {
        assert(table@ =~= old(table)@.push(WrapperEntryModel { desc: dm, op }));
    }
    Ok(idx)
}

/// Whether the descriptor's declared kind is the operation's.
fn check_kind(desc: &InputTokens, op: HostOp) -> (r: bool)
    ensures
        r == (desc@.lua_impl_type == op_kind(op)),
{
    let expect = match op {
        HostOp::RequestRepaint => LuaImplType::MethodMut,
        HostOp::IsUsingPointer => LuaImplType::MethodRef,
        HostOp::UiLabel => LuaImplType::MethodMut,
        HostOp::UiIsEnabled => LuaImplType::MethodRef,
        HostOp::UiSetEnabled => LuaImplType::MethodMut,
        HostOp::UiIsVisible => LuaImplType::MethodRef,
        HostOp::UiSetVisible => LuaImplType::MethodMut,
        HostOp::SenseUnion => LuaImplType::Function,
        HostOp::ColorFromRgba => LuaImplType::Function,
    };
    desc.lua_impl_type == expect
}

/// The declared types of one descriptor list against one side of the
/// operation's signature.
fn check_list(args: &Vec<crate::descriptor::Arg>, op: HostOp, arg_side: bool) -> (r: Result<
    (),
    RegistrationError,
>)
    ensures
        r is Ok == list_ok(
            crate::descriptor::args_model(args@),
            if arg_side {
                op_args(op)
            } else {
                op_rets(op)
            },
        ),
{
    let expected: Vec<ScriptType> = expected_types(op, arg_side);
    if args.len() != expected.len() {
        return Err(RegistrationError::SignatureMismatch);
    }
    let n = args.len();
    let mut i: usize = 0;
    while i < n
        invariant
            n == args@.len(),
            n == expected@.len(),
            expected@ =~= if arg_side {
                op_args(op)
            } else {
                op_rets(op)
            },
            i <= n,
            forall|j: int| 0 <= j < i ==> args@[j]@.converter != Converter::Block,
            forall|j: int|
                0 <= j < i ==> type_of_name(args@[j]@.outer_type) == Some(expected@[j]),
        decreases n - i,
    {
        let a = &args[i];
        proof {
            assert(crate::descriptor::args_model(args@)[i as int] == args@[i as int]@);
        }
        if matches!(a.converter, Converter::Block) {
            return Err(RegistrationError::CustomUnsupported);
        }
        match resolve_type_name(&a.outer_type) {
            None => {
                proof {
                    assert(type_of_name(
                        crate::descriptor::args_model(args@)[i as int].outer_type,
                    ) is None);
                }
                return Err(RegistrationError::UnknownType);
            },
            Some(t) => {
                if t != expected[i] {
                    return Err(RegistrationError::SignatureMismatch);
                }
            },
        }
        i += 1;
    }
    Ok(())
}

/// The operation's declared types on one side, as a vector.
fn expected_types(op: HostOp, arg_side: bool) -> (r: Vec<ScriptType>)
    ensures
        r@ =~= if arg_side {
            op_args(op)
        } else {
            op_rets(op)
        },
{
    let mut v: Vec<ScriptType> = Vec::new();
    if arg_side {
        match op {
            HostOp::RequestRepaint => (),
            HostOp::IsUsingPointer => (),
            HostOp::UiLabel => {
                v.push(ScriptType::WidgetText);
            },
            HostOp::UiIsEnabled => (),
            HostOp::UiSetEnabled => {
                v.push(ScriptType::Bool);
            },
            HostOp::UiIsVisible => (),
            HostOp::UiSetVisible => {
                v.push(ScriptType::Bool);
            },
            HostOp::SenseUnion => {
                v.push(ScriptType::Sense);
                v.push(ScriptType::Sense);
            },
            HostOp::ColorFromRgba => {
                v.push(ScriptType::Byte);
                v.push(ScriptType::Byte);
                v.push(ScriptType::Byte);
                v.push(ScriptType::Byte);
            },
        }
    } else {
        match op {
            HostOp::RequestRepaint => (),
            HostOp::IsUsingPointer => {
                v.push(ScriptType::Bool);
            },
            HostOp::UiLabel => {
                v.push(ScriptType::Response);
            },
            HostOp::UiIsEnabled => {
                v.push(ScriptType::Bool);
            },
            HostOp::UiSetEnabled => (),
            HostOp::UiIsVisible => {
                v.push(ScriptType::Bool);
            },
            HostOp::UiSetVisible => (),
            HostOp::SenseUnion => {
                v.push(ScriptType::Sense);
            },
            HostOp::ColorFromRgba => {
                v.push(ScriptType::Color);
            },
        }
    }
    v
}

/// Decodes a raw argument list per a descriptor's argument descriptors: the
/// prepare half of the generated glue. A wrong count or a value that fails
/// its decode surfaces as a catchable error naming the offending position.
pub fn decode_args(desc: &InputTokens, raw: &Vec<ScriptValue>) -> (r: Result<
    Vec<HostValue>,
    BridgeError,
>)
    requires
        forall|i: int|
            0 <= i < desc@.args.len() ==> (#[trigger] type_of_name(
                desc@.args[i].outer_type,
            )) is Some,
    ensures
        match r {
            Ok(hv) => {
                &&& raw@.len() == desc@.args.len()
                &&& hv@.len() == raw@.len()
                &&& forall|i: int|
                    0 <= i < hv@.len() ==> decode_spec(
                        type_of_name(desc@.args[i].outer_type)->0,
                        raw@[i]@,
                    ) == Some(#[trigger] hv@[i]@)
            },
            Err(e) => match e {
                BridgeError::Arity { expected, got } => {
                    &&& raw@.len() != desc@.args.len()
                    &&& expected == desc@.args.len()
                    &&& got == raw@.len()
                },
                BridgeError::Conversion { err, position } => {
                    &&& raw@.len() == desc@.args.len()
                    &&& 0 <= position < raw@.len()
                    &&& decode_spec(
                        type_of_name(desc@.args[position as int].outer_type)->0,
                        raw@[position as int]@,
                    ) is None
                    &&& err.from == raw@[position as int]@.kind()
                    &&& err.to == type_of_name(desc@.args[position as int].outer_type)->0
                },
                _ => false,
            },
        },
{
    if raw.len() != desc.args.len() {
        return Err(BridgeError::Arity { expected: desc.args.len(), got: raw.len() });
    }
    let n = raw.len();
    let mut out: Vec<HostValue> = Vec::new();
    let mut i: usize = 0;
    while i < n
        invariant
            n == raw@.len(),
            n == desc@.args.len(),
            i <= n,
            out@.len() == i,
            forall|k: int|
                0 <= k < desc@.args.len() ==> (#[trigger] type_of_name(
                    desc@.args[k].outer_type,
                )) is Some,
            forall|j: int|
                0 <= j < i ==> decode_spec(type_of_name(desc@.args[j].outer_type)->0, raw@[j]@)
                    == Some(#[trigger] out@[j]@),
        decreases n - i,
    {
        proof {
            assert(type_of_name(desc@.args[i as int].outer_type) is Some);
        }
        let ty = match resolve_type_name(&desc.args[i].outer_type) {
            Some(t) => t,
            None => {
                return Err(BridgeError::UnknownDescriptor);
            },
        };
        match decode(ty, &raw[i]) {
            Ok(h) => {
                out.push(h);
            },
            Err(e) => {
                return Err(BridgeError::Conversion { err: e, position: i });
            },
        }
        i += 1;
    }
    Ok(out)
}

/// Encodes a host result list: the finish half of the generated glue;
/// several results tuple in order.
pub fn encode_rets(vals: Vec<HostValue>) -> (r: Vec<ScriptValue>)
    ensures
        r@.len() == vals@.len(),
        forall|i: int| 0 <= i < vals@.len() ==> encodes(vals@[i]@, #[trigger] r@[i]@),
{
    let mut out: Vec<ScriptValue> = Vec::new();
    let n = vals.len();
    let mut rest = vals;
    let ghost all = rest@;
    let mut i: usize = 0;
    while i < n
        invariant
            n == all.len(),
            rest@ =~= all.skip(i as int),
            i <= n,
            out@.len() == i,
            forall|j: int| 0 <= j < i ==> encodes(all[j]@, #[trigger] out@[j]@),
        decreases n - i,
    {
        let h = rest.remove(0);
        proof {
            assert(all.skip(i as int)[0] == all[i as int]);
            assert(all.skip(i as int).skip(1) =~= all.skip(i + 1));
        }
        out.push(encode(h));
        i += 1;
    }
    out
}

} // verus!
