//! The dynamically typed value that crosses the host/script boundary.
//!
//! Scalar numbers carry the engine's floating-point numbers as their IEEE-754
//! bit patterns: the bridge never computes on them, it only moves them, so
//! the bit pattern is the faithful identity of a number at the boundary.
//!
//! Contracts speak of the mathematical model [`ValModel`], reached through
//! each value's view.

use vstd::prelude::*;

use crate::error::ValueKind;
use crate::Handle;

verus! {

/// One key/value entry of a script table.
#[derive(Debug)]
pub struct TableEntry {
    pub key: String,
    pub val: ScriptValue,
}

/// The tagged union of values the bridge exchanges with the script side.
#[derive(Debug)]
pub enum ScriptValue {
    Nil,
    Bool(bool),
    /// The engine's integer.
    Int(i64),
    /// The engine's floating-point number, as its bit pattern.
    Num(u64),
    Str(String),
    /// The engine's compact two-component vector literal; each lane is a
    /// number bit pattern.
    Vector2(u64, u64),
    /// A table restricted to string keys, in insertion order.
    Table(Vec<TableEntry>),
    /// An opaque reference to a script function.
    Callable(u64),
    /// A scoped reference to a borrowed host object.
    Handle(Handle),
}

/// The mathematical model of a table entry.
#[verifier::ext_equal]
pub struct EntryModel {
    pub key: Seq<char>,
    pub val: ValModel,
}

/// The mathematical model of a script value.
#[verifier::ext_equal]
pub enum ValModel {
    Nil,
    Bool(bool),
    Int(i64),
    Num(u64),
    Str(Seq<char>),
    Vector2(u64, u64),
    Table(Seq<EntryModel>),
    Callable(u64),
    Handle(Handle),
}

/// The model of a script value.
pub open spec fn val_model(v: ScriptValue) -> ValModel
    decreases v,
{
    match v {
        ScriptValue::Nil => ValModel::Nil,
        ScriptValue::Bool(b) => ValModel::Bool(b),
        ScriptValue::Int(i) => ValModel::Int(i),
        ScriptValue::Num(n) => ValModel::Num(n),
        ScriptValue::Str(s) => ValModel::Str(s@),
        ScriptValue::Vector2(x, y) => ValModel::Vector2(x, y),
        ScriptValue::Table(entries) => ValModel::Table(entries_model(entries@)),
        ScriptValue::Callable(c) => ValModel::Callable(c),
        ScriptValue::Handle(h) => ValModel::Handle(h),
    }
}

/// The models of a sequence of table entries, in order.
pub open spec fn entries_model(s: Seq<TableEntry>) -> Seq<EntryModel>
    decreases s,
{
    if s.len() == 0 {
        Seq::empty()
    } else {
        entries_model(s.drop_last()).push(entry_model(s.last()))
    }
}

/// The model of one table entry.
pub open spec fn entry_model(e: TableEntry) -> EntryModel
    decreases e,
{
    EntryModel { key: e.key@, val: val_model(e.val) }
}

impl View for ScriptValue {
    type V = ValModel;

    open spec fn view(&self) -> ValModel {
        val_model(*self)
    }
}

impl View for TableEntry {
    type V = EntryModel;

    open spec fn view(&self) -> EntryModel {
        entry_model(*self)
    }
}

/// The length and the per-index models of a modeled entry sequence.
pub broadcast proof fn lemma_entries_model_index(s: Seq<TableEntry>)
    ensures
        #[trigger] entries_model(s).len() == s.len(),
        forall|i: int| 0 <= i < s.len() ==> entries_model(s)[i] == entry_model(s[i]),
    decreases s.len(),
{
    if s.len() > 0 {
        lemma_entries_model_index(s.drop_last());
    }
}

impl ValModel {
    /// The dynamic kind of this value, as named in conversion errors.
    pub open spec fn kind(&self) -> ValueKind {
        match self {
            ValModel::Nil => ValueKind::Nil,
            ValModel::Bool(_) => ValueKind::Bool,
            ValModel::Int(_) => ValueKind::Int,
            ValModel::Num(_) => ValueKind::Num,
            ValModel::Str(_) => ValueKind::Str,
            ValModel::Vector2(_, _) => ValueKind::Vector2,
            ValModel::Table(_) => ValueKind::Table,
            ValModel::Callable(_) => ValueKind::Callable,
            ValModel::Handle(_) => ValueKind::Handle,
        }
    }
}

impl ScriptValue {
    /// The dynamic kind of this value, as named in conversion errors.
    pub fn kind(&self) -> (k: ValueKind)
        ensures
            k == self@.kind(),
    {
        match self {
            ScriptValue::Nil => ValueKind::Nil,
            ScriptValue::Bool(_) => ValueKind::Bool,
            ScriptValue::Int(_) => ValueKind::Int,
            ScriptValue::Num(_) => ValueKind::Num,
            ScriptValue::Str(_) => ValueKind::Str,
            ScriptValue::Vector2(_, _) => ValueKind::Vector2,
            ScriptValue::Table(_) => ValueKind::Table,
            ScriptValue::Callable(_) => ValueKind::Callable,
            ScriptValue::Handle(_) => ValueKind::Handle,
        }
    }

    /// A structurally identical duplicate of this value.
    pub fn deep_copy(&self) -> (r: ScriptValue)
        ensures
            r@ == self@,
        decreases *self,
    {
        match self {
            ScriptValue::Nil => ScriptValue::Nil,
            ScriptValue::Bool(b) => ScriptValue::Bool(*b),
            ScriptValue::Int(i) => ScriptValue::Int(*i),
            ScriptValue::Num(n) => ScriptValue::Num(*n),
            ScriptValue::Str(s) => ScriptValue::Str(s.clone()),
            ScriptValue::Vector2(x, y) => ScriptValue::Vector2(*x, *y),
            ScriptValue::Table(entries) => {
                let n = entries.len();
                let mut out: Vec<TableEntry> = Vec::new();
                let mut i: usize = 0;
                while i < n
                    invariant
                        n == entries@.len(),
                        i <= n,
                        out@.len() == i,
                        forall|j: int| 0 <= j < i ==> out@[j]@ == entries@[j]@,
                        decreases_to!(*self => *entries),
                    decreases n - i,
                {
                    proof {
                        assert(decreases_to!(*entries => entries@[i as int]));
                    }
                    let e = &entries[i];
                    let copied = TableEntry { key: e.key.clone(), val: e.val.deep_copy() };
                    assert(copied@ == entries@[i as int]@);
                    out.push(copied);
                    i += 1;
                }
                proof {
                    lemma_entries_model_index(out@);
                    lemma_entries_model_index(entries@);
                    assert(entries_model(out@) =~= entries_model(entries@));
                }
                ScriptValue::Table(out)
            },
            ScriptValue::Callable(c) => ScriptValue::Callable(*c),
            ScriptValue::Handle(h) => ScriptValue::Handle(*h),
        }
    }
}

/// The value under the first entry whose key reads `key`, if any.
pub open spec fn tbl_lookup(entries: Seq<EntryModel>, key: Seq<char>) -> Option<ValModel>
    decreases entries.len(),
{
    if entries.len() == 0 {
        None
    } else if entries[0].key == key {
        Some(entries[0].val)
    } else {
        tbl_lookup(entries.skip(1), key)
    }
}

/// True when `a` reads the same characters as `b`.
pub fn str_eq(a: &String, b: &str) -> (r: bool)
    ensures
        r == (a@ == b@),
{
    let owned: String = b.to_owned();
    *a == owned
}

/// Looks a key up in a table, first entry wins.
pub fn table_get<'a>(entries: &'a Vec<TableEntry>, key: &str) -> (r: Option<&'a ScriptValue>)
    ensures
        match r {
            Some(v) => tbl_lookup(entries_model(entries@), key@) == Some(v@),
            None => tbl_lookup(entries_model(entries@), key@) is None,
        },
{
    proof {
        lemma_entries_model_index(entries@);
        assert(entries_model(entries@).skip(0) =~= entries_model(entries@));
    }
    let n = entries.len();
    let mut i: usize = 0;
    while i < n
        invariant
            n == entries@.len(),
            i <= n,
            entries_model(entries@).len() == n,
            forall|j: int| 0 <= j < n ==> entries_model(entries@)[j] == entries@[j]@,
            tbl_lookup(entries_model(entries@), key@) == tbl_lookup(
                entries_model(entries@).skip(i as int),
                key@,
            ),
        decreases n - i,
    {
        proof {
            assert(entries_model(entries@).skip(i as int)[0] == entries@[i as int]@);
        }
        if str_eq(&entries[i].key, key) {
            return Some(&entries[i].val);
        }
        proof {
            assert(entries_model(entries@).skip(i as int).skip(1) =~= entries_model(
                entries@,
            ).skip(i + 1));
        }
        i += 1;
    }
    None
}

} // verus!
