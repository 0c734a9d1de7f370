//! The declarative method-descriptor grammar.
//!
//! A descriptor names, in order: the call kind (`f`, `m`, `mm` or `ms` for a
//! free function, a borrowing method, a mutably borrowing method or a
//! consuming method), the wrapped operation's name, up to four argument
//! descriptors and up to four return descriptors, and an optional trailing
//! override block. Arguments and returns are a script-facing type name with
//! an optional conversion directive (`clone`, `nointo`, `ref`, or a custom
//! block). A malformed descriptor fails here, at build time, never at call
//! time.

use vstd::prelude::*;

use crate::value::str_eq;

verus! {

/// One input token of the descriptor grammar.
#[derive(Debug)]
pub enum DescToken {
    Ident(String),
    Semi,
    Comma,
    /// A braced code block; its content is host code and opaque to the
    /// grammar.
    Block,
}

/// The mathematical model of a descriptor token.
#[verifier::ext_equal]
pub enum TokModel {
    Ident(Seq<char>),
    Semi,
    Comma,
    Block,
}

impl View for DescToken {
    type V = TokModel;

    open spec fn view(&self) -> TokModel {
        match self {
            DescToken::Ident(s) => TokModel::Ident(s@),
            DescToken::Semi => TokModel::Semi,
            DescToken::Comma => TokModel::Comma,
            DescToken::Block => TokModel::Block,
        }
    }
}

/// The models of a token list, in order.
pub open spec fn toks_model(s: Seq<DescToken>) -> Seq<TokModel> {
    s.map_values(|t: DescToken| t@)
}

/// Which kind of callable a descriptor wraps.
#[derive(Clone, Copy, PartialEq, Eq, Structural, Debug)]
pub enum LuaImplType {
    Function,
    MethodRef,
    MethodMut,
    MethodSelf,
}

/// How an argument or return value is converted around the wrapped call.
#[derive(Clone, Copy, PartialEq, Eq, Structural, Debug)]
pub enum Converter {
    NoInto,
    Into,
    Ref,
    Clone,
    /// A custom conversion block of host code.
    Block,
}

/// One argument or return descriptor.
#[derive(Debug)]
pub struct Arg {
    pub outer_type: String,
    pub converter: Converter,
}

/// The mathematical model of an argument descriptor.
#[verifier::ext_equal]
pub struct ArgModel {
    pub outer_type: Seq<char>,
    pub converter: Converter,
}

impl View for Arg {
    type V = ArgModel;

    open spec fn view(&self) -> ArgModel {
        ArgModel { outer_type: self.outer_type@, converter: self.converter }
    }
}

/// The models of an argument list, in order.
pub open spec fn args_model(s: Seq<Arg>) -> Seq<ArgModel> {
    s.map_values(|a: Arg| a@)
}

/// A parsed method descriptor.
#[derive(Debug)]
pub struct InputTokens {
    pub lua_impl_type: LuaImplType,
    pub fn_name: String,
    pub args: Vec<Arg>,
    pub rets: Vec<Arg>,
    /// Whether a trailing override block replaces the default return
    /// encoding.
    pub last: bool,
}

/// The mathematical model of a parsed descriptor.
#[verifier::ext_equal]
pub struct InputModel {
    pub lua_impl_type: LuaImplType,
    pub fn_name: Seq<char>,
    pub args: Seq<ArgModel>,
    pub rets: Seq<ArgModel>,
    pub last: bool,
}

impl View for InputTokens {
    type V = InputModel;

    open spec fn view(&self) -> InputModel {
        InputModel {
            lua_impl_type: self.lua_impl_type,
            fn_name: self.fn_name@,
            args: args_model(self.args@),
            rets: args_model(self.rets@),
            last: self.last,
        }
    }
}

/// Why a descriptor failed to parse.
#[derive(Clone, Copy, PartialEq, Eq, Structural, Debug)]
pub enum DescriptorParseError {
    /// The leading kind token is missing or not one of `f`, `m`, `mm`, `ms`.
    BadImplType,
    /// No semicolon after the kind token.
    MissingSemiAfterKind,
    /// No name for the wrapped operation.
    MissingFnName,
    /// Tokens follow the name without the separating semicolon.
    MissingSemiAfterName,
    /// More than four argument or return descriptors.
    TooMany,
    /// An argument position holds no type name.
    ExpectedTypeName,
    /// A conversion directive is none of `clone`, `nointo`, `ref` or a
    /// block.
    BadConverter,
    /// An argument is not followed by a comma, a semicolon or the end.
    ExpectedSeparator,
    /// Tokens remain after the descriptor ends.
    TrailingTokens,
}

/// The call kind named by an identifier, if any.
pub open spec fn kind_of_ident(s: Seq<char>) -> Option<LuaImplType> {
    if s == "f"@ {
        Some(LuaImplType::Function)
    } else if s == "m"@ {
        Some(LuaImplType::MethodRef)
    } else if s == "mm"@ {
        Some(LuaImplType::MethodMut)
    } else if s == "ms"@ {
        Some(LuaImplType::MethodSelf)
    } else {
        None
    }
}

/// The conversion directive named by an identifier, if any.
pub open spec fn conv_of_ident(s: Seq<char>) -> Option<Converter> {
    if s == "clone"@ {
        Some(Converter::Clone)
    } else if s == "nointo"@ {
        Some(Converter::NoInto)
    } else if s == "ref"@ {
        Some(Converter::Ref)
    } else {
        None
    }
}

/// Parses one comma-separated descriptor list starting at `i`, with `acc`
/// already read: the grammar of both the argument and the return list. The
/// list ends at a semicolon (consumed) or at the end of input.
pub open spec fn parse_args_spec(toks: Seq<TokModel>, i: int, acc: Seq<ArgModel>) -> Result<
    (Seq<ArgModel>, int),
    DescriptorParseError,
>
    decreases toks.len() - i,
{
    if i >= toks.len() {
        Ok((acc, i))
    } else if toks[i] is Semi {
        Ok((acc, i + 1))
    } else if acc.len() >= 4 {
        Err(DescriptorParseError::TooMany)
    } else {
        match toks[i] {
            TokModel::Ident(ty) => {
                let after: Result<(Converter, int), DescriptorParseError> = if i + 1 < toks.len()
                    && toks[i + 1] is Block {
                    Ok((Converter::Block, i + 2))
                } else if i + 1 < toks.len() && toks[i + 1] is Ident {
                    match conv_of_ident(toks[i + 1]->Ident_0) {
                        Some(c) => Ok((c, i + 2)),
                        None => Err(DescriptorParseError::BadConverter),
                    }
                } else {
                    Ok((Converter::Into, i + 1))
                };
                match after {
                    Ok((conv, j)) => {
                        let arg = ArgModel { outer_type: ty, converter: conv };
                        if j < toks.len() && toks[j] is Comma {
                            parse_args_spec(toks, j + 1, acc.push(arg))
                        } else if j >= toks.len() || toks[j] is Semi {
                            parse_args_spec(toks, j, acc.push(arg))
                        } else {
                            Err(DescriptorParseError::ExpectedSeparator)
                        }
                    },
                    Err(e) => Err(e),
                }
            },
            _ => Err(DescriptorParseError::ExpectedTypeName),
        }
    }
}

/// Parses a whole descriptor.
pub open spec fn parse_spec(toks: Seq<TokModel>) -> Result<InputModel, DescriptorParseError> {
    if toks.len() == 0 || !(toks[0] is Ident) {
        Err(DescriptorParseError::BadImplType)
    } else {
        match kind_of_ident(toks[0]->Ident_0) {
            None => Err(DescriptorParseError::BadImplType),
            Some(kind) => {
                if toks.len() <= 1 || !(toks[1] is Semi) {
                    Err(DescriptorParseError::MissingSemiAfterKind)
                } else if toks.len() <= 2 || !(toks[2] is Ident) {
                    Err(DescriptorParseError::MissingFnName)
                } else {
                    let name = toks[2]->Ident_0;
                    if toks.len() == 3 {
                        Ok(
                            InputModel {
                                lua_impl_type: kind,
                                fn_name: name,
                                args: Seq::empty(),
                                rets: Seq::empty(),
                                last: false,
                            },
                        )
                    } else if !(toks[3] is Semi) {
                        Err(DescriptorParseError::MissingSemiAfterName)
                    } else {
                        match parse_args_spec(toks, 4, Seq::empty()) {
                            Err(e) => Err(e),
                            Ok((args, i)) => {
                                if i >= toks.len() {
                                    Ok(
                                        InputModel {
                                            lua_impl_type: kind,
                                            fn_name: name,
                                            args,
                                            rets: Seq::empty(),
                                            last: false,
                                        },
                                    )
                                } else {
                                    match parse_args_spec(toks, i, Seq::empty()) {
                                        Err(e) => Err(e),
                                        Ok((rets, j)) => {
                                            let (last, j2): (bool, int) = if j < toks.len()
                                                && toks[j] is Block {
                                                (true, j + 1)
                                            } else {
                                                (false, j)
                                            };
                                            let j3: int = if j2 < toks.len() && toks[j2] is Semi {
                                                j2 + 1
                                            } else {
                                                j2
                                            };
                                            if j3 < toks.len() {
                                                Err(DescriptorParseError::TrailingTokens)
                                            } else {
                                                Ok(
                                                    InputModel {
                                                        lua_impl_type: kind,
                                                        fn_name: name,
                                                        args,
                                                        rets,
                                                        last,
                                                    },
                                                )
                                            }
                                        },
                                    }
                                }
                            },
                        }
                    }
                }
            },
        }
    }
}

impl LuaImplType {
    /// The call kind an identifier names; anything else is a bad kind.
    pub fn convert(s: &String) -> (r: Result<LuaImplType, DescriptorParseError>)
        ensures
            match r {
                Ok(k) => kind_of_ident(s@) == Some(k),
                Err(e) => kind_of_ident(s@) is None && e == DescriptorParseError::BadImplType,
            },
    {
        if str_eq(s, "f") {
            Ok(LuaImplType::Function)
        } else if str_eq(s, "m") {
            Ok(LuaImplType::MethodRef)
        } else if str_eq(s, "mm") {
            Ok(LuaImplType::MethodMut)
        } else if str_eq(s, "ms") {
            Ok(LuaImplType::MethodSelf)
        } else {
            Err(DescriptorParseError::BadImplType)
        }
    }
}

impl Converter {
    /// The conversion directive an identifier names; anything else is a bad
    /// converter.
    pub fn parse(s: &String) -> (r: Result<Converter, DescriptorParseError>)
        ensures
            match r {
                Ok(c) => conv_of_ident(s@) == Some(c),
                Err(e) => conv_of_ident(s@) is None && e == DescriptorParseError::BadConverter,
            },
    {
        if str_eq(s, "clone") {
            Ok(Converter::Clone)
        } else if str_eq(s, "nointo") {
            Ok(Converter::NoInto)
        } else if str_eq(s, "ref") {
            Ok(Converter::Ref)
        } else {
            Err(DescriptorParseError::BadConverter)
        }
    }
}

/// Parses one descriptor list (arguments or returns) starting at `*i`,
/// appending to `acc`.
fn parse_args_exec(toks: &Vec<DescToken>, i: &mut usize, acc: &mut Vec<Arg>) -> (r: Result<
    (),
    DescriptorParseError,
>)
    requires
        *old(i) <= toks@.len(),
    ensures
        match r {
            Ok(()) => {
                &&& parse_args_spec(toks_model(toks@), *old(i) as int, args_model(old(acc)@))
                    == Ok::<_, DescriptorParseError>((args_model(final(acc)@), *final(i) as int))
                &&& *final(i) <= toks@.len()
            },
            Err(e) => parse_args_spec(toks_model(toks@), *old(i) as int, args_model(old(acc)@))
                == Err::<(Seq<ArgModel>, int), _>(e),
        },
    decreases toks@.len() - *old(i),
{
    let ghost tm = toks_model(toks@);
    proof {
        assert(tm.len() == toks@.len());
        assert(forall|k: int| 0 <= k < toks@.len() ==> tm[k] == toks@[k]@);
    }
    let n = toks.len();
    if *i >= n {
        return Ok(());
    }
    if matches!(&toks[*i], DescToken::Semi) {
        *i += 1;
        return Ok(());
    }
    if acc.len() >= 4 {
        return Err(DescriptorParseError::TooMany);
    }
    match &toks[*i] {
        DescToken::Ident(ty) => {
            let mut conv = Converter::Into;
            let mut j = *i + 1;
            if j < n {
                match &toks[j] {
                    DescToken::Block => {
                        conv = Converter::Block;
                        j += 1;
                    },
                    DescToken::Ident(c) => {
                        match Converter::parse(c) {
                            Ok(k) => {
                                conv = k;
                                j += 1;
                            },
                            Err(e) => {
                                return Err(e);
                            },
                        }
                    },
                    _ => {
                    },
                }
            }
            let arg = Arg { outer_type: ty.clone(), converter: conv };
            proof {
                assert(args_model(acc@.push(arg)) =~= args_model(acc@).push(arg@));
            }
            if j < n {
                match &toks[j] {
                    DescToken::Comma => {
                        acc.push(arg);
                        *i = j + 1;
                        return parse_args_exec(toks, i, acc);
                    },
                    DescToken::Semi => {
                        acc.push(arg);
                        *i = j;
                        return parse_args_exec(toks, i, acc);
                    },
                    _ => {
                        return Err(DescriptorParseError::ExpectedSeparator);
                    },
                }
            } else {
                acc.push(arg);
                *i = j;
                return parse_args_exec(toks, i, acc);
            }
        },
        _ => {
            return Err(DescriptorParseError::ExpectedTypeName);
        },
    }
}

impl InputTokens {
    /// Parses a descriptor from its tokens, exactly as the grammar reads
    /// them: success and every failure agree with [`parse_spec`].
    pub fn parse(toks: &Vec<DescToken>) -> (r: Result<InputTokens, DescriptorParseError>)
        ensures
            match r {
                Ok(d) => parse_spec(toks_model(toks@)) == Ok::<_, DescriptorParseError>(d@),
                Err(e) => parse_spec(toks_model(toks@)) == Err::<InputModel, _>(e),
            },
    {
        let ghost tm = toks_model(toks@);
        proof {
            assert(tm.len() == toks@.len());
            assert(forall|k: int| 0 <= k < toks@.len() ==> tm[k] == toks@[k]@);
            assert(args_model(Seq::<Arg>::empty()) =~= Seq::<ArgModel>::empty());
        }
        let n = toks.len();
        if n == 0 {
            return Err(DescriptorParseError::BadImplType);
        }
        let kind = match &toks[0] {
            DescToken::Ident(s) => match LuaImplType::convert(s) {
                Ok(k) => k,
                Err(e) => {
                    return Err(e);
                },
            },
            _ => {
                return Err(DescriptorParseError::BadImplType);
            },
        };
        if n <= 1 || !matches!(&toks[1], DescToken::Semi) {
            return Err(DescriptorParseError::MissingSemiAfterKind);
        }
        if n <= 2 {
            return Err(DescriptorParseError::MissingFnName);
        }
        let name = match &toks[2] {
            DescToken::Ident(s) => s.clone(),
            _ => {
                return Err(DescriptorParseError::MissingFnName);
            },
        };
        if n == 3 {
            return Ok(
                InputTokens {
                    lua_impl_type: kind,
                    fn_name: name,
                    args: Vec::new(),
                    rets: Vec::new(),
                    last: false,
                },
            );
        }
        if !matches!(&toks[3], DescToken::Semi) {
            return Err(DescriptorParseError::MissingSemiAfterName);
        }
        let mut i: usize = 4;
        let mut args: Vec<Arg> = Vec::new();
        proof {
            assert(args_model(Seq::<Arg>::empty()) =~= Seq::<ArgModel>::empty());
        }
        match parse_args_exec(toks, &mut i, &mut args) {
            Ok(()) => (),
            Err(e) => {
                return Err(e);
            },
        }
        if i >= n {
            return Ok(
                InputTokens {
                    lua_impl_type: kind,
                    fn_name: name,
                    args,
                    rets: Vec::new(),
                    last: false,
                },
            );
        }
        let mut rets: Vec<Arg> = Vec::new();
        match parse_args_exec(toks, &mut i, &mut rets) {
            Ok(()) => (),
            Err(e) => {
                return Err(e);
            },
        }
        let mut last = false;
        if i < n && matches!(&toks[i], DescToken::Block) {
            last = true;
            i += 1;
        }
        if i < n && matches!(&toks[i], DescToken::Semi) {
            i += 1;
        }
        if i < n {
            return Err(DescriptorParseError::TrailingTokens);
        }
        Ok(InputTokens { lua_impl_type: kind, fn_name: name, args, rets, last })
    }
}

} // verus!
