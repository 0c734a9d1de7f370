use luaegui::descriptor::{
    Converter, DescToken, DescriptorParseError, InputTokens, LuaImplType,
};

fn ident(s: &str) -> DescToken {
    DescToken::Ident(s.to_string())
}

#[test]
fn check_input_syntax() {
    // m ; interact; f32, Vec clone, String {let a2 = whatever;};
    let tokens = vec![
        ident("m"),
        DescToken::Semi,
        ident("interact"),
        DescToken::Semi,
        ident("f32"),
        DescToken::Comma,
        ident("Vec"),
        ident("clone"),
        DescToken::Comma,
        ident("String"),
        DescToken::Block,
        DescToken::Semi,
    ];
    let parsed = InputTokens::parse(&tokens).expect("failed to parse InputTokens Type");
    assert!(matches!(parsed.lua_impl_type, LuaImplType::MethodRef));
    assert_eq!(parsed.fn_name, "interact");
    assert_eq!(parsed.args.len(), 3);
    assert_eq!(parsed.args[0].outer_type, "f32");
    assert!(matches!(parsed.args[0].converter, Converter::Into));
    assert_eq!(parsed.args[1].outer_type, "Vec");
    assert!(matches!(parsed.args[1].converter, Converter::Clone));
    assert_eq!(parsed.args[2].outer_type, "String");
    assert!(matches!(parsed.args[2].converter, Converter::Block));
    assert_eq!(parsed.rets.len(), 0);
    assert!(!parsed.last);
}

#[test]
fn parses_kind_name_only() {
    let tokens = vec![ident("mm"), DescToken::Semi, ident("reset_style")];
    let parsed = InputTokens::parse(&tokens).unwrap();
    assert!(matches!(parsed.lua_impl_type, LuaImplType::MethodMut));
    assert_eq!(parsed.fn_name, "reset_style");
    assert!(parsed.args.is_empty());
    assert!(parsed.rets.is_empty());
}

#[test]
fn parses_empty_args_with_rets() {
    // m; is_enabled;; bool
    let tokens = vec![
        ident("m"),
        DescToken::Semi,
        ident("is_enabled"),
        DescToken::Semi,
        DescToken::Semi,
        ident("bool"),
    ];
    let parsed = InputTokens::parse(&tokens).unwrap();
    assert_eq!(parsed.fn_name, "is_enabled");
    assert!(parsed.args.is_empty());
    assert_eq!(parsed.rets.len(), 1);
    assert_eq!(parsed.rets[0].outer_type, "bool");
}

#[test]
fn parses_converters() {
    let tokens = vec![
        ident("f"),
        DescToken::Semi,
        ident("mix"),
        DescToken::Semi,
        ident("a"),
        ident("nointo"),
        DescToken::Comma,
        ident("b"),
        ident("ref"),
    ];
    let parsed = InputTokens::parse(&tokens).unwrap();
    assert!(matches!(parsed.lua_impl_type, LuaImplType::Function));
    assert!(matches!(parsed.args[0].converter, Converter::NoInto));
    assert!(matches!(parsed.args[1].converter, Converter::Ref));
}

#[test]
fn parses_override_block() {
    // ms; take;;; { ... };
    let tokens = vec![
        ident("ms"),
        DescToken::Semi,
        ident("take"),
        DescToken::Semi,
        DescToken::Semi,
        DescToken::Semi,
        DescToken::Block,
        DescToken::Semi,
    ];
    let parsed = InputTokens::parse(&tokens).unwrap();
    assert!(matches!(parsed.lua_impl_type, LuaImplType::MethodSelf));
    assert!(parsed.last);
}

#[test]
fn rejects_bad_kind() {
    let tokens = vec![ident("zz"), DescToken::Semi, ident("x")];
    assert_eq!(InputTokens::parse(&tokens).unwrap_err(), DescriptorParseError::BadImplType);
    let tokens = vec![DescToken::Semi];
    assert_eq!(InputTokens::parse(&tokens).unwrap_err(), DescriptorParseError::BadImplType);
}

#[test]
fn rejects_missing_semicolons_and_name() {
    let tokens = vec![ident("m"), ident("x")];
    assert_eq!(InputTokens::parse(&tokens).unwrap_err(), DescriptorParseError::MissingSemiAfterKind);
    let tokens = vec![ident("m"), DescToken::Semi];
    assert_eq!(InputTokens::parse(&tokens).unwrap_err(), DescriptorParseError::MissingFnName);
    let tokens = vec![ident("m"), DescToken::Semi, ident("x"), ident("y")];
    assert_eq!(InputTokens::parse(&tokens).unwrap_err(), DescriptorParseError::MissingSemiAfterName);
}

#[test]
fn rejects_more_than_four_args() {
    let tokens = vec![
        ident("m"),
        DescToken::Semi,
        ident("big"),
        DescToken::Semi,
        ident("a"),
        DescToken::Comma,
        ident("b"),
        DescToken::Comma,
        ident("c"),
        DescToken::Comma,
        ident("d"),
        DescToken::Comma,
        ident("e"),
    ];
    assert_eq!(InputTokens::parse(&tokens).unwrap_err(), DescriptorParseError::TooMany);
}

#[test]
fn rejects_bad_positions() {
    // a comma where a type name should stand
    let tokens = vec![
        ident("m"),
        DescToken::Semi,
        ident("x"),
        DescToken::Semi,
        DescToken::Comma,
    ];
    assert_eq!(InputTokens::parse(&tokens).unwrap_err(), DescriptorParseError::ExpectedTypeName);
    // an unknown converter ident
    let tokens = vec![
        ident("m"),
        DescToken::Semi,
        ident("x"),
        DescToken::Semi,
        ident("a"),
        ident("weird"),
    ];
    assert_eq!(InputTokens::parse(&tokens).unwrap_err(), DescriptorParseError::BadConverter);
    // a block where a separator should stand
    let tokens = vec![
        ident("m"),
        DescToken::Semi,
        ident("x"),
        DescToken::Semi,
        ident("a"),
        ident("clone"),
        DescToken::Block,
    ];
    assert_eq!(InputTokens::parse(&tokens).unwrap_err(), DescriptorParseError::ExpectedSeparator);
}

#[test]
fn rejects_trailing_tokens() {
    let tokens = vec![
        ident("m"),
        DescToken::Semi,
        ident("x"),
        DescToken::Semi,
        DescToken::Semi,
        DescToken::Semi,
        DescToken::Block,
        DescToken::Semi,
        ident("junk"),
    ];
    assert_eq!(InputTokens::parse(&tokens).unwrap_err(), DescriptorParseError::TrailingTokens);
}

#[test]
fn kind_and_converter_names() {
    assert!(matches!(
        LuaImplType::convert(&"f".to_string()),
        Ok(LuaImplType::Function)
    ));
    assert!(matches!(
        LuaImplType::convert(&"ms".to_string()),
        Ok(LuaImplType::MethodSelf)
    ));
    assert!(LuaImplType::convert(&"fn".to_string()).is_err());
    assert!(matches!(
        Converter::parse(&"clone".to_string()),
        Ok(Converter::Clone)
    ));
    assert!(matches!(
        Converter::parse(&"nointo".to_string()),
        Ok(Converter::NoInto)
    ));
    assert!(matches!(Converter::parse(&"ref".to_string()), Ok(Converter::Ref)));
    assert!(Converter::parse(&"into".to_string()).is_err());
}
