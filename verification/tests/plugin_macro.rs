//! The plugin declaration that the `plugin` attribute expands to, for a
//! registrar `my_plugin_registrar` declared with
//! `name = "test-plugin", version = "1.2.3"`.

use llvm_pm::plugin::plugin_api_version;
use llvm_pm::plugin_args::{expand_plugin, AttrToken, PluginArgsError, PluginDefinition};

fn attribute_tokens() -> Vec<AttrToken> {
    vec![
        AttrToken::Ident("name".to_string()),
        AttrToken::Punct('='),
        AttrToken::Literal("\"test-plugin\"".to_string()),
        AttrToken::Punct(','),
        AttrToken::Ident("version".to_string()),
        AttrToken::Punct('='),
        AttrToken::Literal("\"1.2.3\"".to_string()),
    ]
}

/// The entry point that the attribute generates, written out.
#[allow(non_snake_case)]
fn llvmGetPassPluginInfo() -> PluginDefinition {
    expand_plugin(&attribute_tokens(), "my_plugin_registrar").expect("valid plugin attribute")
}

/// The text of a C string: the bytes before the first nul byte.
fn c_string_text(bytes: &[u8]) -> &str {
    let end = bytes.iter().position(|b| *b == 0).expect("nul-terminated");
    std::str::from_utf8(&bytes[..end]).unwrap()
}

#[test]
fn test_macro_generates_correct_api_version() {
    let info = llvmGetPassPluginInfo();
    assert_eq!(info.api_version, plugin_api_version());
    assert_eq!(info.api_version, 1);
}

#[test]
fn test_macro_generates_correct_plugin_name() {
    let info = llvmGetPassPluginInfo();
    assert_eq!(c_string_text(&info.plugin_name), "test-plugin");
}

#[test]
fn test_macro_generates_correct_plugin_version() {
    let info = llvmGetPassPluginInfo();
    assert_eq!(c_string_text(&info.plugin_version), "1.2.3");
}

#[test]
fn test_macro_registrar_points_to_generated_wrapper() {
    let info = llvmGetPassPluginInfo();
    assert_eq!(info.registrar_sys, "my_plugin_registrar_sys");
}

#[test]
fn test_macro_entry_point_is_stable_across_calls() {
    let info1 = llvmGetPassPluginInfo();
    let info2 = llvmGetPassPluginInfo();
    assert_eq!(info1.api_version, info2.api_version);
    assert_eq!(info1.plugin_name, info2.plugin_name);
    assert_eq!(info1.plugin_version, info2.plugin_version);
    assert_eq!(info1.registrar_sys, info2.registrar_sys);
}

#[test]
fn test_macro_name_is_null_terminated() {
    let info = llvmGetPassPluginInfo();
    // The expected length is "test-plugin".len() = 11.
    assert_eq!(c_string_text(&info.plugin_name).len(), 11);
    assert_eq!(info.plugin_name.len(), 12);
    assert_eq!(info.plugin_name[11], 0);
}

#[test]
fn test_macro_version_is_null_terminated() {
    let info = llvmGetPassPluginInfo();
    assert_eq!(c_string_text(&info.plugin_version).len(), 5); // "1.2.3".len()
    assert_eq!(info.plugin_version.last(), Some(&0u8));
}

#[test]
fn plugin_args_with_escapes_use_the_literal_value() {
    let mut tokens = attribute_tokens();
    tokens[2] = AttrToken::Literal("\"a\\tb\"".to_string());
    let info = expand_plugin(&tokens, "reg").unwrap();
    assert_eq!(info.plugin_name, b"a\tb\0".to_vec());
}

#[test]
fn plugin_args_errors() {
    let mut t = attribute_tokens();
    t[0] = AttrToken::Ident("title".to_string());
    assert_eq!(expand_plugin(&t, "r"), Err(PluginArgsError::ExpectedName));
    assert_eq!(PluginArgsError::ExpectedName.message(), "expected `name = \"...\"`");

    let mut t = attribute_tokens();
    t[4] = AttrToken::Ident("release".to_string());
    assert_eq!(expand_plugin(&t, "r"), Err(PluginArgsError::ExpectedVersion));
    assert_eq!(
        PluginArgsError::ExpectedVersion.message(),
        "expected `version = \"...\"`"
    );

    let mut t = attribute_tokens();
    t[1] = AttrToken::Punct(':');
    assert_eq!(expand_plugin(&t, "r"), Err(PluginArgsError::ExpectedEq));

    let mut t = attribute_tokens();
    t[2] = AttrToken::Literal("42".to_string());
    let e = expand_plugin(&t, "r").unwrap_err();
    assert_eq!(e, PluginArgsError::ExpectedStringLiteral { at_end: false });
    assert_eq!(e.message(), "expected string literal");

    let mut t = attribute_tokens();
    t[3] = AttrToken::Punct(';');
    assert_eq!(expand_plugin(&t, "r"), Err(PluginArgsError::ExpectedComma));
    assert_eq!(PluginArgsError::ExpectedComma.message(), "expected `,`");

    let mut t = attribute_tokens();
    t[4] = AttrToken::Group;
    let e = expand_plugin(&t, "r").unwrap_err();
    assert_eq!(e, PluginArgsError::ExpectedIdent { at_end: false });
    assert_eq!(e.message(), "expected identifier");

    let mut t = attribute_tokens();
    t.push(AttrToken::Punct(','));
    assert_eq!(expand_plugin(&t, "r"), Err(PluginArgsError::UnexpectedToken));
    assert_eq!(PluginArgsError::UnexpectedToken.message(), "unexpected token");

    let t = attribute_tokens();
    let e = expand_plugin(&t[..6], "r").unwrap_err();
    assert_eq!(e, PluginArgsError::ExpectedStringLiteral { at_end: true });
    assert_eq!(e.message(), "unexpected end of input, expected string literal");
    let e = expand_plugin(&t[..4], "r").unwrap_err();
    assert_eq!(e, PluginArgsError::ExpectedIdent { at_end: true });
    assert_eq!(e.message(), "unexpected end of input, expected identifier");
    let e = expand_plugin(&[], "r").unwrap_err();
    assert_eq!(e, PluginArgsError::ExpectedIdent { at_end: true });
    // A punctuation mark at the end carries no end-of-input prefix.
    assert_eq!(expand_plugin(&t[..1], "r"), Err(PluginArgsError::ExpectedEq));
    assert_eq!(PluginArgsError::ExpectedEq.message(), "expected `=`");
}

#[test]
fn plugin_args_refuse_keywords_as_identifiers() {
    let mut t = attribute_tokens();
    t[0] = AttrToken::Ident("type".to_string());
    let e = expand_plugin(&t, "r").unwrap_err();
    assert_eq!(e, PluginArgsError::FoundKeyword("type".to_string()));
    assert_eq!(e.message(), "expected identifier, found keyword `type`");

    let mut t = attribute_tokens();
    t[4] = AttrToken::Ident("_".to_string());
    let e = expand_plugin(&t, "r").unwrap_err();
    assert_eq!(e.message(), "expected identifier, found keyword `_`");

    // A raw identifier is no keyword, but it is not `name` either.
    let mut t = attribute_tokens();
    t[0] = AttrToken::Ident("r#type".to_string());
    assert_eq!(expand_plugin(&t, "r"), Err(PluginArgsError::ExpectedName));
}
