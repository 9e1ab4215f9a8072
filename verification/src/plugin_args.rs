//! The declaration of a pass plugin: reading the arguments of the
//! `plugin` attribute (`name = "...", version = "..."`) and the data that
//! the generated `llvmGetPassPluginInfo` entry point hands to LLVM.

use vstd::prelude::*;
use vstd::slice::slice_to_vec;
use vstd::string::{StringExecFns, StringSliceAdditionalSpecFns};
use vstd::utf8::encode_utf8;

use crate::error::{is_first_nul, law_c_string_reads_back, nul_free_before};

use crate::plugin::{plugin_api_version, LLVM_PLUGIN_API_VERSION};

verus! {

/// A token of the attribute's arguments.
#[derive(Debug, PartialEq, Eq)]
pub enum AttrToken {
    /// An identifier, by its text.
    Ident(String),
    /// A punctuation character.
    Punct(char),
    /// A literal, by its source text (quotes and escapes included).
    Literal(String),
    /// A delimited group.
    Group,
}

/// The value of a string literal written as `token` (quotes, escapes and
/// an optional suffix included), or `None` when `token` is no string
/// literal.
pub uninterp spec fn string_literal_value(token: Seq<char>) -> Option<Seq<char>>;

/// A character that stands for itself inside a string literal.
pub open spec fn plain_literal_char(c: char) -> bool {
    ' ' <= c <= '~' && c != '"' && c != '\\'
}

/// The source text of a string literal without escapes: the characters
/// between two double quotes.
pub open spec fn plain_string_literal(token: Seq<char>) -> bool {
    &&& token.len() >= 2
    &&& token[0] == '"'
    &&& token[token.len() - 1] == '"'
    &&& forall|i: int| 1 <= i < token.len() - 1 ==> plain_literal_char(#[trigger] token[i])
}

/// The view of an optional string.
pub open spec fn option_string_view(s: Option<String>) -> Option<Seq<char>> {
    match s {
        Some(v) => Some(v@),
        None => None,
    }
}

/// Calls `syn::parse_str::<syn::LitStr>` on the literal's source text and,
/// where it parses, `LitStr::value`. The value is named
/// `string_literal_value`; for a literal whose characters between the
/// quotes are printable ASCII other than `"` and `\`, it is those
/// characters.
#[verifier::external_body]
fn literal_string_value(token: &str) -> (r: Option<String>)
    ensures
        option_string_view(r) == string_literal_value(token@),
        plain_string_literal(token@) ==> option_string_view(r) == Some(
            token@.subrange(1, token@.len() - 1),
        ),
{
    syn::parse_str::<syn::LitStr>(token).ok().map(|lit| lit.value())
}

/// Why the arguments of the `plugin` attribute were refused.
#[derive(Debug, PartialEq, Eq)]
pub enum PluginArgsError {
    /// An identifier was expected; `at_end` when the arguments ended there.
    ExpectedIdent { at_end: bool },
    /// A keyword (or `_`) stands where an identifier was expected.
    FoundKeyword(String),
    /// The first identifier is not `name`.
    ExpectedName,
    /// The second identifier is not `version`.
    ExpectedVersion,
    /// `=` was expected.
    ExpectedEq,
    /// `,` was expected.
    ExpectedComma,
    /// A string literal was expected; `at_end` when the arguments ended
    /// there.
    ExpectedStringLiteral { at_end: bool },
    /// Tokens follow the version.
    UnexpectedToken,
}

impl PluginArgsError {
    /// The message reported for this error.
    pub open spec fn spec_message(self) -> Seq<char> {
        match self {
            PluginArgsError::ExpectedIdent { at_end } => if at_end {
                "unexpected end of input, expected identifier"@
            } else {
                "expected identifier"@
            },
            PluginArgsError::FoundKeyword(k) => "expected identifier, found keyword `"@ + k@
                + "`"@,
            PluginArgsError::ExpectedName => "expected `name = \"...\"`"@,
            PluginArgsError::ExpectedVersion => "expected `version = \"...\"`"@,
            PluginArgsError::ExpectedEq => "expected `=`"@,
            PluginArgsError::ExpectedComma => "expected `,`"@,
            PluginArgsError::ExpectedStringLiteral { at_end } => if at_end {
                "unexpected end of input, expected string literal"@
            } else {
                "expected string literal"@
            },
            PluginArgsError::UnexpectedToken => "unexpected token"@,
        }
    }

    /// The message reported for this error.
    pub fn message(&self) -> (m: String)
        ensures
            m@ == self.spec_message(),
    {
        match self {
            PluginArgsError::ExpectedIdent { at_end } => if *at_end {
                String::from_str("unexpected end of input, expected identifier")
            } else {
                String::from_str("expected identifier")
            },
            PluginArgsError::FoundKeyword(k) => {
                let mut m = String::from_str("expected identifier, found keyword `");
                m.append(k.as_str());
                m.append("`");
                m
            },
            PluginArgsError::ExpectedName => String::from_str("expected `name = \"...\"`"),
            PluginArgsError::ExpectedVersion => String::from_str("expected `version = \"...\"`"),
            PluginArgsError::ExpectedEq => String::from_str("expected `=`"),
            PluginArgsError::ExpectedComma => String::from_str("expected `,`"),
            PluginArgsError::ExpectedStringLiteral { at_end } => if *at_end {
                String::from_str("unexpected end of input, expected string literal")
            } else {
                String::from_str("expected string literal")
            },
            PluginArgsError::UnexpectedToken => String::from_str("unexpected token"),
        }
    }
}

/// A word that cannot stand as an identifier: a Rust keyword or `_`.
pub open spec fn reserved_word(s: Seq<char>) -> bool {
    s == "_"@
        || s == "abstract"@
        || s == "as"@
        || s == "async"@
        || s == "await"@
        || s == "become"@
        || s == "box"@
        || s == "break"@
        || s == "const"@
        || s == "continue"@
        || s == "crate"@
        || s == "do"@
        || s == "dyn"@
        || s == "else"@
        || s == "enum"@
        || s == "extern"@
        || s == "false"@
        || s == "final"@
        || s == "fn"@
        || s == "for"@
        || s == "if"@
        || s == "impl"@
        || s == "in"@
        || s == "let"@
        || s == "loop"@
        || s == "macro"@
        || s == "match"@
        || s == "mod"@
        || s == "move"@
        || s == "mut"@
        || s == "override"@
        || s == "priv"@
        || s == "pub"@
        || s == "ref"@
        || s == "return"@
        || s == "Self"@
        || s == "self"@
        || s == "static"@
        || s == "struct"@
        || s == "super"@
        || s == "trait"@
        || s == "true"@
        || s == "try"@
        || s == "type"@
        || s == "typeof"@
        || s == "unsafe"@
        || s == "unsized"@
        || s == "use"@
        || s == "virtual"@
        || s == "where"@
        || s == "while"@
        || s == "yield"@
}

fn text_eq(s: &String, text: &str) -> (r: bool)
    ensures
        r == (s@ == text@),
{
    let expected = String::from_str(text);
    *s == expected
}

fn is_reserved_word(s: &String) -> (r: bool)
    ensures
        r == reserved_word(s@),
{
    text_eq(s, "_")
        || text_eq(s, "abstract")
        || text_eq(s, "as")
        || text_eq(s, "async")
        || text_eq(s, "await")
        || text_eq(s, "become")
        || text_eq(s, "box")
        || text_eq(s, "break")
        || text_eq(s, "const")
        || text_eq(s, "continue")
        || text_eq(s, "crate")
        || text_eq(s, "do")
        || text_eq(s, "dyn")
        || text_eq(s, "else")
        || text_eq(s, "enum")
        || text_eq(s, "extern")
        || text_eq(s, "false")
        || text_eq(s, "final")
        || text_eq(s, "fn")
        || text_eq(s, "for")
        || text_eq(s, "if")
        || text_eq(s, "impl")
        || text_eq(s, "in")
        || text_eq(s, "let")
        || text_eq(s, "loop")
        || text_eq(s, "macro")
        || text_eq(s, "match")
        || text_eq(s, "mod")
        || text_eq(s, "move")
        || text_eq(s, "mut")
        || text_eq(s, "override")
        || text_eq(s, "priv")
        || text_eq(s, "pub")
        || text_eq(s, "ref")
        || text_eq(s, "return")
        || text_eq(s, "Self")
        || text_eq(s, "self")
        || text_eq(s, "static")
        || text_eq(s, "struct")
        || text_eq(s, "super")
        || text_eq(s, "trait")
        || text_eq(s, "true")
        || text_eq(s, "try")
        || text_eq(s, "type")
        || text_eq(s, "typeof")
        || text_eq(s, "unsafe")
        || text_eq(s, "unsized")
        || text_eq(s, "use")
        || text_eq(s, "virtual")
        || text_eq(s, "where")
        || text_eq(s, "while")
        || text_eq(s, "yield")
}

/// The arguments of the `plugin` attribute.
#[derive(Debug, PartialEq, Eq)]
pub struct PluginArgs {
    pub name: String,
    pub version: String,
}

/// `token` is the identifier `text`.
pub open spec fn is_ident(token: AttrToken, text: Seq<char>) -> bool {
    token matches AttrToken::Ident(s) && s@ == text
}

/// `token` is the punctuation `c`.
pub open spec fn is_punct(token: AttrToken, c: char) -> bool {
    token == AttrToken::Punct(c)
}

/// The value of `token` as a string literal, if it is one: for a literal
/// without escapes, the characters between the quotes.
pub open spec fn literal_value(token: AttrToken) -> Option<Seq<char>> {
    match token {
        AttrToken::Literal(s) => if plain_string_literal(s@) {
            Some(s@.subrange(1, s@.len() - 1))
        } else {
            string_literal_value(s@)
        },
        _ => None,
    }
}

/// What is wrong with `t[i]` as an identifier, if anything: the
/// arguments end before it, it is no identifier, or it is a reserved word.
pub open spec fn ident_error(t: Seq<AttrToken>, i: int) -> Option<PluginArgsError> {
    if t.len() <= i {
        Some(PluginArgsError::ExpectedIdent { at_end: true })
    } else {
        match t[i] {
            AttrToken::Ident(s) => if reserved_word(s@) {
                Some(PluginArgsError::FoundKeyword(s))
            } else {
                None
            },
            _ => Some(PluginArgsError::ExpectedIdent { at_end: false }),
        }
    }
}

/// What is wrong with `t[i]` as a string literal, if anything.
pub open spec fn literal_error(t: Seq<AttrToken>, i: int) -> Option<PluginArgsError> {
    if t.len() <= i {
        Some(PluginArgsError::ExpectedStringLiteral { at_end: true })
    } else if literal_value(t[i]) is None {
        Some(PluginArgsError::ExpectedStringLiteral { at_end: false })
    } else {
        None
    }
}

/// How the arguments `name = "<name>", version = "<version>"` are read:
/// the values of the two literals, or the first thing that is wrong.
pub open spec fn spec_parse_plugin_args(t: Seq<AttrToken>) -> Result<
    (Seq<char>, Seq<char>),
    PluginArgsError,
> {
    if ident_error(t, 0) is Some {
        Err(ident_error(t, 0).unwrap())
    } else if !is_ident(t[0], "name"@) {
        Err(PluginArgsError::ExpectedName)
    } else if t.len() < 2 || !is_punct(t[1], '=') {
        Err(PluginArgsError::ExpectedEq)
    } else if literal_error(t, 2) is Some {
        Err(literal_error(t, 2).unwrap())
    } else if t.len() < 4 || !is_punct(t[3], ',') {
        Err(PluginArgsError::ExpectedComma)
    } else if ident_error(t, 4) is Some {
        Err(ident_error(t, 4).unwrap())
    } else if !is_ident(t[4], "version"@) {
        Err(PluginArgsError::ExpectedVersion)
    } else if t.len() < 6 || !is_punct(t[5], '=') {
        Err(PluginArgsError::ExpectedEq)
    } else if literal_error(t, 6) is Some {
        Err(literal_error(t, 6).unwrap())
    } else if t.len() > 7 {
        Err(PluginArgsError::UnexpectedToken)
    } else {
        Ok((literal_value(t[2]).unwrap(), literal_value(t[6]).unwrap()))
    }
}

fn ident_is(token: &AttrToken, text: &str) -> (r: bool)
    ensures
        r == is_ident(*token, text@),
{
    match token {
        AttrToken::Ident(s) => {
            let expected = String::from_str(text);
            *s == expected
        },
        _ => false,
    }
}

fn check_ident(tokens: &[AttrToken], i: usize) -> (r: Option<PluginArgsError>)
    ensures
        r == ident_error(tokens@, i as int),
{
    if tokens.len() <= i {
        return Some(PluginArgsError::ExpectedIdent { at_end: true });
    }
    match &tokens[i] {
        AttrToken::Ident(s) => if is_reserved_word(s) {
            Some(PluginArgsError::FoundKeyword(s.clone()))
        } else {
            None
        },
        _ => Some(PluginArgsError::ExpectedIdent { at_end: false }),
    }
}

fn literal_at(tokens: &[AttrToken], i: usize) -> (r: Result<String, PluginArgsError>)
    ensures
        match literal_error(tokens@, i as int) {
            Some(e) => r == Err::<String, PluginArgsError>(e),
            None => r matches Ok(v) && Some(v@) == literal_value(tokens@[i as int]),
        },
{
    if tokens.len() <= i {
        return Err(PluginArgsError::ExpectedStringLiteral { at_end: true });
    }
    match literal_of(&tokens[i]) {
        Some(v) => Ok(v),
        None => Err(PluginArgsError::ExpectedStringLiteral { at_end: false }),
    }
}

fn punct_is(token: &AttrToken, c: char) -> (r: bool)
    ensures
        r == is_punct(*token, c),
{
    match token {
        AttrToken::Punct(p) => *p == c,
        _ => false,
    }
}

fn literal_of(token: &AttrToken) -> (r: Option<String>)
    ensures
        option_string_view(r) == literal_value(*token),
{
    match token {
        AttrToken::Literal(s) => literal_string_value(s.as_str()),
        _ => None,
    }
}

/// Read the arguments `name = "<name>", version = "<version>"` of the
/// `plugin` attribute.
pub fn parse_plugin_args(tokens: &[AttrToken]) -> (r: Result<PluginArgs, PluginArgsError>)
    ensures
        match spec_parse_plugin_args(tokens@) {
            Ok((name, version)) => r matches Ok(args) && args.name@ == name && args.version@
                == version,
            Err(e) => r == Err::<PluginArgs, PluginArgsError>(e),
        },
{
    let n = tokens.len();
    if let Some(e) = check_ident(tokens, 0) {
        return Err(e);
    }
    if !ident_is(&tokens[0], "name") {
        return Err(PluginArgsError::ExpectedName);
    }
    if n < 2 || !punct_is(&tokens[1], '=') {
        return Err(PluginArgsError::ExpectedEq);
    }
    let name = match literal_at(tokens, 2) {
        Ok(v) => v,
        Err(e) => {
            return Err(e);
        },
    };
    if n < 4 || !punct_is(&tokens[3], ',') {
        return Err(PluginArgsError::ExpectedComma);
    }
    if let Some(e) = check_ident(tokens, 4) {
        return Err(e);
    }
    if !ident_is(&tokens[4], "version") {
        return Err(PluginArgsError::ExpectedVersion);
    }
    if n < 6 || !punct_is(&tokens[5], '=') {
        return Err(PluginArgsError::ExpectedEq);
    }
    let version = match literal_at(tokens, 6) {
        Ok(v) => v,
        Err(e) => {
            return Err(e);
        },
    };
    if n > 7 {
        return Err(PluginArgsError::UnexpectedToken);
    }
    Ok(PluginArgs { name, version })
}

/// What the generated `llvmGetPassPluginInfo` entry point hands to LLVM:
/// the plugin API version, the plugin's name and version as C strings,
/// and the name of the generated registrar wrapper.
#[derive(Debug, PartialEq, Eq)]
pub struct PluginDefinition {
    pub api_version: u32,
    pub plugin_name: Vec<u8>,
    pub plugin_version: Vec<u8>,
    pub registrar_sys: String,
}

/// The bytes of `text` followed by a nul byte: the content of the C
/// string literal written for `text`.
pub fn nul_terminated(text: &str) -> (r: Vec<u8>)
    ensures
        r@ == text.spec_bytes().push(0u8),
{
    let mut r = slice_to_vec(text.as_bytes());
    r.push(0u8);
    r
}

/// The definition of the plugin declared with `args` on the registrar
/// function `registrar`: the name and version become C strings and the
/// registrar's C wrapper is named after it with the suffix `_sys`.
pub fn plugin_definition(args: &PluginArgs, registrar: &str) -> (d: PluginDefinition)
    ensures
        d.api_version == LLVM_PLUGIN_API_VERSION,
        d.plugin_name@ == encode_utf8(args.name@).push(0u8),
        d.plugin_version@ == encode_utf8(args.version@).push(0u8),
        d.registrar_sys@ == registrar@ + "_sys"@,
{
    let mut registrar_sys = String::from_str(registrar);
    registrar_sys.append("_sys");
    PluginDefinition {
        api_version: plugin_api_version(),
        plugin_name: nul_terminated(args.name.as_str()),
        plugin_version: nul_terminated(args.version.as_str()),
        registrar_sys,
    }
}

/// The definition of the plugin declared by the attribute arguments
/// `tokens` on the registrar function `registrar`, or why the arguments
/// were refused.
pub fn expand_plugin(tokens: &[AttrToken], registrar: &str) -> (r: Result<
    PluginDefinition,
    PluginArgsError,
>)
    ensures
        match spec_parse_plugin_args(tokens@) {
            Ok((name, version)) => r matches Ok(d) && {
                &&& d.api_version == LLVM_PLUGIN_API_VERSION
                &&& d.plugin_name@ == encode_utf8(name).push(0u8)
                &&& d.plugin_version@ == encode_utf8(version).push(0u8)
                &&& d.registrar_sys@ == registrar@ + "_sys"@
            },
            Err(e) => r == Err::<PluginDefinition, PluginArgsError>(e),
        },
{
    match parse_plugin_args(tokens) {
        Ok(args) => Ok(plugin_definition(&args, registrar)),
        Err(e) => Err(e),
    }
}

/// `name` and `version` are identifiers, not reserved words.
pub proof fn lemma_argument_names_not_reserved()
    ensures
        !reserved_word("name"@),
        !reserved_word("version"@),
{
    reveal_strlit("name");
    reveal_strlit("version");
    reveal_strlit("_");
    reveal_strlit("abstract");
    reveal_strlit("as");
    reveal_strlit("async");
    reveal_strlit("await");
    reveal_strlit("become");
    reveal_strlit("box");
    reveal_strlit("break");
    reveal_strlit("const");
    reveal_strlit("continue");
    reveal_strlit("crate");
    reveal_strlit("do");
    reveal_strlit("dyn");
    reveal_strlit("else");
    reveal_strlit("enum");
    reveal_strlit("extern");
    reveal_strlit("false");
    reveal_strlit("final");
    reveal_strlit("fn");
    reveal_strlit("for");
    reveal_strlit("if");
    reveal_strlit("impl");
    reveal_strlit("in");
    reveal_strlit("let");
    reveal_strlit("loop");
    reveal_strlit("macro");
    reveal_strlit("match");
    reveal_strlit("mod");
    reveal_strlit("move");
    reveal_strlit("mut");
    reveal_strlit("override");
    reveal_strlit("priv");
    reveal_strlit("pub");
    reveal_strlit("ref");
    reveal_strlit("return");
    reveal_strlit("Self");
    reveal_strlit("self");
    reveal_strlit("static");
    reveal_strlit("struct");
    reveal_strlit("super");
    reveal_strlit("trait");
    reveal_strlit("true");
    reveal_strlit("try");
    reveal_strlit("type");
    reveal_strlit("typeof");
    reveal_strlit("unsafe");
    reveal_strlit("unsized");
    reveal_strlit("use");
    reveal_strlit("virtual");
    reveal_strlit("where");
    reveal_strlit("while");
    reveal_strlit("yield");
    assert("name"@.len() != "_"@.len());
    assert("name"@.len() != "abstract"@.len());
    assert("name"@.len() != "as"@.len());
    assert("name"@.len() != "async"@.len());
    assert("name"@.len() != "await"@.len());
    assert("name"@.len() != "become"@.len());
    assert("name"@.len() != "box"@.len());
    assert("name"@.len() != "break"@.len());
    assert("name"@.len() != "const"@.len());
    assert("name"@.len() != "continue"@.len());
    assert("name"@.len() != "crate"@.len());
    assert("name"@.len() != "do"@.len());
    assert("name"@.len() != "dyn"@.len());
    assert("name"@[0] != "else"@[0]);
    assert("name"@[0] != "enum"@[0]);
    assert("name"@.len() != "extern"@.len());
    assert("name"@.len() != "false"@.len());
    assert("name"@.len() != "final"@.len());
    assert("name"@.len() != "fn"@.len());
    assert("name"@.len() != "for"@.len());
    assert("name"@.len() != "if"@.len());
    assert("name"@[0] != "impl"@[0]);
    assert("name"@.len() != "in"@.len());
    assert("name"@.len() != "let"@.len());
    assert("name"@[0] != "loop"@[0]);
    assert("name"@.len() != "macro"@.len());
    assert("name"@.len() != "match"@.len());
    assert("name"@.len() != "mod"@.len());
    assert("name"@[0] != "move"@[0]);
    assert("name"@.len() != "mut"@.len());
    assert("name"@.len() != "override"@.len());
    assert("name"@[0] != "priv"@[0]);
    assert("name"@.len() != "pub"@.len());
    assert("name"@.len() != "ref"@.len());
    assert("name"@.len() != "return"@.len());
    assert("name"@[0] != "Self"@[0]);
    assert("name"@[0] != "self"@[0]);
    assert("name"@.len() != "static"@.len());
    assert("name"@.len() != "struct"@.len());
    assert("name"@.len() != "super"@.len());
    assert("name"@.len() != "trait"@.len());
    assert("name"@[0] != "true"@[0]);
    assert("name"@.len() != "try"@.len());
    assert("name"@[0] != "type"@[0]);
    assert("name"@.len() != "typeof"@.len());
    assert("name"@.len() != "unsafe"@.len());
    assert("name"@.len() != "unsized"@.len());
    assert("name"@.len() != "use"@.len());
    assert("name"@.len() != "virtual"@.len());
    assert("name"@.len() != "where"@.len());
    assert("name"@.len() != "while"@.len());
    assert("name"@.len() != "yield"@.len());
    assert("version"@.len() != "_"@.len());
    assert("version"@.len() != "abstract"@.len());
    assert("version"@.len() != "as"@.len());
    assert("version"@.len() != "async"@.len());
    assert("version"@.len() != "await"@.len());
    assert("version"@.len() != "become"@.len());
    assert("version"@.len() != "box"@.len());
    assert("version"@.len() != "break"@.len());
    assert("version"@.len() != "const"@.len());
    assert("version"@.len() != "continue"@.len());
    assert("version"@.len() != "crate"@.len());
    assert("version"@.len() != "do"@.len());
    assert("version"@.len() != "dyn"@.len());
    assert("version"@.len() != "else"@.len());
    assert("version"@.len() != "enum"@.len());
    assert("version"@.len() != "extern"@.len());
    assert("version"@.len() != "false"@.len());
    assert("version"@.len() != "final"@.len());
    assert("version"@.len() != "fn"@.len());
    assert("version"@.len() != "for"@.len());
    assert("version"@.len() != "if"@.len());
    assert("version"@.len() != "impl"@.len());
    assert("version"@.len() != "in"@.len());
    assert("version"@.len() != "let"@.len());
    assert("version"@.len() != "loop"@.len());
    assert("version"@.len() != "macro"@.len());
    assert("version"@.len() != "match"@.len());
    assert("version"@.len() != "mod"@.len());
    assert("version"@.len() != "move"@.len());
    assert("version"@.len() != "mut"@.len());
    assert("version"@.len() != "override"@.len());
    assert("version"@.len() != "priv"@.len());
    assert("version"@.len() != "pub"@.len());
    assert("version"@.len() != "ref"@.len());
    assert("version"@.len() != "return"@.len());
    assert("version"@.len() != "Self"@.len());
    assert("version"@.len() != "self"@.len());
    assert("version"@.len() != "static"@.len());
    assert("version"@.len() != "struct"@.len());
    assert("version"@.len() != "super"@.len());
    assert("version"@.len() != "trait"@.len());
    assert("version"@.len() != "true"@.len());
    assert("version"@.len() != "try"@.len());
    assert("version"@.len() != "type"@.len());
    assert("version"@.len() != "typeof"@.len());
    assert("version"@.len() != "unsafe"@.len());
    assert("version"@[0] != "unsized"@[0]);
    assert("version"@.len() != "use"@.len());
    assert("version"@[1] != "virtual"@[1]);
    assert("version"@.len() != "where"@.len());
    assert("version"@.len() != "while"@.len());
    assert("version"@.len() != "yield"@.len());
}

/// The characters between the quotes of a literal's source text.
pub open spec fn between_quotes(token: Seq<char>) -> Seq<char> {
    token.subrange(1, token.len() - 1)
}

/// The arguments are read only from exactly `name = <literal>, version =
/// <literal>`, and the name and version read are the values of the two
/// string literals, each whole and unchanged: for a literal without escapes,
/// every character between its quotes, in order.
pub proof fn law_read_arguments_are_the_literals(t: Seq<AttrToken>)
    requires
        spec_parse_plugin_args(t) is Ok,
    ensures
        t.len() == 7,
        t[0] matches AttrToken::Ident(s) && s@ == "name"@,
        t[1] == AttrToken::Punct('='),
        t[3] == AttrToken::Punct(','),
        t[4] matches AttrToken::Ident(s) && s@ == "version"@,
        t[5] == AttrToken::Punct('='),
        match t[2] {
            AttrToken::Literal(s) => {
                &&& plain_string_literal(s@) ==> spec_parse_plugin_args(t)->Ok_0.0
                    == between_quotes(s@)
                &&& !plain_string_literal(s@) ==> Some(spec_parse_plugin_args(t)->Ok_0.0)
                    == string_literal_value(s@)
            },
            _ => false,
        },
        match t[6] {
            AttrToken::Literal(s) => {
                &&& plain_string_literal(s@) ==> spec_parse_plugin_args(t)->Ok_0.1
                    == between_quotes(s@)
                &&& !plain_string_literal(s@) ==> Some(spec_parse_plugin_args(t)->Ok_0.1)
                    == string_literal_value(s@)
            },
            _ => false,
        },
{
}

/// The arguments `name = "<a>", version = "<b>"`, with literals without
/// escapes, are read as the name `<a>` and the version `<b>`: every
/// character between the quotes is kept, whatever their number.
pub proof fn law_plain_arguments_are_read_whole(t: Seq<AttrToken>, a: String, b: String)
    requires
        t.len() == 7,
        t[0] matches AttrToken::Ident(s) && s@ == "name"@,
        t[1] == AttrToken::Punct('='),
        t[2] == AttrToken::Literal(a),
        t[3] == AttrToken::Punct(','),
        t[4] matches AttrToken::Ident(s) && s@ == "version"@,
        t[5] == AttrToken::Punct('='),
        t[6] == AttrToken::Literal(b),
        plain_string_literal(a@),
        plain_string_literal(b@),
    ensures
        spec_parse_plugin_args(t) == Ok::<(Seq<char>, Seq<char>), PluginArgsError>(
            (between_quotes(a@), between_quotes(b@)),
        ),
        between_quotes(a@).len() == a@.len() - 2,
        between_quotes(b@).len() == b@.len() - 2,
{
    lemma_argument_names_not_reserved();
}

/// The first argument must be `name`: any other identifier that is no
/// reserved word is refused with `ExpectedName`, whatever follows.
pub proof fn law_first_argument_is_name(t: Seq<AttrToken>)
    requires
        t.len() >= 1,
        t[0] matches AttrToken::Ident(s) && !reserved_word(s@) && s@ != "name"@,
    ensures
        spec_parse_plugin_args(t) == Err::<(Seq<char>, Seq<char>), PluginArgsError>(
            PluginArgsError::ExpectedName,
        ),
{
}

/// After `name = <literal>,` the argument must be `version`: any other
/// identifier that is no reserved word is refused with `ExpectedVersion`.
pub proof fn law_second_argument_is_version(t: Seq<AttrToken>, a: String)
    requires
        t.len() >= 5,
        t[0] matches AttrToken::Ident(s) && s@ == "name"@,
        t[1] == AttrToken::Punct('='),
        t[2] == AttrToken::Literal(a),
        plain_string_literal(a@),
        t[3] == AttrToken::Punct(','),
        t[4] matches AttrToken::Ident(s) && !reserved_word(s@) && s@ != "version"@,
    ensures
        spec_parse_plugin_args(t) == Err::<(Seq<char>, Seq<char>), PluginArgsError>(
            PluginArgsError::ExpectedVersion,
        ),
{
    lemma_argument_names_not_reserved();
}

/// Reading a C string from the name handed to LLVM gives back the plugin's
/// name, provided that the name holds no nul byte: the first nul byte is
/// the terminator.
pub proof fn law_plugin_name_reads_back(name: Seq<char>, c_name: Seq<u8>)
    requires
        c_name == encode_utf8(name).push(0u8),
        nul_free_before(encode_utf8(name), encode_utf8(name).len() as int),
    ensures
        is_first_nul(c_name, encode_utf8(name).len() as int),
        c_name.subrange(0, encode_utf8(name).len() as int) == encode_utf8(name),
{
    law_c_string_reads_back(encode_utf8(name), c_name);
}

} // verus!
