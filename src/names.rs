//! Classification of a proposed new name, lexed in isolation.
use vstd::prelude::*;
use vstd::utf8::encode_utf8;
use rustc_ap_rustc_lexer as lexer;

verus! {

/// Relies on rustc_lexer::DocStyle being the enum `Outer` / `Inner`.
#[verifier::external_type_specification]
pub struct ExDocStyle(lexer::DocStyle);

/// Relies on rustc_lexer::Base being the enum of the four integer bases.
#[verifier::external_type_specification]
pub struct ExBase(lexer::Base);

/// Relies on rustc_lexer::RawStrError being the enum of the three ways a raw
/// string can be malformed, with public fields.
#[verifier::external_type_specification]
pub struct ExRawStrError(lexer::RawStrError);

/// Relies on rustc_lexer::LiteralKind being the enum of literal kinds, with
/// public fields.
#[verifier::external_type_specification]
pub struct ExLiteralKind(lexer::LiteralKind);

/// Relies on rustc_lexer::TokenKind being the enum of token kinds, with
/// public fields.
#[verifier::external_type_specification]
pub struct ExTokenKind(lexer::TokenKind);

/// The first token of a text: its kind and its length in bytes.
#[derive(Clone, Copy, Debug)]
pub struct LexedToken {
    pub kind: lexer::TokenKind,
    pub len: usize,
}

/// The first token that the Rust lexer reads from a text.
pub uninterp spec fn first_token_of(s: Seq<char>) -> LexedToken;

/// Relies on rustc_lexer::first_token: the kind and byte length of the first
/// token of `s`, which depend on the characters of `s` alone. It panics on an
/// empty input.
#[verifier::external_body]
fn first_token(s: &str) -> (r: LexedToken)
    requires
        s@.len() > 0,
    ensures
        r == first_token_of(s@),
{
    let token = rustc_ap_rustc_lexer::first_token(s);
    LexedToken { kind: token.kind, len: token.len }
}

/// What is wrong with a token that the lexer reads but flags.
#[derive(Clone, Copy, Debug, PartialEq, Eq, Structural)]
pub enum LexError {
    UnterminatedBlockComment,
    MissingIntDigits,
    MissingExponentDigits,
    UnterminatedChar,
    UnterminatedByte,
    UnterminatedStr,
    UnterminatedByteStr,
    RawStrBadStarter,
    RawStrUnterminated,
    RawStrTooManyHashes,
    RawByteStrBadStarter,
    RawByteStrUnterminated,
    RawByteStrTooManyHashes,
}

/// The error the lexer flags on a token of kind `kind`, if any.
pub open spec fn lex_error_of(kind: lexer::TokenKind) -> Option<LexError> {
    match kind {
        lexer::TokenKind::BlockComment { terminated, .. } => if terminated {
            None
        } else {
            Some(LexError::UnterminatedBlockComment)
        },
        lexer::TokenKind::Literal { kind, .. } => match kind {
            lexer::LiteralKind::Int { empty_int, .. } => if empty_int {
                Some(LexError::MissingIntDigits)
            } else {
                None
            },
            lexer::LiteralKind::Float { empty_exponent, .. } => if empty_exponent {
                Some(LexError::MissingExponentDigits)
            } else {
                None
            },
            lexer::LiteralKind::Char { terminated } => if terminated {
                None
            } else {
                Some(LexError::UnterminatedChar)
            },
            lexer::LiteralKind::Byte { terminated } => if terminated {
                None
            } else {
                Some(LexError::UnterminatedByte)
            },
            lexer::LiteralKind::Str { terminated } => if terminated {
                None
            } else {
                Some(LexError::UnterminatedStr)
            },
            lexer::LiteralKind::ByteStr { terminated } => if terminated {
                None
            } else {
                Some(LexError::UnterminatedByteStr)
            },
            lexer::LiteralKind::RawStr { err, .. } => match err {
                None => None,
                Some(lexer::RawStrError::InvalidStarter { .. }) => Some(LexError::RawStrBadStarter),
                Some(lexer::RawStrError::NoTerminator { .. }) => Some(LexError::RawStrUnterminated),
                Some(lexer::RawStrError::TooManyDelimiters { .. }) => Some(LexError::RawStrTooManyHashes),
            },
            lexer::LiteralKind::RawByteStr { err, .. } => match err {
                None => None,
                Some(lexer::RawStrError::InvalidStarter { .. }) => Some(LexError::RawByteStrBadStarter),
                Some(lexer::RawStrError::NoTerminator { .. }) => Some(LexError::RawByteStrUnterminated),
                Some(lexer::RawStrError::TooManyDelimiters { .. }) => Some(
                    LexError::RawByteStrTooManyHashes,
                ),
            },
        },
        _ => None,
    }
}

/// Says which error the lexer flags on a token of kind `kind`, if any.
pub fn lex_error(kind: lexer::TokenKind) -> (r: Option<LexError>)
    ensures
        r == lex_error_of(kind),
{
    match kind {
        lexer::TokenKind::BlockComment { terminated, .. } => if terminated {
            None
        } else {
            Some(LexError::UnterminatedBlockComment)
        },
        lexer::TokenKind::Literal { kind, .. } => match kind {
            lexer::LiteralKind::Int { empty_int, .. } => if empty_int {
                Some(LexError::MissingIntDigits)
            } else {
                None
            },
            lexer::LiteralKind::Float { empty_exponent, .. } => if empty_exponent {
                Some(LexError::MissingExponentDigits)
            } else {
                None
            },
            lexer::LiteralKind::Char { terminated } => if terminated {
                None
            } else {
                Some(LexError::UnterminatedChar)
            },
            lexer::LiteralKind::Byte { terminated } => if terminated {
                None
            } else {
                Some(LexError::UnterminatedByte)
            },
            lexer::LiteralKind::Str { terminated } => if terminated {
                None
            } else {
                Some(LexError::UnterminatedStr)
            },
            lexer::LiteralKind::ByteStr { terminated } => if terminated {
                None
            } else {
                Some(LexError::UnterminatedByteStr)
            },
            lexer::LiteralKind::RawStr { err, .. } => match err {
                None => None,
                Some(lexer::RawStrError::InvalidStarter { .. }) => Some(LexError::RawStrBadStarter),
                Some(lexer::RawStrError::NoTerminator { .. }) => Some(LexError::RawStrUnterminated),
                Some(lexer::RawStrError::TooManyDelimiters { .. }) => Some(LexError::RawStrTooManyHashes),
            },
            lexer::LiteralKind::RawByteStr { err, .. } => match err {
                None => None,
                Some(lexer::RawStrError::InvalidStarter { .. }) => Some(LexError::RawByteStrBadStarter),
                Some(lexer::RawStrError::NoTerminator { .. }) => Some(LexError::RawByteStrUnterminated),
                Some(lexer::RawStrError::TooManyDelimiters { .. }) => Some(
                    LexError::RawByteStrTooManyHashes,
                ),
            },
        },
        _ => None,
    }
}

/// The reason shown for a lexer error.
pub open spec fn lex_error_text(e: LexError) -> Seq<char> {
    match e {
        LexError::UnterminatedBlockComment => "Missing trailing `*/` symbols to terminate the block comment"@,
        LexError::MissingIntDigits => "Missing digits after the integer base prefix"@,
        LexError::MissingExponentDigits => "Missing digits after the exponent symbol"@,
        LexError::UnterminatedChar => "Missing trailing `'` symbol to terminate the character literal"@,
        LexError::UnterminatedByte => "Missing trailing `'` symbol to terminate the byte literal"@,
        LexError::UnterminatedStr => "Missing trailing `\"` symbol to terminate the string literal"@,
        LexError::UnterminatedByteStr => "Missing trailing `\"` symbol to terminate the byte string literal"@,
        LexError::RawStrBadStarter => "Missing `\"` symbol after `#` symbols to begin the raw string literal"@,
        LexError::RawStrUnterminated => "Missing trailing `\"` with `#` symbols to terminate the raw string literal"@,
        LexError::RawStrTooManyHashes => "Too many `#` symbols: raw strings may be delimited by up to 65535 `#` symbols"@,
        LexError::RawByteStrBadStarter => "Missing `\"` symbol after `#` symbols to begin the raw byte string literal"@,
        LexError::RawByteStrUnterminated => "Missing trailing `\"` with `#` symbols to terminate the raw byte string literal"@,
        LexError::RawByteStrTooManyHashes => "Too many `#` symbols: raw byte strings may be delimited by up to 65535 `#` symbols"@,
    }
}

impl LexError {
    /// The reason shown for the error.
    pub fn message(&self) -> (r: &'static str)
        ensures
            r@ == lex_error_text(*self),
    {
        match self {
            LexError::UnterminatedBlockComment => "Missing trailing `*/` symbols to terminate the block comment",
            LexError::MissingIntDigits => "Missing digits after the integer base prefix",
            LexError::MissingExponentDigits => "Missing digits after the exponent symbol",
            LexError::UnterminatedChar => "Missing trailing `'` symbol to terminate the character literal",
            LexError::UnterminatedByte => "Missing trailing `'` symbol to terminate the byte literal",
            LexError::UnterminatedStr => "Missing trailing `\"` symbol to terminate the string literal",
            LexError::UnterminatedByteStr => "Missing trailing `\"` symbol to terminate the byte string literal",
            LexError::RawStrBadStarter => "Missing `\"` symbol after `#` symbols to begin the raw string literal",
            LexError::RawStrUnterminated => "Missing trailing `\"` with `#` symbols to terminate the raw string literal",
            LexError::RawStrTooManyHashes => "Too many `#` symbols: raw strings may be delimited by up to 65535 `#` symbols",
            LexError::RawByteStrBadStarter => "Missing `\"` symbol after `#` symbols to begin the raw byte string literal",
            LexError::RawByteStrUnterminated => "Missing trailing `\"` with `#` symbols to terminate the raw byte string literal",
            LexError::RawByteStrTooManyHashes => "Too many `#` symbols: raw byte strings may be delimited by up to 65535 `#` symbols",
        }
    }
}

/// What a proposed new name is.
#[derive(Clone, Copy, Debug, PartialEq, Eq, Structural)]
pub enum NameKind {
    /// An identifier, raw identifiers included.
    Ident,
    /// The single `_`.
    Underscore,
    /// The `self` keyword.
    SelfKw,
    /// A lifetime other than `'static` and `'_`.
    Lifetime,
    /// `'static` or `'_`, which no lifetime can be renamed to.
    ReservedLifetime,
    /// One token that the lexer flags with an error.
    LexError(LexError),
    /// Anything else: several tokens, a keyword, a literal, punctuation, nothing.
    Invalid,
}

/// The strict and reserved keywords of the language; `self` among them.
pub open spec fn is_keyword_spec(s: Seq<char>) -> bool {
    s == "as"@ || s == "async"@ || s == "await"@ || s == "box"@ || s == "break"@ || s
        == "const"@ || s == "continue"@ || s == "crate"@ || s == "dyn"@ || s == "else"@ || s
        == "enum"@ || s == "\u{65}xtern"@ || s == "false"@ || s == "fn"@ || s == "for"@ || s
        == "if"@ || s == "impl"@ || s == "in"@ || s == "let"@ || s == "loop"@ || s == "macro"@
        || s == "match"@ || s == "mod"@ || s == "move"@ || s == "mut"@ || s == "pub"@ || s
        == "ref"@ || s == "return"@ || s == "self"@ || s == "Self"@ || s == "static"@ || s
        == "struct"@ || s == "super"@ || s == "trait"@ || s == "true"@ || s == "try"@ || s
        == "type"@ || s == "unsafe"@ || s == "use"@ || s == "where"@ || s == "while"@ || s
        == "yield"@
}

/// What `s` is, given that `token` is the first token the lexer reads from
/// it: `s` must be exactly that one token.
pub open spec fn lexed_name_kind(s: Seq<char>, token: LexedToken) -> NameKind {
    if token.len != encode_utf8(s).len() as usize {
        NameKind::Invalid
    } else {
        match token.kind {
            lexer::TokenKind::Ident => {
                if s == "_"@ {
                    NameKind::Underscore
                } else if s == "self"@ {
                    NameKind::SelfKw
                } else if is_keyword_spec(s) {
                    NameKind::Invalid
                } else {
                    NameKind::Ident
                }
            },
            lexer::TokenKind::RawIdent => NameKind::Ident,
            lexer::TokenKind::Lifetime { .. } => {
                if s == "'static"@ || s == "'_"@ {
                    NameKind::ReservedLifetime
                } else {
                    NameKind::Lifetime
                }
            },
            _ => match lex_error_of(token.kind) {
                Some(e) => NameKind::LexError(e),
                None => NameKind::Invalid,
            },
        }
    }
}

/// What `s` is when lexed on its own.
pub open spec fn name_kind(s: Seq<char>) -> NameKind {
    if s.len() == 0 {
        NameKind::Invalid
    } else {
        lexed_name_kind(s, first_token_of(s))
    }
}

/// Whether two texts hold the same characters.
pub fn same_text(a: &str, b: &str) -> (r: bool)
    ensures
        r == (a@ == b@),
{
    let n = a.unicode_len();
    if n != b.unicode_len() {
        return false;
    }
    let mut i: usize = 0;
    while i < n
        invariant
            n == a@.len(),
            n == b@.len(),
            i <= n,
            forall|j: int| 0 <= j < i ==> a@[j] == b@[j],
        decreases n - i,
    {
        if a.get_char(i) != b.get_char(i) {
            return false;
        }
        i = i + 1;
    }
    assert(a@ =~= b@);
    true
}

pub fn is_keyword(s: &str) -> (r: bool)
    ensures
        r == is_keyword_spec(s@),
{
    same_text(s, "as") || same_text(s, "async") || same_text(s, "await") || same_text(s, "box")
        || same_text(s, "break") || same_text(s, "const") || same_text(s, "continue")
        || same_text(s, "crate") || same_text(s, "dyn") || same_text(s, "else") || same_text(
        s,
        "enum",
    ) || same_text(s, "\u{65}xtern") || same_text(s, "false") || same_text(s, "fn") || same_text(
        s,
        "for",
    ) || same_text(s, "if") || same_text(s, "impl") || same_text(s, "in") || same_text(s, "let")
        || same_text(s, "loop") || same_text(s, "macro") || same_text(s, "match") || same_text(
        s,
        "mod",
    ) || same_text(s, "move") || same_text(s, "mut") || same_text(s, "pub") || same_text(s, "ref")
        || same_text(s, "return") || same_text(s, "self") || same_text(s, "Self") || same_text(
        s,
        "static",
    ) || same_text(s, "struct") || same_text(s, "super") || same_text(s, "trait") || same_text(
        s,
        "true",
    ) || same_text(s, "try") || same_text(s, "type") || same_text(s, "unsafe") || same_text(
        s,
        "use",
    ) || same_text(s, "where") || same_text(s, "while") || same_text(s, "yield")
}

/// Says what `name` is, given the first token the lexer reads from it.
pub fn classify_lexed(name: &str, token: LexedToken) -> (r: NameKind)
    ensures
        r == lexed_name_kind(name@, token),
{
    if token.len != name.len() {
        return NameKind::Invalid;
    }
    match token.kind {
        lexer::TokenKind::Ident => {
            if same_text(name, "_") {
                NameKind::Underscore
            } else if same_text(name, "self") {
                NameKind::SelfKw
            } else if is_keyword(name) {
                NameKind::Invalid
            } else {
                NameKind::Ident
            }
        },
        lexer::TokenKind::RawIdent => NameKind::Ident,
        lexer::TokenKind::Lifetime { .. } => {
            if same_text(name, "'static") || same_text(name, "'_") {
                NameKind::ReservedLifetime
            } else {
                NameKind::Lifetime
            }
        },
        _ => match lex_error(token.kind) {
            Some(e) => NameKind::LexError(e),
            None => NameKind::Invalid,
        },
    }
}

/// Lexes `name` on its own and says what it is.
pub fn classify_name(name: &str) -> (r: NameKind)
    ensures
        r == name_kind(name@),
{
    if name.is_empty() {
        return NameKind::Invalid;
    }
    classify_lexed(name, first_token(name))
}

} // verus!
