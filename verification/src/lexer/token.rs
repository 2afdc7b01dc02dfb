//! Tokens, spans and keywords.
use vstd::prelude::*;

use crate::text::str_eq;

verus! {

/// Byte-offset span in source code, with the 1-based line and column of its start.
#[derive(Debug, Clone, Copy, PartialEq, Eq, Structural)]
pub struct Span {
    pub start: usize,
    pub end: usize,
    pub line: u32,
    pub column: u32,
}

impl Span {
    pub fn new(start: usize, end: usize, line: u32, column: u32) -> (s: Self)
        ensures
            s == (Span { start, end, line, column }),
    {
        Span { start, end, line, column }
    }
}

/// The format specification of an interpolation `"#{x:spec}"`:
///
/// ```text
/// spec  := [fill align] [width] ['.' precision] ['?']
/// align := '<' (left) | '>' (right) | '^' (center)
/// width, precision := <digit>+
/// ```
#[derive(Debug, Clone, Copy, PartialEq, Eq, Structural)]
pub struct FormatSpec {
    pub debug: bool,
    pub width: Option<usize>,
    pub precision: Option<usize>,
    pub align: Option<char>,
    pub fill: Option<char>,
}

/// Where a formatted value sits in a field wider than itself.
#[derive(Debug, Clone, Copy, PartialEq, Eq, Structural)]
pub enum Alignment {
    Left,
    Center,
    Right,
}

/// The alignment an `align` character of a format spec asks for:
/// `<` left, `^` center, `>` right; no other character aligns.
pub open spec fn align_char_meaning(c: char) -> Option<Alignment> {
    if c == '<' {
        Some(Alignment::Left)
    } else if c == '^' {
        Some(Alignment::Center)
    } else if c == '>' {
        Some(Alignment::Right)
    } else {
        None
    }
}

impl FormatSpec {
    /// The spec with no field set, as in a bare `"#{x}"`.
    pub open spec fn spec_default() -> FormatSpec {
        FormatSpec { debug: false, width: None, precision: None, align: None, fill: None }
    }

    /// Returns true when no field is set, equivalent to `"#{x}"`.
    pub fn is_default(&self) -> (r: bool)
        ensures
            r == (*self == FormatSpec::spec_default()),
    {
        !self.debug && self.width.is_none() && self.precision.is_none() && self.align.is_none()
            && self.fill.is_none()
    }
}

impl Default for FormatSpec {
    fn default() -> (s: Self)
        ensures
            s == FormatSpec::spec_default(),
    {
        FormatSpec { debug: false, width: None, precision: None, align: None, fill: None }
    }
}

/// A part of an interpolated string.
#[derive(Debug, PartialEq)]
pub enum StringPart {
    /// Literal text segment.
    Literal(String),
    /// The tokens of an interpolated expression, with its format spec.
    Expr { tokens: Vec<Token>, spec: FormatSpec },
}

/// A token produced by the lexer.
#[derive(Debug, PartialEq)]
pub struct Token {
    pub kind: TokenKind,
    pub span: Span,
}

impl Token {
    pub fn new(kind: TokenKind, span: Span) -> (t: Self)
        ensures
            t == (Token { kind, span }),
    {
        Token { kind, span }
    }
}

/// Numeric type suffix.
#[derive(Debug, Clone, Copy, PartialEq, Eq, Structural)]
pub enum NumericSuffix {
    I8,
    I16,
    I32,
    I64,
    U,
    U8,
    U16,
    U32,
    U64,
    ISize,
    USize,
    F32,
    F64,
}

#[derive(Debug, PartialEq)]
pub enum TokenKind {
    // Keywords: variable and binding
    Let,
    Mut,
    Move,
    Ref,
    Var,
    // Keywords: type definitions
    Class,
    Struct,
    Enum,
    Mixin,
    Include,
    Extension,
    Newtype,
    Type,
    // Keywords: functions and methods
    Def,
    Public,
    Private,
    Protected,
    Consume,
    Inline,
    SelfValue,
    SelfType,
    Init,
    Super,
    Return,
    Yield,
    Async,
    Await,
    // Keywords: control flow
    If,
    Elsif,
    Else,
    Match,
    While,
    For,
    In,
    Loop,
    Do,
    End,
    Break,
    Continue,
    // Keywords: type system
    Where,
    As,
    SomeBound,
    AnyBound,
    Layout,
    // Keywords: modules
    Module,
    Use,
    Package,
    // Keywords: safety
    Unsafe,
    // Keywords: literals
    True,
    False,
    SomeKw,
    OkKw,
    ErrKw,
    Nil,
    // Keywords: FFI
    Lib,
    // Keywords: reserved
    Macro,
    Static,
    Const,
    When,
    Unless,
    // Operators: arithmetic
    Plus,
    Minus,
    Star,
    Slash,
    Percent,
    // Operators: comparison
    EqEq,
    NotEq,
    Lt,
    Gt,
    LtEq,
    GtEq,
    // Operators: logical
    AmpAmp,
    PipePipe,
    Bang,
    // Operators: bitwise
    Amp,
    Pipe,
    Caret,
    Shl,
    Shr,
    // Operators: assignment
    Eq,
    PlusEq,
    MinusEq,
    StarEq,
    SlashEq,
    PercentEq,
    // Operators: range (`..` inclusive, `...` exclusive)
    DotDot,
    DotDotEq,
    DotDotDot,
    // Operators: arrows
    Arrow,
    FatArrow,
    // Operators: special
    QuestionDot,
    /// `&.` safe navigation
    AmpDot,
    Question,
    At,
    ColonColon,
    /// `&var`
    AmpMut,
    /// `~=` regex match
    TildeEq,
    // Delimiters
    LParen,
    RParen,
    LBracket,
    RBracket,
    LBrace,
    RBrace,
    // Punctuation
    Dot,
    Comma,
    Colon,
    Semicolon,
    // Literals
    IntLiteral(i64, Option<NumericSuffix>),
    /// A float literal, by its decimal text (underscores and suffix removed).
    FloatLiteral(String, Option<NumericSuffix>),
    StringLiteral(String),
    InterpolatedString(Vec<StringPart>),
    CharLiteral(char),
    /// `/pattern/flags`
    RegexLiteral { pattern: String, flags: String },
    // Identifiers
    Identifier(String),
    TypeIdentifier(String),
    Lifetime(String),
    DocComment(String),
    // Structure
    Newline,
    Eof,
}

/// Token kinds after which a newline continues the line.
pub open spec fn spec_continues_line(k: TokenKind) -> bool {
    ||| k is Plus
        ||| k is Minus
        ||| k is Star
        ||| k is Slash
        ||| k is Percent
        ||| k is Eq
        ||| k is PlusEq
        ||| k is MinusEq
        ||| k is StarEq
        ||| k is SlashEq
        ||| k is PercentEq
        ||| k is EqEq
        ||| k is NotEq
        ||| k is Lt
        ||| k is Gt
        ||| k is LtEq
        ||| k is GtEq
        ||| k is AmpAmp
        ||| k is PipePipe
        ||| k is Arrow
        ||| k is FatArrow
        ||| k is Dot
        ||| k is QuestionDot
        ||| k is Comma
        ||| k is LParen
        ||| k is LBracket
        ||| k is LBrace
        ||| k is Pipe
        ||| k is Amp
        ||| k is AmpMut
        ||| k is Caret
        ||| k is Shl
        ||| k is Shr
        ||| k is DotDot
        ||| k is DotDotEq
        ||| k is Colon
        ||| k is ColonColon
}

/// Token kinds that open a delimited group.
pub open spec fn spec_is_opening_delimiter(k: TokenKind) -> bool {
    k is LParen || k is LBracket || k is LBrace
}

impl TokenKind {
    /// Returns true if this token kind implies line continuation (a newline
    /// after it is suppressed).
    pub fn continues_line(&self) -> (r: bool)
        ensures
            r == spec_continues_line(*self),
    {
        match self {
            TokenKind::Plus
        | TokenKind::Minus
        | TokenKind::Star
        | TokenKind::Slash
        | TokenKind::Percent
        | TokenKind::Eq
        | TokenKind::PlusEq
        | TokenKind::MinusEq
        | TokenKind::StarEq
        | TokenKind::SlashEq
        | TokenKind::PercentEq
        | TokenKind::EqEq
        | TokenKind::NotEq
        | TokenKind::Lt
        | TokenKind::Gt
        | TokenKind::LtEq
        | TokenKind::GtEq
        | TokenKind::AmpAmp
        | TokenKind::PipePipe
        | TokenKind::Arrow
        | TokenKind::FatArrow
        | TokenKind::Dot
        | TokenKind::QuestionDot
        | TokenKind::Comma
        | TokenKind::LParen
        | TokenKind::LBracket
        | TokenKind::LBrace
        | TokenKind::Pipe
        | TokenKind::Amp
        | TokenKind::AmpMut
        | TokenKind::Caret
        | TokenKind::Shl
        | TokenKind::Shr
        | TokenKind::DotDot
        | TokenKind::DotDotEq
        | TokenKind::Colon
        | TokenKind::ColonColon => true,
            _ => false,
        }
    }

    pub fn is_opening_delimiter(&self) -> (r: bool)
        ensures
            r == spec_is_opening_delimiter(*self),
    {
        match self {
            TokenKind::LParen | TokenKind::LBracket | TokenKind::LBrace => true,
            _ => false,
        }
    }
}

/// The keyword a word spells, if any.
pub open spec fn spec_lookup_keyword(w: Seq<char>) -> Option<TokenKind> {
    if w == "let"@ {
        Some(TokenKind::Let)
    } else if w == "move"@ {
        Some(TokenKind::Move)
    } else if w == "ref"@ {
        Some(TokenKind::Ref)
    } else if w == "var"@ {
        Some(TokenKind::Var)
    } else if w == "class"@ {
        Some(TokenKind::Class)
    } else if w == "struct"@ {
        Some(TokenKind::Struct)
    } else if w == "enum"@ {
        Some(TokenKind::Enum)
    } else if w == "mixin"@ {
        Some(TokenKind::Mixin)
    } else if w == "include"@ {
        Some(TokenKind::Include)
    } else if w == "extension"@ {
        Some(TokenKind::Extension)
    } else if w == "newtype"@ {
        Some(TokenKind::Newtype)
    } else if w == "type"@ {
        Some(TokenKind::Type)
    } else if w == "def"@ {
        Some(TokenKind::Def)
    } else if w == "public"@ {
        Some(TokenKind::Public)
    } else if w == "private"@ {
        Some(TokenKind::Private)
    } else if w == "protected"@ {
        Some(TokenKind::Protected)
    } else if w == "consume"@ {
        Some(TokenKind::Consume)
    } else if w == "inline"@ {
        Some(TokenKind::Inline)
    } else if w == "self"@ {
        Some(TokenKind::SelfValue)
    } else if w == "Self"@ {
        Some(TokenKind::SelfType)
    } else if w == "init"@ {
        Some(TokenKind::Init)
    } else if w == "super"@ {
        Some(TokenKind::Super)
    } else if w == "return"@ {
        Some(TokenKind::Return)
    } else if w == "yield"@ {
        Some(TokenKind::Yield)
    } else if w == "async"@ {
        Some(TokenKind::Async)
    } else if w == "await"@ {
        Some(TokenKind::Await)
    } else if w == "if"@ {
        Some(TokenKind::If)
    } else if w == "elsif"@ {
        Some(TokenKind::Elsif)
    } else if w == "else"@ {
        Some(TokenKind::Else)
    } else if w == "match"@ {
        Some(TokenKind::Match)
    } else if w == "while"@ {
        Some(TokenKind::While)
    } else if w == "for"@ {
        Some(TokenKind::For)
    } else if w == "in"@ {
        Some(TokenKind::In)
    } else if w == "loop"@ {
        Some(TokenKind::Loop)
    } else if w == "do"@ {
        Some(TokenKind::Do)
    } else if w == "end"@ {
        Some(TokenKind::End)
    } else if w == "break"@ {
        Some(TokenKind::Break)
    } else if w == "continue"@ {
        Some(TokenKind::Continue)
    } else if w == "where"@ {
        Some(TokenKind::Where)
    } else if w == "as"@ {
        Some(TokenKind::As)
    } else if w == "some"@ {
        Some(TokenKind::SomeBound)
    } else if w == "any"@ {
        Some(TokenKind::AnyBound)
    } else if w == "layout"@ {
        Some(TokenKind::Layout)
    } else if w == "module"@ {
        Some(TokenKind::Module)
    } else if w == "use"@ {
        Some(TokenKind::Use)
    } else if w == "package"@ {
        Some(TokenKind::Package)
    } else if w == "unsafe"@ {
        Some(TokenKind::Unsafe)
    } else if w == "lib"@ {
        Some(TokenKind::Lib)
    } else if w == "nil"@ {
        Some(TokenKind::Nil)
    } else if w == "true"@ {
        Some(TokenKind::True)
    } else if w == "false"@ {
        Some(TokenKind::False)
    } else if w == "Some"@ {
        Some(TokenKind::SomeKw)
    } else if w == "Ok"@ {
        Some(TokenKind::OkKw)
    } else if w == "Err"@ {
        Some(TokenKind::ErrKw)
    } else if w == "macro"@ {
        Some(TokenKind::Macro)
    } else if w == "static"@ {
        Some(TokenKind::Static)
    } else if w == "const"@ {
        Some(TokenKind::Const)
    } else if w == "when"@ {
        Some(TokenKind::When)
    } else if w == "unless"@ {
        Some(TokenKind::Unless)
    } else {
        None
    }
}

/// Look up a keyword from an identifier string.
pub fn lookup_keyword(ident: &str) -> (r: Option<TokenKind>)
    ensures
        r == spec_lookup_keyword(ident@),
{
    if str_eq(ident, "let") {
        Some(TokenKind::Let)
    } else if str_eq(ident, "move") {
        Some(TokenKind::Move)
    } else if str_eq(ident, "ref") {
        Some(TokenKind::Ref)
    } else if str_eq(ident, "var") {
        Some(TokenKind::Var)
    } else if str_eq(ident, "class") {
        Some(TokenKind::Class)
    } else if str_eq(ident, "struct") {
        Some(TokenKind::Struct)
    } else if str_eq(ident, "enum") {
        Some(TokenKind::Enum)
    } else if str_eq(ident, "mixin") {
        Some(TokenKind::Mixin)
    } else if str_eq(ident, "include") {
        Some(TokenKind::Include)
    } else if str_eq(ident, "extension") {
        Some(TokenKind::Extension)
    } else if str_eq(ident, "newtype") {
        Some(TokenKind::Newtype)
    } else if str_eq(ident, "type") {
        Some(TokenKind::Type)
    } else if str_eq(ident, "def") {
        Some(TokenKind::Def)
    } else if str_eq(ident, "public") {
        Some(TokenKind::Public)
    } else if str_eq(ident, "private") {
        Some(TokenKind::Private)
    } else if str_eq(ident, "protected") {
        Some(TokenKind::Protected)
    } else if str_eq(ident, "consume") {
        Some(TokenKind::Consume)
    } else if str_eq(ident, "inline") {
        Some(TokenKind::Inline)
    } else if str_eq(ident, "self") {
        Some(TokenKind::SelfValue)
    } else if str_eq(ident, "Self") {
        Some(TokenKind::SelfType)
    } else if str_eq(ident, "init") {
        Some(TokenKind::Init)
    } else if str_eq(ident, "super") {
        Some(TokenKind::Super)
    } else if str_eq(ident, "return") {
        Some(TokenKind::Return)
    } else if str_eq(ident, "yield") {
        Some(TokenKind::Yield)
    } else if str_eq(ident, "async") {
        Some(TokenKind::Async)
    } else if str_eq(ident, "await") {
        Some(TokenKind::Await)
    } else if str_eq(ident, "if") {
        Some(TokenKind::If)
    } else if str_eq(ident, "elsif") {
        Some(TokenKind::Elsif)
    } else if str_eq(ident, "else") {
        Some(TokenKind::Else)
    } else if str_eq(ident, "match") {
        Some(TokenKind::Match)
    } else if str_eq(ident, "while") {
        Some(TokenKind::While)
    } else if str_eq(ident, "for") {
        Some(TokenKind::For)
    } else if str_eq(ident, "in") {
        Some(TokenKind::In)
    } else if str_eq(ident, "loop") {
        Some(TokenKind::Loop)
    } else if str_eq(ident, "do") {
        Some(TokenKind::Do)
    } else if str_eq(ident, "end") {
        Some(TokenKind::End)
    } else if str_eq(ident, "break") {
        Some(TokenKind::Break)
    } else if str_eq(ident, "continue") {
        Some(TokenKind::Continue)
    } else if str_eq(ident, "where") {
        Some(TokenKind::Where)
    } else if str_eq(ident, "as") {
        Some(TokenKind::As)
    } else if str_eq(ident, "some") {
        Some(TokenKind::SomeBound)
    } else if str_eq(ident, "any") {
        Some(TokenKind::AnyBound)
    } else if str_eq(ident, "layout") {
        Some(TokenKind::Layout)
    } else if str_eq(ident, "module") {
        Some(TokenKind::Module)
    } else if str_eq(ident, "use") {
        Some(TokenKind::Use)
    } else if str_eq(ident, "package") {
        Some(TokenKind::Package)
    } else if str_eq(ident, "unsafe") {
        Some(TokenKind::Unsafe)
    } else if str_eq(ident, "lib") {
        Some(TokenKind::Lib)
    } else if str_eq(ident, "nil") {
        Some(TokenKind::Nil)
    } else if str_eq(ident, "true") {
        Some(TokenKind::True)
    } else if str_eq(ident, "false") {
        Some(TokenKind::False)
    } else if str_eq(ident, "Some") {
        Some(TokenKind::SomeKw)
    } else if str_eq(ident, "Ok") {
        Some(TokenKind::OkKw)
    } else if str_eq(ident, "Err") {
        Some(TokenKind::ErrKw)
    } else if str_eq(ident, "macro") {
        Some(TokenKind::Macro)
    } else if str_eq(ident, "static") {
        Some(TokenKind::Static)
    } else if str_eq(ident, "const") {
        Some(TokenKind::Const)
    } else if str_eq(ident, "when") {
        Some(TokenKind::When)
    } else if str_eq(ident, "unless") {
        Some(TokenKind::Unless)
    } else {
        None
    }
}

} // verus!
