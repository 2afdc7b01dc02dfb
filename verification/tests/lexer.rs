use ruxen_core::lexer::token::{lookup_keyword, FormatSpec, NumericSuffix, TokenKind};
use ruxen_core::lexer::tokens::parse_radix;
use ruxen_core::lexer::Lexer;

/// Drive the token lexers over `src` (blanks skipped), as the tokenizer's
/// main dispatch does.
fn drive(src: &str) -> Lexer {
    let mut l = Lexer::new(src);
    while !l.is_at_end() {
        let c = l.current();
        match c {
            ' ' | '\t' | '\n' => {
                l.advance();
            }
            '0'..='9' => l.lex_number(),
            'a'..='z' | '_' => l.lex_identifier_or_keyword(),
            'A'..='Z' => l.lex_type_identifier_or_keyword(),
            '\'' => l.lex_single_quote(),
            _ => l.lex_operator_or_punct(),
        }
    }
    l
}

fn kinds(src: &str) -> Vec<TokenKind> {
    drive(src).tokens.into_iter().map(|t| t.kind).collect()
}

fn codes(src: &str) -> Vec<String> {
    drive(src).diagnostics.into_iter().filter_map(|d| d.code).collect()
}

fn regex_of(src: &str) -> Option<(String, String)> {
    drive(src).tokens.into_iter().find_map(|t| match t.kind {
        TokenKind::RegexLiteral { pattern, flags } => Some((pattern, flags)),
        _ => None,
    })
}

#[test]
fn integers_in_every_radix() {
    assert_eq!(kinds("42"), vec![TokenKind::IntLiteral(42, None)]);
    assert_eq!(kinds("0"), vec![TokenKind::IntLiteral(0, None)]);
    assert_eq!(kinds("1_000_000"), vec![TokenKind::IntLiteral(1_000_000, None)]);
    assert_eq!(kinds("0xFF"), vec![TokenKind::IntLiteral(0xFF, None)]);
    assert_eq!(kinds("0xFF_FF"), vec![TokenKind::IntLiteral(0xFFFF, None)]);
    assert_eq!(kinds("0b1010_0101"), vec![TokenKind::IntLiteral(0b1010_0101, None)]);
    assert_eq!(kinds("0o777"), vec![TokenKind::IntLiteral(0o777, None)]);
}

#[test]
fn integer_suffixes() {
    assert_eq!(kinds("42i8"), vec![TokenKind::IntLiteral(42, Some(NumericSuffix::I8))]);
    assert_eq!(kinds("42u64"), vec![TokenKind::IntLiteral(42, Some(NumericSuffix::U64))]);
    assert_eq!(kinds("42usize"), vec![TokenKind::IntLiteral(42, Some(NumericSuffix::USize))]);
    assert_eq!(kinds("42isize"), vec![TokenKind::IntLiteral(42, Some(NumericSuffix::ISize))]);
    assert_eq!(kinds("42u"), vec![TokenKind::IntLiteral(42, Some(NumericSuffix::U))]);
}

#[test]
fn floats_keep_their_text() {
    assert_eq!(kinds("3.14"), vec![TokenKind::FloatLiteral("3.14".to_string(), None)]);
    assert_eq!(kinds("1.0e10"), vec![TokenKind::FloatLiteral("1.0e10".to_string(), None)]);
    assert_eq!(kinds("1.0e-3"), vec![TokenKind::FloatLiteral("1.0e-3".to_string(), None)]);
    assert_eq!(
        kinds("3.14f32"),
        vec![TokenKind::FloatLiteral("3.14".to_string(), Some(NumericSuffix::F32))]
    );
}

#[test]
fn floats_take_no_integer_suffix() {
    let mut l = Lexer::new("u");
    assert_eq!(l.try_numeric_suffix(false), None);
    assert_eq!(l.pos, 0);
    let mut l = Lexer::new("u");
    assert_eq!(l.try_numeric_suffix(true), Some(NumericSuffix::U));
    assert_eq!(l.pos, 1);
    let mut l = Lexer::new("i32");
    assert_eq!(l.try_numeric_suffix(false), None);
    let mut l = Lexer::new("f64");
    assert_eq!(l.try_numeric_suffix(false), Some(NumericSuffix::F64));
    assert_eq!(kinds("1.5u")[0], TokenKind::FloatLiteral("1.5".to_string(), None));
}

#[test]
fn ranges_are_not_floats() {
    assert_eq!(
        kinds("0..10"),
        vec![TokenKind::IntLiteral(0, None), TokenKind::DotDot, TokenKind::IntLiteral(10, None)]
    );
    assert_eq!(
        kinds("0...10"),
        vec![TokenKind::IntLiteral(0, None), TokenKind::DotDotDot, TokenKind::IntLiteral(10, None)]
    );
}

#[test]
fn invalid_hex_literal_is_reported() {
    let l = drive("0x");
    assert!(!l.diagnostics.is_empty());
    assert!(l.diagnostics[0].message.contains("no digits"));
}

#[test]
fn single_char_operators() {
    let pairs = vec![
        ("+", TokenKind::Plus),
        ("-", TokenKind::Minus),
        ("*", TokenKind::Star),
        ("%", TokenKind::Percent),
        ("=", TokenKind::Eq),
        ("!", TokenKind::Bang),
        ("<", TokenKind::Lt),
        (">", TokenKind::Gt),
        ("&", TokenKind::Amp),
        ("|", TokenKind::Pipe),
        ("^", TokenKind::Caret),
        (".", TokenKind::Dot),
        ("?", TokenKind::Question),
        ("@", TokenKind::At),
        (":", TokenKind::Colon),
        (";", TokenKind::Semicolon),
        (",", TokenKind::Comma),
        ("(", TokenKind::LParen),
        (")", TokenKind::RParen),
        ("[", TokenKind::LBracket),
        ("]", TokenKind::RBracket),
        ("{", TokenKind::LBrace),
        ("}", TokenKind::RBrace),
    ];
    for (input, expected) in pairs {
        assert_eq!(kinds(input), vec![expected], "operator {}", input);
    }
    assert_eq!(kinds("a /"), vec![TokenKind::Identifier("a".to_string()), TokenKind::Slash]);
}

#[test]
fn multi_char_operators() {
    let pairs = vec![
        ("==", TokenKind::EqEq),
        ("!=", TokenKind::NotEq),
        ("<=", TokenKind::LtEq),
        (">=", TokenKind::GtEq),
        ("&&", TokenKind::AmpAmp),
        ("||", TokenKind::PipePipe),
        ("<<", TokenKind::Shl),
        (">>", TokenKind::Shr),
        ("+=", TokenKind::PlusEq),
        ("-=", TokenKind::MinusEq),
        ("*=", TokenKind::StarEq),
        ("%=", TokenKind::PercentEq),
        ("..", TokenKind::DotDot),
        ("...", TokenKind::DotDotDot),
        ("->", TokenKind::Arrow),
        ("?.", TokenKind::QuestionDot),
        ("::", TokenKind::ColonColon),
        ("~=", TokenKind::TildeEq),
    ];
    for (input, expected) in pairs {
        assert_eq!(kinds(input), vec![expected], "operator {}", input);
    }
    assert_eq!(kinds("a /="), vec![TokenKind::Identifier("a".to_string()), TokenKind::SlashEq]);
}

#[test]
fn amp_var() {
    assert_eq!(kinds("&var"), vec![TokenKind::AmpMut]);
    assert_eq!(
        kinds("&variable"),
        vec![TokenKind::Amp, TokenKind::Identifier("variable".to_string())]
    );
    assert_eq!(
        kinds("&var value"),
        vec![TokenKind::AmpMut, TokenKind::Identifier("value".to_string())]
    );
}

#[test]
fn bare_tilde_is_rejected() {
    assert!(codes("~").contains(&"E0006".to_string()));
    assert!(drive("~").diagnostics[0].message.contains("unexpected character"));
}

#[test]
fn identifiers_and_keywords() {
    assert_eq!(kinds("true false"), vec![TokenKind::True, TokenKind::False]);
    assert_eq!(kinds("user_name"), vec![TokenKind::Identifier("user_name".to_string())]);
    assert_eq!(kinds("TaskList"), vec![TokenKind::TypeIdentifier("TaskList".to_string())]);
    assert_eq!(
        kinds("is_empty?"),
        vec![TokenKind::Identifier("is_empty".to_string()), TokenKind::Question]
    );
    assert_eq!(kinds("unwrap!"), vec![TokenKind::Identifier("unwrap!".to_string())]);
    assert_eq!(kinds("_unused"), vec![TokenKind::Identifier("_unused".to_string())]);
    assert_eq!(kinds("_"), vec![TokenKind::Identifier("_".to_string())]);
    assert_eq!(kinds("nil"), vec![TokenKind::Nil]);
    assert_eq!(lookup_keyword("let"), Some(TokenKind::Let));
    assert_eq!(lookup_keyword("letter"), None);
}

#[test]
fn char_literals_with_question_mark() {
    assert_eq!(kinds("?a"), vec![TokenKind::CharLiteral('a')]);
    assert_eq!(kinds("?\\n"), vec![TokenKind::CharLiteral('\n')]);
    assert_eq!(kinds("?\\u{1F600}"), vec![TokenKind::CharLiteral('\u{1F600}')]);
    assert_eq!(kinds("?\\'"), vec![TokenKind::CharLiteral('\'')]);
}

#[test]
fn single_quotes_make_raw_strings() {
    assert_eq!(kinds("'a'"), vec![TokenKind::StringLiteral("a".to_string())]);
    assert_eq!(kinds("'a \"b\"'"), vec![TokenKind::StringLiteral("a \"b\"".to_string())]);
}

#[test]
fn regex_literals() {
    assert_eq!(regex_of("let r = /foo/i"), Some(("foo".to_string(), "i".to_string())));
    assert_eq!(regex_of("let r = /[/]/"), Some(("[/]".to_string(), "".to_string())));
    assert_eq!(regex_of("let r = /a\\/b/"), Some(("a\\/b".to_string(), "".to_string())));
    assert_eq!(regex_of("s ~= /foo/g"), Some(("foo".to_string(), "g".to_string())));
    assert_eq!(regex_of("a / 2"), None);
    assert!(kinds("a / 2").contains(&TokenKind::Slash));
}

#[test]
fn regex_literal_errors() {
    assert!(codes("let r = /foo\n").contains(&"E1701".to_string()));
    assert!(codes("let r = /foo/q").contains(&"E1700".to_string()));
    assert!(codes("let r = /foo/ii").contains(&"E1700".to_string()));
    assert!(codes("let r = //").contains(&"E1703".to_string()));
    assert!(codes("let r = /foo/gim").is_empty());
}

#[test]
fn format_specs() {
    let mut l = Lexer::new("}");
    let spec = l.lex_format_spec();
    assert_eq!(spec, FormatSpec { debug: false, width: None, precision: None, align: None, fill: None });
    assert!(l.is_at_end());

    let mut l = Lexer::new("*^8.2?} rest");
    let spec = l.lex_format_spec();
    assert_eq!(spec, FormatSpec { debug: true, width: Some(8), precision: Some(2), align: Some('^'), fill: Some('*') });
    assert!(l.diagnostics.is_empty());
    assert_eq!(l.current(), ' ');

    let mut l = Lexer::new("10}");
    assert_eq!(l.lex_format_spec().width, Some(10));

    let mut l = Lexer::new(".}");
    l.lex_format_spec();
    assert_eq!(l.diagnostics.len(), 1);
    assert_eq!(l.diagnostics[0].code.as_deref(), Some("E0007"));

    let mut l = Lexer::new("8x}");
    let spec = l.lex_format_spec();
    assert_eq!(spec.width, Some(8));
    assert_eq!(l.diagnostics[0].code.as_deref(), Some("E0007"));
}

#[test]
fn escape_sequences() {
    let mut l = Lexer::new("\\t");
    assert_eq!(l.lex_escape_sequence(), Ok('\t'));
    let mut l = Lexer::new("\\u{41}");
    assert_eq!(l.lex_escape_sequence(), Ok('A'));
    let mut l = Lexer::new("\\#");
    assert_eq!(l.lex_escape_sequence(), Ok('#'));
    let mut l = Lexer::new("\\q");
    assert_eq!(l.lex_escape_sequence(), Err(()));
    assert_eq!(l.diagnostics[0].code.as_deref(), Some("E0003"));
    assert!(l.diagnostics[0].message.contains("invalid escape"));
}

#[test]
fn radix_parsing() {
    assert_eq!(parse_radix("ff", 16), Some(255));
    assert_eq!(parse_radix("777", 8), Some(511));
    assert_eq!(parse_radix("102", 2), None);
    assert_eq!(parse_radix("", 10), None);
    assert_eq!(parse_radix("9223372036854775808", 10), None);
}

#[test]
fn spans_follow_lines_and_columns() {
    let l = drive("let x\n  42");
    let last = l.tokens.last().unwrap();
    assert_eq!(last.span.line, 2);
    assert_eq!(last.span.column, 3);
    assert_eq!(last.span.start, 8);
    assert_eq!(last.span.end, 10);
}

#[test]
fn format_spec_consumes_through_the_closing_brace() {
    let mut l = Lexer::new("8 x y}z");
    l.lex_format_spec();
    assert_eq!(l.current(), 'z');
    assert_eq!(l.diagnostics.len(), 2);
    let mut l = Lexer::new("8");
    l.lex_format_spec();
    assert!(l.is_at_end());
}

#[test]
fn suffix_must_end_the_word() {
    assert_eq!(
        kinds("42i8x"),
        vec![TokenKind::IntLiteral(42, None), TokenKind::Identifier("i8x".to_string())]
    );
    assert_eq!(
        kinds("7u8 "),
        vec![TokenKind::IntLiteral(7, Some(NumericSuffix::U8))]
    );
}
