use dyncord::commands::prefixed::arguments::{
    bool_argument, char_argument, greedy_string_argument, i8_argument, parse_single_quote,
    parse_space, parse_string, parse_token, string_argument, u8_argument, u64_argument, Token,
};
use dyncord::commands::errors::ArgumentError;
use dyncord::commands::prefixed::parsing::parse;

#[test]
fn parse_splits_prefix_name_and_arguments() {
    let parts = parse(".", ".echo Hello, world!").unwrap();
    assert_eq!(parts.prefix, ".");
    assert_eq!(parts.command_name, "echo");
    assert_eq!(parts.command_args, "Hello, world!");
}

#[test]
fn parse_without_arguments() {
    let parts = parse("!", "!ping").unwrap();
    assert_eq!(parts.command_name, "ping");
    assert_eq!(parts.command_args, "");
}

#[test]
fn parse_rejects_other_prefix() {
    assert!(parse("!", ".ping").is_none());
    assert!(parse("!!", "!").is_none());
}

#[test]
fn parse_multi_character_prefix() {
    let parts = parse("bot ", "bot help me  now").unwrap();
    assert_eq!(parts.prefix, "bot ");
    assert_eq!(parts.command_name, "help");
    assert_eq!(parts.command_args, "me  now");
}

fn token_text(tok: &Token) -> String {
    tok.to_string()
}

#[test]
fn token_unquoted_word() {
    let tok = parse_token("hello \"world\"").unwrap();
    assert!(matches!(tok, Token::String(_)));
    assert_eq!(token_text(&tok), "hello");
    assert_eq!(tok.value().first, 0);
    assert_eq!(tok.value().last, 4);
}

#[test]
fn token_word_with_inner_quotes() {
    let tok = parse_token("hello\"world\"").unwrap();
    assert!(matches!(tok, Token::String(_)));
    assert_eq!(token_text(&tok), "hello\"world\"");
}

#[test]
fn token_escaped_quotes_in_word() {
    let tok = parse_token("\\\"world\\\"").unwrap();
    assert!(matches!(tok, Token::String(_)));
    assert_eq!(token_text(&tok), "\"world\"");
}

#[test]
fn token_double_quoted() {
    let tok = parse_token("\"Mike Wazowski\" x").unwrap();
    assert!(matches!(tok, Token::InDoubleQuote(_)));
    assert_eq!(token_text(&tok), "Mike Wazowski");
    assert_eq!(tok.value().last, 14);
}

#[test]
fn token_single_quoted_with_escape() {
    let tok = parse_token("'it\\'s tuesday!'").unwrap();
    assert!(matches!(tok, Token::InSingleQuote(_)));
    assert_eq!(token_text(&tok), "it's tuesday!");
}

#[test]
fn token_unclosed_quote_is_word() {
    let tok = parse_token("'hello world").unwrap();
    assert!(matches!(tok, Token::String(_)));
    assert_eq!(token_text(&tok), "'hello");
}

#[test]
fn token_spaces() {
    let tok = parse_token("   x").unwrap();
    assert!(matches!(tok, Token::Spaces(_)));
    assert_eq!(token_text(&tok), "   ");
}

#[test]
fn token_empty() {
    assert!(parse_token("").is_none());
}

#[test]
fn string_argument_word() {
    let (arg, rest) = string_argument("hello world").unwrap();
    assert_eq!(arg, "hello");
    assert_eq!(rest, " world");
}

#[test]
fn string_argument_skips_leading_space() {
    let (arg, rest) = string_argument("   hello   world").unwrap();
    assert_eq!(arg, "hello");
    assert_eq!(rest, "   world");
}

#[test]
fn string_argument_quoted() {
    let (arg, rest) = string_argument("\"hello world\" x").unwrap();
    assert_eq!(arg, "hello world");
    assert_eq!(rest, " x");
}

#[test]
fn string_argument_missing() {
    assert!(matches!(string_argument("   "), Err(ArgumentError::Missing)));
    assert!(matches!(string_argument(""), Err(ArgumentError::Missing)));
}

#[test]
fn string_argument_trailing_backslash_is_kept() {
    let (arg, rest) = string_argument("abc\\").unwrap();
    assert_eq!(arg, "abc\\");
    assert_eq!(rest, "");
}

#[test]
fn token_trailing_backslash_is_literal() {
    let tok = parse_token("abc\\").unwrap();
    assert!(matches!(tok, Token::String(_)));
    assert_eq!(token_text(&tok), "abc\\");
    assert_eq!(tok.value().first, 0);
    assert_eq!(tok.value().last, 3);
}

#[test]
fn parse_string_trailing_backslash() {
    let chars = ['a', '\\'];
    let mut i = 0;
    let tok = parse_string(&chars, &mut i);
    assert_eq!(token_text(&tok), "a\\");
    assert_eq!(i, 2);
    assert_eq!(tok.value().last, 1);
}

#[test]
fn unclosed_quote_with_trailing_backslash() {
    let chars = ['\'', 'a', '\\'];
    let mut i = 0;
    let tok = parse_single_quote(&chars, &mut i);
    assert!(matches!(tok, Token::String(_)));
    assert_eq!(token_text(&tok), "'a\\");
    assert_eq!(i, 3);
}

#[test]
fn parse_space_on_a_non_space() {
    let chars = ['a'];
    let mut i = 0;
    let tok = parse_space(&chars, &mut i);
    assert!(matches!(tok, Token::Spaces(_)));
    assert_eq!(token_text(&tok), "");
    assert_eq!(i, 0);
    assert_eq!(tok.value().first, 0);
}

#[test]
fn greedy_string_takes_everything() {
    let (g, rest) = greedy_string_argument("  Hello, world!");
    assert_eq!(g.0, "Hello, world!");
    assert_eq!(rest, "");
}

#[test]
fn integer_arguments() {
    let (n, rest) = u64_argument("42 rest").unwrap();
    assert_eq!(n, 42);
    assert_eq!(rest, " rest");
    assert_eq!(i8_argument("-128").unwrap().0, -128);
    assert_eq!(u8_argument("+7").unwrap().0, 7);
    assert!(matches!(u8_argument("256"), Err(ArgumentError::Misformatted)));
    assert!(matches!(i8_argument("128"), Err(ArgumentError::Misformatted)));
    assert!(matches!(u8_argument("-1"), Err(ArgumentError::Misformatted)));
    assert!(matches!(u8_argument("abc"), Err(ArgumentError::Misformatted)));
    assert!(matches!(u8_argument(""), Err(ArgumentError::Missing)));
}

#[test]
fn bool_arguments() {
    assert_eq!(bool_argument("YES x").unwrap().0, true);
    assert_eq!(bool_argument("On").unwrap().0, true);
    assert_eq!(bool_argument("off").unwrap().0, false);
    assert_eq!(bool_argument("0").unwrap().0, false);
    assert!(matches!(bool_argument("maybe"), Err(ArgumentError::Misformatted)));
}

#[test]
fn char_arguments() {
    let (c, rest) = char_argument("a b").unwrap();
    assert_eq!(c, 'a');
    assert_eq!(rest, " b");
    assert!(matches!(char_argument("ab"), Err(ArgumentError::Misformatted)));
    let (c, rest) = char_argument("é x").unwrap();
    assert_eq!(c, 'é');
    assert_eq!(rest, " x");
}

#[test]
fn string_argument_non_ascii() {
    let (arg, rest) = string_argument("é x").unwrap();
    assert_eq!(arg, "é");
    assert_eq!(rest, " x");
    let (arg, rest) = string_argument("éé x").unwrap();
    assert_eq!(arg, "éé");
    assert_eq!(rest, " x");
    let (arg, rest) = string_argument("éé").unwrap();
    assert_eq!(arg, "éé");
    assert_eq!(rest, "");
}
