use coral::token::{LexError, Token};
use coral::tokenizer::{scan, Tokenizer};
use coral::tokens::Tokens;

#[test]
fn scan_empty_and_blank() {
    assert_eq!(Ok(vec![]), scan(""));
    assert_eq!(Ok(vec![]), scan(" \t\n# nada\n"));
}

#[test]
fn scan_errors() {
    assert_eq!(Err(LexError::UnterminatedString), scan("\"abc"));
    assert_eq!(Err(LexError::UnterminatedString), scan("\"abc\n\""));
    assert_eq!(Err(LexError::UnexpectedCharacter('@')), scan("1 @ 2"));
    assert_eq!(Err(LexError::IntegerTooLarge), scan("9223372036854775808"));
    assert_eq!(Err(LexError::UnexpectedCharacter('@')), scan("@ \"abc"));
}

#[test]
fn scan_largest_integer() {
    assert_eq!(Ok(vec![Token::Inteiro(i64::MAX)]), scan("9223372036854775807"));
    assert_eq!(Ok(vec![Token::Inteiro(7)]), scan("007"));
}

#[test]
fn scan_numbers_and_dots() {
    assert_eq!(Ok(vec![Token::Inteiro(1), Token::Dot]), scan("1."));
    assert_eq!(Ok(vec![Token::Inteiro(1), Token::Dot, Token::Identifier("a".into())]), scan("1.a"));
    assert_eq!(Ok(vec![Token::Real("3.14".into()), Token::Dot, Token::Inteiro(5)]), scan("3.14.5"));
}

#[test]
fn scan_words() {
    assert_eq!(
        Ok(vec![Token::Identifier("a1b".into()), Token::Is, Token::Identifier("ação".into()), Token::Se]),
        scan("a1b é ação se")
    );
    assert_eq!(Ok(vec![Token::Identifier("Se".into())]), scan("Se"));
}

#[test]
fn scan_strings_keep_their_text() {
    assert_eq!(Ok(vec![Token::Texto("Olá, mundo".into())]), scan("\"Olá, mundo\""));
    assert_eq!(Ok(vec![Token::Texto("".into())]), scan("\"\""));
}

#[test]
fn scan_next_at_end() {
    let mut tokenizer = Tokenizer::init("");
    assert_eq!(None, tokenizer.scan_next());
    let mut tokenizer = Tokenizer::init("=");
    assert_eq!(Some(Ok(Token::Equal)), tokenizer.scan_next());
    assert_eq!(None, tokenizer.scan_next());
}

#[test]
fn advance_if_match_does_not_consume_on_mismatch() {
    let mut tokenizer = Tokenizer::init("ab");
    assert!(!tokenizer.advance_if_match('b'));
    assert!(tokenizer.advance_if_match('a'));
    assert_eq!(Some('b'), tokenizer.advance());
    assert_eq!(None, tokenizer.advance());
}

#[test]
fn cursor_moves_forward() {
    let mut tokens = Tokens::init(vec![Token::Inteiro(1), Token::Plus]);
    assert!(!tokens.is_empty());
    assert_eq!(2, tokens.len());
    assert_eq!(Some(Token::Inteiro(1)), tokens.current());
    assert_eq!(Some(Token::Plus), tokens.peek());
    assert_eq!(None, tokens.peek_ahead(2));
    assert_eq!(Some(Token::Plus), tokens.next_token());
    assert_eq!(1, tokens.pos());
    assert_eq!(None, tokens.next_token());
    tokens.advance();
    assert_eq!(3, tokens.pos());
    assert_eq!(None, tokens.current());
    assert!(Tokens::init(vec![]).is_empty());
}

#[test]
fn tokenizer_iterator_hands_out_every_token() {
    let mut tokens = coral::tokenizer::TokenizerIterator::new("a #b\n1");
    assert_eq!(Some(Ok(Token::Identifier("a".into()))), tokens.next());
    assert_eq!(Some(Ok(Token::WhiteSpace)), tokens.next());
    assert_eq!(Some(Ok(Token::Comment)), tokens.next());
    assert_eq!(Some(Ok(Token::WhiteSpace)), tokens.next());
    assert_eq!(Some(Ok(Token::Inteiro(1))), tokens.next());
    assert_eq!(None, tokens.next());
}

#[test]
fn whitespace_beyond_ascii() {
    assert_eq!(Ok(vec![Token::Inteiro(1), Token::Inteiro(2)]), scan("1\u{3000}2\u{a0}"));
}
