use vstd::prelude::*;

verus! {

/// One lexical unit. Keywords are the Portuguese words of the language.
#[derive(Debug, Clone, PartialEq)]
pub enum Token {
    /// An integer literal.
    Inteiro(i64),
    /// A real literal, as written: digits, a dot, digits.
    Real(String),
    /// A string literal, without its quotes.
    Texto(String),
    /// `Verdadeiro` or `Falso`.
    Logico(bool),
    Tupla,
    Lista,
    Conjunto,
    Dicionario,
    Fun,
    Classe,
    Imprima,
    Entrada,
    Se,
    SeNao,
    OuEntaoSe,
    E,
    Ou,
    Nao,
    /// `é`, the identity test.
    Is,
    Remova,
    Em,
    Verifique,
    Interrompa,
    Retorne,
    Vazio,
    Continue,
    ParaCada,
    Enquanto,
    Global,
    Tente,
    Exceto,
    Passe,
    Provoque,
    /// A name that is not a keyword.
    Identifier(String),
    Plus,
    Minus,
    Star,
    Slash,
    Equal,
    Percent,
    /// From `#` to the end of the line; dropped by `scan`.
    Comment,
    Bang,
    Colon,
    Comma,
    Dot,
    Greater,
    Less,
    ParentOpen,
    ParentClose,
    BraceOpen,
    BraceClose,
    BracketOpen,
    BracketClose,
    /// `==`
    EqualEqual,
    /// `>=`
    GreaterThan,
    /// `<=`
    LessThan,
    /// `!=`
    BangEqual,
    /// One whitespace character; dropped by `scan`.
    WhiteSpace,
    /// End of input.
    EOF,
}

/// Why the text could not be split into tokens.
#[derive(Debug, Clone, Copy, PartialEq, Eq)]
pub enum LexError {
    /// A character that starts no token.
    UnexpectedCharacter(char),
    /// A string literal without its closing quote on the same line.
    UnterminatedString,
    /// An integer literal beyond the range of `i64`.
    IntegerTooLarge,
}

impl Token {
    /// A copy of the token.
    pub fn copy(&self) -> (r: Token)
        ensures
            r == *self,
    {
        match self {
            Token::Inteiro(x) => Token::Inteiro(*x),
            Token::Real(x) => Token::Real(x.clone()),
            Token::Texto(x) => Token::Texto(x.clone()),
            Token::Logico(x) => Token::Logico(*x),
            Token::Tupla => Token::Tupla,
            Token::Lista => Token::Lista,
            Token::Conjunto => Token::Conjunto,
            Token::Dicionario => Token::Dicionario,
            Token::Fun => Token::Fun,
            Token::Classe => Token::Classe,
            Token::Imprima => Token::Imprima,
            Token::Entrada => Token::Entrada,
            Token::Se => Token::Se,
            Token::SeNao => Token::SeNao,
            Token::OuEntaoSe => Token::OuEntaoSe,
            Token::E => Token::E,
            Token::Ou => Token::Ou,
            Token::Nao => Token::Nao,
            Token::Is => Token::Is,
            Token::Remova => Token::Remova,
            Token::Em => Token::Em,
            Token::Verifique => Token::Verifique,
            Token::Interrompa => Token::Interrompa,
            Token::Retorne => Token::Retorne,
            Token::Vazio => Token::Vazio,
            Token::Continue => Token::Continue,
            Token::ParaCada => Token::ParaCada,
            Token::Enquanto => Token::Enquanto,
            Token::Global => Token::Global,
            Token::Tente => Token::Tente,
            Token::Exceto => Token::Exceto,
            Token::Passe => Token::Passe,
            Token::Provoque => Token::Provoque,
            Token::Identifier(x) => Token::Identifier(x.clone()),
            Token::Plus => Token::Plus,
            Token::Minus => Token::Minus,
            Token::Star => Token::Star,
            Token::Slash => Token::Slash,
            Token::Equal => Token::Equal,
            Token::Percent => Token::Percent,
            Token::Comment => Token::Comment,
            Token::Bang => Token::Bang,
            Token::Colon => Token::Colon,
            Token::Comma => Token::Comma,
            Token::Dot => Token::Dot,
            Token::Greater => Token::Greater,
            Token::Less => Token::Less,
            Token::ParentOpen => Token::ParentOpen,
            Token::ParentClose => Token::ParentClose,
            Token::BraceOpen => Token::BraceOpen,
            Token::BraceClose => Token::BraceClose,
            Token::BracketOpen => Token::BracketOpen,
            Token::BracketClose => Token::BracketClose,
            Token::EqualEqual => Token::EqualEqual,
            Token::GreaterThan => Token::GreaterThan,
            Token::LessThan => Token::LessThan,
            Token::BangEqual => Token::BangEqual,
            Token::WhiteSpace => Token::WhiteSpace,
            Token::EOF => Token::EOF,
        }
    }
}

} // verus!
