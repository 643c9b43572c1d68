use vstd::prelude::*;

use itertools::MultiPeek;
use std::str::Chars;

use crate::source::{
    cursor, is_alphabetic, is_alphanumeric, letter, letter_or_digit, peek_at_cursor, peekable,
    pending, reset_cursor, take_next, text_from,
};
use crate::token::{LexError, Token};

verus! {

/// The character classes that a token's tail is made of.
#[derive(Debug, Clone, Copy, PartialEq, Eq)]
pub enum CharClass {
    /// `0` to `9`.
    Digit,
    /// Letters and digits of any script.
    Alphanumeric,
    /// Anything up to the end of the line.
    NotNewline,
    /// Anything up to a closing quote or the end of the line.
    InString,
}

pub open spec fn is_digit(c: char) -> bool {
    '0' <= c && c <= '9'
}

pub open spec fn in_class(cl: CharClass, c: char) -> bool {
    match cl {
        CharClass::Digit => is_digit(c),
        CharClass::Alphanumeric => letter_or_digit(c),
        CharClass::NotNewline => c != '\n',
        CharClass::InString => c != '"' && c != '\n',
    }
}

/// The characters with the Unicode `White_Space` property, those that
/// `char::is_whitespace` holds of.
pub open spec fn whitespace(c: char) -> bool {
    let u = c as u32;
    (0x09 <= u && u <= 0x0d) || u == 0x20 || u == 0x85 || u == 0xa0 || u == 0x1680 || (0x2000 <= u
        && u <= 0x200a) || u == 0x2028 || u == 0x2029 || u == 0x202f || u == 0x205f || u == 0x3000
}

fn is_whitespace(c: char) -> (r: bool)
    ensures
        r == whitespace(c),
{
    let u = c as u32;
    (0x09 <= u && u <= 0x0d) || u == 0x20 || u == 0x85 || u == 0xa0 || u == 0x1680 || (0x2000 <= u
        && u <= 0x200a) || u == 0x2028 || u == 0x2029 || u == 0x202f || u == 0x205f || u == 0x3000
}

/// The length of the longest prefix of `s` in class `cl`.
pub open spec fn run(s: Seq<char>, cl: CharClass) -> int
    decreases s.len(),
{
    if s.len() > 0 && in_class(cl, s[0]) {
        1 + run(s.drop_first(), cl)
    } else {
        0
    }
}

/// The token of a character that is a token on its own.
pub open spec fn single_symbol(c: char) -> Option<Token> {
    if c == '+' {
        Some(Token::Plus)
    } else if c == '-' {
        Some(Token::Minus)
    } else if c == '*' {
        Some(Token::Star)
    } else if c == '/' {
        Some(Token::Slash)
    } else if c == '%' {
        Some(Token::Percent)
    } else if c == ':' {
        Some(Token::Colon)
    } else if c == ',' {
        Some(Token::Comma)
    } else if c == '.' {
        Some(Token::Dot)
    } else if c == '(' {
        Some(Token::ParentOpen)
    } else if c == ')' {
        Some(Token::ParentClose)
    } else if c == '[' {
        Some(Token::BraceOpen)
    } else if c == ']' {
        Some(Token::BraceClose)
    } else if c == '{' {
        Some(Token::BracketOpen)
    } else if c == '}' {
        Some(Token::BracketClose)
    } else {
        None
    }
}

/// The tokens of a character alone and followed by `=`.
pub open spec fn paired_symbol(c: char) -> Option<(Token, Token)> {
    if c == '=' {
        Some((Token::Equal, Token::EqualEqual))
    } else if c == '!' {
        Some((Token::Bang, Token::BangEqual))
    } else if c == '>' {
        Some((Token::Greater, Token::GreaterThan))
    } else if c == '<' {
        Some((Token::Less, Token::LessThan))
    } else {
        None
    }
}

/// The reserved words and the tokens they stand for.
pub open spec fn keyword(w: Seq<char>) -> Option<Token> {
    if w == "Verdadeiro"@ {
        Some(Token::Logico(true))
    } else if w == "Falso"@ {
        Some(Token::Logico(false))
    } else if w == "Vazio"@ {
        Some(Token::Vazio)
    } else if w == "classe"@ {
        Some(Token::Classe)
    } else if w == "fun"@ {
        Some(Token::Fun)
    } else if w == "lista"@ {
        Some(Token::Lista)
    } else if w == "dicionario"@ {
        Some(Token::Dicionario)
    } else if w == "tupla"@ {
        Some(Token::Tupla)
    } else if w == "conjunto"@ {
        Some(Token::Conjunto)
    } else if w == "imprima"@ {
        Some(Token::Imprima)
    } else if w == "entrada"@ {
        Some(Token::Entrada)
    } else if w == "se"@ {
        Some(Token::Se)
    } else if w == "senao"@ {
        Some(Token::SeNao)
    } else if w == "ouentaose"@ {
        Some(Token::OuEntaoSe)
    } else if w == "e"@ {
        Some(Token::E)
    } else if w == "ou"@ {
        Some(Token::Ou)
    } else if w == "nao"@ {
        Some(Token::Nao)
    } else if w == "é"@ {
        Some(Token::Is)
    } else if w == "remova"@ {
        Some(Token::Remova)
    } else if w == "interrompa"@ {
        Some(Token::Interrompa)
    } else if w == "retorne"@ {
        Some(Token::Retorne)
    } else if w == "continue"@ {
        Some(Token::Continue)
    } else if w == "paracada"@ {
        Some(Token::ParaCada)
    } else if w == "enquanto"@ {
        Some(Token::Enquanto)
    } else if w == "verifique"@ {
        Some(Token::Verifique)
    } else if w == "passe"@ {
        Some(Token::Passe)
    } else if w == "tente"@ {
        Some(Token::Tente)
    } else if w == "exceto"@ {
        Some(Token::Exceto)
    } else if w == "provoque"@ {
        Some(Token::Provoque)
    } else if w == "global"@ {
        Some(Token::Global)
    } else if w == "em"@ {
        Some(Token::Em)
    } else {
        None
    }
}

/// The value of a run of decimal digits.
pub open spec fn decimal(w: Seq<char>) -> int
    decreases w.len(),
{
    if w.len() == 0 {
        0
    } else {
        decimal(w.drop_last()) * 10 + (w.last() as int - '0' as int)
    }
}

/// Where the digits before a possible dot of a number starting `s` end.
pub open spec fn integer_part_end(s: Seq<char>) -> int {
    1 + run(s.skip(1), CharClass::Digit)
}

/// Whether the number starting `s` goes on with a dot and a digit.
pub open spec fn has_fraction(s: Seq<char>) -> bool {
    let d = integer_part_end(s);
    d + 1 < s.len() && s[d] == '.' && is_digit(s[d + 1])
}

/// Where the closing quote of the string literal starting `s` would stand.
pub open spec fn string_end(s: Seq<char>) -> int {
    1 + run(s.skip(1), CharClass::InString)
}

pub open spec fn string_closed(s: Seq<char>) -> bool {
    string_end(s) < s.len() && s[string_end(s)] == '"'
}

/// How many characters the token at the front of a non-empty `s` takes.
pub open spec fn lex_len(s: Seq<char>) -> int {
    let c = s[0];
    if single_symbol(c) is Some {
        1
    } else if paired_symbol(c) is Some {
        if s.len() > 1 && s[1] == '=' {
            2
        } else {
            1
        }
    } else if c == '#' {
        1 + run(s.skip(1), CharClass::NotNewline)
    } else if c == '"' {
        if string_closed(s) {
            string_end(s) + 1
        } else {
            string_end(s)
        }
    } else if is_digit(c) {
        let d = integer_part_end(s);
        if has_fraction(s) {
            d + 1 + run(s.skip(d + 1), CharClass::Digit)
        } else {
            d
        }
    } else if whitespace(c) {
        1
    } else if letter(c) {
        1 + run(s.skip(1), CharClass::Alphanumeric)
    } else {
        1
    }
}

/// `t` is what the front of a non-empty `s` scans to.
pub open spec fn scanned(s: Seq<char>, t: Result<Token, LexError>) -> bool {
    let c = s[0];
    let w = s.take(lex_len(s));
    if single_symbol(c) is Some {
        t == Ok::<Token, LexError>(single_symbol(c)->0)
    } else if paired_symbol(c) is Some {
        let (alone, with_equal) = paired_symbol(c)->0;
        t == Ok::<Token, LexError>(
            if lex_len(s) == 2 {
                with_equal
            } else {
                alone
            },
        )
    } else if c == '#' {
        t == Ok::<Token, LexError>(Token::Comment)
    } else if c == '"' {
        if string_closed(s) {
            t matches Ok(Token::Texto(x)) && x@ == s.subrange(1, string_end(s))
        } else {
            t == Err::<Token, LexError>(LexError::UnterminatedString)
        }
    } else if is_digit(c) {
        if has_fraction(s) {
            t matches Ok(Token::Real(x)) && x@ == w
        } else if decimal(w) <= i64::MAX {
            t == Ok::<Token, LexError>(Token::Inteiro(decimal(w) as i64))
        } else {
            t == Err::<Token, LexError>(LexError::IntegerTooLarge)
        }
    } else if whitespace(c) {
        t == Ok::<Token, LexError>(Token::WhiteSpace)
    } else if letter(c) {
        match keyword(w) {
            Some(k) => t == Ok::<Token, LexError>(k),
            None => t matches Ok(Token::Identifier(x)) && x@ == w,
        }
    } else {
        t == Err::<Token, LexError>(LexError::UnexpectedCharacter(c))
    }
}

proof fn lemma_run(s: Seq<char>, cl: CharClass)
    ensures
        0 <= run(s, cl) <= s.len(),
        forall|j: int| 0 <= j < run(s, cl) ==> in_class(cl, #[trigger] s[j]),
        run(s, cl) < s.len() ==> !in_class(cl, s[run(s, cl) as int]),
    decreases s.len(),
{
    if s.len() > 0 && in_class(cl, s[0]) {
        lemma_run(s.drop_first(), cl);
        assert forall|j: int| 0 <= j < run(s, cl) implies in_class(cl, #[trigger] s[j]) by {
            if j > 0 {
                assert(s[j] == s.drop_first()[j - 1]);
            }
        }
    }
}

proof fn lemma_decimal_grows(w: Seq<char>, c: char)
    requires
        is_digit(c),
    ensures
        decimal(w.push(c)) >= decimal(w) * 10,
        decimal(w.push(c)) == decimal(w) * 10 + (c as int - '0' as int),
{
    assert(w.push(c).drop_last() == w);
}

proof fn lemma_decimal_nonneg(w: Seq<char>)
    requires
        forall|j: int| 0 <= j < w.len() ==> is_digit(#[trigger] w[j]),
    ensures
        decimal(w) >= 0,
    decreases w.len(),
{
    if w.len() > 0 {
        lemma_decimal_nonneg(w.drop_last());
    }
}

proof fn lemma_decimal_prefix(w: Seq<char>, i: int)
    requires
        0 <= i <= w.len(),
        forall|j: int| 0 <= j < w.len() ==> is_digit(#[trigger] w[j]),
    ensures
        decimal(w) >= decimal(w.take(i)),
    decreases w.len() - i,
{
    if i < w.len() {
        lemma_decimal_prefix(w, i + 1);
        assert(w.take(i + 1) == w.take(i).push(w[i]));
        lemma_decimal_grows(w.take(i), w[i]);
        lemma_decimal_nonneg(w.take(i));
        assert(decimal(w.take(i)) * 10 >= decimal(w.take(i))) by (nonlinear_arith)
            requires
                decimal(w.take(i)) >= 0,
        ;
    } else {
        assert(w.take(i) == w);
    }
}

/// The error that the token at the front of a non-empty `s` raises, if any.
pub open spec fn lex_error(s: Seq<char>) -> Option<LexError> {
    let c = s[0];
    if single_symbol(c) is Some || paired_symbol(c) is Some || c == '#' {
        None
    } else if c == '"' {
        if string_closed(s) {
            None
        } else {
            Some(LexError::UnterminatedString)
        }
    } else if is_digit(c) {
        if !has_fraction(s) && decimal(s.take(lex_len(s))) > i64::MAX {
            Some(LexError::IntegerTooLarge)
        } else {
            None
        }
    } else if whitespace(c) || letter(c) {
        None
    } else {
        Some(LexError::UnexpectedCharacter(c))
    }
}

/// Whether the token at the front of a non-empty `s` is whitespace or a
/// comment, which `scan` leaves out.
pub open spec fn dropped(s: Seq<char>) -> bool {
    let c = s[0];
    single_symbol(c) is None && paired_symbol(c) is None && (c == '#' || (c != '"' && !is_digit(c)
        && whitespace(c)))
}

/// The first error met when scanning the whole of `s`, if any.
pub open spec fn scan_error(s: Seq<char>) -> Option<LexError>
    decreases s.len(),
{
    if s.len() == 0 || lex_len(s) < 1 || lex_len(s) > s.len() {
        None
    } else if lex_error(s) is Some {
        lex_error(s)
    } else {
        scan_error(s.skip(lex_len(s)))
    }
}

/// `ts` is what scanning the whole of `s` gives, whitespace and comments
/// left out, where no token raises an error.
pub open spec fn scans(s: Seq<char>, ts: Seq<Token>) -> bool
    decreases s.len(),
{
    if s.len() == 0 {
        ts.len() == 0
    } else if lex_len(s) < 1 || lex_len(s) > s.len() {
        false
    } else if dropped(s) {
        scans(s.skip(lex_len(s)), ts)
    } else {
        ts.len() > 0 && scanned(s, Ok(ts[0])) && scans(s.skip(lex_len(s)), ts.drop_first())
    }
}

proof fn lemma_lex_len(s: Seq<char>)
    requires
        s.len() > 0,
    ensures
        1 <= lex_len(s) <= s.len(),
{
    lemma_run(s.skip(1), CharClass::NotNewline);
    lemma_run(s.skip(1), CharClass::InString);
    lemma_run(s.skip(1), CharClass::Digit);
    lemma_run(s.skip(1), CharClass::Alphanumeric);
    let d = integer_part_end(s);
    if 0 <= d + 1 <= s.len() {
        lemma_run(s.skip(d + 1), CharClass::Digit);
    }
}

proof fn lemma_skip_skip(s: Seq<char>, a: int, b: int)
    requires
        0 <= a <= s.len(),
        0 <= b <= s.len() - a,
    ensures
        s.skip(a).skip(b) == s.skip(a + b),
        s.take(a) + s.skip(a).take(b) == s.take(a + b),
{
    assert(s.skip(a).skip(b) =~= s.skip(a + b));
    assert(s.take(a) + s.skip(a).take(b) =~= s.take(a + b));
}

/// Whether the characters of `v` are those of `w`.
fn is_word(v: &Vec<char>, w: &str) -> (r: bool)
    ensures
        r == (v@ == w@),
{
    let n = w.unicode_len();
    if v.len() != n {
        return false;
    }
    let mut i: usize = 0;
    while i < n
        invariant
            n == w@.len(),
            v@.len() == n,
            i <= n,
            forall|j: int| 0 <= j < i ==> v@[j] == w@[j],
        decreases n - i,
    {
        if v[i] != w.get_char(i) {
            return false;
        }
        i = i + 1;
    }
    assert(v@ =~= w@);
    true
}

/// The keyword token that `v` spells, if any.
fn keyword_of(v: &Vec<char>) -> (r: Option<Token>)
    ensures
        r == keyword(v@),
{
    if is_word(v, "Verdadeiro") {
        Some(Token::Logico(true))
    } else if is_word(v, "Falso") {
        Some(Token::Logico(false))
    } else if is_word(v, "Vazio") {
        Some(Token::Vazio)
    } else if is_word(v, "classe") {
        Some(Token::Classe)
    } else if is_word(v, "fun") {
        Some(Token::Fun)
    } else if is_word(v, "lista") {
        Some(Token::Lista)
    } else if is_word(v, "dicionario") {
        Some(Token::Dicionario)
    } else if is_word(v, "tupla") {
        Some(Token::Tupla)
    } else if is_word(v, "conjunto") {
        Some(Token::Conjunto)
    } else if is_word(v, "imprima") {
        Some(Token::Imprima)
    } else if is_word(v, "entrada") {
        Some(Token::Entrada)
    } else if is_word(v, "se") {
        Some(Token::Se)
    } else if is_word(v, "senao") {
        Some(Token::SeNao)
    } else if is_word(v, "ouentaose") {
        Some(Token::OuEntaoSe)
    } else if is_word(v, "e") {
        Some(Token::E)
    } else if is_word(v, "ou") {
        Some(Token::Ou)
    } else if is_word(v, "nao") {
        Some(Token::Nao)
    } else if is_word(v, "é") {
        Some(Token::Is)
    } else if is_word(v, "remova") {
        Some(Token::Remova)
    } else if is_word(v, "interrompa") {
        Some(Token::Interrompa)
    } else if is_word(v, "retorne") {
        Some(Token::Retorne)
    } else if is_word(v, "continue") {
        Some(Token::Continue)
    } else if is_word(v, "paracada") {
        Some(Token::ParaCada)
    } else if is_word(v, "enquanto") {
        Some(Token::Enquanto)
    } else if is_word(v, "verifique") {
        Some(Token::Verifique)
    } else if is_word(v, "passe") {
        Some(Token::Passe)
    } else if is_word(v, "tente") {
        Some(Token::Tente)
    } else if is_word(v, "exceto") {
        Some(Token::Exceto)
    } else if is_word(v, "provoque") {
        Some(Token::Provoque)
    } else if is_word(v, "global") {
        Some(Token::Global)
    } else if is_word(v, "em") {
        Some(Token::Em)
    } else {
        None
    }
}

/// Turns source text into tokens, one at a time.
pub struct Tokenizer<'a> {
    current_lexeme: Vec<char>,
    source: MultiPeek<Chars<'a>>,
}

impl<'a> Tokenizer<'a> {
    /// The characters not yet scanned.
    pub closed spec fn rest(&self) -> Seq<char> {
        pending(self.source)
    }

    /// The characters of the token being scanned.
    pub closed spec fn lexeme(&self) -> Seq<char> {
        self.current_lexeme@
    }

    pub fn init(source: &'a str) -> (r: Self)
        ensures
            r.rest() == source@,
            r.lexeme().len() == 0,
    {
        Tokenizer { current_lexeme: Vec::new(), source: peekable(source) }
    }

    /// Takes the next character and adds it to the token being scanned.
    pub fn advance(&mut self) -> (r: Option<char>)
        ensures
            old(self).rest().len() == 0 ==> r is None && final(self).rest() == old(self).rest()
                && final(self).lexeme() == old(self).lexeme(),
            old(self).rest().len() > 0 ==> r == Some(old(self).rest()[0]) && final(self).rest()
                == old(self).rest().drop_first() && final(self).lexeme() == old(self).lexeme().push(
                old(self).rest()[0],
            ),
    {
        let current = take_next(&mut self.source);
        if let Some(c) = current {
            self.current_lexeme.push(c);
        }
        current
    }

    /// Takes the next character if it is `expected`.
    pub fn advance_if_match(&mut self, expected: char) -> (r: bool)
        ensures
            r == (old(self).rest().len() > 0 && old(self).rest()[0] == expected),
            r ==> final(self).rest() == old(self).rest().drop_first() && final(self).lexeme()
                == old(self).lexeme().push(expected),
            !r ==> final(self).rest() == old(self).rest() && final(self).lexeme()
                == old(self).lexeme(),
    {
        if self.peek_is(expected) {
            self.advance();
            true
        } else {
            false
        }
    }

    fn peek_first(&mut self) -> (r: Option<char>)
        ensures
            final(self).rest() == old(self).rest(),
            final(self).lexeme() == old(self).lexeme(),
            old(self).rest().len() == 0 ==> r is None,
            old(self).rest().len() > 0 ==> r == Some(old(self).rest()[0]),
    {
        reset_cursor(&mut self.source);
        peek_at_cursor(&mut self.source)
    }

    fn peek_is(&mut self, expected: char) -> (r: bool)
        ensures
            final(self).rest() == old(self).rest(),
            final(self).lexeme() == old(self).lexeme(),
            r == (old(self).rest().len() > 0 && old(self).rest()[0] == expected),
    {
        match self.peek_first() {
            Some(c) => c == expected,
            None => false,
        }
    }

    fn peek_check(&mut self, cl: CharClass) -> (r: bool)
        ensures
            final(self).rest() == old(self).rest(),
            final(self).lexeme() == old(self).lexeme(),
            r == (old(self).rest().len() > 0 && in_class(cl, old(self).rest()[0])),
    {
        match self.peek_first() {
            Some(c) => match cl {
                CharClass::Digit => '0' <= c && c <= '9',
                CharClass::Alphanumeric => is_alphanumeric(c),
                CharClass::NotNewline => c != '\n',
                CharClass::InString => c != '"' && c != '\n',
            },
            None => false,
        }
    }

    /// Whether the next two characters are a dot and a digit.
    fn peek_fraction(&mut self) -> (r: bool)
        ensures
            final(self).rest() == old(self).rest(),
            final(self).lexeme() == old(self).lexeme(),
            r == (old(self).rest().len() > 1 && old(self).rest()[0] == '.' && is_digit(
                old(self).rest()[1],
            )),
    {
        reset_cursor(&mut self.source);
        match peek_at_cursor(&mut self.source) {
            Some(c) => match peek_at_cursor(&mut self.source) {
                Some(c2) => c == '.' && '0' <= c2 && c2 <= '9',
                None => false,
            },
            None => false,
        }
    }

    /// Takes characters while they are in class `cl`.
    fn advance_while(&mut self, cl: CharClass)
        ensures
            final(self).rest() == old(self).rest().skip(run(old(self).rest(), cl) as int),
            final(self).lexeme() == old(self).lexeme() + old(self).rest().take(
                run(old(self).rest(), cl) as int,
            ),
    {
        let ghost s = self.rest();
        let ghost l = self.lexeme();
        let ghost mut k: int = 0;
        proof {
            assert(s.skip(0) == s);
            assert(s.take(0) =~= Seq::<char>::empty());
            assert(l + s.take(0) =~= l);
        }
        while self.peek_check(cl)
            invariant
                0 <= k <= s.len(),
                self.rest() == s.skip(k),
                self.lexeme() == l + s.take(k),
                run(s, cl) == k + run(s.skip(k), cl),
            decreases s.len() - k,
        {
            let ghost before = self.rest();
            self.advance();
            proof {
                assert(before.drop_first() =~= s.skip(k + 1));
                assert(s.take(k + 1) =~= s.take(k).push(before[0]));
                assert(l + s.take(k + 1) =~= (l + s.take(k)).push(before[0]));
                k = k + 1;
            }
        }
    }
    /// Scans the next token. `None` when no character is left; an error
    /// for a character that starts no token, a string literal that is not
    /// closed on its line and an integer literal beyond `i64`.
    pub fn scan_next(&mut self) -> (r: Option<Result<Token, LexError>>)
        ensures
            old(self).rest().len() == 0 ==> r is None && final(self).rest() == old(self).rest(),
            old(self).rest().len() > 0 ==> (r matches Some(t) && scanned(old(self).rest(), t)),
            old(self).rest().len() > 0 ==> final(self).rest() == old(self).rest().skip(
                lex_len(old(self).rest()),
            ),
    {
        self.current_lexeme.clear();
        let ghost s = self.rest();
        let c = match self.advance() {
            Some(c) => c,
            None => return None,
        };
        proof {
            assert(s.drop_first() =~= s.skip(1));
            assert(self.lexeme() =~= s.take(1));
        }
        let t = match c {
            '+' => Token::Plus,
            '-' => Token::Minus,
            '*' => Token::Star,
            '/' => Token::Slash,
            '%' => Token::Percent,
            ':' => Token::Colon,
            ',' => Token::Comma,
            '.' => Token::Dot,
            '(' => Token::ParentOpen,
            ')' => Token::ParentClose,
            '[' => Token::BraceOpen,
            ']' => Token::BraceClose,
            '{' => Token::BracketOpen,
            '}' => Token::BracketClose,
            '=' => if self.advance_if_match('=') {
                Token::EqualEqual
            } else {
                Token::Equal
            },
            '!' => if self.advance_if_match('=') {
                Token::BangEqual
            } else {
                Token::Bang
            },
            '>' => if self.advance_if_match('=') {
                Token::GreaterThan
            } else {
                Token::Greater
            },
            '<' => if self.advance_if_match('=') {
                Token::LessThan
            } else {
                Token::Less
            },
            '#' => {
                self.advance_while(CharClass::NotNewline);
                proof {
                    lemma_run(s.skip(1), CharClass::NotNewline);
                    lemma_skip_skip(s, 1, run(s.skip(1), CharClass::NotNewline));
                }
                Token::Comment
            },
            '"' => return Some(self.consume_string(Ghost(s))),
            _ => {
                if '0' <= c && c <= '9' {
                    return Some(self.consume_numbers(Ghost(s)));
                } else if is_whitespace(c) {
                    Token::WhiteSpace
                } else if is_alphabetic(c) {
                    return Some(Ok(self.consumer_identifier(Ghost(s))));
                } else {
                    return Some(Err(LexError::UnexpectedCharacter(c)));
                }
            },
        };
        proof {
            if paired_symbol(c) is Some && s.len() > 1 && s[1] == '=' {
                assert(s.skip(1).drop_first() =~= s.skip(2));
            }
        }
        Some(Ok(t))
    }

    fn consume_string(&mut self, Ghost(s): Ghost<Seq<char>>) -> (r: Result<Token, LexError>)
        requires
            s.len() > 0,
            s[0] == '"',
            old(self).rest() == s.skip(1),
            old(self).lexeme() == s.take(1),
        ensures
            scanned(s, r),
            final(self).rest() == s.skip(lex_len(s)),
    {
        self.advance_while(CharClass::InString);
        let ghost e = string_end(s);
        proof {
            lemma_run(s.skip(1), CharClass::InString);
            lemma_skip_skip(s, 1, e - 1);
            assert(self.lexeme().skip(1) =~= s.subrange(1, e));
        }
        let literal = text_from(&self.current_lexeme, 1);
        if !self.advance_if_match('"') {
            return Err(LexError::UnterminatedString);
        }
        proof {
            assert(s.skip(e).drop_first() =~= s.skip(e + 1));
        }
        Ok(Token::Texto(literal))
    }

    fn consume_numbers(&mut self, Ghost(s): Ghost<Seq<char>>) -> (r: Result<Token, LexError>)
        requires
            s.len() > 0,
            is_digit(s[0]),
            old(self).rest() == s.skip(1),
            old(self).lexeme() == s.take(1),
        ensures
            scanned(s, r),
            final(self).rest() == s.skip(lex_len(s)),
    {
        self.advance_while(CharClass::Digit);
        let ghost d = integer_part_end(s);
        proof {
            lemma_run(s.skip(1), CharClass::Digit);
            lemma_skip_skip(s, 1, d - 1);
        }
        let fraction = self.peek_fraction();
        proof {
            if d + 1 < s.len() {
                assert(s.skip(d)[0] == s[d]);
                assert(s.skip(d)[1] == s[d + 1]);
            }
            assert(fraction == has_fraction(s));
        }
        if fraction {
            self.advance();
            proof {
                assert(s.skip(d).drop_first() =~= s.skip(d + 1));
                assert(s.take(d).push(s[d]) =~= s.take(d + 1));
            }
            self.advance_while(CharClass::Digit);
            proof {
                lemma_run(s.skip(d + 1), CharClass::Digit);
                lemma_skip_skip(s, d + 1, run(s.skip(d + 1), CharClass::Digit));
                assert(self.current_lexeme@.skip(0) =~= self.current_lexeme@);
            }
            return Ok(Token::Real(text_from(&self.current_lexeme, 0)));
        }
        let ghost w = s.take(d);
        proof {
            assert(lex_len(s) == d);
            assert(self.current_lexeme@.skip(0) =~= self.current_lexeme@);
            assert forall|j: int| 0 <= j < w.len() implies is_digit(#[trigger] w[j]) by {
                if j > 0 {
                    assert(w[j] == s.skip(1)[j - 1]);
                }
            }
        }
        let mut acc: i64 = 0;
        let mut i: usize = 0;
        while i < self.current_lexeme.len()
            invariant
                self.current_lexeme@ == w,
                w == s.take(lex_len(s)),
                s.len() > 0,
                is_digit(s[0]),
                !has_fraction(s),
                self.rest() == s.skip(lex_len(s)),
                forall|j: int| 0 <= j < w.len() ==> is_digit(#[trigger] w[j]),
                0 <= i <= w.len(),
                acc == decimal(w.take(i as int)),
                0 <= acc,
            decreases w.len() - i,
        {
            let c = self.current_lexeme[i];
            let digit = (c as u32 - '0' as u32) as i64;
            proof {
                assert(w.take(i + 1) =~= w.take(i as int).push(c));
                lemma_decimal_grows(w.take(i as int), c);
            }
            if acc > (i64::MAX - digit) / 10 {
                proof {
                    assert(acc * 10 + digit > i64::MAX) by (nonlinear_arith)
                        requires
                            acc > (i64::MAX - digit) / 10,
                            0 <= digit <= 9,
                    ;
                    lemma_decimal_prefix(w, i + 1);
                    assert(decimal(w.take(i + 1)) == acc * 10 + digit);
                    assert(decimal(s.take(lex_len(s))) > i64::MAX);
                }
                return Err(LexError::IntegerTooLarge);
            }
            assert(acc * 10 + digit <= i64::MAX) by (nonlinear_arith)
                requires
                    acc <= (i64::MAX - digit) / 10,
                    0 <= digit <= 9,
                    acc >= 0,
            ;
            acc = acc * 10 + digit;
            i = i + 1;
        }
        proof {
            assert(w.take(i as int) =~= w);
        }
        Ok(Token::Inteiro(acc))
    }

    fn consumer_identifier(&mut self, Ghost(s): Ghost<Seq<char>>) -> (r: Token)
        requires
            s.len() > 0,
            letter(s[0]),
            !is_digit(s[0]),
            !whitespace(s[0]),
            single_symbol(s[0]) is None,
            paired_symbol(s[0]) is None,
            s[0] != '#',
            s[0] != '"',
            old(self).rest() == s.skip(1),
            old(self).lexeme() == s.take(1),
        ensures
            scanned(s, Ok(r)),
            final(self).rest() == s.skip(lex_len(s)),
    {
        self.advance_while(CharClass::Alphanumeric);
        proof {
            lemma_run(s.skip(1), CharClass::Alphanumeric);
            lemma_skip_skip(s, 1, run(s.skip(1), CharClass::Alphanumeric));
            assert(self.current_lexeme@.skip(0) =~= self.current_lexeme@);
        }
        match keyword_of(&self.current_lexeme) {
            Some(k) => k,
            None => Token::Identifier(text_from(&self.current_lexeme, 0)),
        }
    }
}

/// Hands out the tokens of a text one at a time, whitespace and comments
/// included.
pub struct TokenizerIterator<'a> {
    tokenizer: Tokenizer<'a>,
}

impl<'a> TokenizerIterator<'a> {
    /// The characters not yet scanned.
    pub closed spec fn rest(&self) -> Seq<char> {
        self.tokenizer.rest()
    }

    pub fn new(source: &'a str) -> (r: Self)
        ensures
            r.rest() == source@,
    {
        TokenizerIterator { tokenizer: Tokenizer::init(source) }
    }

    /// The next token; `None` once no character is left.
    pub fn next(&mut self) -> (r: Option<Result<Token, LexError>>)
        ensures
            old(self).rest().len() == 0 ==> r is None && final(self).rest() == old(self).rest(),
            old(self).rest().len() > 0 ==> (r matches Some(t) && scanned(old(self).rest(), t)),
            old(self).rest().len() > 0 ==> final(self).rest() == old(self).rest().skip(
                lex_len(old(self).rest()),
            ),
    {
        self.tokenizer.scan_next()
    }
}

/// Splits `source` into tokens, leaving out whitespace and comments; fails
/// with the first token that raises an error.
pub fn scan(source: &str) -> (r: Result<Vec<Token>, LexError>)
    ensures
        scan_error(source@) is Some ==> r == Err::<Vec<Token>, LexError>(scan_error(source@)->0),
        scan_error(source@) is None ==> (r matches Ok(ts) && scans(source@, ts@)),
        r matches Ok(ts) ==> forall|k: int|
            0 <= k < ts@.len() ==> !(#[trigger] ts@[k] is WhiteSpace) && !(ts@[k] is Comment),
{
    let mut tokenizer = Tokenizer::init(source);
    let mut tokens: Vec<Token> = Vec::new();
    let ghost s0 = source@;
    loop
        invariant
            s0 == source@,
            scan_error(s0) == scan_error(tokenizer.rest()),
            forall|ts: Seq<Token>| #[trigger]
                scans(tokenizer.rest(), ts) ==> scans(s0, tokens@ + ts),
            forall|k: int|
                0 <= k < tokens@.len() ==> !(#[trigger] tokens@[k] is WhiteSpace) && !(
                tokens@[k] is Comment),
        decreases tokenizer.rest().len(),
    {
        let ghost rest = tokenizer.rest();
        proof {
            if rest.len() > 0 {
                lemma_lex_len(rest);
            }
        }
        match tokenizer.scan_next() {
            None => {
                proof {
                    assert(rest.len() == 0);
                    assert(tokenizer.rest() == rest);
                    assert(scan_error(rest) is None);
                    assert(scans(rest, Seq::<Token>::empty()));
                    assert(scans(s0, tokens@ + Seq::<Token>::empty()));
                    assert(tokens@ + Seq::<Token>::empty() =~= tokens@);
                }
                return Ok(tokens);
            },
            Some(Err(e)) => {
                proof {
                    assert(lex_error(rest) == Some(e));
                }
                return Err(e);
            },
            Some(Ok(t)) => {
                let skip = match t {
                    Token::WhiteSpace | Token::Comment => true,
                    _ => false,
                };
                proof {
                    assert(skip == dropped(rest));
                }
                if !skip {
                    let ghost before = tokens@;
                    tokens.push(t);
                    proof {
                        assert forall|ts: Seq<Token>| #[trigger]
                            scans(tokenizer.rest(), ts) implies scans(s0, tokens@ + ts) by {
                            let whole = seq![t] + ts;
                            assert(whole.drop_first() =~= ts);
                            assert(scans(rest, whole));
                            assert(before + whole =~= tokens@ + ts);
                        }
                    }
                } else {
                    proof {
                        assert forall|ts: Seq<Token>| #[trigger]
                            scans(tokenizer.rest(), ts) implies scans(s0, tokens@ + ts) by {
                            assert(scans(rest, ts));
                        }
                    }
                }
            },
        }
    }
}

} // verus!
