use vstd::prelude::*;

use crate::token::Token;

verus! {

/// A token sequence with a read position that only moves forward.
pub struct Tokens {
    pub data: Vec<Token>,
    pos: usize,
}

/// The token at `i`, if there is one.
pub open spec fn token_at(ts: Seq<Token>, i: int) -> Option<Token> {
    if 0 <= i < ts.len() {
        Some(ts[i])
    } else {
        None
    }
}

impl Tokens {
    /// The tokens.
    pub closed spec fn items(&self) -> Seq<Token> {
        self.data@
    }

    /// The read position.
    pub closed spec fn at(&self) -> int {
        self.pos as int
    }

    pub fn init(data: Vec<Token>) -> (r: Self)
        ensures
            r.items() == data@,
            r.at() == 0,
    {
        Tokens { data, pos: 0 }
    }

    pub fn is_empty(&self) -> (r: bool)
        ensures
            r == (self.items().len() == 0),
    {
        self.data.len() == 0
    }

    pub fn pos(&self) -> (r: usize)
        ensures
            r == self.at(),
    {
        self.pos
    }

    pub fn len(&self) -> (r: usize)
        ensures
            r == self.items().len(),
    {
        self.data.len()
    }

    /// The token at the read position.
    pub fn current(&self) -> (r: Option<Token>)
        ensures
            r == token_at(self.items(), self.at()),
    {
        self.peek_ahead(0)
    }

    /// The token `n` places after the read position.
    pub fn peek_ahead(&self, n: usize) -> (r: Option<Token>)
        ensures
            r == token_at(self.items(), self.at() + n),
    {
        if self.pos < self.data.len() && n < self.data.len() - self.pos {
            Some(self.data[self.pos + n].copy())
        } else {
            None
        }
    }

    /// The token after the one at the read position.
    pub fn peek(&self) -> (r: Option<Token>)
        ensures
            r == token_at(self.items(), self.at() + 1),
    {
        self.peek_ahead(1)
    }

    /// Moves the read position one token on; past the end nothing is read.
    pub fn advance(&mut self)
        requires
            old(self).at() < usize::MAX,
        ensures
            final(self).items() == old(self).items(),
            final(self).at() == old(self).at() + 1,
    {
        self.pos = self.pos + 1;
    }

    /// Moves one token on and returns the token reached.
    pub fn next_token(&mut self) -> (r: Option<Token>)
        requires
            old(self).at() < usize::MAX,
        ensures
            final(self).items() == old(self).items(),
            final(self).at() == old(self).at() + 1,
            r == token_at(final(self).items(), final(self).at()),
    {
        self.advance();
        self.current()
    }
}

} // verus!
