//! The cursor through which the parser reads a token sequence.
//!
//! A cursor is a position in a borrowed token sequence. It can be asked what begins
//! at its position, can be moved over a token of a given kind, can be forked for
//! lookahead, and can hand out a cursor over the inside of a group.

use crate::error::{ErrorKind, SyntaxError, TokenKind};
use crate::grammar::{
    expect, group, is_group, is_punct, keyword_text, mismatch, name, starts, width,
};
use crate::lexer::accepts_name;
use crate::token::{lemma_group_view, view_all, Delimiter, Token, TokenView};
use vstd::prelude::*;

verus! {

/// A position in a token sequence.
pub struct TokenCursor<'a> {
    tokens: &'a Vec<Token>,
    pos: usize,
}

/// The mathematical value of a [`TokenCursor`].
pub ghost struct CursorView {
    /// The whole sequence that the cursor moves in.
    pub tokens: Seq<TokenView>,
    /// The index of the next token; the length of `tokens` at the end.
    pub pos: int,
}

impl CursorView {
    /// The same sequence at another position.
    pub open spec fn at(self, pos: int) -> CursorView {
        CursorView { pos, ..self }
    }
}

impl<'a> View for TokenCursor<'a> {
    type V = CursorView;

    closed spec fn view(&self) -> CursorView {
        CursorView { tokens: view_all(self.tokens@), pos: self.pos as int }
    }
}

/// Whether `token` is the word `word`.
fn is_word(token: &Token, word: &str) -> (found: bool)
    ensures
        found == (token@ == TokenView::Ident(word@)),
{
    match token {
        Token::Ident(text) => text.as_str().eq(word),
        _ => false,
    }
}

/// Whether `token` is the punctuation character `ch`.
fn has_punct(token: &Token, ch: char) -> (found: bool)
    ensures
        found == is_punct(token@, ch),
{
    match token {
        Token::Punct(c, _) => *c == ch,
        _ => false,
    }
}

/// Whether `token` is a group in `delimiter`.
fn has_group(token: &Token, delimiter: Delimiter) -> (found: bool)
    ensures
        found == is_group(token@, delimiter),
{
    match token {
        Token::Group(d, inner) => {
            proof {
                lemma_group_view(*d, *inner);
            }
            *d == delimiter
        },
        _ => false,
    }
}

/// The word of a keyword kind.
fn keyword(kind: TokenKind) -> (word: Option<&'static str>)
    ensures
        match word {
            Some(w) => keyword_text(kind) == Some(w@),
            None => keyword_text(kind) is None,
        },
{
    match kind {
        TokenKind::F => Some("f"),
        TokenKind::Const => Some("const"),
        TokenKind::Var => Some("var"),
        TokenKind::Static => Some("static"),
        TokenKind::Struct => Some("struct"),
        TokenKind::Def => Some("def"),
        TokenKind::Gen => Some("gen"),
        TokenKind::Import => Some("import"),
        TokenKind::As => Some("as"),
        TokenKind::For => Some("for"),
        TokenKind::Mut => Some("mut"),
        TokenKind::Pub => Some("pub"),
        _ => None,
    }
}

impl<'a> TokenCursor<'a> {
    /// A cursor never stands behind the end of its sequence.
    #[verifier::type_invariant]
    spec fn in_bounds(&self) -> bool {
        self.pos <= self.tokens@.len()
    }

    /// A cursor at the start of `tokens`.
    pub fn new(tokens: &'a Vec<Token>) -> (cursor: Self)
        ensures
            cursor@ == (CursorView { tokens: view_all(tokens@), pos: 0 }),
    {
        TokenCursor { tokens, pos: 0 }
    }

    /// An independent cursor at the same position. Moving it leaves `self` where it is.
    pub fn fork(&self) -> (probe: Self)
        ensures
            probe@ == self@,
            0 <= probe@.pos <= probe@.tokens.len(),
    {
        proof {
            use_type_invariant(self);
        }
        TokenCursor { tokens: self.tokens, pos: self.pos }
    }

    /// Whether the cursor is at the end of its sequence.
    pub fn is_empty(&self) -> (empty: bool)
        ensures
            empty == (self@.pos >= self@.tokens.len()),
            0 <= self@.pos <= self@.tokens.len(),
    {
        proof {
            use_type_invariant(self);
        }
        self.pos >= self.tokens.len()
    }

    /// The index of the next token.
    pub fn position(&self) -> (pos: usize)
        ensures
            pos == self@.pos,
            pos <= self@.tokens.len(),
    {
        proof {
            use_type_invariant(self);
        }
        self.pos
    }

    /// Whether a token of the given kind begins at the cursor. Nothing is consumed.
    pub fn peek(&self, kind: TokenKind) -> (found: bool)
        ensures
            found == starts(self@.tokens, self@.pos, kind),
    {
        proof {
            use_type_invariant(self);
        }
        if self.pos >= self.tokens.len() {
            return false;
        }
        let token = &self.tokens[self.pos];
        match kind {
            TokenKind::Ident => match token {
                Token::Ident(text) => accepts_name(text.as_str()),
                _ => false,
            },
            TokenKind::Semi => has_punct(token, ';'),
            TokenKind::Comma => has_punct(token, ','),
            TokenKind::Equals => has_punct(token, '='),
            TokenKind::PathSep => match token {
                Token::Punct(ch, joint) => *ch == ':' && *joint && self.pos + 1 < self.tokens.len()
                    && has_punct(&self.tokens[self.pos + 1], ':'),
                _ => false,
            },
            TokenKind::Parens => has_group(token, Delimiter::Parenthesis),
            TokenKind::Braces => has_group(token, Delimiter::Brace),
            _ => match keyword(kind) {
                Some(word) => is_word(token, word),
                None => false,
            },
        }
    }

    /// The error for finding none of `expected` at the cursor.
    pub fn error(&self, expected: Vec<TokenKind>) -> (error: SyntaxError)
        ensures
            error@ == mismatch(self@.tokens, self@.pos, expected@),
    {
        proof {
            use_type_invariant(self);
        }
        let kind = if self.pos >= self.tokens.len() {
            ErrorKind::UnexpectedEndOfInput
        } else {
            ErrorKind::UnexpectedToken
        };
        SyntaxError::at(kind, expected, self.pos)
    }

    /// Moves over a token of the given kind if one begins at the cursor, and says
    /// whether it did. The cursor moves only once the token is known to be there, so
    /// a miss costs nothing and leaves no trace.
    pub fn skip_optional(&mut self, kind: TokenKind) -> (skipped: bool)
        ensures
            skipped == starts(old(self)@.tokens, old(self)@.pos, kind),
            final(self)@ == old(self)@.at(
                if skipped {
                    old(self)@.pos + width(kind)
                } else {
                    old(self)@.pos
                },
            ),
    {
        if self.peek(kind) {
            assert(self.pos + width(kind) <= self.tokens.len());
            self.pos = self.pos + if kind == TokenKind::PathSep {
                2
            } else {
                1
            };
            true
        } else {
            false
        }
    }

    /// Moves over a token of the given kind, or fails and stays.
    pub fn expect(&mut self, kind: TokenKind) -> (result: Result<(), SyntaxError>)
        ensures
            match expect(old(self)@.tokens, old(self)@.pos, kind) {
                Ok(next) => result is Ok && final(self)@ == old(self)@.at(next),
                Err(e) => result matches Err(error) && error@ == e && final(self)@ == old(self)@,
            },
    {
        if self.skip_optional(kind) {
            Ok(())
        } else {
            Err(self.error(kind.alone()))
        }
    }

    /// Moves over a name and returns it, or fails and stays.
    pub fn name(&mut self) -> (result: Result<String, SyntaxError>)
        ensures
            match name(old(self)@.tokens, old(self)@.pos) {
                Ok((text, next)) => result matches Ok(found) && found@ == text && final(self)@
                    == old(self)@.at(next),
                Err(e) => result matches Err(error) && error@ == e && final(self)@ == old(self)@,
            },
    {
        proof {
            use_type_invariant(&*self);
        }
        if self.pos < self.tokens.len() {
            if let Token::Ident(text) = &self.tokens[self.pos] {
                if accepts_name(text.as_str()) {
                    let found = text.clone();
                    self.pos = self.pos + 1;
                    return Ok(found);
                }
            }
        }
        Err(self.error(TokenKind::Ident.alone()))
    }

    /// Moves over the group of the given kind at the cursor and returns a cursor at
    /// the start of what the group holds, or fails and stays. Positions in errors
    /// from the returned cursor count inside the group. Only [`TokenKind::Parens`]
    /// and [`TokenKind::Braces`] are kinds of group: with another kind this fails.
    pub fn enter(&mut self, kind: TokenKind) -> (result: Result<TokenCursor<'a>, SyntaxError>)
        ensures
            match group(old(self)@.tokens, old(self)@.pos, kind) {
                Ok(inner) => result matches Ok(content) && content@ == (CursorView {
                    tokens: inner,
                    pos: 0,
                }) && final(self)@ == old(self)@.at(old(self)@.pos + 1),
                Err(e) => result matches Err(error) && error@ == e && final(self)@ == old(self)@,
            },
    {
        proof {
            use_type_invariant(&*self);
        }
        let delimiter = match kind {
            TokenKind::Parens => Delimiter::Parenthesis,
            TokenKind::Braces => Delimiter::Brace,
            _ => return Err(self.error(kind.alone())),
        };
        let tokens: &'a Vec<Token> = self.tokens;
        if self.pos < tokens.len() {
            if let Token::Group(found, inner) = &tokens[self.pos] {
                proof {
                    lemma_group_view(*found, *inner);
                }
                if *found == delimiter {
                    self.pos = self.pos + 1;
                    return Ok(TokenCursor { tokens: inner, pos: 0 });
                }
            }
        }
        Err(self.error(kind.alone()))
    }
}

} // verus!
