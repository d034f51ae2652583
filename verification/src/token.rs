//! The token model: what the parser reads.
//!
//! A source text is handed to the parser as a sequence of token trees: identifiers,
//! single punctuation characters, literals, and delimited groups that hold a nested
//! sequence of token trees.

use vstd::prelude::*;

verus! {

/// The brackets around a delimited group.
#[derive(Clone, Copy, Debug, PartialEq, Eq, Structural)]
pub enum Delimiter {
    /// `( ... )`
    Parenthesis,
    /// `{ ... }`
    Brace,
    /// `[ ... ]`
    Bracket,
    /// A group without visible brackets.
    Invisible,
}

/// One token tree.
#[derive(Debug, PartialEq, Eq)]
pub enum Token {
    /// A word: a keyword of the language or a name.
    Ident(String),
    /// One punctuation character. The flag is `true` when the character is joined to
    /// what follows it: to a punctuation character that follows at once, as the first
    /// colon of `::` is, or, for a single quote, to the name of a lifetime.
    Punct(char, bool),
    /// A literal, kept as written.
    Literal(String),
    /// A delimited group and the token trees inside it.
    Group(Delimiter, Vec<Token>),
}

/// The mathematical value of a [`Token`].
pub ghost enum TokenView {
    Ident(Seq<char>),
    Punct(char, bool),
    Literal(Seq<char>),
    Group(Delimiter, Seq<TokenView>),
}

/// The value of a token tree, taken recursively through its groups.
pub open spec fn token_view(token: Token) -> TokenView
    decreases token,
{
    match token {
        Token::Ident(text) => TokenView::Ident(text@),
        Token::Punct(ch, joint) => TokenView::Punct(ch, joint),
        Token::Literal(text) => TokenView::Literal(text@),
        Token::Group(delimiter, inner) => TokenView::Group(
            delimiter,
            Seq::new(
                inner@.len(),
                |i: int|
                    if 0 <= i < inner@.len() {
                        token_view(inner@[i])
                    } else {
                        TokenView::Punct(' ', false)
                    },
            ),
        ),
    }
}

impl View for Token {
    type V = TokenView;

    open spec fn view(&self) -> TokenView {
        token_view(*self)
    }
}

/// The values of a sequence of token trees.
pub open spec fn view_all(tokens: Seq<Token>) -> Seq<TokenView> {
    tokens.map_values(|t: Token| t@)
}

/// A group's value is its delimiter with the values of the token trees inside.
pub proof fn lemma_group_view(delimiter: Delimiter, inner: Vec<Token>)
    ensures
        Token::Group(delimiter, inner)@ == TokenView::Group(delimiter, view_all(inner@)),
{
    let group = Token::Group(delimiter, inner);
    assert(group@->Group_1 =~= view_all(inner@));
}

} // verus!
