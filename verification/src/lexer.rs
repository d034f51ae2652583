//! The tokenizer, which is not this library's own: `proc_macro2` breaks a source text
//! into token trees, and `syn` decides which words are names. This module calls them
//! and turns what they return into [`Token`] values.
//!
//! Nothing here is proved about the two crates. What they compute is given a name
//! ([`tokens_of`], [`is_name`]): which characters form which tokens, and which words
//! are identifiers, are rules of Unicode and of Rust's lexical grammar that this
//! library does not restate. The contracts of the functions marked `external_body`
//! say how each call relates to those names, and Verus takes them on trust. The code
//! that walks the token trees is verified against them.
//!
//! The module also says what equality of string slices is, which the parser needs to
//! tell keywords apart: that, too, is taken on trust, from the documentation of `str`.

use crate::token::{lemma_group_view, view_all, Delimiter, Token, TokenView};
use core::str::FromStr;
use proc_macro2::{Spacing, TokenStream, TokenTree};
use vstd::prelude::*;

verus! {

/// `proc_macro2::TokenStream`: a sequence of token trees. Verus sees nothing inside it.
#[verifier::external_type_specification]
#[verifier::external_body]
pub struct ExTokenStream(proc_macro2::TokenStream);

/// `proc_macro2::TokenTree`: one token tree. Verus sees nothing inside it.
#[verifier::external_type_specification]
#[verifier::external_body]
pub struct ExTokenTree(proc_macro2::TokenTree);

/// The token trees that `proc_macro2` finds in a source text, or `None` where it finds
/// the text to be no sequence of tokens (unbalanced brackets, a character that begins
/// no token, an unfinished literal).
pub uninterp spec fn tokens_of(source: Seq<char>) -> Option<Seq<TokenView>>;

/// Whether `syn` takes a text for a name: it does where the text is one identifier
/// and that identifier is not a reserved word of Rust nor a lone underscore.
pub uninterp spec fn is_name(text: Seq<char>) -> bool;

/// The token trees that a `proc_macro2::TokenStream` holds, in order.
pub uninterp spec fn stream_tokens(stream: TokenStream) -> Seq<TokenView>;

/// The value of a `proc_macro2::TokenTree`.
pub uninterp spec fn tree_token(tree: TokenTree) -> TokenView;

/// One token tree with its outermost layer opened: a group still holds its inside
/// as a `proc_macro2::TokenStream`.
enum Piece {
    Ident(String),
    Punct(char, bool),
    Literal(String),
    Group(Delimiter, TokenStream),
}

impl View for Piece {
    type V = TokenView;

    closed spec fn view(&self) -> TokenView {
        match self {
            Piece::Ident(text) => TokenView::Ident(text@),
            Piece::Punct(ch, joint) => TokenView::Punct(*ch, *joint),
            Piece::Literal(text) => TokenView::Literal(text@),
            Piece::Group(delimiter, inside) => TokenView::Group(*delimiter, stream_tokens(*inside)),
        }
    }
}

/// `str`'s `PartialEq::eq`: two string slices are equal exactly when they hold the
/// same characters.
pub assume_specification[ <str as PartialEq>::eq ](a: &str, b: &str) -> (equal: bool)
    ensures
        equal == (a@ == b@),
;

/// Calls `syn::parse_str::<syn::Ident>`, which succeeds where `text` is one identifier
/// and that identifier is not reserved. The contract claims that the answer depends
/// on the characters of `text` alone.
#[verifier::external_body]
pub(crate) fn accepts_name(text: &str) -> (accepted: bool)
    ensures
        accepted == is_name(text@),
{
    syn::parse_str::<syn::Ident>(text).is_ok()
}

/// Calls `proc_macro2::TokenStream::from_str`. The contract claims that whether the
/// call succeeds, and the token trees of the stream it returns, depend on the
/// characters of `source` alone. This library builds `proc_macro2` without its bridge
/// to the compiler, so the call always runs the crate's own lexer, which reports
/// every failure as an error value.
#[verifier::external_body]
fn token_stream(source: &str) -> (stream: Option<TokenStream>)
    ensures
        match stream {
            Some(found) => tokens_of(source@) == Some(stream_tokens(found)),
            None => tokens_of(source@) is None,
        },
{
    TokenStream::from_str(source).ok()
}

/// Calls `proc_macro2::TokenStream::into_iter` and collects what the iterator yields.
/// The contract claims that these are the token trees of the stream, in order.
#[verifier::external_body]
fn stream_trees(stream: TokenStream) -> (trees: Vec<TokenTree>)
    ensures
        trees@.len() == stream_tokens(stream).len(),
        forall|i: int|
            0 <= i < trees@.len() ==> tree_token(#[trigger] trees@[i]) == stream_tokens(stream)[i],
{
    stream.into_iter().collect()
}

/// Opens one `proc_macro2::TokenTree`: calls `Group::delimiter` and `Group::stream`,
/// `Ident::to_string`, `Punct::as_char` and `Punct::spacing`, or `Literal::to_string`,
/// whichever its variant has. The contract claims that the piece has the tree's value:
/// the same variant, text, character and spacing, the same delimiter, and inside a
/// group the same token trees.
#[verifier::external_body]
fn tree_piece(tree: &TokenTree) -> (piece: Piece)
    ensures
        piece@ == tree_token(*tree),
{
    match tree {
        TokenTree::Group(group) => {
            let delimiter = match group.delimiter() {
                proc_macro2::Delimiter::Parenthesis => Delimiter::Parenthesis,
                proc_macro2::Delimiter::Brace => Delimiter::Brace,
                proc_macro2::Delimiter::Bracket => Delimiter::Bracket,
                proc_macro2::Delimiter::None => Delimiter::Invisible,
            };
            Piece::Group(delimiter, group.stream())
        },
        TokenTree::Ident(ident) => Piece::Ident(ident.to_string()),
        TokenTree::Punct(punct) => Piece::Punct(punct.as_char(), punct.spacing() == Spacing::Joint),
        TokenTree::Literal(literal) => Piece::Literal(literal.to_string()),
    }
}

/// The token trees of `stream`, groups opened all the way down.
fn collect_tokens(stream: TokenStream) -> (tokens: Vec<Token>)
    ensures
        view_all(tokens@) == stream_tokens(stream),
    decreases stream_tokens(stream),
{
    let trees = stream_trees(stream);
    let mut tokens: Vec<Token> = Vec::new();
    let mut i: usize = 0;
    while i < trees.len()
        invariant
            i <= trees.len(),
            trees@.len() == stream_tokens(stream).len(),
            forall|k: int|
                0 <= k < trees@.len() ==> tree_token(#[trigger] trees@[k]) == stream_tokens(
                    stream,
                )[k],
            tokens@.len() == i,
            forall|k: int| 0 <= k < i ==> (#[trigger] tokens@[k])@ == stream_tokens(stream)[k],
        decreases trees.len() - i,
    {
        let token = match tree_piece(&trees[i]) {
            Piece::Ident(text) => Token::Ident(text),
            Piece::Punct(ch, joint) => Token::Punct(ch, joint),
            Piece::Literal(text) => Token::Literal(text),
            Piece::Group(delimiter, inside) => {
                proof {
                    let group = stream_tokens(stream)[i as int];
                    assert(decreases_to!(stream_tokens(stream) => group));
                    assert(decreases_to!(group => group->Group_1));
                    assert(group->Group_1 == stream_tokens(inside));
                }
                let inner = collect_tokens(inside);
                proof {
                    lemma_group_view(delimiter, inner);
                }
                Token::Group(delimiter, inner)
            },
        };
        tokens.push(token);
        i += 1;
    }
    assert(view_all(tokens@) =~= stream_tokens(stream));
    tokens
}

/// Breaks a source text into token trees. Returns `None` exactly where the tokenizer
/// finds the text to be no sequence of tokens.
pub fn tokenize(source: &str) -> (tokens: Option<Vec<Token>>)
    ensures
        match tokens {
            Some(found) => tokens_of(source@) == Some(view_all(found@)),
            None => tokens_of(source@) is None,
        },
{
    match token_stream(source) {
        Some(stream) => Some(collect_tokens(stream)),
        None => None,
    }
}

} // verus!
