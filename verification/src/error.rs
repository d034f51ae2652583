//! The structured error of a failed parse.

use vstd::prelude::*;

verus! {

/// The kinds of token the grammar asks for.
#[derive(Clone, Copy, Debug, PartialEq, Eq, Structural)]
pub enum TokenKind {
    /// The word `f`, which opens a function.
    F,
    /// The word `const`.
    Const,
    /// The word `var`.
    Var,
    /// The word `static`.
    Static,
    /// The word `struct`.
    Struct,
    /// The word `def`.
    Def,
    /// The word `gen`.
    Gen,
    /// The word `import`.
    Import,
    /// The word `as`, which introduces an import alias.
    As,
    /// The word `for`, which introduces the target of a def block.
    For,
    /// The word `mut`.
    Mut,
    /// The word `pub`.
    Pub,
    /// A name: a word that is not reserved.
    Ident,
    /// The terminator `;`.
    Semi,
    /// The separator `,`.
    Comma,
    /// The sign `=`.
    Equals,
    /// The path separator `::`.
    PathSep,
    /// A group in parentheses.
    Parens,
    /// A group in braces.
    Braces,
}

/// Why a parse failed.
#[derive(Clone, Copy, Debug, PartialEq, Eq, Structural)]
pub enum ErrorKind {
    /// A token is present where none of the expected kinds begins.
    UnexpectedToken,
    /// The tokens end where one of the expected kinds must follow.
    UnexpectedEndOfInput,
    /// An item of a comma-separated list is followed by something other than a
    /// comma or the end of the list.
    MalformedList,
    /// A `for` clause stands where a declaration must begin: it is a second
    /// clause, or it follows something that takes none.
    DuplicateOrMisplacedClause,
    /// The tokenizer found no token sequence in the source text.
    Tokenize,
}

/// The error of a failed parse: the first failure met, and nothing else.
#[derive(Debug, PartialEq, Eq)]
pub struct SyntaxError {
    /// Why the parse failed.
    pub kind: ErrorKind,
    /// Every kind of token that was tried at the point of failure, in the order tried.
    pub expected: Vec<TokenKind>,
    /// Where the parse failed: the index of the offending token in the token
    /// sequence, followed, if that token is a group and the failure lies inside it,
    /// by the index inside the group, and so on. An index equal to the length of
    /// its sequence stands for the end of that sequence.
    pub position: Vec<usize>,
}

/// The mathematical value of a [`SyntaxError`].
pub ghost struct SyntaxErrorView {
    pub kind: ErrorKind,
    pub expected: Seq<TokenKind>,
    pub position: Seq<int>,
}

impl View for SyntaxError {
    type V = SyntaxErrorView;

    open spec fn view(&self) -> SyntaxErrorView {
        SyntaxErrorView {
            kind: self.kind,
            expected: self.expected@,
            position: self.position@.map_values(|index: usize| index as int),
        }
    }
}

impl SyntaxErrorView {
    /// The same failure, seen from outside the group at `index` in which it lies.
    pub open spec fn nested(self, index: int) -> SyntaxErrorView {
        SyntaxErrorView { position: seq![index] + self.position, ..self }
    }
}

impl TokenKind {
    /// The list that holds this kind alone.
    pub fn alone(self) -> (kinds: Vec<TokenKind>)
        ensures
            kinds@ == seq![self],
    {
        let mut kinds: Vec<TokenKind> = Vec::new();
        kinds.push(self);
        assert(kinds@ =~= seq![self]);
        kinds
    }
}

impl SyntaxError {
    /// The error for a failure at `index` of the sequence being read.
    pub fn at(kind: ErrorKind, expected: Vec<TokenKind>, index: usize) -> (error: SyntaxError)
        ensures
            error@ == (SyntaxErrorView { kind, expected: expected@, position: seq![index as int] }),
    {
        let mut position: Vec<usize> = Vec::new();
        position.push(index);
        let error = SyntaxError { kind, expected, position };
        assert(error@.position =~= seq![index as int]);
        error
    }

    /// The same failure, seen from outside the group at `index` in which it lies.
    pub fn nested(self, index: usize) -> (error: SyntaxError)
        ensures
            error@ == self@.nested(index as int),
    {
        let SyntaxError { kind, expected, mut position } = self;
        position.insert(0, index);
        let error = SyntaxError { kind, expected, position };
        assert(error@.position =~= seq![index as int] + self@.position);
        error
    }
}

/// The result of a parse.
pub type RtlResult<T> = Result<T, SyntaxError>;

} // verus!
