//! The grammar, as mathematical functions on token sequences.
//!
//! Each production is a function from a token sequence and a position in it to
//! either the value that the production yields there, with the position behind it,
//! or the error with which it fails there. The executable parser is proved to compute
//! exactly these functions.
//!
//! ```text
//! program     := import* ( `;`? declaration )*
//! import      := `import` ( `as` NAME | `::` | NAME )* `;`        at least one NAME segment
//! declaration := function | constant | variable | static | struct | def | gen
//! function    := `f` NAME `(` typed-names `)` NAME ( `;` | body )
//! constant    := `const` NAME NAME `=` expression `;`
//! variable    := `var` NAME `mut`? NAME `=` expression `;`
//! static      := `static` NAME `mut`? NAME `=` expression `;`
//! struct      := `struct` NAME `{` typed-names `}`
//! def         := `def` NAME `{` function* `}` ( `for` NAME )? `;`?
//! gen         := `gen` function*                                   to the end of the tokens
//! typed-names := ( NAME NAME ( `,` NAME NAME )* `,`? )?
//! body        :=                                                   a hook that takes no token
//! expression  :=                                                   a hook that takes no token
//! ```

use crate::ast::{
    BindingView, ConstView, DeclView, DefView, FnView, GenView, ImportView, ProgramView,
    StructView, TypedNameView,
};
use crate::error::{ErrorKind, SyntaxErrorView, TokenKind};
use crate::lexer::{is_name, tokens_of};
use crate::token::{Delimiter, TokenView};
use vstd::prelude::*;

verus! {

/// What a production yields at a position: a value and the position behind it, or the
/// error with which it fails.
pub type Outcome<V> = Result<(V, int), SyntaxErrorView>;

/// The word that a keyword kind stands for.
pub open spec fn keyword_text(kind: TokenKind) -> Option<Seq<char>> {
    match kind {
        TokenKind::F => Some("f"@),
        TokenKind::Const => Some("const"@),
        TokenKind::Var => Some("var"@),
        TokenKind::Static => Some("static"@),
        TokenKind::Struct => Some("struct"@),
        TokenKind::Def => Some("def"@),
        TokenKind::Gen => Some("gen"@),
        TokenKind::Import => Some("import"@),
        TokenKind::As => Some("as"@),
        TokenKind::For => Some("for"@),
        TokenKind::Mut => Some("mut"@),
        TokenKind::Pub => Some("pub"@),
        _ => None,
    }
}

/// Whether `token` is the punctuation character `ch`, whatever follows it.
pub open spec fn is_punct(token: TokenView, ch: char) -> bool {
    token matches TokenView::Punct(c, _) && c == ch
}

/// Whether `token` is a group in the given delimiter.
pub open spec fn is_group(token: TokenView, delimiter: Delimiter) -> bool {
    token matches TokenView::Group(d, _) && d == delimiter
}

/// Whether a token of the given kind begins at `pos`.
pub open spec fn starts(tokens: Seq<TokenView>, pos: int, kind: TokenKind) -> bool {
    &&& 0 <= pos < tokens.len()
    &&& match kind {
        TokenKind::Ident => tokens[pos] matches TokenView::Ident(text) && is_name(text),
        TokenKind::Semi => is_punct(tokens[pos], ';'),
        TokenKind::Comma => is_punct(tokens[pos], ','),
        TokenKind::Equals => is_punct(tokens[pos], '='),
        TokenKind::PathSep => {
            &&& tokens[pos] == TokenView::Punct(':', true)
            &&& pos + 1 < tokens.len()
            &&& is_punct(tokens[pos + 1], ':')
        },
        TokenKind::Parens => is_group(tokens[pos], Delimiter::Parenthesis),
        TokenKind::Braces => is_group(tokens[pos], Delimiter::Brace),
        _ => keyword_text(kind) matches Some(word) && tokens[pos] == TokenView::Ident(word),
    }
}

/// How many token trees a token of the given kind takes.
pub open spec fn width(kind: TokenKind) -> int {
    if kind == TokenKind::PathSep {
        2
    } else {
        1
    }
}

/// The error for finding none of `expected` at `pos`.
pub open spec fn mismatch(tokens: Seq<TokenView>, pos: int, expected: Seq<TokenKind>) -> SyntaxErrorView {
    SyntaxErrorView {
        kind: if pos >= tokens.len() {
            ErrorKind::UnexpectedEndOfInput
        } else {
            ErrorKind::UnexpectedToken
        },
        expected,
        position: seq![pos],
    }
}

/// A token of the given kind, or failure.
pub open spec fn expect(tokens: Seq<TokenView>, pos: int, kind: TokenKind) -> Result<int, SyntaxErrorView> {
    if starts(tokens, pos, kind) {
        Ok(pos + width(kind))
    } else {
        Err(mismatch(tokens, pos, seq![kind]))
    }
}

/// A name, or failure.
pub open spec fn name(tokens: Seq<TokenView>, pos: int) -> Outcome<Seq<char>> {
    if starts(tokens, pos, TokenKind::Ident) {
        Ok((tokens[pos]->Ident_0, pos + 1))
    } else {
        Err(mismatch(tokens, pos, seq![TokenKind::Ident]))
    }
}

/// The token trees inside the group of the given kind at `pos`, or failure. Only
/// [`TokenKind::Parens`] and [`TokenKind::Braces`] are kinds of group.
pub open spec fn group(tokens: Seq<TokenView>, pos: int, kind: TokenKind) -> Result<
    Seq<TokenView>,
    SyntaxErrorView,
> {
    if (kind == TokenKind::Parens || kind == TokenKind::Braces) && starts(tokens, pos, kind) {
        Ok(tokens[pos]->Group_1)
    } else {
        Err(mismatch(tokens, pos, seq![kind]))
    }
}

/// What a list yields when `done` has been read and `rest` is what the remainder yields.
pub open spec fn prepend<V>(done: Seq<V>, rest: Result<Seq<V>, SyntaxErrorView>) -> Result<
    Seq<V>,
    SyntaxErrorView,
> {
    match rest {
        Ok(more) => Ok(done + more),
        Err(e) => Err(e),
    }
}

/// The same for a list that yields the position behind it as well.
pub open spec fn prepend_to<V>(done: Seq<V>, rest: Outcome<Seq<V>>) -> Outcome<Seq<V>> {
    match rest {
        Ok((more, end)) => Ok((done + more, end)),
        Err(e) => Err(e),
    }
}

/// With nothing read, the list yields what the remainder yields.
pub proof fn lemma_prepend_nothing<V>(done: Seq<V>, rest: Result<Seq<V>, SyntaxErrorView>)
    requires
        done.len() == 0,
    ensures
        prepend(done, rest) == rest,
{
    if let Ok(more) = rest {
        assert(done + more =~= more);
    }
}

/// An item counts the same as the last one read or as the first one to come.
pub proof fn lemma_prepend_item<V>(done: Seq<V>, item: V, rest: Result<Seq<V>, SyntaxErrorView>)
    ensures
        prepend(done, prepend(seq![item], rest)) == prepend(done.push(item), rest),
{
    if let Ok(more) = rest {
        assert(done + (seq![item] + more) =~= done.push(item) + more);
    }
}

/// With nothing to come, the list yields what was read.
pub proof fn lemma_prepend_all<V>(done: Seq<V>)
    ensures
        prepend(done, Ok(Seq::empty())) == Ok::<_, SyntaxErrorView>(done),
{
    assert(done + Seq::<V>::empty() =~= done);
}

/// With nothing read, the list yields what the remainder yields.
pub proof fn lemma_prepend_to_nothing<V>(done: Seq<V>, rest: Outcome<Seq<V>>)
    requires
        done.len() == 0,
    ensures
        prepend_to(done, rest) == rest,
{
    if let Ok((more, _)) = rest {
        assert(done + more =~= more);
    }
}

/// An item counts the same as the last one read or as the first one to come.
pub proof fn lemma_prepend_to_item<V>(done: Seq<V>, item: V, rest: Outcome<Seq<V>>)
    ensures
        prepend_to(done, prepend_to(seq![item], rest)) == prepend_to(done.push(item), rest),
{
    if let Ok((more, _)) = rest {
        assert(done + (seq![item] + more) =~= done.push(item) + more);
    }
}

/// With nothing to come, the list yields what was read.
pub proof fn lemma_prepend_to_all<V>(done: Seq<V>, end: int)
    ensures
        prepend_to(done, Ok((Seq::empty(), end))) == Ok::<_, SyntaxErrorView>((done, end)),
{
    assert(done + Seq::<V>::empty() =~= done);
}

/// The error for an item of a comma-separated list that is followed, at `pos`, by
/// neither a comma nor the end of the list.
pub open spec fn missing_comma(pos: int) -> SyntaxErrorView {
    SyntaxErrorView {
        kind: ErrorKind::MalformedList,
        expected: seq![TokenKind::Comma],
        position: seq![pos],
    }
}

/// `NAME NAME`: a type and a name.
pub open spec fn typed_name(tokens: Seq<TokenView>, pos: int) -> Outcome<TypedNameView> {
    match name(tokens, pos) {
        Err(e) => Err(e),
        Ok((ty, after_ty)) => match name(tokens, after_ty) {
            Err(e) => Err(e),
            Ok((name, next)) => Ok((TypedNameView { ty, name }, next)),
        },
    }
}

/// `typed-names`: typed names separated by commas, from `pos` to the end of `tokens`.
/// A comma after the last one is allowed.
pub open spec fn typed_names(tokens: Seq<TokenView>, pos: int) -> Result<
    Seq<TypedNameView>,
    SyntaxErrorView,
>
    decreases tokens.len() - pos,
{
    if pos >= tokens.len() {
        Ok(seq![])
    } else {
        match typed_name(tokens, pos) {
            Err(e) => Err(e),
            Ok((first, next)) => if next >= tokens.len() {
                Ok(seq![first])
            } else if !starts(tokens, next, TokenKind::Comma) {
                Err(missing_comma(next))
            } else {
                prepend(seq![first], typed_names(tokens, next + 1))
            },
        }
    }
}

/// `body`: the hook for the grammar of function bodies. It takes no token.
pub open spec fn body(tokens: Seq<TokenView>, pos: int) -> int {
    pos
}

/// `expression`: the hook for the grammar of initializers. It takes no token.
pub open spec fn expression(tokens: Seq<TokenView>, pos: int) -> int {
    pos
}

/// `function`.
pub open spec fn function(tokens: Seq<TokenView>, pos: int) -> Outcome<FnView> {
    match expect(tokens, pos, TokenKind::F) {
        Err(e) => Err(e),
        Ok(after_f) => match name(tokens, after_f) {
            Err(e) => Err(e),
            Ok((name, at_args)) => match group(tokens, at_args, TokenKind::Parens) {
                Err(e) => Err(e),
                Ok(inner) => match typed_names(inner, 0) {
                    Err(e) => Err(e.nested(at_args)),
                    Ok(args) => match self::name(tokens, at_args + 1) {
                        Err(e) => Err(e),
                        Ok((ret, after_ret)) => Ok(
                            (
                                FnView { name, args, ret },
                                if starts(tokens, after_ret, TokenKind::Semi) {
                                    after_ret + 1
                                } else {
                                    body(tokens, after_ret)
                                },
                            ),
                        ),
                    },
                },
            },
        },
    }
}

/// `function*`: functions from `pos` to the end of `tokens`.
pub open spec fn functions(tokens: Seq<TokenView>, pos: int) -> Result<Seq<FnView>, SyntaxErrorView>
    decreases tokens.len() - pos,
{
    if pos >= tokens.len() {
        Ok(seq![])
    } else {
        match function(tokens, pos) {
            Err(e) => Err(e),
            Ok((first, next)) => prepend(seq![first], functions(tokens, next)),
        }
    }
}

/// `constant`.
pub open spec fn constant(tokens: Seq<TokenView>, pos: int) -> Outcome<ConstView> {
    match expect(tokens, pos, TokenKind::Const) {
        Err(e) => Err(e),
        Ok(after_keyword) => match name(tokens, after_keyword) {
            Err(e) => Err(e),
            Ok((ty, after_ty)) => match name(tokens, after_ty) {
                Err(e) => Err(e),
                Ok((name, after_name)) => match expect(tokens, after_name, TokenKind::Equals) {
                    Err(e) => Err(e),
                    Ok(at_value) => match expect(
                        tokens,
                        expression(tokens, at_value),
                        TokenKind::Semi,
                    ) {
                        Err(e) => Err(e),
                        Ok(next) => Ok((ConstView { name, ty }, next)),
                    },
                },
            },
        },
    }
}

/// `variable` and `static`, which differ in their keyword alone.
pub open spec fn binding(tokens: Seq<TokenView>, pos: int, keyword: TokenKind) -> Outcome<
    BindingView,
> {
    match expect(tokens, pos, keyword) {
        Err(e) => Err(e),
        Ok(after_keyword) => match name(tokens, after_keyword) {
            Err(e) => Err(e),
            Ok((ty, after_ty)) => {
                let is_mut = starts(tokens, after_ty, TokenKind::Mut);
                let at_name = if is_mut {
                    after_ty + 1
                } else {
                    after_ty
                };
                match name(tokens, at_name) {
                    Err(e) => Err(e),
                    Ok((name, after_name)) => match expect(tokens, after_name, TokenKind::Equals) {
                        Err(e) => Err(e),
                        Ok(at_value) => match expect(
                            tokens,
                            expression(tokens, at_value),
                            TokenKind::Semi,
                        ) {
                            Err(e) => Err(e),
                            Ok(next) => Ok((BindingView { name, ty, is_mut }, next)),
                        },
                    },
                }
            },
        },
    }
}

/// `struct`.
pub open spec fn structure(tokens: Seq<TokenView>, pos: int) -> Outcome<StructView> {
    match expect(tokens, pos, TokenKind::Struct) {
        Err(e) => Err(e),
        Ok(after_keyword) => match name(tokens, after_keyword) {
            Err(e) => Err(e),
            Ok((name, at_fields)) => match group(tokens, at_fields, TokenKind::Braces) {
                Err(e) => Err(e),
                Ok(inner) => match typed_names(inner, 0) {
                    Err(e) => Err(e.nested(at_fields)),
                    Ok(fields) => Ok((StructView { name, fields }, at_fields + 1)),
                },
            },
        },
    }
}

/// `( for NAME )?`: the target of a def block and the position behind the clause.
pub open spec fn for_clause(tokens: Seq<TokenView>, pos: int) -> Outcome<Option<Seq<char>>> {
    if starts(tokens, pos, TokenKind::For) {
        match name(tokens, pos + 1) {
            Err(e) => Err(e),
            Ok((target, next)) => Ok((Some(target), next)),
        }
    } else {
        Ok((None, pos))
    }
}

/// `def`.
pub open spec fn def_block(tokens: Seq<TokenView>, pos: int) -> Outcome<DefView> {
    match expect(tokens, pos, TokenKind::Def) {
        Err(e) => Err(e),
        Ok(after_keyword) => match name(tokens, after_keyword) {
            Err(e) => Err(e),
            Ok((struct_name, at_body)) => match group(tokens, at_body, TokenKind::Braces) {
                Err(e) => Err(e),
                Ok(inner) => match functions(inner, 0) {
                    Err(e) => Err(e.nested(at_body)),
                    Ok(defs) => match for_clause(tokens, at_body + 1) {
                        Err(e) => Err(e),
                        Ok((def_for, after_clause)) => Ok(
                            (
                                DefView { struct_name, defs, def_for },
                                if starts(tokens, after_clause, TokenKind::Semi) {
                                    after_clause + 1
                                } else {
                                    after_clause
                                },
                            ),
                        ),
                    },
                },
            },
        },
    }
}

/// `gen`. It yields every function up to the end of `tokens`, so nothing can follow it.
pub open spec fn gen_block(tokens: Seq<TokenView>, pos: int) -> Outcome<GenView> {
    match expect(tokens, pos, TokenKind::Gen) {
        Err(e) => Err(e),
        Ok(after_keyword) => match functions(tokens, after_keyword) {
            Err(e) => Err(e),
            Ok(methods) => Ok((GenView { methods }, tokens.len() as int)),
        },
    }
}

/// The kinds tried where an import continues, in the order tried.
pub open spec fn import_alternatives() -> Seq<TokenKind> {
    seq![TokenKind::As, TokenKind::Semi, TokenKind::PathSep, TokenKind::Ident]
}

/// What follows `import`, given the path segments and the alias read so far. The
/// alternatives are tried in a fixed order: an alias clause, the terminator, a path
/// separator, and only then a path segment.
pub open spec fn import_rest(
    tokens: Seq<TokenView>,
    pos: int,
    path: Seq<Seq<char>>,
    alias: Option<Seq<char>>,
) -> Outcome<ImportView>
    decreases tokens.len() - pos,
{
    if starts(tokens, pos, TokenKind::As) {
        match name(tokens, pos + 1) {
            Err(e) => Err(e),
            Ok((alias, next)) => import_rest(tokens, next, path, Some(alias)),
        }
    } else if starts(tokens, pos, TokenKind::Semi) {
        if path.len() == 0 {
            Err(mismatch(tokens, pos, seq![TokenKind::Ident]))
        } else {
            Ok((ImportView { path, alias }, pos + 1))
        }
    } else if starts(tokens, pos, TokenKind::PathSep) {
        import_rest(tokens, pos + 2, path, alias)
    } else if starts(tokens, pos, TokenKind::Ident) {
        import_rest(tokens, pos + 1, path.push(tokens[pos]->Ident_0), alias)
    } else {
        Err(mismatch(tokens, pos, import_alternatives()))
    }
}

/// `import`.
pub open spec fn import(tokens: Seq<TokenView>, pos: int) -> Outcome<ImportView> {
    match expect(tokens, pos, TokenKind::Import) {
        Err(e) => Err(e),
        Ok(next) => import_rest(tokens, next, seq![], None),
    }
}

/// The kinds that begin a declaration, in the order tried.
pub open spec fn declaration_starts() -> Seq<TokenKind> {
    seq![
        TokenKind::F,
        TokenKind::Const,
        TokenKind::Var,
        TokenKind::Static,
        TokenKind::Struct,
        TokenKind::Def,
        TokenKind::Gen,
    ]
}

/// The error for finding no declaration at `pos`: it names every kind that begins one.
pub open spec fn no_declaration(tokens: Seq<TokenView>, pos: int) -> SyntaxErrorView {
    SyntaxErrorView {
        kind: if starts(tokens, pos, TokenKind::For) {
            ErrorKind::DuplicateOrMisplacedClause
        } else {
            mismatch(tokens, pos, declaration_starts()).kind
        },
        expected: declaration_starts(),
        position: seq![pos],
    }
}

/// `declaration`: the token at `pos` decides which production applies.
pub open spec fn declaration(tokens: Seq<TokenView>, pos: int) -> Outcome<DeclView> {
    if starts(tokens, pos, TokenKind::F) {
        match function(tokens, pos) {
            Err(e) => Err(e),
            Ok((v, next)) => Ok((DeclView::Fn(v), next)),
        }
    } else if starts(tokens, pos, TokenKind::Const) {
        match constant(tokens, pos) {
            Err(e) => Err(e),
            Ok((v, next)) => Ok((DeclView::Const(v), next)),
        }
    } else if starts(tokens, pos, TokenKind::Var) {
        match binding(tokens, pos, TokenKind::Var) {
            Err(e) => Err(e),
            Ok((v, next)) => Ok((DeclView::Var(v), next)),
        }
    } else if starts(tokens, pos, TokenKind::Static) {
        match binding(tokens, pos, TokenKind::Static) {
            Err(e) => Err(e),
            Ok((v, next)) => Ok((DeclView::Static(v), next)),
        }
    } else if starts(tokens, pos, TokenKind::Struct) {
        match structure(tokens, pos) {
            Err(e) => Err(e),
            Ok((v, next)) => Ok((DeclView::Struct(v), next)),
        }
    } else if starts(tokens, pos, TokenKind::Def) {
        match def_block(tokens, pos) {
            Err(e) => Err(e),
            Ok((v, next)) => Ok((DeclView::Def(v), next)),
        }
    } else if starts(tokens, pos, TokenKind::Gen) {
        match gen_block(tokens, pos) {
            Err(e) => Err(e),
            Ok((v, next)) => Ok((DeclView::Gen(v), next)),
        }
    } else {
        Err(no_declaration(tokens, pos))
    }
}

/// `import*`: the imports that begin at `pos`, and the position behind the last.
pub open spec fn imports(tokens: Seq<TokenView>, pos: int) -> Outcome<Seq<ImportView>>
    decreases tokens.len() - pos,
{
    if !starts(tokens, pos, TokenKind::Import) {
        Ok((seq![], pos))
    } else {
        match import(tokens, pos) {
            Err(e) => Err(e),
            Ok((first, next)) => {
                proof {
                    lemma_import_advances(tokens, pos);
                }
                prepend_to(seq![first], imports(tokens, next))
            },
        }
    }
}

/// `( ;? declaration )*`: the declarations from `pos` to the end of `tokens`, each
/// after at most one stray terminator.
pub open spec fn declarations(tokens: Seq<TokenView>, pos: int) -> Result<
    Seq<DeclView>,
    SyntaxErrorView,
>
    decreases tokens.len() - pos,
{
    if pos >= tokens.len() {
        Ok(seq![])
    } else {
        let start = if starts(tokens, pos, TokenKind::Semi) {
            pos + 1
        } else {
            pos
        };
        match declaration(tokens, start) {
            Err(e) => Err(e),
            Ok((first, next)) => {
                proof {
                    lemma_declaration_advances(tokens, start);
                }
                prepend(seq![first], declarations(tokens, next))
            },
        }
    }
}

/// `program`: the imports, then the declarations, from `pos` to the end of `tokens`.
pub open spec fn program(tokens: Seq<TokenView>, pos: int) -> Outcome<ProgramView> {
    match imports(tokens, pos) {
        Err(e) => Err(e),
        Ok((imports, next)) => match declarations(tokens, next) {
            Err(e) => Err(e),
            Ok(decls) => Ok(
                (
                    ProgramView { decls, imports, public: seq![] },
                    if pos >= tokens.len() {
                        pos
                    } else {
                        tokens.len() as int
                    },
                ),
            ),
        },
    }
}

/// The program that a whole token sequence is, or the error with which it is none.
pub open spec fn parse(tokens: Seq<TokenView>) -> Result<ProgramView, SyntaxErrorView> {
    match program(tokens, 0) {
        Err(e) => Err(e),
        Ok((program, _)) => Ok(program),
    }
}

/// The error for a source text in which the tokenizer finds no token sequence. It
/// expects nothing and has no position.
pub open spec fn no_tokens() -> SyntaxErrorView {
    SyntaxErrorView { kind: ErrorKind::Tokenize, expected: seq![], position: seq![] }
}

/// The program that a source text is, or the error with which it is none.
pub open spec fn parse_source(source: Seq<char>) -> Result<ProgramView, SyntaxErrorView> {
    match tokens_of(source) {
        None => Err(no_tokens()),
        Some(tokens) => parse(tokens),
    }
}

/// What follows `import` ends, where it succeeds, behind `pos` and within `tokens`.
pub proof fn lemma_import_rest_advances(
    tokens: Seq<TokenView>,
    pos: int,
    path: Seq<Seq<char>>,
    alias: Option<Seq<char>>,
)
    ensures
        import_rest(tokens, pos, path, alias) matches Ok((_, next)) ==> pos < next <= tokens.len(),
    decreases tokens.len() - pos,
{
    if starts(tokens, pos, TokenKind::As) {
        if let Ok((alias, next)) = name(tokens, pos + 1) {
            lemma_import_rest_advances(tokens, next, path, Some(alias));
        }
    } else if starts(tokens, pos, TokenKind::Semi) {
    } else if starts(tokens, pos, TokenKind::PathSep) {
        lemma_import_rest_advances(tokens, pos + 2, path, alias);
    } else if starts(tokens, pos, TokenKind::Ident) {
        lemma_import_rest_advances(tokens, pos + 1, path.push(tokens[pos]->Ident_0), alias);
    }
}

/// An import ends, where it succeeds, behind `pos` and within `tokens`.
pub proof fn lemma_import_advances(tokens: Seq<TokenView>, pos: int)
    ensures
        import(tokens, pos) matches Ok((_, next)) ==> pos < next <= tokens.len(),
{
    lemma_import_rest_advances(tokens, pos + 1, seq![], None);
}

/// A function ends, where it succeeds, behind `pos` and within `tokens`.
pub proof fn lemma_function_advances(tokens: Seq<TokenView>, pos: int)
    ensures
        function(tokens, pos) matches Ok((_, next)) ==> pos < next <= tokens.len(),
{
}

/// A declaration ends, where it succeeds, behind `pos` and within `tokens`.
pub proof fn lemma_declaration_advances(tokens: Seq<TokenView>, pos: int)
    ensures
        declaration(tokens, pos) matches Ok((_, next)) ==> pos < next <= tokens.len(),
{
}

} // verus!
