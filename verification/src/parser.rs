//! The parser: one function per production, each proved to compute the function of
//! the same name in [`crate::grammar`].
//!
//! Every function reads from a cursor. Where it succeeds it leaves the cursor behind
//! what it read; where it fails it leaves the cursor where it was, and returns the
//! first error met.

use crate::ast::{
    lemma_views_push, name_view, views, Rattle, RtlBody, RtlConstExpr, RtlDecl, RtlDeclValue, RtlDef,
    RtlExpr, RtlFn, RtlFnArg, RtlGen, RtlImport, RtlPub, RtlStatic, RtlStruct, RtlStructField,
    RtlVarExpr,
};
use crate::cursor::{CursorView, TokenCursor};
use crate::error::{ErrorKind, RtlResult, SyntaxError, SyntaxErrorView, TokenKind};
use crate::grammar;
use crate::grammar::Outcome;
use crate::lexer::tokenize;
use crate::token::{view_all, Token};
use vstd::prelude::*;

verus! {

/// Whether a call did what a production yields: on success the node has the yielded
/// value and the cursor stands at the yielded position; on failure the error is the
/// production's and the cursor has not moved.
pub open spec fn yields<T: View>(
    result: Result<T, SyntaxError>,
    before: CursorView,
    after: CursorView,
    model: Outcome<T::V>,
) -> bool {
    match model {
        Ok((value, next)) => result matches Ok(node) && node@ == value && after == before.at(next),
        Err(e) => result matches Err(error) && error@ == e && after == before,
    }
}

impl RtlBody {
    /// The hook for the grammar of function bodies. It reads nothing and never fails.
    pub fn parse(input: &mut TokenCursor<'_>) -> (result: RtlResult<RtlBody>)
        ensures
            result is Ok,
            final(input)@ == old(input)@.at(grammar::body(old(input)@.tokens, old(input)@.pos)),
    {
        Ok(RtlBody)
    }
}

impl RtlExpr {
    /// The hook for the grammar of initializers. It reads nothing and never fails.
    pub fn parse(input: &mut TokenCursor<'_>) -> (result: RtlResult<RtlExpr>)
        ensures
            result is Ok,
            final(input)@ == old(input)@.at(
                grammar::expression(old(input)@.tokens, old(input)@.pos),
            ),
    {
        Ok(RtlExpr)
    }
}

impl RtlFnArg {
    /// Reads `NAME NAME`: the type of an argument, then its name.
    pub fn parse(input: &mut TokenCursor<'_>) -> (result: RtlResult<RtlFnArg>)
        ensures
            yields(
                result,
                old(input)@,
                final(input)@,
                grammar::typed_name(old(input)@.tokens, old(input)@.pos),
            ),
    {
        let mut cursor = input.fork();
        let ty = cursor.name()?;
        let name = cursor.name()?;
        *input = cursor;
        Ok(RtlFnArg { ty, name })
    }
}

impl RtlStructField {
    /// Reads `NAME NAME`: the type of a field, then its name.
    pub fn parse(input: &mut TokenCursor<'_>) -> (result: RtlResult<RtlStructField>)
        ensures
            yields(
                result,
                old(input)@,
                final(input)@,
                grammar::typed_name(old(input)@.tokens, old(input)@.pos),
            ),
    {
        let mut cursor = input.fork();
        let ty = cursor.name()?;
        let name = cursor.name()?;
        *input = cursor;
        Ok(RtlStructField { ty, name })
    }
}

impl RtlFn {
    /// Reads a function: `f NAME ( ARGS ) RET`, then a terminator if one follows and
    /// otherwise a body.
    #[verifier::loop_isolation(false)]
    pub fn parse(input: &mut TokenCursor<'_>) -> (result: RtlResult<RtlFn>)
        ensures
            yields(
                result,
                old(input)@,
                final(input)@,
                grammar::function(old(input)@.tokens, old(input)@.pos),
            ),
    {
        let mut cursor = input.fork();
        cursor.expect(TokenKind::F)?;
        let name = cursor.name()?;
        let at_args = cursor.position();
        let mut content = cursor.enter(TokenKind::Parens)?;
        let ghost inner = content@.tokens;
        let mut args: Vec<RtlFnArg> = Vec::new();
        proof {
            grammar::lemma_prepend_nothing(views(args@), grammar::typed_names(inner, 0));
        }
        while !content.is_empty()
            invariant
                content@.tokens == inner,
                0 <= content@.pos <= inner.len(),
                grammar::typed_names(inner, 0) == grammar::prepend(
                    views(args@),
                    grammar::typed_names(inner, content@.pos),
                ),
            decreases inner.len() - content@.pos,
        {
            let ghost before = views(args@);
            let arg = match RtlFnArg::parse(&mut content) {
                Ok(arg) => arg,
                Err(e) => return Err(e.nested(at_args)),
            };
            proof {
                lemma_views_push(args@, arg);
            }
            args.push(arg);
            if !content.is_empty() {
                if !content.skip_optional(TokenKind::Comma) {
                    return Err(
                        SyntaxError::at(
                            ErrorKind::MalformedList,
                            TokenKind::Comma.alone(),
                            content.position(),
                        ).nested(at_args),
                    );
                }
            }
            proof {
                grammar::lemma_prepend_item(
                    before,
                    args@.last()@,
                    grammar::typed_names(inner, content@.pos),
                );
            }
        }
        proof {
            grammar::lemma_prepend_all(views(args@));
        }
        let ret = cursor.name()?;
        let body = if cursor.skip_optional(TokenKind::Semi) {
            RtlBody
        } else {
            RtlBody::parse(&mut cursor)?
        };
        *input = cursor;
        Ok(RtlFn { name, args, ret, body })
    }
}

/// Reads functions up to the end of the cursor's sequence.
#[verifier::loop_isolation(false)]
fn parse_functions(input: &mut TokenCursor<'_>) -> (result: RtlResult<Vec<RtlFn>>)
    ensures
        match grammar::functions(old(input)@.tokens, old(input)@.pos) {
            Ok(functions) => {
                &&& result matches Ok(found) && views(found@) == functions
                &&& final(input)@ == old(input)@.at(old(input)@.tokens.len() as int)
            },
            Err(e) => result matches Err(error) && error@ == e && final(input)@ == old(input)@,
        },
{
    let mut cursor = input.fork();
    let ghost tokens = cursor@.tokens;
    let ghost start = cursor@.pos;
    let mut functions: Vec<RtlFn> = Vec::new();
    proof {
        grammar::lemma_prepend_nothing(views(functions@), grammar::functions(tokens, start));
    }
    while !cursor.is_empty()
        invariant
            cursor@.tokens == tokens,
            start <= cursor@.pos <= tokens.len(),
            grammar::functions(tokens, start) == grammar::prepend(
                views(functions@),
                grammar::functions(tokens, cursor@.pos),
            ),
        decreases tokens.len() - cursor@.pos,
    {
        let ghost before = views(functions@);
        proof {
            grammar::lemma_function_advances(tokens, cursor@.pos);
        }
        let function = RtlFn::parse(&mut cursor)?;
        proof {
            lemma_views_push(functions@, function);
            grammar::lemma_prepend_item(
                before,
                function@,
                grammar::functions(tokens, cursor@.pos),
            );
        }
        functions.push(function);
    }
    proof {
        grammar::lemma_prepend_all(views(functions@));
    }
    *input = cursor;
    Ok(functions)
}

/// A variable or a static before it is known which.
struct Binding {
    name: String,
    ty: String,
    is_mut: bool,
    data: RtlExpr,
}

impl View for Binding {
    type V = crate::ast::BindingView;

    closed spec fn view(&self) -> crate::ast::BindingView {
        crate::ast::BindingView { name: self.name@, ty: self.ty@, is_mut: self.is_mut }
    }
}

/// Reads `KEYWORD NAME [mut] NAME = EXPR ;`.
fn parse_binding(input: &mut TokenCursor<'_>, keyword: TokenKind) -> (result: RtlResult<Binding>)
    ensures
        yields(
            result,
            old(input)@,
            final(input)@,
            grammar::binding(old(input)@.tokens, old(input)@.pos, keyword),
        ),
{
    let mut cursor = input.fork();
    cursor.expect(keyword)?;
    let ty = cursor.name()?;
    let is_mut = cursor.skip_optional(TokenKind::Mut);
    let name = cursor.name()?;
    cursor.expect(TokenKind::Equals)?;
    let data = RtlExpr::parse(&mut cursor)?;
    cursor.expect(TokenKind::Semi)?;
    *input = cursor;
    Ok(Binding { name, ty, is_mut, data })
}

impl RtlConstExpr {
    /// Reads a constant: `const TYPE NAME = EXPR ;`. No `mut` may stand in it.
    pub fn parse(input: &mut TokenCursor<'_>) -> (result: RtlResult<RtlConstExpr>)
        ensures
            yields(
                result,
                old(input)@,
                final(input)@,
                grammar::constant(old(input)@.tokens, old(input)@.pos),
            ),
    {
        let mut cursor = input.fork();
        cursor.expect(TokenKind::Const)?;
        let ty = cursor.name()?;
        let name = cursor.name()?;
        cursor.expect(TokenKind::Equals)?;
        let data = RtlExpr::parse(&mut cursor)?;
        cursor.expect(TokenKind::Semi)?;
        *input = cursor;
        Ok(RtlConstExpr { name, ty, data })
    }
}

impl RtlVarExpr {
    /// Reads a variable: `var TYPE [mut] NAME = EXPR ;`.
    pub fn parse(input: &mut TokenCursor<'_>) -> (result: RtlResult<RtlVarExpr>)
        ensures
            yields(
                result,
                old(input)@,
                final(input)@,
                grammar::binding(old(input)@.tokens, old(input)@.pos, TokenKind::Var),
            ),
    {
        let Binding { name, ty, is_mut, data } = parse_binding(input, TokenKind::Var)?;
        Ok(RtlVarExpr { name, ty, is_mut, data })
    }
}

impl RtlStatic {
    /// Reads a static: `static TYPE [mut] NAME = EXPR ;`.
    pub fn parse(input: &mut TokenCursor<'_>) -> (result: RtlResult<RtlStatic>)
        ensures
            yields(
                result,
                old(input)@,
                final(input)@,
                grammar::binding(old(input)@.tokens, old(input)@.pos, TokenKind::Static),
            ),
    {
        let Binding { name, ty, is_mut, data } = parse_binding(input, TokenKind::Static)?;
        Ok(RtlStatic { name, ty, is_mut, data })
    }
}

impl RtlStruct {
    /// Reads a struct: `struct NAME { FIELDS }`, the fields separated by commas, with
    /// or without a comma after the last.
    #[verifier::loop_isolation(false)]
    pub fn parse(input: &mut TokenCursor<'_>) -> (result: RtlResult<RtlStruct>)
        ensures
            yields(
                result,
                old(input)@,
                final(input)@,
                grammar::structure(old(input)@.tokens, old(input)@.pos),
            ),
    {
        let mut cursor = input.fork();
        cursor.expect(TokenKind::Struct)?;
        let name = cursor.name()?;
        let at_fields = cursor.position();
        let mut content = cursor.enter(TokenKind::Braces)?;
        let ghost inner = content@.tokens;
        let mut fields: Vec<RtlStructField> = Vec::new();
        proof {
            grammar::lemma_prepend_nothing(views(fields@), grammar::typed_names(inner, 0));
        }
        while !content.is_empty()
            invariant
                content@.tokens == inner,
                0 <= content@.pos <= inner.len(),
                grammar::typed_names(inner, 0) == grammar::prepend(
                    views(fields@),
                    grammar::typed_names(inner, content@.pos),
                ),
            decreases inner.len() - content@.pos,
        {
            let ghost before = views(fields@);
            let field = match RtlStructField::parse(&mut content) {
                Ok(field) => field,
                Err(e) => return Err(e.nested(at_fields)),
            };
            proof {
                lemma_views_push(fields@, field);
            }
            fields.push(field);
            if !content.is_empty() {
                if !content.skip_optional(TokenKind::Comma) {
                    return Err(
                        SyntaxError::at(
                            ErrorKind::MalformedList,
                            TokenKind::Comma.alone(),
                            content.position(),
                        ).nested(at_fields),
                    );
                }
            }
            proof {
                grammar::lemma_prepend_item(
                    before,
                    fields@.last()@,
                    grammar::typed_names(inner, content@.pos),
                );
            }
        }
        proof {
            grammar::lemma_prepend_all(views(fields@));
        }
        *input = cursor;
        Ok(RtlStruct { name, fields })
    }
}

impl RtlDef {
    /// Reads a def block: `def NAME { FUNCTIONS }`, then `for TARGET` if it follows,
    /// then a terminator if it follows.
    pub fn parse(input: &mut TokenCursor<'_>) -> (result: RtlResult<RtlDef>)
        ensures
            yields(
                result,
                old(input)@,
                final(input)@,
                grammar::def_block(old(input)@.tokens, old(input)@.pos),
            ),
    {
        let mut cursor = input.fork();
        cursor.expect(TokenKind::Def)?;
        let struct_name = cursor.name()?;
        let at_body = cursor.position();
        let mut content = cursor.enter(TokenKind::Braces)?;
        let defs = match parse_functions(&mut content) {
            Ok(defs) => defs,
            Err(e) => return Err(e.nested(at_body)),
        };
        let def_for = if cursor.skip_optional(TokenKind::For) {
            Some(cursor.name()?)
        } else {
            None
        };
        let _ = cursor.skip_optional(TokenKind::Semi);
        *input = cursor;
        Ok(RtlDef { struct_name, defs, def_for })
    }
}

impl RtlGen {
    /// Reads a generic block: `gen`, then functions up to the end of the tokens.
    pub fn parse(input: &mut TokenCursor<'_>) -> (result: RtlResult<RtlGen>)
        ensures
            yields(
                result,
                old(input)@,
                final(input)@,
                grammar::gen_block(old(input)@.tokens, old(input)@.pos),
            ),
    {
        let mut cursor = input.fork();
        cursor.expect(TokenKind::Gen)?;
        let methods = parse_functions(&mut cursor)?;
        *input = cursor;
        Ok(RtlGen { methods })
    }
}

/// The kinds tried where an import continues, in the order tried.
fn import_alternatives() -> (kinds: Vec<TokenKind>)
    ensures
        kinds@ == grammar::import_alternatives(),
{
    let mut kinds: Vec<TokenKind> = Vec::new();
    kinds.push(TokenKind::As);
    kinds.push(TokenKind::Semi);
    kinds.push(TokenKind::PathSep);
    kinds.push(TokenKind::Ident);
    assert(kinds@ =~= grammar::import_alternatives());
    kinds
}

/// The kinds that begin a declaration, in the order tried.
fn declaration_starts() -> (kinds: Vec<TokenKind>)
    ensures
        kinds@ == grammar::declaration_starts(),
{
    let mut kinds: Vec<TokenKind> = Vec::new();
    kinds.push(TokenKind::F);
    kinds.push(TokenKind::Const);
    kinds.push(TokenKind::Var);
    kinds.push(TokenKind::Static);
    kinds.push(TokenKind::Struct);
    kinds.push(TokenKind::Def);
    kinds.push(TokenKind::Gen);
    assert(kinds@ =~= grammar::declaration_starts());
    kinds
}

impl RtlImport {
    /// Reads an import: `import`, then path segments, path separators and alias
    /// clauses up to the terminator. At each step the alternatives are tried in a
    /// fixed order: `as NAME`, the terminator, `::`, and only then a path segment.
    /// The path must have a segment when the terminator comes.
    #[verifier::loop_isolation(false)]
    pub fn parse(input: &mut TokenCursor<'_>) -> (result: RtlResult<RtlImport>)
        ensures
            yields(
                result,
                old(input)@,
                final(input)@,
                grammar::import(old(input)@.tokens, old(input)@.pos),
            ),
    {
        let mut cursor = input.fork();
        let ghost tokens = cursor@.tokens;
        let ghost start = cursor@.pos;
        cursor.expect(TokenKind::Import)?;
        let mut path: Vec<String> = Vec::new();
        let mut alias: Option<String> = None;
        let mut terminated = false;
        assert(views(path@) =~= Seq::<Seq<char>>::empty());
        while !terminated
            invariant
                cursor@.tokens == tokens,
                0 <= cursor@.pos <= tokens.len(),
                grammar::import(tokens, start) == if terminated {
                    Ok(
                        (
                            crate::ast::ImportView { path: views(path@), alias: name_view(alias) },
                            cursor@.pos,
                        ),
                    )
                } else {
                    grammar::import_rest(tokens, cursor@.pos, views(path@), name_view(alias))
                },
            decreases tokens.len() - cursor@.pos + if terminated { 0int } else { 1int },
        {
            if cursor.skip_optional(TokenKind::As) {
                alias = Some(cursor.name()?);
            } else if cursor.peek(TokenKind::Semi) {
                if path.len() == 0 {
                    return Err(cursor.error(TokenKind::Ident.alone()));
                }
                terminated = cursor.skip_optional(TokenKind::Semi);
            } else if cursor.skip_optional(TokenKind::PathSep) {
            } else {
                match cursor.name() {
                    Ok(segment) => {
                        proof {
                            lemma_views_push(path@, segment);
                        }
                        path.push(segment);
                    },
                    Err(_) => return Err(cursor.error(import_alternatives())),
                }
            }
        }
        *input = cursor;
        Ok(RtlImport { path, alias })
    }
}

impl RtlPub {
    /// Reads the word `pub`, which marks an export.
    pub fn parse(input: &mut TokenCursor<'_>) -> (result: RtlResult<RtlPub>)
        ensures
            match grammar::expect(old(input)@.tokens, old(input)@.pos, TokenKind::Pub) {
                Ok(next) => result is Ok && final(input)@ == old(input)@.at(next),
                Err(e) => result matches Err(error) && error@ == e && final(input)@ == old(input)@,
            },
    {
        input.expect(TokenKind::Pub)?;
        Ok(RtlPub)
    }
}

impl RtlDecl {
    /// Reads one declaration. The next token decides which: `f`, `const`, `var`,
    /// `static`, `struct`, `def` or `gen`. Where it is none of these the error names
    /// all seven.
    pub fn parse(input: &mut TokenCursor<'_>) -> (result: RtlResult<RtlDecl>)
        ensures
            yields(
                result,
                old(input)@,
                final(input)@,
                grammar::declaration(old(input)@.tokens, old(input)@.pos),
            ),
    {
        if input.peek(TokenKind::F) {
            Ok(RtlDecl { value: RtlDeclValue::RtlFn(RtlFn::parse(input)?) })
        } else if input.peek(TokenKind::Const) {
            Ok(RtlDecl { value: RtlDeclValue::RtlConst(RtlConstExpr::parse(input)?) })
        } else if input.peek(TokenKind::Var) {
            Ok(RtlDecl { value: RtlDeclValue::RtlVar(RtlVarExpr::parse(input)?) })
        } else if input.peek(TokenKind::Static) {
            Ok(RtlDecl { value: RtlDeclValue::RtlStatic(RtlStatic::parse(input)?) })
        } else if input.peek(TokenKind::Struct) {
            Ok(RtlDecl { value: RtlDeclValue::RtlStruct(RtlStruct::parse(input)?) })
        } else if input.peek(TokenKind::Def) {
            Ok(RtlDecl { value: RtlDeclValue::RtlDef(RtlDef::parse(input)?) })
        } else if input.peek(TokenKind::Gen) {
            Ok(RtlDecl { value: RtlDeclValue::RtlGen(RtlGen::parse(input)?) })
        } else {
            let kind = if input.peek(TokenKind::For) {
                ErrorKind::DuplicateOrMisplacedClause
            } else if input.is_empty() {
                ErrorKind::UnexpectedEndOfInput
            } else {
                ErrorKind::UnexpectedToken
            };
            Err(SyntaxError::at(kind, declaration_starts(), input.position()))
        }
    }
}

/// Reads every import that begins at the cursor.
#[verifier::loop_isolation(false)]
fn parse_imports(input: &mut TokenCursor<'_>) -> (result: RtlResult<Vec<RtlImport>>)
    ensures
        match grammar::imports(old(input)@.tokens, old(input)@.pos) {
            Ok((imports, next)) => {
                &&& result matches Ok(found) && views(found@) == imports
                &&& final(input)@ == old(input)@.at(next)
                &&& old(input)@.pos <= next <= old(input)@.tokens.len()
            },
            Err(e) => result matches Err(error) && error@ == e && final(input)@ == old(input)@,
        },
{
    let mut cursor = input.fork();
    let ghost tokens = cursor@.tokens;
    let ghost start = cursor@.pos;
    let mut imports: Vec<RtlImport> = Vec::new();
    proof {
        grammar::lemma_prepend_to_nothing(views(imports@), grammar::imports(tokens, start));
    }
    while cursor.peek(TokenKind::Import)
        invariant
            cursor@.tokens == tokens,
            start <= cursor@.pos <= tokens.len(),
            grammar::imports(tokens, start) == grammar::prepend_to(
                views(imports@),
                grammar::imports(tokens, cursor@.pos),
            ),
        decreases tokens.len() - cursor@.pos,
    {
        let ghost before = views(imports@);
        proof {
            grammar::lemma_import_advances(tokens, cursor@.pos);
        }
        let import = RtlImport::parse(&mut cursor)?;
        proof {
            lemma_views_push(imports@, import);
            grammar::lemma_prepend_to_item(
                before,
                import@,
                grammar::imports(tokens, cursor@.pos),
            );
        }
        imports.push(import);
    }
    proof {
        grammar::lemma_prepend_to_all(views(imports@), cursor@.pos);
    }
    *input = cursor;
    Ok(imports)
}

/// Reads declarations up to the end of the cursor's sequence, each after at most one
/// stray terminator.
#[verifier::loop_isolation(false)]
fn parse_declarations(input: &mut TokenCursor<'_>) -> (result: RtlResult<Vec<RtlDecl>>)
    ensures
        match grammar::declarations(old(input)@.tokens, old(input)@.pos) {
            Ok(decls) => {
                &&& result matches Ok(found) && views(found@) == decls
                &&& final(input)@ == old(input)@.at(old(input)@.tokens.len() as int)
            },
            Err(e) => result matches Err(error) && error@ == e && final(input)@ == old(input)@,
        },
{
    let mut cursor = input.fork();
    let ghost tokens = cursor@.tokens;
    let ghost start = cursor@.pos;
    let mut decls: Vec<RtlDecl> = Vec::new();
    proof {
        grammar::lemma_prepend_nothing(views(decls@), grammar::declarations(tokens, start));
    }
    while !cursor.is_empty()
        invariant
            cursor@.tokens == tokens,
            start <= cursor@.pos <= tokens.len(),
            grammar::declarations(tokens, start) == grammar::prepend(
                views(decls@),
                grammar::declarations(tokens, cursor@.pos),
            ),
        decreases tokens.len() - cursor@.pos,
    {
        let ghost before = views(decls@);
        let _ = cursor.skip_optional(TokenKind::Semi);
        proof {
            grammar::lemma_declaration_advances(tokens, cursor@.pos);
        }
        let decl = RtlDecl::parse(&mut cursor)?;
        proof {
            lemma_views_push(decls@, decl);
            grammar::lemma_prepend_item(
                before,
                decl@,
                grammar::declarations(tokens, cursor@.pos),
            );
        }
        decls.push(decl);
    }
    proof {
        grammar::lemma_prepend_all(views(decls@));
    }
    *input = cursor;
    Ok(decls)
}

impl Rattle {
    /// Reads a program: every import, then declarations up to the end of the tokens,
    /// each after at most one stray terminator. The list of exports stays empty.
    pub fn parse(input: &mut TokenCursor<'_>) -> (result: RtlResult<Rattle>)
        ensures
            yields(
                result,
                old(input)@,
                final(input)@,
                grammar::program(old(input)@.tokens, old(input)@.pos),
            ),
    {
        let mut cursor = input.fork();
        let imports = parse_imports(&mut cursor)?;
        let decls = parse_declarations(&mut cursor)?;
        *input = cursor;
        Ok(Rattle { decls, imports, public: Vec::new() })
    }
}

/// The view of a result: the value of the tree, or the value of the error.
pub open spec fn outcome(result: RtlResult<Rattle>) -> Result<
    crate::ast::ProgramView,
    SyntaxErrorView,
> {
    match result {
        Ok(program) => Ok(program@),
        Err(error) => Err(error@),
    }
}

/// Parses a whole token sequence into a program.
pub fn parse_tokens(tokens: &Vec<Token>) -> (result: RtlResult<Rattle>)
    ensures
        outcome(result) == grammar::parse(view_all(tokens@)),
{
    let mut cursor = TokenCursor::new(tokens);
    Rattle::parse(&mut cursor)
}

/// Parses a source text into a program: breaks it into tokens, then parses those.
pub fn parse(ts: &str) -> (result: RtlResult<Rattle>)
    ensures
        outcome(result) == grammar::parse_source(ts@),
{
    match tokenize(ts) {
        Some(tokens) => parse_tokens(&tokens),
        None => {
            let error = SyntaxError {
                kind: ErrorKind::Tokenize,
                expected: Vec::new(),
                position: Vec::new(),
            };
            assert(error@.position =~= Seq::<int>::empty());
            Err(error)
        },
    }
}

} // verus!
