//! What holds of the grammar on every input, proved from its definition.

use crate::ast::{ImportView, Rattle, TypedNameView};
use crate::error::{ErrorKind, RtlResult, SyntaxErrorView, TokenKind};
use crate::grammar::{
    declaration, declaration_starts, declarations, function, gen_block, import, import_rest,
    imports, is_punct, mismatch, name, parse, parse_source, starts, structure, typed_name,
    typed_names,
};
use crate::parser::outcome;
use crate::lexer::is_name;
use crate::token::{Delimiter, TokenView};
use vstd::prelude::*;

verus! {

/// Parsing is a function of the source text: two parses of the same text end with
/// trees of the same value, or with errors of the same value.
pub proof fn law_same_source_same_outcome(
    source: Seq<char>,
    first: RtlResult<Rattle>,
    second: RtlResult<Rattle>,
)
    requires
        outcome(first) == parse_source(source),
        outcome(second) == parse_source(source),
    ensures
        outcome(first) == outcome(second),
{
}

/// Parsing is a function of the tokens: two parses of token sequences of the same
/// value end with trees of the same value, or with errors of the same value.
pub proof fn law_same_tokens_same_outcome(
    tokens: Seq<TokenView>,
    first: RtlResult<Rattle>,
    second: RtlResult<Rattle>,
)
    requires
        outcome(first) == parse(tokens),
        outcome(second) == parse(tokens),
    ensures
        outcome(first) == outcome(second),
{
}

/// What follows `import` never yields less than the path read so far, and never an
/// empty path.
proof fn lemma_import_rest_keeps_path(
    tokens: Seq<TokenView>,
    pos: int,
    path: Seq<Seq<char>>,
    alias: Option<Seq<char>>,
)
    ensures
        import_rest(tokens, pos, path, alias) matches Ok((found, _)) ==> found.path.len() > 0
            && found.path.len() >= path.len(),
    decreases tokens.len() - pos,
{
    if starts(tokens, pos, TokenKind::As) {
        if let Ok((alias, next)) = name(tokens, pos + 1) {
            lemma_import_rest_keeps_path(tokens, next, path, Some(alias));
        }
    } else if starts(tokens, pos, TokenKind::Semi) {
    } else if starts(tokens, pos, TokenKind::PathSep) {
        lemma_import_rest_keeps_path(tokens, pos + 2, path, alias);
    } else if starts(tokens, pos, TokenKind::Ident) {
        lemma_import_rest_keeps_path(tokens, pos + 1, path.push(tokens[pos]->Ident_0), alias);
    }
}

/// No import has an empty path: where `import` yields a node, the node's path has at
/// least one segment.
pub proof fn law_import_has_a_path(tokens: Seq<TokenView>, pos: int)
    ensures
        import(tokens, pos) matches Ok((found, _)) ==> found.path.len() > 0,
{
    lemma_import_rest_keeps_path(tokens, pos + 1, seq![], None);
}

/// An import whose terminator follows the keyword at once is an error: a name was
/// expected where the terminator stands.
pub proof fn law_import_without_path_fails(tokens: Seq<TokenView>, pos: int)
    requires
        starts(tokens, pos, TokenKind::Import),
        starts(tokens, pos + 1, TokenKind::Semi),
    ensures
        import(tokens, pos) == Err::<(ImportView, int), _>(
            mismatch(tokens, pos + 1, seq![TokenKind::Ident]),
        ),
{
}

/// No struct is without a name: where `struct` is not followed by a name, the
/// production fails there and expects a name.
pub proof fn law_struct_without_name_fails(tokens: Seq<TokenView>, pos: int)
    requires
        starts(tokens, pos, TokenKind::Struct),
        !starts(tokens, pos + 1, TokenKind::Ident),
    ensures
        structure(tokens, pos) == Err::<(crate::ast::StructView, int), _>(
            mismatch(tokens, pos + 1, seq![TokenKind::Ident]),
        ),
{
}

/// A comma behind the last item of a list changes nothing: where the list is read
/// from `pos` and does not already end in a comma, the list with one more comma
/// yields the same items, and fails where the list fails.
proof fn lemma_trailing_comma(inner: Seq<TokenView>, pos: int, joint: bool)
    requires
        0 <= pos < inner.len(),
        !is_punct(inner.last(), ','),
    ensures
        match typed_names(inner, pos) {
            Ok(items) => typed_names(inner.push(TokenView::Punct(',', joint)), pos) == Ok::<
                _,
                SyntaxErrorView,
            >(items),
            Err(_) => typed_names(inner.push(TokenView::Punct(',', joint)), pos) is Err,
        },
    decreases inner.len() - pos,
{
    let longer = inner.push(TokenView::Punct(',', joint));
    assert(forall|i: int| 0 <= i < inner.len() ==> longer[i] == inner[i]);
    assert(longer[inner.len() as int] == TokenView::Punct(',', joint));
    match typed_name(inner, pos) {
        Err(_) => {},
        Ok((first, next)) => {
            assert(typed_name(longer, pos) == Ok::<_, SyntaxErrorView>((first, next)));
            if next >= inner.len() {
                assert(typed_names(longer, next + 1) == Ok::<_, SyntaxErrorView>(
                    Seq::<crate::ast::TypedNameView>::empty(),
                ));
                assert(seq![first] + Seq::<crate::ast::TypedNameView>::empty() =~= seq![first]);
            } else if starts(inner, next, TokenKind::Comma) {
                lemma_trailing_comma(inner, next + 1, joint);
            }
        },
    }
}

/// A struct with a comma behind its last field parses as the one without: given a
/// struct at `pos` whose field list is not empty and does not end in a comma, adding
/// a comma at the end of the list changes neither the node nor the position behind
/// it; and where the struct without the comma is an error, so is the one with it.
pub proof fn law_struct_trailing_comma(
    tokens: Seq<TokenView>,
    pos: int,
    fields: Seq<TokenView>,
    joint: bool,
)
    requires
        0 <= pos,
        pos + 2 < tokens.len(),
        tokens[pos + 2] == TokenView::Group(Delimiter::Brace, fields),
        fields.len() > 0,
        !is_punct(fields.last(), ','),
    ensures
        ({
            let with_comma = tokens.update(
                pos + 2,
                TokenView::Group(Delimiter::Brace, fields.push(TokenView::Punct(',', joint))),
            );
            match structure(tokens, pos) {
                Ok(found) => structure(with_comma, pos) == Ok::<_, SyntaxErrorView>(found),
                Err(_) => structure(with_comma, pos) is Err,
            }
        }),
{
    lemma_trailing_comma(fields, 0, joint);
}

/// The same for the arguments of a function.
pub proof fn law_function_trailing_comma(
    tokens: Seq<TokenView>,
    pos: int,
    args: Seq<TokenView>,
    joint: bool,
)
    requires
        0 <= pos,
        pos + 2 < tokens.len(),
        tokens[pos + 2] == TokenView::Group(Delimiter::Parenthesis, args),
        args.len() > 0,
        !is_punct(args.last(), ','),
    ensures
        ({
            let with_comma = tokens.update(
                pos + 2,
                TokenView::Group(Delimiter::Parenthesis, args.push(TokenView::Punct(',', joint))),
            );
            match function(tokens, pos) {
                Ok(found) => function(with_comma, pos) == Ok::<_, SyntaxErrorView>(found),
                Err(_) => function(with_comma, pos) is Err,
            }
        }),
{
    lemma_trailing_comma(args, 0, joint);
}

/// Every struct that `declarations` yields has a name that is a name.
proof fn lemma_structs_have_names(tokens: Seq<TokenView>, pos: int)
    ensures
        declarations(tokens, pos) matches Ok(found) ==> forall|i: int|
            0 <= i < found.len() && (#[trigger] found[i]) is Struct ==> is_name(
                found[i]->Struct_0.name,
            ),
    decreases tokens.len() - pos,
{
    if pos < tokens.len() {
        let start = if starts(tokens, pos, TokenKind::Semi) {
            pos + 1
        } else {
            pos
        };
        if let Ok((first, next)) = declaration(tokens, start) {
            crate::grammar::lemma_declaration_advances(tokens, start);
            lemma_structs_have_names(tokens, next);
            if let Ok(rest) = declarations(tokens, next) {
                let found = seq![first] + rest;
                assert forall|i: int| 0 <= i < found.len() && (#[trigger] found[i]) is Struct implies is_name(
                    found[i]->Struct_0.name,
                ) by {
                    if i > 0 {
                        assert(found[i] == rest[i - 1]);
                    }
                }
            }
        }
    }
}

/// No program holds a struct without a name: in every program that a token sequence
/// parses to, the name of each struct is a name.
pub proof fn law_program_structs_have_names(tokens: Seq<TokenView>)
    ensures
        parse(tokens) matches Ok(program) ==> forall|i: int|
            0 <= i < program.decls.len() && (#[trigger] program.decls[i]) is Struct ==> is_name(
                program.decls[i]->Struct_0.name,
            ),
{
    if let Ok((_, next)) = imports(tokens, 0) {
        lemma_structs_have_names(tokens, next);
    }
}

/// How a path is written: its segments with `::` between them.
pub open spec fn path_tokens(path: Seq<Seq<char>>) -> Seq<TokenView>
    decreases path.len(),
{
    if path.len() == 0 {
        seq![]
    } else if path.len() == 1 {
        seq![TokenView::Ident(path[0])]
    } else {
        seq![TokenView::Ident(path[0]), TokenView::Punct(':', true), TokenView::Punct(':', false)]
            + path_tokens(path.drop_first())
    }
}

/// How an alias clause is written: `as ALIAS`, or nothing where there is no alias.
pub open spec fn alias_tokens(alias: Option<Seq<char>>) -> Seq<TokenView> {
    match alias {
        Some(text) => seq![TokenView::Ident("as"@), TokenView::Ident(text)],
        None => seq![],
    }
}

/// How an import is written: `import`, the path, the alias clause, the terminator.
pub open spec fn import_tokens(path: Seq<Seq<char>>, alias: Option<Seq<char>>) -> Seq<TokenView> {
    seq![TokenView::Ident("import"@)] + path_tokens(path) + alias_tokens(alias)
        + seq![TokenView::Punct(';', false)]
}

/// Whether `part` stands in `tokens` from `pos` on.
pub open spec fn stands_at(tokens: Seq<TokenView>, pos: int, part: Seq<TokenView>) -> bool {
    &&& 0 <= pos
    &&& pos + part.len() <= tokens.len()
    &&& forall|i: int| 0 <= i < part.len() ==> tokens[pos + i] == #[trigger] part[i]
}

/// Whether every segment of `path` is a name, and none of them the word `as`.
pub open spec fn are_segments(path: Seq<Seq<char>>) -> bool {
    forall|i: int| 0 <= i < path.len() ==> is_name(#[trigger] path[i]) && path[i] != "as"@
}

/// Reading a written path appends its segments to the path read so far, whatever
/// follows the written path, as long as that is no path separator.
proof fn lemma_import_reads_path(
    tokens: Seq<TokenView>,
    pos: int,
    path: Seq<Seq<char>>,
    done: Seq<Seq<char>>,
    alias: Option<Seq<char>>,
)
    requires
        path.len() > 0,
        are_segments(path),
        stands_at(tokens, pos, path_tokens(path)),
    ensures
        import_rest(tokens, pos, done, alias) == import_rest(
            tokens,
            pos + path_tokens(path).len(),
            done + path,
            alias,
        ),
    decreases path.len(),
{
    let written = path_tokens(path);
    assert(written[0] == TokenView::Ident(path[0]));
    assert(tokens[pos + 0] == written[0]);
    assert(is_name(path[0]) && path[0] != "as"@);
    assert(!starts(tokens, pos, TokenKind::As));
    assert(!starts(tokens, pos, TokenKind::Semi));
    assert(!starts(tokens, pos, TokenKind::PathSep));
    assert(starts(tokens, pos, TokenKind::Ident));
    assert(import_rest(tokens, pos, done, alias) == import_rest(
        tokens,
        pos + 1,
        done.push(path[0]),
        alias,
    ));
    if path.len() == 1 {
        assert(done.push(path[0]) =~= done + path);
    } else {
        let rest = path.drop_first();
        assert(written[1] == TokenView::Punct(':', true));
        assert(written[2] == TokenView::Punct(':', false));
        assert(tokens[pos + 1] == written[1]);
        assert(tokens[pos + 2] == written[2]);
        assert(!starts(tokens, pos + 1, TokenKind::As));
        assert(!starts(tokens, pos + 1, TokenKind::Semi));
        assert(starts(tokens, pos + 1, TokenKind::PathSep));
        assert(import_rest(tokens, pos + 1, done.push(path[0]), alias) == import_rest(
            tokens,
            pos + 3,
            done.push(path[0]),
            alias,
        ));
        assert(are_segments(rest)) by {
            assert forall|i: int| 0 <= i < rest.len() implies is_name(#[trigger] rest[i]) && rest[i]
                != "as"@ by {
                assert(rest[i] == path[i + 1]);
            }
        }
        assert(stands_at(tokens, pos + 3, path_tokens(rest))) by {
            assert forall|i: int| 0 <= i < path_tokens(rest).len() implies tokens[pos + 3 + i]
                == #[trigger] path_tokens(rest)[i] by {
                assert(written[3 + i] == path_tokens(rest)[i]);
                assert(tokens[pos + (3 + i)] == written[3 + i]);
            }
        }
        lemma_import_reads_path(tokens, pos + 3, rest, done.push(path[0]), alias);
        assert(done.push(path[0]) + rest =~= done + path);
    }
}

/// A well-formed import yields exactly what was written: for every path of one or
/// more segments and every alias or none, the import written as `import`, the
/// segments with `::` between them, `as` and the alias if there is one, and the
/// terminator, parses to that path in that order and to that alias, and ends behind
/// the terminator. This holds wherever the import stands and whatever follows it.
pub proof fn law_import_yields_what_was_written(
    tokens: Seq<TokenView>,
    pos: int,
    path: Seq<Seq<char>>,
    alias: Option<Seq<char>>,
)
    requires
        path.len() > 0,
        are_segments(path),
        alias matches Some(text) ==> is_name(text),
        stands_at(tokens, pos, import_tokens(path, alias)),
    ensures
        import(tokens, pos) == Ok::<_, SyntaxErrorView>(
            (ImportView { path, alias }, pos + import_tokens(path, alias).len()),
        ),
{
    let written = import_tokens(path, alias);
    let segments = path_tokens(path);
    let clause = alias_tokens(alias);
    assert(written[0] == TokenView::Ident("import"@));
    assert(tokens[pos + 0] == written[0]);
    assert(stands_at(tokens, pos + 1, segments)) by {
        assert forall|i: int| 0 <= i < segments.len() implies tokens[pos + 1 + i]
            == #[trigger] segments[i] by {
            assert(written[1 + i] == segments[i]);
            assert(tokens[pos + (1 + i)] == written[1 + i]);
        }
    }
    lemma_import_reads_path(tokens, pos + 1, path, seq![], None);
    assert(Seq::<Seq<char>>::empty() + path =~= path);
    let offset = segments.len() as int + 1;
    let after_path = pos + offset;
    assert(written.len() == offset + clause.len() + 1);
    assert(starts(tokens, pos, TokenKind::Import));
    assert(import(tokens, pos) == import_rest(tokens, after_path, path, None));
    match alias {
        Some(text) => {
            assert(written[offset + 0] == TokenView::Ident("as"@));
            assert(written[offset + 1] == TokenView::Ident(text));
            assert(written[offset + 2] == TokenView::Punct(';', false));
            assert(tokens[pos + (offset + 0)] == written[offset + 0]);
            assert(tokens[pos + (offset + 1)] == written[offset + 1]);
            assert(tokens[pos + (offset + 2)] == written[offset + 2]);
            assert(starts(tokens, after_path, TokenKind::As));
            assert(name(tokens, after_path + 1) == Ok::<_, SyntaxErrorView>(
                (text, after_path + 2),
            ));
            assert(import_rest(tokens, after_path, path, None) == import_rest(
                tokens,
                after_path + 2,
                path,
                alias,
            ));
            assert(!starts(tokens, after_path + 2, TokenKind::As));
            assert(starts(tokens, after_path + 2, TokenKind::Semi));
        },
        None => {
            assert(written[offset + 0] == TokenView::Punct(';', false));
            assert(tokens[pos + (offset + 0)] == written[offset + 0]);
            assert(!starts(tokens, after_path, TokenKind::As));
            assert(starts(tokens, after_path, TokenKind::Semi));
        },
    }
}

/// The word `import` is none of the words that begin a declaration, nor `for`.
proof fn lemma_import_is_no_other_keyword()
    ensures
        "import"@ != "f"@,
        "import"@ != "const"@,
        "import"@ != "var"@,
        "import"@ != "static"@,
        "import"@ != "struct"@,
        "import"@ != "def"@,
        "import"@ != "gen"@,
        "import"@ != "for"@,
{
    reveal_strlit("import");
    reveal_strlit("f");
    reveal_strlit("const");
    reveal_strlit("var");
    reveal_strlit("static");
    reveal_strlit("struct");
    reveal_strlit("def");
    reveal_strlit("gen");
    reveal_strlit("for");
    assert("import"@.len() == 6);
    assert("f"@.len() == 1);
    assert("const"@.len() == 5);
    assert("var"@.len() == 3);
    assert("def"@.len() == 3);
    assert("gen"@.len() == 3);
    assert("for"@.len() == 3);
    assert("import"@[0] == 'i');
    assert("static"@[0] == 's');
    assert("struct"@[0] == 's');
}

/// Imports come first: once the declarations have begun, an import is no
/// declaration. Where `import` stands at `pos`, `declaration` fails there with an
/// unexpected token and names the seven kinds that begin a declaration.
pub proof fn law_import_is_no_declaration(tokens: Seq<TokenView>, pos: int)
    requires
        starts(tokens, pos, TokenKind::Import),
    ensures
        declaration(tokens, pos) == Err::<(crate::ast::DeclView, int), _>(
            mismatch(tokens, pos, declaration_starts()),
        ),
        mismatch(tokens, pos, declaration_starts()).kind == ErrorKind::UnexpectedToken,
{
    lemma_import_is_no_other_keyword();
}

/// Every import that `imports` yields has a path of at least one segment.
proof fn lemma_imports_have_paths(tokens: Seq<TokenView>, pos: int)
    ensures
        imports(tokens, pos) matches Ok((found, _)) ==> forall|i: int|
            0 <= i < found.len() ==> (#[trigger] found[i]).path.len() > 0,
    decreases tokens.len() - pos,
{
    if starts(tokens, pos, TokenKind::Import) {
        if let Ok((first, next)) = import(tokens, pos) {
            crate::grammar::lemma_import_advances(tokens, pos);
            law_import_has_a_path(tokens, pos);
            lemma_imports_have_paths(tokens, next);
        }
    }
}

/// No program holds an import without a path: in every program that a token sequence
/// parses to, each import has at least one path segment.
pub proof fn law_program_imports_have_paths(tokens: Seq<TokenView>)
    ensures
        parse(tokens) matches Ok(program) ==> forall|i: int|
            0 <= i < program.imports.len() ==> (#[trigger] program.imports[i]).path.len() > 0,
{
    lemma_imports_have_paths(tokens, 0);
}

/// A generic block reads to the end: where `gen_block` yields a node, the position
/// behind it is the end of the tokens, so that no declaration can follow.
pub proof fn law_gen_block_reads_to_the_end(tokens: Seq<TokenView>, pos: int)
    ensures
        gen_block(tokens, pos) matches Ok((_, next)) ==> next == tokens.len(),
{
}

/// How a list of typed names is written: type and name of each item, with a comma
/// between two items.
pub open spec fn list_tokens(items: Seq<TypedNameView>) -> Seq<TokenView> {
    Seq::new(
        if items.len() == 0 {
            0nat
        } else {
            (3 * items.len() - 1) as nat
        },
        |i: int|
            if i % 3 == 0 {
                TokenView::Ident(items[i / 3].ty)
            } else if i % 3 == 1 {
                TokenView::Ident(items[i / 3].name)
            } else {
                TokenView::Punct(',', false)
            },
    )
}

/// Whether the type and the name of every item are names.
pub open spec fn are_typed_names(items: Seq<TypedNameView>) -> bool {
    forall|i: int|
        0 <= i < items.len() ==> is_name((#[trigger] items[i]).ty) && is_name(items[i].name)
}

/// Reading a written list from its `done`-th item on yields the items from there on.
proof fn lemma_list_reads_items(items: Seq<TypedNameView>, done: int)
    requires
        are_typed_names(items),
        0 <= done <= items.len(),
    ensures
        typed_names(list_tokens(items), 3 * done) == Ok::<_, SyntaxErrorView>(
            items.skip(done),
        ),
    decreases items.len() - done,
{
    let written = list_tokens(items);
    if done == items.len() {
        assert(items.skip(done) =~= Seq::<TypedNameView>::empty());
    } else {
        let item = items[done];
        assert(is_name(item.ty) && is_name(item.name));
        assert(written[3 * done] == TokenView::Ident(item.ty));
        assert(written[3 * done + 1] == TokenView::Ident(item.name));
        assert(typed_name(written, 3 * done) == Ok::<_, SyntaxErrorView>(
            (item, 3 * done + 2),
        ));
        if done + 1 < items.len() {
            assert(written[3 * done + 2] == TokenView::Punct(',', false));
        }
        lemma_list_reads_items(items, done + 1);
        assert(seq![item] + items.skip(done + 1) =~= items.skip(done));
    }
}

/// A written list yields its items in their order: for every list of typed names,
/// the list written with a comma between two items parses to exactly those items.
pub proof fn law_list_yields_what_was_written(items: Seq<TypedNameView>)
    requires
        are_typed_names(items),
    ensures
        typed_names(list_tokens(items), 0) == Ok::<_, SyntaxErrorView>(items),
{
    lemma_list_reads_items(items, 0);
    assert(items.skip(0) =~= items);
}

} // verus!
