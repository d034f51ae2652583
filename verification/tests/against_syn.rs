//! Cross-check: the same grammar written with `syn`'s parse streams must accept the
//! same source texts as the library and build the same trees.

use proc_macro2::{Delimiter as Bracket, TokenStream};
use rtl_parser::{
    parse, Rattle, RtlBody, RtlConstExpr, RtlDecl, RtlDeclValue, RtlDef, RtlExpr, RtlFn, RtlFnArg,
    RtlGen, RtlImport, RtlStatic, RtlStruct, RtlStructField, RtlVarExpr,
};
use std::str::FromStr;
use syn::parse::{ParseStream, Parser};
use syn::token::{Comma, PathSep, Semi};

fn word(input: ParseStream, text: &str) -> syn::Result<()> {
    input.step(|cursor| match cursor.ident() {
        Some((ident, rest)) if ident == text => Ok(((), rest)),
        _ => Err(cursor.error(format!("expected `{}`", text))),
    })
}

fn at_word(input: ParseStream, text: &str) -> bool {
    matches!(input.cursor().ident(), Some((ident, _)) if ident == text)
}

fn name(input: ParseStream) -> syn::Result<String> {
    Ok(input.parse::<syn::Ident>()?.to_string())
}

fn inside(input: ParseStream, bracket: Bracket) -> syn::Result<TokenStream> {
    input.step(|cursor| match cursor.group(bracket) {
        Some((content, _, rest)) => Ok((content.token_stream(), rest)),
        None => Err(cursor.error("expected a group")),
    })
}

fn typed_names<T>(stream: TokenStream, make: fn(String, String) -> T) -> syn::Result<Vec<T>> {
    let list = |content: ParseStream| {
        let mut items = Vec::new();
        while !content.is_empty() {
            let ty = name(content)?;
            let item = name(content)?;
            items.push(make(ty, item));
            if !content.is_empty() {
                content.parse::<Comma>()?;
            }
        }
        Ok(items)
    };
    list.parse2(stream)
}

fn function(input: ParseStream) -> syn::Result<RtlFn> {
    word(input, "f")?;
    let fn_name = name(input)?;
    let args = typed_names(inside(input, Bracket::Parenthesis)?, |ty, name| RtlFnArg { ty, name })?;
    let ret = name(input)?;
    if input.fork().parse::<Semi>().is_ok() {
        input.parse::<Semi>()?;
    }
    Ok(RtlFn { name: fn_name, args, ret, body: RtlBody })
}

fn functions(input: ParseStream) -> syn::Result<Vec<RtlFn>> {
    let mut found = Vec::new();
    while !input.is_empty() {
        found.push(function(input)?);
    }
    Ok(found)
}

fn binding(input: ParseStream, keyword: &str) -> syn::Result<(String, String, bool)> {
    word(input, keyword)?;
    let ty = name(input)?;
    let is_mut = at_word(input, "mut");
    if is_mut {
        word(input, "mut")?;
    }
    let item = name(input)?;
    input.parse::<syn::token::Eq>()?;
    input.parse::<Semi>()?;
    Ok((item, ty, is_mut))
}

fn declaration(input: ParseStream) -> syn::Result<RtlDeclValue> {
    if at_word(input, "f") {
        Ok(RtlDeclValue::RtlFn(function(input)?))
    } else if at_word(input, "const") {
        word(input, "const")?;
        let ty = name(input)?;
        let item = name(input)?;
        input.parse::<syn::token::Eq>()?;
        input.parse::<Semi>()?;
        Ok(RtlDeclValue::RtlConst(RtlConstExpr { name: item, ty, data: RtlExpr }))
    } else if at_word(input, "var") {
        let (name, ty, is_mut) = binding(input, "var")?;
        Ok(RtlDeclValue::RtlVar(RtlVarExpr { name, ty, is_mut, data: RtlExpr }))
    } else if at_word(input, "static") {
        let (name, ty, is_mut) = binding(input, "static")?;
        Ok(RtlDeclValue::RtlStatic(RtlStatic { name, ty, is_mut, data: RtlExpr }))
    } else if at_word(input, "struct") {
        word(input, "struct")?;
        let struct_name = name(input)?;
        let fields =
            typed_names(inside(input, Bracket::Brace)?, |ty, name| RtlStructField { ty, name })?;
        Ok(RtlDeclValue::RtlStruct(RtlStruct { name: struct_name, fields }))
    } else if at_word(input, "def") {
        word(input, "def")?;
        let struct_name = name(input)?;
        let defs = functions.parse2(inside(input, Bracket::Brace)?)?;
        let def_for = if at_word(input, "for") {
            word(input, "for")?;
            Some(name(input)?)
        } else {
            None
        };
        if input.peek(Semi) {
            input.parse::<Semi>()?;
        }
        Ok(RtlDeclValue::RtlDef(RtlDef { struct_name, defs, def_for }))
    } else if at_word(input, "gen") {
        word(input, "gen")?;
        Ok(RtlDeclValue::RtlGen(RtlGen { methods: functions(input)? }))
    } else {
        Err(input.error("expected a declaration"))
    }
}

fn import(input: ParseStream) -> syn::Result<RtlImport> {
    word(input, "import")?;
    let mut path = Vec::new();
    let mut alias = None;
    loop {
        if input.fork().parse::<syn::token::As>().is_ok() {
            input.parse::<syn::token::As>()?;
            alias = Some(name(input)?);
        } else if input.fork().parse::<Semi>().is_ok() {
            if path.is_empty() {
                return Err(input.error("expected a path segment"));
            }
            input.parse::<Semi>()?;
            break;
        } else if input.fork().parse::<PathSep>().is_ok() {
            input.parse::<PathSep>()?;
        } else {
            path.push(name(input)?);
        }
    }
    Ok(RtlImport { path, alias })
}

fn program(input: ParseStream) -> syn::Result<Rattle> {
    let mut imports = Vec::new();
    while at_word(input, "import") {
        imports.push(import(input)?);
    }
    let mut decls = Vec::new();
    while !input.is_empty() {
        if input.fork().parse::<Semi>().is_ok() {
            input.parse::<Semi>()?;
        }
        decls.push(RtlDecl { value: declaration(input)? });
    }
    Ok(Rattle { decls, imports, public: Vec::new() })
}

fn with_syn(source: &str) -> Option<Rattle> {
    let stream = TokenStream::from_str(source).ok()?;
    program.parse2(stream).ok()
}

fn agree(source: &str) -> bool {
    let ours = parse(source).ok();
    let theirs = with_syn(source);
    assert_eq!(ours, theirs, "on {:?}", source);
    ours.is_some()
}

struct Dice(u64);

impl Dice {
    fn roll(&mut self, sides: usize) -> usize {
        self.0 = self.0.wrapping_mul(6364136223846793005).wrapping_add(1442695040888963407);
        ((self.0 >> 33) as usize) % sides
    }
}

const PIECES: [&str; 40] = [
    "import", "as", "f", "const", "var", "static", "struct", "def", "gen", "for", "mut", "pub",
    "a", "B", "Int", "x", "_", "self", "r#as", "fn", ";", ";", ",", "=", "::", ":", "( )",
    "(Int x)", "(Int x, Str y,)", "(Int x Str y)", "{ }", "{ Int a }", "{ Int a, Str b, }",
    "{ f G(This t) Str; }", "{ f G() X f H(Int i) Y; }", "{ struct }", "[ a ]", "5", "\"s\"", "'c'",
];

const DECLARATIONS: [&str; 16] = [
    "import a ;",
    "import a :: b as c ;",
    "import :: std as hi ;",
    "f Add ( Int x , Int y ) Int",
    "f Name ( ) Unit ;",
    "f One ( This t , ) Str ;",
    "const Int X = ;",
    "var Int v = ;",
    "var Str mut w = ;",
    "static Int s = ;",
    "static Str mut t = ;",
    "struct P { }",
    "struct Q { String name , Int age , }",
    "def S { f G ( This t ) Str ; } for T ;",
    "def R { }",
    "gen f A ( ) X ; f B ( Int i ) Y",
];

#[test]
fn agrees_with_syn_on_chosen_texts() {
    let accepted = [
        "",
        "import a::b::c;",
        "import a as x;",
        "import a b :: :: c as d as e;",
        "f Name(Int x, Int y) Int;",
        "f Name() Unit struct P { String name, Int age, }",
        "def S { f G(This t) Str; } for T;",
        "def S { }",
        "; struct P { } ; def S { } ; ; gen",
        "const Int X = ; var Int mut v = ; static Int s = ;",
        "struct f { gen def, var import }",
        "struct r#struct { r#fn r#as }",
    ];
    for source in accepted {
        assert!(agree(source), "{:?}", source);
    }
    let rejected = [
        "struct { }",
        "import ;",
        "import as x;",
        "import a",
        "import",
        "import a as",
        "f Name() Unit { }",
        "f Name(Int x Int y) Int;",
        "f Name(, Int x) Int;",
        "const Int mut X = ;",
        "const Int X = 5;",
        "var Int x == ;",
        "struct P { Int a; }",
        "struct P { } ;",
        "def S { } for T for U;",
        "def S { struct P { } }",
        "gen f A() X; struct P { }",
        "struct struct { }",
        "struct Self { }",
        "struct _ { }",
        "struct P {",
        "fn main() { }",
        "/// text\nstruct P { }",
        "struct P { } import a;",
    ];
    for source in rejected {
        assert!(!agree(source), "{:?}", source);
    }
}

#[test]
fn agrees_with_syn_on_token_soup() {
    let mut dice = Dice(2024);
    let mut accepted = 0;
    for _ in 0..60000 {
        let length = 1 + dice.roll(8);
        let pieces: Vec<&str> = (0..length).map(|_| PIECES[dice.roll(PIECES.len())]).collect();
        if agree(&pieces.join(" ")) {
            accepted += 1;
        }
    }
    assert!(accepted > 100, "only {} texts were accepted", accepted);
}

#[test]
fn agrees_with_syn_on_programs_with_one_change() {
    let mut dice = Dice(7);
    let mut accepted = 0;
    let mut rejected = 0;
    for _ in 0..5000 {
        let count = dice.roll(5);
        let mut chosen: Vec<&str> =
            (0..count).map(|_| DECLARATIONS[dice.roll(DECLARATIONS.len())]).collect();
        chosen.sort_by_key(|text| !text.starts_with("import"));
        let whole: String = chosen.join(" ");
        let mut words: Vec<&str> = whole.split(' ').filter(|w| !w.is_empty()).collect();
        match dice.roll(4) {
            0 => {}
            1 if !words.is_empty() => {
                words.remove(dice.roll(words.len()));
            }
            2 => {
                let at = dice.roll(words.len() + 1);
                words.insert(at, PIECES[dice.roll(PIECES.len())]);
            }
            _ if !words.is_empty() => {
                let at = dice.roll(words.len());
                words[at] = PIECES[dice.roll(PIECES.len())];
            }
            _ => {}
        }
        if agree(&words.join(" ")) {
            accepted += 1;
        } else {
            rejected += 1;
        }
    }
    assert!(accepted > 500, "only {} texts were accepted", accepted);
    assert!(rejected > 500, "only {} texts were rejected", rejected);
}
