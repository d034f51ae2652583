//! The syntax tree that a parse builds, and the mathematical value of each node.
//!
//! Nodes are built bottom-up and owned by their parent. Each node type has a view:
//! names become `Seq<char>`, lists become `Seq`, so that contracts can speak of a tree
//! without speaking of its memory.

use vstd::prelude::*;

verus! {

/// An initializer expression. The expression grammar is a hook without tokens of its
/// own, so the node carries no data.
#[derive(Clone, Copy, Debug, PartialEq, Eq, Structural)]
pub struct RtlExpr;

/// A function body. The body grammar is a hook without tokens of its own, so the node
/// carries no data.
#[derive(Clone, Copy, Debug, PartialEq, Eq, Structural)]
pub struct RtlBody;

/// A public export.
#[derive(Clone, Copy, Debug, PartialEq, Eq, Structural)]
pub struct RtlPub;

/// One argument of a function: its type and its name.
#[derive(Debug, PartialEq, Eq)]
pub struct RtlFnArg {
    pub ty: String,
    pub name: String,
}

/// One field of a struct: its type and its name.
#[derive(Debug, PartialEq, Eq)]
pub struct RtlStructField {
    pub ty: String,
    pub name: String,
}

/// A function: `f NAME ( ARGS ) RET` and then a terminator or a body.
#[derive(Debug, PartialEq, Eq)]
pub struct RtlFn {
    pub name: String,
    pub args: Vec<RtlFnArg>,
    pub ret: String,
    pub body: RtlBody,
}

/// A constant: `const TYPE NAME = EXPR ;`.
#[derive(Debug, PartialEq, Eq)]
pub struct RtlConstExpr {
    pub name: String,
    pub ty: String,
    pub data: RtlExpr,
}

/// A variable: `var TYPE [mut] NAME = EXPR ;`.
#[derive(Debug, PartialEq, Eq)]
pub struct RtlVarExpr {
    pub name: String,
    pub ty: String,
    pub is_mut: bool,
    pub data: RtlExpr,
}

/// A static: `static TYPE [mut] NAME = EXPR ;`.
#[derive(Debug, PartialEq, Eq)]
pub struct RtlStatic {
    pub name: String,
    pub ty: String,
    pub is_mut: bool,
    pub data: RtlExpr,
}

/// A struct: `struct NAME { FIELDS }`.
#[derive(Debug, PartialEq, Eq)]
pub struct RtlStruct {
    pub name: String,
    pub fields: Vec<RtlStructField>,
}

/// A def block: `def NAME { FUNCTIONS } [for TARGET] [;]`.
#[derive(Debug, PartialEq, Eq)]
pub struct RtlDef {
    pub struct_name: String,
    pub defs: Vec<RtlFn>,
    pub def_for: Option<String>,
}

/// A generic block: `gen FUNCTIONS`, up to the end of the tokens.
#[derive(Debug, PartialEq, Eq)]
pub struct RtlGen {
    pub methods: Vec<RtlFn>,
}

/// An import: `import SEGMENT::SEGMENT [as ALIAS] ;`.
#[derive(Debug, PartialEq, Eq)]
pub struct RtlImport {
    pub path: Vec<String>,
    pub alias: Option<String>,
}

/// What a declaration declares.
#[derive(Debug, PartialEq, Eq)]
pub enum RtlDeclValue {
    RtlFn(RtlFn),
    RtlConst(RtlConstExpr),
    RtlVar(RtlVarExpr),
    RtlStatic(RtlStatic),
    RtlStruct(RtlStruct),
    RtlDef(RtlDef),
    RtlGen(RtlGen),
}

/// One top-level declaration.
#[derive(Debug, PartialEq, Eq)]
pub struct RtlDecl {
    pub value: RtlDeclValue,
}

/// A whole program: its imports, then its declarations, each in source order.
#[derive(Debug, PartialEq, Eq)]
pub struct Rattle {
    pub decls: Vec<RtlDecl>,
    pub imports: Vec<RtlImport>,
    /// The public exports. No production fills this list: it is always empty.
    pub public: Vec<RtlPub>,
}

/// The value of an argument or of a field.
pub ghost struct TypedNameView {
    pub ty: Seq<char>,
    pub name: Seq<char>,
}

/// The value of a function.
pub ghost struct FnView {
    pub name: Seq<char>,
    pub args: Seq<TypedNameView>,
    pub ret: Seq<char>,
}

/// The value of a constant.
pub ghost struct ConstView {
    pub name: Seq<char>,
    pub ty: Seq<char>,
}

/// The value of a variable or of a static.
pub ghost struct BindingView {
    pub name: Seq<char>,
    pub ty: Seq<char>,
    pub is_mut: bool,
}

/// The value of a struct.
pub ghost struct StructView {
    pub name: Seq<char>,
    pub fields: Seq<TypedNameView>,
}

/// The value of a def block.
pub ghost struct DefView {
    pub struct_name: Seq<char>,
    pub defs: Seq<FnView>,
    pub def_for: Option<Seq<char>>,
}

/// The value of a generic block.
pub ghost struct GenView {
    pub methods: Seq<FnView>,
}

/// The value of an import.
pub ghost struct ImportView {
    pub path: Seq<Seq<char>>,
    pub alias: Option<Seq<char>>,
}

/// The value of a declaration.
pub ghost enum DeclView {
    Fn(FnView),
    Const(ConstView),
    Var(BindingView),
    Static(BindingView),
    Struct(StructView),
    Def(DefView),
    Gen(GenView),
}

/// The value of a program.
pub ghost struct ProgramView {
    pub decls: Seq<DeclView>,
    pub imports: Seq<ImportView>,
    pub public: Seq<RtlPub>,
}

/// The values of a list of nodes, in order.
pub open spec fn views<T: View>(nodes: Seq<T>) -> Seq<T::V> {
    nodes.map_values(|node: T| node@)
}

/// The value of an optional name.
pub open spec fn name_view(name: Option<String>) -> Option<Seq<char>> {
    match name {
        Some(text) => Some(text@),
        None => None,
    }
}

/// Appending a node appends its value.
pub proof fn lemma_views_push<T: View>(nodes: Seq<T>, node: T)
    ensures
        views(nodes.push(node)) == views(nodes).push(node@),
{
    assert(views(nodes.push(node)) =~= views(nodes).push(node@));
}

impl View for RtlFnArg {
    type V = TypedNameView;

    open spec fn view(&self) -> TypedNameView {
        TypedNameView { ty: self.ty@, name: self.name@ }
    }
}

impl View for RtlStructField {
    type V = TypedNameView;

    open spec fn view(&self) -> TypedNameView {
        TypedNameView { ty: self.ty@, name: self.name@ }
    }
}

impl View for RtlFn {
    type V = FnView;

    open spec fn view(&self) -> FnView {
        FnView {
            name: self.name@,
            args: views(self.args@),
            ret: self.ret@,
        }
    }
}

impl View for RtlConstExpr {
    type V = ConstView;

    open spec fn view(&self) -> ConstView {
        ConstView { name: self.name@, ty: self.ty@ }
    }
}

impl View for RtlVarExpr {
    type V = BindingView;

    open spec fn view(&self) -> BindingView {
        BindingView { name: self.name@, ty: self.ty@, is_mut: self.is_mut }
    }
}

impl View for RtlStatic {
    type V = BindingView;

    open spec fn view(&self) -> BindingView {
        BindingView { name: self.name@, ty: self.ty@, is_mut: self.is_mut }
    }
}

impl View for RtlStruct {
    type V = StructView;

    open spec fn view(&self) -> StructView {
        StructView {
            name: self.name@,
            fields: views(self.fields@),
        }
    }
}

impl View for RtlDef {
    type V = DefView;

    open spec fn view(&self) -> DefView {
        DefView {
            struct_name: self.struct_name@,
            defs: views(self.defs@),
            def_for: name_view(self.def_for),
        }
    }
}

impl View for RtlGen {
    type V = GenView;

    open spec fn view(&self) -> GenView {
        GenView { methods: views(self.methods@) }
    }
}

impl View for RtlImport {
    type V = ImportView;

    open spec fn view(&self) -> ImportView {
        ImportView {
            path: views(self.path@),
            alias: name_view(self.alias),
        }
    }
}

impl View for RtlDeclValue {
    type V = DeclView;

    open spec fn view(&self) -> DeclView {
        match self {
            RtlDeclValue::RtlFn(function) => DeclView::Fn(function@),
            RtlDeclValue::RtlConst(constant) => DeclView::Const(constant@),
            RtlDeclValue::RtlVar(variable) => DeclView::Var(variable@),
            RtlDeclValue::RtlStatic(item) => DeclView::Static(item@),
            RtlDeclValue::RtlStruct(structure) => DeclView::Struct(structure@),
            RtlDeclValue::RtlDef(def) => DeclView::Def(def@),
            RtlDeclValue::RtlGen(generic) => DeclView::Gen(generic@),
        }
    }
}

impl View for RtlDecl {
    type V = DeclView;

    open spec fn view(&self) -> DeclView {
        self.value@
    }
}

impl View for Rattle {
    type V = ProgramView;

    open spec fn view(&self) -> ProgramView {
        ProgramView {
            decls: views(self.decls@),
            imports: views(self.imports@),
            public: self.public@,
        }
    }
}

} // verus!
