//! The syntax the analyzer walks: expressions, statements, class
//! bodies and module items of the checked language, as produced by a
//! parser. Type annotations are written directly in the structural
//! type language (`ty::Type`), with `Ref` and `Query` as the
//! unresolved forms.

use vstd::prelude::*;

use crate::ty::{EnumMember, LitValue, PropKey, Span, Type, TypeElement, TypeParamDecl};

verus! {

#[derive(Clone, Copy, Debug, PartialEq, Eq, Structural)]
pub enum UnaryOp {
    Not,
    TypeOf,
    Void,
    Minus,
    Plus,
}

#[derive(Clone, Copy, Debug, PartialEq, Eq, Structural)]
pub enum BinOp {
    EqEq,
    NotEq,
    StrictEq,
    StrictNotEq,
    Lt,
    LtEq,
    Gt,
    GtEq,
    Add,
    Sub,
    Mul,
    Div,
    Mod,
    Or,
    And,
}

#[derive(Clone, Copy, Debug, PartialEq, Eq, Structural)]
pub enum VarDeclKind {
    Var,
    Let,
    Const,
}

#[derive(Clone, Copy, Debug, PartialEq, Eq, Structural)]
pub enum MethodKind {
    Normal,
    Getter,
    Setter,
}

/// A declared formal parameter (an identifier pattern, possibly
/// optional, possibly annotated).
#[derive(Debug)]
pub struct Param {
    pub span: Span,
    pub name: String,
    pub optional: bool,
    pub ty: Option<Type>,
}

/// The shared shape of function declarations, function expressions,
/// methods and arrows.
#[derive(Debug)]
pub struct FnData {
    pub span: Span,
    pub params: Vec<Param>,
    pub type_params: Vec<TypeParamDecl>,
    pub return_type: Option<Type>,
    pub body: Option<Vec<Stmt>>,
}

#[derive(Debug)]
pub enum ArrayElem {
    /// An elision (hole) in an array literal.
    Hole,
    Item(Expr),
    Spread(Expr),
}

#[derive(Debug)]
pub enum ObjectProp {
    Prop { span: Span, key: PropKey, value: Option<Box<Expr>> },
    Spread { span: Span },
}

#[derive(Debug)]
pub enum Callee {
    Expr(Box<Expr>),
    SuperCallee { span: Span },
}

#[derive(Debug)]
pub enum AssignTarget {
    Ident { span: Span, name: String },
    Member { span: Span, obj: Box<Expr>, prop: Box<Expr>, computed: bool },
    Other { span: Span },
}

#[derive(Debug)]
pub enum Expr {
    This { span: Span },
    Ident { span: Span, name: String },
    Lit { span: Span, lit: LitValue },
    NullLit { span: Span },
    RegexLit { span: Span },
    TplLit { span: Span },
    Array { span: Span, elems: Vec<ArrayElem> },
    Object { span: Span, props: Vec<ObjectProp> },
    Paren { span: Span, expr: Box<Expr> },
    Unary { span: Span, op: UnaryOp, arg: Box<Expr> },
    Update { span: Span, arg: Box<Expr> },
    Bin { span: Span, op: BinOp, left: Box<Expr>, right: Box<Expr> },
    Cond { span: Span, test: Box<Expr>, cons: Box<Expr>, alt: Box<Expr> },
    Call { span: Span, callee: Callee, args: Vec<Expr>, type_args: Vec<Type> },
    New { span: Span, callee: Box<Expr>, args: Vec<Expr>, type_args: Vec<Type> },
    SeqExpr { span: Span, exprs: Vec<Expr> },
    Member { span: Span, obj: Box<Expr>, prop: Box<Expr>, computed: bool },
    Assign { span: Span, target: AssignTarget, right: Box<Expr> },
    /// An arrow function; `expr_body` holds the body when it is a bare
    /// expression rather than a block.
    ArrowFn { span: Span, func: FnData, expr_body: Option<Box<Expr>> },
    FnExpr { span: Span, name: Option<String>, func: FnData },
    ClassExpr { span: Span, name: Option<String>, class: ClassData },
    /// `e as T`, and the older cast form `<T> e`.
    TsAs { span: Span, expr: Box<Expr>, to: Type },
    TsNonNull { span: Span, expr: Box<Expr> },
    YieldExpr { span: Span },
    AwaitExpr { span: Span, arg: Box<Expr> },
    MetaProp { span: Span },
}

/// A class member key: a plain property key, or a computed one
/// carrying the key expression.
#[derive(Debug)]
pub enum MemberKey {
    Plain(PropKey),
    Computed { span: Span, expr: Box<Expr> },
}

/// A constructor parameter; `is_param_prop` marks the parameter
/// property form (`constructor(private x: T)`).
#[derive(Debug)]
pub struct CtorParam {
    pub span: Span,
    pub param: Param,
    pub is_param_prop: bool,
}

#[derive(Debug)]
pub enum ClassMember {
    Constructor { span: Span, key_span: Span, params: Vec<CtorParam>, body: Option<Vec<Stmt>> },
    Method { span: Span, key: MemberKey, kind: MethodKind, func: FnData },
    Prop { span: Span, key: MemberKey, ty: Option<Type>, value: Option<Box<Expr>> },
    IndexSig { span: Span },
}

#[derive(Debug)]
pub struct ClassData {
    pub span: Span,
    pub body: Vec<ClassMember>,
}

#[derive(Debug)]
pub struct VarDeclarator {
    pub span: Span,
    pub name: String,
    pub name_span: Span,
    pub ty: Option<Type>,
    pub init: Option<Expr>,
}

#[derive(Debug)]
pub struct VarDecl {
    pub span: Span,
    pub kind: VarDeclKind,
    pub declare: bool,
    pub decls: Vec<VarDeclarator>,
}

#[derive(Debug)]
pub enum Stmt {
    ExprStmt { span: Span, expr: Expr },
    Block { span: Span, stmts: Vec<Stmt> },
    VarDeclStmt { decl: VarDecl },
    Return { span: Span, arg: Option<Expr> },
    If { span: Span, test: Expr, cons: Box<Stmt>, alt: Option<Box<Stmt>> },
    FnDecl { span: Span, name: String, name_span: Span, declare: bool, func: FnData },
    ClassDecl { span: Span, name: String, name_span: Span, declare: bool, class: ClassData },
    EnumDecl { span: Span, name: String, members: Vec<EnumMember> },
    InterfaceDecl {
        span: Span,
        name: String,
        type_params: Vec<TypeParamDecl>,
        body: Vec<TypeElement>,
        parents: Vec<String>,
    },
    TypeAliasDecl { span: Span, name: String, type_params: Vec<TypeParamDecl>, ty: Type },
    Empty { span: Span },
}

/// One local name bound by an import, with the exported name it takes.
#[derive(Debug)]
pub struct Specifier {
    pub local: (String, Span),
    pub export: (String, Span),
}

/// One import declaration (or `require` call): its source specifier,
/// the requested items, and whether every export is requested.
#[derive(Debug)]
pub struct ImportInfo {
    pub span: Span,
    pub items: Vec<Specifier>,
    pub all: bool,
    pub src: String,
}

#[derive(Debug)]
pub enum ModuleItem {
    Stmt(Stmt),
    Import { import: ImportInfo },
    ExportDecl { span: Span, decl: Stmt },
    ExportDefaultExpr { span: Span, expr: Expr },
}

/// A parsed module: the unit of analysis.
#[derive(Debug)]
pub struct Module {
    pub span: Span,
    pub items: Vec<ModuleItem>,
}

} // verus!
