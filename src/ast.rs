use vstd::prelude::*;

verus! {

/// An interned identifier: equal names carry equal symbols.
pub type Symbol = u64;

/// A JavaScript expression, reduced to what the lint pass reads.
pub enum Expr {
    /// A reference to a name, with the byte offset of the reference.
    Ident { name: Symbol, pos: u32 },
    /// A literal, `this`, or any other leaf without sub-expressions.
    Lit,
    /// `obj.name` or `obj[key]`.
    Member { obj: Box<Expr>, prop: MemberProp },
    /// A call `callee(args...)`.
    Call { callee: Box<Expr>, args: Vec<Expr> },
    /// A function or arrow expression (also class and object methods).
    Function { func: Func },
    /// Any other operator node; its parts in evaluation order.
    Compound { parts: Vec<Expr> },
}

/// The property of a member access.
pub enum MemberProp {
    /// A property name (`obj.name`, also `obj.#name`); never a reference.
    Named { name: Symbol },
    /// A computed key (`obj[key]`), which is an expression.
    Computed { key: Box<Expr> },
}

/// A binding pattern.
pub enum Pat {
    /// Binds one name.
    Ident { name: Symbol },
    /// `[a, b, ...]`; holes are left out.
    Array { elems: Vec<Pat> },
    /// `{a, b: c, ...}`: the patterns of the property values.
    Object { props: Vec<Pat> },
    /// A property with a computed key, `{[key]: value}`.
    Keyed { key: Box<Expr>, value: Box<Pat> },
    /// `...rest`.
    Rest { arg: Box<Pat> },
    /// `left = default`.
    Assign { left: Box<Pat>, default: Box<Expr> },
    /// An assignment target that is not a binding (`for (a.b in o)`).
    Target { expr: Box<Expr> },
}

/// Parameters and body of a function; an arrow with an expression body
/// has a single `return` statement as its body.
pub struct Func {
    pub params: Vec<Pat>,
    pub body: Vec<Stmt>,
}

/// The keyword of a variable declaration.
#[derive(PartialEq, Eq, Structural, Clone, Copy)]
pub enum VarKind {
    Var,
    Let,
    Const,
}

/// One `pattern = init` of a variable declaration.
pub struct Declarator {
    pub pat: Pat,
    pub init: Option<Expr>,
}

/// A `var`, `let` or `const` declaration.
pub struct VarDecl {
    pub kind: VarKind,
    pub decls: Vec<Declarator>,
}

/// A declaration statement.
pub enum Decl {
    /// `function name(params) { body }`
    Fn { name: Symbol, func: Func },
    /// `class name extends ... { ... }`: the heritage and members in order.
    Class { name: Symbol, parts: Vec<Expr> },
    Var { decl: VarDecl },
}

/// The initializer of a counted `for` loop.
pub enum ForInit {
    Var { decl: VarDecl },
    Expr { expr: Expr },
}

/// The left side of `for (left in/of right)`.
pub enum ForHead {
    /// A declaration, `for (let x of xs)`.
    Var { decl: VarDecl },
    /// A pattern whose names are bound as loop variables; an existing
    /// assignment target is written as `Pat::Target`.
    Pat { pat: Pat },
}

/// One `case test:` (or `default:`, with no test) and its statements.
pub struct SwitchCase {
    pub test: Option<Expr>,
    pub cons: Vec<Stmt>,
}

/// `catch (param) { body }`.
pub struct CatchClause {
    pub param: Option<Pat>,
    pub body: Vec<Stmt>,
}

/// A JavaScript statement.
pub enum Stmt {
    Block { stmts: Vec<Stmt> },
    Empty,
    Debugger,
    With { obj: Expr, body: Box<Stmt> },
    Return { arg: Option<Expr> },
    Labeled { body: Box<Stmt> },
    Break,
    Continue,
    If { test: Expr, cons: Box<Stmt>, alt: Option<Box<Stmt>> },
    Switch { discriminant: Expr, cases: Vec<SwitchCase> },
    Throw { arg: Expr },
    Try { block: Vec<Stmt>, handler: Option<CatchClause>, finalizer: Option<Vec<Stmt>> },
    While { test: Expr, body: Box<Stmt> },
    DoWhile { body: Box<Stmt>, test: Expr },
    For { init: Option<ForInit>, test: Option<Expr>, update: Option<Expr>, body: Box<Stmt> },
    ForIn { left: ForHead, right: Expr, body: Box<Stmt> },
    ForOf { left: ForHead, right: Expr, body: Box<Stmt> },
    Decl { decl: Decl },
    Expr { expr: Expr },
}

/// A whole program: the statements run at load time.
pub struct Script {
    pub body: Vec<Stmt>,
}

} // verus!
