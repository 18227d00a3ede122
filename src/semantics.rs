use vstd::prelude::*;
use crate::ast::{CatchClause, Decl, Declarator, Expr, MemberProp, ForHead, ForInit, Func, Pat, Script, Stmt, SwitchCase, Symbol, VarDecl, VarKind};
use crate::policy::{ListKind, Policy};
use crate::scope::{bind_at, empty_frame, function_frame, resolve, Binding, BindingKind, FrameView};

verus! {

/// A free reference that the policy forbids where it stands.
#[derive(PartialEq, Eq, Structural, Clone, Copy, Debug)]
pub struct Violation {
    pub name: Symbol,
    pub pos: u32,
    pub list: ListKind,
}

/// The violations found in a subtree, in traversal order, and the scope
/// stack after it (frames entered inside the subtree are left again).
pub type Outcome = (Seq<Violation>, Seq<FrameView>);

/// The verdict of a fail-fast pass over code whose violations are `v`:
/// the first of them, if any.
pub open spec fn first(v: Seq<Violation>) -> Result<(), Violation> {
    if v.len() == 0 {
        Ok(())
    } else {
        Err(v[0])
    }
}

pub broadcast proof fn lemma_first_concat(a: Seq<Violation>, b: Seq<Violation>)
    ensures
        #[trigger] first(a + b) == (if a.len() == 0 {
            first(b)
        } else {
            first(a)
        }),
{
    if a.len() == 0 {
        assert(a + b =~= b);
    } else {
        assert((a + b)[0] == a[0]);
    }
}

/// The violation, if any, of a reference to `name` at `pos`.
pub open spec fn ident_viol(
    p: &Policy,
    name: Symbol,
    pos: u32,
    ctx: bool,
    sc: Seq<FrameView>,
) -> Seq<Violation> {
    if resolve(sc, name) is Some {
        Seq::empty()
    } else {
        match p.verdict(name, ctx) {
            Some(list) => seq![Violation { name, pos, list }],
            None => Seq::empty(),
        }
    }
}

/// The path of a call's callee, where it is a name followed by property
/// names (`f` is `[f]`, `a.b.c` is `[a, b, c]`).
pub open spec fn callee_path(e: Expr) -> Option<Seq<Symbol>>
    decreases e,
{
    match e {
        Expr::Ident { name, .. } => Some(seq![name]),
        Expr::Member { obj, prop: MemberProp::Named { name } } => match callee_path(*obj) {
            Some(q) => Some(q.push(name)),
            None => None,
        },
        _ => None,
    }
}

/// The lifetime of argument `i` of a call: a function passed in a handler
/// slot runs in the request lifetime; everything else inherits `ctx`.
pub open spec fn arg_ctx(p: &Policy, callee: Option<Seq<Symbol>>, i: int, arg: Expr, ctx: bool) -> bool {
    ctx || (callee is Some && p.is_slot(callee->0, i) && arg is Function)
}

pub open spec fn expr_viol(p: &Policy, e: Expr, ctx: bool, sc: Seq<FrameView>) -> Outcome
    decreases e, 0int,
{
    match e {
        Expr::Ident { name, pos } => (ident_viol(p, name, pos, ctx, sc), sc),
        Expr::Lit => (Seq::empty(), sc),
        Expr::Member { obj, prop } => {
            let r1 = expr_viol(p, *obj, ctx, sc);
            let r2 = match prop {
                MemberProp::Computed { key } => expr_viol(p, *key, ctx, r1.1),
                MemberProp::Named { .. } => (Seq::empty(), r1.1),
            };
            (r1.0 + r2.0, r2.1)
        },
        Expr::Call { callee, args } => {
            let r1 = expr_viol(p, *callee, ctx, sc);
            let r2 = args_viol(p, callee_path(*callee), args@, 0, ctx, r1.1);
            (r1.0 + r2.0, r2.1)
        },
        Expr::Function { func } => func_viol(p, func, ctx, sc),
        Expr::Compound { parts } => exprs_viol(p, parts@, 0, ctx, sc),
    }
}

pub open spec fn opt_expr_viol(p: &Policy, e: Option<Expr>, ctx: bool, sc: Seq<FrameView>) -> Outcome
    decreases e, 1int,
{
    match e {
        Some(x) => expr_viol(p, x, ctx, sc),
        None => (Seq::empty(), sc),
    }
}

pub open spec fn exprs_viol(p: &Policy, es: Seq<Expr>, i: int, ctx: bool, sc: Seq<FrameView>) -> Outcome
    decreases es, es.len() - i,
{
    if 0 <= i < es.len() {
        let r = expr_viol(p, es[i], ctx, sc);
        let rest = exprs_viol(p, es, i + 1, ctx, r.1);
        (r.0 + rest.0, rest.1)
    } else {
        (Seq::empty(), sc)
    }
}

pub open spec fn args_viol(
    p: &Policy,
    callee: Option<Seq<Symbol>>,
    es: Seq<Expr>,
    i: int,
    ctx: bool,
    sc: Seq<FrameView>,
) -> Outcome
    decreases es, es.len() - i,
{
    if 0 <= i < es.len() {
        let r = expr_viol(p, es[i], arg_ctx(p, callee, i, es[i], ctx), sc);
        let rest = args_viol(p, callee, es, i + 1, ctx, r.1);
        (r.0 + rest.0, rest.1)
    } else {
        (Seq::empty(), sc)
    }
}

/// A function body: parameters bound in a fresh function-level frame, then
/// the body linted in it, in the lifetime `ctx`; the frame is dropped after.
pub open spec fn func_viol(p: &Policy, f: Func, ctx: bool, sc: Seq<FrameView>) -> Outcome
    decreases f, 0int,
{
    let r = pats_viol(p, f.params@, 0, BindingKind::Param, sc.len() as int, true, true, ctx, sc.push(empty_frame(true)));
    let b = stmts_viol(p, f.body@, 0, ctx, r.1);
    (r.0 + b.0, b.1.drop_last())
}

/// A pattern: where `binds`, its names bound into frame `target` with
/// `kind`; where `lints`, its embedded expressions (defaults, computed keys,
/// assignment targets) linted. A declaration does both in one walk.
pub open spec fn pat_viol(
    p: &Policy,
    pat: Pat,
    kind: BindingKind,
    target: int,
    binds: bool,
    lints: bool,
    ctx: bool,
    sc: Seq<FrameView>,
) -> Outcome
    decreases pat, 0int,
{
    match pat {
        Pat::Ident { name } => if binds {
            (Seq::empty(), bind_at(sc, target, Binding { name, kind }))
        } else {
            (Seq::empty(), sc)
        },
        Pat::Array { elems } => pats_viol(p, elems@, 0, kind, target, binds, lints, ctx, sc),
        Pat::Object { props } => pats_viol(p, props@, 0, kind, target, binds, lints, ctx, sc),
        Pat::Keyed { key, value } => {
            let r1 = if lints {
                expr_viol(p, *key, ctx, sc)
            } else {
                (Seq::empty(), sc)
            };
            let r2 = pat_viol(p, *value, kind, target, binds, lints, ctx, r1.1);
            (r1.0 + r2.0, r2.1)
        },
        Pat::Rest { arg } => pat_viol(p, *arg, kind, target, binds, lints, ctx, sc),
        Pat::Assign { left, default } => {
            let r1 = pat_viol(p, *left, kind, target, binds, lints, ctx, sc);
            let r2 = if lints {
                expr_viol(p, *default, ctx, r1.1)
            } else {
                (Seq::empty(), r1.1)
            };
            (r1.0 + r2.0, r2.1)
        },
        Pat::Target { expr } => if lints {
            expr_viol(p, *expr, ctx, sc)
        } else {
            (Seq::empty(), sc)
        },
    }
}

pub open spec fn pats_viol(
    p: &Policy,
    ps: Seq<Pat>,
    i: int,
    kind: BindingKind,
    target: int,
    binds: bool,
    lints: bool,
    ctx: bool,
    sc: Seq<FrameView>,
) -> Outcome
    decreases ps, ps.len() - i,
{
    if 0 <= i < ps.len() {
        let r = pat_viol(p, ps[i], kind, target, binds, lints, ctx, sc);
        let rest = pats_viol(p, ps, i + 1, kind, target, binds, lints, ctx, r.1);
        (r.0 + rest.0, rest.1)
    } else {
        (Seq::empty(), sc)
    }
}

/// The kind of the names that a declaration of `kind` binds.
pub open spec fn var_binding_kind(kind: VarKind, loop_head: bool) -> BindingKind {
    if kind == VarKind::Var {
        BindingKind::FunctionVar
    } else if loop_head {
        BindingKind::LoopVar
    } else {
        BindingKind::BlockVar
    }
}

/// The frame that a declaration of `kind` binds into: `var` goes to the
/// innermost function-level frame, `let` and `const` to the innermost frame.
pub open spec fn var_target(kind: VarKind, sc: Seq<FrameView>) -> int {
    if kind == VarKind::Var {
        function_frame(sc)
    } else {
        sc.len() - 1
    }
}

pub open spec fn var_decl_viol(p: &Policy, d: VarDecl, loop_head: bool, ctx: bool, sc: Seq<FrameView>) -> Outcome
    decreases d, 0int,
{
    declarators_viol(
        p,
        d.decls@,
        0,
        var_binding_kind(d.kind, loop_head),
        var_target(d.kind, sc),
        ctx,
        sc,
    )
}

/// Each declarator binds its pattern, then its initializer is linted.
pub open spec fn declarators_viol(
    p: &Policy,
    ds: Seq<Declarator>,
    i: int,
    kind: BindingKind,
    target: int,
    ctx: bool,
    sc: Seq<FrameView>,
) -> Outcome
    decreases ds, ds.len() - i,
{
    if 0 <= i < ds.len() {
        let r1 = pat_viol(p, ds[i].pat, kind, target, true, true, ctx, sc);
        let r2 = opt_expr_viol(p, ds[i].init, ctx, r1.1);
        let rest = declarators_viol(p, ds, i + 1, kind, target, ctx, r2.1);
        (r1.0 + r2.0 + rest.0, rest.1)
    } else {
        (Seq::empty(), sc)
    }
}

pub open spec fn decl_viol(p: &Policy, d: Decl, ctx: bool, sc: Seq<FrameView>) -> Outcome
    decreases d, 0int,
{
    match d {
        Decl::Fn { name, func } => {
            func_viol(p, func, ctx, bind_at(sc, sc.len() - 1, Binding { name, kind: BindingKind::Declaration }))
        },
        Decl::Class { name, parts } => {
            exprs_viol(p, parts@, 0, ctx, bind_at(sc, sc.len() - 1, Binding { name, kind: BindingKind::Declaration }))
        },
        Decl::Var { decl } => var_decl_viol(p, decl, false, ctx, sc),
    }
}

/// A block: its statements in a fresh frame, which is dropped afterwards.
pub open spec fn block_viol(p: &Policy, ss: Seq<Stmt>, ctx: bool, sc: Seq<FrameView>) -> Outcome
    decreases ss, ss.len() + 1,
{
    let r = stmts_viol(p, ss, 0, ctx, sc.push(empty_frame(false)));
    (r.0, r.1.drop_last())
}

pub open spec fn stmts_viol(p: &Policy, ss: Seq<Stmt>, i: int, ctx: bool, sc: Seq<FrameView>) -> Outcome
    decreases ss, ss.len() - i,
{
    if 0 <= i < ss.len() {
        let r = stmt_viol(p, ss[i], ctx, sc);
        let rest = stmts_viol(p, ss, i + 1, ctx, r.1);
        (r.0 + rest.0, rest.1)
    } else {
        (Seq::empty(), sc)
    }
}

pub open spec fn cases_viol(p: &Policy, cs: Seq<SwitchCase>, i: int, ctx: bool, sc: Seq<FrameView>) -> Outcome
    decreases cs, cs.len() - i,
{
    if 0 <= i < cs.len() {
        let r1 = opt_expr_viol(p, cs[i].test, ctx, sc);
        let r2 = stmts_viol(p, cs[i].cons@, 0, ctx, r1.1);
        let rest = cases_viol(p, cs, i + 1, ctx, r2.1);
        (r1.0 + r2.0 + rest.0, rest.1)
    } else {
        (Seq::empty(), sc)
    }
}

/// A catch clause: the caught pattern's names bound in a fresh frame, then
/// the body linted, then the pattern's own expressions (defaults, computed
/// keys) linted; the frame is dropped afterwards.
pub open spec fn catch_viol(p: &Policy, h: CatchClause, ctx: bool, sc: Seq<FrameView>) -> Outcome
    decreases h, 0int,
{
    let sc1 = sc.push(empty_frame(false));
    let names = match h.param {
        Some(pt) => pat_viol(p, pt, BindingKind::CatchParam, sc.len() as int, true, false, ctx, sc1),
        None => (Seq::empty(), sc1),
    };
    let b = stmts_viol(p, h.body@, 0, ctx, names.1);
    let e = match h.param {
        Some(pt) => pat_viol(p, pt, BindingKind::CatchParam, sc.len() as int, false, true, ctx, b.1),
        None => (Seq::empty(), b.1),
    };
    (names.0 + b.0 + e.0, e.1.drop_last())
}

pub open spec fn head_viol(p: &Policy, h: ForHead, ctx: bool, sc: Seq<FrameView>) -> Outcome
    decreases h, 0int,
{
    match h {
        ForHead::Var { decl } => var_decl_viol(p, decl, true, ctx, sc),
        ForHead::Pat { pat } => pat_viol(p, pat, BindingKind::LoopVar, sc.len() - 1, true, true, ctx, sc),
    }
}

pub open spec fn init_viol(p: &Policy, init: Option<ForInit>, ctx: bool, sc: Seq<FrameView>) -> Outcome
    decreases init, 0int,
{
    match init {
        Some(ForInit::Var { decl }) => var_decl_viol(p, decl, false, ctx, sc),
        Some(ForInit::Expr { expr }) => expr_viol(p, expr, ctx, sc),
        None => (Seq::empty(), sc),
    }
}

pub open spec fn stmt_viol(p: &Policy, s: Stmt, ctx: bool, sc: Seq<FrameView>) -> Outcome
    decreases s, 0int,
{
    match s {
        Stmt::Block { stmts } => block_viol(p, stmts@, ctx, sc),
        Stmt::Empty | Stmt::Debugger | Stmt::Break | Stmt::Continue => (Seq::empty(), sc),
        Stmt::With { obj, body } => {
            let r1 = expr_viol(p, obj, ctx, sc);
            let r2 = stmt_viol(p, *body, ctx, r1.1);
            (r1.0 + r2.0, r2.1)
        },
        Stmt::Return { arg } => opt_expr_viol(p, arg, ctx, sc),
        Stmt::Labeled { body } => stmt_viol(p, *body, ctx, sc),
        Stmt::If { test, cons, alt } => {
            let r0 = expr_viol(p, test, ctx, sc);
            let r1 = stmt_viol(p, *cons, ctx, r0.1);
            let r2 = match alt {
                Some(a) => stmt_viol(p, *a, ctx, r1.1),
                None => (Seq::empty(), r1.1),
            };
            (r0.0 + r1.0 + r2.0, r2.1)
        },
        Stmt::Switch { discriminant, cases } => {
            let r0 = expr_viol(p, discriminant, ctx, sc);
            let r = cases_viol(p, cases@, 0, ctx, r0.1.push(empty_frame(false)));
            (r0.0 + r.0, r.1.drop_last())
        },
        Stmt::Throw { arg } => expr_viol(p, arg, ctx, sc),
        Stmt::Try { block, handler, finalizer } => {
            let r1 = block_viol(p, block@, ctx, sc);
            let r2 = match handler {
                Some(h) => catch_viol(p, h, ctx, r1.1),
                None => (Seq::empty(), r1.1),
            };
            let r3 = match finalizer {
                Some(f) => block_viol(p, f@, ctx, r2.1),
                None => (Seq::empty(), r2.1),
            };
            (r1.0 + r2.0 + r3.0, r3.1)
        },
        Stmt::While { test, body } | Stmt::DoWhile { body, test } => {
            let r0 = expr_viol(p, test, ctx, sc);
            let r = stmt_viol(p, *body, ctx, r0.1);
            (r0.0 + r.0, r.1)
        },
        Stmt::For { init, test, update, body } => {
            let r1 = init_viol(p, init, ctx, sc.push(empty_frame(false)));
            let r2 = opt_expr_viol(p, test, ctx, r1.1);
            let r3 = opt_expr_viol(p, update, ctx, r2.1);
            let r4 = stmt_viol(p, *body, ctx, r3.1);
            (r1.0 + r2.0 + r3.0 + r4.0, r4.1.drop_last())
        },
        Stmt::ForIn { left, right, body } | Stmt::ForOf { left, right, body } => {
            let r1 = head_viol(p, left, ctx, sc.push(empty_frame(false)));
            let r2 = expr_viol(p, right, ctx, r1.1);
            let r3 = stmt_viol(p, *body, ctx, r2.1);
            (r1.0 + r2.0 + r3.0, r3.1.drop_last())
        },
        Stmt::Decl { decl } => decl_viol(p, decl, ctx, sc),
        Stmt::Expr { expr } => expr_viol(p, expr, ctx, sc),
    }
}

/// Every violation of a script, in traversal order: the script runs in the
/// global lifetime, in a single function-level frame.
pub open spec fn script_viol(p: &Policy, s: Script) -> Seq<Violation> {
    stmts_viol(p, s.body@, 0, false, seq![empty_frame(true)]).0
}

} // verus!
