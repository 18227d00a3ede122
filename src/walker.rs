use vstd::prelude::*;
use crate::ast::{
    CatchClause, Decl, Declarator, Expr, MemberProp, ForHead, ForInit, Func, Pat, Script, Stmt, SwitchCase,
    Symbol, VarDecl, VarKind,
};
use crate::policy::Policy;
use crate::scope::{
    lemma_stack_extends_bind, lemma_stack_extends_pop, lemma_stack_extends_refl,
    lemma_stack_extends_trans, stack_extends, Binding, BindingKind, FrameView, ScopeStack,
};
use crate::semantics::{
    args_viol, block_viol, callee_path, cases_viol, catch_viol, decl_viol, declarators_viol,
    expr_viol, exprs_viol, first, func_viol, head_viol, init_viol, lemma_first_concat,
    opt_expr_viol, pat_viol, pats_viol, script_viol, stmt_viol, stmts_viol, var_decl_viol,
    Outcome, Violation,
};

verus! {

broadcast use
    lemma_first_concat,
    lemma_stack_extends_refl,
    lemma_stack_extends_trans,
    lemma_stack_extends_bind,
    lemma_stack_extends_pop,
;

/// A fail-fast pass that returned `r` and left the stack at `after` agrees
/// with the outcome `o` of the code it walked from `before`: it reports the
/// first violation; whether it fails or not, every frame it entered is left
/// again and the frames it found keep their bindings (they may gain more);
/// on success it leaves the stack as `o` does.
pub open spec fn agrees(
    r: Result<(), Violation>,
    o: Outcome,
    before: Seq<FrameView>,
    after: Seq<FrameView>,
) -> bool {
    &&& r == first(o.0)
    &&& stack_extends(before, after)
    &&& r is Ok ==> after == o.1
}

/// The view of a callee path.
pub open spec fn path_view(c: Option<Vec<Symbol>>) -> Option<Seq<Symbol>> {
    match c {
        Some(v) => Some(v@),
        None => None,
    }
}

/// The path of a call's callee, where it has one.
pub fn callee_path_of(e: &Expr) -> (r: Option<Vec<Symbol>>)
    ensures
        path_view(r) == callee_path(*e),
    decreases e,
{
    match e {
        Expr::Ident { name, .. } => {
            let mut v: Vec<Symbol> = Vec::new();
            v.push(*name);
            assert(v@ =~= seq![*name]);
            Some(v)
        },
        Expr::Member { obj, prop: MemberProp::Named { name } } => match callee_path_of(obj) {
            Some(mut v) => {
                v.push(*name);
                Some(v)
            },
            None => None,
        },
        _ => None,
    }
}

/// Lints an expression.
pub fn lint_expr(p: &Policy, e: &Expr, ctx: bool, sc: &mut ScopeStack) -> (r: Result<(), Violation>)
    requires
        old(sc)@.len() > 0,
    ensures
        agrees(r, expr_viol(p, *e, ctx, old(sc)@), old(sc)@, final(sc)@),
    decreases e, 0int,
{
    match e {
        Expr::Ident { name, pos } => {
            if sc.resolve(*name).is_some() {
                Ok(())
            } else {
                match p.check(*name, ctx) {
                    Some(list) => Err(Violation { name: *name, pos: *pos, list }),
                    None => Ok(()),
                }
            }
        },
        Expr::Lit => Ok(()),
        Expr::Member { obj, prop } => {
            lint_expr(p, obj, ctx, sc)?;
            match prop {
                MemberProp::Computed { key } => lint_expr(p, key, ctx, sc),
                MemberProp::Named { .. } => Ok(()),
            }
        },
        Expr::Call { callee, args } => {
            lint_expr(p, callee, ctx, sc)?;
            let path = callee_path_of(callee);
            lint_args(p, &path, args, 0, ctx, sc)
        },
        Expr::Function { func } => lint_func(p, func, ctx, sc),
        Expr::Compound { parts } => lint_exprs(p, parts, 0, ctx, sc),
    }
}

fn lint_opt_expr(p: &Policy, e: &Option<Expr>, ctx: bool, sc: &mut ScopeStack) -> (r: Result<
    (),
    Violation,
>)
    requires
        old(sc)@.len() > 0,
    ensures
        agrees(r, opt_expr_viol(p, *e, ctx, old(sc)@), old(sc)@, final(sc)@),
    decreases e, 1int,
{
    match e {
        Some(x) => lint_expr(p, x, ctx, sc),
        None => Ok(()),
    }
}

fn lint_exprs(p: &Policy, es: &Vec<Expr>, i: usize, ctx: bool, sc: &mut ScopeStack) -> (r: Result<
    (),
    Violation,
>)
    requires
        old(sc)@.len() > 0,
    ensures
        agrees(r, exprs_viol(p, es@, i as int, ctx, old(sc)@), old(sc)@, final(sc)@),
    decreases es@, es@.len() - i,
{
    if i >= es.len() {
        return Ok(());
    }
    lint_expr(p, &es[i], ctx, sc)?;
    lint_exprs(p, es, i + 1, ctx, sc)
}

/// Lints the arguments of a call from argument `i` on; a function in a
/// handler slot of `callee` is linted in the request lifetime.
fn lint_args(
    p: &Policy,
    callee: &Option<Vec<Symbol>>,
    es: &Vec<Expr>,
    i: usize,
    ctx: bool,
    sc: &mut ScopeStack,
) -> (r: Result<(), Violation>)
    requires
        old(sc)@.len() > 0,
    ensures
        agrees(r, args_viol(p, path_view(*callee), es@, i as int, ctx, old(sc)@), old(sc)@, final(sc)@),
    decreases es@, es@.len() - i,
{
    if i >= es.len() {
        return Ok(());
    }
    let a = &es[i];
    let in_slot = match callee {
        Some(c) => matches!(a, Expr::Function { .. }) && p.slot(c, i),
        None => false,
    };
    lint_expr(p, a, ctx || in_slot, sc)?;
    lint_args(p, callee, es, i + 1, ctx, sc)
}

fn lint_func(p: &Policy, f: &Func, ctx: bool, sc: &mut ScopeStack) -> (r: Result<(), Violation>)
    requires
        old(sc)@.len() > 0,
    ensures
        agrees(r, func_viol(p, *f, ctx, old(sc)@), old(sc)@, final(sc)@),
    decreases f, 0int,
{
    let target = sc.depth();
    sc.push_frame(true);
    let r1 = lint_pats(p, &f.params, 0, BindingKind::Param, target, true, true, ctx, sc);
    if r1.is_err() {
        sc.pop_frame();
        return r1;
    }
    let r2 = lint_stmts(p, &f.body, 0, ctx, sc);
    sc.pop_frame();
    r2
}

fn lint_pat(
    p: &Policy,
    pat: &Pat,
    kind: BindingKind,
    target: usize,
    binds: bool,
    lints: bool,
    ctx: bool,
    sc: &mut ScopeStack,
) -> (r: Result<(), Violation>)
    requires
        target < old(sc)@.len(),
    ensures
        agrees(
            r,
            pat_viol(p, *pat, kind, target as int, binds, lints, ctx, old(sc)@),
            old(sc)@,
            final(sc)@,
        ),
    decreases pat, 0int,
{
    match pat {
        Pat::Ident { name } => {
            if binds {
                sc.bind(target, Binding { name: *name, kind });
            }
            Ok(())
        },
        Pat::Array { elems } => lint_pats(p, elems, 0, kind, target, binds, lints, ctx, sc),
        Pat::Object { props } => lint_pats(p, props, 0, kind, target, binds, lints, ctx, sc),
        Pat::Keyed { key, value } => {
            if lints {
                lint_expr(p, key, ctx, sc)?;
            }
            lint_pat(p, value, kind, target, binds, lints, ctx, sc)
        },
        Pat::Rest { arg } => lint_pat(p, arg, kind, target, binds, lints, ctx, sc),
        Pat::Assign { left, default } => {
            lint_pat(p, left, kind, target, binds, lints, ctx, sc)?;
            if lints {
                lint_expr(p, default, ctx, sc)
            } else {
                Ok(())
            }
        },
        Pat::Target { expr } => if lints {
            lint_expr(p, expr, ctx, sc)
        } else {
            Ok(())
        },
    }
}

fn lint_pats(
    p: &Policy,
    ps: &Vec<Pat>,
    i: usize,
    kind: BindingKind,
    target: usize,
    binds: bool,
    lints: bool,
    ctx: bool,
    sc: &mut ScopeStack,
) -> (r: Result<(), Violation>)
    requires
        target < old(sc)@.len(),
    ensures
        agrees(
            r,
            pats_viol(p, ps@, i as int, kind, target as int, binds, lints, ctx, old(sc)@),
            old(sc)@,
            final(sc)@,
        ),
    decreases ps@, ps@.len() - i,
{
    if i >= ps.len() {
        return Ok(());
    }
    lint_pat(p, &ps[i], kind, target, binds, lints, ctx, sc)?;
    lint_pats(p, ps, i + 1, kind, target, binds, lints, ctx, sc)
}

fn lint_var_decl(p: &Policy, d: &VarDecl, loop_head: bool, ctx: bool, sc: &mut ScopeStack) -> (r:
    Result<(), Violation>)
    requires
        old(sc)@.len() > 0,
    ensures
        agrees(r, var_decl_viol(p, *d, loop_head, ctx, old(sc)@), old(sc)@, final(sc)@),
    decreases d, 0int,
{
    let kind = if d.kind == VarKind::Var {
        BindingKind::FunctionVar
    } else if loop_head {
        BindingKind::LoopVar
    } else {
        BindingKind::BlockVar
    };
    let target = if d.kind == VarKind::Var {
        sc.function_frame()
    } else {
        sc.depth() - 1
    };
    lint_declarators(p, &d.decls, 0, kind, target, ctx, sc)
}

fn lint_declarators(
    p: &Policy,
    ds: &Vec<Declarator>,
    i: usize,
    kind: BindingKind,
    target: usize,
    ctx: bool,
    sc: &mut ScopeStack,
) -> (r: Result<(), Violation>)
    requires
        target < old(sc)@.len(),
    ensures
        agrees(
            r,
            declarators_viol(p, ds@, i as int, kind, target as int, ctx, old(sc)@),
            old(sc)@,
            final(sc)@,
        ),
    decreases ds@, ds@.len() - i,
{
    if i >= ds.len() {
        return Ok(());
    }
    let d = &ds[i];
    lint_pat(p, &d.pat, kind, target, true, true, ctx, sc)?;
    lint_opt_expr(p, &d.init, ctx, sc)?;
    lint_declarators(p, ds, i + 1, kind, target, ctx, sc)
}

fn lint_decl(p: &Policy, d: &Decl, ctx: bool, sc: &mut ScopeStack) -> (r: Result<(), Violation>)
    requires
        old(sc)@.len() > 0,
    ensures
        agrees(r, decl_viol(p, *d, ctx, old(sc)@), old(sc)@, final(sc)@),
    decreases d, 0int,
{
    match d {
        Decl::Fn { name, func } => {
            let top = sc.depth() - 1;
            let ghost before = sc@;
            sc.bind(top, Binding { name: *name, kind: BindingKind::Declaration });
            assert(stack_extends(before, sc@));
            lint_func(p, func, ctx, sc)
        },
        Decl::Class { name, parts } => {
            let top = sc.depth() - 1;
            let ghost before = sc@;
            sc.bind(top, Binding { name: *name, kind: BindingKind::Declaration });
            assert(stack_extends(before, sc@));
            lint_exprs(p, parts, 0, ctx, sc)
        },
        Decl::Var { decl } => lint_var_decl(p, decl, false, ctx, sc),
    }
}

fn lint_block(p: &Policy, ss: &Vec<Stmt>, ctx: bool, sc: &mut ScopeStack) -> (r: Result<
    (),
    Violation,
>)
    requires
        old(sc)@.len() > 0,
    ensures
        agrees(r, block_viol(p, ss@, ctx, old(sc)@), old(sc)@, final(sc)@),
    decreases ss@, ss@.len() + 1,
{
    sc.push_frame(false);
    let r = lint_stmts(p, ss, 0, ctx, sc);
    sc.pop_frame();
    r
}

/// Lints statements `i..` of a statement list, in order.
pub fn lint_stmts(p: &Policy, ss: &Vec<Stmt>, i: usize, ctx: bool, sc: &mut ScopeStack) -> (r:
    Result<(), Violation>)
    requires
        old(sc)@.len() > 0,
    ensures
        agrees(r, stmts_viol(p, ss@, i as int, ctx, old(sc)@), old(sc)@, final(sc)@),
    decreases ss@, ss@.len() - i,
{
    if i >= ss.len() {
        return Ok(());
    }
    let ghost o = stmts_viol(p, ss@, i as int, ctx, old(sc)@);
    let mut k: usize = i;
    while k < ss.len()
        invariant
            i <= k <= ss@.len(),
            old(sc)@.len() > 0,
            o == stmts_viol(p, ss@, i as int, ctx, old(sc)@),
            stack_extends(old(sc)@, sc@),
            first(o.0) == first(stmts_viol(p, ss@, k as int, ctx, sc@).0),
            o.1 == stmts_viol(p, ss@, k as int, ctx, sc@).1,
        decreases ss@.len() - k,
    {
        lint_stmt(p, &ss[k], ctx, sc)?;
        k = k + 1;
    }
    Ok(())
}

fn lint_cases(p: &Policy, cs: &Vec<SwitchCase>, i: usize, ctx: bool, sc: &mut ScopeStack) -> (r:
    Result<(), Violation>)
    requires
        old(sc)@.len() > 0,
    ensures
        agrees(r, cases_viol(p, cs@, i as int, ctx, old(sc)@), old(sc)@, final(sc)@),
    decreases cs@, cs@.len() - i,
{
    if i >= cs.len() {
        return Ok(());
    }
    let c = &cs[i];
    lint_opt_expr(p, &c.test, ctx, sc)?;
    lint_stmts(p, &c.cons, 0, ctx, sc)?;
    lint_cases(p, cs, i + 1, ctx, sc)
}

fn lint_catch(p: &Policy, h: &CatchClause, ctx: bool, sc: &mut ScopeStack) -> (r: Result<
    (),
    Violation,
>)
    requires
        old(sc)@.len() > 0,
    ensures
        agrees(r, catch_viol(p, *h, ctx, old(sc)@), old(sc)@, final(sc)@),
    decreases h, 0int,
{
    let target = sc.depth();
    sc.push_frame(false);
    let r1 = match &h.param {
        Some(pt) => lint_pat(p, pt, BindingKind::CatchParam, target, true, false, ctx, sc),
        None => Ok(()),
    };
    if r1.is_err() {
        sc.pop_frame();
        return r1;
    }
    let r2 = lint_stmts(p, &h.body, 0, ctx, sc);
    if r2.is_err() {
        sc.pop_frame();
        return r2;
    }
    let r3 = match &h.param {
        Some(pt) => lint_pat(p, pt, BindingKind::CatchParam, target, false, true, ctx, sc),
        None => Ok(()),
    };
    sc.pop_frame();
    r3
}

fn lint_head(p: &Policy, h: &ForHead, ctx: bool, sc: &mut ScopeStack) -> (r: Result<(), Violation>)
    requires
        old(sc)@.len() > 0,
    ensures
        agrees(r, head_viol(p, *h, ctx, old(sc)@), old(sc)@, final(sc)@),
    decreases h, 0int,
{
    match h {
        ForHead::Var { decl } => lint_var_decl(p, decl, true, ctx, sc),
        ForHead::Pat { pat } => {
            let top = sc.depth() - 1;
            lint_pat(p, pat, BindingKind::LoopVar, top, true, true, ctx, sc)
        },
    }
}

fn lint_init(p: &Policy, init: &Option<ForInit>, ctx: bool, sc: &mut ScopeStack) -> (r: Result<
    (),
    Violation,
>)
    requires
        old(sc)@.len() > 0,
    ensures
        agrees(r, init_viol(p, *init, ctx, old(sc)@), old(sc)@, final(sc)@),
    decreases init, 0int,
{
    match init {
        Some(ForInit::Var { decl }) => lint_var_decl(p, decl, false, ctx, sc),
        Some(ForInit::Expr { expr }) => lint_expr(p, expr, ctx, sc),
        None => Ok(()),
    }
}

/// Lints one statement.
pub fn lint_stmt(p: &Policy, s: &Stmt, ctx: bool, sc: &mut ScopeStack) -> (r: Result<(), Violation>)
    requires
        old(sc)@.len() > 0,
    ensures
        agrees(r, stmt_viol(p, *s, ctx, old(sc)@), old(sc)@, final(sc)@),
    decreases s, 0int,
{
    match s {
        Stmt::Block { stmts } => lint_block(p, stmts, ctx, sc),
        Stmt::Empty | Stmt::Debugger | Stmt::Break | Stmt::Continue => Ok(()),
        Stmt::With { obj, body } => {
            lint_expr(p, obj, ctx, sc)?;
            lint_stmt(p, body, ctx, sc)
        },
        Stmt::Return { arg } => lint_opt_expr(p, arg, ctx, sc),
        Stmt::Labeled { body } => lint_stmt(p, body, ctx, sc),
        Stmt::If { test, cons, alt } => {
            lint_expr(p, test, ctx, sc)?;
            lint_stmt(p, cons, ctx, sc)?;
            match alt {
                Some(a) => lint_stmt(p, a, ctx, sc),
                None => Ok(()),
            }
        },
        Stmt::Switch { discriminant, cases } => {
            lint_expr(p, discriminant, ctx, sc)?;
            sc.push_frame(false);
            let r = lint_cases(p, cases, 0, ctx, sc);
            sc.pop_frame();
            r
        },
        Stmt::Throw { arg } => lint_expr(p, arg, ctx, sc),
        Stmt::Try { block, handler, finalizer } => {
            lint_block(p, block, ctx, sc)?;
            match handler {
                Some(h) => lint_catch(p, h, ctx, sc)?,
                None => {},
            }
            match finalizer {
                Some(f) => lint_block(p, f, ctx, sc),
                None => Ok(()),
            }
        },
        Stmt::While { test, body } | Stmt::DoWhile { body, test } => {
            lint_expr(p, test, ctx, sc)?;
            lint_stmt(p, body, ctx, sc)
        },
        Stmt::For { init, test, update, body } => {
            sc.push_frame(false);
            let r1 = lint_init(p, init, ctx, sc);
            if r1.is_err() {
                sc.pop_frame();
                return r1;
            }
            let r2 = lint_opt_expr(p, test, ctx, sc);
            if r2.is_err() {
                sc.pop_frame();
                return r2;
            }
            let r3 = lint_opt_expr(p, update, ctx, sc);
            if r3.is_err() {
                sc.pop_frame();
                return r3;
            }
            let r4 = lint_stmt(p, body, ctx, sc);
            sc.pop_frame();
            r4
        },
        Stmt::ForIn { left, right, body } | Stmt::ForOf { left, right, body } => {
            sc.push_frame(false);
            let r1 = lint_head(p, left, ctx, sc);
            if r1.is_err() {
                sc.pop_frame();
                return r1;
            }
            let r2 = lint_expr(p, right, ctx, sc);
            if r2.is_err() {
                sc.pop_frame();
                return r2;
            }
            let r3 = lint_stmt(p, body, ctx, sc);
            sc.pop_frame();
            r3
        },
        Stmt::Decl { decl } => lint_decl(p, decl, ctx, sc),
        Stmt::Expr { expr } => lint_expr(p, expr, ctx, sc),
    }
}

/// Lints a whole script, which runs in the global lifetime. The pass stops
/// at the first violation in traversal order and reports it.
pub fn lint_script(p: &Policy, s: &Script) -> (r: Result<(), Violation>)
    ensures
        r == first(script_viol(p, *s)),
{
    let mut sc = ScopeStack::new();
    lint_stmts(p, &s.body, 0, false, &mut sc)
}

} // verus!
