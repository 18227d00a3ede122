use vstd::prelude::*;
use crate::ast::{Expr, Script, Stmt, Symbol};
use crate::policy::{ListKind, Policy};
use crate::scope::{bind_at, lookup_in, resolve, resolve_in, Binding, BindingKind, FrameView};
use crate::semantics::{
    arg_ctx, expr_viol, first, lemma_first_concat, script_viol, stmt_viol, stmts_viol, Violation,
};

verus! {

/// A reference to a name that an enclosing scope binds is never flagged,
/// whatever the policy says of the name and whatever the lifetime.
pub proof fn lemma_bound_reference_accepted(
    p: &Policy,
    name: Symbol,
    pos: u32,
    ctx: bool,
    sc: Seq<FrameView>,
)
    requires
        resolve(sc, name) is Some,
    ensures
        expr_viol(p, Expr::Ident { name, pos }, ctx, sc).0 == Seq::<Violation>::empty(),
{
}

proof fn lemma_resolve_in_bound(sc: Seq<FrameView>, name: Symbol, n: int, j: int)
    requires
        0 <= j < n <= sc.len(),
        lookup_in(sc[j].bindings, name, sc[j].bindings.len() as int) is Some,
    ensures
        resolve_in(sc, name, n) is Some,
    decreases n,
{
    if n - 1 != j {
        lemma_resolve_in_bound(sc, name, n - 1, j);
    }
}

/// Once a declaration, parameter or pattern has bound `name` into any frame
/// of the stack, a reference to `name` is never flagged there, whatever the
/// policy says of the name and whatever the lifetime.
pub proof fn lemma_binding_shadows_policy(
    p: &Policy,
    sc: Seq<FrameView>,
    j: int,
    name: Symbol,
    kind: BindingKind,
    pos: u32,
    ctx: bool,
)
    requires
        0 <= j < sc.len(),
    ensures
        resolve(bind_at(sc, j, Binding { name, kind }), name) is Some,
        expr_viol(p, Expr::Ident { name, pos }, ctx, bind_at(sc, j, Binding { name, kind })).0
            == Seq::<Violation>::empty(),
{
    let sc1 = bind_at(sc, j, Binding { name, kind });
    let bs = sc1[j].bindings;
    assert(bs[bs.len() - 1] == Binding { name, kind });
    assert(lookup_in(bs, name, bs.len() as int) == Some(kind));
    lemma_resolve_in_bound(sc1, name, sc1.len() as int, j);
}

/// A free reference to a request-only name, outside the request lifetime,
/// is a violation of the request-only list.
pub proof fn lemma_request_only_rejected_globally(
    p: &Policy,
    name: Symbol,
    pos: u32,
    sc: Seq<FrameView>,
)
    requires
        resolve(sc, name) is None,
        p.request_only@.contains(name),
        !p.unavailable@.contains(name),
    ensures
        expr_viol(p, Expr::Ident { name, pos }, false, sc).0 == seq![
            Violation { name, pos, list: ListKind::RequestOnly },
        ],
{
}

/// A function passed in a handler slot is linted in the request lifetime,
/// whatever the lifetime of the call; there a free reference to a
/// request-only name that is not also unavailable is accepted.
pub proof fn lemma_request_only_accepted_in_handler(
    p: &Policy,
    callee: Seq<Symbol>,
    i: int,
    arg: Expr,
    ctx: bool,
    name: Symbol,
    pos: u32,
    sc: Seq<FrameView>,
)
    requires
        p.is_slot(callee, i),
        arg is Function,
        !p.unavailable@.contains(name),
    ensures
        arg_ctx(p, Some(callee), i, arg, ctx),
        expr_viol(p, Expr::Ident { name, pos }, true, sc).0 == Seq::<Violation>::empty(),
{
}

/// A free reference to an unavailable name is a violation of the
/// unavailable list in either lifetime.
pub proof fn lemma_unavailable_rejected(
    p: &Policy,
    name: Symbol,
    pos: u32,
    ctx: bool,
    sc: Seq<FrameView>,
)
    requires
        resolve(sc, name) is None,
        p.unavailable@.contains(name),
    ensures
        expr_viol(p, Expr::Ident { name, pos }, ctx, sc).0 == seq![
            Violation { name, pos, list: ListKind::Unavailable },
        ],
{
}

/// In a statement list, where statement `i` has a violation, the verdict
/// from statement `i` on is its first violation: nothing after it is reported.
pub proof fn lemma_earlier_statement_reported_first(
    p: &Policy,
    ss: Seq<Stmt>,
    i: int,
    ctx: bool,
    sc: Seq<FrameView>,
)
    requires
        0 <= i < ss.len(),
        stmt_viol(p, ss[i], ctx, sc).0.len() > 0,
    ensures
        first(stmts_viol(p, ss, i, ctx, sc).0) == Err::<(), Violation>(stmt_viol(p, ss[i], ctx, sc).0[0]),
{
    let r = stmt_viol(p, ss[i], ctx, sc);
    lemma_first_concat(r.0, stmts_viol(p, ss, i + 1, ctx, r.1).0);
}

/// Linting the same script twice under the same policy gives the same
/// verdict both times.
pub proof fn lemma_lint_repeatable(
    p: &Policy,
    s: Script,
    r1: Result<(), Violation>,
    r2: Result<(), Violation>,
)
    requires
        r1 == first(script_viol(p, s)),
        r2 == first(script_viol(p, s)),
    ensures
        r1 == r2,
{
}

} // verus!
