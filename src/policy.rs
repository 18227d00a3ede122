use vstd::prelude::*;
use crate::ast::Symbol;

verus! {

/// Which list of the policy forbids a reference.
#[derive(PartialEq, Eq, Structural, Clone, Copy, Debug)]
pub enum ListKind {
    Unavailable,
    RequestOnly,
}

/// A call shape that registers a request handler: the function passed as
/// argument number `arg` of a call to the callee path `callee` (`[f]` for
/// `f(...)`, `[a, b]` for `a.b(...)`) runs in the request lifetime.
#[derive(Clone, Debug)]
pub struct HandlerSlot {
    pub callee: Vec<Symbol>,
    pub arg: usize,
}

/// The availability policy: names forbidden everywhere, names forbidden
/// outside the request lifetime, and the handler-registering call shapes.
pub struct Policy {
    pub unavailable: Vec<Symbol>,
    pub request_only: Vec<Symbol>,
    pub handlers: Vec<HandlerSlot>,
}

impl Policy {
    /// The list that forbids a free reference to `name` in the given lifetime,
    /// if any. `unavailable` wins over `request_only`.
    pub open spec fn verdict(&self, name: Symbol, in_request: bool) -> Option<ListKind> {
        if self.unavailable@.contains(name) {
            Some(ListKind::Unavailable)
        } else if self.request_only@.contains(name) && !in_request {
            Some(ListKind::RequestOnly)
        } else {
            None
        }
    }

    /// Argument `i` of a call to the callee path `callee` is a handler slot.
    pub open spec fn is_slot(&self, callee: Seq<Symbol>, i: int) -> bool {
        exists|k: int|
            0 <= k < self.handlers@.len() && #[trigger] self.handlers@[k].callee@ == callee
                && self.handlers@[k].arg as int == i
    }

    pub fn new(unavailable: Vec<Symbol>, request_only: Vec<Symbol>, handlers: Vec<HandlerSlot>) -> (r: Policy)
        ensures
            r.unavailable@ == unavailable@,
            r.request_only@ == request_only@,
            r.handlers@ == handlers@,
    {
        Policy { unavailable, request_only, handlers }
    }

    /// Whether a free reference to `name` is permitted in the given lifetime.
    pub fn permitted(&self, name: Symbol, in_request: bool) -> (r: bool)
        ensures
            r == (self.verdict(name, in_request) is None),
    {
        self.check(name, in_request).is_none()
    }

    /// The list that forbids a free reference to `name`, if any.
    pub fn check(&self, name: Symbol, in_request: bool) -> (r: Option<ListKind>)
        ensures
            r == self.verdict(name, in_request),
    {
        if contains(&self.unavailable, name) {
            Some(ListKind::Unavailable)
        } else if !in_request && contains(&self.request_only, name) {
            Some(ListKind::RequestOnly)
        } else {
            None
        }
    }

    /// Whether argument `i` of a call to the callee path `callee` is a handler slot.
    pub fn slot(&self, callee: &Vec<Symbol>, i: usize) -> (r: bool)
        ensures
            r == self.is_slot(callee@, i as int),
    {
        let mut k: usize = 0;
        while k < self.handlers.len()
            invariant
                k <= self.handlers@.len(),
                forall|j: int|
                    0 <= j < k ==> !(#[trigger] self.handlers@[j].callee@ == callee@
                        && self.handlers@[j].arg == i),
            decreases self.handlers@.len() - k,
        {
            if self.handlers[k].arg == i && same_path(&self.handlers[k].callee, callee) {
                return true;
            }
            k = k + 1;
        }
        false
    }
}

fn same_path(a: &Vec<Symbol>, b: &Vec<Symbol>) -> (r: bool)
    ensures
        r == (a@ == b@),
{
    if a.len() != b.len() {
        return false;
    }
    let mut k: usize = 0;
    while k < a.len()
        invariant
            a@.len() == b@.len(),
            k <= a@.len(),
            forall|j: int| 0 <= j < k ==> a@[j] == b@[j],
        decreases a@.len() - k,
    {
        if a[k] != b[k] {
            return false;
        }
        k = k + 1;
    }
    assert(a@ =~= b@);
    true
}

fn contains(v: &Vec<Symbol>, x: Symbol) -> (r: bool)
    ensures
        r == v@.contains(x),
{
    let mut k: usize = 0;
    while k < v.len()
        invariant
            k <= v@.len(),
            forall|j: int| 0 <= j < k ==> v@[j] != x,
        decreases v@.len() - k,
    {
        if v[k] == x {
            return true;
        }
        k = k + 1;
    }
    false
}

} // verus!
