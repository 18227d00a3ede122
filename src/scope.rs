use vstd::prelude::*;
use crate::ast::Symbol;

verus! {

/// How a name came to be bound.
#[derive(PartialEq, Eq, Structural, Clone, Copy, Debug)]
pub enum BindingKind {
    FunctionVar,
    BlockVar,
    Declaration,
    Param,
    CatchParam,
    LoopVar,
    Import,
}

#[derive(PartialEq, Eq, Structural, Clone, Copy, Debug)]
pub struct Binding {
    pub name: Symbol,
    pub kind: BindingKind,
}

/// One lexical frame; `function_level` marks a function body or the script.
pub struct Frame {
    pub function_level: bool,
    pub bindings: Vec<Binding>,
}

/// The model of a frame.
pub struct FrameView {
    pub function_level: bool,
    pub bindings: Seq<Binding>,
}

impl View for Frame {
    type V = FrameView;

    open spec fn view(&self) -> FrameView {
        FrameView { function_level: self.function_level, bindings: self.bindings@ }
    }
}

/// The latest binding of `name` among the first `n` bindings of a frame.
pub open spec fn lookup_in(bs: Seq<Binding>, name: Symbol, n: int) -> Option<BindingKind>
    decreases n,
{
    if n <= 0 {
        None
    } else if bs[n - 1].name == name {
        Some(bs[n - 1].kind)
    } else {
        lookup_in(bs, name, n - 1)
    }
}

/// What `name` resolves to in the first `n` frames, innermost first.
pub open spec fn resolve_in(sc: Seq<FrameView>, name: Symbol, n: int) -> Option<BindingKind>
    decreases n,
{
    if n <= 0 {
        None
    } else {
        match lookup_in(sc[n - 1].bindings, name, sc[n - 1].bindings.len() as int) {
            Some(k) => Some(k),
            None => resolve_in(sc, name, n - 1),
        }
    }
}

/// What `name` resolves to: `None` means free.
pub open spec fn resolve(sc: Seq<FrameView>, name: Symbol) -> Option<BindingKind> {
    resolve_in(sc, name, sc.len() as int)
}

/// Index of the innermost function-level frame among the first `n` (0 if none).
pub open spec fn function_frame_in(sc: Seq<FrameView>, n: int) -> int
    decreases n,
{
    if n <= 0 {
        0
    } else if sc[n - 1].function_level {
        n - 1
    } else {
        function_frame_in(sc, n - 1)
    }
}

/// The frame that a `var` binding goes to.
pub open spec fn function_frame(sc: Seq<FrameView>) -> int {
    function_frame_in(sc, sc.len() as int)
}

/// `sc` with `b` added to frame `j` (unchanged where `j` is out of range).
pub open spec fn bind_at(sc: Seq<FrameView>, j: int, b: Binding) -> Seq<FrameView> {
    if 0 <= j < sc.len() {
        sc.update(
            j,
            FrameView { function_level: sc[j].function_level, bindings: sc[j].bindings.push(b) },
        )
    } else {
        sc
    }
}

/// A frame with no bindings.
pub open spec fn empty_frame(function_level: bool) -> FrameView {
    FrameView { function_level, bindings: Seq::empty() }
}

/// Frame `b` is frame `a` with zero or more bindings added after its own.
pub open spec fn frame_extends(a: FrameView, b: FrameView) -> bool {
    &&& a.function_level == b.function_level
    &&& a.bindings.len() <= b.bindings.len()
    &&& forall|k: int| 0 <= k < a.bindings.len() ==> #[trigger] b.bindings[k] == a.bindings[k]
}

/// Stack `after` has the frames of `before`, no others, each with its
/// bindings kept and possibly more added.
pub open spec fn stack_extends(before: Seq<FrameView>, after: Seq<FrameView>) -> bool {
    &&& after.len() == before.len()
    &&& forall|j: int| 0 <= j < before.len() ==> #[trigger] frame_extends(before[j], after[j])
}

pub broadcast proof fn lemma_stack_extends_refl(s: Seq<FrameView>)
    ensures
        #[trigger] stack_extends(s, s),
{
}

pub broadcast proof fn lemma_stack_extends_trans(a: Seq<FrameView>, b: Seq<FrameView>, c: Seq<FrameView>)
    requires
        #[trigger] stack_extends(a, b),
        #[trigger] stack_extends(b, c),
    ensures
        stack_extends(a, c),
{
    assert forall|j: int| 0 <= j < a.len() implies #[trigger] frame_extends(a[j], c[j]) by {
        assert(frame_extends(a[j], b[j]));
        assert(frame_extends(b[j], c[j]));
    }
}

pub broadcast proof fn lemma_stack_extends_bind(s: Seq<FrameView>, j: int, b: Binding)
    ensures
        #[trigger] stack_extends(s, bind_at(s, j, b)),
{
    let t = bind_at(s, j, b);
    assert forall|i: int| 0 <= i < s.len() implies #[trigger] frame_extends(s[i], t[i]) by {
        if i == j {
            assert forall|k: int| 0 <= k < s[i].bindings.len() implies #[trigger] t[i].bindings[k]
                == s[i].bindings[k] by {}
        }
    }
}

pub broadcast proof fn lemma_stack_extends_pop(s: Seq<FrameView>, f: FrameView, t: Seq<FrameView>)
    requires
        #[trigger] stack_extends(s.push(f), t),
    ensures
        stack_extends(s, t.drop_last()),
{
    assert forall|j: int| 0 <= j < s.len() implies #[trigger] frame_extends(s[j], t.drop_last()[j]) by {
        assert(s.push(f)[j] == s[j]);
        assert(frame_extends(s.push(f)[j], t[j]));
    }
}

/// The stack of lexical frames, innermost last.
pub struct ScopeStack {
    pub frames: Vec<Frame>,
}

impl View for ScopeStack {
    type V = Seq<FrameView>;

    open spec fn view(&self) -> Seq<FrameView> {
        self.frames@.map_values(|f: Frame| f@)
    }
}

pub proof fn lemma_function_frame_in_range(sc: Seq<FrameView>, n: int)
    requires
        0 <= n <= sc.len(),
    ensures
        0 <= function_frame_in(sc, n),
        n > 0 ==> function_frame_in(sc, n) < n,
    decreases n,
{
    if n > 0 {
        lemma_function_frame_in_range(sc, n - 1);
    }
}

impl ScopeStack {
    /// A stack holding only the script's frame.
    pub fn new() -> (r: ScopeStack)
        ensures
            r@ == seq![empty_frame(true)],
    {
        let mut frames: Vec<Frame> = Vec::new();
        frames.push(Frame { function_level: true, bindings: Vec::new() });
        let r = ScopeStack { frames };
        assert(r@ =~= seq![empty_frame(true)]);
        r
    }

    pub fn depth(&self) -> (r: usize)
        ensures
            r == self@.len(),
    {
        self.frames.len()
    }

    /// Enters a block or function body.
    pub fn push_frame(&mut self, function_level: bool)
        ensures
            final(self)@ == old(self)@.push(empty_frame(function_level)),
    {
        self.frames.push(Frame { function_level, bindings: Vec::new() });
        assert(self@ =~= old(self)@.push(empty_frame(function_level)));
    }

    /// Leaves the innermost frame.
    pub fn pop_frame(&mut self)
        requires
            old(self)@.len() > 0,
        ensures
            final(self)@ == old(self)@.drop_last(),
    {
        self.frames.pop();
        assert(self@ =~= old(self)@.drop_last());
    }

    /// Adds a binding to frame `j`.
    pub fn bind(&mut self, j: usize, b: Binding)
        requires
            j < old(self)@.len(),
        ensures
            final(self)@ == bind_at(old(self)@, j as int, b),
    {
        let mut f = self.frames.remove(j);
        f.bindings.push(b);
        self.frames.insert(j, f);
        assert(self@ =~= bind_at(old(self)@, j as int, b));
    }

    /// The index of the innermost function-level frame.
    pub fn function_frame(&self) -> (r: usize)
        requires
            self@.len() > 0,
        ensures
            r == function_frame(self@),
            r < self@.len(),
    {
        proof {
            lemma_function_frame_in_range(self@, self@.len() as int);
        }
        let mut n: usize = self.frames.len();
        while n > 0
            invariant
                n <= self@.len(),
                function_frame(self@) == function_frame_in(self@, n as int),
            decreases n,
        {
            if self.frames[n - 1].function_level {
                return n - 1;
            }
            n = n - 1;
        }
        0
    }

    /// What `name` resolves to, innermost frame first; `None` means free.
    pub fn resolve(&self, name: Symbol) -> (r: Option<BindingKind>)
        ensures
            r == resolve(self@, name),
    {
        let mut n: usize = self.frames.len();
        while n > 0
            invariant
                n <= self@.len(),
                resolve(self@, name) == resolve_in(self@, name, n as int),
            decreases n,
        {
            let bs = &self.frames[n - 1].bindings;
            assert(bs@ == self@[n - 1].bindings);
            let mut m: usize = bs.len();
            while m > 0
                invariant
                    0 < n <= self@.len(),
                    bs@ == self@[n - 1].bindings,
                    resolve(self@, name) == resolve_in(self@, name, n as int),
                    m <= bs@.len(),
                    lookup_in(bs@, name, bs@.len() as int) == lookup_in(bs@, name, m as int),
                decreases m,
            {
                if bs[m - 1].name == name {
                    assert(lookup_in(bs@, name, m as int) == Some(bs@[m - 1].kind));
                    assert(resolve_in(self@, name, n as int) == Some(bs@[m - 1].kind));
                    return Some(bs[m - 1].kind);
                }
                m = m - 1;
            }
            assert(lookup_in(bs@, name, 0) is None);
            n = n - 1;
        }
        None
    }
}

} // verus!
