//! The matrix stack behind `pushMatrix` / `popMatrix`.
//!
//! The stack is generic over the matrix type: composing matrices is floating
//! point and happens outside; what is kept here is which matrix is current and
//! which were saved.
use vstd::prelude::*;

verus! {

/// The current transform and the transforms saved by `push`, most recent
/// last.
#[derive(Debug, Clone)]
pub struct TransformStack<M> {
    current: M,
    stack: Vec<M>,
}

/// A stack as a value: the current entry and the saved ones, oldest first.
pub type StackView<M> = (M, Seq<M>);

/// The stack after saving its current entry.
pub open spec fn pushed<M>(v: StackView<M>) -> StackView<M> {
    saved_with(v, v.0)
}

/// The stack with `s` saved on top; the current entry stays.
pub open spec fn saved_with<M>(v: StackView<M>, s: M) -> StackView<M> {
    (v.0, v.1.push(s))
}

/// The stack after restoring its most recently saved entry; unchanged when
/// nothing is saved.
pub open spec fn popped<M>(v: StackView<M>) -> StackView<M> {
    if v.1.len() == 0 {
        v
    } else {
        (v.1.last(), v.1.drop_last())
    }
}

/// The stack with `m` as its current entry.
pub open spec fn with_current<M>(v: StackView<M>, m: M) -> StackView<M> {
    (m, v.1)
}

impl<M> View for TransformStack<M> {
    type V = StackView<M>;

    closed spec fn view(&self) -> StackView<M> {
        (self.current, self.stack@)
    }
}

impl<M: Copy> TransformStack<M> {
    /// A stack whose current transform is `identity` and that holds nothing
    /// saved.
    pub fn new(identity: M) -> (r: Self)
        ensures
            r@ == (identity, Seq::<M>::empty()),
    {
        TransformStack { current: identity, stack: Vec::new() }
    }

    /// The current transform.
    pub fn current(&self) -> (r: M)
        ensures
            r == self@.0,
    {
        self.current
    }

    /// Saves the current transform.
    pub fn push(&mut self)
        ensures
            final(self)@ == pushed(old(self)@),
    {
        self.stack.push(self.current);
    }

    /// Restores the most recently saved transform; with nothing saved, does
    /// nothing.
    pub fn pop(&mut self)
        ensures
            final(self)@ == popped(old(self)@),
    {
        if let Some(t) = self.stack.pop() {
            self.current = t;
        }
    }

    /// Makes `identity` current; the saved transforms stay.
    pub fn reset(&mut self, identity: M)
        ensures
            final(self)@ == with_current(old(self)@, identity),
    {
        self.current = identity;
    }

    /// Makes `identity` current and drops every saved transform.
    pub fn clear(&mut self, identity: M)
        ensures
            final(self)@ == (identity, Seq::<M>::empty()),
    {
        self.current = identity;
        self.stack.clear();
    }

    /// Carries out one call given as a value.
    pub fn apply_op(&mut self, op: StackOp<M>)
        ensures
            final(self)@ == step(old(self)@, op),
    {
        match op {
            StackOp::Push => self.push(),
            StackOp::Pop => self.pop(),
            StackOp::Reset(m) => self.reset(m),
            StackOp::SetCurrent(m) => self.set_current(m),
        }
    }

    /// Replaces the current transform, as composing a transform onto it does.
    pub fn set_current(&mut self, m: M)
        ensures
            final(self)@ == with_current(old(self)@, m),
    {
        self.current = m;
    }
}

/// A `pop` undoes a `push` together with any change of the current entry
/// made after it.
pub proof fn lemma_pop_undoes_push<M>(v: StackView<M>, m: M)
    ensures
        popped(with_current(pushed(v), m)) == v,
        popped(pushed(v)) == v,
{
    assert(pushed(v).1.drop_last() =~= v.1);
}

/// A `pop` with nothing saved leaves the stack as it was.
pub proof fn lemma_pop_empty_is_noop<M>(m: M)
    ensures
        popped((m, Seq::<M>::empty())) == (m, Seq::<M>::empty()),
{
}

/// A call on a transform stack, as a value.
pub enum StackOp<M> {
    Push,
    Pop,
    Reset(M),
    SetCurrent(M),
}

/// The stack after one call.
pub open spec fn step<M>(v: StackView<M>, op: StackOp<M>) -> StackView<M> {
    match op {
        StackOp::Push => pushed(v),
        StackOp::Pop => popped(v),
        StackOp::Reset(m) => with_current(v, m),
        StackOp::SetCurrent(m) => with_current(v, m),
    }
}

/// The stack after the calls `ops`, in order.
pub open spec fn run<M>(v: StackView<M>, ops: Seq<StackOp<M>>) -> StackView<M>
    decreases ops.len(),
{
    if ops.len() == 0 {
        v
    } else {
        step(run(v, ops.drop_last()), ops.last())
    }
}

/// Pushes minus pops among `ops`.
pub open spec fn depth<M>(ops: Seq<StackOp<M>>) -> int
    decreases ops.len(),
{
    if ops.len() == 0 {
        0
    } else {
        depth(ops.drop_last()) + match ops.last() {
            StackOp::Push => 1int,
            StackOp::Pop => -1int,
            _ => 0int,
        }
    }
}

/// No call in `ops` pops more than the calls before it pushed.
pub open spec fn never_underflows<M>(ops: Seq<StackOp<M>>) -> bool {
    forall|k: int| 0 <= k <= ops.len() ==> depth(#[trigger] ops.take(k)) >= 0
}

/// Every pop in `ops` matches a push in `ops`, and every push is popped.
pub open spec fn balanced<M>(ops: Seq<StackOp<M>>) -> bool {
    never_underflows(ops) && depth(ops) == 0
}

proof fn lemma_run_keeps_saved<M>(v: StackView<M>, ops: Seq<StackOp<M>>)
    requires
        never_underflows(ops),
    ensures
        run(v, ops).1.len() == v.1.len() + depth(ops),
        run(v, ops).1.take(v.1.len() as int) == v.1,
    decreases ops.len(),
{
    if ops.len() > 0 {
        let p = ops.drop_last();
        assert forall|k: int| 0 <= k <= p.len() implies depth(#[trigger] p.take(k)) >= 0 by {
            assert(p.take(k) =~= ops.take(k));
        }
        lemma_run_keeps_saved(v, p);
        assert(ops.take(ops.len() as int) =~= ops);
        let w = run(v, p);
        let n = v.1.len() as int;
        match ops.last() {
            StackOp::Push => {
                assert(w.1.push(w.0).take(n) =~= w.1.take(n));
            },
            StackOp::Pop => {
                assert(w.1.drop_last().take(n) =~= w.1.take(n));
            },
            _ => {},
        }
    } else {
        assert(v.1.take(v.1.len() as int) =~= v.1);
    }
}

/// Any balanced run of calls leaves the saved entries as they were.
pub proof fn lemma_balanced_keeps_saved<M>(v: StackView<M>, ops: Seq<StackOp<M>>)
    requires
        balanced(ops),
    ensures
        run(v, ops).1 == v.1,
{
    lemma_run_keeps_saved(v, ops);
    assert(run(v, ops).1 =~= run(v, ops).1.take(v.1.len() as int));
}

/// A `push`, then any balanced run of calls, then a `pop` leave the whole
/// stack as it was before the `push`.
pub proof fn lemma_push_balanced_pop<M>(v: StackView<M>, ops: Seq<StackOp<M>>)
    requires
        balanced(ops),
    ensures
        popped(run(pushed(v), ops)) == v,
{
    lemma_balanced_keeps_saved(pushed(v), ops);
    assert(pushed(v).1.drop_last() =~= v.1);
}

} // verus!
