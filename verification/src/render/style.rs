//! The style stack behind `pushStyle` / `popStyle`.
//!
//! Generic over the style record, which holds colors and sizes kept outside;
//! what is kept here is which style is current and which were saved.
use crate::render::transform::{popped, saved_with};
use vstd::prelude::*;

verus! {

/// The current style and the styles saved by `push`, most recent last.
#[derive(Debug, Clone, Default)]
pub struct StyleStack<S> {
    current: S,
    stack: Vec<S>,
}

impl<S> View for StyleStack<S> {
    type V = (S, Seq<S>);

    closed spec fn view(&self) -> (S, Seq<S>) {
        (self.current, self.stack@)
    }
}

impl<S: Clone> StyleStack<S> {
    /// A stack whose current style is `style`, with nothing saved.
    pub fn new(style: S) -> (r: Self)
        ensures
            r@ == (style, Seq::<S>::empty()),
    {
        StyleStack { current: style, stack: Vec::new() }
    }

    /// The current style.
    pub fn style(&self) -> (r: &S)
        ensures
            *r == self@.0,
    {
        &self.current
    }

    /// Replaces the current style; the saved styles stay.
    pub fn set_style(&mut self, style: S)
        ensures
            final(self)@ == (style, old(self)@.1),
    {
        self.current = style;
    }

    /// Saves a copy of the current style.
    pub fn push(&mut self)
        ensures
            final(self)@ == saved_with(old(self)@, final(self)@.1.last()),
            cloned(old(self)@.0, final(self)@.1.last()),
    {
        let saved = self.current.clone();
        self.stack.push(saved);
    }

    /// Restores the most recently saved style; with nothing saved, does
    /// nothing.
    pub fn pop(&mut self)
        ensures
            final(self)@ == popped(old(self)@),
    {
        if let Some(style) = self.stack.pop() {
            self.current = style;
        }
    }

    /// Drops the saved styles; the current style persists across frames.
    pub fn clear_saved(&mut self)
        ensures
            final(self)@ == (old(self)@.0, Seq::<S>::empty()),
    {
        self.stack.clear();
    }
}

/// A `pop` after a `push` makes the saved copy current again and leaves the
/// saved styles as they were before the `push`.
pub proof fn lemma_pop_undoes_style_push<S>(v: (S, Seq<S>), copy: S, restyled: S)
    ensures
        popped((restyled, saved_with(v, copy).1)) == (copy, v.1),
{
    assert(saved_with(v, copy).1.drop_last() =~= v.1);
}

} // verus!
