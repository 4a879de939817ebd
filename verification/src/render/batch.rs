//! Batch planning for a frame's draws.
//!
//! Consecutive tessellated draws with the same material key and transform
//! share one mesh. Every mesh that is spawned (a flushed batch, a background,
//! an image, a geometry, a particle system or a 3D shape) takes the next draw
//! index, which places it a small step further back along z, so later draws
//! land in front of earlier ones. The planner keeps the key of the open batch
//! and the draw index; the caller keeps the mesh and the transform.
use crate::render::material_key::{needs_batch, needs_batch_of, MaterialKey};
use vstd::prelude::*;

verus! {

/// The batch planner of one frame.
#[derive(Debug, Clone, Copy, PartialEq, Eq)]
pub struct Batcher {
    /// The material key of the open batch, `None` when none is open.
    pub key: Option<MaterialKey>,
    /// Whether a batch mesh is open.
    pub open: bool,
    /// The draw index the next spawned mesh takes.
    pub draw_index: u32,
}

/// What a tessellated draw asks of the caller before it adds its triangles:
/// spawn the open mesh at `flushed`, where that is `Some`, and start a new
/// empty mesh with the current transform, where `started`.
#[derive(Debug, Clone, Copy, PartialEq, Eq)]
pub struct BatchStart {
    pub flushed: Option<u32>,
    pub started: bool,
}

/// What a mesh drawn on its own asks of the caller: spawn the open batch
/// mesh at `flushed`, where that is `Some`, then spawn the draw at `index`.
#[derive(Debug, Clone, Copy, PartialEq, Eq)]
pub struct SoloDraw {
    pub flushed: Option<u32>,
    pub index: u32,
}

/// A draw as the planner sees it.
#[derive(Debug, Clone, Copy, PartialEq, Eq)]
pub enum BatchEvent {
    /// Triangles added to the current batch with this key.
    Tessellated { key: MaterialKey, transform_changed: bool, has_blend_state: bool },
    /// A mesh spawned on its own.
    Solo,
    /// The end of the frame, or any other point that closes the open batch.
    Flush,
}

/// The draw indices an optional index stands for.
pub open spec fn index_seq(o: Option<u32>) -> Seq<u32> {
    match o {
        Some(i) => seq![i],
        None => Seq::empty(),
    }
}

/// The planner after closing its open batch, and the index that batch took.
pub open spec fn flush_of(b: Batcher) -> (Batcher, Seq<u32>) {
    if b.open {
        (Batcher { key: None, open: false, draw_index: (b.draw_index + 1) as u32 }, seq![b.draw_index])
    } else {
        (Batcher { key: None, open: false, draw_index: b.draw_index }, Seq::empty())
    }
}

/// The planner after one draw, and the draw indices handed out, in order.
pub open spec fn step_of(b: Batcher, e: BatchEvent) -> (Batcher, Seq<u32>) {
    match e {
        BatchEvent::Tessellated { key, transform_changed, has_blend_state } => {
            if needs_batch_of(b.key, key, transform_changed, has_blend_state) {
                let (f, out) = flush_of(b);
                (Batcher { key: Some(key), open: true, draw_index: f.draw_index }, out)
            } else {
                (b, Seq::empty())
            }
        },
        BatchEvent::Solo => {
            let (f, out) = flush_of(b);
            (Batcher { key: None, open: false, draw_index: (f.draw_index + 1) as u32 }, out.push(f.draw_index))
        },
        BatchEvent::Flush => flush_of(b),
    }
}

/// The planner after a run of draws, and every draw index handed out.
pub open spec fn run_of(b: Batcher, es: Seq<BatchEvent>) -> (Batcher, Seq<u32>)
    decreases es.len(),
{
    if es.len() == 0 {
        (b, Seq::empty())
    } else {
        let (m, first) = step_of(b, es[0]);
        let (f, rest) = run_of(m, es.drop_first());
        (f, first + rest)
    }
}

/// How many draw indices a draw can take at most.
pub open spec fn max_indices(e: BatchEvent) -> nat {
    match e {
        BatchEvent::Solo => 2,
        _ => 1,
    }
}

/// How many draw indices a run of draws can take at most.
pub open spec fn max_run_indices(es: Seq<BatchEvent>) -> nat
    decreases es.len(),
{
    if es.len() == 0 {
        0
    } else {
        max_indices(es[0]) + max_run_indices(es.drop_first())
    }
}

impl Batcher {
    /// A batch is open exactly when it has a key.
    pub open spec fn wf(&self) -> bool {
        self.open <==> self.key.is_some()
    }

    /// Whether the draw indices that `e` takes still fit in `u32`.
    pub open spec fn has_room(&self, e: BatchEvent) -> bool {
        let flushes: int = if self.open { 1 } else { 0 };
        match e {
            BatchEvent::Tessellated { key, transform_changed, has_blend_state } => needs_batch_of(
                self.key,
                key,
                transform_changed,
                has_blend_state,
            ) ==> self.draw_index + flushes <= u32::MAX,
            BatchEvent::Solo => self.draw_index + flushes + 1 <= u32::MAX,
            BatchEvent::Flush => self.draw_index + flushes <= u32::MAX,
        }
    }

    /// The planner at the start of a frame: nothing open, index zero.
    pub fn new() -> (r: Self)
        ensures
            r.wf(),
            r.key.is_none(),
            !r.open,
            r.draw_index == 0,
    {
        Batcher { key: None, open: false, draw_index: 0 }
    }

    /// Closes the open batch: it takes the next draw index, which is
    /// returned. With no batch open nothing is handed out. Either way no key
    /// is left.
    pub fn flush(&mut self) -> (r: Option<u32>)
        requires
            old(self).wf(),
            old(self).has_room(BatchEvent::Flush),
        ensures
            r == (if old(self).open { Some(old(self).draw_index) } else { None }),
            (*final(self), index_seq(r)) == step_of(*old(self), BatchEvent::Flush),
            final(self).wf(),
            !final(self).open,
    {
        let r = if self.open {
            let i = self.draw_index;
            self.draw_index = i + 1;
            Some(i)
        } else {
            None
        };
        self.open = false;
        self.key = None;
        proof {
            assert(index_seq(r) =~= step_of(*old(self), BatchEvent::Flush).1);
        }
        r
    }

    /// Plans a tessellated draw with `key`: where it needs a batch of its
    /// own, the open batch is flushed and a new one is started with `key`;
    /// else the draw joins the open batch. Afterwards a batch with `key` is
    /// open.
    pub fn add_tessellated(&mut self, key: MaterialKey, transform_changed: bool, has_blend_state: bool) -> (r: BatchStart)
        requires
            old(self).wf(),
            old(self).has_room(BatchEvent::Tessellated { key, transform_changed, has_blend_state }),
        ensures
            r.started == needs_batch_of(old(self).key, key, transform_changed, has_blend_state),
            r.flushed == (if r.started && old(self).open { Some(old(self).draw_index) } else { None }),
            (*final(self), index_seq(r.flushed)) == step_of(
                *old(self),
                BatchEvent::Tessellated { key, transform_changed, has_blend_state },
            ),
            final(self).wf(),
            final(self).open,
            final(self).key == Some(key),
    {
        let started = needs_batch(&self.key, &key, transform_changed, has_blend_state);
        if started {
            let flushed = self.flush();
            self.key = Some(key);
            self.open = true;
            BatchStart { flushed, started }
        } else {
            proof {
                assert(index_seq(None) =~= Seq::<u32>::empty());
            }
            BatchStart { flushed: None, started }
        }
    }

    /// Plans a mesh drawn on its own: the open batch is flushed, and the
    /// draw takes the next index.
    pub fn add_solo(&mut self) -> (r: SoloDraw)
        requires
            old(self).wf(),
            old(self).has_room(BatchEvent::Solo),
        ensures
            r.flushed == (if old(self).open { Some(old(self).draw_index) } else { None }),
            r.index == old(self).draw_index + (if old(self).open { 1int } else { 0 }),
            (*final(self), index_seq(r.flushed).push(r.index)) == step_of(*old(self), BatchEvent::Solo),
            final(self).wf(),
            !final(self).open,
            final(self).draw_index == r.index + 1,
    {
        let flushed = self.flush();
        let index = self.draw_index;
        self.draw_index = index + 1;
        SoloDraw { flushed, index }
    }
}

/// Every draw index handed out over a run of draws is the next one: the run
/// hands out consecutive indices from the planner's current index, in order,
/// so no two spawned meshes share a depth and later draws lie in front.
pub proof fn lemma_run_indices_consecutive(b: Batcher, es: Seq<BatchEvent>)
    requires
        b.wf(),
        b.draw_index + max_run_indices(es) <= u32::MAX,
    ensures
        run_of(b, es).0.wf(),
        run_of(b, es).0.draw_index == b.draw_index + run_of(b, es).1.len(),
        forall|i: int| 0 <= i < run_of(b, es).1.len() ==> #[trigger] run_of(b, es).1[i] == b.draw_index + i,
    decreases es.len(),
{
    if es.len() > 0 {
        let (m, first) = step_of(b, es[0]);
        assert(m.wf());
        assert(m.draw_index == b.draw_index + first.len());
        assert(first.len() <= max_indices(es[0]));
        assert(forall|i: int| 0 <= i < first.len() ==> #[trigger] first[i] == b.draw_index + i);
        lemma_run_indices_consecutive(m, es.drop_first());
        let (f, rest) = run_of(m, es.drop_first());
        let all = first + rest;
        assert forall|i: int| 0 <= i < all.len() implies #[trigger] all[i] == b.draw_index + i by {
            if i >= first.len() {
                assert(all[i] == rest[i - first.len()]);
            }
        }
    }
}

/// Flushing twice hands out nothing the second time: an empty batch is never
/// spawned.
pub proof fn lemma_flush_twice(b: Batcher)
    requires
        b.wf(),
    ensures
        step_of(step_of(b, BatchEvent::Flush).0, BatchEvent::Flush).1.len() == 0,
        step_of(step_of(b, BatchEvent::Flush).0, BatchEvent::Flush).0 == step_of(b, BatchEvent::Flush).0,
{
}

} // verus!
