//! Render-layer bookkeeping for graphics targets.
//!
//! Every graphics target draws on a render layer of its own so that what is
//! drawn for one camera stays invisible to the others. Layer `0` is the shared
//! default layer and is never handed out.
use bevy_camera::visibility::RenderLayers;
use vstd::prelude::*;

verus! {

#[verifier::external_type_specification]
#[verifier::external_body]
pub struct ExRenderLayers(RenderLayers);

/// The set of layers that a `RenderLayers` value holds.
pub uninterp spec fn layers_of(layers: RenderLayers) -> Set<usize>;

/// Calls `RenderLayers::none`; the result belongs to no layer.
#[verifier::external_body]
fn render_layers_none() -> (r: RenderLayers)
    ensures
        layers_of(r) == Set::<usize>::empty(),
{
    RenderLayers::none()
}

/// Calls `RenderLayers::with`; the result holds the layers of `layers` and
/// `layer`. The bound keeps the bit buffer that `with` grows small.
#[verifier::external_body]
fn render_layers_with(layers: RenderLayers, layer: usize) -> (r: RenderLayers)
    requires
        layer < MAX_LAYER,
    ensures
        layers_of(r) == layers_of(layers).insert(layer),
{
    layers.with(layer)
}

/// Calls `RenderLayers::without`; the result holds the layers of `layers`
/// except `layer`.
#[verifier::external_body]
fn render_layers_without(layers: RenderLayers, layer: usize) -> (r: RenderLayers)
    ensures
        layers_of(r) == layers_of(layers).remove(layer),
{
    layers.without(layer)
}

/// Calls `RenderLayers::intersects`. Sharing a layer makes it true; when it is
/// true the two values share a layer or are the very same value (the outside
/// code answers `true` for one buffer compared with itself, even an empty one).
#[verifier::external_body]
fn render_layers_intersects(a: &RenderLayers, b: &RenderLayers) -> (r: bool)
    ensures
        (exists|l: usize| layers_of(*a).contains(l) && layers_of(*b).contains(l)) ==> r,
        r ==> ((exists|l: usize| layers_of(*a).contains(l) && layers_of(*b).contains(l))
            || layers_of(*a) == layers_of(*b)),
{
    a.intersects(b)
}

/// Collects `RenderLayers::iter` into a vector: every held layer once, in
/// increasing order.
#[verifier::external_body]
fn render_layers_list(layers: &RenderLayers) -> (v: Vec<usize>)
    ensures
        forall|l: usize| #[trigger] layers_of(*layers).contains(l) <==> v@.contains(l),
        forall|i: int, j: int| 0 <= i < j < v@.len() ==> v@[i] < v@[j],
{
    layers.iter().collect()
}

/// One past the highest layer a graphics target may be given.
pub const MAX_LAYER: usize = 4096;

/// `l` is the lowest layer, starting at `1`, that `used` does not hold.
pub open spec fn is_lowest_free_layer(used: Set<usize>, l: usize) -> bool {
    &&& 1 <= l
    &&& !used.contains(l)
    &&& forall|m: usize| 1 <= m < l ==> used.contains(m)
}

/// Hands out the render layers of graphics targets.
pub struct RenderLayersManager {
    used: RenderLayers,
    next_free: usize,
}

impl RenderLayersManager {
    /// The layers currently handed out.
    pub closed spec fn used_layers(&self) -> Set<usize> {
        layers_of(self.used)
    }

    /// The layer the next allocation hands out (`MAX_LAYER` when none is left).
    pub closed spec fn next_free(&self) -> usize {
        self.next_free
    }

    /// Handed-out layers lie in `1..MAX_LAYER`, and the next layer to hand out
    /// is the lowest free one, or `MAX_LAYER` when every layer below is taken.
    pub open spec fn wf(&self) -> bool {
        &&& 1 <= self.next_free() <= MAX_LAYER
        &&& forall|l: usize| self.used_layers().contains(l) ==> 1 <= l < MAX_LAYER
        &&& forall|l: usize| 1 <= l < self.next_free() ==> self.used_layers().contains(l)
        &&& self.next_free() < MAX_LAYER ==> !self.used_layers().contains(self.next_free())
    }

    /// Whether `layer` is currently handed out.
    pub fn is_used(&self, layer: usize) -> (r: bool)
        ensures
            r == self.used_layers().contains(layer),
    {
        if layer >= MAX_LAYER {
            // `with` is only called on layers below `MAX_LAYER`.
            return self.is_used_outside_range(layer);
        }
        let single = render_layers_with(render_layers_none(), layer);
        let r = render_layers_intersects(&self.used, &single);
        proof {
            assert(layers_of(single) =~= Set::<usize>::empty().insert(layer));
            if r && !self.used_layers().contains(layer) {
                assert(!(exists|l: usize|
                    layers_of(self.used).contains(l) && layers_of(single).contains(l)));
                assert(layers_of(self.used) == layers_of(single));
                assert(layers_of(single).contains(layer));
            }
            if self.used_layers().contains(layer) {
                assert(layers_of(self.used).contains(layer) && layers_of(single).contains(layer));
            }
        }
        r
    }

    fn is_used_outside_range(&self, layer: usize) -> (r: bool)
        ensures
            r == self.used_layers().contains(layer),
    {
        let list = render_layers_list(&self.used);
        let mut i: usize = 0;
        while i < list.len()
            invariant
                0 <= i <= list@.len(),
                forall|l: usize| #[trigger] layers_of(self.used).contains(l) <==> list@.contains(l),
                forall|k: int| 0 <= k < i ==> list@[k] != layer,
            decreases list@.len() - i,
        {
            if list[i] == layer {
                assert(list@.contains(layer)) by {
                    assert(list@[i as int] == layer);
                }
                return true;
            }
            i = i + 1;
        }
        assert(!list@.contains(layer));
        false
    }

    /// Hands out the lowest free layer, starting at `1`.
    pub fn allocate(&mut self) -> (r: RenderLayers)
        requires
            old(self).wf(),
            old(self).next_free() < MAX_LAYER,
        ensures
            final(self).wf(),
            is_lowest_free_layer(old(self).used_layers(), old(self).next_free()),
            layers_of(r) == set![old(self).next_free()],
            final(self).used_layers() == old(self).used_layers().insert(old(self).next_free()),
    {
        let layer = self.next_free;
        let mut used = render_layers_none();
        std::mem::swap(&mut used, &mut self.used);
        self.used = render_layers_with(used, layer);
        let ghost now_used = layers_of(self.used);
        let mut candidate = layer + 1;
        while candidate < MAX_LAYER && self.is_used(candidate)
            invariant
                layer + 1 <= candidate <= MAX_LAYER,
                layers_of(self.used) == now_used,
                forall|m: usize| layer < m < candidate ==> now_used.contains(m),
            decreases MAX_LAYER - candidate,
        {
            candidate = candidate + 1;
        }
        self.next_free = candidate;
        let r = render_layers_with(render_layers_none(), layer);
        assert(layers_of(r) =~= set![layer]);
        r
    }

    /// Gives back every layer of `layers` except the shared layer `0`.
    pub fn free(&mut self, layers: RenderLayers)
        requires
            old(self).wf(),
        ensures
            final(self).wf(),
            final(self).used_layers() == old(self).used_layers().difference(
                layers_of(layers).remove(0),
            ),
    {
        let list = render_layers_list(&layers);
        let ghost start = layers_of(self.used);
        let mut i: usize = 0;
        while i < list.len()
            invariant
                self.wf(),
                0 <= i <= list@.len(),
                forall|l: usize| #[trigger] layers_of(layers).contains(l) <==> list@.contains(l),
                self.used_layers() == start.difference(list@.take(i as int).to_set().remove(0)),
            decreases list@.len() - i,
        {
            let layer = list[i];
            if layer != 0 {
                let mut used = render_layers_none();
                std::mem::swap(&mut used, &mut self.used);
                self.used = render_layers_without(used, layer);
                if layer < self.next_free {
                    self.next_free = layer;
                }
            }
            proof {
                assert(list@.take(i + 1) =~= list@.take(i as int).push(layer));
                list@.take(i as int).lemma_push_to_set_commute(layer);
                assert(self.used_layers() =~= start.difference(
                    list@.take(i + 1).to_set().remove(0),
                ));
            }
            i = i + 1;
        }
        proof {
            assert(list@.take(list@.len() as int) =~= list@);
            assert(list@.to_set() =~= layers_of(layers));
        }
    }
}

impl Default for RenderLayersManager {
    fn default() -> (r: Self)
        ensures
            r.wf(),
            r.used_layers() == Set::<usize>::empty(),
            r.next_free() == 1,
    {
        RenderLayersManager { used: render_layers_none(), next_free: 1 }
    }
}

/// Freeing the layer that the last allocation handed out, and nothing else,
/// makes the next allocation hand that same layer out again.
pub proof fn lemma_free_then_allocate_reuses(used: Set<usize>, l: usize)
    requires
        is_lowest_free_layer(used, l),
    ensures
        is_lowest_free_layer(used.insert(l).difference(set![l].remove(0)), l),
{
    assert(used.insert(l).difference(set![l].remove(0)) =~= used);
}

/// While nothing is freed, two allocations in a row hand out distinct layers,
/// the second above the first.
pub proof fn lemma_allocations_distinct(used: Set<usize>, l1: usize, l2: usize)
    requires
        is_lowest_free_layer(used, l1),
        is_lowest_free_layer(used.insert(l1), l2),
    ensures
        l1 < l2,
{
    if l2 < l1 {
        assert(used.contains(l2));
    }
}

} // verus!
