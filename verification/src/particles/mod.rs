//! Particle systems: capacity, per-attribute buffers and the plans that
//! drive their GPU passes.
pub mod emit;
pub mod scan;
pub mod sort;
pub mod pack;
pub mod reduce;
pub mod compact;
pub mod grid;
pub mod connectivity;
pub mod prims;
pub mod algebra;
pub mod buffer_map;

use crate::bytes::{tiled, tile_seed, u32s_le, u32s_to_bytes};
use crate::entity::EntityId;
use crate::error::{InvalidArgument, ProcessingError, Result};
use crate::geometry::attribute::{components_of, default_attribute_init, default_init_bits, AttributeFormat};
use crate::particles::buffer_map::{
    buffer_entries, buffer_map_entries, buffer_map_get, buffer_map_insert, buffer_map_with_capacity,
};
use bevy_platform::collections::HashMap;
use vstd::prelude::*;
use vstd::string::StringSliceAdditionalSpecFns;

verus! {

/// An index buffer and the indirect-draw arguments that draw the particle
/// vertices through it.
#[derive(Clone, Copy, Debug, PartialEq, Eq, Structural)]
pub struct Connectivity {
    pub index_buffer: EntityId,
    pub indirect_buffer: EntityId,
}

/// A particle system.
pub struct Particles {
    pub capacity: u32,
    /// Attribute entity (bits) to backing buffer entity (bits).
    pub buffers: HashMap<u64, u64>,
    /// The persistent instanced-draw entity, once created.
    pub draw_entity: Option<EntityId>,
    /// The persistent direct-rasterization entity, once created.
    pub raster_draw_entity: Option<EntityId>,
    /// Custom connectivity for direct rasterization.
    pub connectivity: Option<Connectivity>,
    /// Ring-buffer write cursor; wraps at `capacity`.
    pub emit_head: u32,
}

/// A draw of a particle system.
#[derive(Clone, Copy, Debug, PartialEq, Eq, Structural)]
pub struct ParticlesDraw {
    pub particles: EntityId,
}

/// The entries of attribute-buffer pairs, by bits, a later pair for the same
/// attribute taking the place of an earlier one.
pub open spec fn pairs_map(pairs: Seq<(EntityId, EntityId)>) -> Map<u64, u64>
    decreases pairs.len(),
{
    if pairs.len() == 0 {
        Map::empty()
    } else {
        pairs_map(pairs.drop_last()).insert(pairs.last().0.0, pairs.last().1.0)
    }
}

impl Particles {
    /// What the system maps each attribute (by bits) to: the bits of the
    /// buffer that backs it.
    pub open spec fn buffer_map(&self) -> Map<u64, u64> {
        buffer_entries(self.buffers)
    }

    /// A system of `capacity` slots whose attributes are backed by the given
    /// (attribute, buffer) pairs, the cursor at `0`, no draw entities and no
    /// custom connectivity.
    pub fn new(capacity: u32, attribute_buffers: &[(EntityId, EntityId)], connectivity: Option<Connectivity>) -> (r: Self)
        ensures
            r.capacity == capacity,
            r.buffer_map() == pairs_map(attribute_buffers@),
            r.draw_entity is None,
            r.raster_draw_entity is None,
            r.connectivity == connectivity,
            r.emit_head == 0,
    {
        let mut buffers = buffer_map_with_capacity(attribute_buffers.len());
        assert(buffer_entries(buffers) =~= pairs_map(attribute_buffers@.subrange(0, 0)));
        let mut i: usize = 0;
        while i < attribute_buffers.len()
            invariant
                0 <= i <= attribute_buffers@.len(),
                buffer_entries(buffers) == pairs_map(attribute_buffers@.subrange(0, i as int)),
            decreases attribute_buffers@.len() - i,
        {
            let (attribute, buffer) = attribute_buffers[i];
            buffer_map_insert(&mut buffers, attribute.0, buffer.0);
            proof {
                let next = attribute_buffers@.subrange(0, i + 1);
                assert(next.drop_last() =~= attribute_buffers@.subrange(0, i as int));
            }
            i = i + 1;
        }
        assert(attribute_buffers@.subrange(0, i as int) =~= attribute_buffers@);
        Particles {
            capacity,
            buffers,
            draw_entity: None,
            raster_draw_entity: None,
            connectivity,
            emit_head: 0,
        }
    }

    /// The buffer backing `attribute`, if the system has one.
    pub fn buffer(&self, attribute: EntityId) -> (r: Option<EntityId>)
        ensures
            self.buffer_map().contains_key(attribute.0) ==> r == Some(EntityId(self.buffer_map()[attribute.0])),
            !self.buffer_map().contains_key(attribute.0) ==> r is None,
    {
        match buffer_map_get(&self.buffers, attribute.0) {
            Some(b) => Some(EntityId(b)),
            None => None,
        }
    }

    /// Records the buffer backing `attribute`.
    pub fn insert_buffer(&mut self, attribute: EntityId, buffer: EntityId)
        ensures
            final(self).buffer_map() == old(self).buffer_map().insert(attribute.0, buffer.0),
            final(self).capacity == old(self).capacity,
            final(self).emit_head == old(self).emit_head,
            final(self).connectivity == old(self).connectivity,
            final(self).draw_entity == old(self).draw_entity,
            final(self).raster_draw_entity == old(self).raster_draw_entity,
    {
        buffer_map_insert(&mut self.buffers, attribute.0, buffer.0);
    }

    /// The system's (attribute, buffer) pairs, each once, in the map's
    /// iteration order.
    pub fn attribute_buffers(&self) -> (r: Vec<(EntityId, EntityId)>)
        ensures
            forall|i: int| 0 <= i < r@.len() ==> #[trigger] self.buffer_map().contains_key(r@[i].0.0)
                && self.buffer_map()[r@[i].0.0] == r@[i].1.0,
            forall|k: u64| #[trigger] self.buffer_map().contains_key(k) ==> exists|i: int| 0 <= i < r@.len() && r@[i].0.0 == k,
            forall|i: int, j: int| 0 <= i < j < r@.len() ==> r@[i].0 != r@[j].0,
    {
        let entries = buffer_map_entries(&self.buffers);
        let mut out: Vec<(EntityId, EntityId)> = Vec::new();
        let mut i: usize = 0;
        while i < entries.len()
            invariant
                0 <= i <= entries@.len(),
                out@.len() == i,
                forall|j: int| 0 <= j < i ==> #[trigger] out@[j] == (EntityId(entries@[j].0), EntityId(entries@[j].1)),
            decreases entries@.len() - i,
        {
            let (a, b) = entries[i];
            out.push((EntityId(a), EntityId(b)));
            i = i + 1;
        }
        proof {
            assert forall|k: u64| #[trigger] self.buffer_map().contains_key(k) implies exists|i: int| 0 <= i < out@.len() && out@[i].0.0 == k by {
                let i = choose|i: int| 0 <= i < entries@.len() && entries@[i].0 == k;
                assert(out@[i].0.0 == k);
            }
            assert forall|i: int, j: int| 0 <= i < j < out@.len() implies out@[i].0 != out@[j].0 by {
                assert(out@[i] == (EntityId(entries@[i].0), EntityId(entries@[i].1)));
                assert(out@[j] == (EntityId(entries@[j].0), EntityId(entries@[j].1)));
            }
            assert forall|i: int| 0 <= i < out@.len() implies #[trigger] self.buffer_map().contains_key(out@[i].0.0)
                && self.buffer_map()[out@[i].0.0] == out@[i].1.0 by {
                assert(out@[i] == (EntityId(entries@[i].0), EntityId(entries@[i].1)));
                assert(buffer_entries(self.buffers).contains_key(entries@[i].0));
            }
        }
        out
    }

    /// The entities the system owns besides its attribute buffers, in the
    /// order they are despawned: the instanced-draw entity, the
    /// direct-rasterization entity, then the connectivity's index and
    /// indirect buffers, each where there is one.
    pub open spec fn owned_tail(&self) -> Seq<EntityId> {
        let draw = match self.draw_entity {
            Some(e) => seq![e],
            None => Seq::empty(),
        };
        let raster = match self.raster_draw_entity {
            Some(e) => seq![e],
            None => Seq::empty(),
        };
        let conn = match self.connectivity {
            Some(c) => seq![c.index_buffer, c.indirect_buffer],
            None => Seq::empty(),
        };
        draw + raster + conn
    }

    /// Whether `e` is the buffer backing one of the system's attributes.
    pub open spec fn backs_an_attribute(&self, e: EntityId) -> bool {
        exists|k: u64| #[trigger] self.buffer_map().contains_key(k) && self.buffer_map()[k] == e.0
    }

    /// Every entity that goes when the system is destroyed, but the system's
    /// own: first the buffer of each attribute once (in the map's iteration
    /// order), then the entities of [`Self::owned_tail`].
    pub fn owned_entities(&self) -> (r: Vec<EntityId>)
        ensures
            r@.len() >= self.owned_tail().len(),
            r@.skip(r@.len() - self.owned_tail().len()) == self.owned_tail(),
            forall|i: int| 0 <= i < r@.len() - self.owned_tail().len() ==> self.backs_an_attribute(#[trigger] r@[i]),
            forall|k: u64| #[trigger] self.buffer_map().contains_key(k) ==> exists|i: int|
                0 <= i < r@.len() - self.owned_tail().len() && r@[i].0 == self.buffer_map()[k],
    {
        let pairs = self.attribute_buffers();
        let mut out: Vec<EntityId> = Vec::new();
        let mut i: usize = 0;
        while i < pairs.len()
            invariant
                0 <= i <= pairs@.len(),
                out@.len() == i,
                forall|j: int| 0 <= j < i ==> #[trigger] out@[j] == pairs@[j].1,
            decreases pairs@.len() - i,
        {
            out.push(pairs[i].1);
            i = i + 1;
        }
        let n = out.len();
        let ghost buffers = out@;
        if let Some(e) = self.draw_entity {
            out.push(e);
        }
        if let Some(e) = self.raster_draw_entity {
            out.push(e);
        }
        if let Some(c) = self.connectivity {
            out.push(c.index_buffer);
            out.push(c.indirect_buffer);
        }
        proof {
            assert(out@ =~= buffers + self.owned_tail());
            assert(out@.skip(n as int) =~= self.owned_tail());
            assert(out@.len() - self.owned_tail().len() == n);
            assert forall|i: int| 0 <= i < out@.len() - self.owned_tail().len() implies self.backs_an_attribute(
                #[trigger] out@[i],
            ) by {
                assert(out@[i] == buffers[i]);
                assert(buffers[i] == pairs@[i].1);
                assert(self.buffer_map().contains_key(pairs@[i].0.0));
                assert(self.buffer_map()[pairs@[i].0.0] == out@[i].0);
            }
            assert forall|k: u64| #[trigger] self.buffer_map().contains_key(k) implies exists|i: int|
                0 <= i < n && out@[i].0 == self.buffer_map()[k] by {
                let i = choose|i: int| 0 <= i < pairs@.len() && pairs@[i].0.0 == k;
                assert(out@[i] == buffers[i]);
                assert(buffers[i] == pairs@[i].1);
            }
        }
        out
    }

    /// Installs `connectivity`, giving back the one it replaces so that its
    /// buffers can be destroyed.
    pub fn replace_connectivity(&mut self, connectivity: Connectivity) -> (r: Option<Connectivity>)
        ensures
            r == old(self).connectivity,
            final(self).connectivity == Some(connectivity),
            final(self).capacity == old(self).capacity,
            final(self).buffer_map() == old(self).buffer_map(),
            final(self).emit_head == old(self).emit_head,
    {
        let previous = self.connectivity;
        self.connectivity = Some(connectivity);
        previous
    }
}

/// The byte size of an attribute buffer of `capacity` elements of `format`.
pub fn attribute_buffer_bytes(capacity: u32, format: AttributeFormat) -> (r: u64)
    ensures
        r == capacity as int * (4 * components_of(format)),
{
    proof {
        assert(capacity as int * (4 * components_of(format)) <= 0xffff_ffff * 16) by (nonlinear_arith)
            requires capacity <= 0xffff_ffff, components_of(format) <= 4;
    }
    capacity as u64 * format.byte_size() as u64
}

/// `DrawIndexedIndirectArgs` drawing `index_count` indices once.
pub fn indexed_draw_args(index_count: u32) -> (r: [u32; 5])
    ensures
        r@ == seq![index_count, 1u32, 0u32, 0u32, 0u32],
{
    let r = [index_count, 1u32, 0u32, 0u32, 0u32];
    assert(r@ =~= seq![index_count, 1u32, 0u32, 0u32, 0u32]);
    r
}

/// Widens 16-bit mesh indices to the 32-bit ones particle connectivity uses.
pub fn widen_indices(indices: &[u16]) -> (r: Vec<u32>)
    ensures
        r@.len() == indices@.len(),
        forall|i: int| 0 <= i < r@.len() ==> r@[i] == indices@[i] as u32,
{
    let mut out: Vec<u32> = Vec::new();
    let mut i: usize = 0;
    while i < indices.len()
        invariant
            0 <= i <= indices@.len(),
            out@.len() == i,
            forall|k: int| 0 <= k < i ==> out@[k] == indices@[k] as u32,
        decreases indices@.len() - i,
    {
        out.push(indices[i] as u32);
        i = i + 1;
    }
    out
}

/// How an attribute buffer gets its initial contents.
pub enum AttributeSeed {
    /// Use the buffer if the system has one, else seed the conventional default.
    Ensure,
    /// Declare a new attribute: seed it with these bytes per element, or with
    /// the conventional default; an attribute already present is an error.
    Declare(Option<Vec<u8>>),
}

/// The little-endian bytes of the conventional default of `name`.
pub open spec fn convention_seed(name: Seq<u8>, format: AttributeFormat) -> Seq<u8> {
    u32s_le(default_init_bits(name, format))
}

/// The little-endian bytes of the conventional default of attribute `name`
/// with `format`, one element.
pub fn convention_seed_bytes(name: &str, format: AttributeFormat) -> (r: Vec<u8>)
    ensures
        r@ == convention_seed(name.spec_bytes(), format),
{
    let bits = default_attribute_init(name, format);
    u32s_to_bytes(bits.as_slice())
}

/// The first attribute in `others` with the same name (`.1`): its buffer if
/// its format (`.2`) is `format`, an error otherwise; `None` if there is none.
pub open spec fn same_name_hit(others: Seq<(EntityId, bool, AttributeFormat)>, format: AttributeFormat) -> Result<Option<EntityId>>
    decreases others.len(),
{
    if others.len() == 0 {
        Ok(None)
    } else if others[0].1 {
        if others[0].2 != format {
            Err(ProcessingError::InvalidArgument(InvalidArgument::AttributeAlreadyPresent))
        } else {
            Ok(Some(others[0].0))
        }
    } else {
        same_name_hit(others.drop_first(), format)
    }
}

/// Looks through the other attributes of a system, in order, for one with
/// the same name (see [`same_name_hit`]).
pub fn find_same_name(others: &[(EntityId, bool, AttributeFormat)], format: AttributeFormat) -> (r: Result<Option<EntityId>>)
    ensures
        r == same_name_hit(others@, format),
{
    let mut i: usize = 0;
    assert(others@.skip(0) =~= others@);
    while i < others.len()
        invariant
            0 <= i <= others@.len(),
            same_name_hit(others@, format) == same_name_hit(others@.skip(i as int), format),
        decreases others@.len() - i,
    {
        proof {
            assert(others@.skip(i as int).drop_first() =~= others@.skip(i + 1));
            assert(others@.skip(i as int)[0] == others@[i as int]);
        }
        let (buf, same, other_format) = others[i];
        if same {
            if other_format != format {
                return Err(
                    ProcessingError::InvalidArgument(InvalidArgument::AttributeAlreadyPresent),
                );
            }
            return Ok(Some(buf));
        }
        i = i + 1;
    }
    assert(others@.skip(i as int).len() == 0);
    Ok(None)
}

/// What materializing an attribute comes to.
#[derive(Debug, PartialEq, Eq)]
pub enum Materialized {
    /// The system already has a buffer for it.
    Existing(EntityId),
    /// Create a buffer with these initial bytes and record it.
    Create(Vec<u8>),
}

/// The per-element seed bytes chosen for a new attribute buffer.
pub open spec fn seed_bytes(seed: &AttributeSeed, name: Seq<u8>, format: AttributeFormat) -> Result<Seq<u8>> {
    match seed {
        AttributeSeed::Declare(Some(d)) => if d@.len() != 4 * components_of(format) {
            Err(
                ProcessingError::InvalidArgument(
                    InvalidArgument::DefaultSizeMismatch {
                        got: d@.len() as u64,
                        expected: (4 * components_of(format)) as u64,
                    },
                ),
            )
        } else {
            Ok(d@)
        },
        _ => if convention_seed(name, format).len() != 4 * components_of(format) {
            Err(ProcessingError::InvalidArgument(InvalidArgument::IncompatibleBuiltinName))
        } else {
            Ok(convention_seed(name, format))
        },
    }
}

/// Materializes attribute `name` (with `format`) on a system of `capacity`
/// slots. `existing` is the buffer the system has under this very attribute,
/// `others` the system's other attributes in their iteration order (buffer,
/// whether the name is the same, format). A buffer found either way is kept
/// (or refused for a declaration); otherwise the per-element seed is chosen
/// and checked against the format's size, and tiled over every slot.
pub fn materialize_attribute(
    existing: Option<EntityId>,
    others: &[(EntityId, bool, AttributeFormat)],
    seed: &AttributeSeed,
    name: &str,
    format: AttributeFormat,
    capacity: u32,
) -> (r: Result<Materialized>)
    requires
        capacity as int * (4 * components_of(format)) <= usize::MAX,
    ensures
        ({
            let found = match existing {
                Some(b) => Ok(Some(b)),
                None => same_name_hit(others@, format),
            };
            match found {
                Err(e) => r == Err::<Materialized, ProcessingError>(e),
                Ok(Some(b)) => match seed {
                    AttributeSeed::Ensure => r == Ok::<Materialized, ProcessingError>(
                        Materialized::Existing(b),
                    ),
                    AttributeSeed::Declare(_) => r == Err::<Materialized, ProcessingError>(
                        ProcessingError::InvalidArgument(InvalidArgument::AttributeAlreadyPresent),
                    ),
                },
                Ok(None) => match seed_bytes(seed, name.spec_bytes(), format) {
                    Err(e) => r == Err::<Materialized, ProcessingError>(e),
                    Ok(per) => (r matches Ok(Materialized::Create(init)) && init@ == tiled(
                        per,
                        capacity as nat,
                    )),
                },
            }
        }),
{
    let found = match existing {
        Some(b) => Some(b),
        None => match find_same_name(others, format) {
            Ok(f) => f,
            Err(e) => return Err(e),
        },
    };
    if let Some(b) = found {
        return match seed {
            AttributeSeed::Ensure => Ok(Materialized::Existing(b)),
            AttributeSeed::Declare(_) => Err(
                ProcessingError::InvalidArgument(InvalidArgument::AttributeAlreadyPresent),
            ),
        };
    }
    let elem_size = format.byte_size();
    let per_element: Vec<u8> = match seed {
        AttributeSeed::Declare(Some(default_bytes)) => {
            if default_bytes.len() != elem_size {
                return Err(
                    ProcessingError::InvalidArgument(
                        InvalidArgument::DefaultSizeMismatch {
                            got: default_bytes.len() as u64,
                            expected: elem_size as u64,
                        },
                    ),
                );
            }
            default_bytes.clone()
        },
        _ => {
            let s = convention_seed_bytes(name, format);
            if s.len() != elem_size {
                return Err(
                    ProcessingError::InvalidArgument(InvalidArgument::IncompatibleBuiltinName),
                );
            }
            s
        },
    };
    assert(per_element@.len() == 4 * components_of(format));
    let initial = tile_seed(per_element.as_slice(), capacity as usize);
    Ok(Materialized::Create(initial))
}

} // verus!
