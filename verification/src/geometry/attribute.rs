//! Vertex attributes: formats, built-in names, default values and the
//! registry that makes custom attributes value-like.
use crate::bytes::str_is;
use crate::entity::EntityId;
use crate::error::{InvalidArgument, ProcessingError, Result};
use crate::geometry::layout::{fnv1a, hash_attr_name};
use std::collections::HashMap;
use vstd::prelude::*;
use vstd::string::StringSliceAdditionalSpecFns;

verus! {

broadcast use vstd::std_specs::hash::group_hash_axioms;

/// How many `f32` components an attribute has.
#[derive(Clone, Copy, Debug, PartialEq, Eq, Structural)]
pub enum AttributeFormat {
    Float,
    Float2,
    Float3,
    Float4,
}

/// The number of `f32` components of `format`.
pub open spec fn components_of(format: AttributeFormat) -> nat {
    match format {
        AttributeFormat::Float => 1,
        AttributeFormat::Float2 => 2,
        AttributeFormat::Float3 => 3,
        AttributeFormat::Float4 => 4,
    }
}

impl AttributeFormat {
    /// Bytes per element: four per component.
    pub fn byte_size(self) -> (r: usize)
        ensures
            r == 4 * components_of(self),
    {
        match self {
            AttributeFormat::Float => 4,
            AttributeFormat::Float2 => 8,
            AttributeFormat::Float3 => 12,
            AttributeFormat::Float4 => 16,
        }
    }

    /// Components per element.
    pub fn components(self) -> (r: usize)
        ensures
            r == components_of(self),
    {
        self.byte_size() / 4
    }

    /// The format with `value` components (`1..=4`).
    pub fn from_u8(value: u8) -> (r: Option<Self>)
        ensures
            value == 1 ==> r == Some(AttributeFormat::Float),
            value == 2 ==> r == Some(AttributeFormat::Float2),
            value == 3 ==> r == Some(AttributeFormat::Float3),
            value == 4 ==> r == Some(AttributeFormat::Float4),
            (value == 0 || value > 4) ==> r is None,
            r matches Some(f) ==> components_of(f) == value,
    {
        match value {
            1 => Some(AttributeFormat::Float),
            2 => Some(AttributeFormat::Float2),
            3 => Some(AttributeFormat::Float3),
            4 => Some(AttributeFormat::Float4),
            _ => None,
        }
    }
}

/// `start..end` clipped to `0..len`, as a `(start, end)` pair.
pub fn clamp_range(start: usize, end: usize, len: usize) -> (r: (usize, usize))
    ensures
        r.0 == (if start < len { start } else { len }),
        r.1 == (if end < len { end } else { len }),
{
    (if start < len { start } else { len }, if end < len { end } else { len })
}

/// The error for element `index` of `len` elements.
pub open spec fn out_of_bounds(index: u32, len: nat) -> ProcessingError {
    ProcessingError::InvalidArgument(InvalidArgument::IndexOutOfBounds { index, available: len as u64 })
}

/// Element `index` of an attribute's values.
pub fn get_element<T: Copy>(values: &Vec<T>, index: u32) -> (r: Result<T>)
    ensures
        index < values@.len() ==> r == Ok::<T, ProcessingError>(values@[index as int]),
        index >= values@.len() ==> r == Err::<T, ProcessingError>(out_of_bounds(index, values@.len())),
{
    let idx = index as usize;
    if idx < values.len() {
        Ok(values[idx])
    } else {
        Err(ProcessingError::InvalidArgument(
            InvalidArgument::IndexOutOfBounds { index, available: values.len() as u64 },
        ))
    }
}

/// Replaces element `index` of an attribute's values; out of bounds, changes
/// nothing and reports the error.
pub fn set_element<T: Copy>(values: &mut Vec<T>, index: u32, v: T) -> (r: Result<()>)
    ensures
        index < old(values)@.len() ==> r is Ok && final(values)@ == old(values)@.update(index as int, v),
        index >= old(values)@.len() ==> r == Err::<(), ProcessingError>(
            out_of_bounds(index, old(values)@.len()),
        ) && final(values)@ == old(values)@,
{
    let idx = index as usize;
    if idx < values.len() {
        values.set(idx, v);
        Ok(())
    } else {
        Err(ProcessingError::InvalidArgument(
            InvalidArgument::IndexOutOfBounds { index, available: values.len() as u64 },
        ))
    }
}

/// The elements `start..end` of an attribute's values, the range clipped to
/// the values.
pub fn get_elements<T: Copy>(values: &Vec<T>, start: usize, end: usize) -> (r: Vec<T>)
    requires
        (if start < values@.len() { start as int } else { values@.len() as int }) <= (if end
            < values@.len() { end as int } else { values@.len() as int }),
    ensures
        r@ == values@.subrange(
            if start < values@.len() { start as int } else { values@.len() as int },
            if end < values@.len() { end as int } else { values@.len() as int },
        ),
{
    let (s, e) = clamp_range(start, end, values.len());
    let mut r: Vec<T> = Vec::new();
    let mut i: usize = s;
    while i < e
        invariant
            s <= i <= e <= values@.len(),
            r@ == values@.subrange(s as int, i as int),
        decreases e - i,
    {
        r.push(values[i]);
        assert(values@.subrange(s as int, i + 1) =~= values@.subrange(s as int, i as int).push(values@[i as int]));
        i = i + 1;
    }
    r
}

/// Reading an element back after setting it gives the value set, and other
/// elements keep theirs.
pub proof fn lemma_get_after_set<T>(values: Seq<T>, index: int, v: T, other: int)
    requires
        0 <= index < values.len(),
        0 <= other < values.len(),
        other != index,
    ensures
        values.update(index, v)[index] == v,
        values.update(index, v)[other] == values[other],
{
}

pub const NAME_POSITION: [u8; 8] = [112, 111, 115, 105, 116, 105, 111, 110];

pub const NAME_NORMAL: [u8; 6] = [110, 111, 114, 109, 97, 108];

pub const NAME_COLOR: [u8; 5] = [99, 111, 108, 111, 114];

pub const NAME_UV: [u8; 2] = [117, 118];

pub const NAME_ROTATION: [u8; 8] = [114, 111, 116, 97, 116, 105, 111, 110];

pub const NAME_SCALE: [u8; 5] = [115, 99, 97, 108, 101];

pub const NAME_LIFE: [u8; 4] = [108, 105, 102, 101];

pub const NAME_VELOCITY: [u8; 8] = [118, 101, 108, 111, 99, 105, 116, 121];

pub const NAME_AGE: [u8; 3] = [97, 103, 101];

/// The bits of the `f32` value `1.0`.
pub const ONE_F32_BITS: u32 = 0x3f80_0000;

/// The conventional initial value of an attribute, as `f32` bit patterns:
/// `life` starts at `1`, `scale` at `(1, 1, 1)`, `color` at opaque white,
/// `rotation` at the identity quaternion, anything else at zero.
pub open spec fn default_init_bits(name: Seq<u8>, format: AttributeFormat) -> Seq<u32> {
    if name == NAME_LIFE@ {
        seq![ONE_F32_BITS]
    } else if name == NAME_SCALE@ {
        seq![ONE_F32_BITS, ONE_F32_BITS, ONE_F32_BITS]
    } else if name == NAME_COLOR@ {
        seq![ONE_F32_BITS, ONE_F32_BITS, ONE_F32_BITS, ONE_F32_BITS]
    } else if name == NAME_ROTATION@ {
        seq![0u32, 0u32, 0u32, ONE_F32_BITS]
    } else {
        Seq::new(components_of(format), |_i: int| 0u32)
    }
}

/// The conventional initial value of attribute `name` (see
/// [`default_init_bits`]), as `f32` bit patterns.
pub fn default_attribute_init(name: &str, format: AttributeFormat) -> (r: Vec<u32>)
    ensures
        r@ == default_init_bits(name.spec_bytes(), format),
{
    if str_is(name, &NAME_LIFE) {
        vec![ONE_F32_BITS]
    } else if str_is(name, &NAME_SCALE) {
        vec![ONE_F32_BITS, ONE_F32_BITS, ONE_F32_BITS]
    } else if str_is(name, &NAME_COLOR) {
        vec![ONE_F32_BITS, ONE_F32_BITS, ONE_F32_BITS, ONE_F32_BITS]
    } else if str_is(name, &NAME_ROTATION) {
        vec![0u32, 0u32, 0u32, ONE_F32_BITS]
    } else {
        let n = format.components();
        let mut v: Vec<u32> = Vec::new();
        let mut i: usize = 0;
        while i < n
            invariant
                0 <= i <= n,
                v@ =~= Seq::new(i as nat, |_i: int| 0u32),
            decreases n - i,
        {
            v.push(0u32);
            i = i + 1;
        }
        v
    }
}

/// The conventional initial values of the particle attributes, whatever the
/// format: `life` starts at one, `scale` at one in each of its three
/// components (unit size), `color` at opaque white, `rotation` at the identity
/// quaternion `(0, 0, 0, 1)`; any other attribute starts at zero in each
/// component of its format. `0x3f80_0000` is the bit pattern of `1.0f32`.
pub proof fn lemma_conventional_initial_values(name: Seq<u8>, format: AttributeFormat)
    ensures
        name == seq![108u8, 105, 102, 101] ==> default_init_bits(name, format) == seq![0x3f80_0000u32],
        name == seq![115u8, 99, 97, 108, 101] ==> default_init_bits(name, format) == seq![
            0x3f80_0000u32,
            0x3f80_0000u32,
            0x3f80_0000u32,
        ],
        name == seq![99u8, 111, 108, 111, 114] ==> default_init_bits(name, format) == seq![
            0x3f80_0000u32,
            0x3f80_0000u32,
            0x3f80_0000u32,
            0x3f80_0000u32,
        ],
        name == seq![114u8, 111, 116, 97, 116, 105, 111, 110] ==> default_init_bits(name, format) == seq![
            0u32,
            0u32,
            0u32,
            0x3f80_0000u32,
        ],
        (name != seq![108u8, 105, 102, 101] && name != seq![115u8, 99, 97, 108, 101] && name != seq![
            99u8,
            111,
            108,
            111,
            114,
        ] && name != seq![114u8, 111, 116, 97, 116, 105, 111, 110]) ==> {
            &&& default_init_bits(name, format).len() == components_of(format)
            &&& forall|i: int| 0 <= i < default_init_bits(name, format).len() ==> #[trigger] default_init_bits(name, format)[i] == 0u32
        },
        format == AttributeFormat::Float ==> components_of(format) == 1,
        format == AttributeFormat::Float2 ==> components_of(format) == 2,
        format == AttributeFormat::Float3 ==> components_of(format) == 3,
        format == AttributeFormat::Float4 ==> components_of(format) == 4,
{
    assert(NAME_LIFE@ =~= seq![108u8, 105, 102, 101]);
    assert(NAME_SCALE@ =~= seq![115u8, 99, 97, 108, 101]);
    assert(NAME_COLOR@ =~= seq![99u8, 111, 108, 111, 114]);
    assert(NAME_ROTATION@ =~= seq![114u8, 111, 116, 97, 116, 105, 111, 110]);
}

/// The built-in attribute entities.
#[derive(Clone, Copy, Debug)]
pub struct BuiltinAttributes {
    pub position: EntityId,
    pub normal: EntityId,
    pub color: EntityId,
    pub uv: EntityId,
    pub rotation: EntityId,
    pub scale: EntityId,
    pub life: EntityId,
    pub velocity: EntityId,
    pub age: EntityId,
}

/// The built-in attribute called `name`, if there is one.
pub open spec fn builtin_named(b: BuiltinAttributes, name: Seq<u8>) -> Option<EntityId> {
    if name == NAME_POSITION@ {
        Some(b.position)
    } else if name == NAME_NORMAL@ {
        Some(b.normal)
    } else if name == NAME_COLOR@ {
        Some(b.color)
    } else if name == NAME_UV@ {
        Some(b.uv)
    } else if name == NAME_ROTATION@ {
        Some(b.rotation)
    } else if name == NAME_SCALE@ {
        Some(b.scale)
    } else if name == NAME_LIFE@ {
        Some(b.life)
    } else if name == NAME_VELOCITY@ {
        Some(b.velocity)
    } else if name == NAME_AGE@ {
        Some(b.age)
    } else {
        None
    }
}

impl BuiltinAttributes {
    /// The built-in attribute called `name`, if there is one.
    pub fn by_name(&self, name: &str) -> (r: Option<EntityId>)
        ensures
            r == builtin_named(*self, name.spec_bytes()),
    {
        if str_is(name, &NAME_POSITION) {
            Some(self.position)
        } else if str_is(name, &NAME_NORMAL) {
            Some(self.normal)
        } else if str_is(name, &NAME_COLOR) {
            Some(self.color)
        } else if str_is(name, &NAME_UV) {
            Some(self.uv)
        } else if str_is(name, &NAME_ROTATION) {
            Some(self.rotation)
        } else if str_is(name, &NAME_SCALE) {
            Some(self.scale)
        } else if str_is(name, &NAME_LIFE) {
            Some(self.life)
        } else if str_is(name, &NAME_VELOCITY) {
            Some(self.velocity)
        } else if str_is(name, &NAME_AGE) {
            Some(self.age)
        } else {
            None
        }
    }
}

/// How a requested attribute resolves.
#[derive(Clone, Copy, Debug, PartialEq, Eq, Structural)]
pub enum AttributeResolution {
    /// An attribute of that name exists: use this entity.
    Existing(EntityId),
    /// None exists yet: spawn one, then record it under `id` with
    /// [`AttributeRegistry::register`].
    Spawn { id: u64 },
}

/// Custom attributes by name id, so that an attribute name always resolves to
/// the same entity, as built-in names do.
pub struct AttributeRegistry {
    by_name: HashMap<u64, (EntityId, AttributeFormat)>,
}

/// What resolving `name` with `format` against `builtins` and the registry
/// contents `reg` gives.
pub open spec fn resolution(
    reg: Map<u64, (EntityId, AttributeFormat)>,
    builtins: BuiltinAttributes,
    name: Seq<u8>,
    format: AttributeFormat,
) -> Result<AttributeResolution> {
    match builtin_named(builtins, name) {
        Some(e) => Ok(AttributeResolution::Existing(e)),
        None => {
            let id = fnv1a(name);
            if reg.contains_key(id) {
                if reg[id].1 != format {
                    Err(ProcessingError::InvalidArgument(InvalidArgument::AttributeRedeclared))
                } else {
                    Ok(AttributeResolution::Existing(reg[id].0))
                }
            } else {
                Ok(AttributeResolution::Spawn { id })
            }
        },
    }
}

impl View for AttributeRegistry {
    type V = Map<u64, (EntityId, AttributeFormat)>;

    closed spec fn view(&self) -> Map<u64, (EntityId, AttributeFormat)> {
        self.by_name@
    }
}

impl AttributeRegistry {
    /// An empty registry.
    pub fn new() -> (r: Self)
        ensures
            r@ == Map::<u64, (EntityId, AttributeFormat)>::empty(),
    {
        AttributeRegistry { by_name: HashMap::new() }
    }

    /// Records the entity spawned for the custom attribute with name id `id`.
    pub fn register(&mut self, id: u64, entity: EntityId, format: AttributeFormat)
        ensures
            final(self)@ == old(self)@.insert(id, (entity, format)),
    {
        self.by_name.insert(id, (entity, format));
    }
}

/// Resolves attribute `name` with `format`: a built-in name gives the
/// built-in entity; a custom name already registered gives its entity, or an
/// error if it was declared with another format; a new custom name asks the
/// caller to spawn an entity and register it.
pub fn create(
    registry: &AttributeRegistry,
    builtins: &BuiltinAttributes,
    name: &str,
    format: AttributeFormat,
) -> (r: Result<AttributeResolution>)
    ensures
        r == resolution(registry@, *builtins, name.spec_bytes(), format),
{
    if let Some(entity) = builtins.by_name(name) {
        return Ok(AttributeResolution::Existing(entity));
    }
    let id = hash_attr_name(name);
    match registry.by_name.get(&id) {
        Some(found) => {
            let (entity, existing) = *found;
            if existing != format {
                Err(ProcessingError::InvalidArgument(InvalidArgument::AttributeRedeclared))
            } else {
                Ok(AttributeResolution::Existing(entity))
            }
        },
        None => Ok(AttributeResolution::Spawn { id }),
    }
}

/// Once a custom name is registered, it resolves to the registered entity
/// with its format, and to an error with any other format.
pub proof fn lemma_registered_name_resolves(
    reg: Map<u64, (EntityId, AttributeFormat)>,
    builtins: BuiltinAttributes,
    name: Seq<u8>,
    entity: EntityId,
    format: AttributeFormat,
    other: AttributeFormat,
)
    requires
        builtin_named(builtins, name) is None,
        resolution(reg, builtins, name, format) == Ok::<AttributeResolution, ProcessingError>(
            AttributeResolution::Spawn { id: fnv1a(name) },
        ),
    ensures
        resolution(reg.insert(fnv1a(name), (entity, format)), builtins, name, format)
            == Ok::<AttributeResolution, ProcessingError>(AttributeResolution::Existing(entity)),
        other != format ==> resolution(reg.insert(fnv1a(name), (entity, format)), builtins, name, other)
            == Err::<AttributeResolution, ProcessingError>(
            ProcessingError::InvalidArgument(InvalidArgument::AttributeRedeclared),
        ),
{
}

/// A built-in name resolves to its built-in entity, whatever the format and
/// whatever the registry holds.
pub proof fn lemma_builtin_names_are_singletons(
    reg: Map<u64, (EntityId, AttributeFormat)>,
    builtins: BuiltinAttributes,
    name: Seq<u8>,
    format: AttributeFormat,
)
    requires
        builtin_named(builtins, name) is Some,
    ensures
        resolution(reg, builtins, name, format) == Ok::<AttributeResolution, ProcessingError>(
            AttributeResolution::Existing(builtin_named(builtins, name)->0),
        ),
{
}

/// Every conventional default has as many components as its format when the
/// name is used with its built-in format, and an unknown name gets zeros of
/// its format's width.
pub proof fn lemma_default_init_width(name: Seq<u8>, format: AttributeFormat)
    requires
        name == NAME_LIFE@ ==> format == AttributeFormat::Float,
        name == NAME_SCALE@ ==> format == AttributeFormat::Float3,
        name == NAME_COLOR@ ==> format == AttributeFormat::Float4,
        name == NAME_ROTATION@ ==> format == AttributeFormat::Float4,
    ensures
        default_init_bits(name, format).len() == components_of(format),
{
}

} // verus!
