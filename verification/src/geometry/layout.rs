//! Vertex layouts and attribute ids.
use crate::entity::EntityId;
use vstd::prelude::*;
use vstd::string::StringSliceAdditionalSpecFns;

verus! {

/// FNV-1a offset basis.
pub const FNV1A_OFFSET_BASIS: u64 = 0xcbf29ce484222325;

/// FNV-1a prime.
pub const FNV1A_PRIME: u64 = 0x100000001b3;

/// The 64-bit FNV-1a hash of `bytes`.
pub open spec fn fnv1a(bytes: Seq<u8>) -> u64
    decreases bytes.len(),
{
    if bytes.len() == 0 {
        FNV1A_OFFSET_BASIS
    } else {
        (fnv1a(bytes.drop_last()) ^ (bytes.last() as u64)).wrapping_mul(FNV1A_PRIME)
    }
}

/// The id of a vertex attribute: the FNV-1a hash of its name's UTF-8 bytes.
pub fn hash_attr_name(s: &str) -> (r: u64)
    ensures
        r == fnv1a(s.spec_bytes()),
{
    let bytes = s.as_bytes();
    let mut hash: u64 = FNV1A_OFFSET_BASIS;
    let mut i: usize = 0;
    while i < bytes.len()
        invariant
            0 <= i <= bytes@.len(),
            hash == fnv1a(bytes@.take(i as int)),
        decreases bytes@.len() - i,
    {
        proof {
            assert(bytes@.take(i + 1).drop_last() =~= bytes@.take(i as int));
        }
        hash = (hash ^ bytes[i] as u64).wrapping_mul(FNV1A_PRIME);
        i = i + 1;
    }
    assert(bytes@.take(bytes@.len() as int) =~= bytes@);
    hash
}

/// The attributes a geometry's vertices carry, in declaration order.
#[derive(Debug, Clone, Default)]
pub struct VertexLayout {
    attributes: Vec<EntityId>,
}

impl View for VertexLayout {
    type V = Seq<EntityId>;

    closed spec fn view(&self) -> Seq<EntityId> {
        self.attributes@
    }
}

/// No attribute occurs twice in `s`.
pub open spec fn no_duplicates(s: Seq<EntityId>) -> bool {
    forall|i: int, j: int| 0 <= i < j < s.len() ==> s[i] != s[j]
}

/// `s` with `a` appended unless it already holds it.
pub open spec fn pushed_once(s: Seq<EntityId>, a: EntityId) -> Seq<EntityId> {
    if s.contains(a) {
        s
    } else {
        s.push(a)
    }
}

impl VertexLayout {
    /// An empty layout.
    pub fn new() -> (r: Self)
        ensures
            r@ == Seq::<EntityId>::empty(),
    {
        VertexLayout { attributes: Vec::new() }
    }

    /// A layout of exactly `attrs`, in that order.
    pub fn with_attributes(attrs: Vec<EntityId>) -> (r: Self)
        ensures
            r@ == attrs@,
    {
        VertexLayout { attributes: attrs }
    }

    /// The attributes, in order.
    pub fn attributes(&self) -> (r: &[EntityId])
        ensures
            r@ == self@,
    {
        self.attributes.as_slice()
    }

    /// Appends `attr` unless the layout already has it.
    pub fn push(&mut self, attr: EntityId)
        ensures
            final(self)@ == pushed_once(old(self)@, attr),
    {
        if !self.has_attribute(attr) {
            self.attributes.push(attr);
        }
    }

    /// Whether the layout has `attr_entity`.
    pub fn has_attribute(&self, attr_entity: EntityId) -> (r: bool)
        ensures
            r == self@.contains(attr_entity),
    {
        let mut i: usize = 0;
        while i < self.attributes.len()
            invariant
                0 <= i <= self.attributes@.len(),
                forall|k: int| 0 <= k < i ==> self.attributes@[k] != attr_entity,
            decreases self.attributes@.len() - i,
        {
            if self.attributes[i] == attr_entity {
                assert(self.attributes@[i as int] == attr_entity);
                return true;
            }
            i = i + 1;
        }
        false
    }
}

/// Adding an attribute twice is the same as adding it once.
pub proof fn lemma_push_idempotent(s: Seq<EntityId>, a: EntityId)
    ensures
        pushed_once(pushed_once(s, a), a) == pushed_once(s, a),
{
    if !s.contains(a) {
        assert(s.push(a)[s.len() as int] == a);
    }
}

/// Adding an attribute keeps a duplicate-free layout duplicate-free, and the
/// layout then has it.
pub proof fn lemma_push_keeps_unique(s: Seq<EntityId>, a: EntityId)
    requires
        no_duplicates(s),
    ensures
        no_duplicates(pushed_once(s, a)),
        pushed_once(s, a).contains(a),
{
    if !s.contains(a) {
        let t = s.push(a);
        assert(t[s.len() as int] == a);
        assert forall|i: int, j: int| 0 <= i < j < t.len() implies t[i] != t[j] by {
            if j == s.len() {
                assert(s[i] == t[i]);
            }
        }
    }
}

} // verus!
