//! Byte-level helpers: comparisons, little-endian encodings, tiling.
use vstd::prelude::*;
use vstd::string::StringSliceAdditionalSpecFns;

verus! {

/// Whether two byte slices hold the same bytes.
pub fn bytes_eq(a: &[u8], b: &[u8]) -> (r: bool)
    ensures
        r == (a@ == b@),
{
    if a.len() != b.len() {
        return false;
    }
    let mut i: usize = 0;
    while i < a.len()
        invariant
            0 <= i <= a@.len(),
            a@.len() == b@.len(),
            forall|k: int| 0 <= k < i ==> a@[k] == b@[k],
        decreases a@.len() - i,
    {
        if a[i] != b[i] {
            return false;
        }
        i = i + 1;
    }
    assert(a@ =~= b@);
    true
}

/// Whether the UTF-8 bytes of `s` are exactly `lit`.
pub fn str_is(s: &str, lit: &[u8]) -> (r: bool)
    ensures
        r == (s.spec_bytes() == lit@),
{
    bytes_eq(s.as_bytes(), lit)
}

/// `b` in lower case, if it is an ASCII upper-case letter.
pub open spec fn ascii_lower(b: u8) -> u8 {
    if 65 <= b <= 90 {
        (b + 32) as u8
    } else {
        b
    }
}

/// Whether two byte strings are equal once ASCII letters are folded to lower case.
pub open spec fn eq_ignore_ascii_case(a: Seq<u8>, b: Seq<u8>) -> bool {
    &&& a.len() == b.len()
    &&& forall|k: int| 0 <= k < a.len() ==> ascii_lower(#[trigger] a[k]) == ascii_lower(b[k])
}

fn to_ascii_lower(b: u8) -> (r: u8)
    ensures
        r == ascii_lower(b),
{
    if 65 <= b && b <= 90 {
        b + 32
    } else {
        b
    }
}

/// Whether `s` matches `lit` ignoring ASCII case.
pub fn str_is_ignore_ascii_case(s: &str, lit: &[u8]) -> (r: bool)
    ensures
        r == eq_ignore_ascii_case(s.spec_bytes(), lit@),
{
    let a = s.as_bytes();
    if a.len() != lit.len() {
        return false;
    }
    let mut i: usize = 0;
    while i < a.len()
        invariant
            0 <= i <= a@.len(),
            a@.len() == lit@.len(),
            a@ == s.spec_bytes(),
            forall|k: int| 0 <= k < i ==> ascii_lower(#[trigger] a@[k]) == ascii_lower(lit@[k]),
        decreases a@.len() - i,
    {
        if to_ascii_lower(a[i]) != to_ascii_lower(lit[i]) {
            return false;
        }
        i = i + 1;
    }
    true
}

/// Byte `b` (0 is the lowest) of `v`.
pub open spec fn le_byte(v: u32, b: int) -> u8 {
    ((v >> (8 * b) as u32) & 0xff) as u8
}

/// The four little-endian bytes of `v`.
pub open spec fn u32_le(v: u32) -> Seq<u8> {
    seq![le_byte(v, 0), le_byte(v, 1), le_byte(v, 2), le_byte(v, 3)]
}

/// The `u32` whose little-endian bytes are `b0..b3`.
pub open spec fn u32_from_le(b0: u8, b1: u8, b2: u8, b3: u8) -> u32 {
    (b0 as u32) | ((b1 as u32) << 8) | ((b2 as u32) << 16) | ((b3 as u32) << 24)
}

/// Little-endian bytes of each value, one after the other.
pub open spec fn u32s_le(values: Seq<u32>) -> Seq<u8>
    decreases values.len(),
{
    if values.len() == 0 {
        Seq::empty()
    } else {
        u32s_le(values.drop_last()) + u32_le(values.last())
    }
}

/// The four little-endian bytes of `v`.
pub fn u32_to_le_bytes(v: u32) -> (r: [u8; 4])
    ensures
        r@ == u32_le(v),
{
    let b0 = (v & 0xff) as u8;
    let b1 = ((v >> 8u32) & 0xff) as u8;
    let b2 = ((v >> 16u32) & 0xff) as u8;
    let b3 = ((v >> 24u32) & 0xff) as u8;
    let r = [b0, b1, b2, b3];
    assert(r@ =~= u32_le(v)) by {
        assert(v >> 0u32 == v) by (bit_vector);
    }
    r
}

/// The `u32` whose little-endian bytes are the first four of `bytes`.
pub fn u32_from_le_bytes(bytes: &[u8]) -> (r: u32)
    requires
        bytes@.len() >= 4,
    ensures
        r == u32_from_le(bytes@[0], bytes@[1], bytes@[2], bytes@[3]),
{
    (bytes[0] as u32) | ((bytes[1] as u32) << 8u32) | ((bytes[2] as u32) << 16u32) | ((
    bytes[3] as u32) << 24u32)
}

/// Decoding the little-endian bytes of a value gives the value back.
pub proof fn lemma_u32_le_roundtrip(v: u32)
    ensures
        u32_from_le(le_byte(v, 0), le_byte(v, 1), le_byte(v, 2), le_byte(v, 3)) == v,
{
    assert((((v >> 0u32) & 0xff) as u8 as u32) | ((((v >> 8u32) & 0xff) as u8 as u32) << 8u32) | ((
    ((v >> 16u32) & 0xff) as u8 as u32) << 16u32) | ((((v >> 24u32) & 0xff) as u8 as u32)
        << 24u32) == v) by (bit_vector);
}

/// Packs `values` little-endian, four bytes each, for upload as an index or
/// indirect-argument buffer.
pub fn u32s_to_bytes(values: &[u32]) -> (r: Vec<u8>)
    ensures
        r@ == u32s_le(values@),
        r@.len() == 4 * values@.len(),
{
    let mut bytes: Vec<u8> = Vec::new();
    let mut i: usize = 0;
    while i < values.len()
        invariant
            0 <= i <= values@.len(),
            bytes@ == u32s_le(values@.take(i as int)),
            bytes@.len() == 4 * i,
        decreases values@.len() - i,
    {
        let le = u32_to_le_bytes(values[i]);
        bytes.push(le[0]);
        bytes.push(le[1]);
        bytes.push(le[2]);
        bytes.push(le[3]);
        proof {
            assert(values@.take(i + 1).drop_last() =~= values@.take(i as int));
            assert(bytes@ =~= u32s_le(values@.take(i + 1)));
        }
        i = i + 1;
    }
    assert(values@.take(values@.len() as int) =~= values@);
    bytes
}

/// `pattern` repeated `count` times.
pub open spec fn tiled(pattern: Seq<u8>, count: nat) -> Seq<u8>
    decreases count,
{
    if count == 0 {
        Seq::empty()
    } else {
        tiled(pattern, (count - 1) as nat) + pattern
    }
}

/// The length of `count` copies of `pattern`.
pub proof fn lemma_tiled_len(pattern: Seq<u8>, count: nat)
    ensures
        tiled(pattern, count).len() == count * pattern.len(),
    decreases count,
{
    if count > 0 {
        let c1 = (count - 1) as nat;
        lemma_tiled_len(pattern, c1);
        assert(tiled(pattern, count) == tiled(pattern, c1) + pattern);
        assert(c1 * pattern.len() + pattern.len() == count * pattern.len()) by (nonlinear_arith)
            requires c1 + 1 == count;
    } else {
        assert(count * pattern.len() == 0) by (nonlinear_arith)
            requires count == 0;
    }
}

/// `per_element` repeated `capacity` times: the initial contents of an
/// attribute buffer whose every slot starts at the same value.
pub fn tile_seed(per_element: &[u8], capacity: usize) -> (r: Vec<u8>)
    requires
        capacity * per_element@.len() <= usize::MAX,
    ensures
        r@ == tiled(per_element@, capacity as nat),
{
    let mut bytes: Vec<u8> = Vec::new();
    let mut c: usize = 0;
    while c < capacity
        invariant
            0 <= c <= capacity,
            bytes@ == tiled(per_element@, c as nat),
        decreases capacity - c,
    {
        let mut j: usize = 0;
        let ghost before = bytes@;
        while j < per_element.len()
            invariant
                0 <= j <= per_element@.len(),
                bytes@ == before + per_element@.take(j as int),
            decreases per_element@.len() - j,
        {
            bytes.push(per_element[j]);
            proof {
                assert(per_element@.take(j + 1) =~= per_element@.take(j as int).push(per_element@[j as int]));
                assert(bytes@ =~= before + per_element@.take(j + 1));
            }
            j = j + 1;
        }
        assert(per_element@.take(per_element@.len() as int) =~= per_element@);
        c = c + 1;
    }
    bytes
}

} // verus!
