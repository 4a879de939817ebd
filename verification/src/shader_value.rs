//! Values for shader properties and their byte encoding.
//!
//! Floating-point components are held as their IEEE-754 bit patterns; the
//! encoding of a value is the little-endian bytes of its 32-bit words.
use crate::bytes::{lemma_u32_le_roundtrip, u32_from_le, u32s_le, u32s_to_bytes};
use crate::entity::EntityId;
use vstd::prelude::*;

verus! {

/// A value for a shader property.
#[derive(Debug, Clone, Copy, PartialEq, Eq)]
pub enum ShaderValue {
    Float(u32),
    Float2([u32; 2]),
    Float3([u32; 3]),
    Float4([u32; 4]),
    Int(i32),
    Int2([i32; 2]),
    Int3([i32; 3]),
    Int4([i32; 4]),
    UInt(u32),
    Mat4([u32; 16]),
    Texture(EntityId),
    Buffer(EntityId),
}

/// The 32-bit words of a value held inline; resources (textures, buffers)
/// have none.
pub open spec fn words_of(v: ShaderValue) -> Option<Seq<u32>> {
    match v {
        ShaderValue::Float(f) => Some(seq![f]),
        ShaderValue::Float2(a) => Some(a@),
        ShaderValue::Float3(a) => Some(a@),
        ShaderValue::Float4(a) => Some(a@),
        ShaderValue::Int(i) => Some(seq![i as u32]),
        ShaderValue::Int2(a) => Some(a@.map_values(|x: i32| x as u32)),
        ShaderValue::Int3(a) => Some(a@.map_values(|x: i32| x as u32)),
        ShaderValue::Int4(a) => Some(a@.map_values(|x: i32| x as u32)),
        ShaderValue::UInt(u) => Some(seq![u]),
        ShaderValue::Mat4(a) => Some(a@),
        ShaderValue::Texture(_) => None,
        ShaderValue::Buffer(_) => None,
    }
}

/// How many 32-bit words a value of this variant holds inline.
pub open spec fn word_count(v: ShaderValue) -> nat {
    match v {
        ShaderValue::Float(_) | ShaderValue::Int(_) | ShaderValue::UInt(_) => 1,
        ShaderValue::Float2(_) | ShaderValue::Int2(_) => 2,
        ShaderValue::Float3(_) | ShaderValue::Int3(_) => 3,
        ShaderValue::Float4(_) | ShaderValue::Int4(_) => 4,
        ShaderValue::Mat4(_) => 16,
        ShaderValue::Texture(_) | ShaderValue::Buffer(_) => 0,
    }
}

/// The word at `i` of little-endian `bytes`.
pub open spec fn word_at(bytes: Seq<u8>, i: int) -> u32 {
    u32_from_le(bytes[4 * i], bytes[4 * i + 1], bytes[4 * i + 2], bytes[4 * i + 3])
}

/// The first `n` little-endian words of `bytes`.
pub open spec fn words_in(bytes: Seq<u8>, n: nat) -> Seq<u32> {
    Seq::new(n, |i: int| word_at(bytes, i))
}

/// A value of the same variant as `like`, holding the words `w`.
pub open spec fn with_words(like: ShaderValue, w: Seq<u32>) -> Option<ShaderValue> {
    match like {
        ShaderValue::Float(_) => Some(ShaderValue::Float(w[0])),
        ShaderValue::Float2(_) => Some(ShaderValue::Float2([w[0], w[1]])),
        ShaderValue::Float3(_) => Some(ShaderValue::Float3([w[0], w[1], w[2]])),
        ShaderValue::Float4(_) => Some(ShaderValue::Float4([w[0], w[1], w[2], w[3]])),
        ShaderValue::Int(_) => Some(ShaderValue::Int(w[0] as i32)),
        ShaderValue::Int2(_) => Some(ShaderValue::Int2([w[0] as i32, w[1] as i32])),
        ShaderValue::Int3(_) => Some(ShaderValue::Int3([w[0] as i32, w[1] as i32, w[2] as i32])),
        ShaderValue::Int4(_) => Some(
            ShaderValue::Int4([w[0] as i32, w[1] as i32, w[2] as i32, w[3] as i32]),
        ),
        ShaderValue::UInt(_) => Some(ShaderValue::UInt(w[0])),
        ShaderValue::Mat4(_) => Some(ShaderValue::Mat4(seq_to_mat(w))),
        ShaderValue::Texture(_) => None,
        ShaderValue::Buffer(_) => None,
    }
}

/// The sixteen words `w[0..16]` as a matrix.
pub open spec fn seq_to_mat(w: Seq<u32>) -> [u32; 16] {
    [
        w[0],
        w[1],
        w[2],
        w[3],
        w[4],
        w[5],
        w[6],
        w[7],
        w[8],
        w[9],
        w[10],
        w[11],
        w[12],
        w[13],
        w[14],
        w[15],
    ]
}

fn int_words(a: &[i32]) -> (r: Vec<u32>)
    ensures
        r@ == a@.map_values(|x: i32| x as u32),
{
    let mut r: Vec<u32> = Vec::new();
    let mut i: usize = 0;
    while i < a.len()
        invariant
            i <= a@.len(),
            r@ == a@.take(i as int).map_values(|x: i32| x as u32),
        decreases a@.len() - i,
    {
        r.push(a[i] as u32);
        assert(a@.take(i + 1) =~= a@.take(i as int).push(a@[i as int]));
        i = i + 1;
    }
    assert(a@.take(a@.len() as int) =~= a@);
    r
}

impl ShaderValue {
    /// The value's bytes, `None` for resources.
    pub fn to_bytes(&self) -> (r: Option<Vec<u8>>)
        ensures
            match words_of(*self) {
                Some(w) => r matches Some(b) && b@ == u32s_le(w),
                None => r is None,
            },
    {
        match self {
            ShaderValue::Float(f) => {
                let w = [*f];
                assert(w@ =~= seq![*f]);
                Some(u32s_to_bytes(&w))
            },
            ShaderValue::Float2(a) => Some(u32s_to_bytes(a)),
            ShaderValue::Float3(a) => Some(u32s_to_bytes(a)),
            ShaderValue::Float4(a) => Some(u32s_to_bytes(a)),
            ShaderValue::Int(i) => {
                let w = [*i as u32];
                assert(w@ =~= seq![*i as u32]);
                Some(u32s_to_bytes(&w))
            },
            ShaderValue::Int2(a) => Some(u32s_to_bytes(int_words(a).as_slice())),
            ShaderValue::Int3(a) => Some(u32s_to_bytes(int_words(a).as_slice())),
            ShaderValue::Int4(a) => Some(u32s_to_bytes(int_words(a).as_slice())),
            ShaderValue::UInt(u) => {
                let w = [*u];
                assert(w@ =~= seq![*u]);
                Some(u32s_to_bytes(&w))
            },
            ShaderValue::Mat4(a) => Some(u32s_to_bytes(a)),
            ShaderValue::Texture(_) => None,
            ShaderValue::Buffer(_) => None,
        }
    }
}

/// The length and the bytes at word `i` of the little-endian encoding of
/// `ws`.
pub proof fn lemma_u32s_le_word(ws: Seq<u32>, i: int)
    requires
        0 <= i < ws.len(),
    ensures
        u32s_le(ws).len() == 4 * ws.len(),
        word_at(u32s_le(ws), i) == ws[i],
    decreases ws.len(),
{
    let prefix = ws.drop_last();
    lemma_u32s_le_len(prefix);
    if i < ws.len() - 1 {
        lemma_u32s_le_word(prefix, i);
    } else {
        lemma_u32_le_roundtrip(ws.last());
    }
}

proof fn lemma_u32s_le_len(ws: Seq<u32>)
    ensures
        u32s_le(ws).len() == 4 * ws.len(),
    decreases ws.len(),
{
    if ws.len() > 0 {
        lemma_u32s_le_len(ws.drop_last());
    }
}

fn read_word(bytes: &[u8], i: usize) -> (r: u32)
    requires
        4 * i + 4 <= bytes@.len(),
    ensures
        r == word_at(bytes@, i as int),
{
    let n = bytes.len();
    assert(4 * i + 4 <= n);
    let at = 4 * i;
    (bytes[at] as u32) | ((bytes[at + 1] as u32) << 8u32) | ((bytes[at + 2] as u32) << 16u32) | ((
    bytes[at + 3] as u32) << 24u32)
}

impl ShaderValue {
    /// The number of bytes of the value's encoding, `None` for resources.
    pub fn byte_size(&self) -> (r: Option<usize>)
        ensures
            match words_of(*self) {
                Some(w) => r matches Some(n) && n == 4 * w.len(),
                None => r is None,
            },
    {
        match self.to_bytes() {
            Some(b) => {
                proof {
                    lemma_u32s_le_len(words_of(*self).unwrap());
                }
                Some(b.len())
            },
            None => None,
        }
    }

    /// A value of the same variant, decoded from the start of `bytes`;
    /// `None` for resources.
    pub fn read_from_bytes(&self, bytes: &[u8]) -> (r: Option<ShaderValue>)
        requires
            bytes@.len() >= 4 * word_count(*self),
        ensures
            r == with_words(*self, words_in(bytes@, word_count(*self))),
    {
        let ghost w = words_in(bytes@, word_count(*self));
        match self {
            ShaderValue::Float(_) => Some(ShaderValue::Float(read_word(bytes, 0))),
            ShaderValue::Float2(_) => Some(ShaderValue::Float2([read_word(bytes, 0), read_word(bytes, 1)])),
            ShaderValue::Float3(_) => Some(
                ShaderValue::Float3([read_word(bytes, 0), read_word(bytes, 1), read_word(bytes, 2)]),
            ),
            ShaderValue::Float4(_) => Some(
                ShaderValue::Float4(
                    [read_word(bytes, 0), read_word(bytes, 1), read_word(bytes, 2), read_word(bytes, 3)],
                ),
            ),
            ShaderValue::Int(_) => Some(ShaderValue::Int(read_word(bytes, 0) as i32)),
            ShaderValue::Int2(_) => Some(
                ShaderValue::Int2([read_word(bytes, 0) as i32, read_word(bytes, 1) as i32]),
            ),
            ShaderValue::Int3(_) => Some(
                ShaderValue::Int3(
                    [read_word(bytes, 0) as i32, read_word(bytes, 1) as i32, read_word(bytes, 2) as i32],
                ),
            ),
            ShaderValue::Int4(_) => Some(
                ShaderValue::Int4(
                    [
                        read_word(bytes, 0) as i32,
                        read_word(bytes, 1) as i32,
                        read_word(bytes, 2) as i32,
                        read_word(bytes, 3) as i32,
                    ],
                ),
            ),
            ShaderValue::UInt(_) => Some(ShaderValue::UInt(read_word(bytes, 0))),
            ShaderValue::Mat4(_) => {
                let m = [
                    read_word(bytes, 0),
                    read_word(bytes, 1),
                    read_word(bytes, 2),
                    read_word(bytes, 3),
                    read_word(bytes, 4),
                    read_word(bytes, 5),
                    read_word(bytes, 6),
                    read_word(bytes, 7),
                    read_word(bytes, 8),
                    read_word(bytes, 9),
                    read_word(bytes, 10),
                    read_word(bytes, 11),
                    read_word(bytes, 12),
                    read_word(bytes, 13),
                    read_word(bytes, 14),
                    read_word(bytes, 15),
                ];
                Some(ShaderValue::Mat4(m))
            },
            ShaderValue::Texture(_) => None,
            ShaderValue::Buffer(_) => None,
        }
    }
}

/// Reading a value back from its own bytes gives the value.
pub proof fn lemma_bytes_roundtrip(v: ShaderValue)
    requires
        words_of(v) is Some,
    ensures
        u32s_le(words_of(v).unwrap()).len() == 4 * word_count(v),
        with_words(v, words_in(u32s_le(words_of(v).unwrap()), word_count(v))) == Some(v),
{
    let ws = words_of(v).unwrap();
    lemma_u32s_le_len(ws);
    assert(ws.len() == word_count(v));
    let decoded = words_in(u32s_le(ws), word_count(v));
    assert forall|i: int| 0 <= i < ws.len() implies decoded[i] == ws[i] by {
        lemma_u32s_le_word(ws, i);
    }
    assert(decoded =~= ws);
    assert forall|x: i32| #[trigger] ((x as u32) as i32) == x by {
        assert(((x as u32) as i32) == x) by (bit_vector);
    }
    match v {
        ShaderValue::Float2(a) => assert([ws[0], ws[1]] =~= a),
        ShaderValue::Float3(a) => assert([ws[0], ws[1], ws[2]] =~= a),
        ShaderValue::Float4(a) => assert([ws[0], ws[1], ws[2], ws[3]] =~= a),
        ShaderValue::Int2(a) => assert([ws[0] as i32, ws[1] as i32] =~= a),
        ShaderValue::Int3(a) => assert([ws[0] as i32, ws[1] as i32, ws[2] as i32] =~= a),
        ShaderValue::Int4(a) => assert([ws[0] as i32, ws[1] as i32, ws[2] as i32, ws[3] as i32] =~= a),
        ShaderValue::Mat4(a) => assert(seq_to_mat(ws) =~= a),
        _ => {},
    }
}

} // verus!
