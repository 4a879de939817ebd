//! Font tags, and the per-tag settings (variation axes, OpenType features)
//! that text drawing carries.
use crate::error::{InvalidArgument, ProcessingError};
use vstd::prelude::*;
use vstd::string::StringSliceAdditionalSpecFns;

verus! {

/// The four bytes of a font tag that is exactly four bytes long; any other
/// length is an error that carries the length.
pub open spec fn tag_result(s: Seq<u8>) -> Result<Seq<u8>, ProcessingError> {
    if s.len() == 4 {
        Ok(s)
    } else {
        Err(ProcessingError::InvalidArgument(InvalidArgument::FontTagLength(s.len() as u64)))
    }
}

/// Parses a four-byte font tag such as `wght` or `liga`.
pub fn parse_tag(tag: &str) -> (r: Result<[u8; 4], ProcessingError>)
    ensures
        match r {
            Ok(t) => tag_result(tag.spec_bytes()) == Ok::<Seq<u8>, ProcessingError>(t@),
            Err(e) => tag_result(tag.spec_bytes()) == Err::<Seq<u8>, ProcessingError>(e),
        },
{
    let bytes = tag.as_bytes();
    if bytes.len() != 4 {
        return Err(ProcessingError::InvalidArgument(InvalidArgument::FontTagLength(bytes.len() as u64)));
    }
    let t = [bytes[0], bytes[1], bytes[2], bytes[3]];
    assert(t@ =~= tag.spec_bytes());
    Ok(t)
}

/// The first index at or after `i` whose entry has `tag`.
pub open spec fn first_from<V>(list: Seq<([u8; 4], V)>, tag: [u8; 4], i: int) -> Option<int>
    decreases list.len() - i,
{
    if i < 0 || i >= list.len() {
        None
    } else if list[i].0 == tag {
        Some(i)
    } else {
        first_from(list, tag, i + 1)
    }
}

/// The value set for `tag`: that of its first entry.
pub open spec fn value_of<V>(list: Seq<([u8; 4], V)>, tag: [u8; 4]) -> Option<V> {
    match first_from(list, tag, 0) {
        Some(i) => Some(list[i].1),
        None => None,
    }
}

/// The settings after setting `tag` to `value`: the first entry with `tag`
/// takes the value in place, or a new entry goes last.
pub open spec fn with_tag<V>(list: Seq<([u8; 4], V)>, tag: [u8; 4], value: V) -> Seq<([u8; 4], V)> {
    match first_from(list, tag, 0) {
        Some(i) => list.update(i, (tag, value)),
        None => list.push((tag, value)),
    }
}

/// The entries among the first `n` whose tag is not `tag`, in order.
pub open spec fn without_tag_upto<V>(list: Seq<([u8; 4], V)>, tag: [u8; 4], n: int) -> Seq<([u8; 4], V)>
    decreases n,
{
    if n <= 0 {
        Seq::empty()
    } else if list[n - 1].0 != tag {
        without_tag_upto(list, tag, n - 1).push(list[n - 1])
    } else {
        without_tag_upto(list, tag, n - 1)
    }
}

/// The settings with every entry of `tag` removed.
pub open spec fn without_tag<V>(list: Seq<([u8; 4], V)>, tag: [u8; 4]) -> Seq<([u8; 4], V)> {
    without_tag_upto(list, tag, list.len() as int)
}

/// No two entries share a tag.
pub open spec fn tags_unique<V>(list: Seq<([u8; 4], V)>) -> bool {
    forall|i: int, j: int| 0 <= i < j < list.len() ==> list[i].0 != list[j].0
}

fn tag_eq(a: &[u8; 4], b: &[u8; 4]) -> (r: bool)
    ensures
        r == (*a == *b),
{
    if a[0] == b[0] && a[1] == b[1] && a[2] == b[2] && a[3] == b[3] {
        assert(*a =~= *b);
        true
    } else {
        false
    }
}

proof fn lemma_first_from<V>(list: Seq<([u8; 4], V)>, tag: [u8; 4], i: int)
    requires
        0 <= i <= list.len(),
    ensures
        match first_from(list, tag, i) {
            Some(k) => i <= k < list.len() && list[k].0 == tag && forall|j: int|
                i <= j < k ==> list[j].0 != tag,
            None => forall|j: int| i <= j < list.len() ==> list[j].0 != tag,
        },
    decreases list.len() - i,
{
    if i < list.len() && list[i].0 != tag {
        lemma_first_from(list, tag, i + 1);
    }
}

proof fn lemma_first_from_is<V>(list: Seq<([u8; 4], V)>, tag: [u8; 4], i: int, k: int)
    requires
        0 <= i <= k < list.len(),
        list[k].0 == tag,
        forall|j: int| i <= j < k ==> list[j].0 != tag,
    ensures
        first_from(list, tag, i) == Some(k),
    decreases k - i,
{
    if i < k {
        lemma_first_from_is(list, tag, i + 1, k);
    }
}

proof fn lemma_first_from_none<V>(list: Seq<([u8; 4], V)>, tag: [u8; 4], i: int)
    requires
        0 <= i <= list.len(),
        forall|j: int| i <= j < list.len() ==> list[j].0 != tag,
    ensures
        first_from(list, tag, i) is None,
    decreases list.len() - i,
{
    if i < list.len() {
        lemma_first_from_none(list, tag, i + 1);
    }
}

/// Sets `tag` to `value`: the first entry with `tag` takes the value in
/// place, or a new entry is appended.
pub fn set_tagged<V: Copy>(list: &mut Vec<([u8; 4], V)>, tag: [u8; 4], value: V)
    ensures
        final(list)@ == with_tag(old(list)@, tag, value),
{
    let mut i: usize = 0;
    while i < list.len()
        invariant
            i <= list@.len(),
            list@ == old(list)@,
            forall|j: int| 0 <= j < i ==> list@[j].0 != tag,
        decreases list@.len() - i,
    {
        if tag_eq(&list[i].0, &tag) {
            proof {
                lemma_first_from_is(list@, tag, 0, i as int);
            }
            list.set(i, (tag, value));
            return;
        }
        i = i + 1;
    }
    proof {
        lemma_first_from_none(list@, tag, 0);
    }
    list.push((tag, value));
}

/// Removes every entry of `tag`, keeping the others in order.
pub fn remove_tagged<V: Copy>(list: &mut Vec<([u8; 4], V)>, tag: [u8; 4])
    ensures
        final(list)@ == without_tag(old(list)@, tag),
{
    let mut kept: Vec<([u8; 4], V)> = Vec::new();
    let mut i: usize = 0;
    while i < list.len()
        invariant
            i <= list@.len(),
            kept@ == without_tag_upto(list@, tag, i as int),
        decreases list@.len() - i,
    {
        let entry = list[i];
        if !tag_eq(&entry.0, &tag) {
            kept.push(entry);
        }
        i = i + 1;
    }
    *list = kept;
}

proof fn lemma_without_tag_upto<V>(list: Seq<([u8; 4], V)>, tag: [u8; 4], n: int)
    requires
        0 <= n <= list.len(),
    ensures
        forall|k: int|
            0 <= k < without_tag_upto(list, tag, n).len() ==> (#[trigger] without_tag_upto(
                list,
                tag,
                n,
            )[k]).0 != tag,
        forall|j: int|
            0 <= j < n && list[j].0 != tag ==> without_tag_upto(list, tag, n).contains(#[trigger] list[j]),
    decreases n,
{
    if n > 0 {
        lemma_without_tag_upto(list, tag, n - 1);
        let prev = without_tag_upto(list, tag, n - 1);
        assert forall|j: int| 0 <= j < n && list[j].0 != tag implies without_tag_upto(list, tag, n).contains(
            #[trigger] list[j],
        ) by {
            if j < n - 1 {
                let w = choose|w: int| 0 <= w < prev.len() && prev[w] == list[j];
                if list[n - 1].0 != tag {
                    assert(without_tag_upto(list, tag, n)[w] == list[j]);
                }
            } else {
                assert(without_tag_upto(list, tag, n)[prev.len() as int] == list[j]);
            }
        }
    }
}

/// After setting `tag` to `value`, the value read back for `tag` is `value`,
/// every other tag reads as before, and tags stay unique.
pub proof fn lemma_set_then_read<V>(list: Seq<([u8; 4], V)>, tag: [u8; 4], value: V, other: [u8; 4])
    ensures
        value_of(with_tag(list, tag, value), tag) == Some(value),
        other != tag ==> value_of(with_tag(list, tag, value), other) == value_of(list, other),
        tags_unique(list) ==> tags_unique(with_tag(list, tag, value)),
{
    let after = with_tag(list, tag, value);
    lemma_first_from(list, tag, 0);
    lemma_first_from(list, other, 0);
    match first_from(list, tag, 0) {
        Some(k) => {
            lemma_first_from_is(after, tag, 0, k);
            if other != tag {
                match first_from(list, other, 0) {
                    Some(m) => lemma_first_from_is(after, other, 0, m),
                    None => lemma_first_from_none(after, other, 0),
                }
            }
        },
        None => {
            lemma_first_from_is(after, tag, 0, list.len() as int);
            if other != tag {
                match first_from(list, other, 0) {
                    Some(m) => lemma_first_from_is(after, other, 0, m),
                    None => lemma_first_from_none(after, other, 0),
                }
            }
        },
    }
}

/// After removing `tag`, no entry has it, and every entry of another tag is
/// still there.
pub proof fn lemma_remove_clears<V>(list: Seq<([u8; 4], V)>, tag: [u8; 4])
    ensures
        value_of(without_tag(list, tag), tag) is None,
        forall|j: int|
            0 <= j < list.len() && list[j].0 != tag ==> without_tag(list, tag).contains(#[trigger] list[j]),
{
    lemma_without_tag_upto(list, tag, list.len() as int);
    lemma_first_from_none(without_tag(list, tag), tag, 0);
}

} // verus!
