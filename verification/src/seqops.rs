use vstd::prelude::*;

verus! {

/// The views of a vector of vectors, as a sequence of sequences.
pub open spec fn views_of<T>(parts: Seq<Vec<T>>) -> Seq<Seq<T>> {
    parts.map_values(|p: Vec<T>| p@)
}

/// Sum of the lengths of the first `k` inner sequences: the offset at
/// which the `k`-th segment starts inside the flattened sequence.
pub open spec fn segment_offset<T>(parts: Seq<Seq<T>>, k: int) -> int
    decreases k,
{
    if k <= 0 {
        0
    } else {
        segment_offset(parts, k - 1) + parts[k - 1].len()
    }
}

/// Offsets relate to the tail of the sequence: dropping the first inner
/// sequence shifts every later offset down by its length.
proof fn lemma_segment_offset_drop_first<T>(parts: Seq<Seq<T>>, k: int)
    requires
        1 <= parts.len(),
        0 <= k,
        k + 1 <= parts.len(),
    ensures
        segment_offset(parts, k + 1) == parts[0].len() + segment_offset(parts.drop_first(), k),
    decreases k,
{
    let t = parts.drop_first();
    if k == 0 {
        assert(segment_offset(parts, 1) == segment_offset(parts, 0) + parts[0].len());
        assert(segment_offset(t, 0) == 0);
    } else {
        lemma_segment_offset_drop_first(parts, k - 1);
        assert(t[k - 1] == parts[k]);
        assert(segment_offset(parts, k + 1) == segment_offset(parts, k) + parts[k].len());
        assert(segment_offset(t, k) == segment_offset(t, k - 1) + t[k - 1].len());
    }
}

/// The flattened sequence is exactly as long as the final offset.
pub proof fn lemma_flatten_len<T>(parts: Seq<Seq<T>>)
    ensures
        parts.flatten().len() == segment_offset(parts, parts.len() as int),
    decreases parts.len(),
{
    if parts.len() == 0 {
    } else {
        lemma_flatten_len(parts.drop_first());
        lemma_segment_offset_drop_first(parts, parts.len() - 1);
    }
}

/// Concatenation preserves order: inside the flattened sequence, the
/// `k`-th segment sits at its offset and equals the `k`-th input
/// sequence, index for index.
pub proof fn lemma_flatten_segment<T>(parts: Seq<Seq<T>>, k: int)
    requires
        0 <= k < parts.len(),
    ensures
        0 <= segment_offset(parts, k),
        segment_offset(parts, k) + parts[k].len() <= parts.flatten().len(),
        parts.flatten().subrange(
            segment_offset(parts, k),
            segment_offset(parts, k) + parts[k].len() as int,
        ) == parts[k],
    decreases parts.len(),
{
    lemma_flatten_len(parts);
    if k == 0 {
        assert(parts.flatten() == parts.first().add(parts.drop_first().flatten()));
        lemma_flatten_len(parts.drop_first());
        assert(segment_offset(parts, parts.len() as int) == parts[0].len() + segment_offset(
            parts.drop_first(),
            parts.len() - 1,
        )) by {
            lemma_segment_offset_drop_first(parts, parts.len() - 1);
        }
        assert(parts.flatten().subrange(0, parts[0].len() as int) =~= parts[0]);
    } else {
        let tail = parts.drop_first();
        lemma_flatten_segment(tail, k - 1);
        lemma_segment_offset_drop_first(parts, k - 1);
        lemma_flatten_len(tail);
        assert(parts.flatten() == parts.first().add(tail.flatten()));
        let off = segment_offset(parts, k);
        let toff = segment_offset(tail, k - 1);
        assert(off == parts[0].len() + toff);
        assert(tail[k - 1] == parts[k]);
        assert(parts.flatten().subrange(off, off + parts[k].len() as int) =~= tail.flatten()
            .subrange(toff, toff + tail[k - 1].len() as int));
    }
}

/// Concatenates the inner vectors in their given order into one vector.
pub fn flatten_in_order<T>(parts: Vec<Vec<T>>) -> (r: Vec<T>)
    ensures
        r@ == views_of(parts@).flatten(),
{
    let ghost parts0 = parts@;
    let mut parts = parts;
    let mut out: Vec<T> = Vec::new();
    proof {
        assert(out@.add(views_of(parts@).flatten()) =~= views_of(parts0).flatten());
    }
    while parts.len() > 0
        invariant
            out@.add(views_of(parts@).flatten()) == views_of(parts0).flatten(),
        decreases parts@.len(),
    {
        let ghost pre_out = out@;
        let ghost pre_parts = parts@;
        let mut first_part = parts.remove(0);
        let ghost first_view = first_part@;
        out.append(&mut first_part);
        proof {
            assert(parts@ =~= pre_parts.drop_first());
            assert(views_of(parts@) =~= views_of(pre_parts).drop_first());
            assert(views_of(pre_parts).flatten() == views_of(pre_parts).first().add(
                views_of(parts@).flatten(),
            ));
            assert(views_of(pre_parts).first() == first_view);
            assert(out@.add(views_of(parts@).flatten()) =~= pre_out.add(
                views_of(pre_parts).flatten(),
            ));
        }
    }
    proof {
        assert(views_of(parts@).len() == 0);
        assert(views_of(parts@).flatten() =~= Seq::<T>::empty());
        assert(out@ =~= views_of(parts0).flatten());
    }
    out
}

} // verus!
