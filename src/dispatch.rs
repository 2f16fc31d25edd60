use vstd::prelude::*;
use crate::error::ColbertError;

verus! {

/// The smaller of two integers.
pub open spec fn min_int(a: int, b: int) -> int {
    if a <= b { a } else { b }
}

/// `rs` splits `0..n` into contiguous, non-empty chunks of `bs` items, the
/// last one possibly shorter, in order.
pub open spec fn is_chunk_plan(rs: Seq<(usize, usize)>, n: nat, bs: nat) -> bool {
    &&& rs.len() > 0
    &&& forall|k: int| 0 <= k < rs.len() ==> #[trigger] rs[k].0 == k * bs
    &&& forall|k: int| 0 <= k < rs.len() ==> #[trigger] rs[k].1 == min_int(k * bs + bs, n as int)
    &&& forall|k: int| 0 <= k < rs.len() ==> #[trigger] rs[k].0 < rs[k].1
    &&& rs.last().1 == n
}

/// Total number of items covered by a list of ranges.
pub open spec fn total_len(rs: Seq<(usize, usize)>) -> int
    decreases rs.len(),
{
    if rs.len() == 0 {
        0
    } else {
        total_len(rs.drop_last()) + (rs.last().1 - rs.last().0)
    }
}

/// The items of `s` picked by each range, concatenated in order.
pub open spec fn gather<T>(s: Seq<T>, rs: Seq<(usize, usize)>) -> Seq<T>
    decreases rs.len(),
{
    if rs.len() == 0 {
        Seq::empty()
    } else {
        gather(s, rs.drop_last()) + s.subrange(rs.last().0 as int, rs.last().1 as int)
    }
}

/// Splits `n` inputs into chunks of `batch_size`, as `(start, end)` ranges.
/// An empty input list, or a batch size of zero, is an operation error.
pub fn chunk_ranges(n: usize, batch_size: usize) -> (r: Result<Vec<(usize, usize)>, ColbertError>)
    ensures
        r is Err <==> (n == 0 || batch_size == 0),
        n == 0 ==> (r matches Err(ColbertError::Operation(m)) && m@
            == "Input sentences cannot be empty."@),
        n > 0 && batch_size == 0 ==> (r matches Err(ColbertError::Operation(m)) && m@
            == "Batch size must be positive."@),
        r is Ok ==> is_chunk_plan(r->Ok_0@, n as nat, batch_size as nat),
{
    if n == 0 {
        return Err(ColbertError::operation("Input sentences cannot be empty."));
    }
    if batch_size == 0 {
        return Err(ColbertError::operation("Batch size must be positive."));
    }
    let mut out: Vec<(usize, usize)> = Vec::new();
    let mut start: usize = 0;
    proof {
        assert(0 * (batch_size as int) == 0);
    }
    while start < n
        invariant
            0 < batch_size,
            0 < n,
            start <= n,
            start < n ==> start as int == out.len() * batch_size,
            out.len() == 0 ==> start == 0,
            out.len() > 0 ==> out@.last().1 == start,
            forall|k: int| 0 <= k < out.len() ==> #[trigger] out@[k].0 == k * batch_size,
            forall|k: int| 0 <= k < out.len() ==> #[trigger] out@[k].1 == min_int(
                k * batch_size + batch_size,
                n as int,
            ),
            forall|k: int| 0 <= k < out.len() ==> #[trigger] out@[k].0 < out@[k].1,
        decreases n - start,
    {
        let end: usize = if n - start > batch_size {
            start + batch_size
        } else {
            n
        };
        proof {
            assert(out.len() * batch_size + batch_size == (out.len() + 1) * batch_size)
                by (nonlinear_arith);
        }
        out.push((start, end));
        start = end;
    }
    Ok(out)
}

proof fn lemma_contiguous_total(rs: Seq<(usize, usize)>)
    requires
        rs.len() > 0,
        rs[0].0 == 0,
        forall|k: int| 0 <= k < rs.len() - 1 ==> #[trigger] rs[k].1 == rs[k + 1].0,
        forall|k: int| 0 <= k < rs.len() ==> #[trigger] rs[k].0 <= rs[k].1,
    ensures
        total_len(rs) == rs.last().1,
    decreases rs.len(),
{
    if rs.len() > 1 {
        let p = rs.drop_last();
        assert forall|k: int| 0 <= k < p.len() - 1 implies #[trigger] p[k].1 == p[k + 1].0 by {
            assert(rs[k].1 == rs[k + 1].0);
        }
        assert forall|k: int| 0 <= k < p.len() implies #[trigger] p[k].0 <= p[k].1 by {
            assert(rs[k].0 <= rs[k].1);
        }
        lemma_contiguous_total(p);
        assert(p.last() == rs[rs.len() - 2]);
        assert(rs[rs.len() - 2].1 == rs[rs.len() - 1].0);
    } else {
        assert(rs.drop_last().len() == 0);
        assert(total_len(rs.drop_last()) == 0);
    }
}

proof fn lemma_contiguous_gather<T>(s: Seq<T>, rs: Seq<(usize, usize)>)
    requires
        rs.len() > 0,
        rs[0].0 == 0,
        forall|k: int| 0 <= k < rs.len() - 1 ==> #[trigger] rs[k].1 == rs[k + 1].0,
        forall|k: int| 0 <= k < rs.len() ==> #[trigger] rs[k].0 <= rs[k].1,
        rs.last().1 <= s.len(),
    ensures
        gather(s, rs) == s.subrange(0, rs.last().1 as int),
    decreases rs.len(),
{
    if rs.len() == 1 {
        assert(gather(s, rs.drop_last()) == Seq::<T>::empty());
        assert(gather(s, rs) =~= s.subrange(0, rs.last().1 as int));
    } else {
        let p = rs.drop_last();
        assert forall|k: int| 0 <= k < p.len() - 1 implies #[trigger] p[k].1 == p[k + 1].0 by {
            assert(rs[k].1 == rs[k + 1].0);
        }
        assert forall|k: int| 0 <= k < p.len() implies #[trigger] p[k].0 <= p[k].1 by {
            assert(rs[k].0 <= rs[k].1);
        }
        assert(rs[rs.len() - 2].1 == rs[rs.len() - 1].0);
        assert(rs[rs.len() - 2].0 <= rs[rs.len() - 2].1);
        lemma_contiguous_gather(s, p);
        assert(gather(s, rs) =~= s.subrange(0, rs.last().1 as int));
    }
}

proof fn lemma_plan_contiguous(rs: Seq<(usize, usize)>, n: nat, bs: nat)
    requires
        is_chunk_plan(rs, n, bs),
    ensures
        rs[0].0 == 0,
        forall|k: int| 0 <= k < rs.len() - 1 ==> #[trigger] rs[k].1 == rs[k + 1].0,
        forall|k: int| 0 <= k < rs.len() ==> #[trigger] rs[k].0 <= rs[k].1,
{
    assert(rs[0].0 == 0 * bs);
    assert forall|k: int| 0 <= k < rs.len() - 1 implies #[trigger] rs[k].1 == rs[k + 1].0 by {
        assert(rs[k + 1].0 == (k + 1) * bs);
        assert(rs[k].0 == k * bs);
        assert((k + 1) * bs == k * bs + bs) by (nonlinear_arith);
        assert(rs[k + 1].0 < rs[k + 1].1);
        assert(rs[k + 1].1 <= n);
    }
    assert forall|k: int| 0 <= k < rs.len() implies #[trigger] rs[k].0 <= rs[k].1 by {
        assert(rs[k].0 < rs[k].1);
    }
}

/// Chunking loses and reorders nothing: the chunks of a list of `n` inputs
/// hold `n` items in all, so the encoded batch has one row per input, and
/// taken in order they give back the list itself.
pub proof fn lemma_chunks_reassemble<T>(s: Seq<T>, batch_size: nat, rs: Seq<(usize, usize)>)
    requires
        is_chunk_plan(rs, s.len(), batch_size),
    ensures
        total_len(rs) == s.len(),
        gather(s, rs) == s,
{
    lemma_plan_contiguous(rs, s.len(), batch_size);
    lemma_contiguous_total(rs);
    lemma_contiguous_gather(s, rs);
    assert(s.subrange(0, s.len() as int) =~= s);
}

} // verus!
