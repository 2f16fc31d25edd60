use vstd::prelude::*;
use crate::error::ColbertError;

verus! {

/// Positions `j < n` whose mask value is 1, in increasing order.
pub open spec fn kept_upto(mask: Seq<u32>, n: nat) -> Seq<usize>
    decreases n,
{
    if n == 0 {
        Seq::empty()
    } else if mask[n - 1] == 1 {
        kept_upto(mask, (n - 1) as nat).push((n - 1) as usize)
    } else {
        kept_upto(mask, (n - 1) as nat)
    }
}

/// Positions of a mask row that survive filtering.
pub open spec fn kept(mask: Seq<u32>) -> Seq<usize> {
    kept_upto(mask, mask.len())
}

/// Number of rows an example has after filtering: the surviving vectors, or
/// one zero vector when none survives.
pub open spec fn surviving_len(mask: Seq<u32>) -> nat {
    if kept(mask).len() == 0 {
        1
    } else {
        kept(mask).len()
    }
}

/// `m` is the largest of `lens`.
pub open spec fn is_max(lens: Seq<usize>, m: usize) -> bool {
    &&& forall|i: int| 0 <= i < lens.len() ==> #[trigger] lens[i] <= m
    &&& exists|i: int| 0 <= i < lens.len() && #[trigger] lens[i] == m
}

/// How a batch of sequences of various lengths is padded to one length.
pub struct PadPlan {
    /// The common length: the longest sequence.
    pub target: usize,
    /// Zero rows appended to each sequence.
    pub pads: Vec<usize>,
}

/// Pads every length up to the largest one.
pub fn pad_plan(lens: &Vec<usize>) -> (r: PadPlan)
    requires
        lens.len() > 0,
    ensures
        is_max(lens@, r.target),
        r.pads.len() == lens.len(),
        forall|i: int| 0 <= i < lens.len() ==> #[trigger] r.pads@[i] == r.target - lens@[i],
{
    let mut target: usize = lens[0];
    let mut i: usize = 1;
    while i < lens.len()
        invariant
            1 <= i <= lens.len(),
            forall|k: int| 0 <= k < i ==> #[trigger] lens@[k] <= target,
            exists|k: int| 0 <= k < i && #[trigger] lens@[k] == target,
        decreases lens.len() - i,
    {
        if lens[i] > target {
            target = lens[i];
        }
        i = i + 1;
    }
    let mut pads: Vec<usize> = Vec::new();
    let mut j: usize = 0;
    while j < lens.len()
        invariant
            j <= lens.len(),
            pads.len() == j,
            forall|k: int| 0 <= k < lens.len() ==> #[trigger] lens@[k] <= target,
            forall|k: int| 0 <= k < j ==> #[trigger] pads@[k] == target - lens@[k],
        decreases lens.len() - j,
    {
        pads.push(target - lens[j]);
        j = j + 1;
    }
    PadPlan { target, pads }
}

/// Positions of `mask` whose value is 1, in order.
pub fn kept_positions(mask: &Vec<u32>) -> (r: Vec<usize>)
    ensures
        r@ == kept(mask@),
{
    let mut out: Vec<usize> = Vec::new();
    let mut j: usize = 0;
    while j < mask.len()
        invariant
            j <= mask.len(),
            out@ == kept_upto(mask@, j as nat),
        decreases mask.len() - j,
    {
        if mask[j] == 1 {
            out.push(j);
        }
        j = j + 1;
    }
    out
}

/// What the document path does to one batch: which token rows each example
/// keeps, and how many zero rows pad it to the longest example.
pub struct FilterPlan {
    /// Surviving positions of each example.
    pub rows: Vec<Vec<usize>>,
    /// Row count of each example after filtering (at least one).
    pub lengths: Vec<usize>,
    /// Common row count of the output batch.
    pub max_len: usize,
    /// Zero rows appended to each example.
    pub pads: Vec<usize>,
}

/// Plans filtering by attention mask and re-padding for a batch, given the
/// mask rows of its examples. An empty batch is an operation error.
pub fn filter_plan(mask: &Vec<Vec<u32>>) -> (r: Result<FilterPlan, ColbertError>)
    ensures
        r is Err <==> mask.len() == 0,
        r is Err ==> (r matches Err(ColbertError::Operation(m)) && m@
            == "Cannot process an empty batch."@),
        r matches Ok(p) ==> {
            &&& p.rows.len() == mask.len()
            &&& p.lengths.len() == mask.len()
            &&& p.pads.len() == mask.len()
            &&& forall|i: int| 0 <= i < mask.len() ==> #[trigger] p.rows@[i]@ == kept(mask@[i]@)
            &&& forall|i: int| 0 <= i < mask.len() ==> #[trigger] p.lengths@[i] == surviving_len(
                mask@[i]@,
            )
            &&& is_max(p.lengths@, p.max_len)
            &&& forall|i: int| 0 <= i < mask.len() ==> #[trigger] p.pads@[i] == p.max_len
                - p.lengths@[i]
        },
{
    if mask.len() == 0 {
        return Err(ColbertError::operation("Cannot process an empty batch."));
    }
    let mut rows: Vec<Vec<usize>> = Vec::new();
    let mut lengths: Vec<usize> = Vec::new();
    let mut i: usize = 0;
    while i < mask.len()
        invariant
            i <= mask.len(),
            rows.len() == i,
            lengths.len() == i,
            forall|k: int| 0 <= k < i ==> #[trigger] rows@[k]@ == kept(mask@[k]@),
            forall|k: int| 0 <= k < i ==> #[trigger] lengths@[k] == surviving_len(mask@[k]@),
        decreases mask.len() - i,
    {
        let kept_rows = kept_positions(&mask[i]);
        let len: usize = if kept_rows.len() == 0 {
            1
        } else {
            kept_rows.len()
        };
        rows.push(kept_rows);
        lengths.push(len);
        i = i + 1;
    }
    let plan = pad_plan(&lengths);
    Ok(FilterPlan { rows, lengths, max_len: plan.target, pads: plan.pads })
}

/// A fully unattended example is never empty: it keeps one zero row.
pub proof fn lemma_unattended_example_keeps_one_row(mask: Seq<u32>)
    requires
        forall|j: int| 0 <= j < mask.len() ==> #[trigger] mask[j] != 1,
    ensures
        kept(mask).len() == 0,
        surviving_len(mask) == 1,
{
    lemma_kept_none(mask, mask.len());
}

proof fn lemma_kept_none(mask: Seq<u32>, n: nat)
    requires
        n <= mask.len(),
        forall|j: int| 0 <= j < mask.len() ==> #[trigger] mask[j] != 1,
    ensures
        kept_upto(mask, n).len() == 0,
    decreases n,
{
    if n > 0 {
        lemma_kept_none(mask, (n - 1) as nat);
    }
}

} // verus!
