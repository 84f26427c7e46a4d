//! How a reader cuts the rows it yields into record batches.
use crate::plan::spec_ceil_div;
use vstd::prelude::*;

verus! {

/// The number of rows the next batch takes out of `rows` at batch size `k`:
/// `k`, or all of them when fewer are left.
pub open spec fn spec_batch_take(len: nat, k: nat) -> nat {
    if k <= len {
        k
    } else {
        len
    }
}

/// The batches that a reader with batch size `k` hands out over `rows`, in
/// order: the first `k` rows, then the next `k`, and so on, the last batch
/// holding what is left. There is no batch when no row is left, nor at a
/// batch size of 0.
pub open spec fn spec_batches<R>(rows: Seq<R>, k: nat) -> Seq<Seq<R>>
    decreases rows.len(),
{
    if k == 0 || rows.len() == 0 {
        Seq::empty()
    } else {
        let n = spec_batch_take(rows.len(), k) as int;
        seq![rows.take(n)] + spec_batches(rows.skip(n), k)
    }
}

/// Handing out the next batch leaves the batches of what is left: the batch
/// sequence is the next batch followed by the batches of the rest.
pub proof fn lemma_batches_unfold<R>(rows: Seq<R>, k: nat)
    requires
        k > 0,
        rows.len() > 0,
    ensures
        spec_batches(rows, k) == seq![rows.take(spec_batch_take(rows.len(), k) as int)]
            + spec_batches(rows.skip(spec_batch_take(rows.len(), k) as int), k),
{
}

/// The batch size only changes how rows are split into batches: for any
/// batch size above 0, the batches concatenated give back all the rows, in
/// order, none lost or repeated.
pub proof fn law_batches_concatenate<R>(rows: Seq<R>, k: nat)
    requires
        k > 0,
    ensures
        spec_batches(rows, k).flatten() == rows,
    decreases rows.len(),
{
    if rows.len() > 0 {
        let n = spec_batch_take(rows.len(), k) as int;
        law_batches_concatenate(rows.skip(n), k);
        let b = spec_batches(rows, k);
        assert(b.first() == rows.take(n));
        assert(b.drop_first() =~= spec_batches(rows.skip(n), k));
        assert(rows =~= rows.take(n) + rows.skip(n));
    }
}

/// At batch size `k > 0` there are `ceil(len / k)` batches; each holds `k`
/// rows but the last, which holds 1 to `k`.
pub proof fn law_batch_count_and_sizes<R>(rows: Seq<R>, k: nat)
    requires
        k > 0,
    ensures
        spec_batches(rows, k).len() == spec_ceil_div(rows.len(), k),
        forall|i: int|
            0 <= i < spec_batches(rows, k).len() - 1 ==> (#[trigger] spec_batches(rows, k)[i]).len()
                == k,
        spec_batches(rows, k).len() > 0 ==> 1 <= spec_batches(rows, k).last().len() <= k,
    decreases rows.len(),
{
    if rows.len() > 0 {
        let n = spec_batch_take(rows.len(), k) as int;
        let rest = rows.skip(n);
        law_batch_count_and_sizes(rest, k);
        let b = spec_batches(rows, k);
        let rb = spec_batches(rest, k);
        assert(b =~= seq![rows.take(n)] + rb);
        if k <= rows.len() {
            assert(rest.len() == rows.len() - k);
            assert(spec_ceil_div(rows.len(), k) == spec_ceil_div(rest.len(), k) + 1) by (nonlinear_arith)
                requires
                    rest.len() == rows.len() - k,
                    k > 0,
                    k <= rows.len(),
            ;
        } else {
            assert(rest.len() == 0);
            assert(spec_ceil_div(rows.len(), k) == 1) by (nonlinear_arith)
                requires
                    0 < rows.len() < k,
            ;
        }
        assert forall|i: int| 0 <= i < b.len() - 1 implies (#[trigger] b[i]).len() == k by {
            if i > 0 {
                assert(b[i] == rb[i - 1]);
            } else {
                assert(rb.len() > 0);
                assert(rest.len() > 0);
            }
        }
        if rb.len() > 0 {
            assert(b.last() == rb.last());
        }
    } else {
        assert(((rows.len() + k - 1) as nat) / k == 0) by (nonlinear_arith)
            requires
                rows.len() == 0,
                k > 0,
        ;
    }
}

} // verus!
