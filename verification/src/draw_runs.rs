//! Merging of visible face runs into draw calls. Runs arrive sorted by batch
//! and first index; a run that continues the previous draw's batch right
//! where its indices end extends that draw, so each draw call covers as
//! many faces as it can. Empty runs draw nothing.
use vstd::prelude::*;

verus! {

/// `count` indices of `batch` starting at index `first`.
#[derive(Clone, Copy, Debug, PartialEq, Eq, Structural)]
pub struct DrawRun {
    pub batch: u16,
    pub first: u32,
    pub count: u32,
}

/// Whether `run` continues `draw`: same batch, and it starts where the draw
/// ends.
pub open spec fn continues(draw: DrawRun, run: DrawRun) -> bool {
    draw.batch == run.batch && draw.first + draw.count == run.first
}

/// The draw calls for `runs`, merged left to right.
pub open spec fn coalesced(runs: Seq<DrawRun>) -> Seq<DrawRun>
    decreases runs.len(),
{
    if runs.len() == 0 {
        Seq::empty()
    } else {
        let before = coalesced(runs.drop_last());
        let run = runs.last();
        if run.count == 0 {
            before
        } else if before.len() > 0 && continues(before.last(), run) {
            before.update(
                before.len() - 1,
                DrawRun { count: (before.last().count + run.count) as u32, ..before.last() },
            )
        } else {
            before.push(run)
        }
    }
}

/// Indices that `runs` draw in all.
pub open spec fn index_total(runs: Seq<DrawRun>) -> int
    decreases runs.len(),
{
    if runs.len() == 0 {
        0
    } else {
        index_total(runs.drop_last()) + runs.last().count
    }
}

/// Every run ends within the 32-bit index space.
pub open spec fn runs_in_range(runs: Seq<DrawRun>) -> bool {
    forall|i: int| 0 <= i < runs.len() ==> (#[trigger] runs[i]).first + runs[i].count <= u32::MAX
}

/// A merged draw ends where the last run merged into it ends.
proof fn lemma_coalesced_ends(runs: Seq<DrawRun>)
    requires
        runs_in_range(runs),
    ensures
        forall|i: int|
            0 <= i < coalesced(runs).len() ==> (#[trigger] coalesced(runs)[i]).first
                + coalesced(runs)[i].count <= u32::MAX,
        forall|i: int| 0 <= i < coalesced(runs).len() ==> (#[trigger] coalesced(runs)[i]).count > 0,
    decreases runs.len(),
{
    if runs.len() > 0 {
        let rest = runs.drop_last();
        assert(runs_in_range(rest));
        lemma_coalesced_ends(rest);
        let before = coalesced(rest);
        let run = runs.last();
        assert(run == runs[runs.len() - 1]);
        let after = coalesced(runs);
        assert forall|i: int| 0 <= i < after.len() implies (#[trigger] after[i]).first
            + after[i].count <= u32::MAX && after[i].count > 0 by {
            if run.count != 0 && i == after.len() - 1 {
                if before.len() > 0 && continues(before.last(), run) {
                    assert(before[before.len() - 1] == before.last());
                } else {
                    assert(after[i] == run);
                }
            } else {
                assert(after[i] == before[i]);
            }
        }
    }
}

/// The draw calls of `runs`, in order.
pub fn coalesce_runs(runs: &[DrawRun]) -> (r: Vec<DrawRun>)
    requires
        runs_in_range(runs@),
    ensures
        r@ == coalesced(runs@),
{
    let mut out: Vec<DrawRun> = Vec::new();
    let mut i: usize = 0;
    while i < runs.len()
        invariant
            i <= runs@.len(),
            runs_in_range(runs@),
            out@ == coalesced(runs@.take(i as int)),
        decreases runs@.len() - i,
    {
        let run = runs[i];
        proof {
            assert(runs@.take(i + 1).drop_last() =~= runs@.take(i as int));
            assert(runs_in_range(runs@.take(i as int)));
            lemma_coalesced_ends(runs@.take(i as int));
        }
        if run.count != 0 {
            let n = out.len();
            let mut merged = false;
            if n > 0 {
                let last = out[n - 1];
                if last.batch == run.batch && last.first + last.count == run.first {
                    out.set(n - 1, DrawRun { count: last.count + run.count, ..last });
                    merged = true;
                }
            }
            if !merged {
                out.push(run);
            }
        }
        i = i + 1;
    }
    assert(runs@.take(runs@.len() as int) =~= runs@);
    out
}

/// Merging draws exactly the indices of the runs, and leaves no two
/// neighbouring draw calls that could have been one.
pub proof fn lemma_coalesce_keeps_indices(runs: Seq<DrawRun>)
    requires
        runs_in_range(runs),
    ensures
        index_total(coalesced(runs)) == index_total(runs),
        forall|i: int|
            0 < i < coalesced(runs).len() ==> !continues(
                coalesced(runs)[i - 1],
                #[trigger] coalesced(runs)[i],
            ),
    decreases runs.len(),
{
    if runs.len() > 0 {
        let rest = runs.drop_last();
        assert(runs_in_range(rest));
        lemma_coalesce_keeps_indices(rest);
        lemma_coalesced_ends(rest);
        let before = coalesced(rest);
        let run = runs.last();
        if run.count == 0 {
        } else if before.len() > 0 && continues(before.last(), run) {
            let merged = before.update(
                before.len() - 1,
                DrawRun { count: (before.last().count + run.count) as u32, ..before.last() },
            );
            assert(merged.drop_last() =~= before.drop_last());
            assert(before.drop_last() + seq![before.last()] =~= before);
            lemma_total_split(before);
            lemma_total_split(merged);
        } else {
            assert(before.push(run).drop_last() =~= before);
        }
    }
}

/// The total of a non-empty sequence is that of all but its last run plus
/// the last run's count.
proof fn lemma_total_split(draws: Seq<DrawRun>)
    requires
        draws.len() > 0,
    ensures
        index_total(draws) == index_total(draws.drop_last()) + draws.last().count,
{
}

} // verus!
