use crate::split::pull_result;
use vstd::prelude::*;

verus! {

/// Coverage helper: runs pulled in order from cursor `cursors[0]` to the end
/// of `data` concatenate to the tail of `data` from that cursor.
proof fn lemma_runs_cover_from<T>(data: Seq<T>, cursors: Seq<int>, runs: Seq<Seq<T>>)
    requires
        cursors.len() == runs.len() + 1,
        0 <= cursors[0] <= data.len(),
        cursors.last() == data.len(),
        forall|k: int| 0 <= k < runs.len() ==> pull_result(
            data,
            cursors[k],
            cursors[k + 1],
            Some(#[trigger] runs[k]),
        ),
    ensures
        runs.flatten() == data.subrange(cursors[0], data.len() as int),
    decreases runs.len(),
{
    if runs.len() == 0 {
        assert(runs.flatten() =~= data.subrange(cursors[0], data.len() as int));
    } else {
        assert(pull_result(data, cursors[0], cursors[1], Some(runs[0])));
        let tail_cursors = cursors.drop_first();
        let tail_runs = runs.drop_first();
        assert forall|k: int| 0 <= k < tail_runs.len() implies pull_result(
            data,
            tail_cursors[k],
            tail_cursors[k + 1],
            Some(#[trigger] tail_runs[k]),
        ) by {
            assert(tail_runs[k] == runs[k + 1]);
            assert(tail_cursors[k] == cursors[k + 1]);
            assert(tail_cursors[k + 1] == cursors[k + 2]);
            assert(pull_result(data, cursors[k + 1], cursors[k + 2], Some(runs[k + 1])));
        }
        lemma_runs_cover_from(data, tail_cursors, tail_runs);
        assert(runs.flatten() == runs[0] + tail_runs.flatten());
        assert(runs[0] + data.subrange(cursors[1], data.len() as int) =~= data.subrange(
            cursors[0],
            data.len() as int,
        ));
    }
}

/// Coverage law: the runs that a producer pulls, from cursor `0` until it
/// reaches the end of `data`, concatenate to `data` itself, in order, with
/// no element dropped and none repeated. `cursors` records the cursor before
/// the first pull, between pulls, and after the last.
pub proof fn lemma_runs_cover<T>(data: Seq<T>, cursors: Seq<int>, runs: Seq<Seq<T>>)
    requires
        cursors.len() == runs.len() + 1,
        cursors[0] == 0,
        cursors.last() == data.len(),
        forall|k: int| 0 <= k < runs.len() ==> pull_result(
            data,
            cursors[k],
            cursors[k + 1],
            Some(#[trigger] runs[k]),
        ),
    ensures
        runs.flatten() == data,
{
    lemma_runs_cover_from(data, cursors, runs);
    assert(data.subrange(0, data.len() as int) =~= data);
}

/// Non-empty-run law: a pull that produces a run produces a non-empty one.
pub proof fn lemma_runs_nonempty<T>(data: Seq<T>, pre: int, post: int, run: Seq<T>)
    requires
        pull_result(data, pre, post, Some(run)),
    ensures
        run.len() > 0,
{
    assert(run == data.subrange(pre, post));
    assert(data.subrange(pre, post).len() == post - pre);
}

/// Termination law: a pull from an exhausted producer signals exhaustion and
/// leaves the cursor in place, so every later pull signals exhaustion too.
pub proof fn lemma_exhaustion_is_terminal<T>(
    data: Seq<T>,
    pre: int,
    post: int,
    produced: Option<Seq<T>>,
)
    requires
        pre == data.len(),
        pull_result(data, pre, post, produced),
    ensures
        produced is None,
        post == data.len(),
{
}

/// Empty-source law: over an empty source, the very first pull already
/// signals exhaustion.
pub proof fn lemma_empty_source_first_pull<T>(data: Seq<T>, post: int, produced: Option<Seq<T>>)
    requires
        data.len() == 0,
        pull_result(data, 0, post, produced),
    ensures
        produced is None,
        post == 0,
{
}

} // verus!
