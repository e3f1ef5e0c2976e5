//! Properties of submission imports that relate several rows, batches or
//! calls.
use vstd::prelude::*;

use crate::fields::join_commas;
use crate::submission::{
    accepted_rows, import_matches, projects_of, projects_view, rejected_rows, strings_view,
    submission_row_ok, ProjectModel, SubmissionImport,
};

verus! {

/// The slots that a sequence of projects occupies.
pub open spec fn slots_of(ps: Seq<ProjectModel>) -> Set<int> {
    ps.map_values(|p: ProjectModel| p.location).to_set()
}

/// A project with its activity time left out.
pub open spec fn untimed(p: ProjectModel) -> ProjectModel {
    ProjectModel { last_activity: 0, ..p }
}

/// When every row carries the mapped columns, every row is accepted, nothing
/// is rejected, the i-th project gets slot `start + i`, and the counter ends
/// at `start` plus the number of rows.
pub proof fn lemma_all_rows_accepted(rows: Seq<Seq<Seq<char>>>, start: int, now: int)
    requires
        forall|i: int| 0 <= i < rows.len() ==> submission_row_ok(#[trigger] rows[i]),
    ensures
        accepted_rows(rows) == rows,
        rejected_rows(rows).len() == 0,
        projects_of(rows, start, now).len() == rows.len(),
        forall|i: int|
            0 <= i < rows.len() ==> (#[trigger] projects_of(rows, start, now)[i]).location == start
                + i,
        start + accepted_rows(rows).len() == start + rows.len(),
    decreases rows.len(),
{
    if rows.len() > 0 {
        lemma_all_rows_accepted(rows.drop_last(), start, now);
        assert(submission_row_ok(rows[rows.len() - 1]));
        assert(accepted_rows(rows) =~= rows);
    }
}

/// A row without the mapped columns is reported, joined with commas, and the
/// accepted rows and their projects are exactly those of the batch without it.
pub proof fn lemma_short_row_skipped(rows: Seq<Seq<Seq<char>>>, i: int, start: int, now: int)
    requires
        0 <= i < rows.len(),
        !submission_row_ok(rows[i]),
    ensures
        rejected_rows(rows).contains(join_commas(rows[i])),
        accepted_rows(rows) == accepted_rows(rows.remove(i)),
        projects_of(rows, start, now) == projects_of(rows.remove(i), start, now),
    decreases rows.len(),
{
    let last = rows.len() - 1;
    if i == last {
        assert(rows.remove(i) =~= rows.drop_last());
        assert(rejected_rows(rows).last() == join_commas(rows[i]));
    } else {
        lemma_short_row_skipped(rows.drop_last(), i, start, now);
        assert(rows.remove(i).drop_last() =~= rows.drop_last().remove(i));
        assert(rows.remove(i).last() == rows.last());
        let w = join_commas(rows[i]);
        let prev = rejected_rows(rows.drop_last());
        let j = choose|j: int| 0 <= j < prev.len() && prev[j] == w;
        assert(rejected_rows(rows)[j] == w);
    }
    assert(projects_of(rows, start, now) =~= projects_of(rows.remove(i), start, now));
}

/// Two batches that run one after the other on one allocator, the second
/// starting where the first left the counter, together occupy the slots
/// `start .. start + m + n` (m and n the accepted counts), each exactly once
/// and in order.
pub proof fn lemma_serialized_batches(
    first: Seq<Seq<Seq<char>>>,
    second: Seq<Seq<Seq<char>>>,
    start: int,
    now_first: int,
    now_second: int,
)
    ensures
        ({
            let m = accepted_rows(first).len();
            let n = accepted_rows(second).len();
            let all = projects_of(first, start, now_first) + projects_of(
                second,
                start + m,
                now_second,
            );
            &&& all.len() == m + n
            &&& forall|i: int| 0 <= i < all.len() ==> (#[trigger] all[i]).location == start + i
            &&& slots_of(all) == Set::new(|x: int| start <= x < start + m + n)
            &&& slots_of(projects_of(first, start, now_first)).disjoint(
                slots_of(projects_of(second, start + m, now_second)),
            )
        }),
{
    let m = accepted_rows(first).len();
    let n = accepted_rows(second).len();
    let pa = projects_of(first, start, now_first);
    let pb = projects_of(second, start + m, now_second);
    let all = pa + pb;
    assert forall|i: int| 0 <= i < all.len() implies (#[trigger] all[i]).location == start + i by {
        if i >= m {
            assert(all[i] == pb[i - m]);
        }
    }
    let locs = all.map_values(|p: ProjectModel| p.location);
    assert forall|x: int| start <= x < start + m + n implies slots_of(all).contains(x) by {
        assert(locs[x - start] == x);
    }
    assert forall|x: int| slots_of(all).contains(x) implies start <= x < start + m + n by {
        let k = choose|k: int| 0 <= k < locs.len() && locs[k] == x;
        assert(all[k].location == start + k);
    }
    assert(slots_of(all) =~= Set::new(|x: int| start <= x < start + m + n));
    let la = pa.map_values(|p: ProjectModel| p.location);
    let lb = pb.map_values(|p: ProjectModel| p.location);
    assert forall|x: int| slots_of(pa).contains(x) implies !slots_of(pb).contains(x) by {
        let k = choose|k: int| 0 <= k < la.len() && la[k] == x;
        if slots_of(pb).contains(x) {
            let k2 = choose|k2: int| 0 <= k2 < lb.len() && lb[k2] == x;
            assert(pa[k].location == start + k);
            assert(pb[k2].location == start + m + k2);
        }
    }
}

/// Two imports of the same rows from the same first slot agree on what they
/// accept and reject and on every field of every project but its activity
/// time.
pub proof fn lemma_reimport_agrees(
    rows: Seq<Seq<Seq<char>>>,
    start: int,
    a: SubmissionImport,
    b: SubmissionImport,
)
    requires
        import_matches(a, rows, start),
        import_matches(b, rows, start),
    ensures
        strings_view(a.rejected@) == strings_view(b.rejected@),
        projects_view(a.accepted@).len() == projects_view(b.accepted@).len(),
        forall|i: int|
            0 <= i < projects_view(a.accepted@).len() ==> untimed(
                #[trigger] projects_view(a.accepted@)[i],
            ) == untimed(projects_view(b.accepted@)[i]),
{
}

} // verus!
