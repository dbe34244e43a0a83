use vstd::prelude::*;
use crate::image::{appended, lookup_result};
use crate::model::{FileGroupView, ImageError, groups_disjoint, holds_name, names_distinct};
use crate::store::{ImageGroupRows, groups_of, owns_name, rows_wf};

verus! {

/// Every filename of a stored group resolves, for the group's owner with a
/// store configuration, to that very stored filename.
pub proof fn lemma_lookup_finds_each_variant(rows: ImageGroupRows, i: int)
    requires
        0 <= i < rows.len(),
    ensures
        lookup_result(rows, rows[i].user_id, true, rows[i].files.small) == Ok::<
            Seq<char>,
            ImageError,
        >(rows[i].files.small),
        lookup_result(rows, rows[i].user_id, true, rows[i].files.medium) == Ok::<
            Seq<char>,
            ImageError,
        >(rows[i].files.medium),
        lookup_result(rows, rows[i].user_id, true, rows[i].files.original) == Ok::<
            Seq<char>,
            ImageError,
        >(rows[i].files.original),
{
    assert(holds_name(rows[i].files, rows[i].files.small));
    assert(holds_name(rows[i].files, rows[i].files.medium));
    assert(holds_name(rows[i].files, rows[i].files.original));
}

/// A filename of a group owned by one user is not found by a lookup of any
/// other user, whatever that user's configuration.
pub proof fn lemma_lookup_owner_isolation(
    rows: ImageGroupRows,
    i: int,
    other: i64,
    has_config: bool,
    name: Seq<char>,
)
    requires
        rows_wf(rows),
        0 <= i < rows.len(),
        rows[i].user_id != other,
        holds_name(rows[i].files, name),
    ensures
        lookup_result(rows, other, has_config, name) == Err::<Seq<char>, ImageError>(
            ImageError::NotFound,
        ),
{
    assert(!owns_name(rows, other, name)) by {
        assert forall|j: int|
            0 <= j < rows.len() && rows[j].user_id == other implies !#[trigger] holds_name(
            rows[j].files,
            name,
        ) by {
            assert(i != j);
            assert(groups_disjoint(rows[i].files, rows[j].files));
        }
    }
}

/// A user who owns no row has no groups: the listing is empty.
pub proof fn lemma_no_rows_no_groups(rows: ImageGroupRows, user_id: i64)
    requires
        forall|i: int| 0 <= i < rows.len() ==> #[trigger] rows[i].user_id != user_id,
    ensures
        groups_of(rows, user_id) == Seq::<FileGroupView>::empty(),
    decreases rows.len(),
{
    if rows.len() > 0 {
        let prev = rows.drop_last();
        assert forall|i: int| 0 <= i < prev.len() implies #[trigger] prev[i].user_id != user_id by {
            assert(prev[i] == rows[i]);
        }
        lemma_no_rows_no_groups(prev, user_id);
    }
}

/// Two batches allocated one after the other for the same user, into a
/// store that keeps its invariant, add as many rows as both batches hold,
/// and no filename of one batch is a filename of the other.
pub proof fn lemma_two_batches(
    s0: ImageGroupRows,
    s1: ImageGroupRows,
    s2: ImageGroupRows,
    user_id: i64,
    b1: Seq<FileGroupView>,
    b2: Seq<FileGroupView>,
)
    requires
        appended(s0, s1, user_id, b1),
        appended(s1, s2, user_id, b2),
        rows_wf(s2),
    ensures
        s2.len() == s0.len() + b1.len() + b2.len(),
        forall|j: int, k: int|
            0 <= j < b1.len() && 0 <= k < b2.len() ==> groups_disjoint(
                #[trigger] b1[j],
                #[trigger] b2[k],
            ),
        forall|j: int| 0 <= j < b1.len() ==> names_distinct(#[trigger] b1[j]),
        forall|k: int| 0 <= k < b2.len() ==> names_distinct(#[trigger] b2[k]),
{
    assert forall|j: int, k: int| 0 <= j < b1.len() && 0 <= k < b2.len() implies groups_disjoint(
        #[trigger] b1[j],
        #[trigger] b2[k],
    ) by {
        let a = s0.len() + j;
        let b = s1.len() + k;
        assert(s1[s0.len() + j].files == b1[j]);
        assert(s2.subrange(0, s1.len() as int)[a] == s1[a]);
        assert(s2[a].files == b1[j]);
        assert(s2[b].files == b2[k]);
        assert(groups_disjoint(s2[a].files, s2[b].files));
    }
    assert forall|j: int| 0 <= j < b1.len() implies names_distinct(#[trigger] b1[j]) by {
        let a = s0.len() + j;
        assert(s1[s0.len() + j].files == b1[j]);
        assert(s2.subrange(0, s1.len() as int)[a] == s1[a]);
        assert(names_distinct(s2[a].files));
    }
    assert forall|k: int| 0 <= k < b2.len() implies names_distinct(#[trigger] b2[k]) by {
        assert(s2[s1.len() + k].files == b2[k]);
        assert(names_distinct(s2[s1.len() + k].files));
    }
}

} // verus!
