use vstd::prelude::*;
use crate::model::{
    FileGroup, FileGroupView, ImageError, ImageGroup, ImageGroupView, groups_disjoint,
    holds_name, names_distinct,
};

verus! {

/// The rows of a group store, in insertion order.
pub type ImageGroupRows = Seq<ImageGroupView>;

/// Every row's filenames differ from one another and no filename appears
/// in two rows.
pub open spec fn rows_wf(rows: Seq<ImageGroupView>) -> bool {
    &&& forall|i: int| 0 <= i < rows.len() ==> #[trigger] names_distinct(rows[i].files)
    &&& forall|i: int, j: int|
        0 <= i < rows.len() && 0 <= j < rows.len() && i != j ==> groups_disjoint(
            #[trigger] rows[i].files,
            #[trigger] rows[j].files,
        )
}

/// Some row holds `name` in one of its slots.
pub open spec fn name_stored(rows: Seq<ImageGroupView>, name: Seq<char>) -> bool {
    exists|i: int| 0 <= i < rows.len() && #[trigger] holds_name(rows[i].files, name)
}

/// The triple may join the rows without breaking uniqueness.
pub open spec fn fresh_group(rows: Seq<ImageGroupView>, g: FileGroupView) -> bool {
    &&& names_distinct(g)
    &&& !name_stored(rows, g.small)
    &&& !name_stored(rows, g.medium)
    &&& !name_stored(rows, g.original)
}

/// Some row owned by `user_id` holds `name`.
pub open spec fn owns_name(rows: Seq<ImageGroupView>, user_id: i64, name: Seq<char>) -> bool {
    exists|i: int|
        0 <= i < rows.len() && rows[i].user_id == user_id && #[trigger] holds_name(
            rows[i].files,
            name,
        )
}

/// The filename triples of the rows owned by `user_id`, in storage order.
pub open spec fn groups_of(rows: Seq<ImageGroupView>, user_id: i64) -> Seq<FileGroupView>
    decreases rows.len(),
{
    if rows.len() == 0 {
        Seq::empty()
    } else {
        let prev = groups_of(rows.drop_last(), user_id);
        if rows.last().user_id == user_id {
            prev.push(rows.last().files)
        } else {
            prev
        }
    }
}

/// The row that a triple and its owner make.
pub open spec fn row_of(g: FileGroupView, user_id: i64) -> ImageGroupView {
    ImageGroupView { files: g, user_id }
}

/// The persisted mapping from filename triples to their owners, in
/// insertion order.
pub struct GroupStore {
    rows: Vec<ImageGroup>,
}

impl View for GroupStore {
    type V = Seq<ImageGroupView>;

    closed spec fn view(&self) -> Seq<ImageGroupView> {
        self.rows@.map_values(|g: ImageGroup| g@)
    }
}

impl GroupStore {
    /// The store's invariant: filenames are unique over all rows and slots.
    pub open spec fn wf(&self) -> bool {
        rows_wf(self@)
    }

    /// An empty store.
    pub fn new() -> (r: GroupStore)
        ensures
            r@ == Seq::<ImageGroupView>::empty(),
            r.wf(),
    {
        let r = GroupStore { rows: Vec::new() };
        assert(r@ =~= Seq::<ImageGroupView>::empty());
        r
    }

    /// Number of rows.
    pub fn len(&self) -> (r: usize)
        ensures
            r == self@.len(),
    {
        self.rows.len()
    }

    /// Whether some row holds `name` in one of its slots.
    pub fn contains_name(&self, name: &String) -> (r: bool)
        ensures
            r == name_stored(self@, name@),
    {
        let mut i: usize = 0;
        while i < self.rows.len()
            invariant
                i <= self.rows@.len(),
                forall|k: int| 0 <= k < i ==> !holds_name(#[trigger] self@[k].files, name@),
            decreases self.rows@.len() - i,
        {
            let g = &self.rows[i].files;
            if g.small == *name || g.medium == *name || g.original == *name {
                assert(holds_name(self@[i as int].files, name@));
                return true;
            }
            i += 1;
        }
        false
    }

    /// Whether `files` may join the store: its three filenames differ from
    /// one another and none is stored yet.
    pub fn accepts(&self, files: &FileGroup) -> (r: bool)
        ensures
            r == fresh_group(self@, files@),
    {
        !(files.small == files.medium || files.small == files.original || files.medium
            == files.original || self.contains_name(&files.small) || self.contains_name(
            &files.medium,
        ) || self.contains_name(&files.original))
    }

    /// Appends one row for `files` owned by `user_id`. Fails, leaving the
    /// store as it was, when a filename of the triple repeats within it or
    /// is already stored.
    pub fn insert_group(&mut self, files: FileGroup, user_id: i64) -> (r: Result<(), ImageError>)
        requires
            old(self).wf(),
        ensures
            final(self).wf(),
            r is Ok <==> fresh_group(old(self)@, files@),
            r is Ok ==> final(self)@ == old(self)@.push(row_of(files@, user_id)),
            r is Err ==> r == Err::<(), ImageError>(ImageError::Persistence) && final(self)@
                == old(self)@,
    {
        if !self.accepts(&files) {
            return Err(ImageError::Persistence);
        }
        let ghost before = self@;
        let row = ImageGroup { files, user_id };
        self.rows.push(row);
        assert(self@ =~= before.push(row_of(row.files@, user_id)));
        assert forall|i: int, j: int|
            0 <= i < self@.len() && 0 <= j < self@.len() && i != j implies groups_disjoint(
            #[trigger] self@[i].files,
            #[trigger] self@[j].files,
        ) by {
            if i < before.len() && j == before.len() {
                assert(!holds_name(before[i].files, row.files@.small));
                assert(!holds_name(before[i].files, row.files@.medium));
                assert(!holds_name(before[i].files, row.files@.original));
            } else if j < before.len() && i == before.len() {
                assert(!holds_name(before[j].files, row.files@.small));
                assert(!holds_name(before[j].files, row.files@.medium));
                assert(!holds_name(before[j].files, row.files@.original));
            }
        }
        Ok(())
    }
    /// The filename triples of every row owned by `user_id`, in storage order.
    pub fn list_groups(&self, user_id: i64) -> (r: Vec<FileGroup>)
        ensures
            r@.len() == groups_of(self@, user_id).len(),
            forall|k: int| 0 <= k < r@.len() ==> #[trigger] r@[k]@ == groups_of(self@, user_id)[k],
    {
        let mut out: Vec<FileGroup> = Vec::new();
        let mut i: usize = 0;
        while i < self.rows.len()
            invariant
                i <= self.rows@.len(),
                out@.len() == groups_of(self@.take(i as int), user_id).len(),
                forall|k: int|
                    0 <= k < out@.len() ==> #[trigger] out@[k]@ == groups_of(
                        self@.take(i as int),
                        user_id,
                    )[k],
            decreases self.rows@.len() - i,
        {
            assert(self@.take(i + 1).drop_last() =~= self@.take(i as int));
            if self.rows[i].user_id == user_id {
                out.push(self.rows[i].files.duplicate());
            }
            i += 1;
        }
        assert(self@.take(self.rows@.len() as int) =~= self@);
        out
    }

    /// The triple of the row owned by `user_id` that holds `name` in one of
    /// its slots, if there is one; by the store's invariant there is at most
    /// one such row.
    pub fn find_group_containing(&self, user_id: i64, name: &String) -> (r: Option<FileGroup>)
        ensures
            r is None <==> !owns_name(self@, user_id, name@),
            r is Some ==> exists|i: int|
                0 <= i < self@.len() && self@[i].user_id == user_id && holds_name(
                    self@[i].files,
                    name@,
                ) && #[trigger] self@[i].files == r->0@,
    {
        let mut i: usize = 0;
        while i < self.rows.len()
            invariant
                i <= self.rows@.len(),
                forall|k: int|
                    0 <= k < i ==> !(self@[k].user_id == user_id && #[trigger] holds_name(
                        self@[k].files,
                        name@,
                    )),
            decreases self.rows@.len() - i,
        {
            let row = &self.rows[i];
            if row.user_id == user_id && (row.files.small == *name || row.files.medium == *name
                || row.files.original == *name) {
                let found = row.files.duplicate();
                assert(self@[i as int].files == found@);
                assert(holds_name(self@[i as int].files, name@));
                return Some(found);
            }
            i += 1;
        }
        None
    }
}

} // verus!
