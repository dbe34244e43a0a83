use vstd::prelude::*;
use crate::model::{
    FileGroup, FileGroupView, ImageError, MAX_FILES_PER_REQUEST, S3Data, UploadRequest,
    holds_name, variant_name,
};
use crate::model::{link_names, links_for_group, plain_group, plain_segment};
use crate::presign::{UserBucket, get_bucket};
use crate::store::{GroupStore, ImageGroupRows, fresh_group, groups_of, owns_name, row_of};

verus! {

/// Relies on uuid::Uuid::new_v4 and its `Display`: a fresh random version-4
/// UUID in hyphenated form, 36 characters, each a lowercase hex digit or `-`.
#[verifier::external_body]
fn new_filename() -> (r: String)
    ensures
        r@.len() == 36,
        forall|i: int| 0 <= i < r@.len() ==> is_lower_hex_or_dash(#[trigger] r@[i]),
{
    uuid::Uuid::new_v4().to_string()
}

/// A lowercase hexadecimal digit or `-`.
pub open spec fn is_lower_hex_or_dash(c: char) -> bool {
    ('0' <= c && c <= '9') || ('a' <= c && c <= 'f') || c == '-'
}

/// The views of a sequence of groups.
pub open spec fn group_views(s: Seq<FileGroup>) -> Seq<FileGroupView> {
    s.map_values(|g: FileGroup| g@)
}

/// `after` is `before` followed by one row per triple of `batch`, in order,
/// each owned by `user_id`.
pub open spec fn appended(
    before: ImageGroupRows,
    after: ImageGroupRows,
    user_id: i64,
    batch: Seq<FileGroupView>,
) -> bool {
    &&& after.len() == before.len() + batch.len()
    &&& after.subrange(0, before.len() as int) == before
    &&& forall|k: int|
        0 <= k < batch.len() ==> #[trigger] after[before.len() + k] == row_of(batch[k], user_id)
}

/// What a lookup of `name` by `user_id` gives: the stored filename that
/// equals `name`, or `NotFound` when the user has no store
/// configuration or owns no group holding `name`.
pub open spec fn lookup_result(
    rows: ImageGroupRows,
    user_id: i64,
    has_config: bool,
    name: Seq<char>,
) -> Result<Seq<char>, ImageError> {
    if has_config && owns_name(rows, user_id, name) {
        Ok(name)
    } else {
        Err(ImageError::NotFound)
    }
}

/// The view of a lookup's outcome.
pub open spec fn name_result(r: Result<String, ImageError>) -> Result<Seq<char>, ImageError> {
    match r {
        Ok(p) => Ok(p@),
        Err(e) => Err(e),
    }
}

/// Three fresh filenames for the small, medium and original variants.
pub fn new_group() -> (r: FileGroup)
    ensures
        r.small@.len() == 36,
        r.medium@.len() == 36,
        r.original@.len() == 36,
        plain_group(r@),
{
    let small = new_filename();
    let medium = new_filename();
    let original = new_filename();
    let r = FileGroup { small, medium, original };
    assert(r.small@ != seq!['.'] && r.small@ != seq!['.', '.']);
    assert(r.medium@ != seq!['.'] && r.medium@ != seq!['.', '.']);
    assert(r.original@ != seq!['.'] && r.original@ != seq!['.', '.']);
    r
}

/// One image of an upload, for the drawn filenames `names`: `Persistence`,
/// touching nothing, when the store would refuse the triple; otherwise a
/// PUT link for each filename, then the row for `user_id`. A signing
/// failure gives `ObjectStore` and leaves the store as it was.
pub fn upload_step(store: &mut GroupStore, bucket: &UserBucket, user_id: i64, names: &FileGroup) -> (r:
    Result<FileGroup, ImageError>)
    requires
        old(store).wf(),
    ensures
        final(store).wf(),
        r == Err::<FileGroup, ImageError>(ImageError::Persistence) <==> !fresh_group(
            old(store)@,
            names@,
        ),
        r matches Err(e) ==> e == ImageError::Persistence || e == ImageError::ObjectStore,
        r is Err ==> final(store)@ == old(store)@,
        r matches Ok(links) ==> final(store)@ == old(store)@.push(row_of(names@, user_id)) && (
        plain_group(names@) ==> links_for_group(links@, names@)),
{
    if !store.accepts(names) {
        return Err(ImageError::Persistence);
    }
    let links = match bucket.presign_group(names) {
        Ok(l) => l,
        Err(e) => return Err(e),
    };
    match store.insert_group(names.duplicate(), user_id) {
        Ok(()) => Ok(links),
        Err(e) => Err(e),
    }
}

/// For each of `data.number` images: allocates three fresh filenames,
/// presigns a PUT link for each in the user's bucket, persists the triple
/// for `user_id`, and appends the three links to the result, which keeps
/// allocation order.
///
/// Refuses with `BadRequest`, touching nothing, when more than
/// `MAX_FILES_PER_REQUEST` images are asked for or the user has no store
/// configuration. Stops at the first presigning (`ObjectStore`) or storage
/// (`Persistence`) failure; the rows persisted before it stay.
pub fn upload_images(
    store: &mut GroupStore,
    user_id: i64,
    config: &Option<S3Data>,
    data: &UploadRequest,
) -> (r: Result<Vec<FileGroup>, ImageError>)
    requires
        old(store).wf(),
    ensures
        final(store).wf(),
        r == Err::<Vec<FileGroup>, ImageError>(ImageError::BadRequest) <==> (data.number
            > MAX_FILES_PER_REQUEST || config is None),
        r == Err::<Vec<FileGroup>, ImageError>(ImageError::BadRequest) ==> final(store)@ == old(
            store,
        )@,
        data.number == 0 && config is Some ==> (r matches Ok(v) && v@.len() == 0),
        r matches Err(e) ==> e == ImageError::BadRequest || e == ImageError::ObjectStore || e
            == ImageError::Persistence,
        exists|batch: Seq<FileGroupView>|
            #[trigger] appended(old(store)@, final(store)@, user_id, batch) && (r is Err
                ==> batch.len() < data.number || final(store)@ == old(store)@) && (r matches Ok(
                v,
            ) ==> batch.len() == data.number && v@.len() == data.number && forall|k: int|
                0 <= k < v@.len() ==> links_for_group(#[trigger] v@[k]@, batch[k])),
{
    if data.number > MAX_FILES_PER_REQUEST {
        assert(appended(store@, store@, user_id, Seq::<FileGroupView>::empty())) by {
            assert(store@.subrange(0, store@.len() as int) =~= store@);
        }
        return Err(ImageError::BadRequest);
    }
    let bucket = match config {
        Some(c) => get_bucket(c),
        None => {
            assert(appended(store@, store@, user_id, Seq::<FileGroupView>::empty())) by {
                assert(store@.subrange(0, store@.len() as int) =~= store@);
            }
            return Err(ImageError::BadRequest);
        },
    };
    let bucket = match bucket {
        Ok(b) => b,
        Err(_) => {
            assert(false);
            return Err(ImageError::ObjectStore);
        },
    };
    let ghost start = store@;
    let ghost mut batch: Seq<FileGroupView> = Seq::empty();
    let mut files: Vec<FileGroup> = Vec::new();
    let mut k: u32 = 0;
    assert(store@.subrange(0, start.len() as int) =~= start);
    while k < data.number
        invariant
            store.wf(),
            data.number <= MAX_FILES_PER_REQUEST,
            config is Some,
            start == old(store)@,
            k <= data.number,
            files@.len() == k,
            batch.len() == k,
            appended(start, store@, user_id, batch),
            forall|j: int| 0 <= j < files@.len() ==> links_for_group(#[trigger] files@[j]@, batch[j]),
        decreases data.number - k,
    {
        let names = new_group();
        let ghost mid = store@;
        let ghost old_files = files@;
        let links = match upload_step(store, &bucket, user_id, &names) {
            Ok(l) => l,
            Err(e) => return Err(e),
        };
        files.push(links);
        proof {
            let prev = batch;
            batch = batch.push(names@);
            assert(store@.subrange(0, start.len() as int) =~= mid.subrange(0, start.len() as int));
            assert forall|j: int| 0 <= j < batch.len() implies #[trigger] store@[start.len() + j]
                == row_of(batch[j], user_id) by {
                if j < k {
                    assert(mid[start.len() + j] == row_of(prev[j], user_id));
                }
            }
            assert forall|j: int| 0 <= j < files@.len() implies links_for_group(
                #[trigger] files@[j]@,
                batch[j],
            ) by {
                if j < k {
                    assert(files@[j] == old_files[j]);
                }
            }
        }
        k += 1;
    }
    Ok(files)
}

/// The filename triples of every group owned by `user_id`, in storage order;
/// empty, not an error, for a user without uploads.
pub fn get_images(store: &GroupStore, user_id: i64) -> (r: Vec<FileGroup>)
    ensures
        group_views(r@) == groups_of(store@, user_id),
{
    let r = store.list_groups(user_id);
    assert(group_views(r@) =~= groups_of(store@, user_id));
    r
}

/// The stored filename that a lookup of `id` by `user_id` resolves to: the
/// slot of the user's group that equals `id`, the first in the order small,
/// medium, original. `NotFound` when the user owns no group holding `id`,
/// or has no store configuration.
pub fn resolve_image(store: &GroupStore, user_id: i64, config: &Option<S3Data>, id: &String) -> (r:
    Result<String, ImageError>)
    ensures
        name_result(r) == lookup_result(store@, user_id, config is Some, id@),
{
    let found = store.find_group_containing(user_id, id);
    if config.is_none() {
        return Err(ImageError::NotFound);
    }
    match found {
        None => Err(ImageError::NotFound),
        Some(group) => {
            assert(holds_name(group@, id@));
            match group.matched_variant(id) {
                Some(v) => {
                    assert(variant_name(group@, v) == id@);
                    Ok(group.variant(v).clone())
                },
                None => Err(ImageError::NotFound),
            }
        },
    }
}

/// A fresh GET link, valid for `UPLOAD_LINK_TIMEOUT_SEC` seconds, for the
/// stored filename that `id` resolves to (see `resolve_image`). `NotFound`
/// exactly when the lookup finds nothing; otherwise the link, or
/// `ObjectStore` when signing fails.
pub fn get_image(store: &GroupStore, user_id: i64, config: &Option<S3Data>, id: &String) -> (r:
    Result<String, ImageError>)
    ensures
        lookup_result(store@, user_id, config is Some, id@) is Err ==> r == Err::<
            String,
            ImageError,
        >(ImageError::NotFound),
        lookup_result(store@, user_id, config is Some, id@) is Ok ==> r is Ok || r == Err::<
            String,
            ImageError,
        >(ImageError::ObjectStore),
        r matches Ok(url) ==> (plain_segment(id@) ==> link_names(url@, id@)),
{
    let name = match resolve_image(store, user_id, config, id) {
        Ok(n) => n,
        Err(e) => return Err(e),
    };
    match config {
        Some(c) => match get_bucket(c) {
            Ok(bucket) => bucket.presign_download(&name),
            Err(e) => Err(e),
        },
        None => Err(ImageError::NotFound),
    }
}

} // verus!
