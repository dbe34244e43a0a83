use vstd::prelude::*;

verus! {

/// Largest number of image groups one upload request may ask for.
pub const MAX_FILES_PER_REQUEST: u32 = 32;

/// Lifetime, in seconds, of every presigned upload or download link.
pub const UPLOAD_LINK_TIMEOUT_SEC: u32 = 600;

/// A user's object-store connection parameters.
#[derive(Debug)]
pub struct S3Data {
    pub endpoint: String,
    pub region: String,
    pub access_key: String,
    pub secret_key: String,
}

/// Body of an upload request: how many image groups to allocate.
#[derive(Debug, Clone, Copy)]
pub struct UploadRequest {
    pub number: u32,
}

/// The three variants of one logical image: either stored filenames, or
/// the links issued for them.
#[derive(Debug)]
pub struct FileGroup {
    pub small: String,
    pub medium: String,
    pub original: String,
}

/// One persisted row of the group store: a filename triple and its owner.
#[derive(Debug)]
pub struct ImageGroup {
    pub files: FileGroup,
    pub user_id: i64,
}

/// The resolution tier of a variant.
#[derive(Debug, Clone, Copy, PartialEq, Eq, Structural)]
pub enum Variant {
    Small,
    Medium,
    Original,
}

/// Failures of the upload and lookup operations.
#[derive(Debug, Clone, Copy, PartialEq, Eq, Structural)]
pub enum ImageError {
    /// The request breaks a stated constraint (batch too large, no store
    /// configuration on upload).
    BadRequest,
    /// No matching group for the caller, or no store configuration on lookup.
    NotFound,
    /// Presigning against the object store failed.
    ObjectStore,
    /// Reading or writing the group store failed.
    Persistence,
}

/// Mathematical view of a `FileGroup`.
pub struct FileGroupView {
    pub small: Seq<char>,
    pub medium: Seq<char>,
    pub original: Seq<char>,
}

/// Mathematical view of an `ImageGroup`.
pub struct ImageGroupView {
    pub files: FileGroupView,
    pub user_id: i64,
}

impl View for FileGroup {
    type V = FileGroupView;

    open spec fn view(&self) -> FileGroupView {
        FileGroupView { small: self.small@, medium: self.medium@, original: self.original@ }
    }
}

impl View for ImageGroup {
    type V = ImageGroupView;

    open spec fn view(&self) -> ImageGroupView {
        ImageGroupView { files: self.files@, user_id: self.user_id }
    }
}

/// `name` is one of the group's three filenames.
pub open spec fn holds_name(g: FileGroupView, name: Seq<char>) -> bool {
    g.small == name || g.medium == name || g.original == name
}

/// The three filenames of the group differ from one another.
pub open spec fn names_distinct(g: FileGroupView) -> bool {
    g.small != g.medium && g.small != g.original && g.medium != g.original
}

/// No filename of `a` is a filename of `b`.
pub open spec fn groups_disjoint(a: FileGroupView, b: FileGroupView) -> bool {
    !holds_name(b, a.small) && !holds_name(b, a.medium) && !holds_name(b, a.original)
}

/// The filename that stands in slot `v` of the group.
pub open spec fn variant_name(g: FileGroupView, v: Variant) -> Seq<char> {
    match v {
        Variant::Small => g.small,
        Variant::Medium => g.medium,
        Variant::Original => g.original,
    }
}

/// The first slot, in the order small, medium, original, that holds `name`.
pub open spec fn first_match(g: FileGroupView, name: Seq<char>) -> Option<Variant> {
    if g.small == name {
        Some(Variant::Small)
    } else if g.medium == name {
        Some(Variant::Medium)
    } else if g.original == name {
        Some(Variant::Original)
    } else {
        None
    }
}

/// Object name under which a stored filename lives in the bucket: the
/// filename behind a leading path separator.
pub open spec fn object_path_of(name: Seq<char>) -> Seq<char> {
    seq!['/'] + name
}

/// A character that a URI path carries as it is: an ASCII letter or digit,
/// or one of `-`, `.`, `_`, `~`.
pub open spec fn is_unreserved(c: char) -> bool {
    ('a' <= c && c <= 'z') || ('A' <= c && c <= 'Z') || ('0' <= c && c <= '9') || c == '-' || c
        == '.' || c == '_' || c == '~'
}

/// A filename that stands unchanged as one segment of a URI path: only
/// unreserved characters, and neither `.` nor `..`.
pub open spec fn plain_segment(s: Seq<char>) -> bool {
    &&& forall|i: int| 0 <= i < s.len() ==> is_unreserved(#[trigger] s[i])
    &&& s != seq!['.']
    &&& s != seq!['.', '.']
}

/// All three filenames of the group are plain segments.
pub open spec fn plain_group(g: FileGroupView) -> bool {
    plain_segment(g.small) && plain_segment(g.medium) && plain_segment(g.original)
}

/// The link carries the object path `path` followed by the start of its query.
pub open spec fn link_for_path(url: Seq<char>, path: Seq<char>) -> bool {
    exists|i: int|
        0 <= i && i + path.len() + 1 <= url.len() && #[trigger] url.subrange(
            i,
            i + path.len() + 1,
        ) == path.push('?')
}

/// The link was issued for the object that stores the filename `name`.
pub open spec fn link_names(url: Seq<char>, name: Seq<char>) -> bool {
    link_for_path(url, object_path_of(name))
}

/// Each link of `links` was issued for the filename in the same slot of `names`.
pub open spec fn links_for_group(links: FileGroupView, names: FileGroupView) -> bool {
    &&& link_names(links.small, names.small)
    &&& link_names(links.medium, names.medium)
    &&& link_names(links.original, names.original)
}

impl FileGroup {
    /// A copy of the group with the same three filenames.
    pub fn duplicate(&self) -> (r: FileGroup)
        ensures
            r@ == self@,
    {
        FileGroup {
            small: self.small.clone(),
            medium: self.medium.clone(),
            original: self.original.clone(),
        }
    }

    /// The filename in slot `v`.
    pub fn variant(&self, v: Variant) -> (r: &String)
        ensures
            r@ == variant_name(self@, v),
    {
        match v {
            Variant::Small => &self.small,
            Variant::Medium => &self.medium,
            Variant::Original => &self.original,
        }
    }

    /// Which slot holds exactly `name`; on a tie the first in the order
    /// small, medium, original.
    pub fn matched_variant(&self, name: &String) -> (r: Option<Variant>)
        ensures
            r == first_match(self@, name@),
    {
        if self.small == *name {
            Some(Variant::Small)
        } else if self.medium == *name {
            Some(Variant::Medium)
        } else if self.original == *name {
            Some(Variant::Original)
        } else {
            None
        }
    }
}

/// The object name for a stored filename: `name` behind a `/`.
pub fn object_path(name: &String) -> (r: String)
    ensures
        r@ == object_path_of(name@),
{
    let mut p: String = "/".to_owned();
    proof {
        reveal_strlit("/");
    }
    p.append(name.as_str());
    p
}

} // verus!
