use vstd::prelude::*;
use crate::model::{
    FileGroup, ImageError, S3Data, UPLOAD_LINK_TIMEOUT_SEC, link_for_path, link_names,
    links_for_group, object_path, plain_group, plain_segment,
};

verus! {

/// Name of the bucket that holds a user's images in that user's object store.
pub const BUCKET_NAME: &'static str = "images";

/// Longest link lifetime, in seconds, that the object store signs.
pub const MAX_LINK_EXPIRY_SEC: u32 = 604800;

#[verifier::external_type_specification]
#[verifier::external_body]
pub struct ExBucket(s3::bucket::Bucket);

#[verifier::external_type_specification]
#[verifier::external_body]
pub struct ExS3Error(s3::error::S3Error);

#[verifier::external_type_specification]
#[verifier::external_body]
pub struct ExCredentials(s3::creds::Credentials);

#[verifier::external_type_specification]
#[verifier::external_body]
pub struct ExCredentialsError(s3::creds::error::CredentialsError);

/// Relies on s3::creds::Credentials::new: given an access key it returns
/// static credentials holding both keys and never fails.
#[verifier::external_body]
fn static_credentials(access_key: &String, secret_key: &String) -> (r: Result<
    s3::creds::Credentials,
    s3::creds::error::CredentialsError,
>)
    ensures
        r is Ok,
{
    s3::creds::Credentials::new(Some(access_key), Some(secret_key), None, None, None)
}

/// Relies on s3::bucket::Bucket::new, over a custom region made of the
/// region name and endpoint: it only stores its arguments and never fails.
#[verifier::external_body]
fn new_bucket(
    name: &str,
    region: &String,
    endpoint: &String,
    credentials: s3::creds::Credentials,
) -> (r: Result<s3::bucket::Bucket, s3::error::S3Error>)
    ensures
        r is Ok,
{
    let region = s3::Region::Custom { region: region.clone(), endpoint: endpoint.clone() };
    s3::bucket::Bucket::new(name, region, credentials)
}

/// Relies on s3::bucket::Bucket::presign_put: a signed PUT link for `path`
/// valid for `expiry_secs` seconds, refused above a week. The link is the
/// bucket's URL, then `path` with every character but the unreserved ones
/// percent-encoded, then the query, which starts with `?`; so a path made of
/// `/` and a plain segment stands in the link as it is.
#[verifier::external_body]
fn sign_put(bucket: &s3::bucket::Bucket, path: &String, expiry_secs: u32) -> (r: Result<
    String,
    s3::error::S3Error,
>)
    ensures
        expiry_secs > MAX_LINK_EXPIRY_SEC ==> r is Err,
        r matches Ok(url) ==> (path@.len() >= 1 && path@[0] == '/' && plain_segment(
            path@.drop_first(),
        ) ==> link_for_path(url@, path@)),
{
    bucket.presign_put(path, expiry_secs, None)
}

/// Relies on s3::bucket::Bucket::presign_get: a signed GET link for `path`
/// valid for `expiry_secs` seconds, refused above a week. The link is the
/// bucket's URL, then `path` with every character but the unreserved ones
/// percent-encoded, then the query, which starts with `?`; so a path made of
/// `/` and a plain segment stands in the link as it is.
#[verifier::external_body]
fn sign_get(bucket: &s3::bucket::Bucket, path: &String, expiry_secs: u32) -> (r: Result<
    String,
    s3::error::S3Error,
>)
    ensures
        expiry_secs > MAX_LINK_EXPIRY_SEC ==> r is Err,
        r matches Ok(url) ==> (path@.len() >= 1 && path@[0] == '/' && plain_segment(
            path@.drop_first(),
        ) ==> link_for_path(url@, path@)),
{
    bucket.presign_get(path, expiry_secs, None)
}

/// A handle on the user's bucket, able to presign links. It holds both keys
/// of the configuration, so signing never lacks a secret key.
pub struct UserBucket {
    bucket: s3::bucket::Bucket,
}

/// Builds the handle on the user's bucket from the stored configuration.
/// Construction needs nothing but the configuration and always succeeds; an
/// object-store refusal would be reported as `ObjectStore`.
pub fn get_bucket(config: &S3Data) -> (r: Result<UserBucket, ImageError>)
    ensures
        r is Ok,
{
    let credentials = match static_credentials(&config.access_key, &config.secret_key) {
        Ok(c) => c,
        Err(_) => return Err(ImageError::ObjectStore),
    };
    match new_bucket(BUCKET_NAME, &config.region, &config.endpoint, credentials) {
        Ok(bucket) => Ok(UserBucket { bucket }),
        Err(_) => Err(ImageError::ObjectStore),
    }
}

impl UserBucket {
    /// A PUT link for the object that stores `name`, valid for
    /// `UPLOAD_LINK_TIMEOUT_SEC` seconds; `ObjectStore` when signing fails.
    pub fn presign_upload(&self, name: &String) -> (r: Result<String, ImageError>)
        ensures
            r is Err ==> r == Err::<String, ImageError>(ImageError::ObjectStore),
            r matches Ok(url) ==> (plain_segment(name@) ==> link_names(url@, name@)),
    {
        let path = object_path(name);
        assert(path@.drop_first() =~= name@);
        match sign_put(&self.bucket, &path, UPLOAD_LINK_TIMEOUT_SEC) {
            Ok(url) => Ok(url),
            Err(_) => Err(ImageError::ObjectStore),
        }
    }

    /// A GET link for the object that stores `name`, valid for
    /// `UPLOAD_LINK_TIMEOUT_SEC` seconds; `ObjectStore` when signing fails.
    pub fn presign_download(&self, name: &String) -> (r: Result<String, ImageError>)
        ensures
            r is Err ==> r == Err::<String, ImageError>(ImageError::ObjectStore),
            r matches Ok(url) ==> (plain_segment(name@) ==> link_names(url@, name@)),
    {
        let path = object_path(name);
        assert(path@.drop_first() =~= name@);
        match sign_get(&self.bucket, &path, UPLOAD_LINK_TIMEOUT_SEC) {
            Ok(url) => Ok(url),
            Err(_) => Err(ImageError::ObjectStore),
        }
    }

    /// PUT links for the three filenames of `names`, in the same slots.
    pub fn presign_group(&self, names: &FileGroup) -> (r: Result<FileGroup, ImageError>)
        ensures
            r is Err ==> r == Err::<FileGroup, ImageError>(ImageError::ObjectStore),
            r matches Ok(links) ==> (plain_group(names@) ==> links_for_group(links@, names@)),
    {
        let small = match self.presign_upload(&names.small) {
            Ok(u) => u,
            Err(e) => return Err(e),
        };
        let medium = match self.presign_upload(&names.medium) {
            Ok(u) => u,
            Err(e) => return Err(e),
        };
        let original = match self.presign_upload(&names.original) {
            Ok(u) => u,
            Err(e) => return Err(e),
        };
        Ok(FileGroup { small, medium, original })
    }
}

} // verus!
