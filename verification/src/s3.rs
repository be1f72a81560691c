//! Naming of archived build logs: object keys, their public addresses, and
//! the upload request for one object.

use vstd::prelude::*;
use vstd::string::*;
use rusoto_core::Region;
use std::str::FromStr;

verus! {

/// A storage region as the storage client understands it.
#[verifier::external_type_specification]
#[verifier::external_body]
pub struct ExRegion(Region);

/// The region that the storage client knows under a name, if it knows one.
pub uninterp spec fn region_named(name: Seq<char>) -> Option<Region>;

/// Whether the storage client knows a region of this name.
pub open spec fn region_is_known(name: Seq<char>) -> bool {
    region_named(name) is Some
}

/// Looks a region up by name through `rusoto_core::Region::from_str`. Taken
/// on trust: the lookup depends on the name alone, and `region_named`
/// stands for what it finds.
#[verifier::external_body]
fn parse_region(name: &str) -> (region: Option<Region>)
    ensures
        region == region_named(name@),
{
    Region::from_str(name).ok()
}

/// Why an object could not be archived.
#[derive(Debug)]
pub enum StorageError {
    /// The configured region is none that the storage client knows.
    InvalidRegion { name: String },
    /// The upload itself failed.
    Upload { message: String },
}

/// Key of the captured standard output of a commit's build.
pub open spec fn stdout_key_of(sha: Seq<char>) -> Seq<char> {
    sha + "/stdout.txt"@
}

/// Key of the captured standard error of a commit's build.
pub open spec fn stderr_key_of(sha: Seq<char>) -> Seq<char> {
    sha + "/stderr.txt"@
}

/// Prefix that keeps the logs of one watched configuration apart from all
/// others.
pub open spec fn key_prefix_of(branch: Seq<char>, context: Seq<char>) -> Seq<char> {
    branch + "/"@ + context
}

/// Full key of an object inside the bucket.
pub open spec fn object_key_of(key_prefix: Seq<char>, key: Seq<char>) -> Seq<char> {
    key_prefix + "/"@ + key
}

/// Public address of an object.
pub open spec fn object_url_of(
    region: Seq<char>,
    bucket: Seq<char>,
    key_prefix: Seq<char>,
    key: Seq<char>,
) -> Seq<char> {
    "https://s3-"@ + region + ".amazonaws.com/"@ + bucket + "/"@ + key_prefix + "/"@ + key
}

/// Key under which the standard output of a commit's build is archived.
pub fn stdout_key(sha: &str) -> (key: String)
    ensures
        key@ == stdout_key_of(sha@),
{
    let mut key = sha.to_owned();
    key.append("/stdout.txt");
    key
}

/// Key under which the standard error of a commit's build is archived.
pub fn stderr_key(sha: &str) -> (key: String)
    ensures
        key@ == stderr_key_of(sha@),
{
    let mut key = sha.to_owned();
    key.append("/stderr.txt");
    key
}

/// Key prefix for the logs of one branch under one status context.
pub fn log_key_prefix(branch: &str, context: &str) -> (prefix: String)
    ensures
        prefix@ == key_prefix_of(branch@, context@),
{
    let mut prefix = branch.to_owned();
    prefix.append("/");
    prefix.append(context);
    prefix
}

/// Where build logs are archived.
#[derive(Debug)]
pub struct Bucket {
    region: String,
    bucket: String,
    key_prefix: String,
}

/// Everything the storage client needs to write one object.
#[derive(Debug)]
pub struct PutObject {
    pub region: Region,
    pub bucket: String,
    pub key: String,
    pub body: Vec<u8>,
}

impl Bucket {
    /// Name of the region the bucket lives in.
    pub closed spec fn region_view(&self) -> Seq<char> {
        self.region@
    }

    /// Name of the bucket.
    pub closed spec fn bucket_view(&self) -> Seq<char> {
        self.bucket@
    }

    /// Prefix of every key written through this value.
    pub closed spec fn key_prefix_view(&self) -> Seq<char> {
        self.key_prefix@
    }

    /// Address of the object stored under `key`.
    pub open spec fn url_of(&self, key: Seq<char>) -> Seq<char> {
        object_url_of(self.region_view(), self.bucket_view(), self.key_prefix_view(), key)
    }

    pub fn new(region: String, bucket: String, key_prefix: String) -> (b: Self)
        ensures
            b.region_view() == region@,
            b.bucket_view() == bucket@,
            b.key_prefix_view() == key_prefix@,
    {
        Bucket { region, bucket, key_prefix }
    }

    /// Full key of the object that `key` names.
    pub fn object_key(&self, key: &str) -> (full: String)
        ensures
            full@ == object_key_of(self.key_prefix_view(), key@),
    {
        let mut full = self.key_prefix.clone();
        full.append("/");
        full.append(key);
        full
    }

    /// Public address of the object that `key` names. Nothing is read or
    /// written: the address follows from the names alone.
    pub fn object_url(&self, key: &str) -> (url: String)
        ensures
            url@ == self.url_of(key@),
    {
        let mut url = "https://s3-".to_owned();
        url.append(self.region.as_str());
        url.append(".amazonaws.com/");
        url.append(self.bucket.as_str());
        url.append("/");
        url.append(self.key_prefix.as_str());
        url.append("/");
        url.append(key);
        url
    }

    /// Address of the archived standard output of a commit's build: the one
    /// a status links to.
    pub fn get_url(&self, sha: &str) -> (url: String)
        ensures
            url@ == self.url_of(stdout_key_of(sha@)),
    {
        let key = stdout_key(sha);
        self.object_url(key.as_str())
    }

    /// The upload request for `content` under `key`, for a region that has
    /// been looked up already.
    pub fn put_request_in(&self, region: Region, key: &str, content: Vec<u8>) -> (request:
        PutObject)
        ensures
            request.region == region,
            request.bucket@ == self.bucket_view(),
            request.key@ == object_key_of(self.key_prefix_view(), key@),
            request.body@ == content@,
    {
        PutObject { region, bucket: self.bucket.clone(), key: self.object_key(key), body: content }
    }

    /// The upload request for `content` under `key`, for the region that
    /// the configured name stands for. Fails, before anything is sent, when
    /// that region is unknown.
    pub fn put_request(&self, key: &str, content: Vec<u8>) -> (request: Result<
        PutObject,
        StorageError,
    >)
        ensures
            region_is_known(self.region_view()) <==> request is Ok,
            request matches Ok(r) ==> {
                &&& Some(r.region) == region_named(self.region_view())
                &&& r.bucket@ == self.bucket_view()
                &&& r.key@ == object_key_of(self.key_prefix_view(), key@)
                &&& r.body@ == content@
            },
            request matches Err(e) ==> e matches StorageError::InvalidRegion { name } && name@
                == self.region_view(),
    {
        match parse_region(self.region.as_str()) {
            Some(region) => Ok(self.put_request_in(region, key, content)),
            None => Err(StorageError::InvalidRegion { name: self.region.clone() }),
        }
    }
}

} // verus!
