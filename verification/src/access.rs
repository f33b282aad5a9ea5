//! Access-grant restriction values: the permission descriptor and the
//! bucket/prefix restriction pair that narrow a derived capability token.

use vstd::prelude::*;
use vstd::string::StringSliceAdditionalSpecFns;
use vstd::utf8::encode_utf8;

use crate::error::is_invalid_args;
use crate::error::Error;
use crate::text::contains_nul;
use crate::text::has_nul;
use crate::text::marshal;
use crate::time::Timestamp;

verus! {

/// Represents a prefix to be shared: a restriction pair of a bucket and a
/// path prefix within it.
#[derive(Debug)]
pub struct SharePrefix {
    bucket: String,
    prefix: String,
}

impl SharePrefix {
    /// The characters of the bucket name.
    pub closed spec fn spec_bucket(&self) -> Seq<char> {
        self.bucket@
    }

    /// The characters of the path prefix.
    pub closed spec fn spec_prefix(&self) -> Seq<char> {
        self.prefix@
    }

    /// Well-formed: neither field holds an embedded terminator byte, so
    /// both can be marshalled for a foreign call without failing.
    pub open spec fn wf(&self) -> bool {
        &&& !has_nul(encode_utf8(self.spec_bucket()))
        &&& !has_nul(encode_utf8(self.spec_prefix()))
    }

    /// Creates a new prefix to be shared in the specified bucket.
    /// It fails when `bucket` or `prefix` contains a terminator byte
    /// (value 0), naming `bucket` first when both do.
    pub fn new(bucket: &str, prefix: &str) -> (res: Result<Self, Error>)
        ensures
            match res {
                Ok(sp) => {
                    &&& !has_nul(bucket.spec_bytes())
                    &&& !has_nul(prefix.spec_bytes())
                    &&& sp.spec_bucket() == bucket@
                    &&& sp.spec_prefix() == prefix@
                    &&& sp.wf()
                },
                Err(e) => {
                    if has_nul(bucket.spec_bytes()) {
                        is_invalid_args(e, "bucket"@, "cannot contains null bytes (0 byte)"@)
                    } else {
                        &&& has_nul(prefix.spec_bytes())
                        &&& is_invalid_args(e, "prefix"@, "cannot contains null bytes (0 byte)"@)
                    }
                },
            },
    {
        if contains_nul(bucket) {
            return Err(Error::new_invalid_arguments("bucket", "cannot contains null bytes (0 byte)"));
        }

        if contains_nul(prefix) {
            return Err(Error::new_invalid_arguments("prefix", "cannot contains null bytes (0 byte)"));
        }

        Ok(SharePrefix { bucket: bucket.to_owned(), prefix: prefix.to_owned() })
    }

    /// Returns the bucket where the prefix to be shared belongs.
    pub fn bucket(&self) -> (res: &str)
        ensures
            res@ == self.spec_bucket(),
    {
        self.bucket.as_str()
    }

    /// Returns the actual prefix to be shared.
    pub fn prefix(&self) -> (res: &str)
        ensures
            res@ == self.spec_prefix(),
    {
        self.prefix.as_str()
    }
}

/// Marshals every restriction pair of a list into its foreign-call-safe
/// form, in order: the bucket's and the prefix's bytes, each with the
/// terminator byte appended. A constructed [`SharePrefix`] holds no
/// embedded terminator byte in either field, so marshalling cannot fail.
pub fn marshal_prefixes(prefixes: &Vec<SharePrefix>) -> (res: Vec<(Vec<u8>, Vec<u8>)>)
    requires
        forall|k: int| 0 <= k < prefixes@.len() ==> (#[trigger] prefixes@[k]).wf(),
    ensures
        res@.len() == prefixes@.len(),
        forall|k: int|
            0 <= k < res@.len() ==> {
                &&& (#[trigger] res@[k]).0@ == encode_utf8(prefixes@[k].spec_bucket()).push(0u8)
                &&& res@[k].1@ == encode_utf8(prefixes@[k].spec_prefix()).push(0u8)
            },
{
    let mut out: Vec<(Vec<u8>, Vec<u8>)> = Vec::new();
    let mut k: usize = 0;
    while k < prefixes.len()
        invariant
            k <= prefixes@.len(),
            forall|j: int| 0 <= j < prefixes@.len() ==> (#[trigger] prefixes@[j]).wf(),
            out@.len() == k,
            forall|j: int|
                0 <= j < k ==> {
                    &&& (#[trigger] out@[j]).0@ == encode_utf8(prefixes@[j].spec_bucket()).push(
                        0u8,
                    )
                    &&& out@[j].1@ == encode_utf8(prefixes@[j].spec_prefix()).push(0u8)
                },
        decreases prefixes@.len() - k,
    {
        let sp = &prefixes[k];
        let bucket = match marshal("bucket", sp.bucket()) {
            Ok(buf) => buf,
            Err(_) => vstd::pervasive::unreached(),
        };
        let prefix = match marshal("prefix", sp.prefix()) {
            Ok(buf) => buf,
            Err(_) => vstd::pervasive::unreached(),
        };
        out.push((bucket, prefix));
        k += 1;
    }
    out
}

/// Defines what actions, over an optional specific period of time, are
/// granted to a shared access grant.
///
/// A shared access grant can never have more permission than its parent:
/// even when an operation is allowed here but not in the parent, the
/// derived grant won't be allowed to perform it. The backend enforces that
/// monotonic narrowing; this descriptor is passed through faithfully.
#[derive(Debug)]
pub struct Permission {
    /// Gives permission to download the content of the objects and their
    /// associated metadata, but it does not allow listing buckets.
    pub allow_download: bool,
    /// Gives permission to create buckets and upload new objects. It does
    /// not allow overwriting existing objects unless `allow_delete` is
    /// granted too.
    pub allow_upload: bool,
    /// Gives permission to list buckets and getting the metadata of the
    /// objects. It does not allow downloading the content of the objects.
    pub allow_list: bool,
    /// Gives permission to delete buckets and objects. Unless either
    /// `allow_download` or `allow_list` is granted too, no metadata nor
    /// error information will be returned for deleted objects.
    pub allow_delete: bool,
    /// When set, the derived access grant is not valid before this instant.
    not_before: Option<Timestamp>,
    /// When set, the derived access grant is not valid after this instant.
    not_after: Option<Timestamp>,
}

impl Permission {
    /// Whether downloading is allowed.
    pub closed spec fn spec_allow_download(&self) -> bool {
        self.allow_download
    }

    /// Whether uploading is allowed.
    pub closed spec fn spec_allow_upload(&self) -> bool {
        self.allow_upload
    }

    /// Whether listing is allowed.
    pub closed spec fn spec_allow_list(&self) -> bool {
        self.allow_list
    }

    /// Whether deleting is allowed.
    pub closed spec fn spec_allow_delete(&self) -> bool {
        self.allow_delete
    }

    /// The not-before validity bound, if one is set.
    pub closed spec fn spec_not_before(&self) -> Option<Timestamp> {
        self.not_before
    }

    /// The not-after validity bound, if one is set.
    pub closed spec fn spec_not_after(&self) -> Option<Timestamp> {
        self.not_after
    }

    /// Well-formed: when both validity bounds are set, the not-before
    /// instant is strictly earlier than the not-after instant.
    pub open spec fn wf(&self) -> bool {
        match (self.spec_not_before(), self.spec_not_after()) {
            (Some(b), Some(a)) => b.spec_lt(a),
            _ => true,
        }
    }

    /// Creates a permission that doesn't allow any operation, which is the
    /// default permission.
    pub fn new() -> (res: Permission)
        ensures
            !res.spec_allow_download(),
            !res.spec_allow_upload(),
            !res.spec_allow_list(),
            !res.spec_allow_delete(),
            res.spec_not_before() is None,
            res.spec_not_after() is None,
            res.wf(),
    {
        Permission {
            allow_download: false,
            allow_upload: false,
            allow_list: false,
            allow_delete: false,
            not_before: None,
            not_after: None,
        }
    }

    /// Creates a permission that allows all the operations: downloading,
    /// uploading, listing and deleting.
    pub fn full() -> (res: Permission)
        ensures
            res.spec_allow_download(),
            res.spec_allow_upload(),
            res.spec_allow_list(),
            res.spec_allow_delete(),
            res.spec_not_before() is None,
            res.spec_not_after() is None,
            res.wf(),
    {
        Permission {
            allow_download: true,
            allow_upload: true,
            allow_list: true,
            allow_delete: true,
            not_before: None,
            not_after: None,
        }
    }

    /// Creates a permission that allows for reading (downloading) and
    /// listing.
    pub fn read_only() -> (res: Permission)
        ensures
            res.spec_allow_download(),
            !res.spec_allow_upload(),
            res.spec_allow_list(),
            !res.spec_allow_delete(),
            res.spec_not_before() is None,
            res.spec_not_after() is None,
            res.wf(),
    {
        Permission {
            allow_download: true,
            allow_upload: false,
            allow_list: true,
            allow_delete: false,
            not_before: None,
            not_after: None,
        }
    }

    /// Creates a permission that allows for writing (uploading) and
    /// deleting.
    pub fn write_only() -> (res: Permission)
        ensures
            !res.spec_allow_download(),
            res.spec_allow_upload(),
            !res.spec_allow_list(),
            res.spec_allow_delete(),
            res.spec_not_before() is None,
            res.spec_not_after() is None,
            res.wf(),
    {
        Permission {
            allow_download: false,
            allow_upload: true,
            allow_list: false,
            allow_delete: true,
            not_before: None,
            not_after: None,
        }
    }

    /// Returns the instant from the Unix Epoch time since when this
    /// permission is valid, or `None` when there is no such restriction.
    pub fn not_before(&self) -> (res: Option<Timestamp>)
        ensures
            res == self.spec_not_before(),
    {
        self.not_before
    }

    /// Returns the instant from the Unix Epoch time until when this
    /// permission is valid, or `None` when there is no such restriction.
    pub fn not_after(&self) -> (res: Option<Timestamp>)
        ensures
            res == self.spec_not_after(),
    {
        self.not_after
    }

    /// Sets a not-before valid time for this permission, or removes the
    /// bound when `None` is passed; removing it always succeeds.
    /// It fails, mutating nothing, when `since` is more recent than or
    /// equal to the currently set not-after valid time.
    pub fn set_not_before(&mut self, since: Option<Timestamp>) -> (res: Result<(), Error>)
        requires
            old(self).wf(),
        ensures
            final(self).wf(),
            final(self).spec_allow_download() == old(self).spec_allow_download(),
            final(self).spec_allow_upload() == old(self).spec_allow_upload(),
            final(self).spec_allow_list() == old(self).spec_allow_list(),
            final(self).spec_allow_delete() == old(self).spec_allow_delete(),
            final(self).spec_not_after() == old(self).spec_not_after(),
            match since {
                None => res is Ok && final(self).spec_not_before() is None,
                Some(t) => {
                    if old(self).spec_not_after() matches Some(u) && !t.spec_lt(u) {
                        &&& res matches Err(e) && is_invalid_args(
                            e,
                            "since"@,
                            "cannot be more recent or equal to the not after valid time of the permission"@,
                        )
                        &&& final(self).spec_not_before() == old(self).spec_not_before()
                    } else {
                        res is Ok && final(self).spec_not_before() == Some(t)
                    }
                },
            },
    {
        if let Some(t) = since {
            if let Some(u) = self.not_after {
                if !t.lt(&u) {
                    return Err(Error::new_invalid_arguments(
                        "since",
                        "cannot be more recent or equal to the not after valid time of the permission",
                    ));
                }
            }
        }

        self.not_before = since;
        Ok(())
    }

    /// Sets a not-after valid time for this permission, or removes the
    /// bound when `None` is passed; removing it always succeeds.
    /// It fails, mutating nothing, when `until` is previous to or equal to
    /// the currently set not-before valid time.
    pub fn set_not_after(&mut self, until: Option<Timestamp>) -> (res: Result<(), Error>)
        requires
            old(self).wf(),
        ensures
            final(self).wf(),
            final(self).spec_allow_download() == old(self).spec_allow_download(),
            final(self).spec_allow_upload() == old(self).spec_allow_upload(),
            final(self).spec_allow_list() == old(self).spec_allow_list(),
            final(self).spec_allow_delete() == old(self).spec_allow_delete(),
            final(self).spec_not_before() == old(self).spec_not_before(),
            match until {
                None => res is Ok && final(self).spec_not_after() is None,
                Some(t) => {
                    if old(self).spec_not_before() matches Some(b) && !b.spec_lt(t) {
                        &&& res matches Err(e) && is_invalid_args(
                            e,
                            "until"@,
                            "cannot be previous or equal to the not before valid time of the permission"@,
                        )
                        &&& final(self).spec_not_after() == old(self).spec_not_after()
                    } else {
                        res is Ok && final(self).spec_not_after() == Some(t)
                    }
                },
            },
    {
        if let Some(t) = until {
            if let Some(b) = self.not_before {
                if !b.lt(&t) {
                    return Err(Error::new_invalid_arguments(
                        "until",
                        "cannot be previous or equal to the not before valid time of the permission",
                    ));
                }
            }
        }

        self.not_after = until;
        Ok(())
    }
}

impl Default for Permission {
    /// The default permission allows no operation and has no validity
    /// bounds.
    fn default() -> (res: Permission)
        ensures
            !res.spec_allow_download(),
            !res.spec_allow_upload(),
            !res.spec_allow_list(),
            !res.spec_allow_delete(),
            res.spec_not_before() is None,
            res.spec_not_after() is None,
            res.wf(),
    {
        Permission::new()
    }
}

} // verus!
