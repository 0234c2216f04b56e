//! The requests the gateway issues to the storage service.
//!
//! Each operation is planned as an exact sequence of [`S3Request`]
//! values; the host executes them in order against the real service and
//! stops at the first failure.  The abstract effect of a request on the
//! set of object keys living in the bucket is given by
//! [`apply_request`], which is what the rename law is stated over.

use vstd::prelude::*;

verus! {

/// One request to the storage service.
///
/// `expires_secs` is the validity window of a presigned authorization;
/// `public_read` says that the request carries the publicly-readable
/// canned access policy.
#[derive(Debug)]
pub enum S3Request {
    /// Presign an object upload for the given key and content type.
    PresignPutObject { bucket: String, key: String, content_type: String, expires_secs: u64 },
    /// List every object in the bucket (one page, no pagination).
    ListObjects { bucket: String },
    /// Delete one object.
    DeleteObject { bucket: String, key: String },
    /// Server-side copy from `copy_source` (a `bucket/key` path) to `key`.
    CopyObject { bucket: String, copy_source: String, key: String, public_read: bool },
    /// Overwrite one object's access policy.
    PutObjectAcl { bucket: String, key: String, public_read: bool },
    /// Open a multipart session for the given key and content type.
    CreateMultipartUpload { bucket: String, key: String, content_type: String },
    /// Presign the upload of one part of a multipart session.
    PresignUploadPart {
        bucket: String,
        key: String,
        upload_id: String,
        part_number: i32,
        expires_secs: u64,
    },
    /// Finalize a multipart session from its ordered (part number, ETag) pairs.
    CompleteMultipartUpload {
        bucket: String,
        key: String,
        upload_id: String,
        parts: Vec<(i32, String)>,
    },
}

/// The set of object keys present in the bucket after one request.
///
/// A copy and a finalized multipart upload create an object at their
/// key; a delete removes one; every other request leaves the key set
/// unchanged (presigning and listing create nothing, and an access
/// policy change touches no key).
pub open spec fn apply_request(keys: Set<Seq<char>>, req: S3Request) -> Set<Seq<char>> {
    match req {
        S3Request::CopyObject { key, .. } => keys.insert(key@),
        S3Request::CompleteMultipartUpload { key, .. } => keys.insert(key@),
        S3Request::DeleteObject { key, .. } => keys.remove(key@),
        _ => keys,
    }
}

/// The key set after a sequence of requests, applied in order.
pub open spec fn apply_requests(keys: Set<Seq<char>>, reqs: Seq<S3Request>) -> Set<Seq<char>>
    decreases reqs.len(),
{
    if reqs.len() == 0 {
        keys
    } else {
        apply_requests(apply_request(keys, reqs[0]), reqs.drop_first())
    }
}

/// Rename is copy-then-delete, and is not atomic.
///
/// For any bucket holding an object at `old_key`, and any request pair
/// that copies to a distinct `new_key` and then deletes `old_key`:
/// after both requests succeed an object exists at `new_key` and none at
/// `old_key`; after the copy alone (the delete step having failed or not
/// yet run) objects exist at both keys.
pub proof fn lemma_rename_effect(
    keys: Set<Seq<char>>,
    reqs: Seq<S3Request>,
    old_key: Seq<char>,
    new_key: Seq<char>,
)
    requires
        reqs.len() == 2,
        reqs[0] matches S3Request::CopyObject { key, .. } && key@ == new_key,
        reqs[1] matches S3Request::DeleteObject { key, .. } && key@ == old_key,
        keys.contains(old_key),
        old_key != new_key,
    ensures
        apply_requests(keys, reqs).contains(new_key),
        !apply_requests(keys, reqs).contains(old_key),
        apply_requests(keys, reqs.take(1)).contains(old_key),
        apply_requests(keys, reqs.take(1)).contains(new_key),
{
    let after_copy = apply_request(keys, reqs[0]);
    let empty = Seq::<S3Request>::empty();
    assert(apply_requests(after_copy, empty) == after_copy);
    let take1 = reqs.take(1);
    assert(take1[0] == reqs[0]);
    assert(take1.drop_first() =~= empty);
    assert(apply_requests(keys, take1) == apply_requests(
        apply_request(keys, take1[0]),
        take1.drop_first(),
    ));
    assert(apply_requests(keys, take1) == after_copy);
    let rest = reqs.drop_first();
    assert(rest[0] == reqs[1]);
    assert(rest.drop_first() =~= empty);
    let after_delete = apply_request(after_copy, reqs[1]);
    assert(apply_requests(after_delete, empty) == after_delete);
    assert(apply_requests(keys, reqs) == apply_requests(apply_request(keys, reqs[0]), rest));
    assert(apply_requests(after_copy, rest) == apply_requests(
        apply_request(after_copy, rest[0]),
        rest.drop_first(),
    ));
    assert(apply_requests(keys, reqs) == after_delete);
}

/// Completing a multipart upload creates the object, with or without
/// the policy step.
///
/// For any request pair that finalizes a session at `key` and then sets
/// its access policy: the object exists at `key` after both requests,
/// and already after the finalize alone — a failure of the policy step
/// leaves the object in place, merely not publicly readable.
pub proof fn lemma_complete_effect(keys: Set<Seq<char>>, reqs: Seq<S3Request>, key: Seq<char>)
    requires
        reqs.len() == 2,
        reqs[0] matches S3Request::CompleteMultipartUpload { key: k, .. } && k@ == key,
        reqs[1] matches S3Request::PutObjectAcl { key: k, .. } && k@ == key,
    ensures
        apply_requests(keys, reqs).contains(key),
        apply_requests(keys, reqs.take(1)).contains(key),
        apply_requests(keys, reqs) == apply_requests(keys, reqs.take(1)),
{
    let after_finalize = apply_request(keys, reqs[0]);
    let empty = Seq::<S3Request>::empty();
    assert(apply_requests(after_finalize, empty) == after_finalize);
    let take1 = reqs.take(1);
    assert(take1[0] == reqs[0]);
    assert(take1.drop_first() =~= empty);
    assert(apply_requests(keys, take1) == apply_requests(
        apply_request(keys, take1[0]),
        take1.drop_first(),
    ));
    let rest = reqs.drop_first();
    assert(rest[0] == reqs[1]);
    assert(rest.drop_first() =~= empty);
    assert(apply_request(after_finalize, reqs[1]) == after_finalize);
    assert(apply_requests(keys, reqs) == apply_requests(apply_request(keys, reqs[0]), rest));
    assert(apply_requests(after_finalize, rest) == apply_requests(
        apply_request(after_finalize, rest[0]),
        rest.drop_first(),
    ));
}

/// Deleting a key is idempotent in the bucket model: repeating the
/// delete request changes nothing beyond the first.
pub proof fn lemma_delete_idempotent(keys: Set<Seq<char>>, req: S3Request)
    requires
        req is DeleteObject,
    ensures
        apply_request(apply_request(keys, req), req) == apply_request(keys, req),
{
    let k = req->DeleteObject_key;
    assert(apply_request(apply_request(keys, req), req) =~= keys.remove(k@));
}

} // verus!
