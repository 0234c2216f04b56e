//! The gateway's operations, as request planners.
//!
//! Each operation first resolves the configuration — failing, before
//! any request exists, with an error naming the first missing value —
//! and then computes the exact request (or request sequence) the host
//! must issue, together with every derived value the caller receives:
//! the generated object key, the field mapping of an upload grant, and
//! the public URL.

use vstd::prelude::*;
use crate::config::{env_bucket, env_complete, env_region, missing_config_error, AwsConfig, Env};
use crate::naming::{
    copy_source, make_object_key, public_url, spec_copy_source, spec_object_key, spec_public_url,
};
use crate::requests::S3Request;

verus! {

/// Validity window, in seconds, of every presigned authorization.
pub const PRESIGN_EXPIRES_SECS: u64 = 3600;

/// An issued upload grant: the presigned URL, the field mapping the
/// uploader must send with it, the object's eventual public URL, and
/// the generated key.
#[derive(Debug)]
pub struct PresignedPostResponse {
    pub url: String,
    pub fields: Vec<(String, String)>,
    pub file_url: String,
    pub key: String,
}

/// The planned part of an upload grant: everything but the presigned
/// URL, which only the storage service can produce.
#[derive(Debug)]
pub struct PresignedPostPlan {
    pub request: S3Request,
    pub key: String,
    pub fields: Vec<(String, String)>,
    pub file_url: String,
}

/// The planned start of a multipart upload.
#[derive(Debug)]
pub struct InitiatePlan {
    pub request: S3Request,
    pub key: String,
}

/// The planned completion of a multipart upload: finalize, then set
/// the access policy; the file URL is returned on success.
#[derive(Debug)]
pub struct CompletePlan {
    pub requests: Vec<S3Request>,
    pub file_url: String,
}

/// Report the application version and the configured bucket name.
pub fn get_app_info(env: &Env, version: &str) -> (r: Result<(String, String), String>)
    ensures
        r is Ok <==> env_complete(*env),
        r matches Ok(t) ==> t.0@ == version@ && t.1@ == env_bucket(*env),
        r matches Err(e) ==> e@ == missing_config_error(*env),
{
    let cfg = match AwsConfig::new(env) {
        Ok(c) => c,
        Err(e) => {
            return Err(e);
        },
    };
    Ok((version.to_owned(), cfg.bucket))
}

/// Plan an upload grant: generate the timestamp-prefixed key, the
/// presign request for exactly that key and content type, the field
/// mapping holding exactly the key and the content type, and the
/// public URL of the eventual object.
pub fn generate_presigned_post(
    env: &Env,
    filename: &str,
    content_type: &str,
    timestamp_secs: u64,
) -> (r: Result<PresignedPostPlan, String>)
    ensures
        r is Ok <==> env_complete(*env),
        r matches Err(e) ==> e@ == missing_config_error(*env),
        r matches Ok(p) ==> {
            &&& p.key@ == spec_object_key(timestamp_secs as nat, filename@)
            &&& (p.request matches S3Request::PresignPutObject {
                bucket,
                key,
                content_type: ct,
                expires_secs,
            } && bucket@ == env_bucket(*env) && key@ == p.key@ && ct@ == content_type@
                && expires_secs == PRESIGN_EXPIRES_SECS)
            &&& p.fields@.len() == 2
            &&& p.fields@[0].0@ == "key"@ && p.fields@[0].1@ == p.key@
            &&& p.fields@[1].0@ == "Content-Type"@ && p.fields@[1].1@ == content_type@
            &&& p.file_url@ == spec_public_url(env_region(*env), env_bucket(*env), p.key@)
        },
{
    let cfg = match AwsConfig::new(env) {
        Ok(c) => c,
        Err(e) => {
            return Err(e);
        },
    };
    let key = make_object_key(timestamp_secs, filename);
    let request = S3Request::PresignPutObject {
        bucket: cfg.bucket.clone(),
        key: key.clone(),
        content_type: content_type.to_owned(),
        expires_secs: PRESIGN_EXPIRES_SECS,
    };
    let mut fields: Vec<(String, String)> = Vec::new();
    fields.push(("key".to_owned(), key.clone()));
    fields.push(("Content-Type".to_owned(), content_type.to_owned()));
    let file_url = public_url(cfg.region.as_str(), cfg.bucket.as_str(), key.as_str());
    Ok(PresignedPostPlan { request, key, fields, file_url })
}

/// Assemble the grant handed to the caller from the plan and the
/// presigned URL the storage service answered with.
pub fn assemble_post_response(plan: PresignedPostPlan, url: String) -> (r: PresignedPostResponse)
    ensures
        r.url == url,
        r.fields == plan.fields,
        r.file_url == plan.file_url,
        r.key == plan.key,
{
    PresignedPostResponse { url, fields: plan.fields, file_url: plan.file_url, key: plan.key }
}

/// Plan a listing: one request for the full (single-page) object list
/// of the configured bucket.
pub fn plan_list_files(env: &Env) -> (r: Result<S3Request, String>)
    ensures
        r is Ok <==> env_complete(*env),
        r matches Err(e) ==> e@ == missing_config_error(*env),
        r matches Ok(req) ==> (req matches S3Request::ListObjects { bucket } && bucket@
            == env_bucket(*env)),
{
    let cfg = match AwsConfig::new(env) {
        Ok(c) => c,
        Err(e) => {
            return Err(e);
        },
    };
    Ok(S3Request::ListObjects { bucket: cfg.bucket })
}

/// Plan a delete: one delete request for the given key.
pub fn plan_delete_file(env: &Env, key: &str) -> (r: Result<S3Request, String>)
    ensures
        r is Ok <==> env_complete(*env),
        r matches Err(e) ==> e@ == missing_config_error(*env),
        r matches Ok(req) ==> (req matches S3Request::DeleteObject { bucket, key: k } && bucket@
            == env_bucket(*env) && k@ == key@),
{
    let cfg = match AwsConfig::new(env) {
        Ok(c) => c,
        Err(e) => {
            return Err(e);
        },
    };
    Ok(S3Request::DeleteObject { bucket: cfg.bucket, key: key.to_owned() })
}

/// Plan a rename: copy the object to the new key — carrying the
/// publicly-readable policy — then delete the old key.  The two
/// requests run in that order and the second is not attempted after a
/// failure of the first; a failure of the delete after a successful
/// copy leaves both objects in place (see
/// [`crate::requests::lemma_rename_effect`]).
pub fn plan_rename_file(env: &Env, old_key: &str, new_key: &str) -> (r: Result<
    Vec<S3Request>,
    String,
>)
    ensures
        r is Ok <==> env_complete(*env),
        r matches Err(e) ==> e@ == missing_config_error(*env),
        r matches Ok(reqs) ==> {
            &&& reqs@.len() == 2
            &&& (reqs@[0] matches S3Request::CopyObject { bucket, copy_source: src, key, public_read }
                && bucket@ == env_bucket(*env) && src@ == spec_copy_source(
                env_bucket(*env),
                old_key@,
            ) && key@ == new_key@ && public_read)
            &&& (reqs@[1] matches S3Request::DeleteObject { bucket, key } && bucket@ == env_bucket(
                *env,
            ) && key@ == old_key@)
        },
{
    let cfg = match AwsConfig::new(env) {
        Ok(c) => c,
        Err(e) => {
            return Err(e);
        },
    };
    let src = copy_source(cfg.bucket.as_str(), old_key);
    let mut reqs: Vec<S3Request> = Vec::new();
    reqs.push(
        S3Request::CopyObject {
            bucket: cfg.bucket.clone(),
            copy_source: src,
            key: new_key.to_owned(),
            public_read: true,
        },
    );
    reqs.push(S3Request::DeleteObject { bucket: cfg.bucket, key: old_key.to_owned() });
    Ok(reqs)
}

/// Plan an access-policy change: one request setting the object
/// publicly readable, overwriting whatever policy exists.
pub fn plan_set_object_acl(env: &Env, key: &str) -> (r: Result<S3Request, String>)
    ensures
        r is Ok <==> env_complete(*env),
        r matches Err(e) ==> e@ == missing_config_error(*env),
        r matches Ok(req) ==> (req matches S3Request::PutObjectAcl { bucket, key: k, public_read }
            && bucket@ == env_bucket(*env) && k@ == key@ && public_read),
{
    let cfg = match AwsConfig::new(env) {
        Ok(c) => c,
        Err(e) => {
            return Err(e);
        },
    };
    Ok(S3Request::PutObjectAcl { bucket: cfg.bucket, key: key.to_owned(), public_read: true })
}

/// Accept a clipboard payload and report success.  This layer performs
/// no action: clipboard interaction, if any, belongs to the host
/// platform.
pub fn copy_to_clipboard(_text: &str) -> (r: Result<(), String>)
    ensures
        r is Ok,
{
    Ok(())
}

/// Plan the start of a multipart upload: generate the
/// timestamp-prefixed key exactly as for a single-shot grant, and one
/// request opening a session for that key and content type.
pub fn initiate_multipart_upload(
    env: &Env,
    filename: &str,
    content_type: &str,
    timestamp_secs: u64,
) -> (r: Result<InitiatePlan, String>)
    ensures
        r is Ok <==> env_complete(*env),
        r matches Err(e) ==> e@ == missing_config_error(*env),
        r matches Ok(p) ==> {
            &&& p.key@ == spec_object_key(timestamp_secs as nat, filename@)
            &&& (p.request matches S3Request::CreateMultipartUpload { bucket, key, content_type: ct }
                && bucket@ == env_bucket(*env) && key@ == p.key@ && ct@ == content_type@)
        },
{
    let cfg = match AwsConfig::new(env) {
        Ok(c) => c,
        Err(e) => {
            return Err(e);
        },
    };
    let key = make_object_key(timestamp_secs, filename);
    let request = S3Request::CreateMultipartUpload {
        bucket: cfg.bucket,
        key: key.clone(),
        content_type: content_type.to_owned(),
    };
    Ok(InitiatePlan { request, key })
}

/// Pair the session id the storage service issued with the generated
/// key, as handed back to the caller.  The service owes the id on a
/// successful open; an answer without one is outside this function's
/// contract.
pub fn finish_initiate_multipart(upload_id: Option<String>, key: String) -> (r: (String, String))
    requires
        upload_id is Some,
    ensures
        upload_id matches Some(u) ==> r.0 == u,
        r.1 == key,
{
    match upload_id {
        Some(u) => (u, key),
        None => vstd::pervasive::unreached(),
    }
}

/// Plan the presigning of one part upload: one presign request naming
/// the session, the part number and the key.
pub fn generate_presigned_url_for_part(
    env: &Env,
    upload_id: &str,
    part_number: i32,
    key: &str,
) -> (r: Result<S3Request, String>)
    ensures
        r is Ok <==> env_complete(*env),
        r matches Err(e) ==> e@ == missing_config_error(*env),
        r matches Ok(req) ==> (req matches S3Request::PresignUploadPart {
            bucket,
            key: k,
            upload_id: u,
            part_number: pn,
            expires_secs,
        } && bucket@ == env_bucket(*env) && k@ == key@ && u@ == upload_id@ && pn == part_number
            && expires_secs == PRESIGN_EXPIRES_SECS),
{
    let cfg = match AwsConfig::new(env) {
        Ok(c) => c,
        Err(e) => {
            return Err(e);
        },
    };
    Ok(
        S3Request::PresignUploadPart {
            bucket: cfg.bucket,
            key: key.to_owned(),
            upload_id: upload_id.to_owned(),
            part_number,
            expires_secs: PRESIGN_EXPIRES_SECS,
        },
    )
}

/// Plan the completion of a multipart upload: one finalize request
/// embedding the caller's (part number, ETag) pairs unchanged and in
/// order, followed unconditionally by a request setting the object
/// publicly readable; the object's public URL is returned on success.
/// The part list is not validated here: gaps or misordering are the
/// storage service's to accept or reject.
pub fn complete_multipart_upload(
    env: &Env,
    upload_id: &str,
    key: &str,
    parts: Vec<(i32, String)>,
) -> (r: Result<CompletePlan, String>)
    ensures
        r is Ok <==> env_complete(*env),
        r matches Err(e) ==> e@ == missing_config_error(*env),
        r matches Ok(p) ==> {
            &&& p.requests@.len() == 2
            &&& (p.requests@[0] matches S3Request::CompleteMultipartUpload {
                bucket,
                key: k,
                upload_id: u,
                parts: ps,
            } && bucket@ == env_bucket(*env) && k@ == key@ && u@ == upload_id@ && ps == parts)
            &&& (p.requests@[1] matches S3Request::PutObjectAcl { bucket, key: k, public_read }
                && bucket@ == env_bucket(*env) && k@ == key@ && public_read)
            &&& p.file_url@ == spec_public_url(env_region(*env), env_bucket(*env), key@)
        },
{
    let cfg = match AwsConfig::new(env) {
        Ok(c) => c,
        Err(e) => {
            return Err(e);
        },
    };
    let file_url = public_url(cfg.region.as_str(), cfg.bucket.as_str(), key);
    let mut reqs: Vec<S3Request> = Vec::new();
    reqs.push(
        S3Request::CompleteMultipartUpload {
            bucket: cfg.bucket.clone(),
            key: key.to_owned(),
            upload_id: upload_id.to_owned(),
            parts,
        },
    );
    reqs.push(
        S3Request::PutObjectAcl { bucket: cfg.bucket, key: key.to_owned(), public_read: true },
    );
    Ok(CompletePlan { requests: reqs, file_url })
}

} // verus!
