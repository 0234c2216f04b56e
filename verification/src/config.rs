//! Configuration resolution.
//!
//! Four named values (access key, secret key, region, bucket) are read
//! from the process environment by the host and handed in as an [`Env`].
//! Resolution either yields a complete [`AwsConfig`] or fails with an
//! error naming the first value that is absent, before any request is
//! planned or issued.

use vstd::prelude::*;

verus! {

/// The ambient environment as the host found it: each field is the value
/// of one named configuration variable, or `None` where it was unset.
#[derive(Debug)]
pub struct Env {
    pub access_key: Option<String>,
    pub secret_key: Option<String>,
    pub region: Option<String>,
    pub bucket: Option<String>,
}

/// A fully resolved storage configuration.
#[derive(Debug)]
pub struct AwsConfig {
    pub access_key: String,
    pub secret_key: String,
    pub region: String,
    pub bucket: String,
}

/// All four configuration values are present.
pub open spec fn env_complete(env: Env) -> bool {
    &&& env.access_key is Some
    &&& env.secret_key is Some
    &&& env.region is Some
    &&& env.bucket is Some
}

/// The error text that resolution reports for the given environment:
/// the first absent value, in resolution order, gives its name.
pub open spec fn missing_config_error(env: Env) -> Seq<char>
    recommends
        !env_complete(env),
{
    if env.access_key is None {
        "AWS_ACCESS_KEY_ID not found"@
    } else if env.secret_key is None {
        "AWS_SECRET_ACCESS_KEY not found"@
    } else if env.region is None {
        "AWS_REGION not found"@
    } else {
        "AWS_BUCKET not found"@
    }
}

/// The region value of a complete environment.
pub open spec fn env_region(env: Env) -> Seq<char>
    recommends
        env_complete(env),
{
    env.region->0@
}

/// The bucket value of a complete environment.
pub open spec fn env_bucket(env: Env) -> Seq<char>
    recommends
        env_complete(env),
{
    env.bucket->0@
}

/// The resolved configuration matches the environment field for field.
pub open spec fn config_matches_env(c: AwsConfig, env: Env) -> bool {
    &&& c.access_key@ == env.access_key->0@
    &&& c.secret_key@ == env.secret_key->0@
    &&& c.region@ == env.region->0@
    &&& c.bucket@ == env.bucket->0@
}

impl AwsConfig {
    /// Resolve the configuration, failing with an error that names the
    /// first missing required value.
    pub fn new(env: &Env) -> (r: Result<AwsConfig, String>)
        ensures
            r is Ok <==> env_complete(*env),
            r matches Ok(c) ==> config_matches_env(c, *env),
            r matches Err(e) ==> e@ == missing_config_error(*env),
    {
        let access_key = match &env.access_key {
            Some(v) => v.clone(),
            None => {
                return Err("AWS_ACCESS_KEY_ID not found".to_owned());
            },
        };
        let secret_key = match &env.secret_key {
            Some(v) => v.clone(),
            None => {
                return Err("AWS_SECRET_ACCESS_KEY not found".to_owned());
            },
        };
        let region = match &env.region {
            Some(v) => v.clone(),
            None => {
                return Err("AWS_REGION not found".to_owned());
            },
        };
        let bucket = match &env.bucket {
            Some(v) => v.clone(),
            None => {
                return Err("AWS_BUCKET not found".to_owned());
            },
        };
        Ok(AwsConfig { access_key, secret_key, region, bucket })
    }
}

} // verus!
