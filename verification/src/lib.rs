//! Storage gateway: the decision and computation layer of a cloud
//! object-store front end.
//!
//! Every operation the gateway offers (issuing upload grants, listing,
//! deleting, renaming, setting access policy, multipart upload) is split
//! into a verified part, here, and an unverified transport part that a
//! host process runs.  The verified part resolves configuration, generates
//! object keys and URLs, and produces a *plan*: the exact sequence of
//! storage-service requests the operation must issue.  The host executes
//! those requests against the real service and hands results back.

pub mod config;
pub mod naming;
pub mod order;
pub mod listing;
pub mod ops;
pub mod requests;

pub use config::{AwsConfig, Env};
