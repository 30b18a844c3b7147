//! Errors of the web service, what a client is told about them, and the
//! settings of links to stored objects.

use vstd::prelude::*;

use aws_sdk_s3::presigning::{PresigningConfig, PresigningConfigError};
use std::time::Duration;

verus! {

/// Declares `aws_sdk_s3::presigning::PresigningConfig`; its values are opaque.
#[verifier::external_type_specification]
#[verifier::external_body]
pub struct ExPresigningConfig(PresigningConfig);

/// Declares `aws_sdk_s3::presigning::PresigningConfigError`; its values are
/// opaque.
#[verifier::external_type_specification]
#[verifier::external_body]
pub struct ExPresigningConfigError(PresigningConfigError);

/// Declares `sqlx::Error`; its values are opaque.
#[verifier::external_type_specification]
#[verifier::external_body]
pub struct ExSqlxError(sqlx::Error);

/// Declares `anyhow::Error`; its values are opaque.
#[verifier::external_type_specification]
#[verifier::external_body]
pub struct ExAnyhowError(anyhow::Error);

/// Errors of the object store.
#[derive(Debug)]
pub enum S3Error {
    /// A link to an object could not be configured.
    Presign(PresigningConfigError),
    /// The object store's SDK failed.
    SdkError(String),
}

/// Errors of the web service's handlers.
#[derive(Debug)]
pub enum AppError {
    S3(S3Error),
    Postgres(sqlx::Error),
    Unknown(anyhow::Error),
}

/// What a client is told about an error, and whether the details are
/// written to the log.
#[derive(Debug, Clone, PartialEq, Eq)]
pub struct ErrorResponse {
    pub status: u16,
    pub message: String,
    pub log_details: bool,
}

/// The longest time a link to a stored object may stay valid: one week.
pub open spec fn longest_link_secs() -> nat {
    604800
}

/// The settings of a link to a stored object, and how long, in seconds,
/// they keep the link valid.
#[derive(Debug)]
pub struct LinkConfig {
    pub config: PresigningConfig,
    pub expires_in_secs: u64,
}

/// How long, in whole seconds, a configuration keeps a link valid: what
/// `PresigningConfig::expires` returns, as seconds.
pub uninterp spec fn config_expiry_secs(c: PresigningConfig) -> nat;

/// Calls `PresigningConfig::expires_in` with a duration of `secs` seconds,
/// and `PresigningConfig::expires` on the result, in whole seconds. It fails
/// exactly when the duration is longer than one week; the configuration
/// keeps the duration it was given, which `config_expiry_secs` names, and
/// records the current time as its start, which is not stated.
#[verifier::external_body]
fn presigning_config(secs: u64) -> (r: Result<(PresigningConfig, u64), PresigningConfigError>)
    ensures
        r is Ok <==> secs <= longest_link_secs(),
        r matches Ok(c) ==> c.1 == secs && config_expiry_secs(c.0) == secs,
{
    match PresigningConfig::expires_in(Duration::from_secs(secs)) {
        Ok(c) => {
            let expires = c.expires().as_secs();
            Ok((c, expires))
        },
        Err(e) => Err(e),
    }
}

/// The settings of a link to a stored object that stays valid for `secs`
/// seconds from now; refused when that is longer than one week.
pub fn link_config(secs: u64) -> (r: Result<LinkConfig, S3Error>)
    ensures
        r is Ok <==> secs <= longest_link_secs(),
        r matches Ok(c) ==> c.expires_in_secs == secs && config_expiry_secs(c.config) == secs,
        r matches Err(e) ==> e is Presign,
{
    match presigning_config(secs) {
        Ok((config, expires_in_secs)) => Ok(LinkConfig { config, expires_in_secs }),
        Err(e) => Err(S3Error::Presign(e)),
    }
}

impl AppError {
    /// The response for this error: every error is answered with the status
    /// the API documents for an internal server error, 505, and the same
    /// message, so nothing about its cause leaks; database errors are also
    /// logged.
    pub fn response(&self) -> (r: ErrorResponse)
        ensures
            r.status == 505,
            r.message@ == "internal server error"@,
            r.log_details == (self is Postgres),
    {
        let log_details = match self {
            AppError::Postgres(_) => true,
            _ => false,
        };
        ErrorResponse { status: 505, message: "internal server error".to_string(), log_details }
    }
}

} // verus!
