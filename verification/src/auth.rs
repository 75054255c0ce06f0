//! The credential token manager's decisions: when a refresh is due, how a
//! refresh outcome replaces the shared token, how the scheduling loop is
//! stopped, and how a bearer header is built from the current token. The
//! loops that wait, signal and perform the network refresh run outside the
//! library and feed these decisions with plain values.

use vstd::prelude::*;
use crate::error::{FirestoreError, GrpcErrorStatus, ValidationError};

verus! {

/// An access token and its expiration as Unix epoch seconds; a token without
/// an expiration is never refreshed on schedule.
#[derive(PartialEq, Debug)]
pub struct AuthToken {
    pub token: String,
    pub expiry_seconds: Option<i64>,
}

/// The refresh policy: whether to refresh on schedule, how long before the
/// expiration to refresh, and how often to check, in seconds.
#[derive(Clone, Copy, PartialEq, Eq, Structural, Debug)]
pub struct TokenRefresh {
    pub do_auto_refresh: bool,
    pub refresh_in_seconds_to_expire: i64,
    pub refresh_check_seconds: i64,
}

impl Default for TokenRefresh {
    /// Refresh on schedule, five minutes before expiry, checking once a
    /// minute.
    fn default() -> (r: Self)
        ensures
            r.do_auto_refresh == true,
            r.refresh_in_seconds_to_expire == 300,
            r.refresh_check_seconds == 60,
    {
        TokenRefresh {
            do_auto_refresh: true,
            refresh_in_seconds_to_expire: 300,
            refresh_check_seconds: 60,
        }
    }
}

/// A refresh is due when the token has an expiration and it lies within the
/// lead time from now.
pub open spec fn refresh_due(expiry: Option<i64>, lead_seconds: i64, now_seconds: i64) -> bool {
    match expiry {
        Some(t) => t - lead_seconds <= now_seconds,
        None => false,
    }
}

/// The scheduling loop's per-check decision: signal a refresh exactly when
/// one is due.
pub fn needs_refresh(expiry: Option<i64>, lead_seconds: i64, now_seconds: i64) -> (r: bool)
    ensures
        r == refresh_due(expiry, lead_seconds, now_seconds),
{
    match expiry {
        Some(t) => (t as i128) - (lead_seconds as i128) <= (now_seconds as i128),
        None => false,
    }
}

/// The refresh consumer's step: a successful refresh replaces the shared
/// token, a failed one leaves it as it was and the consumer returns to
/// listening.
pub fn next_shared_token(current: AuthToken, outcome: Result<AuthToken, GrpcErrorStatus>) -> (r:
    AuthToken)
    ensures
        match outcome {
            Ok(fresh) => r == fresh,
            Err(_) => r == current,
        },
{
    match outcome {
        Ok(fresh) => fresh,
        Err(_) => current,
    }
}

/// The shared stop flag the scheduling loop checks after each wait.
#[derive(PartialEq, Debug)]
pub struct RefreshControl {
    pub finished: bool,
}

/// Signals the scheduling loop to stop: it observes the flag after its next
/// wait and exits; in-flight refreshes are allowed to complete.
pub fn stop_auth_refreshing(control: &mut RefreshControl)
    ensures
        final(control).finished,
{
    control.finished = true;
}

/// The bearer credential attached to every outgoing call, built from the
/// current shared token.
pub fn bearer_header_value(token: &str) -> (r: String)
    ensures
        r@ == "Bearer "@ + token@,
{
    let mut s = String::from_str("Bearer ");
    s.append(token);
    s
}

/// The OAuth scope URL for a named scope.
pub fn google_cloud_scope(suffix: &str) -> (r: String)
    ensures
        r@ == "https://www.googleapis.com/auth/"@ + suffix@,
{
    let mut s = String::from_str("https://www.googleapis.com/auth/");
    s.append(suffix);
    s
}

/// The scope granting access to the whole cloud platform.
pub fn cloud_platform_scope() -> (r: String)
    ensures
        r@ == "https://www.googleapis.com/auth/"@ + "cloud-platform"@,
{
    google_cloud_scope("cloud-platform")
}

/// The scope granting access to the datastore.
pub fn datastore_scope() -> (r: String)
    ensures
        r@ == "https://www.googleapis.com/auth/"@ + "datastore"@,
{
    google_cloud_scope("datastore")
}

/// Everything needed to start a token manager: the requested scopes, the
/// service account key file path, and the refresh policy.
#[derive(PartialEq, Debug)]
pub struct TokenManagerConfig {
    pub scopes: Vec<String>,
    pub service_account_file_path: String,
    pub token_refresh: TokenRefresh,
}

/// Accumulates a token manager's configuration.
#[derive(PartialEq, Debug)]
pub struct TokenManagerBuilder {
    pub scopes: Vec<String>,
    pub service_account_file_path: Option<String>,
    pub token_refresh: Option<TokenRefresh>,
}

impl TokenManagerBuilder {
    /// A builder for the given scopes, with no credential source and the
    /// default refresh policy yet.
    pub fn new(scopes: Vec<String>) -> (r: Self)
        ensures
            r.scopes == scopes,
            r.service_account_file_path is None,
            r.token_refresh is None,
    {
        TokenManagerBuilder { scopes, service_account_file_path: None, token_refresh: None }
    }

    /// Names the service account key file to authenticate with.
    pub fn service_account_file(self, path: String) -> (r: Self)
        ensures
            r.scopes == self.scopes,
            r.service_account_file_path == Some(path),
            r.token_refresh == self.token_refresh,
    {
        TokenManagerBuilder { service_account_file_path: Some(path), ..self }
    }

    /// Validates the configuration: a service account file is required; the
    /// refresh policy falls back to the default.
    pub fn build(self) -> (r: Result<TokenManagerConfig, FirestoreError>)
        ensures
            r is Ok <==> self.service_account_file_path is Some,
            r matches Ok(c) ==> c.scopes == self.scopes && Some(c.service_account_file_path)
                == self.service_account_file_path && c.token_refresh == (
            match self.token_refresh {
                Some(t) => t,
                None => TokenRefresh {
                    do_auto_refresh: true,
                    refresh_in_seconds_to_expire: 300,
                    refresh_check_seconds: 60,
                },
            }),
            r matches Err(e) ==> e == FirestoreError::Validation(
                ValidationError::MissingServiceAccountFile,
            ),
    {
        match self.service_account_file_path {
            Some(path) => Ok(
                TokenManagerConfig {
                    scopes: self.scopes,
                    service_account_file_path: path,
                    token_refresh: match self.token_refresh {
                        Some(t) => t,
                        None => TokenRefresh::default(),
                    },
                },
            ),
            None => Err(
                FirestoreError::Validation(ValidationError::MissingServiceAccountFile),
            ),
        }
    }
}

} // verus!
