//! Error taxonomy of the relay core.

use vstd::prelude::*;

verus! {

/// An error raised by one of the persistent stores.
#[derive(Debug, Clone)]
pub enum StoreError {
    /// The requested record does not exist; carries the record kind
    /// (for example `"client"`) and the id that was looked up.
    NotFound(String, String),
    /// The store itself refused the operation, for example because a write
    /// would violate a uniqueness constraint.
    Backend,
}

/// An error of the dispatch pipeline, translated once at the boundary into
/// the public failure envelope.
#[derive(Debug, Clone)]
pub enum Error {
    /// The inbound request carried no valid proof of origin.
    SignatureInvalid,
    /// No client is registered under the target (tenant, client id).
    ClientNotFound,
    /// The target tenant does not exist.
    TenantNotFound,
    /// The client's vendor kind is not enabled for its tenant.
    ProviderNotFound,
    /// A store-layer failure.
    Store(StoreError),
    /// The upstream push vendor refused or failed the delivery.
    ProviderSend,
    /// The rate-limiting collaborator rejected the request.
    RateLimited,
}

/// The HTTP status class each error is reported with: not-found kinds map to
/// 404, signature failure to 401, rate limiting to 429, and backend or
/// provider failures to the server-error class.
pub open spec fn spec_status_for(e: Error) -> u16 {
    match e {
        Error::SignatureInvalid => 401,
        Error::ClientNotFound => 404,
        Error::TenantNotFound => 404,
        Error::ProviderNotFound => 404,
        Error::Store(StoreError::NotFound(_, _)) => 404,
        Error::Store(StoreError::Backend) => 500,
        Error::ProviderSend => 502,
        Error::RateLimited => 429,
    }
}

/// A sentence describing each error, used in the failure envelope in
/// place of a `Display` rendering.
pub open spec fn spec_message_for(e: Error) -> Seq<char> {
    match e {
        Error::SignatureInvalid => "invalid request signature"@,
        Error::ClientNotFound => "client not found"@,
        Error::TenantNotFound => "tenant not found"@,
        Error::ProviderNotFound => "push provider not found"@,
        Error::Store(StoreError::NotFound(_, _)) => "record not found"@,
        Error::Store(StoreError::Backend) => "store refused the operation"@,
        Error::ProviderSend => "push provider rejected the delivery"@,
        Error::RateLimited => "too many requests"@,
    }
}

/// The short name of each error, used in the failure envelope.
pub open spec fn spec_name_for(e: Error) -> Seq<char> {
    match e {
        Error::SignatureInvalid => "SignatureInvalid"@,
        Error::ClientNotFound => "ClientNotFound"@,
        Error::TenantNotFound => "TenantNotFound"@,
        Error::ProviderNotFound => "ProviderNotFound"@,
        Error::Store(StoreError::NotFound(_, _)) => "NotFound"@,
        Error::Store(StoreError::Backend) => "StoreBackend"@,
        Error::ProviderSend => "ProviderSend"@,
        Error::RateLimited => "RateLimited"@,
    }
}

impl Error {
    /// The HTTP status the error is reported with.
    pub fn status(&self) -> (r: u16)
        ensures
            r == spec_status_for(*self),
    {
        match self {
            Error::SignatureInvalid => 401,
            Error::ClientNotFound => 404,
            Error::TenantNotFound => 404,
            Error::ProviderNotFound => 404,
            Error::Store(StoreError::NotFound(_, _)) => 404,
            Error::Store(StoreError::Backend) => 500,
            Error::ProviderSend => 502,
            Error::RateLimited => 429,
        }
    }

    /// A sentence describing the error, in place of a `Display` rendering.
    pub fn message(&self) -> (r: String)
        ensures
            r@ == spec_message_for(*self),
    {
        match self {
            Error::SignatureInvalid => String::from_str("invalid request signature"),
            Error::ClientNotFound => String::from_str("client not found"),
            Error::TenantNotFound => String::from_str("tenant not found"),
            Error::ProviderNotFound => String::from_str("push provider not found"),
            Error::Store(StoreError::NotFound(_, _)) => String::from_str("record not found"),
            Error::Store(StoreError::Backend) => String::from_str("store refused the operation"),
            Error::ProviderSend => String::from_str("push provider rejected the delivery"),
            Error::RateLimited => String::from_str("too many requests"),
        }
    }

    /// The short name used in the failure envelope.
    pub fn name(&self) -> (r: String)
        ensures
            r@ == spec_name_for(*self),
    {
        match self {
            Error::SignatureInvalid => String::from_str("SignatureInvalid"),
            Error::ClientNotFound => String::from_str("ClientNotFound"),
            Error::TenantNotFound => String::from_str("TenantNotFound"),
            Error::ProviderNotFound => String::from_str("ProviderNotFound"),
            Error::Store(StoreError::NotFound(_, _)) => String::from_str("NotFound"),
            Error::Store(StoreError::Backend) => String::from_str("StoreBackend"),
            Error::ProviderSend => String::from_str("ProviderSend"),
            Error::RateLimited => String::from_str("RateLimited"),
        }
    }
}

} // verus!
