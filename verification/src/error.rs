//! The errors that the client hands to its callers, and how a failure of the
//! transport is sorted into them.

use vaultrs::error::ClientError;
use vstd::prelude::*;

verus! {

/// The transport's own error type. Its values are carried through unread; the one
/// thing the client asks of such a value is the status in `api_status`.
#[verifier::external_type_specification]
#[verifier::external_body]
pub struct ExClientError(vaultrs::error::ClientError);

/// The status code with which the service answered, where the failure is an answer
/// of the service at all: `Some(code)` for `ClientError::APIError { code, .. }`,
/// `None` for every other variant.
pub uninterp spec fn api_status(cause: ClientError) -> Option<u16>;

/// Reads the status code out of a transport failure.
///
/// Trusted: matches on `vaultrs::error::ClientError` and hands out the `code`
/// field of its `APIError` variant, `None` for the other variants. The contract
/// claims only that this is the value that `api_status` names.
#[verifier::external_body]
pub(crate) fn status_of(cause: &ClientError) -> (status: Option<u16>)
    ensures
        status == api_status(*cause),
{
    match cause {
        ClientError::APIError { code, .. } => Some(*code),
        _ => None,
    }
}

/// The status with which the service reports that nothing is stored at a path.
pub const STATUS_NOT_FOUND: u16 = 404;

/// Why a client could not be constructed.
#[derive(Debug)]
pub enum ConfigFault {
    /// The service address is not a well-formed URL.
    Address(String),
    /// The transport refused the settings (certificate material, HTTP client).
    Transport(ClientError),
}

/// What can go wrong in the client.
#[derive(Debug)]
pub enum VaultError {
    /// The service reported that nothing is stored at `path` under `namespace`.
    NotFound { namespace: String, path: String },
    /// Any other failure of the service, the protocol, the encoding or the
    /// connection, with its cause.
    TransportError(ClientError),
    /// The construction parameters are invalid.
    ConfigError(ConfigFault),
}

impl VaultError {
    /// `self` is `NotFound` and names exactly this namespace and path.
    pub open spec fn is_not_found_at(self, namespace: Seq<char>, path: Seq<char>) -> bool {
        self matches VaultError::NotFound { namespace: n, path: p } && n@ == namespace && p@
            == path
    }

    /// Whether the status is the one that stands for a missing resource.
    pub open spec fn reports_missing(status: Option<u16>) -> bool {
        status == Some(STATUS_NOT_FOUND)
    }

    /// The error for one failed request at `namespace`/`path`, where a missing
    /// resource is told apart from every other failure: `NotFound` for the status
    /// 404, and otherwise `TransportError` around the unchanged cause.
    pub fn missing_or_transport(
        namespace: &str,
        path: &str,
        status: Option<u16>,
        cause: ClientError,
    ) -> (err: VaultError)
        ensures
            Self::reports_missing(status) ==> err.is_not_found_at(namespace@, path@),
            !Self::reports_missing(status) ==> err == VaultError::TransportError(cause),
    {
        match status {
            Some(code) if code == STATUS_NOT_FOUND => VaultError::NotFound {
                namespace: namespace.to_owned(),
                path: path.to_owned(),
            },
            _ => VaultError::TransportError(cause),
        }
    }

    /// Whether this is the `NotFound` variant.
    pub fn is_not_found(&self) -> (b: bool)
        ensures
            b == (*self is NotFound),
    {
        match self {
            VaultError::NotFound { .. } => true,
            _ => false,
        }
    }
}

impl From<ClientError> for VaultError {
    /// A transport failure with nothing more known of it is a `TransportError`.
    fn from(cause: ClientError) -> (err: VaultError) {
        VaultError::TransportError(cause)
    }
}

impl vstd::std_specs::convert::FromSpecImpl<ClientError> for VaultError {
    open spec fn obeys_from_spec() -> bool {
        true
    }

    open spec fn from_spec(cause: ClientError) -> VaultError {
        VaultError::TransportError(cause)
    }
}

} // verus!
