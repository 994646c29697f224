//! The client: secret operations scoped under one namespace. The transport makes
//! each request; the client decides what its answer means for the caller.

use crate::config::{Config, Interval};
use crate::error::{api_status, status_of, ConfigFault, VaultError};
use crate::lineage::Lineage;
use crate::scheduler::RenewalTask;
use tokio::sync::oneshot::Receiver;
use vaultrs::api::kv2::responses::SecretVersionMetadata;
use vaultrs::error::ClientError;
use vstd::prelude::*;

verus! {

/// What the service returns for a version that was written: its number and
/// times. The client hands it on unread.
#[verifier::external_type_specification]
#[verifier::external_body]
pub struct ExSecretVersionMetadata(vaultrs::api::kv2::responses::SecretVersionMetadata);

/// A client of the secret store: a transport handle, the namespace that every
/// path is scoped under, and how its token is renewed.
#[derive(Clone)]
pub struct Client<T> {
    inner: T,
    namespace: String,
    token_increment_ttl: String,
    token_refresh_interval: Interval,
}

/// What a client is, as plain values.
pub ghost struct ClientView<T> {
    pub transport: T,
    pub namespace: Seq<char>,
    pub token_increment_ttl: Seq<char>,
    /// The time between two renewals, in nanoseconds.
    pub token_refresh_interval: nat,
}

impl<T> View for Client<T> {
    type V = ClientView<T>;

    closed spec fn view(&self) -> ClientView<T> {
        ClientView {
            transport: self.inner,
            namespace: self.namespace@,
            token_increment_ttl: self.token_increment_ttl@,
            token_refresh_interval: self.token_refresh_interval@,
        }
    }
}

/// Where a request goes: the mount of the secret engine, and the path below it.
#[derive(Debug)]
pub struct SecretPath {
    pub mount: String,
    pub path: String,
}

/// What a construction hands out: the client, its renewal task, not yet run,
/// and the one cancellation signal of the client and all its clones, as the
/// lineage that fires it and the half that the task's driver listens on.
pub struct Started<T> {
    pub client: Client<T>,
    pub task: RenewalTask,
    pub lineage: Lineage,
    pub cancelled: Receiver<()>,
}

/// What comes of a response where a missing resource is told apart: a value is
/// handed on, the status 404 becomes `NotFound` at this namespace and path, and
/// any other failure becomes `TransportError` around its cause.
pub open spec fn scoped_outcome<V>(
    namespace: Seq<char>,
    path: Seq<char>,
    response: Result<V, ClientError>,
    outcome: Result<V, VaultError>,
) -> bool {
    match response {
        Ok(value) => outcome == Ok::<V, VaultError>(value),
        Err(cause) => outcome matches Err(err) && if VaultError::reports_missing(
            api_status(cause),
        ) {
            err.is_not_found_at(namespace, path)
        } else {
            err == VaultError::TransportError(cause)
        },
    }
}

/// What comes of a response where every failure counts alike: a value is handed
/// on, and a failure becomes `TransportError` around its cause.
pub open spec fn plain_outcome<V>(
    response: Result<V, ClientError>,
    outcome: Result<V, VaultError>,
) -> bool {
    match response {
        Ok(value) => outcome == Ok::<V, VaultError>(value),
        Err(cause) => outcome == Err::<V, VaultError>(VaultError::TransportError(cause)),
    }
}

/// No operation turns a failure of the service into a success, or a success
/// into a failure: a value comes back as the service gave it, and a failure
/// comes back as `NotFound` or as `TransportError`, never as anything else.
pub proof fn lemma_failures_are_surfaced<V>(
    namespace: Seq<char>,
    path: Seq<char>,
    response: Result<V, ClientError>,
    outcome: Result<V, VaultError>,
)
    requires
        scoped_outcome(namespace, path, response, outcome) || plain_outcome(response, outcome),
    ensures
        outcome is Ok <==> response is Ok,
        response matches Ok(value) ==> outcome == Ok::<V, VaultError>(value),
        outcome matches Err(err) ==> err is NotFound || err is TransportError,
{
}

/// Where the service answers with the status 404, an operation that tells a
/// missing resource apart gives `NotFound` with the namespace and the path that
/// were asked for.
pub proof fn lemma_missing_is_not_found<V>(
    namespace: Seq<char>,
    path: Seq<char>,
    cause: ClientError,
    outcome: Result<V, VaultError>,
)
    requires
        api_status(cause) == Some(crate::error::STATUS_NOT_FOUND),
        scoped_outcome(namespace, path, Err::<V, ClientError>(cause), outcome),
    ensures
        outcome matches Err(err) && err.is_not_found_at(namespace, path),
{
}

impl<T> Client<T> {
    /// The client that `new` makes of a configuration and a transport.
    pub open spec fn configured(config: Config, transport: T) -> ClientView<T> {
        ClientView {
            transport,
            namespace: config.mount@,
            token_increment_ttl: config.increment(),
            token_refresh_interval: config.refresh_interval(),
        }
    }

    /// Makes a client of a configuration and of what came of building the
    /// transport with the settings of `config.transport_settings()`.
    ///
    /// No request is made. Where the transport could not be built, the failure is
    /// a `ConfigError` around its cause. Where the configuration names no
    /// increment or no interval, the client takes `72h` and twelve hours. Each
    /// construction makes one renewal task, waiting for its first tick, and one
    /// cancellation signal, armed and held by one handle.
    pub fn new(config: Config, transport: Result<T, ClientError>) -> (made: Result<
        Started<T>,
        VaultError,
    >)
        ensures
            match transport {
                Ok(handle) => {
                    &&& made matches Ok(started)
                    &&& started.client@ == Self::configured(config, handle)
                    &&& started.task@ == RenewalTask::initial(
                        config.increment(),
                        config.refresh_interval(),
                    )
                    &&& started.lineage@ == Lineage::fresh()
                },
                Err(cause) => made matches Err(err) && err == VaultError::ConfigError(
                    ConfigFault::Transport(cause),
                ),
            },
    {
        match transport {
            Err(cause) => Err(VaultError::ConfigError(ConfigFault::Transport(cause))),
            Ok(inner) => {
                let token_increment_ttl = match config.token_increment_ttl {
                    Some(ttl) => ttl,
                    None => "72h".to_owned(),
                };
                let token_refresh_interval = match config.token_refresh_interval {
                    Some(interval) => interval,
                    None => Interval::from_secs(crate::config::TOKEN_REFRESH_INTERVAL_SECS),
                };
                let task = RenewalTask::new(token_increment_ttl.clone(), token_refresh_interval);
                let client = Client {
                    inner,
                    namespace: config.mount,
                    token_increment_ttl,
                    token_refresh_interval,
                };
                let (lineage, cancelled) = Lineage::new();
                Ok(Started { client, task, lineage, cancelled })
            },
        }
    }

    /// The transport handle.
    pub fn transport(&self) -> (handle: &T)
        ensures
            *handle == self@.transport,
    {
        &self.inner
    }

    /// The namespace that every path of this client is scoped under.
    pub fn namespace(&self) -> (namespace: &str)
        ensures
            namespace@ == self@.namespace,
    {
        self.namespace.as_str()
    }

    /// The increment asked for at each renewal.
    pub fn token_increment_ttl(&self) -> (increment: &str)
        ensures
            increment@ == self@.token_increment_ttl,
    {
        self.token_increment_ttl.as_str()
    }

    /// The time between two renewals.
    pub fn token_refresh_interval(&self) -> (interval: Interval)
        ensures
            interval@ == self@.token_refresh_interval,
    {
        self.token_refresh_interval
    }

    /// Where a request for `path` goes: to `path` under this client's namespace.
    pub fn secret_path(&self, path: &str) -> (at: SecretPath)
        ensures
            at.mount@ == self@.namespace,
            at.path@ == path@,
    {
        SecretPath { mount: self.namespace.clone(), path: path.to_owned() }
    }

    /// What the caller gets for reading the secret at `path`, given the
    /// transport's answer to the read at `self.secret_path(path)`.
    ///
    /// The value is handed on as it came. The status 404 becomes `NotFound` with
    /// this namespace and `path`; any other failure becomes `TransportError`.
    pub fn read_secret<D>(&self, path: &str, response: Result<D, ClientError>) -> (outcome: Result<
        D,
        VaultError,
    >)
        ensures
            scoped_outcome(self@.namespace, path@, response, outcome),
    {
        match response {
            Ok(value) => Ok(value),
            Err(cause) => {
                let status = status_of(&cause);
                Err(VaultError::missing_or_transport(self.namespace.as_str(), path, status, cause))
            },
        }
    }

    /// What the caller gets for writing a new version at `path`, given the
    /// transport's answer: the version's metadata as it came, or
    /// `TransportError` for any failure, whatever its status.
    pub fn write_secret(
        &self,
        path: &str,
        response: Result<SecretVersionMetadata, ClientError>,
    ) -> (outcome: Result<SecretVersionMetadata, VaultError>)
        ensures
            plain_outcome(response, outcome),
    {
        match response {
            Ok(metadata) => Ok(metadata),
            Err(cause) => Err(VaultError::TransportError(cause)),
        }
    }

    /// What the caller gets for deleting the latest version at `path`, given the
    /// transport's answer: success only where the service reported success, and
    /// a failure sorted as for a read.
    pub fn delete_latest(&self, path: &str, response: Result<(), ClientError>) -> (outcome: Result<
        (),
        VaultError,
    >)
        ensures
            scoped_outcome(self@.namespace, path@, response, outcome),
    {
        match response {
            Ok(()) => Ok(()),
            Err(cause) => {
                let status = status_of(&cause);
                Err(VaultError::missing_or_transport(self.namespace.as_str(), path, status, cause))
            },
        }
    }

    /// What the caller gets for listing the keys under `path`, given the
    /// transport's answer: the keys in the order in which they came, or a failure
    /// sorted as for a read.
    pub fn list_secrets(&self, path: &str, response: Result<Vec<String>, ClientError>) -> (outcome:
        Result<Vec<String>, VaultError>)
        ensures
            scoped_outcome(self@.namespace, path@, response, outcome),
    {
        match response {
            Ok(keys) => Ok(keys),
            Err(cause) => {
                let status = status_of(&cause);
                Err(VaultError::missing_or_transport(self.namespace.as_str(), path, status, cause))
            },
        }
    }
}

} // verus!
