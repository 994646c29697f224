//! What a client is constructed from, the defaults it falls back to, and the
//! settings it asks its transport to be built with.

use crate::error::{ConfigFault, VaultError};
use url::Url;
use vstd::prelude::*;

verus! {

/// An absolute URL. Its values come from `parse_address` and are carried
/// through unread.
#[verifier::external_type_specification]
#[verifier::external_body]
pub struct ExUrl(url::Url);

/// What `Url::parse` makes of the text of an address: the URL that it reads,
/// or `None` where the text is no absolute URL.
pub uninterp spec fn parsed_address(address: Seq<char>) -> Option<Url>;

/// Reads an address as a URL.
///
/// Trusted: calls `url::Url::parse` and drops its error. The contract claims
/// only that the outcome is the one that `parsed_address` names for this text,
/// which is to say that the same text is always read the same way.
#[verifier::external_body]
pub(crate) fn parse_address(address: &str) -> (parsed: Option<Url>)
    ensures
        parsed == parsed_address(address@),
{
    Url::parse(address).ok()
}

/// Version of the service's HTTP API that every request is made against.
pub const API_VERSION: u8 = 1;

/// Seconds between two renewals where the configuration names no interval:
/// twelve hours.
pub const TOKEN_REFRESH_INTERVAL_SECS: u64 = 43200;

/// One second in nanoseconds.
pub const NANOS_PER_SEC: u32 = 1_000_000_000;

/// The increment asked for at each renewal where the configuration names none.
pub open spec fn default_increment() -> Seq<char> {
    "72h"@
}

/// The default refresh interval in nanoseconds.
pub open spec fn default_refresh_nanos() -> nat {
    (TOKEN_REFRESH_INTERVAL_SECS as nat) * (NANOS_PER_SEC as nat)
}

/// A span of time, held as whole seconds and the nanoseconds beyond them. Its
/// view is the span in nanoseconds.
#[derive(Clone, Copy, Debug, PartialEq, Eq, Structural)]
pub struct Interval {
    secs: u64,
    subsec_nanos: u32,
}

impl View for Interval {
    type V = nat;

    closed spec fn view(&self) -> nat {
        (self.secs as nat) * (NANOS_PER_SEC as nat) + (self.subsec_nanos as nat)
    }
}

impl Interval {
    /// The nanoseconds stay below one second.
    #[verifier::type_invariant]
    spec fn wf(self) -> bool {
        self.subsec_nanos < NANOS_PER_SEC
    }

    /// A span of `secs` seconds and `subsec_nanos` nanoseconds; `None` where the
    /// nanoseconds reach a full second.
    pub fn new(secs: u64, subsec_nanos: u32) -> (made: Option<Interval>)
        ensures
            made is Some <==> subsec_nanos < NANOS_PER_SEC,
            made matches Some(interval) ==> interval@ == secs * NANOS_PER_SEC + subsec_nanos,
    {
        if subsec_nanos < NANOS_PER_SEC {
            Some(Interval { secs, subsec_nanos })
        } else {
            None
        }
    }

    /// A span of whole seconds.
    pub fn from_secs(secs: u64) -> (interval: Interval)
        ensures
            interval@ == secs * NANOS_PER_SEC,
    {
        Interval { secs, subsec_nanos: 0 }
    }

    /// A span of milliseconds.
    pub fn from_millis(millis: u64) -> (interval: Interval)
        ensures
            interval@ == millis * 1_000_000,
    {
        let rest: u64 = millis % 1000;
        let subsec_nanos: u32 = (rest * 1_000_000) as u32;
        let interval = Interval { secs: millis / 1000, subsec_nanos };
        assert(interval@ == millis * 1_000_000) by {
            let whole = (millis / 1000) as int;
            assert(millis == whole * 1000 + rest);
            assert(whole * 1_000_000_000 + rest * 1_000_000 == (whole * 1000 + rest) * 1_000_000)
                by (nonlinear_arith);
        }
        interval
    }

    /// The whole seconds of the span.
    pub fn as_secs(&self) -> (secs: u64)
        ensures
            secs == self@ / (NANOS_PER_SEC as nat),
    {
        proof {
            use_type_invariant(self);
            Self::lemma_parts(self.secs as nat, self.subsec_nanos as nat);
        }
        self.secs
    }

    /// The nanoseconds beyond the whole seconds: always less than a second.
    pub fn subsec_nanos(&self) -> (nanos: u32)
        ensures
            nanos == self@ % (NANOS_PER_SEC as nat),
            nanos < NANOS_PER_SEC,
    {
        proof {
            use_type_invariant(self);
            Self::lemma_parts(self.secs as nat, self.subsec_nanos as nat);
        }
        self.subsec_nanos
    }

    /// Whether the span is empty.
    pub fn is_zero(&self) -> (zero: bool)
        ensures
            zero == (self@ == 0),
    {
        assert(self.secs > 0 ==> (self.secs as nat) * (NANOS_PER_SEC as nat) > 0)
            by (nonlinear_arith);
        self.secs == 0 && self.subsec_nanos == 0
    }

    /// Seconds and nanoseconds are quotient and remainder of their sum.
    proof fn lemma_parts(secs: nat, nanos: nat)
        requires
            nanos < NANOS_PER_SEC,
        ensures
            (secs * (NANOS_PER_SEC as nat) + nanos) / (NANOS_PER_SEC as nat) == secs,
            (secs * (NANOS_PER_SEC as nat) + nanos) % (NANOS_PER_SEC as nat) == nanos,
    {
        vstd::arithmetic::div_mod::lemma_fundamental_div_mod_converse(
            (secs * (NANOS_PER_SEC as nat) + nanos) as int,
            NANOS_PER_SEC as int,
            secs as int,
            nanos as int,
        );
    }
}

/// The options that a client is constructed from.
#[derive(Clone, Debug)]
pub struct Config {
    /// The credential that requests are made with.
    pub token: String,
    /// URL of the service.
    pub addr: String,
    /// Mount path of the secret engine: the namespace of every path.
    pub mount: String,
    /// Paths of CA bundles to trust.
    pub certs: Vec<String>,
    /// The increment asked for at each renewal, such as `72h`.
    pub token_increment_ttl: Option<String>,
    /// The time between two renewals.
    pub token_refresh_interval: Option<Interval>,
}

/// What the transport is to be built with.
#[derive(Debug)]
pub struct TransportSettings {
    pub token: String,
    pub address: Url,
    pub ca_certs: Vec<String>,
    /// Whether the service's certificate is verified.
    pub verify: bool,
    /// Version of the HTTP API.
    pub version: u8,
    /// Whether responses are asked for wrapped.
    pub wrapping: bool,
    /// A limit on the time one request may take; `None` leaves the transport's own.
    pub timeout: Option<Interval>,
}

/// Whether `outcome` is what comes of a configuration whose address was read as
/// `address`: with a URL, the settings that hold it beside the configuration's
/// token and CA bundles, API version 1, no certificate verification, no
/// wrapping and no timeout; without one, a `ConfigError` that names the address.
pub open spec fn settings_outcome(
    config: Config,
    address: Option<Url>,
    outcome: Result<TransportSettings, VaultError>,
) -> bool {
    match address {
        Some(url) => {
            &&& outcome matches Ok(settings)
            &&& settings.address == url
            &&& settings.token == config.token
            &&& settings.ca_certs@ == config.certs@
            &&& settings.verify == false
            &&& settings.version == API_VERSION
            &&& settings.wrapping == false
            &&& settings.timeout is None
        },
        None => outcome == Err::<TransportSettings, VaultError>(
            VaultError::ConfigError(ConfigFault::Address(config.addr)),
        ),
    }
}

impl Config {
    /// The increment that a client with this configuration asks for.
    pub open spec fn increment(self) -> Seq<char> {
        match self.token_increment_ttl {
            Some(ttl) => ttl@,
            None => default_increment(),
        }
    }

    /// The interval at which a client with this configuration renews, in
    /// nanoseconds.
    pub open spec fn refresh_interval(self) -> nat {
        match self.token_refresh_interval {
            Some(interval) => interval@,
            None => default_refresh_nanos(),
        }
    }

    /// The settings for the transport of a client with this configuration, given
    /// what reading its address came to.
    pub fn settings_with(&self, address: Option<Url>) -> (outcome: Result<
        TransportSettings,
        VaultError,
    >)
        ensures
            settings_outcome(*self, address, outcome),
    {
        match address {
            None => Err(VaultError::ConfigError(ConfigFault::Address(self.addr.clone()))),
            Some(address) => {
                let ca_certs = self.certs.clone();
                assert(ca_certs@ =~= self.certs@);
                Ok(
                    TransportSettings {
                        token: self.token.clone(),
                        address,
                        ca_certs,
                        verify: false,
                        version: API_VERSION,
                        wrapping: false,
                        timeout: None,
                    },
                )
            },
        }
    }

    /// The settings for the transport of a client with this configuration, or a
    /// `ConfigError` where its address is no absolute URL.
    pub fn transport_settings(&self) -> (outcome: Result<TransportSettings, VaultError>)
        ensures
            settings_outcome(*self, parsed_address(self.addr@), outcome),
    {
        let address = parse_address(self.addr.as_str());
        self.settings_with(address)
    }
}

} // verus!
