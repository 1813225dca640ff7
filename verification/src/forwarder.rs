//! The forwarder: its settings and the transport client built from them.

use std::time::Duration;
use vstd::prelude::*;
use reqwest::redirect::Policy;
use reqwest::{Client, ClientBuilder};
use crate::error::ErrorKind;
use crate::redirect::{decide, RedirectAction};

verus! {

/// The transport's client: a handle to its connection pool and settings.
#[verifier::external_type_specification]
#[verifier::external_body]
pub struct ExClient(reqwest::Client);

/// The transport's client under construction.
#[verifier::external_type_specification]
#[verifier::external_body]
pub struct ExClientBuilder(reqwest::ClientBuilder);

/// The transport's error value.
#[verifier::external_type_specification]
#[verifier::external_body]
pub struct ExTransportError(reqwest::Error);

/// The settings a forwarder is constructed with.
#[derive(Clone, Copy, Debug, PartialEq, Eq, Structural)]
pub struct ForwarderConfig {
    /// How many redirects are followed before a redirect response is handed
    /// back as it is.
    pub redirect_limit: usize,
    /// Whether hosts with invalid, expired or self-signed certificates are
    /// trusted.
    pub accept_invalid_certs: bool,
    /// The time allowed for a whole exchange, in seconds; `None` leaves the
    /// transport without a deadline.
    pub timeout_secs: Option<u64>,
}

impl Default for ForwarderConfig {
    /// Fifteen redirects, certificates are not validated, no deadline.
    fn default() -> (config: ForwarderConfig)
        ensures
            config.redirect_limit == 15,
            config.accept_invalid_certs,
            config.timeout_secs is None,
    {
        ForwarderConfig { redirect_limit: 15, accept_invalid_certs: true, timeout_secs: None }
    }
}

/// Starts a client with `reqwest::Client::builder`, sets its redirect policy
/// with `ClientBuilder::redirect` to a `redirect::Policy::custom` that puts
/// every redirect to `decide`, and hands the certificate setting to
/// `ClientBuilder::danger_accept_invalid_certs`. The builder is opaque, so
/// nothing is claimed of it.
#[verifier::external_body]
fn start_client(redirect_limit: usize, accept_invalid_certs: bool) -> ClientBuilder {
    let policy = Policy::custom(
        move |attempt| match decide(attempt.previous().len(), redirect_limit) {
            RedirectAction::Follow => attempt.follow(),
            RedirectAction::Stop => attempt.stop(),
        },
    );
    Client::builder().redirect(policy).danger_accept_invalid_certs(accept_invalid_certs)
}

/// `ClientBuilder::timeout` with a deadline of whole seconds.
#[verifier::external_body]
fn with_deadline(builder: ClientBuilder, seconds: u64) -> ClientBuilder {
    builder.timeout(Duration::from_secs(seconds))
}

/// `ClientBuilder::build`. Whether the build succeeds depends on the TLS
/// backend and the configuration of the machine, so nothing is claimed of
/// the result.
#[verifier::external_body]
fn build_client(builder: ClientBuilder) -> Result<Client, reqwest::Error> {
    builder.build()
}

/// A forwarder: the settings it was constructed with and the client that
/// carries them.
pub struct Forwarder {
    config: ForwarderConfig,
    client: Client,
}

impl Forwarder {
    /// The settings of this forwarder.
    pub closed spec fn spec_config(&self) -> ForwarderConfig {
        self.config
    }

    /// The client of this forwarder.
    pub closed spec fn spec_client(&self) -> Client {
        self.client
    }

    /// Makes a forwarder of the outcome of building its client: a client
    /// that could not be built is `ClientInitFailed`.
    pub fn from_built(config: ForwarderConfig, built: Result<Client, reqwest::Error>) -> (forwarder:
        Result<Forwarder, ErrorKind>)
        ensures
            match built {
                Ok(client) => forwarder matches Ok(f) && f.spec_config() == config
                    && f.spec_client() == client,
                Err(_) => forwarder matches Err(e) && e == ErrorKind::ClientInitFailed,
            },
    {
        match built {
            Ok(client) => Ok(Forwarder { config, client }),
            Err(_) => Err(ErrorKind::ClientInitFailed),
        }
    }

    /// Constructs a forwarder with the given settings. The only failure is
    /// `ClientInitFailed`, when the transport cannot set up its client.
    pub fn new(config: ForwarderConfig) -> (forwarder: Result<Forwarder, ErrorKind>)
        ensures
            match forwarder {
                Ok(f) => f.spec_config() == config,
                Err(e) => e == ErrorKind::ClientInitFailed,
            },
    {
        let started = start_client(config.redirect_limit, config.accept_invalid_certs);
        let builder = match config.timeout_secs {
            Some(seconds) => with_deadline(started, seconds),
            None => started,
        };
        Forwarder::from_built(config, build_client(builder))
    }

    /// The settings this forwarder was constructed with.
    pub fn config(&self) -> (config: ForwarderConfig)
        ensures
            config == self.spec_config(),
    {
        self.config
    }

    /// The client to send planned requests with.
    pub fn client(&self) -> (client: &Client)
        ensures
            *client == self.spec_client(),
    {
        &self.client
    }
}

} // verus!
