use std::sync::Arc;
use std::time::Duration;
use vstd::prelude::*;

use crate::transport::TransportOption;

verus! {

#[verifier::external_type_specification]
#[verifier::external_body]
pub struct ExTransportConfig(quinn::TransportConfig);

#[verifier::external_type_specification]
#[verifier::external_body]
pub struct ExClientConfig(quinn::ClientConfig);

/// Calls `quinn::TransportConfig::default()`. Nothing is stated of the
/// configuration: quinn gives it no accessors.
#[verifier::external_body]
fn default_transport_config() -> quinn::TransportConfig {
    quinn::TransportConfig::default()
}

/// A QUIC transport configuration together with the record of the
/// configuration calls made on it since it held quinn's defaults. The record
/// changes only with the calls themselves, each of which names the quinn
/// setter it makes.
pub struct TransportSetup {
    config: quinn::TransportConfig,
    applied: Ghost<Seq<TransportOption>>,
}

impl TransportSetup {
    /// The configuration calls made on quinn's defaults, in order.
    pub closed spec fn applied(&self) -> Seq<TransportOption> {
        self.applied@
    }

    /// The quinn configuration itself.
    pub closed spec fn config(&self) -> quinn::TransportConfig {
        self.config
    }

    /// quinn's default transport configuration, with no call made on it.
    pub fn new() -> (r: TransportSetup)
        ensures
            r.applied() == Seq::<TransportOption>::empty(),
    {
        TransportSetup { config: default_transport_config(), applied: Ghost(Seq::empty()) }
    }

    /// The quinn configuration.
    pub fn into_config(self) -> (r: quinn::TransportConfig)
        ensures
            r == self.config(),
    {
        self.config
    }

    /// Calls `quinn::TransportConfig::keep_alive_interval(value)`. Trusted:
    /// the call is recorded as [`TransportOption::KeepAliveInterval`]; quinn
    /// stores the value in its `keep_alive_interval` field.
    #[verifier::external_body]
    pub(crate) fn set_keep_alive_interval(&mut self, value: Option<Duration>)
        ensures
            final(self).applied() == old(self).applied().push(TransportOption::KeepAliveInterval(value)),
    {
        self.config.keep_alive_interval(value);
    }

    /// Calls `quinn::TransportConfig::max_concurrent_bidi_streams` with
    /// `value` as a `VarInt`. Trusted: the call is recorded as
    /// [`TransportOption::MaxConcurrentBidiStreams`]; quinn stores the value
    /// in its `max_concurrent_bidi_streams` field.
    #[verifier::external_body]
    pub(crate) fn set_max_concurrent_bidi_streams(&mut self, value: u32)
        ensures
            final(self).applied() == old(self).applied().push(TransportOption::MaxConcurrentBidiStreams(value)),
    {
        self.config.max_concurrent_bidi_streams(value.into());
    }

    /// Calls `quinn::TransportConfig::max_concurrent_uni_streams` with
    /// `value` as a `VarInt`. Trusted: the call is recorded as
    /// [`TransportOption::MaxConcurrentUniStreams`]; quinn stores the value in
    /// its `max_concurrent_uni_streams` field.
    #[verifier::external_body]
    pub(crate) fn set_max_concurrent_uni_streams(&mut self, value: u32)
        ensures
            final(self).applied() == old(self).applied().push(TransportOption::MaxConcurrentUniStreams(value)),
    {
        self.config.max_concurrent_uni_streams(value.into());
    }

    /// Calls `quinn::TransportConfig::stream_receive_window` with `value` as
    /// a `VarInt`. Trusted: the call is recorded as
    /// [`TransportOption::StreamReceiveWindow`]; quinn stores the value in its
    /// `stream_receive_window` field.
    #[verifier::external_body]
    pub(crate) fn set_stream_receive_window(&mut self, value: u32)
        ensures
            final(self).applied() == old(self).applied().push(TransportOption::StreamReceiveWindow(value)),
    {
        self.config.stream_receive_window(value.into());
    }

    /// Calls `quinn::TransportConfig::receive_window` with `value` as a
    /// `VarInt`. Trusted: the call is recorded as
    /// [`TransportOption::ReceiveWindow`]; quinn stores the value in its
    /// `receive_window` field.
    #[verifier::external_body]
    pub(crate) fn set_receive_window(&mut self, value: u32)
        ensures
            final(self).applied() == old(self).applied().push(TransportOption::ReceiveWindow(value)),
    {
        self.config.receive_window(value.into());
    }

    /// Calls `quinn::TransportConfig::send_window` with `value` widened to
    /// `u64`. Trusted: the call is recorded as [`TransportOption::SendWindow`];
    /// quinn stores the value in its `send_window` field.
    #[verifier::external_body]
    pub(crate) fn set_send_window(&mut self, value: u32)
        ensures
            final(self).applied() == old(self).applied().push(TransportOption::SendWindow(value)),
    {
        self.config.send_window(value.into());
    }
}

/// A QUIC client configuration together with the record of what the library
/// wrote into it: the configuration it started as, the QUIC version set
/// (`None` while untouched) and the configuration calls of the transport
/// installed (`None` while the starting transport is kept). The record changes
/// only with the calls themselves.
pub struct ClientSetup {
    config: quinn::ClientConfig,
    base: Ghost<quinn::ClientConfig>,
    version: Ghost<Option<u32>>,
    transport: Ghost<Option<Seq<TransportOption>>>,
    installed: Ghost<Option<quinn::TransportConfig>>,
}

impl ClientSetup {
    /// The configuration this one started as.
    pub closed spec fn base(&self) -> quinn::ClientConfig {
        self.base@
    }

    /// The QUIC version written, if one was.
    pub closed spec fn version(&self) -> Option<u32> {
        self.version@
    }

    /// The configuration calls of the transport installed, if one was.
    pub closed spec fn transport(&self) -> Option<Seq<TransportOption>> {
        self.transport@
    }

    /// The transport configuration installed, if one was.
    pub closed spec fn installed(&self) -> Option<quinn::TransportConfig> {
        self.installed@
    }

    /// The quinn configuration itself.
    pub closed spec fn config(&self) -> quinn::ClientConfig {
        self.config
    }

    /// Starts from `config`, with nothing written yet.
    pub fn new(config: quinn::ClientConfig) -> (r: ClientSetup)
        ensures
            r.base() == config,
            r.version() is None,
            r.transport() is None,
            r.installed() is None,
    {
        let ghost base = config;
        ClientSetup {
            config,
            base: Ghost(base),
            version: Ghost(None),
            transport: Ghost(None),
            installed: Ghost(None),
        }
    }

    /// Calls `quinn::ClientConfig::version(version)`. Trusted: the version is
    /// recorded; quinn stores it in the configuration's `version` field and
    /// touches nothing else.
    #[verifier::external_body]
    pub(crate) fn set_version(&mut self, version: u32)
        ensures
            final(self).version() == Some(version),
            final(self).transport() == old(self).transport(),
            final(self).installed() == old(self).installed(),
            final(self).base() == old(self).base(),
    {
        self.config.version(version);
    }

    /// Stores `transport` behind an `Arc` in the public `transport` field of
    /// the `quinn::ClientConfig`. Trusted: the transport and its configuration
    /// calls are recorded, and nothing else changes.
    #[verifier::external_body]
    pub(crate) fn set_transport(&mut self, transport: TransportSetup)
        ensures
            final(self).transport() == Some(transport.applied()),
            final(self).installed() == Some(transport.config()),
            final(self).version() == old(self).version(),
            final(self).base() == old(self).base(),
    {
        self.config.transport = Arc::new(transport.config);
    }

    /// The quinn configuration, to connect with.
    pub fn client_config(&self) -> (r: &quinn::ClientConfig)
        ensures
            *r == self.config(),
    {
        &self.config
    }
}

} // verus!
