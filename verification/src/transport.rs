//! QUIC transport settings of the client and the relay server, and how they
//! are applied to a `quinn::TransportConfig`.

use vstd::prelude::*;

verus! {

#[verifier::external_type_specification]
#[verifier::external_body]
pub struct ExTransportConfig(quinn::TransportConfig);

/// Longest inactivity, in milliseconds, before a connection times out.
pub const MAX_IDLE_TIMEOUT_MS: u32 = 60_000;

/// Seconds of inactivity after which a keep-alive packet is sent.
pub const KEEP_ALIVE_INTERVAL_SECS: u64 = 1;

/// The transport parameters that this project sets; every other parameter
/// keeps quinn's default.
#[derive(Debug, Clone, Copy, PartialEq, Eq)]
pub struct TransportSettings {
    /// Longest inactivity in milliseconds before the connection times out.
    pub max_idle_timeout_ms: u32,
    /// Inactivity in seconds after which a keep-alive packet is sent.
    pub keep_alive_interval_secs: u64,
    /// How many unidirectional streams the peer may open, when limited.
    pub max_concurrent_uni_streams: Option<u8>,
}

/// The client's settings: a 60 s idle timeout, a keep-alive every second,
/// and quinn's default for unidirectional streams.
pub open spec fn spec_client_settings() -> TransportSettings {
    TransportSettings {
        max_idle_timeout_ms: MAX_IDLE_TIMEOUT_MS,
        keep_alive_interval_secs: KEEP_ALIVE_INTERVAL_SECS,
        max_concurrent_uni_streams: None,
    }
}

/// The server's settings: as the client's, and the peer may open no
/// unidirectional stream (all traffic goes over bidirectional streams).
pub open spec fn spec_server_settings() -> TransportSettings {
    TransportSettings {
        max_idle_timeout_ms: MAX_IDLE_TIMEOUT_MS,
        keep_alive_interval_secs: KEEP_ALIVE_INTERVAL_SECS,
        max_concurrent_uni_streams: Some(0),
    }
}

/// The client's transport settings (see `spec_client_settings`).
pub fn client_transport_settings() -> (s: TransportSettings)
    ensures
        s == spec_client_settings(),
{
    TransportSettings {
        max_idle_timeout_ms: MAX_IDLE_TIMEOUT_MS,
        keep_alive_interval_secs: KEEP_ALIVE_INTERVAL_SECS,
        max_concurrent_uni_streams: None,
    }
}

/// The server's transport settings (see `spec_server_settings`).
pub fn server_transport_settings() -> (s: TransportSettings)
    ensures
        s == spec_server_settings(),
{
    TransportSettings {
        max_idle_timeout_ms: MAX_IDLE_TIMEOUT_MS,
        keep_alive_interval_secs: KEEP_ALIVE_INTERVAL_SECS,
        max_concurrent_uni_streams: Some(0),
    }
}

/// The transport parameters of a `quinn::TransportConfig` that this project
/// reads or sets: the idle timeout (`None`: no timeout), the keep-alive
/// period (`None`: no keep-alive) and the limit on unidirectional streams;
/// and whether every other parameter still has quinn's default value (among
/// them path MTU discovery, which quinn's default enables).
#[derive(Debug, Clone, Copy, PartialEq, Eq)]
pub struct TransportParams {
    pub max_idle_timeout_ms: Option<u64>,
    pub keep_alive_interval_secs: Option<u64>,
    pub max_concurrent_uni_streams: u64,
    pub others_default: bool,
}

/// Quinn's default configuration: a 10 s idle timeout, no keep-alive, 100
/// unidirectional streams, and every other parameter at its default.
pub open spec fn spec_default_params() -> TransportParams {
    TransportParams {
        max_idle_timeout_ms: Some(10_000),
        keep_alive_interval_secs: None,
        max_concurrent_uni_streams: 100,
        others_default: true,
    }
}

/// The parameters after `settings` are applied to a configuration with
/// parameters `base`: the idle timeout and keep-alive are those of the
/// settings, and the stream limit is the settings' one when given.
pub open spec fn spec_params_with(base: TransportParams, settings: TransportSettings) -> TransportParams {
    TransportParams {
        max_idle_timeout_ms: Some(settings.max_idle_timeout_ms as u64),
        keep_alive_interval_secs: Some(settings.keep_alive_interval_secs),
        max_concurrent_uni_streams: match settings.max_concurrent_uni_streams {
            Some(n) => n as u64,
            None => base.max_concurrent_uni_streams,
        },
        others_default: base.others_default,
    }
}

/// A quinn transport configuration together with the parameters it holds.
pub struct QuicTransport {
    pub(crate) config: quinn::TransportConfig,
    params: Ghost<TransportParams>,
}

impl QuicTransport {
    /// The parameters that the configuration holds.
    pub closed spec fn params(&self) -> TransportParams {
        self.params@
    }

    /// The quinn configuration, to hand to a client or server configuration.
    pub fn into_config(self) -> quinn::TransportConfig {
        self.config
    }
}

/// `<quinn::TransportConfig as Default>::default`, whose source sets a 10 s
/// idle timeout (`VarInt(10_000)` milliseconds), no keep-alive, 100
/// unidirectional streams, and every other parameter to its default (path
/// MTU discovery on).
#[verifier::external_body]
fn default_transport() -> (t: QuicTransport)
    ensures
        t.params() == spec_default_params(),
{
    QuicTransport { config: quinn::TransportConfig::default(), params: Ghost(spec_default_params()) }
}

/// `quinn::TransportConfig::max_idle_timeout` with
/// `Some(IdleTimeout::from(VarInt::from_u32(ms)))`: the source stores that
/// many milliseconds as the idle timeout and changes nothing else.
#[verifier::external_body]
fn set_max_idle_timeout(t: &mut QuicTransport, ms: u32)
    ensures
        final(t).params() == (TransportParams {
            max_idle_timeout_ms: Some(ms as u64),
            keep_alive_interval_secs: old(t).params().keep_alive_interval_secs,
            max_concurrent_uni_streams: old(t).params().max_concurrent_uni_streams,
            others_default: old(t).params().others_default,
        }),
{
    t.config.max_idle_timeout(Some(quinn::IdleTimeout::from(quinn::VarInt::from_u32(ms))));
}

/// `quinn::TransportConfig::keep_alive_interval` with
/// `Some(Duration::from_secs(secs))`: the source stores that period and
/// changes nothing else.
#[verifier::external_body]
fn set_keep_alive_interval(t: &mut QuicTransport, secs: u64)
    ensures
        final(t).params() == (TransportParams {
            max_idle_timeout_ms: old(t).params().max_idle_timeout_ms,
            keep_alive_interval_secs: Some(secs),
            max_concurrent_uni_streams: old(t).params().max_concurrent_uni_streams,
            others_default: old(t).params().others_default,
        }),
{
    t.config.keep_alive_interval(Some(std::time::Duration::from_secs(secs)));
}

/// `quinn::TransportConfig::max_concurrent_uni_streams` with
/// `VarInt::from(n)`: the source stores that limit and changes nothing else.
#[verifier::external_body]
fn set_max_concurrent_uni_streams(t: &mut QuicTransport, n: u8)
    ensures
        final(t).params() == (TransportParams {
            max_idle_timeout_ms: old(t).params().max_idle_timeout_ms,
            keep_alive_interval_secs: old(t).params().keep_alive_interval_secs,
            max_concurrent_uni_streams: n as u64,
            others_default: old(t).params().others_default,
        }),
{
    t.config.max_concurrent_uni_streams(quinn::VarInt::from(n));
}

/// The transport configuration the client starts from: quinn's default,
/// unchanged. Quinn's default already enables path MTU discovery with its
/// default settings, so there is nothing to add where the platform supports
/// it.
pub fn enable_mtud_if_supported() -> (t: QuicTransport)
    ensures
        t.params() == spec_default_params(),
{
    default_transport()
}

/// Sets in `t` the parameters that `settings` holds: the idle timeout, the
/// keep-alive period and, when given, the limit on unidirectional streams.
pub fn apply_transport_settings(t: &mut QuicTransport, settings: &TransportSettings)
    ensures
        final(t).params() == spec_params_with(old(t).params(), *settings),
{
    if let Some(n) = settings.max_concurrent_uni_streams {
        set_max_concurrent_uni_streams(t, n);
    }
    set_max_idle_timeout(t, settings.max_idle_timeout_ms);
    set_keep_alive_interval(t, settings.keep_alive_interval_secs);
}

/// The client's transport configuration: quinn's default with the client's
/// settings applied.
pub fn client_transport_config() -> (t: QuicTransport)
    ensures
        t.params() == spec_params_with(spec_default_params(), spec_client_settings()),
{
    let mut t = enable_mtud_if_supported();
    let settings = client_transport_settings();
    apply_transport_settings(&mut t, &settings);
    t
}

/// The server's transport configuration: quinn's default with the server's
/// settings applied.
pub fn server_transport_config() -> (t: QuicTransport)
    ensures
        t.params() == spec_params_with(spec_default_params(), spec_server_settings()),
{
    let mut t = default_transport();
    let settings = server_transport_settings();
    apply_transport_settings(&mut t, &settings);
    t
}

/// In the configurations both sides build, a keep-alive is sent well before
/// the idle timeout expires, so that an idle but healthy connection stays
/// open; both sides use the same idle timeout (60 s) and keep-alive (1 s),
/// and the server lets the peer open no unidirectional stream while the
/// client keeps quinn's default.
pub proof fn lemma_keep_alive_within_idle_timeout()
    ensures
        ({
            let c = spec_params_with(spec_default_params(), spec_client_settings());
            let s = spec_params_with(spec_default_params(), spec_server_settings());
            &&& c.keep_alive_interval_secs == Some(1u64)
            &&& c.max_idle_timeout_ms == Some(60_000u64)
            &&& s.keep_alive_interval_secs == c.keep_alive_interval_secs
            &&& s.max_idle_timeout_ms == c.max_idle_timeout_ms
            &&& c.keep_alive_interval_secs.unwrap() * 1000 < c.max_idle_timeout_ms.unwrap()
            &&& s.max_concurrent_uni_streams == 0
            &&& c.max_concurrent_uni_streams == 100
            &&& c.others_default && s.others_default
        }),
{
}

} // verus!
