use std::time::Duration;
use vstd::prelude::*;
use vstd::string::StringSliceAdditionalSpecFns;

use crate::error::Error;
use crate::transport::{
    apply_transport_option, option_item, transport_plan, ClientSetup, TransportOption,
    TransportSetup,
};
use crate::uri::{is_header_value, is_header_value_str, parse_uri, parse_uri_spec, Uri, UriView};

verus! {

/// Channel builder: the configuration of an HTTP/3 channel.
#[derive(Clone)]
pub struct Endpoint {
    uri: Uri,
    origin: Option<Uri>,
    user_agent: Option<String>,
    timeout: Option<Duration>,
    concurrency_limit: Option<usize>,
    rate_limit: Option<(u64, Duration)>,
    buffer_size: Option<usize>,
    quic_version: Option<u32>,
    quic_max_concurrent_bidi_streams: Option<u32>,
    quic_max_concurrent_uni_streams: Option<u32>,
    quic_stream_receive_window: Option<u32>,
    quic_receive_window: Option<u32>,
    quic_send_window: Option<u32>,
    quic_keep_alive_interval: Option<Duration>,
    connect_timeout: Option<Duration>,
}

/// The mathematical view of an [`Endpoint`]: every setting it holds.
pub struct EndpointView {
    pub uri: UriView,
    pub origin: Option<UriView>,
    pub user_agent: Option<Seq<char>>,
    pub timeout: Option<Duration>,
    pub concurrency_limit: Option<usize>,
    pub rate_limit: Option<(u64, Duration)>,
    pub buffer_size: Option<usize>,
    pub quic_version: Option<u32>,
    pub quic_max_concurrent_bidi_streams: Option<u32>,
    pub quic_max_concurrent_uni_streams: Option<u32>,
    pub quic_stream_receive_window: Option<u32>,
    pub quic_receive_window: Option<u32>,
    pub quic_send_window: Option<u32>,
    pub quic_keep_alive_interval: Option<Duration>,
    pub connect_timeout: Option<Duration>,
}

/// The view of an optional URI.
pub open spec fn view_opt_uri(o: Option<Uri>) -> Option<UriView> {
    match o {
        Some(u) => Some(u@),
        None => None,
    }
}

/// The view of an optional string.
pub open spec fn view_opt_string(o: Option<String>) -> Option<Seq<char>> {
    match o {
        Some(s) => Some(s@),
        None => None,
    }
}

impl View for Endpoint {
    type V = EndpointView;

    closed spec fn view(&self) -> EndpointView {
        EndpointView {
            uri: self.uri@,
            origin: view_opt_uri(self.origin),
            user_agent: view_opt_string(self.user_agent),
            timeout: self.timeout,
            concurrency_limit: self.concurrency_limit,
            rate_limit: self.rate_limit,
            buffer_size: self.buffer_size,
            quic_version: self.quic_version,
            quic_max_concurrent_bidi_streams: self.quic_max_concurrent_bidi_streams,
            quic_max_concurrent_uni_streams: self.quic_max_concurrent_uni_streams,
            quic_stream_receive_window: self.quic_stream_receive_window,
            quic_receive_window: self.quic_receive_window,
            quic_send_window: self.quic_send_window,
            quic_keep_alive_interval: self.quic_keep_alive_interval,
            connect_timeout: self.connect_timeout,
        }
    }
}

/// One setting of the builder, as a value.
pub enum Setting {
    Origin(UriView),
    UserAgent(Seq<char>),
    Timeout(Duration),
    ConnectTimeout(Duration),
    QuicVersion(u32),
    QuicMaxConcurrentBidiStreams(u32),
    QuicMaxConcurrentUniStreams(u32),
    QuicStreamReceiveWindow(u32),
    QuicReceiveWindow(u32),
    QuicSendWindow(u32),
    QuicKeepAliveInterval(Duration),
    ConcurrencyLimit(usize),
    RateLimit(u64, Duration),
}

impl Setting {
    /// Which field of the endpoint the setting writes, numbered in field order.
    pub open spec fn field(self) -> int {
        match self {
            Setting::Origin(_) => 1,
            Setting::UserAgent(_) => 2,
            Setting::Timeout(_) => 3,
            Setting::ConcurrencyLimit(_) => 4,
            Setting::RateLimit(_, _) => 5,
            Setting::QuicVersion(_) => 6,
            Setting::QuicMaxConcurrentBidiStreams(_) => 7,
            Setting::QuicMaxConcurrentUniStreams(_) => 8,
            Setting::QuicStreamReceiveWindow(_) => 9,
            Setting::QuicReceiveWindow(_) => 10,
            Setting::QuicSendWindow(_) => 11,
            Setting::QuicKeepAliveInterval(_) => 12,
            Setting::ConnectTimeout(_) => 13,
        }
    }
}

impl EndpointView {
    /// An endpoint for `uri` with nothing else configured.
    pub open spec fn from_uri(uri: UriView) -> EndpointView {
        EndpointView {
            uri: uri,
            origin: None,
            user_agent: None,
            timeout: None,
            concurrency_limit: None,
            rate_limit: None,
            buffer_size: None,
            quic_version: None,
            quic_max_concurrent_bidi_streams: None,
            quic_max_concurrent_uni_streams: None,
            quic_stream_receive_window: None,
            quic_receive_window: None,
            quic_send_window: None,
            quic_keep_alive_interval: None,
            connect_timeout: None,
        }
    }

    /// The endpoint with one setting written and every other field unchanged.
    pub open spec fn apply(self, s: Setting) -> EndpointView {
        match s {
            Setting::Origin(u) => EndpointView { origin: Some(u), ..self },
            Setting::UserAgent(a) => EndpointView { user_agent: Some(a), ..self },
            Setting::Timeout(d) => EndpointView { timeout: Some(d), ..self },
            Setting::ConnectTimeout(d) => EndpointView { connect_timeout: Some(d), ..self },
            Setting::QuicVersion(v) => EndpointView { quic_version: Some(v), ..self },
            Setting::QuicMaxConcurrentBidiStreams(n) => EndpointView {
                quic_max_concurrent_bidi_streams: Some(n),
                ..self
            },
            Setting::QuicMaxConcurrentUniStreams(n) => EndpointView {
                quic_max_concurrent_uni_streams: Some(n),
                ..self
            },
            Setting::QuicStreamReceiveWindow(n) => EndpointView {
                quic_stream_receive_window: Some(n),
                ..self
            },
            Setting::QuicReceiveWindow(n) => EndpointView { quic_receive_window: Some(n), ..self },
            Setting::QuicSendWindow(n) => EndpointView { quic_send_window: Some(n), ..self },
            Setting::QuicKeepAliveInterval(d) => EndpointView {
                quic_keep_alive_interval: Some(d),
                ..self
            },
            Setting::ConcurrencyLimit(n) => EndpointView { concurrency_limit: Some(n), ..self },
            Setting::RateLimit(n, d) => EndpointView { rate_limit: Some((n, d)), ..self },
        }
    }
}

/// Writing one setting and then another of a different field gives the same
/// endpoint as writing them in the other order.
pub proof fn lemma_settings_of_different_fields_commute(e: EndpointView, s1: Setting, s2: Setting)
    requires
        s1.field() != s2.field(),
    ensures
        e.apply(s1).apply(s2) == e.apply(s2).apply(s1),
{
}

/// Writing a field twice keeps only the second value.
pub proof fn lemma_last_setting_wins(e: EndpointView, s1: Setting, s2: Setting)
    requires
        s1.field() == s2.field(),
    ensures
        e.apply(s1).apply(s2) == e.apply(s2),
{
}

/// Every setting stores its value in its own field: after it, that field
/// holds exactly the value given.
pub proof fn lemma_setting_is_stored(e: EndpointView, s: Setting)
    ensures
        match s {
            Setting::Origin(u) => e.apply(s).origin == Some(u),
            Setting::UserAgent(a) => e.apply(s).user_agent == Some(a),
            Setting::Timeout(d) => e.apply(s).timeout == Some(d),
            Setting::ConnectTimeout(d) => e.apply(s).connect_timeout == Some(d),
            Setting::QuicVersion(v) => e.apply(s).quic_version == Some(v),
            Setting::QuicMaxConcurrentBidiStreams(n) => e.apply(s).quic_max_concurrent_bidi_streams == Some(n),
            Setting::QuicMaxConcurrentUniStreams(n) => e.apply(s).quic_max_concurrent_uni_streams == Some(n),
            Setting::QuicStreamReceiveWindow(n) => e.apply(s).quic_stream_receive_window == Some(n),
            Setting::QuicReceiveWindow(n) => e.apply(s).quic_receive_window == Some(n),
            Setting::QuicSendWindow(n) => e.apply(s).quic_send_window == Some(n),
            Setting::QuicKeepAliveInterval(d) => e.apply(s).quic_keep_alive_interval == Some(d),
            Setting::ConcurrencyLimit(n) => e.apply(s).concurrency_limit == Some(n),
            Setting::RateLimit(n, d) => e.apply(s).rate_limit == Some((n, d)),
        },
{
}

/// A setting of one field leaves the value of another field as it was: a
/// connect timeout or QUIC version written earlier survives any setting of a
/// different field.
pub proof fn lemma_other_settings_keep_connect_timeout_and_version(e: EndpointView, s: Setting)
    ensures
        !(s is ConnectTimeout) ==> e.apply(s).connect_timeout == e.connect_timeout,
        !(s is QuicVersion) ==> e.apply(s).quic_version == e.quic_version,
{
}

/// A setting never changes the endpoint's URI.
pub proof fn lemma_setting_keeps_uri(e: EndpointView, s: Setting)
    ensures
        e.apply(s).uri == e.uri,
{
}

impl Endpoint {
    /// Builds an endpoint from the bytes of a URI; fails with
    /// [`Error::InvalidUri`] exactly when the bytes are not a valid URI.
    pub fn from_shared(s: &[u8]) -> (r: Result<Endpoint, Error>)
        ensures
            match parse_uri_spec(s@) {
                Some(u) => r matches Ok(e) && e@ == EndpointView::from_uri(u),
                None => r == Err::<Endpoint, Error>(Error::InvalidUri),
            },
    {
        match parse_uri(s) {
            Some(uri) => Ok(Endpoint::from(uri)),
            None => Err(Error::InvalidUri),
        }
    }

    /// Builds an endpoint from a URI given as text; fails exactly when the
    /// text is not a valid URI, with the conversion failure reported as a
    /// transport error ([`Error::Transport`]).
    pub fn new(dst: &str) -> (r: Result<Endpoint, Error>)
        ensures
            match parse_uri_spec(dst.spec_bytes()) {
                Some(u) => r matches Ok(e) && e@ == EndpointView::from_uri(u),
                None => r == Err::<Endpoint, Error>(Error::Transport),
            },
    {
        match Endpoint::from_shared(dst.as_bytes()) {
            Ok(e) => Ok(e),
            Err(_) => Err(Error::Transport),
        }
    }

    /// Converts a static string that is known to be a valid URI.
    pub fn from_static(s: &'static str) -> (r: Endpoint)
        requires
            parse_uri_spec(s.spec_bytes()) is Some,
        ensures
            r@ == EndpointView::from_uri(parse_uri_spec(s.spec_bytes())->0),
    {
        let uri = parse_uri(s.as_bytes());
        Endpoint::from(uri.unwrap())
    }

    /// Converts a static string when it is a valid URI, and gives `None`
    /// otherwise.
    pub fn try_from_static(s: &'static str) -> (r: Option<Endpoint>)
        ensures
            match parse_uri_spec(s.spec_bytes()) {
                Some(u) => r matches Some(e) && e@ == EndpointView::from_uri(u),
                None => r is None,
            },
    {
        match parse_uri(s.as_bytes()) {
            Some(_) => Some(Endpoint::from_static(s)),
            None => None,
        }
    }

    /// Sets a custom user-agent header; fails with
    /// [`Error::InvalidUserAgent`] exactly when it is not a valid header value.
    pub fn user_agent(self, user_agent: &str) -> (r: Result<Endpoint, Error>)
        ensures
            is_header_value(user_agent.spec_bytes()) ==> (r matches Ok(e) && e@ == self@.apply(
                Setting::UserAgent(user_agent@),
            )),
            is_header_value(user_agent.spec_bytes()) ==> (r matches Ok(e) && e@.user_agent == Some(user_agent@)),
            (forall|i: int| 0 <= i < user_agent.spec_bytes().len() ==> (32 <= #[trigger] user_agent.spec_bytes()[i] <= 126
                || user_agent.spec_bytes()[i] == 9)) ==> r is Ok,
            !is_header_value(user_agent.spec_bytes()) ==> r == Err::<Endpoint, Error>(
                Error::InvalidUserAgent,
            ),
    {
        if is_header_value_str(user_agent) {
            Ok(Endpoint { user_agent: Some(user_agent.to_owned()), ..self })
        } else {
            Err(Error::InvalidUserAgent)
        }
    }

    /// Sets a custom origin.
    pub fn origin(self, origin: Uri) -> (r: Endpoint)
        ensures
            r@ == self@.apply(Setting::Origin(origin@)),
            r@.origin == Some(origin@),
            r@.uri == self@.uri,
    {
        Endpoint { origin: Some(origin), ..self }
    }

    /// Applies a timeout to each request.
    pub fn timeout(self, dur: Duration) -> (r: Endpoint)
        ensures
            r@ == self@.apply(Setting::Timeout(dur)),
            r@.timeout == Some(dur),
            r@.uri == self@.uri,
    {
        Endpoint { timeout: Some(dur), ..self }
    }

    /// Applies a timeout to connecting to the URI.
    pub fn connect_timeout(self, dur: Duration) -> (r: Endpoint)
        ensures
            r@ == self@.apply(Setting::ConnectTimeout(dur)),
            r@.connect_timeout == Some(dur),
            r@.uri == self@.uri,
    {
        Endpoint { connect_timeout: Some(dur), ..self }
    }

    /// Sets the QUIC version to use.
    pub fn quic_version(self, ver: u32) -> (r: Endpoint)
        ensures
            r@ == self@.apply(Setting::QuicVersion(ver)),
            r@.quic_version == Some(ver),
            r@.uri == self@.uri,
    {
        Endpoint { quic_version: Some(ver), ..self }
    }

    /// Maximum number of incoming bidirectional streams that may be open
    /// concurrently.
    pub fn quic_max_concurrent_bidi_streams(self, limit: u32) -> (r: Endpoint)
        ensures
            r@ == self@.apply(Setting::QuicMaxConcurrentBidiStreams(limit)),
            r@.quic_max_concurrent_bidi_streams == Some(limit),
            r@.uri == self@.uri,
    {
        Endpoint { quic_max_concurrent_bidi_streams: Some(limit), ..self }
    }

    /// Maximum number of incoming unidirectional streams that may be open
    /// concurrently.
    pub fn quic_max_concurrent_uni_streams(self, limit: u32) -> (r: Endpoint)
        ensures
            r@ == self@.apply(Setting::QuicMaxConcurrentUniStreams(limit)),
            r@.quic_max_concurrent_uni_streams == Some(limit),
            r@.uri == self@.uri,
    {
        Endpoint { quic_max_concurrent_uni_streams: Some(limit), ..self }
    }

    /// Maximum number of bytes the peer may transmit without acknowledgement
    /// on any one stream before becoming blocked.
    pub fn quic_stream_receive_window(self, winsz: u32) -> (r: Endpoint)
        ensures
            r@ == self@.apply(Setting::QuicStreamReceiveWindow(winsz)),
            r@.quic_stream_receive_window == Some(winsz),
            r@.uri == self@.uri,
    {
        Endpoint { quic_stream_receive_window: Some(winsz), ..self }
    }

    /// Maximum number of bytes the peer may transmit across all streams of a
    /// connection before becoming blocked.
    pub fn quic_receive_window(self, winsz: u32) -> (r: Endpoint)
        ensures
            r@ == self@.apply(Setting::QuicReceiveWindow(winsz)),
            r@.quic_receive_window == Some(winsz),
            r@.uri == self@.uri,
    {
        Endpoint { quic_receive_window: Some(winsz), ..self }
    }

    /// Maximum number of bytes to transmit to a peer without acknowledgment.
    pub fn quic_send_window(self, winsz: u32) -> (r: Endpoint)
        ensures
            r@ == self@.apply(Setting::QuicSendWindow(winsz)),
            r@.quic_send_window == Some(winsz),
            r@.uri == self@.uri,
    {
        Endpoint { quic_send_window: Some(winsz), ..self }
    }

    /// Period of inactivity before sending a keep-alive packet.
    pub fn quic_keep_alive_interval(self, duration: Duration) -> (r: Endpoint)
        ensures
            r@ == self@.apply(Setting::QuicKeepAliveInterval(duration)),
            r@.quic_keep_alive_interval == Some(duration),
            r@.uri == self@.uri,
    {
        Endpoint { quic_keep_alive_interval: Some(duration), ..self }
    }

    /// Applies a concurrency limit to each request.
    pub fn concurrency_limit(self, limit: usize) -> (r: Endpoint)
        ensures
            r@ == self@.apply(Setting::ConcurrencyLimit(limit)),
            r@.concurrency_limit == Some(limit),
            r@.uri == self@.uri,
    {
        Endpoint { concurrency_limit: Some(limit), ..self }
    }

    /// Applies a rate limit to each request.
    pub fn rate_limit(self, limit: u64, duration: Duration) -> (r: Endpoint)
        ensures
            r@ == self@.apply(Setting::RateLimit(limit, duration)),
            r@.rate_limit == Some((limit, duration)),
            r@.uri == self@.uri,
    {
        Endpoint { rate_limit: Some((limit, duration)), ..self }
    }

    /// The endpoint URI.
    pub fn uri(&self) -> (r: &Uri)
        ensures
            r@ == self@.uri,
    {
        &self.uri
    }
}

impl Endpoint {
    /// The user-agent header sent on the channel: the custom user-agent, when
    /// one is set, followed by a space and `default_agent`; `default_agent`
    /// alone otherwise.
    pub fn user_agent_header(&self, default_agent: &str) -> (r: String)
        ensures
            r@ == match self@.user_agent {
                Some(custom) => custom + " "@ + default_agent@,
                None => default_agent@,
            },
    {
        match &self.user_agent {
            Some(custom) => {
                let mut header = custom.clone();
                header.append(" ");
                header.append(default_agent);
                proof {
                    reveal_strlit(" ");
                }
                header
            },
            None => default_agent.to_string(),
        }
    }

    /// The timeout for connecting, if one was set.
    pub fn connect_timeout_setting(&self) -> (r: Option<Duration>)
        ensures
            r == self@.connect_timeout,
    {
        self.connect_timeout
    }

    /// The calls that configure this endpoint's QUIC transport, in order.
    pub fn transport_options(&self) -> (r: Vec<TransportOption>)
        ensures
            r@ == transport_plan(self@),
    {
        let ghost e = self@;
        let mut r: Vec<TransportOption> = Vec::new();
        r.push(TransportOption::KeepAliveInterval(self.quic_keep_alive_interval));
        let ghost s0 = r@;
        if let Some(v) = self.quic_max_concurrent_bidi_streams {
            r.push(TransportOption::MaxConcurrentBidiStreams(v));
        }
        assert(r@ =~= s0 + option_item(e.quic_max_concurrent_bidi_streams, |v: u32| TransportOption::MaxConcurrentBidiStreams(v)));
        let ghost s1 = r@;
        if let Some(v) = self.quic_max_concurrent_uni_streams {
            r.push(TransportOption::MaxConcurrentUniStreams(v));
        }
        assert(r@ =~= s1 + option_item(e.quic_max_concurrent_uni_streams, |v: u32| TransportOption::MaxConcurrentUniStreams(v)));
        let ghost s2 = r@;
        if let Some(v) = self.quic_stream_receive_window {
            r.push(TransportOption::StreamReceiveWindow(v));
        }
        assert(r@ =~= s2 + option_item(e.quic_stream_receive_window, |v: u32| TransportOption::StreamReceiveWindow(v)));
        let ghost s3 = r@;
        if let Some(v) = self.quic_receive_window {
            r.push(TransportOption::ReceiveWindow(v));
        }
        assert(r@ =~= s3 + option_item(e.quic_receive_window, |v: u32| TransportOption::ReceiveWindow(v)));
        let ghost s4 = r@;
        if let Some(v) = self.quic_send_window {
            r.push(TransportOption::SendWindow(v));
        }
        assert(r@ =~= s4 + option_item(e.quic_send_window, |v: u32| TransportOption::SendWindow(v)));
        r
    }

    /// A QUIC transport configuration: quinn's defaults with this endpoint's
    /// options applied in the order of [`Endpoint::transport_options`].
    pub fn transport_config(&self) -> (r: TransportSetup)
        ensures
            r.applied() == transport_plan(self@),
    {
        let options = self.transport_options();
        let mut config = TransportSetup::new();
        let mut i: usize = 0;
        while i < options.len()
            invariant
                i <= options.len(),
                config.applied() == options@.subrange(0, i as int),
            decreases options.len() - i,
        {
            apply_transport_option(&mut config, &options[i]);
            assert(options@.subrange(0, i as int).push(options@[i as int]) =~= options@.subrange(0, i + 1));
            i = i + 1;
        }
        assert(options@.subrange(0, options.len() as int) =~= options@);
        config
    }

    /// Applies this endpoint's QUIC version, when it sets one, and its
    /// transport configuration to a client configuration.
    pub fn configure_client(&self, config: &mut ClientSetup)
        ensures
            final(config).version() == (match self@.quic_version {
                Some(v) => Some(v),
                None => old(config).version(),
            }),
            final(config).transport() == Some(transport_plan(self@)),
            final(config).base() == old(config).base(),
    {
        if let Some(version) = self.quic_version {
            config.set_version(version);
        }
        let transport = self.transport_config();
        config.set_transport(transport);
    }
}

/// An endpoint for `uri` with nothing else configured.
impl From<Uri> for Endpoint {
    fn from(uri: Uri) -> (r: Endpoint)
        ensures
            r@ == EndpointView::from_uri(uri@),
    {
        Endpoint {
            uri,
            origin: None,
            user_agent: None,
            timeout: None,
            concurrency_limit: None,
            rate_limit: None,
            buffer_size: None,
            quic_version: None,
            quic_max_concurrent_bidi_streams: None,
            quic_max_concurrent_uni_streams: None,
            quic_stream_receive_window: None,
            quic_receive_window: None,
            quic_send_window: None,
            quic_keep_alive_interval: None,
            connect_timeout: None,
        }
    }
}

impl vstd::std_specs::convert::FromSpecImpl<Uri> for Endpoint {
    open spec fn obeys_from_spec() -> bool {
        true
    }

    closed spec fn from_spec(v: Uri) -> Endpoint {
        Endpoint {
            uri: v,
            origin: None,
            user_agent: None,
            timeout: None,
            concurrency_limit: None,
            rate_limit: None,
            buffer_size: None,
            quic_version: None,
            quic_max_concurrent_bidi_streams: None,
            quic_max_concurrent_uni_streams: None,
            quic_stream_receive_window: None,
            quic_receive_window: None,
            quic_send_window: None,
            quic_keep_alive_interval: None,
            connect_timeout: None,
        }
    }
}

/// Parses an endpoint from a URI given as text, as [`Endpoint::from_shared`]
/// does with its bytes.
impl std::str::FromStr for Endpoint {
    type Err = Error;

    fn from_str(s: &str) -> (r: Result<Endpoint, Error>)
        ensures
            match parse_uri_spec(s.spec_bytes()) {
                Some(u) => r matches Ok(e) && e@ == EndpointView::from_uri(u),
                None => r == Err::<Endpoint, Error>(Error::InvalidUri),
            },
    {
        Endpoint::from_shared(s.as_bytes())
    }
}

/// Parses an endpoint from a URI given as an owned string, as
/// [`Endpoint::from_shared`] does with its bytes.
impl TryFrom<String> for Endpoint {
    type Error = Error;

    fn try_from(t: String) -> (r: Result<Endpoint, Error>)
        ensures
            match parse_uri_spec(vstd::utf8::encode_utf8(t@)) {
                Some(u) => r matches Ok(e) && e@ == EndpointView::from_uri(u),
                None => r == Err::<Endpoint, Error>(Error::InvalidUri),
            },
    {
        Endpoint::from_shared(t.as_str().as_bytes())
    }
}

/// Parses an endpoint from a static URI string, as [`Endpoint::from_shared`]
/// does with its bytes.
impl TryFrom<&'static str> for Endpoint {
    type Error = Error;

    fn try_from(t: &'static str) -> (r: Result<Endpoint, Error>)
        ensures
            match parse_uri_spec(t.spec_bytes()) {
                Some(u) => r matches Ok(e) && e@ == EndpointView::from_uri(u),
                None => r == Err::<Endpoint, Error>(Error::InvalidUri),
            },
    {
        Endpoint::from_shared(t.as_bytes())
    }
}

/// The endpoint a URI given as bytes converts to, as [`Endpoint::from_shared`]
/// builds it.
pub open spec fn endpoint_from_bytes(bytes: Seq<u8>) -> Result<Endpoint, Error> {
    match parse_uri_spec(bytes) {
        Some(u) => Ok(choose|e: Endpoint| e@ == EndpointView::from_uri(u)),
        None => Err(Error::InvalidUri),
    }
}

/// The result of the conversion is stated by the `ensures` of `try_from`
/// itself, over the endpoint's view; `try_from_spec` fixes it only up to that
/// view, so the trait's own clause is not claimed.
impl vstd::std_specs::convert::TryFromSpecImpl<String> for Endpoint {
    open spec fn obeys_try_from_spec() -> bool {
        false
    }

    open spec fn try_from_spec(v: String) -> Result<Endpoint, Error> {
        endpoint_from_bytes(vstd::utf8::encode_utf8(v@))
    }
}

/// The result of the conversion is stated by the `ensures` of `try_from`
/// itself, over the endpoint's view; `try_from_spec` fixes it only up to that
/// view, so the trait's own clause is not claimed.
impl vstd::std_specs::convert::TryFromSpecImpl<&'static str> for Endpoint {
    open spec fn obeys_try_from_spec() -> bool {
        false
    }

    open spec fn try_from_spec(v: &'static str) -> Result<Endpoint, Error> {
        endpoint_from_bytes(v.spec_bytes())
    }
}

} // verus!
