use std::time::Duration;
use vstd::prelude::*;

use crate::endpoint::EndpointView;
pub use crate::quinn_setup::{ClientSetup, TransportSetup};

verus! {

/// One call on a QUIC transport configuration.
pub enum TransportOption {
    KeepAliveInterval(Option<Duration>),
    MaxConcurrentBidiStreams(u32),
    MaxConcurrentUniStreams(u32),
    StreamReceiveWindow(u32),
    ReceiveWindow(u32),
    SendWindow(u32),
}

/// The one-element sequence `seq![f(v)]` when `o` is `Some(v)`, else empty.
pub open spec fn option_item(o: Option<u32>, f: spec_fn(u32) -> TransportOption) -> Seq<TransportOption> {
    match o {
        Some(v) => seq![f(v)],
        None => Seq::empty(),
    }
}

/// The calls that configure the QUIC transport of an endpoint, in order: the
/// keep-alive interval always (`None` disables it), then each stream and
/// window limit that the endpoint sets.
pub open spec fn transport_plan(e: EndpointView) -> Seq<TransportOption> {
    seq![TransportOption::KeepAliveInterval(e.quic_keep_alive_interval)]
        + option_item(e.quic_max_concurrent_bidi_streams, |v: u32| TransportOption::MaxConcurrentBidiStreams(v))
        + option_item(e.quic_max_concurrent_uni_streams, |v: u32| TransportOption::MaxConcurrentUniStreams(v))
        + option_item(e.quic_stream_receive_window, |v: u32| TransportOption::StreamReceiveWindow(v))
        + option_item(e.quic_receive_window, |v: u32| TransportOption::ReceiveWindow(v))
        + option_item(e.quic_send_window, |v: u32| TransportOption::SendWindow(v))
}

/// An element of a concatenation comes from one of its two parts.
proof fn lemma_concat_contains(a: Seq<TransportOption>, b: Seq<TransportOption>, x: TransportOption)
    ensures
        (a + b).contains(x) <==> a.contains(x) || b.contains(x),
{
    if (a + b).contains(x) {
        let i = choose|i: int| 0 <= i < (a + b).len() && (a + b)[i] == x;
        if i < a.len() {
            assert(a[i] == x);
        } else {
            assert(b[i - a.len()] == x);
        }
    }
    if a.contains(x) {
        let i = choose|i: int| 0 <= i < a.len() && a[i] == x;
        assert((a + b)[i] == x);
    }
    if b.contains(x) {
        let i = choose|i: int| 0 <= i < b.len() && b[i] == x;
        assert((a + b)[i + a.len()] == x);
    }
}

/// The transport calls of an endpoint start with its keep-alive interval,
/// hold one call per stream or window limit it sets, with the value it sets,
/// and no call for a limit it leaves unset.
pub proof fn lemma_transport_plan_holds_settings(e: EndpointView)
    ensures
        transport_plan(e)[0] == TransportOption::KeepAliveInterval(e.quic_keep_alive_interval),
        forall|n: u32| #[trigger] transport_plan(e).contains(TransportOption::MaxConcurrentBidiStreams(n))
            <==> e.quic_max_concurrent_bidi_streams == Some(n),
        forall|n: u32| #[trigger] transport_plan(e).contains(TransportOption::MaxConcurrentUniStreams(n))
            <==> e.quic_max_concurrent_uni_streams == Some(n),
        forall|n: u32| #[trigger] transport_plan(e).contains(TransportOption::StreamReceiveWindow(n))
            <==> e.quic_stream_receive_window == Some(n),
        forall|n: u32| #[trigger] transport_plan(e).contains(TransportOption::ReceiveWindow(n))
            <==> e.quic_receive_window == Some(n),
        forall|n: u32| #[trigger] transport_plan(e).contains(TransportOption::SendWindow(n))
            <==> e.quic_send_window == Some(n),
{
    let k = seq![TransportOption::KeepAliveInterval(e.quic_keep_alive_interval)];
    let a = option_item(e.quic_max_concurrent_bidi_streams, |v: u32| TransportOption::MaxConcurrentBidiStreams(v));
    let b = option_item(e.quic_max_concurrent_uni_streams, |v: u32| TransportOption::MaxConcurrentUniStreams(v));
    let c = option_item(e.quic_stream_receive_window, |v: u32| TransportOption::StreamReceiveWindow(v));
    let d = option_item(e.quic_receive_window, |v: u32| TransportOption::ReceiveWindow(v));
    let f = option_item(e.quic_send_window, |v: u32| TransportOption::SendWindow(v));
    assert(transport_plan(e) == k + a + b + c + d + f);
    assert forall|x: TransportOption| #[trigger] transport_plan(e).contains(x)
        <==> (k.contains(x) || a.contains(x) || b.contains(x) || c.contains(x) || d.contains(x) || f.contains(x)) by {
        lemma_concat_contains(k + a + b + c + d, f, x);
        lemma_concat_contains(k + a + b + c, d, x);
        lemma_concat_contains(k + a + b, c, x);
        lemma_concat_contains(k + a, b, x);
        lemma_concat_contains(k, a, x);
    }
    assert forall|x: TransportOption| k.contains(x) <==> x == TransportOption::KeepAliveInterval(e.quic_keep_alive_interval) by {
        if x == TransportOption::KeepAliveInterval(e.quic_keep_alive_interval) {
            assert(k[0] == x);
        }
    }
    assert forall|x: TransportOption| #[trigger] a.contains(x) <==> (e.quic_max_concurrent_bidi_streams matches Some(v) && x == TransportOption::MaxConcurrentBidiStreams(v)) by {
        if e.quic_max_concurrent_bidi_streams is Some { assert(a[0] == TransportOption::MaxConcurrentBidiStreams(e.quic_max_concurrent_bidi_streams->0)); }
    }
    assert forall|x: TransportOption| #[trigger] b.contains(x) <==> (e.quic_max_concurrent_uni_streams matches Some(v) && x == TransportOption::MaxConcurrentUniStreams(v)) by {
        if e.quic_max_concurrent_uni_streams is Some { assert(b[0] == TransportOption::MaxConcurrentUniStreams(e.quic_max_concurrent_uni_streams->0)); }
    }
    assert forall|x: TransportOption| #[trigger] c.contains(x) <==> (e.quic_stream_receive_window matches Some(v) && x == TransportOption::StreamReceiveWindow(v)) by {
        if e.quic_stream_receive_window is Some { assert(c[0] == TransportOption::StreamReceiveWindow(e.quic_stream_receive_window->0)); }
    }
    assert forall|x: TransportOption| #[trigger] d.contains(x) <==> (e.quic_receive_window matches Some(v) && x == TransportOption::ReceiveWindow(v)) by {
        if e.quic_receive_window is Some { assert(d[0] == TransportOption::ReceiveWindow(e.quic_receive_window->0)); }
    }
    assert forall|x: TransportOption| #[trigger] f.contains(x) <==> (e.quic_send_window matches Some(v) && x == TransportOption::SendWindow(v)) by {
        if e.quic_send_window is Some { assert(f[0] == TransportOption::SendWindow(e.quic_send_window->0)); }
    }
}

/// Performs one configuration call, and records it.
pub fn apply_transport_option(config: &mut TransportSetup, option: &TransportOption)
    ensures
        final(config).applied() == old(config).applied().push(*option),
{
    match option {
        TransportOption::KeepAliveInterval(v) => config.set_keep_alive_interval(*v),
        TransportOption::MaxConcurrentBidiStreams(v) => config.set_max_concurrent_bidi_streams(*v),
        TransportOption::MaxConcurrentUniStreams(v) => config.set_max_concurrent_uni_streams(*v),
        TransportOption::StreamReceiveWindow(v) => config.set_stream_receive_window(*v),
        TransportOption::ReceiveWindow(v) => config.set_receive_window(*v),
        TransportOption::SendWindow(v) => config.set_send_window(*v),
    }
}

} // verus!
