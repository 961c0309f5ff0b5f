use vstd::prelude::*;

use crate::endpoint::Endpoint;
use crate::quic_conn::QuicConnector;

verus! {

/// A change in the set of services: a keyed insertion or a removal.
pub enum Change<K, V> {
    Insert(K, V),
    Remove(K),
}

/// What polling the channel of endpoint changes gave.
pub enum ChangePoll<K> {
    /// Nothing yet.
    Pending,
    /// The channel is closed.
    Closed,
    /// A change arrived.
    Ready(Change<K, Endpoint>),
}

/// A connection that is made on first use: the connector and the endpoint it
/// connects to.
pub struct LazyConnection {
    pub connector: QuicConnector,
    pub endpoint: Endpoint,
}

/// What the discovery stream yields.
pub enum DiscoverPoll<K> {
    /// Nothing to yield now.
    Pending,
    /// A change of services, the inserted ones as lazy connections.
    Ready(Change<K, LazyConnection>),
}

/// A stream of service changes made from a stream of endpoint changes.
#[verifier::reject_recursive_types(K)]
pub struct DynamicServiceStream<K> {
    changes: tokio::sync::mpsc::Receiver<Change<K, Endpoint>>,
}

#[verifier::external_type_specification]
#[verifier::external_body]
#[verifier::reject_recursive_types(T)]
pub struct ExReceiver<T>(tokio::sync::mpsc::Receiver<T>);

impl<K> DynamicServiceStream<K> {
    /// A stream over the given channel of endpoint changes.
    pub fn new(changes: tokio::sync::mpsc::Receiver<Change<K, Endpoint>>) -> (r: Self)
        ensures
            r.changes() == changes,
    {
        DynamicServiceStream { changes }
    }

    /// The channel of endpoint changes.
    pub closed spec fn changes(&self) -> tokio::sync::mpsc::Receiver<Change<K, Endpoint>> {
        self.changes
    }

    /// The channel of endpoint changes, to be polled.
    pub fn changes_mut(&mut self) -> (r: &mut tokio::sync::mpsc::Receiver<Change<K, Endpoint>>)
        ensures
            *r == old(self).changes(),
            final(self).changes() == *final(r),
    {
        &mut self.changes
    }

    /// One step of the stream, given what polling the channel gave: nothing
    /// yet and a closed channel both leave the stream pending; a removal is
    /// passed on; an insertion of an endpoint becomes the insertion of a lazy
    /// connection to it through a connector with the default configuration.
    pub fn poll_next(&self, polled: ChangePoll<K>) -> (r: DiscoverPoll<K>)
        ensures
            match polled {
                ChangePoll::Pending => r is Pending,
                ChangePoll::Closed => r is Pending,
                ChangePoll::Ready(Change::Remove(k)) => r == DiscoverPoll::Ready(
                    Change::<K, LazyConnection>::Remove(k),
                ),
                ChangePoll::Ready(Change::Insert(k, e)) => r matches DiscoverPoll::Ready(
                    Change::Insert(k2, c),
                ) && k2 == k && c.endpoint == e && c.connector.config() is None,
            },
    {
        match polled {
            ChangePoll::Pending => DiscoverPoll::Pending,
            ChangePoll::Closed => DiscoverPoll::Pending,
            ChangePoll::Ready(change) => match change {
                Change::Insert(k, endpoint) => {
                    let quic = QuicConnector::new(None);
                    let connection = LazyConnection { connector: quic, endpoint };
                    DiscoverPoll::Ready(Change::Insert(k, connection))
                },
                Change::Remove(k) => DiscoverPoll::Ready(Change::Remove(k)),
            },
        }
    }
}

} // verus!
