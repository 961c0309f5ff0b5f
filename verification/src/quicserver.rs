use std::marker::PhantomData;
use vstd::prelude::*;

use crate::error::Error;

verus! {

#[verifier::external_type_specification]
#[verifier::external_body]
pub struct ExIncoming(quinn::Incoming);

#[verifier::external_type_specification]
#[verifier::external_body]
pub struct ExConnecting(quinn::Connecting);

#[verifier::external_type_specification]
#[verifier::external_body]
pub struct ExNewConnection(quinn::NewConnection);

#[verifier::external_type_specification]
#[verifier::external_body]
pub struct ExConnectionError(quinn::ConnectionError);

/// Where a server is in serving one connection.
pub enum State {
    /// No connection is being handled.
    Idle,
    /// A connection is being established.
    Connecting { connecting: quinn::Connecting },
    /// A connection is established.
    Connected { connection: quinn::NewConnection },
}

/// What polling the pending handshake of a connection gave.
pub enum ConnectingPoll {
    Pending,
    Established(quinn::NewConnection),
    Failed(quinn::ConnectionError),
}

/// What the driver of a server observed since the last step: the outcome of
/// the handshake while connecting, or whether the service for the
/// connection is ready once connected.
pub enum StepInput {
    Connecting(ConnectingPoll),
    ServicePending,
    ServiceReady,
}

/// What a step of the server gives.
pub enum ServerPoll {
    /// Wait for more progress.
    Pending,
    /// Step again with the input the new state asks for.
    Continue,
    /// This connection is done with, with the outcome of serving it.
    Ready(Result<(), Error>),
}

/// What the driver of a server observed while accepting: whether the service
/// maker is ready, and what polling the incoming stream gave.
pub enum AcceptInput {
    MakeServicePending,
    MakeServiceFailed,
    IncomingPending,
    Incoming(quinn::Connecting),
    IncomingClosed,
}

/// What a step of the accept loop gives.
pub enum AcceptPoll {
    /// Wait for more progress.
    Pending,
    /// A connection was taken; step it with [`QuicServer::poll_next_`].
    Accepted,
    /// The incoming stream has ended: the server is done.
    Finished,
    /// The service maker failed: the server ends with an error.
    Failed,
}

/// A listening QUIC server: the stream of incoming connections, the maker of
/// services, and the state of the connection at hand.
#[verifier::reject_recursive_types(IO)]
pub struct QuicServer<S, IO> {
    incoming: quinn::Incoming,
    make_service: S,
    state: State,
    _io: PhantomData<IO>,
}

/// Builds a [`QuicServer`] over a stream of incoming connections.
pub struct QuicBuilder {
    incoming: quinn::Incoming,
}

impl QuicServer<(), ()> {
    /// Starts a builder with the provided incoming stream.
    pub fn builder(incoming: quinn::Incoming) -> (r: QuicBuilder)
        ensures
            r.incoming() == incoming,
    {
        QuicBuilder { incoming }
    }
}

impl QuicBuilder {
    /// Starts a builder with the provided incoming stream.
    pub fn new(incoming: quinn::Incoming) -> (r: QuicBuilder)
        ensures
            r.incoming() == incoming,
    {
        QuicBuilder { incoming }
    }

    /// The incoming stream.
    pub closed spec fn incoming(&self) -> quinn::Incoming {
        self.incoming
    }

    /// A server over the incoming stream with the given service maker; it
    /// starts idle.
    pub fn serve<S, IO>(self, make_service: S) -> (r: QuicServer<S, IO>)
        ensures
            r.incoming() == self.incoming(),
            r.make_service() == make_service,
            r.state() is Idle,
    {
        QuicServer { incoming: self.incoming, make_service, state: State::Idle, _io: PhantomData }
    }
}

impl<S, IO> QuicServer<S, IO> {
    /// The incoming stream.
    pub closed spec fn incoming(&self) -> quinn::Incoming {
        self.incoming
    }

    /// The service maker.
    pub closed spec fn make_service(&self) -> S {
        self.make_service
    }

    /// The state of the connection at hand.
    pub closed spec fn state(&self) -> State {
        self.state
    }

    /// The service maker, so that the driver can make each connection's
    /// service.
    pub fn make_service_ref(&self) -> (r: &S)
        ensures
            *r == self.make_service(),
    {
        &self.make_service
    }

    /// The incoming stream, so that the driver can poll it.
    pub fn incoming_mut(&mut self) -> (r: &mut quinn::Incoming)
        ensures
            *r == old(self).incoming(),
            final(self).incoming() == *final(r),
            final(self).state() == old(self).state(),
            final(self).make_service() == old(self).make_service(),
    {
        &mut self.incoming
    }

    /// The state, so that the driver can poll the handshake it holds.
    pub fn state_mut(&mut self) -> (r: &mut State)
        ensures
            *r == old(self).state(),
            final(self).state() == *final(r),
            final(self).incoming() == old(self).incoming(),
            final(self).make_service() == old(self).make_service(),
    {
        &mut self.state
    }

    /// One step of serving the connection at hand. While connecting: a pending
    /// handshake keeps the server pending; a failed one ends this connection
    /// without an error; an established one moves to the connected state.
    /// Once connected: the server waits for the service to be ready, then the
    /// connection is done with. An idle server has no connection to step.
    /// A step never fails: a failed handshake only ends the connection.
    pub fn poll_next_(&mut self, input: StepInput) -> (r: ServerPoll)
        requires
            !(old(self).state() is Idle),
            old(self).state() is Connecting <==> input is Connecting,
        ensures
            final(self).incoming() == old(self).incoming(),
            final(self).make_service() == old(self).make_service(),
            match input {
                StepInput::Connecting(ConnectingPoll::Pending) => r is Pending
                    && final(self).state() == old(self).state(),
                StepInput::Connecting(ConnectingPoll::Failed(_)) => r == ServerPoll::Ready(Ok(()))
                    && final(self).state() == old(self).state(),
                StepInput::Connecting(ConnectingPoll::Established(c)) => r is Continue
                    && final(self).state() == (State::Connected { connection: c }),
                StepInput::ServicePending => r is Pending && final(self).state() == old(
                    self,
                ).state(),
                StepInput::ServiceReady => r == ServerPoll::Ready(Ok(()))
                    && final(self).state() == old(self).state(),
            },
            !(r matches ServerPoll::Ready(Err(_))),
    {
        match input {
            StepInput::Connecting(polled) => match polled {
                ConnectingPoll::Pending => ServerPoll::Pending,
                ConnectingPoll::Failed(_) => ServerPoll::Ready(Ok(())),
                ConnectingPoll::Established(connection) => {
                    self.state = State::Connected { connection };
                    ServerPoll::Continue
                },
            },
            StepInput::ServicePending => ServerPoll::Pending,
            StepInput::ServiceReady => ServerPoll::Ready(Ok(())),
        }
    }

    /// One step of the accept loop: the service maker must be ready first
    /// (pending keeps the server pending, a failure ends it with an error);
    /// then the next incoming connection is taken and becomes the connection
    /// at hand, in the connecting state; when the incoming stream has ended the
    /// server is finished.
    pub fn poll_next(&mut self, input: AcceptInput) -> (r: AcceptPoll)
        ensures
            final(self).incoming() == old(self).incoming(),
            final(self).make_service() == old(self).make_service(),
            match input {
                AcceptInput::MakeServicePending => r is Pending && final(self).state() == old(
                    self,
                ).state(),
                AcceptInput::MakeServiceFailed => r is Failed && final(self).state() == old(
                    self,
                ).state(),
                AcceptInput::IncomingPending => r is Pending && final(self).state() == old(
                    self,
                ).state(),
                AcceptInput::Incoming(c) => r is Accepted && final(self).state() == (
                State::Connecting { connecting: c }),
                AcceptInput::IncomingClosed => r is Finished && final(self).state() == old(
                    self,
                ).state(),
            },
    {
        match input {
            AcceptInput::MakeServicePending => AcceptPoll::Pending,
            AcceptInput::MakeServiceFailed => AcceptPoll::Failed,
            AcceptInput::IncomingPending => AcceptPoll::Pending,
            AcceptInput::Incoming(connecting) => {
                self.state = State::Connecting { connecting };
                AcceptPoll::Accepted
            },
            AcceptInput::IncomingClosed => AcceptPoll::Finished,
        }
    }
}

} // verus!
