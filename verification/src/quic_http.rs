use std::marker::PhantomData;
use tokio::sync::mpsc::{Receiver, Sender};
use vstd::prelude::*;

verus! {

#[verifier::external_type_specification]
#[verifier::external_body]
#[verifier::reject_recursive_types(T)]
pub struct ExSender<T>(tokio::sync::mpsc::Sender<T>);

/// Capacity of the request and response channels between a request handle
/// and the task that drives its connection.
pub const REQUEST_CHANNEL_CAPACITY: usize = 8;

/// Calls `tokio::sync::mpsc::channel(buffer)`, which asserts that the buffer
/// is positive and at most `usize::MAX >> 3`. Nothing is stated of the two
/// handles, which share an opaque channel.
#[verifier::external_body]
fn mpsc_channel<T>(buffer: usize) -> (Sender<T>, Receiver<T>)
    requires
        0 < buffer <= usize::MAX / 8,
{
    tokio::sync::mpsc::channel(buffer)
}

/// Calls `Clone::clone` on a `tokio::sync::mpsc::Sender`, giving another
/// handle on the same channel. Trusted: the result is that clone; nothing
/// else is stated of the opaque handle.
#[verifier::external_body]
fn clone_sender<T>(sender: &Sender<T>) -> (r: Sender<T>)
    ensures
        cloned(*sender, r),
{
    sender.clone()
}

/// Connects to HTTP/3 servers through a connection maker `inner`; `B` is the
/// request body type.
pub struct Http3Connector<M, B> {
    inner: M,
    _marker: PhantomData<B>,
}

impl<M, B> Http3Connector<M, B> {
    /// A connector over the connection maker `inner`.
    pub fn new(inner: M) -> (r: Self)
        ensures
            r.inner() == inner,
    {
        Http3Connector { inner, _marker: PhantomData }
    }

    /// The connection maker.
    pub closed spec fn inner(&self) -> M {
        self.inner
    }

    /// The connection maker, to make a connection with.
    pub fn inner_mut(&mut self) -> (r: &mut M)
        ensures
            *r == old(self).inner(),
            final(self).inner() == *final(r),
    {
        &mut self.inner
    }

    /// Sets up a new connection made with the connection maker: the handle
    /// for sending requests over it, and the ends of its two channels that the
    /// connection's driving task keeps, the receiver of requests and the sender
    /// of responses. Both channels hold up to [`REQUEST_CHANNEL_CAPACITY`]
    /// messages.
    pub fn call<Req, Resp>(&self) -> (r: (SendRequest<Req, Resp>, Receiver<Req>, Sender<Resp>))
        ensures
            r.0.receiver() is Some,
    {
        let (sender, rx) = mpsc_channel::<Req>(REQUEST_CHANNEL_CAPACITY);
        let (tx, recver) = mpsc_channel::<Resp>(REQUEST_CHANNEL_CAPACITY);
        (SendRequest { sender, recver: Some(recver) }, rx, tx)
    }
}

/// A handle for sending requests over one connection: the sender of requests
/// and, on the handle that was first made for the connection, the receiver of
/// responses.
#[verifier::reject_recursive_types(Req)]
#[verifier::reject_recursive_types(Resp)]
pub struct SendRequest<Req, Resp> {
    sender: Sender<Req>,
    recver: Option<Receiver<Resp>>,
}

impl<Req, Resp> SendRequest<Req, Resp> {
    /// The sender of requests.
    pub closed spec fn sender(&self) -> Sender<Req> {
        self.sender
    }

    /// The receiver of responses, on the handle that still holds it.
    pub closed spec fn receiver(&self) -> Option<Receiver<Resp>> {
        self.recver
    }

    /// Whether this handle still holds the receiver of responses.
    pub open spec fn has_receiver_spec(&self) -> bool {
        self.receiver() is Some
    }

    /// Whether this handle still holds the receiver of responses.
    pub fn has_receiver(&self) -> (r: bool)
        ensures
            r == self.has_receiver_spec(),
    {
        self.recver.is_some()
    }

    /// Another handle on the same connection: a clone of this handle's sender
    /// of requests, and no receiver of responses.
    pub fn clone_handle(&self) -> (r: Self)
        ensures
            cloned(self.sender(), r.sender()),
            r.receiver() is None,
    {
        SendRequest { sender: clone_sender(&self.sender), recver: None }
    }

    /// The ends a request needs: a clone of the handle's sender for the
    /// request, and the receiver of its response, which the handle gives up.
    /// Only a handle that holds the receiver can make a request.
    pub fn call(&mut self) -> (r: (Sender<Req>, Receiver<Resp>))
        requires
            old(self).has_receiver_spec(),
        ensures
            cloned(old(self).sender(), r.0),
            old(self).receiver() == Some(r.1),
            final(self).sender() == old(self).sender(),
            final(self).receiver() is None,
    {
        let sender = clone_sender(&self.sender);
        let recver = self.recver.take().unwrap();
        (sender, recver)
    }
}

/// One poll of a request body.
pub enum BodyChunk {
    /// A chunk of body bytes.
    Data(Vec<u8>),
    /// The body has ended.
    End,
    /// Reading the body failed.
    Failed,
}

/// The view of a [`BodyChunk`].
pub enum BodyChunkView {
    Data(Seq<u8>),
    End,
    Failed,
}

impl View for BodyChunk {
    type V = BodyChunkView;

    open spec fn view(&self) -> BodyChunkView {
        match self {
            BodyChunk::Data(d) => BodyChunkView::Data(d@),
            BodyChunk::End => BodyChunkView::End,
            BodyChunk::Failed => BodyChunkView::Failed,
        }
    }
}

/// The body bytes a request carries: the data chunks up to the first chunk
/// that is not data.
pub open spec fn collected_body(chunks: Seq<BodyChunkView>) -> Seq<u8>
    decreases chunks.len(),
{
    if chunks.len() == 0 {
        Seq::empty()
    } else {
        match chunks[0] {
            BodyChunkView::Data(d) => d + collected_body(chunks.drop_first()),
            _ => Seq::empty(),
        }
    }
}

/// The bytes of one request as sent on the connection: the encoded header
/// block followed by the body chunks, read until the body ends or fails.
pub struct RequestBlock {
    bytes: Vec<u8>,
    reading: bool,
}

/// The state of a [`RequestBlock`]: the bytes so far, and whether body chunks
/// are still taken.
pub struct RequestBlockView {
    pub bytes: Seq<u8>,
    pub reading: bool,
}

impl View for RequestBlock {
    type V = RequestBlockView;

    closed spec fn view(&self) -> RequestBlockView {
        RequestBlockView { bytes: self.bytes@, reading: self.reading }
    }
}

impl RequestBlockView {
    /// The state after one body chunk.
    pub open spec fn push(self, chunk: BodyChunkView) -> RequestBlockView {
        if !self.reading {
            self
        } else {
            match chunk {
                BodyChunkView::Data(d) => RequestBlockView { bytes: self.bytes + d, reading: true },
                _ => RequestBlockView { bytes: self.bytes, reading: false },
            }
        }
    }

    /// The state after a sequence of body chunks.
    pub open spec fn push_all(self, chunks: Seq<BodyChunkView>) -> RequestBlockView
        decreases chunks.len(),
    {
        if chunks.len() == 0 {
            self
        } else {
            self.push(chunks[0]).push_all(chunks.drop_first())
        }
    }
}

/// A block that has stopped reading takes no more chunks.
proof fn lemma_stopped_block_is_final(b: RequestBlockView, chunks: Seq<BodyChunkView>)
    requires
        !b.reading,
    ensures
        b.push_all(chunks) == b,
    decreases chunks.len(),
{
    if chunks.len() > 0 {
        lemma_stopped_block_is_final(b.push(chunks[0]), chunks.drop_first());
    }
}

/// Feeding the polls of a body one by one to a block that starts with a
/// header block gives the header block followed by the collected body.
pub proof fn lemma_request_block_is_header_then_body(header: Seq<u8>, chunks: Seq<BodyChunkView>)
    ensures
        (RequestBlockView { bytes: header, reading: true }).push_all(chunks).bytes
            == header + collected_body(chunks),
    decreases chunks.len(),
{
    let start = RequestBlockView { bytes: header, reading: true };
    if chunks.len() == 0 {
        assert(header + Seq::<u8>::empty() =~= header);
    } else {
        match chunks[0] {
            BodyChunkView::Data(d) => {
                lemma_request_block_is_header_then_body(header + d, chunks.drop_first());
                assert(header + d + collected_body(chunks.drop_first()) =~= header + (d
                    + collected_body(chunks.drop_first())));
            },
            _ => {
                lemma_stopped_block_is_final(start.push(chunks[0]), chunks.drop_first());
                assert(header + Seq::<u8>::empty() =~= header);
            },
        }
    }
}

impl RequestBlock {
    /// A block holding the encoded header block, ready for body chunks.
    pub fn new(header_block: Vec<u8>) -> (r: RequestBlock)
        ensures
            r@ == (RequestBlockView { bytes: header_block@, reading: true }),
    {
        RequestBlock { bytes: header_block, reading: true }
    }

    /// Takes one poll of the body: data is appended while the body is being
    /// read, and the end or a failure stops the reading. Returns whether more
    /// chunks are wanted.
    pub fn push_chunk(&mut self, chunk: BodyChunk) -> (r: bool)
        ensures
            final(self)@ == old(self)@.push(chunk@),
            r == final(self)@.reading,
    {
        if !self.reading {
            return false;
        }
        match chunk {
            BodyChunk::Data(d) => {
                let mut d = d;
                self.bytes.append(&mut d);
            },
            _ => {
                self.reading = false;
            },
        }
        self.reading
    }

    /// The bytes of the request.
    pub fn into_bytes(self) -> (r: Vec<u8>)
        ensures
            r@ == self@.bytes,
    {
        self.bytes
    }
}

/// A frame read from the connection, as far as the response needs it.
pub enum FrameEvent {
    /// The bytes did not decode as a frame.
    Undecodable,
    /// A headers frame with its encoded header block.
    Headers(Vec<u8>),
    /// A data frame with the bytes that follow its header.
    Data(Vec<u8>),
    /// A push cancellation with its push id.
    CancelPush(u64),
    /// Any other frame.
    Other,
}

/// What to do with a frame.
pub enum FrameAction {
    /// Nothing.
    Ignore,
    /// Decode the header block, start a new response with a fresh body, and
    /// hand the response out.
    StartResponse(Vec<u8>),
    /// Send the bytes on the body of the current response.
    SendBody(Vec<u8>),
}

/// The view of a [`FrameEvent`].
pub enum FrameEventView {
    Undecodable,
    Headers(Seq<u8>),
    Data(Seq<u8>),
    CancelPush(u64),
    Other,
}

impl View for FrameEvent {
    type V = FrameEventView;

    open spec fn view(&self) -> FrameEventView {
        match self {
            FrameEvent::Undecodable => FrameEventView::Undecodable,
            FrameEvent::Headers(b) => FrameEventView::Headers(b@),
            FrameEvent::Data(b) => FrameEventView::Data(b@),
            FrameEvent::CancelPush(id) => FrameEventView::CancelPush(*id),
            FrameEvent::Other => FrameEventView::Other,
        }
    }
}

/// The view of a [`FrameAction`].
pub enum FrameActionView {
    Ignore,
    StartResponse(Seq<u8>),
    SendBody(Seq<u8>),
}

impl View for FrameAction {
    type V = FrameActionView;

    open spec fn view(&self) -> FrameActionView {
        match self {
            FrameAction::Ignore => FrameActionView::Ignore,
            FrameAction::StartResponse(b) => FrameActionView::StartResponse(b@),
            FrameAction::SendBody(b) => FrameActionView::SendBody(b@),
        }
    }
}

/// What is done with a frame, given whether a response body is open.
pub open spec fn frame_action(body_open: bool, frame: FrameEventView) -> FrameActionView {
    match frame {
        FrameEventView::Headers(b) => FrameActionView::StartResponse(b),
        FrameEventView::Data(b) => if body_open {
            FrameActionView::SendBody(b)
        } else {
            FrameActionView::Ignore
        },
        _ => FrameActionView::Ignore,
    }
}

/// Whether a response body is open after a frame.
pub open spec fn body_open_after(body_open: bool, frame: FrameEventView) -> bool {
    match frame {
        FrameEventView::Headers(_) => true,
        _ => body_open,
    }
}

/// The bytes sent on response bodies while handling a sequence of frames.
pub open spec fn forwarded_body(body_open: bool, frames: Seq<FrameEventView>) -> Seq<Seq<u8>>
    decreases frames.len(),
{
    if frames.len() == 0 {
        Seq::empty()
    } else {
        let rest = forwarded_body(body_open_after(body_open, frames[0]), frames.drop_first());
        match frame_action(body_open, frames[0]) {
            FrameActionView::SendBody(b) => seq![b] + rest,
            _ => rest,
        }
    }
}

/// The payloads of the data frames of a sequence, in order.
pub open spec fn data_payloads(frames: Seq<FrameEventView>) -> Seq<Seq<u8>>
    decreases frames.len(),
{
    if frames.len() == 0 {
        Seq::empty()
    } else {
        match frames[0] {
            FrameEventView::Data(b) => seq![b] + data_payloads(frames.drop_first()),
            _ => data_payloads(frames.drop_first()),
        }
    }
}

/// The frames after the first headers frame; none when there is no headers
/// frame.
pub open spec fn after_first_headers(frames: Seq<FrameEventView>) -> Seq<FrameEventView>
    decreases frames.len(),
{
    if frames.len() == 0 {
        Seq::empty()
    } else {
        match frames[0] {
            FrameEventView::Headers(_) => frames.drop_first(),
            _ => after_first_headers(frames.drop_first()),
        }
    }
}

/// Once a response body is open, every data frame is sent on it.
proof fn lemma_open_body_forwards_all_data(frames: Seq<FrameEventView>)
    ensures
        forwarded_body(true, frames) == data_payloads(frames),
    decreases frames.len(),
{
    if frames.len() > 0 {
        lemma_open_body_forwards_all_data(frames.drop_first());
    }
}

/// On a connection where no response has started, the bytes sent on response
/// bodies are exactly the payloads of the data frames that come after the
/// first headers frame: data before any response is dropped, and none after
/// it is lost.
pub proof fn lemma_body_is_data_after_first_headers(frames: Seq<FrameEventView>)
    ensures
        forwarded_body(false, frames) == data_payloads(after_first_headers(frames)),
    decreases frames.len(),
{
    if frames.len() > 0 {
        match frames[0] {
            FrameEventView::Headers(_) => {
                lemma_open_body_forwards_all_data(frames.drop_first());
            },
            _ => {
                lemma_body_is_data_after_first_headers(frames.drop_first());
            },
        }
    }
}

/// The response side of a connection: whether a response body is open.
pub struct ResponseState {
    body_open: bool,
}

impl ResponseState {
    /// No response has started.
    pub fn new() -> (r: ResponseState)
        ensures
            !r.body_open_spec(),
    {
        ResponseState { body_open: false }
    }

    /// Whether a response has started, so that data frames go to its body.
    pub closed spec fn body_open_spec(&self) -> bool {
        self.body_open
    }

    /// Whether a response has started.
    pub fn body_open(&self) -> (r: bool)
        ensures
            r == self.body_open_spec(),
    {
        self.body_open
    }

    /// Handles one frame: a headers frame starts a response (and its body); a
    /// data frame goes to the current body, or is dropped before any
    /// response; every other frame, and bytes that are no frame, are ignored.
    pub fn on_frame(&mut self, frame: FrameEvent) -> (r: FrameAction)
        ensures
            r@ == frame_action(old(self).body_open_spec(), frame@),
            final(self).body_open_spec() == body_open_after(old(self).body_open_spec(), frame@),
            match frame {
                FrameEvent::Headers(b) => r == FrameAction::StartResponse(b)
                    && final(self).body_open_spec(),
                FrameEvent::Data(b) => final(self).body_open_spec() == old(self).body_open_spec()
                    && if old(self).body_open_spec() {
                        r == FrameAction::SendBody(b)
                    } else {
                        r is Ignore
                    },
                _ => r is Ignore && final(self).body_open_spec() == old(self).body_open_spec(),
            },
    {
        match frame {
            FrameEvent::Headers(b) => {
                self.body_open = true;
                FrameAction::StartResponse(b)
            },
            FrameEvent::Data(b) => {
                if self.body_open {
                    FrameAction::SendBody(b)
                } else {
                    FrameAction::Ignore
                }
            },
            FrameEvent::CancelPush(_) => FrameAction::Ignore,
            FrameEvent::Undecodable => FrameAction::Ignore,
            FrameEvent::Other => FrameAction::Ignore,
        }
    }
}

} // verus!
