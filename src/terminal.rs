//! The terminal session: a state machine over one WebSocket connection.
//!
//! The session decides and the caller does the I/O: each operation says which
//! frame to send or whether a frame must be fetched, and the caller hands back
//! what the connection delivered or how it failed.

use vstd::prelude::*;
use vstd::string::*;
use vstd::utf8::encode_utf8;

use crate::client::{invalid_base_url, parse_url, parsed_url, ws_url_from_parts, ws_url_of, Endpoint};
use crate::error::Error;
use crate::types::{resize_json, ResizeMessage};

verus! {

/// Viewport width of a session opened without a size.
pub const DEFAULT_COLS: u16 = 80;

/// Viewport height of a session opened without a size.
pub const DEFAULT_ROWS: u16 = 24;

/// A WebSocket frame, sent or received.
#[derive(Debug, Clone)]
pub enum Frame {
    Binary(Vec<u8>),
    Text(String),
    Ping(Vec<u8>),
    Pong(Vec<u8>),
    Close,
}

/// What the connection delivered when a frame was fetched.
#[derive(Debug, Clone)]
pub enum Incoming {
    /// A frame arrived.
    Frame(Frame),
    /// The transport failed, with its cause.
    Failed(String),
    /// The stream ended without a close frame.
    Ended,
}

/// What a read step asks of the caller, or hands to it.
#[derive(Debug)]
pub enum ReadStep {
    /// Payload bytes for the reader.
    Data(Vec<u8>),
    /// The peer closed the session.
    EndOfStream,
    /// The read fails with this error.
    Failed(Error),
    /// Fetch the next frame from the connection and step again with it.
    NeedFrame,
}

/// The outcome of a read step, as values.
pub enum ReadOutcome {
    Data(Seq<u8>),
    EndOfStream,
    Closed,
    Transport(Seq<char>),
    NeedFrame,
}

impl ReadStep {
    pub open spec fn view(&self) -> ReadOutcome {
        match self {
            ReadStep::Data(b) => ReadOutcome::Data(b@),
            ReadStep::EndOfStream => ReadOutcome::EndOfStream,
            ReadStep::Failed(Error::WebSocket(m)) => ReadOutcome::Transport(m@),
            ReadStep::Failed(_) => ReadOutcome::Closed,
            ReadStep::NeedFrame => ReadOutcome::NeedFrame,
        }
    }
}

/// A ping, a pong: a protocol frame that carries no application data.
pub open spec fn is_control(ev: Incoming) -> bool {
    ev matches Incoming::Frame(Frame::Ping(_)) || ev matches Incoming::Frame(Frame::Pong(_))
}

/// One read step from a session that is closed or not, given the frame that
/// was fetched, if any: whether the session is closed after it, and what the
/// step yields.
pub open spec fn read_spec(closed: bool, ev: Option<Incoming>) -> (bool, ReadOutcome) {
    if closed {
        (true, ReadOutcome::Closed)
    } else {
        match ev {
            None => (false, ReadOutcome::NeedFrame),
            Some(Incoming::Frame(Frame::Binary(b))) => (false, ReadOutcome::Data(b@)),
            Some(Incoming::Frame(Frame::Text(t))) => (false, ReadOutcome::Data(encode_utf8(t@))),
            Some(Incoming::Frame(Frame::Ping(_))) => (false, ReadOutcome::NeedFrame),
            Some(Incoming::Frame(Frame::Pong(_))) => (false, ReadOutcome::NeedFrame),
            Some(Incoming::Frame(Frame::Close)) => (true, ReadOutcome::EndOfStream),
            Some(Incoming::Failed(m)) => (true, ReadOutcome::Transport(m@)),
            Some(Incoming::Ended) => (true, ReadOutcome::EndOfStream),
        }
    }
}

/// One close request on a session that is closed or not: whether it is closed
/// after it, and whether a close handshake is owed to the peer.
pub open spec fn close_spec(closed: bool) -> (bool, bool) {
    (true, !closed)
}

/// One terminal session. It is open until it is closed by `close`, by the
/// peer, or by a transport failure, and never opens again.
#[derive(Debug)]
pub struct Terminal {
    closed: bool,
}

impl Terminal {
    /// Whether the session is closed.
    pub closed spec fn closed(&self) -> bool {
        self.closed
    }

    /// A session over a connection whose handshake has just succeeded.
    pub fn new() -> (r: Terminal)
        ensures
            !r.closed(),
    {
        Terminal { closed: false }
    }

    /// Whether the session is closed.
    pub fn is_closed(&self) -> (r: bool)
        ensures
            r == self.closed(),
    {
        self.closed
    }

    /// The frame that sends `data`: one binary frame holding exactly those
    /// bytes, or the closed error where the session is closed.
    pub fn write(&self, data: &[u8]) -> (r: Result<Frame, Error>)
        ensures
            self.closed() ==> r matches Err(Error::TerminalClosed),
            !self.closed() ==> (r matches Ok(Frame::Binary(b)) && b@ == data@),
    {
        if self.closed {
            return Err(Error::TerminalClosed);
        }
        Ok(Frame::Binary(vstd::slice::slice_to_vec(data)))
    }

    /// The frame that sends the UTF-8 bytes of `data`, as `write` does.
    pub fn write_str(&self, data: &str) -> (r: Result<Frame, Error>)
        ensures
            self.closed() ==> r matches Err(Error::TerminalClosed),
            !self.closed() ==> (r matches Ok(Frame::Binary(b)) && b@ == encode_utf8(data@)),
    {
        self.write(data.as_bytes())
    }

    /// The frame that tells the peer the viewport is `cols` by `rows`: one
    /// text frame with the JSON of a resize message, or the closed error.
    pub fn resize(&self, cols: u16, rows: u16) -> (r: Result<Frame, Error>)
        ensures
            self.closed() ==> r matches Err(Error::TerminalClosed),
            !self.closed() ==> (r matches Ok(Frame::Text(t)) && t@ == resize_json(cols, rows)),
    {
        if self.closed {
            return Err(Error::TerminalClosed);
        }
        let msg = ResizeMessage::new(cols, rows);
        Ok(Frame::Text(msg.to_json()))
    }

    /// One step of a read. Called first with `None`: where the session is
    /// open it asks for a frame. Called again with what the connection
    /// delivered: payload frames, binary or text, yield their bytes; pings and
    /// pongs are skipped by asking for the next frame; a close frame or the end
    /// of the stream closes the session and yields end-of-stream; a transport
    /// failure closes it and fails the read. On a closed session every step
    /// fails with the closed error and asks for no I/O.
    pub fn read(&mut self, event: Option<Incoming>) -> (r: ReadStep)
        ensures
            (final(self).closed(), r.view()) == read_spec(old(self).closed(), event),
            old(self).closed() ==> r matches ReadStep::Failed(Error::TerminalClosed),
    {
        if self.closed {
            return ReadStep::Failed(Error::TerminalClosed);
        }
        match event {
            None => ReadStep::NeedFrame,
            Some(Incoming::Frame(Frame::Binary(b))) => ReadStep::Data(b),
            Some(Incoming::Frame(Frame::Text(t))) => ReadStep::Data(t.as_str().as_bytes_vec()),
            Some(Incoming::Frame(Frame::Ping(_))) => ReadStep::NeedFrame,
            Some(Incoming::Frame(Frame::Pong(_))) => ReadStep::NeedFrame,
            Some(Incoming::Frame(Frame::Close)) => {
                self.closed = true;
                ReadStep::EndOfStream
            },
            Some(Incoming::Failed(m)) => {
                self.closed = true;
                ReadStep::Failed(Error::WebSocket(m))
            },
            Some(Incoming::Ended) => {
                self.closed = true;
                ReadStep::EndOfStream
            },
        }
    }

    /// Records that sending a frame failed with `cause`: the session is
    /// closed, and the error to hand to the caller is returned.
    pub fn transport_failed(&mut self, cause: String) -> (r: Error)
        ensures
            final(self).closed(),
            r matches Error::WebSocket(m) && m@ == cause@,
    {
        self.closed = true;
        Error::WebSocket(cause)
    }

    /// Closes the session. The session is closed at once, before any close
    /// handshake; the result says whether a handshake is owed, which holds only
    /// where the session was open. A failed handshake leaves it closed.
    pub fn close(&mut self) -> (handshake: bool)
        ensures
            (final(self).closed(), handshake) == close_spec(old(self).closed()),
    {
        let handshake = !self.closed;
        self.closed = true;
        handshake
    }
}

/// What opening a terminal session takes: the upgrade request's URL and
/// headers, and the first frame to send once the handshake succeeded.
#[derive(Debug)]
pub struct Handshake {
    /// The WebSocket URL of the container's terminal.
    pub url: String,
    /// The value of the `Authorization` header.
    pub authorization: String,
    /// The value of the `Host` header.
    pub host: String,
    /// The resize frame that sizes the remote terminal before any other I/O.
    pub initial: Frame,
}

impl Handshake {
    /// The headers of the upgrade request, with `key` as the
    /// `Sec-WebSocket-Key` nonce.
    pub fn headers(&self, key: &str) -> (r: Vec<(String, String)>)
        ensures
            r@.len() == 6,
            r@[0].0@ == "Authorization"@ && r@[0].1@ == self.authorization@,
            r@[1].0@ == "Host"@ && r@[1].1@ == self.host@,
            r@[2].0@ == "Connection"@ && r@[2].1@ == "Upgrade"@,
            r@[3].0@ == "Upgrade"@ && r@[3].1@ == "websocket"@,
            r@[4].0@ == "Sec-WebSocket-Version"@ && r@[4].1@ == "13"@,
            r@[5].0@ == "Sec-WebSocket-Key"@ && r@[5].1@ == key@,
    {
        let mut r: Vec<(String, String)> = Vec::new();
        r.push(("Authorization".to_owned(), self.authorization.as_str().to_owned()));
        r.push(("Host".to_owned(), self.host.as_str().to_owned()));
        r.push(("Connection".to_owned(), "Upgrade".to_owned()));
        r.push(("Upgrade".to_owned(), "websocket".to_owned()));
        r.push(("Sec-WebSocket-Version".to_owned(), "13".to_owned()));
        r.push(("Sec-WebSocket-Key".to_owned(), key.to_owned()));
        r
    }
}

/// Path of the terminal endpoint of a container.
pub open spec fn terminal_path(container_id: Seq<char>) -> Seq<char> {
    "/ws/terminal/"@ + container_id
}

/// The handshake that opens a terminal on the container `container_id` with a
/// viewport of `cols` by `rows`. It fails where the base URL does not parse,
/// or names no host.
pub fn terminal_handshake(endpoint: &Endpoint, container_id: &str, cols: u16, rows: u16) -> (r:
    Result<Handshake, Error>)
    ensures
        match parsed_url(endpoint.base_url@) {
            None => r matches Err(Error::Connection(_)),
            Some(parts) => match ws_url_of(parts, terminal_path(container_id@)) {
                None => r matches Err(Error::Connection(m)) && m@ == "Invalid host"@,
                Some(u) => r matches Ok(h) && h.url@ == u && h.authorization@ == "Bearer "@
                    + endpoint.token@ && h.host@ == parts.1->Some_0 && (h.initial matches Frame::Text(
                    t) && t@ == resize_json(cols, rows)),
            },
        },
{
    let parts = match parse_url(endpoint.base_url.as_str()) {
        Err(e) => return Err(invalid_base_url(e)),
        Ok(p) => p,
    };
    let mut path = "/ws/terminal/".to_owned();
    path.append(container_id);
    let url = match ws_url_from_parts(&parts, path.as_str()) {
        Err(e) => return Err(e),
        Ok(u) => u,
    };
    let host = match &parts.host {
        Some(h) => h.as_str().to_owned(),
        None => return Err(Error::connection("Invalid host")),
    };
    let initial = Frame::Text(ResizeMessage::new(cols, rows).to_json());
    Ok(Handshake { url, authorization: endpoint.authorization(), host, initial })
}

/// Feeds `events` to read steps in order, from a session that is closed or
/// not, until a step yields something other than a request for a frame:
/// whether the session is closed then, and what that step yielded.
pub open spec fn read_through(closed: bool, events: Seq<Incoming>) -> (bool, ReadOutcome)
    decreases events.len(),
{
    if events.len() == 0 {
        (closed, ReadOutcome::NeedFrame)
    } else {
        let (c, out) = read_spec(closed, Some(events[0]));
        if out is NeedFrame {
            read_through(c, events.drop_first())
        } else {
            (c, out)
        }
    }
}

/// Once closed, a session stays closed, and a read on it fails with the
/// closed error; a read that ended the stream or met a transport failure left
/// the session closed, and so does `close`. (On a closed session `write`,
/// `write_str` and `resize` fail with the closed error by their contracts.)
pub proof fn lemma_closed_is_final(closed: bool, ev: Option<Incoming>, next: Option<Incoming>)
    ensures
        read_spec(true, next) == (true, ReadOutcome::Closed),
        close_spec(closed).0,
        ({
            let (c, out) = read_spec(closed, ev);
            (out is EndOfStream || out is Transport || out is Closed) ==> c && read_spec(c, next)
                == (true, ReadOutcome::Closed)
        }),
{
}

/// Closing twice succeeds twice: the second close finds the session closed
/// and owes no handshake, so no handshake failure can follow it.
pub proof fn lemma_close_idempotent(closed: bool)
    ensures
        ({
            let (c1, _) = close_spec(closed);
            let (c2, h2) = close_spec(c1);
            c1 && c2 && !h2
        }),
{
}

/// A read never yields a ping or a pong: on an open session such a frame is
/// skipped, and after any run of them the read goes on to the next event that
/// is no ping or pong, and ends there as a single step on that event would,
/// leaving whatever follows it unread.
pub proof fn lemma_control_frames_skipped(controls: Seq<Incoming>, last: Incoming, rest: Seq<Incoming>)
    requires
        forall|i: int| 0 <= i < controls.len() ==> is_control(#[trigger] controls[i]),
        !is_control(last),
    ensures
        forall|ev: Incoming| is_control(ev) ==> read_spec(false, Some(ev)) == (
            false,
            ReadOutcome::NeedFrame,
        ),
        read_through(false, controls.push(last) + rest) == read_spec(false, Some(last)),
        !(read_spec(false, Some(last)).1 is NeedFrame),
    decreases controls.len(),
{
    let events = controls.push(last) + rest;
    if controls.len() > 0 {
        let tail = controls.drop_first();
        assert(is_control(controls[0]));
        assert(events[0] == controls[0]);
        assert(events.drop_first() =~= tail.push(last) + rest);
        assert forall|i: int| 0 <= i < tail.len() implies is_control(#[trigger] tail[i]) by {
            assert(tail[i] == controls[i + 1]);
        }
        lemma_control_frames_skipped(tail, last, rest);
    } else {
        assert(events[0] == last);
    }
}

} // verus!
