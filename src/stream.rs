//! The streaming session: authentication, subscription, and the stream of
//! events that follows.
//!
//! A [`Session`] makes every decision of the protocol; whoever owns the
//! connection performs what it asks for and hands back what happened.
pub mod types;

use crate::errors::{Error, TransportError};
use crate::json::{json_of_bytes, json_of_text};
use crate::stream::types::{
    action_text, decodes, encode_authenticate, encode_listen, AlpacaAction, AlpacaMessage,
    AuthorizationStatus, DecodeError,
};
use vstd::prelude::*;
use vstd::string::*;

verus! {

/// Where to connect, with which credentials, and which channels to listen to.
pub struct Connection {
    pub url: String,
    pub key_id: String,
    pub secret_key: String,
    pub events: Vec<String>,
}

impl Connection {
    pub fn new(url: String, key_id: String, secret_key: String, events: Vec<String>) -> (r: Self)
        ensures
            r == (Connection { url, key_id, secret_key, events }),
    {
        Connection { url, key_id, secret_key, events }
    }
}

pub open spec fn auth_action(c: Connection) -> AlpacaAction {
    AlpacaAction::Authenticate { key_id: c.key_id, secret_key: c.secret_key }
}

pub open spec fn listen_action(c: Connection) -> AlpacaAction {
    AlpacaAction::Listen { streams: c.events }
}

/// The lifecycle of a session. The handshake only moves forward, a streaming
/// session moves between `Streaming` and `Resubscribing`, and `Closed` is
/// final.
#[derive(Clone, Copy, Debug, PartialEq, Eq, Structural)]
pub enum Phase {
    Connecting,
    Authenticating,
    Subscribing,
    Streaming,
    /// Streaming, with a further subscription awaiting its reply.
    Resubscribing,
    Closed,
}

/// A frame as the connection delivers it.
pub enum Frame {
    Text(String),
    Binary(Vec<u8>),
    /// A ping, pong or close frame: never an application message.
    Control,
}

/// What happened on the connection.
pub enum Input {
    /// The connection is open.
    Opened,
    /// An application frame arrived and was decoded.
    Reply(Result<AlpacaMessage, DecodeError>),
    /// A control frame arrived.
    Control,
    /// The connection failed.
    Failed(TransportError),
    /// The connection ended.
    Ended,
}

/// What the session asks of the connection, or reports.
pub enum Output {
    /// Send this text frame, then receive.
    SendAndReceive(String),
    /// Receive the next frame.
    Receive,
    /// The handshake is complete: the session streams.
    Ready,
    /// A further subscription was answered.
    Subscribed,
    /// One item of the stream.
    Item(Result<AlpacaMessage, Error>),
    /// The handshake or a subscription failed, and the session is closed.
    Failed(Error),
    /// The stream has ended: nothing more will come.
    End,
}

/// One connection attempt and, once it succeeds, its stream.
pub struct Session {
    phase: Phase,
    conn: Connection,
    /// The texts sent so far, in order.
    sent: Ghost<Seq<Seq<char>>>,
    /// The replies consumed by the handshake.
    replies: Ghost<nat>,
}

pub open spec fn sends(o: Output, a: AlpacaAction) -> bool {
    o matches Output::SendAndReceive(t) && action_text(a, t@)
}

pub open spec fn fails_for(o: Output, reason: Seq<char>) -> bool {
    o matches Output::Failed(Error::ConnectionFailure(s)) && s@ == reason
}

pub open spec fn unexpected_reply() -> Seq<char> {
    "unexpected reply to authentication"@
}

pub open spec fn unconfirmed() -> Seq<char> {
    "subscription not confirmed"@
}

pub open spec fn has_channel(v: Seq<String>, x: Seq<char>) -> bool {
    exists|k: int| 0 <= k < v.len() && (#[trigger] v[k])@ == x
}

/// Every channel of `a` is among those of `b`.
pub open spec fn covers(a: Seq<String>, b: Seq<String>) -> bool {
    forall|i: int| 0 <= i < a.len() ==> has_channel(b, (#[trigger] a[i])@)
}

/// `a` and `b` name the same set of channels.
pub open spec fn same_channels(a: Seq<String>, b: Seq<String>) -> bool {
    covers(a, b) && covers(b, a)
}

/// What a session in phase `p` does with a decoded reply `r`.
///
/// The handshake goes on only on an authorization that grants access, and
/// then only on a `listening` reply that names the requested channels, in
/// any order. Once streaming, a frame that does not decode is reported as an
/// item and the stream goes on; a further subscription is answered by
/// whatever reply decodes.
pub open spec fn reply_step(p: Phase, c: Connection, r: Result<AlpacaMessage, DecodeError>, next: Phase, o: Output) -> bool {
    match p {
        Phase::Authenticating => match r {
            Ok(AlpacaMessage::Authorization { status: AuthorizationStatus::Authorized, .. }) =>
                next == Phase::Subscribing && sends(o, listen_action(c)),
            Ok(AlpacaMessage::Authorization { status: AuthorizationStatus::Unauthorized, action }) =>
                next == Phase::Closed && o == Output::Failed(Error::ConnectionFailure(action)),
            Ok(_) => next == Phase::Closed && fails_for(o, unexpected_reply()),
            Err(d) => next == Phase::Closed && o == Output::Failed(Error::Decode(d)),
        },
        Phase::Subscribing => match r {
            Ok(AlpacaMessage::Listening { streams }) => if same_channels(streams@, c.events@) {
                next == Phase::Streaming && o == Output::Ready
            } else {
                next == Phase::Closed && fails_for(o, unconfirmed())
            },
            Ok(_) => next == Phase::Closed && fails_for(o, unconfirmed()),
            Err(d) => next == Phase::Closed && o == Output::Failed(Error::Decode(d)),
        },
        Phase::Streaming => next == Phase::Streaming && o == Output::Item(
            match r {
                Ok(m) => Ok(m),
                Err(d) => Err(Error::Decode(d)),
            },
        ),
        Phase::Resubscribing => match r {
            Ok(_) => next == Phase::Streaming && o == Output::Subscribed,
            Err(d) => next == Phase::Closed && o == Output::Failed(Error::Decode(d)),
        },
        _ => false,
    }
}

/// What a session in phase `p`, for the connection `c`, does on the input
/// `i`: it moves to `next` and answers `o`.
pub open spec fn phase_step(p: Phase, c: Connection, i: Input, next: Phase, o: Output) -> bool {
    match p {
        Phase::Closed => next == Phase::Closed && o == Output::End,
        Phase::Connecting => match i {
            Input::Opened => next == Phase::Authenticating && sends(o, auth_action(c)),
            Input::Failed(e) => next == Phase::Closed && o == Output::Failed(Error::Transport(e)),
            _ => next == Phase::Closed && o == Output::Failed(Error::StreamClosed),
        },
        _ => match i {
            Input::Opened => next == p && o == Output::Receive,
            Input::Control => next == p && o == Output::Receive,
            Input::Failed(e) => next == Phase::Closed && o == if p == Phase::Streaming {
                Output::Item(Err(Error::Transport(e)))
            } else {
                Output::Failed(Error::Transport(e))
            },
            Input::Ended => next == Phase::Closed && o == if p == Phase::Streaming {
                Output::Item(Err(Error::StreamClosed))
            } else {
                Output::Failed(Error::StreamClosed)
            },
            Input::Reply(r) => reply_step(p, c, r, next, o),
        },
    }
}

/// The texts that the output `o` sends.
pub open spec fn sent_by(o: Output) -> Seq<Seq<char>> {
    match o {
        Output::SendAndReceive(t) => seq![t@],
        _ => seq![],
    }
}

/// The handshake replies that the input `i` brings to a session in phase `p`.
pub open spec fn consumed(p: Phase, i: Input) -> nat {
    if (p == Phase::Authenticating || p == Phase::Subscribing) && i is Reply {
        1
    } else {
        0
    }
}

fn has_channel_exec(v: &Vec<String>, x: &String) -> (r: bool)
    ensures
        r == has_channel(v@, x@),
{
    let n = v.len();
    let mut k: usize = 0;
    while k < n
        invariant
            n == v@.len(),
            k <= n,
            forall|j: int| 0 <= j < k ==> (#[trigger] v@[j])@ != x@,
        decreases n - k,
    {
        if v[k] == *x {
            return true;
        }
        k = k + 1;
    }
    false
}

fn covers_exec(a: &Vec<String>, b: &Vec<String>) -> (r: bool)
    ensures
        r == covers(a@, b@),
{
    let n = a.len();
    let mut i: usize = 0;
    while i < n
        invariant
            n == a@.len(),
            i <= n,
            forall|j: int| 0 <= j < i ==> has_channel(b@, (#[trigger] a@[j])@),
        decreases n - i,
    {
        if !has_channel_exec(b, &a[i]) {
            return false;
        }
        i = i + 1;
    }
    true
}

/// `i` is what the frame `f` brings: a control frame is `Control`, and the
/// text or bytes of any other frame decode into a reply.
pub open spec fn frame_input(f: Frame, i: Input) -> bool {
    match f {
        Frame::Text(t) => i matches Input::Reply(r) && match json_of_text(t@) {
            Some(j) => decodes(j, r),
            None => r == Err::<AlpacaMessage, DecodeError>(DecodeError::Malformed),
        },
        Frame::Binary(b) => i matches Input::Reply(r) && match json_of_bytes(b@) {
            Some(j) => decodes(j, r),
            None => r == Err::<AlpacaMessage, DecodeError>(DecodeError::Malformed),
        },
        Frame::Control => i is Control,
    }
}

impl Session {
    pub closed spec fn phase(&self) -> Phase {
        self.phase
    }

    pub closed spec fn conn(&self) -> Connection {
        self.conn
    }

    /// The texts that the session has sent, in order.
    pub closed spec fn sent(&self) -> Seq<Seq<char>> {
        self.sent@
    }

    /// The replies that the handshake has consumed.
    pub closed spec fn replies(&self) -> nat {
        self.replies@
    }

    /// What has been sent and received agrees with the phase: the
    /// authentication first, the subscription once its reply is in, and one
    /// reply consumed for each.
    pub closed spec fn wf(&self) -> bool {
        let s = self.sent@;
        let n = self.replies@;
        let c = self.conn;
        &&& s.len() >= 1 ==> action_text(auth_action(c), s[0])
        &&& s.len() >= 2 ==> action_text(listen_action(c), s[1]) && n >= 1
        &&& n <= 2
        &&& n <= s.len()
        &&& match self.phase {
            Phase::Connecting => s.len() == 0,
            Phase::Authenticating => s.len() == 1 && n == 0,
            Phase::Subscribing => s.len() == 2 && n == 1,
            Phase::Streaming | Phase::Resubscribing => s.len() >= 2 && n == 2,
            Phase::Closed => true,
        }
    }

    /// `new` and `o` are what the session `old` becomes and answers on `i`.
    pub open spec fn stepped(old: Session, i: Input, new: Session, o: Output) -> bool {
        &&& phase_step(old.phase(), old.conn(), i, new.phase(), o)
        &&& new.conn() == old.conn()
        &&& new.sent() == old.sent() + sent_by(o)
        &&& new.replies() == old.replies() + consumed(old.phase(), i)
        &&& old.wf() ==> new.wf()
    }

    /// A session for one connection attempt, not yet connected.
    pub fn new(conn: Connection) -> (s: Session)
        ensures
            s.phase() == Phase::Connecting,
            s.conn() == conn,
            s.sent() == Seq::<Seq<char>>::empty(),
            s.replies() == 0,
            s.wf(),
    {
        Session { phase: Phase::Connecting, conn, sent: Ghost(Seq::empty()), replies: Ghost(0) }
    }

    /// The phase the session is in.
    pub fn current_phase(&self) -> (p: Phase)
        ensures
            p == self.phase(),
    {
        self.phase
    }

    /// The connection the session was made for.
    pub fn connection(&self) -> (c: &Connection)
        ensures
            *c == self.conn(),
    {
        &self.conn
    }

    /// Moves the session on by one input.
    pub fn step(&mut self, i: Input) -> (o: Output)
        ensures
            Session::stepped(*old(self), i, *final(self), o),
    {
        match self.phase {
            Phase::Closed => Output::End,
            Phase::Connecting => match i {
                Input::Opened => {
                    let t = encode_authenticate(&self.conn.key_id, &self.conn.secret_key);
                    self.phase = Phase::Authenticating;
                    self.sent = Ghost(self.sent@ + seq![t@]);
                    Output::SendAndReceive(t)
                },
                Input::Failed(e) => self.close_with(Output::Failed(Error::Transport(e))),
                _ => self.close_with(Output::Failed(Error::StreamClosed)),
            },
            p => match i {
                Input::Opened => Output::Receive,
                Input::Control => Output::Receive,
                Input::Failed(e) => {
                    if p == Phase::Streaming {
                        self.close_with(Output::Item(Err(Error::Transport(e))))
                    } else {
                        self.close_with(Output::Failed(Error::Transport(e)))
                    }
                },
                Input::Ended => {
                    if p == Phase::Streaming {
                        self.close_with(Output::Item(Err(Error::StreamClosed)))
                    } else {
                        self.close_with(Output::Failed(Error::StreamClosed))
                    }
                },
                Input::Reply(r) => self.on_reply(r),
            },
        }
    }

    fn on_reply(&mut self, r: Result<AlpacaMessage, DecodeError>) -> (o: Output)
        requires
            old(self).phase() != Phase::Connecting,
            old(self).phase() != Phase::Closed,
        ensures
            Session::stepped(*old(self), Input::Reply(r), *final(self), o),
    {
        match self.phase {
            Phase::Authenticating => {
                self.replies = Ghost(self.replies@ + 1);
                match r {
                    Ok(AlpacaMessage::Authorization { status, action }) => match status {
                        AuthorizationStatus::Authorized => {
                            let t = encode_listen(&self.conn.events);
                            self.phase = Phase::Subscribing;
                            self.sent = Ghost(self.sent@ + seq![t@]);
                            Output::SendAndReceive(t)
                        },
                        AuthorizationStatus::Unauthorized => self.close_with(
                            Output::Failed(Error::ConnectionFailure(action)),
                        ),
                    },
                    Ok(_) => self.close_with(
                        Output::Failed(Error::ConnectionFailure(String::from_str("unexpected reply to authentication"))),
                    ),
                    Err(d) => self.close_with(Output::Failed(Error::Decode(d))),
                }
            },
            Phase::Subscribing => {
                self.replies = Ghost(self.replies@ + 1);
                match r {
                    Ok(AlpacaMessage::Listening { streams }) => {
                        if covers_exec(&streams, &self.conn.events) && covers_exec(&self.conn.events, &streams) {
                            self.phase = Phase::Streaming;
                            Output::Ready
                        } else {
                            self.close_with(
                                Output::Failed(Error::ConnectionFailure(String::from_str("subscription not confirmed"))),
                            )
                        }
                    },
                    Ok(_) => self.close_with(
                        Output::Failed(Error::ConnectionFailure(String::from_str("subscription not confirmed"))),
                    ),
                    Err(d) => self.close_with(Output::Failed(Error::Decode(d))),
                }
            },
            Phase::Streaming => Output::Item(
                match r {
                    Ok(m) => Ok(m),
                    Err(d) => Err(Error::Decode(d)),
                },
            ),
            _ => match r {
                Ok(_) => {
                    self.phase = Phase::Streaming;
                    Output::Subscribed
                },
                Err(d) => self.close_with(Output::Failed(Error::Decode(d))),
            },
        }
    }

    /// Moves the session on by one frame: a control frame is passed over, and
    /// a text or binary frame is decoded into the reply it carries.
    pub fn on_frame(&mut self, f: Frame) -> (o: Output)
        ensures
            exists|i: Input| frame_input(f, i) && Session::stepped(*old(self), i, *final(self), o),
    {
        let i = match f {
            Frame::Text(t) => Input::Reply(AlpacaMessage::decode(t.as_str())),
            Frame::Binary(b) => Input::Reply(AlpacaMessage::decode_bytes(b.as_slice())),
            Frame::Control => Input::Control,
        };
        let ghost gi = i;
        let o = self.step(i);
        assert(frame_input(f, gi));
        o
    }

    /// Asks a streaming session for the further channels `streams`: the
    /// request is sent, and the next reply answers it.
    pub fn subscribe(&mut self, streams: &Vec<String>) -> (o: Output)
        ensures
            final(self).conn() == old(self).conn(),
            final(self).replies() == old(self).replies(),
            final(self).sent() == old(self).sent() + sent_by(o),
            old(self).wf() ==> final(self).wf(),
            old(self).phase() == Phase::Streaming ==> final(self).phase() == Phase::Resubscribing
                && sends(o, AlpacaAction::Listen { streams: *streams }),
            old(self).phase() == Phase::Closed ==> *final(self) == *old(self)
                && o == Output::Failed(Error::StreamClosed),
            old(self).phase() != Phase::Streaming && old(self).phase() != Phase::Closed
                ==> *final(self) == *old(self) && o == Output::Failed(Error::UninitializedClient),
    {
        match self.phase {
            Phase::Streaming => {
                let t = encode_listen(streams);
                self.phase = Phase::Resubscribing;
                self.sent = Ghost(self.sent@ + seq![t@]);
                Output::SendAndReceive(t)
            },
            Phase::Closed => Output::Failed(Error::StreamClosed),
            _ => Output::Failed(Error::UninitializedClient),
        }
    }

    fn close_with(&mut self, o: Output) -> (r: Output)
        ensures
            final(self).phase() == Phase::Closed,
            final(self).conn() == old(self).conn(),
            final(self).sent() == old(self).sent(),
            final(self).replies() == old(self).replies(),
            r == o,
    {
        self.phase = Phase::Closed;
        o
    }
}

/// In every state that a session reaches, the first text it has sent is the
/// authentication and the second the subscription; the subscription went out
/// only once exactly one reply, the one to the authentication, was consumed;
/// and a streaming session has consumed exactly one reply to each.
pub proof fn lemma_handshake_ordering(s: Session)
    requires
        s.wf(),
    ensures
        s.sent().len() >= 1 ==> action_text(auth_action(s.conn()), s.sent()[0]),
        s.sent().len() >= 2 ==> action_text(listen_action(s.conn()), s.sent()[1]),
        s.sent().len() >= 2 ==> s.replies() >= 1,
        s.phase() == Phase::Connecting ==> s.sent().len() == 0,
        s.phase() == Phase::Authenticating ==> s.sent().len() == 1 && s.replies() == 0,
        s.phase() == Phase::Subscribing ==> s.sent().len() == 2 && s.replies() == 1,
        s.phase() == Phase::Streaming ==> s.sent().len() >= 2 && s.replies() == 2,
{
}

/// A closed session stays closed: whatever comes, it answers `End` and sends
/// nothing.
pub proof fn lemma_closed_is_final(s: Session, i: Input, s2: Session, o: Output)
    requires
        s.phase() == Phase::Closed,
        Session::stepped(s, i, s2, o),
    ensures
        s2.phase() == Phase::Closed,
        o == Output::End,
        s2.sent() == s.sent(),
{
    assert(s.sent() + sent_by(o) =~= s.sent());
}

/// When the server refuses the authentication, the session fails with the
/// server's `action`, has sent the authentication alone, and is closed, so
/// that it never sends a subscription.
pub proof fn lemma_authorization_gate(s: Session, action: String, s2: Session, o: Output)
    requires
        s.wf(),
        s.phase() == Phase::Authenticating,
        Session::stepped(
            s,
            Input::Reply(Ok(AlpacaMessage::Authorization { status: AuthorizationStatus::Unauthorized, action })),
            s2,
            o,
        ),
    ensures
        o == Output::Failed(Error::ConnectionFailure(action)),
        s2.phase() == Phase::Closed,
        s2.sent().len() == 1,
        forall|i: Input, s3: Session, o3: Output| #[trigger] Session::stepped(s2, i, s3, o3)
            ==> s3.phase() == Phase::Closed && o3 == Output::End && s3.sent() == s2.sent(),
{
    assert forall|i: Input, s3: Session, o3: Output| #[trigger] Session::stepped(s2, i, s3, o3)
        implies s3.phase() == Phase::Closed && o3 == Output::End && s3.sent() == s2.sent() by {
        lemma_closed_is_final(s2, i, s3, o3);
    }
}

/// When the connection of a streaming session ends or fails, the next output
/// is one error item, and every output after it is `End`.
pub proof fn lemma_closure_surfacing(s: Session, i: Input, s2: Session, o: Output)
    requires
        s.phase() == Phase::Streaming,
        i is Ended || i is Failed,
        Session::stepped(s, i, s2, o),
    ensures
        o matches Output::Item(Err(_)),
        s2.phase() == Phase::Closed,
        forall|j: Input, s3: Session, o3: Output| #[trigger] Session::stepped(s2, j, s3, o3)
            ==> s3.phase() == Phase::Closed && o3 == Output::End,
{
    assert forall|j: Input, s3: Session, o3: Output| #[trigger] Session::stepped(s2, j, s3, o3)
        implies s3.phase() == Phase::Closed && o3 == Output::End by {
        lemma_closed_is_final(s2, j, s3, o3);
    }
}

} // verus!
