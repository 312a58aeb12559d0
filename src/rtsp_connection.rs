//! One control channel to a peer, as a state machine that performs no I/O.
//!
//! The connection decides; a driver around it owns the socket. The driver dials
//! when `connect` accepts, reports the outcome with `connect_result`, writes out
//! what `take_output` hands it, and passes on what it reads with `feed_input`.
//!
//! ```text
//! Created --connect--> Connecting --connect_result(Success)--> Connected --close--> Closed
//!             ^              |
//!             +--(Etimeout)--+   (any other failure, or the peer leaving: Closed)
//! ```
use vstd::prelude::*;

use crate::enums::{RTSPAuthMethod, RTSPMethod, RTSPResult};
use crate::rtsp_message::{incoming, message_bytes, read_wire, Incoming, MessageView, RTSPMessage, WireRead};
use crate::rtsp_url::{opt_chars, RTSPUrl, UrlView};
use crate::text::{chars_of, find, lemma_find_char_bounds};
use vstd::string::{StrSliceExecFns, StringSliceAdditionalSpecFns};

verus! {

/// Where a connection is in its life.
#[derive(Clone, Copy, Debug, PartialEq, Eq, Structural)]
pub enum ConnState {
    /// Bound to a URL; no I/O has happened.
    Created,
    /// The driver is dialing, or performing the handshakes.
    Connecting,
    Connected,
    /// Closed by the caller, by the peer, or by a failure that cannot be retried.
    Closed,
}

/// Progress of HTTP tunneling: a half is set up by its GET or POST request,
/// and the GET half takes over the POST half when they are paired.
#[derive(Clone, Copy, Debug, PartialEq, Eq, Structural)]
pub enum TunnelState {
    Idle,
    Get,
    Post,
    Paired,
}

/// Readiness to read and to write.
#[derive(Clone, Copy, Debug, PartialEq, Eq, Structural)]
pub struct RTSPEvent {
    pub read: bool,
    pub write: bool,
}

/// The default validation of peer certificates: every check.
pub const TLS_VALIDATE_ALL: u32 = 0x7f;

/// The default keep-alive period, in microseconds.
pub const DEFAULT_TIMEOUT_USEC: i64 = 60_000_000;

/// What a connection holds.
pub struct ConnView {
    pub url: UrlView,
    pub state: ConnState,
    pub tunneled: bool,
    pub http_mode: bool,
    pub remember_session_id: bool,
    pub ignore_x_server_reply: bool,
    pub proxy: Option<(Seq<char>, u32)>,
    pub auth_method: RTSPAuthMethod,
    pub auth_user: Option<Seq<char>>,
    pub auth_pass: Option<Seq<char>>,
    pub auth_params: Seq<(Seq<char>, Seq<char>)>,
    pub ip: Option<Seq<char>>,
    pub qos_dscp: u32,
    pub content_length_limit: u32,
    pub extra_http_headers: Seq<(Seq<char>, Seq<char>)>,
    pub tls_validation_flags: u32,
    pub tunnel_state: TunnelState,
    pub tunnel_id: Option<Seq<char>>,
    pub timeout: i64,
    pub elapsed: u64,
    pub output: Seq<u8>,
    pub input: Seq<u8>,
}

/// A control channel to one peer.
#[derive(Debug)]
pub struct RTSPConnection {
    url: RTSPUrl,
    state: ConnState,
    tunneled: bool,
    http_mode: bool,
    remember_session_id: bool,
    ignore_x_server_reply: bool,
    proxy: Option<(String, u32)>,
    auth_method: RTSPAuthMethod,
    auth_user: Option<String>,
    auth_pass: Option<String>,
    auth_params: Vec<(String, String)>,
    ip: Option<String>,
    qos_dscp: u32,
    content_length_limit: u32,
    extra_http_headers: Vec<(String, String)>,
    tls_validation_flags: u32,
    tunnel_state: TunnelState,
    tunnel_id: Option<String>,
    timeout: i64,
    elapsed: u64,
    output: Vec<u8>,
    input: Vec<u8>,
}

pub open spec fn pair_view(p: (String, String)) -> (Seq<char>, Seq<char>) {
    (p.0@, p.1@)
}

pub open spec fn proxy_view(p: Option<(String, u32)>) -> Option<(Seq<char>, u32)> {
    match p {
        Some((h, port)) => Some((h@, port)),
        None => None,
    }
}

impl View for RTSPConnection {
    type V = ConnView;

    closed spec fn view(&self) -> ConnView {
        ConnView {
            url: self.url@,
            state: self.state,
            tunneled: self.tunneled,
            http_mode: self.http_mode,
            remember_session_id: self.remember_session_id,
            ignore_x_server_reply: self.ignore_x_server_reply,
            proxy: proxy_view(self.proxy),
            auth_method: self.auth_method,
            auth_user: opt_chars(self.auth_user),
            auth_pass: opt_chars(self.auth_pass),
            auth_params: self.auth_params@.map_values(|p: (String, String)| pair_view(p)),
            ip: opt_chars(self.ip),
            qos_dscp: self.qos_dscp,
            content_length_limit: self.content_length_limit,
            extra_http_headers: self.extra_http_headers@.map_values(
                |p: (String, String)| pair_view(p),
            ),
            tls_validation_flags: self.tls_validation_flags,
            tunnel_state: self.tunnel_state,
            tunnel_id: opt_chars(self.tunnel_id),
            timeout: self.timeout,
            elapsed: self.elapsed,
            output: self.output@,
            input: self.input@,
        }
    }
}

/// A fresh connection to `url`: nothing configured, nothing pending.
pub open spec fn created_view(url: UrlView) -> ConnView {
    ConnView {
        url,
        state: ConnState::Created,
        tunneled: false,
        http_mode: false,
        remember_session_id: false,
        ignore_x_server_reply: false,
        proxy: None,
        auth_method: RTSPAuthMethod::NoAuth,
        auth_user: None,
        auth_pass: None,
        auth_params: Seq::empty(),
        ip: None,
        qos_dscp: 0,
        content_length_limit: 0xffff_ffff,
        extra_http_headers: Seq::empty(),
        tls_validation_flags: TLS_VALIDATE_ALL,
        tunnel_state: TunnelState::Idle,
        tunnel_id: None,
        timeout: DEFAULT_TIMEOUT_USEC,
        elapsed: 0,
        output: Seq::empty(),
        input: Seq::empty(),
    }
}

/// The error of an I/O operation in state `s`, if it may not go ahead:
/// `Enotconn` before the connection is established, `Eeof` once it is closed.
pub open spec fn io_refusal(s: ConnState) -> Option<RTSPResult> {
    match s {
        ConnState::Connected => None,
        ConnState::Closed => Some(RTSPResult::Eeof),
        _ => Some(RTSPResult::Enotconn),
    }
}

/// The concatenated wire bytes of `ms`.
pub open spec fn messages_bytes(ms: Seq<RTSPMessage>) -> Seq<u8>
    decreases ms.len(),
{
    if ms.len() == 0 {
        Seq::empty()
    } else {
        messages_bytes(ms.drop_last()) + message_bytes(ms.last()@)
    }
}

/// Whether `user` can travel in credentials: it may not hold a `:`.
pub open spec fn user_is_valid(user: Seq<char>) -> bool {
    forall|i: int| 0 <= i < user.len() ==> user[i] != ':'
}

/// The auth parameters after setting `name` to `value`: replaced in place when
/// the name is there, appended otherwise.
pub open spec fn params_set(
    ps: Seq<(Seq<char>, Seq<char>)>,
    name: Seq<char>,
    value: Seq<char>,
) -> Seq<(Seq<char>, Seq<char>)> {
    if exists|i: int| 0 <= i < ps.len() && (#[trigger] ps[i]).0 == name {
        let i = choose|i: int| 0 <= i < ps.len() && (#[trigger] ps[i]).0 == name && forall|j: int|
            0 <= j < i ==> ps[j].0 != name;
        ps.update(i, (name, value))
    } else {
        ps.push((name, value))
    }
}

/// What a successful `read` of `n` bytes does: as many bytes as fit move from
/// the input to the front of the buffer.
pub open spec fn read_result(c: ConnView, buf: Seq<u8>, n: usize, c2: ConnView, buf2: Seq<u8>) -> bool {
    &&& n == (if buf.len() < c.input.len() {
        buf.len()
    } else {
        c.input.len()
    })
    &&& buf2.len() == buf.len()
    &&& buf2.subrange(0, n as int) == c.input.subrange(0, n as int)
    &&& buf2.subrange(n as int, buf2.len() as int) == buf.subrange(n as int, buf.len() as int)
    &&& c2 == (ConnView { input: c.input.subrange(n as int, c.input.len() as int), ..c })
}

/// What `connect` does: refuse on an established connection (`Eisconn`), on a
/// closed one (`Eeof`), or for a negative timeout (`Einval`); otherwise start
/// connecting.
pub open spec fn connect_step(c: ConnView, timeout: i64) -> (ConnView, Result<(), RTSPResult>) {
    match c.state {
        ConnState::Connected => (c, Err(RTSPResult::Eisconn)),
        ConnState::Closed => (c, Err(RTSPResult::Eeof)),
        _ => if timeout < 0 {
            (c, Err(RTSPResult::Einval))
        } else {
            (ConnView { state: ConnState::Connecting, ..c }, Ok(()))
        },
    }
}

/// What `connect_result` does with the driver's report on an attempt.
pub open spec fn connect_result_step(c: ConnView, outcome: RTSPResult) -> (
    ConnView,
    Result<(), RTSPResult>,
) {
    if c.state != ConnState::Connecting {
        (c, Err(RTSPResult::Einval))
    } else if outcome == RTSPResult::Success {
        (ConnView { state: ConnState::Connected, elapsed: 0, ..c }, Ok(()))
    } else if outcome == RTSPResult::Etimeout {
        (ConnView { state: ConnState::Created, ..c }, Err(RTSPResult::Etimeout))
    } else {
        (ConnView { state: ConnState::Closed, ..c }, Err(outcome))
    }
}

/// A timeout is not final: after an attempt ends in `Etimeout`, the
/// connection is back where it started, and `connect` accepts it again.
pub proof fn timeout_allows_retry(c: ConnView, timeout: i64)
    requires
        c.state == ConnState::Connecting,
        timeout >= 0,
    ensures
        connect_result_step(c, RTSPResult::Etimeout).1 == Err::<(), RTSPResult>(RTSPResult::Etimeout),
        connect_result_step(c, RTSPResult::Etimeout).0.state == ConnState::Created,
        connect_step(connect_result_step(c, RTSPResult::Etimeout).0, timeout).1 is Ok,
        connect_step(connect_result_step(c, RTSPResult::Etimeout).0, timeout).0.state
            == ConnState::Connecting,
{
}

/// A connection that was never established refuses every I/O operation with
/// `Enotconn`, and never waits.
pub proof fn fresh_connection_refuses_io(url: UrlView)
    ensures
        io_refusal(created_view(url).state) == Some(RTSPResult::Enotconn),
{
}

fn error_of(e: RTSPResult) -> (r: Result<(), RTSPResult>)
    ensures
        r == Err::<(), RTSPResult>(e),
{
    Err(e)
}

impl RTSPConnection {
    /// A connection bound to `url`. No I/O happens.
    pub fn create(url: &RTSPUrl) -> (r: Result<RTSPConnection, RTSPResult>)
        ensures
            r matches Ok(c) && c@ == created_view(url@),
    {
        let c = RTSPConnection {
            url: url.copy(),
            state: ConnState::Created,
            tunneled: false,
            http_mode: false,
            remember_session_id: false,
            ignore_x_server_reply: false,
            proxy: None,
            auth_method: RTSPAuthMethod::NoAuth,
            auth_user: None,
            auth_pass: None,
            auth_params: Vec::new(),
            ip: None,
            qos_dscp: 0,
            content_length_limit: 0xffff_ffff,
            extra_http_headers: Vec::new(),
            tls_validation_flags: TLS_VALIDATE_ALL,
            tunnel_state: TunnelState::Idle,
            tunnel_id: None,
            timeout: DEFAULT_TIMEOUT_USEC,
            elapsed: 0,
            output: Vec::new(),
            input: Vec::new(),
        };
        assert(c@.auth_params =~= Seq::empty());
        assert(c@.extra_http_headers =~= Seq::empty());
        Ok(c)
    }

    /// A connection on a socket that a listener accepted from the peer at
    /// `ip`:`port`: established from the start, bound to `rtsp://ip:port/`,
    /// with `initial_buffer` as bytes already read from it.
    pub fn create_from_socket(ip: &str, port: u16, initial_buffer: Option<&str>) -> (r: Result<
        RTSPConnection,
        RTSPResult,
    >)
        ensures
            r matches Ok(c) && c@ == (ConnView {
                state: ConnState::Connected,
                ip: Some(ip@),
                input: match initial_buffer {
                    Some(b) => b.spec_bytes(),
                    None => Seq::empty(),
                },
                ..created_view(RTSPUrl::for_peer_view(ip@, port))
            }),
    {
        let url = RTSPUrl::for_peer(ip, port);
        let mut c = match RTSPConnection::create(&url) {
            Ok(c) => c,
            Err(e) => {
                return Err(e);
            },
        };
        c.state = ConnState::Connected;
        c.ip = Some(ip.to_owned());
        match initial_buffer {
            Some(b) => {
                c.input = b.as_bytes_vec();
            },
            None => {},
        }
        Ok(c)
    }

    /// Starts establishing the connection within `timeout` microseconds: the
    /// driver dials when this returns `Ok`. Refused on an established
    /// connection (`Eisconn`), on a closed one (`Eeof`), and for a negative
    /// timeout (`Einval`). A connection whose last attempt timed out may try again.
    pub fn connect(&mut self, timeout: i64) -> (r: Result<(), RTSPResult>)
        ensures
            (final(self)@, r) == connect_step(old(self)@, timeout),
    {
        match self.state {
            ConnState::Connected => error_of(RTSPResult::Eisconn),
            ConnState::Closed => error_of(RTSPResult::Eeof),
            _ => {
                if timeout < 0 {
                    error_of(RTSPResult::Einval)
                } else {
                    self.state = ConnState::Connecting;
                    Ok(())
                }
            },
        }
    }

    /// The driver's report on an attempt that `connect` started. `Success`
    /// establishes the connection; `Etimeout` leaves it ready for another
    /// attempt; any other failure closes it. Outside an attempt nothing changes
    /// and `Einval` comes back.
    pub fn connect_result(&mut self, outcome: RTSPResult) -> (r: Result<(), RTSPResult>)
        ensures
            (final(self)@, r) == connect_result_step(old(self)@, outcome),
    {
        if self.state != ConnState::Connecting {
            return error_of(RTSPResult::Einval);
        }
        match outcome {
            RTSPResult::Success => {
                self.state = ConnState::Connected;
                self.elapsed = 0;
                Ok(())
            },
            RTSPResult::Etimeout => {
                self.state = ConnState::Created;
                error_of(RTSPResult::Etimeout)
            },
            _ => {
                self.state = ConnState::Closed;
                error_of(outcome)
            },
        }
    }

    /// Closes the connection, dropping what was not written out. A connection
    /// that was never established, or is already closed, gives `Enotconn`.
    pub fn close(&mut self) -> (r: Result<(), RTSPResult>)
        ensures
            (old(self)@.state == ConnState::Connected || old(self)@.state == ConnState::Connecting)
                ==> r is Ok && final(self)@ == (ConnView {
                state: ConnState::Closed,
                output: Seq::empty(),
                input: Seq::empty(),
                ..old(self)@
            }),
            (old(self)@.state == ConnState::Created || old(self)@.state == ConnState::Closed) ==> r
                == Err::<(), RTSPResult>(RTSPResult::Enotconn) && final(self)@ == old(self)@,
    {
        match self.state {
            ConnState::Connected | ConnState::Connecting => {
                self.state = ConnState::Closed;
                self.output = Vec::new();
                self.input = Vec::new();
                Ok(())
            },
            _ => error_of(RTSPResult::Enotconn),
        }
    }

    /// The peer closed or reset the connection.
    pub fn peer_closed(&mut self)
        ensures
            final(self)@ == (ConnView { state: ConnState::Closed, ..old(self)@ }),
    {
        self.state = ConnState::Closed;
    }

    /// Queues the wire bytes of `message` for the driver to write.
    pub fn send(&mut self, message: &RTSPMessage, timeout: i64) -> (r: Result<(), RTSPResult>)
        ensures
            io_refusal(old(self)@.state) matches Some(e) ==> r == Err::<(), RTSPResult>(e)
                && final(self)@ == old(self)@,
            io_refusal(old(self)@.state) is None ==> r is Ok && final(self)@ == (ConnView {
                output: old(self)@.output + message_bytes(message@),
                ..old(self)@
            }),
    {
        match self.state {
            ConnState::Connected => {},
            ConnState::Closed => {
                return error_of(RTSPResult::Eeof);
            },
            _ => {
                return error_of(RTSPResult::Enotconn);
            },
        }
        let bytes = message.to_bytes();
        self.queue_output(&bytes);
        Ok(())
    }

    /// Queues the wire bytes of every message, in order; on success all of them
    /// were queued and their number comes back.
    pub fn send_messages(&mut self, messages: &[RTSPMessage], timeout: i64) -> (r: Result<
        usize,
        RTSPResult,
    >)
        ensures
            io_refusal(old(self)@.state) matches Some(e) ==> r == Err::<usize, RTSPResult>(e)
                && final(self)@ == old(self)@,
            io_refusal(old(self)@.state) is None ==> (r matches Ok(n) && n == messages@.len())
                && final(self)@ == (ConnView {
                output: old(self)@.output + messages_bytes(messages@),
                ..old(self)@
            }),
    {
        match self.state {
            ConnState::Connected => {},
            ConnState::Closed => {
                return Err(RTSPResult::Eeof);
            },
            _ => {
                return Err(RTSPResult::Enotconn);
            },
        }
        let n = messages.len();
        let mut i: usize = 0;
        while i < n
            invariant
                n == messages@.len(),
                i <= n,
                self@ == (ConnView {
                    output: old(self)@.output + messages_bytes(messages@.take(i as int)),
                    ..old(self)@
                }),
            decreases n - i,
        {
            let bytes = messages[i].to_bytes();
            self.queue_output(&bytes);
            assert(messages@.take(i as int + 1).drop_last() =~= messages@.take(i as int));
            i = i + 1;
            assert(self@.output =~= old(self)@.output + messages_bytes(messages@.take(i as int)));
        }
        assert(messages@.take(n as int) =~= messages@);
        Ok(n)
    }

    fn queue_output(&mut self, bytes: &Vec<u8>)
        ensures
            final(self)@ == (ConnView { output: old(self)@.output + bytes@, ..old(self)@ }),
    {
        let n = bytes.len();
        let mut i: usize = 0;
        while i < n
            invariant
                n == bytes@.len(),
                i <= n,
                self@ == (ConnView {
                    output: old(self)@.output + bytes@.subrange(0, i as int),
                    ..old(self)@
                }),
            decreases n - i,
        {
            self.output.push(bytes[i]);
            i = i + 1;
            assert(self@.output =~= old(self)@.output + bytes@.subrange(0, i as int));
        }
        assert(bytes@.subrange(0, n as int) =~= bytes@);
    }

    /// Takes the next message from what was received. Without a complete
    /// message the call would block: `Etimeout`, with nothing consumed. A head
    /// that is not a message gives `Eparse`; a body longer than the content
    /// length limit gives `Enomem` before any of it is taken.
    pub fn receive(&mut self, message: &mut RTSPMessage, timeout: i64) -> (r: Result<(), RTSPResult>)
        ensures
            io_refusal(old(self)@.state) matches Some(e) ==> r == Err::<(), RTSPResult>(e)
                && final(self)@ == old(self)@ && final(message)@ == old(message)@,
            io_refusal(old(self)@.state) is None ==> match incoming(old(self)@.input) {
                Incoming::Incomplete => r == Err::<(), RTSPResult>(RTSPResult::Etimeout)
                    && final(self)@ == old(self)@ && final(message)@ == old(message)@,
                Incoming::Malformed => r == Err::<(), RTSPResult>(RTSPResult::Eparse)
                    && final(self)@ == old(self)@ && final(message)@ == old(message)@,
                Incoming::Complete(m, h, n) => if n > old(self)@.content_length_limit {
                    r == Err::<(), RTSPResult>(RTSPResult::Enomem) && final(self)@ == old(self)@
                        && final(message)@ == old(message)@
                } else if h + n > old(self)@.input.len() {
                    r == Err::<(), RTSPResult>(RTSPResult::Etimeout) && final(self)@ == old(self)@
                        && final(message)@ == old(message)@
                } else {
                    r is Ok && final(message)@ == (MessageView {
                        body: old(self)@.input.subrange(h as int, (h + n) as int),
                        ..m
                    }) && final(self)@ == (ConnView {
                        input: old(self)@.input.subrange((h + n) as int, old(self)@.input.len() as int),
                        ..old(self)@
                    })
                },
            },
    {
        match self.state {
            ConnState::Connected => {},
            ConnState::Closed => {
                return error_of(RTSPResult::Eeof);
            },
            _ => {
                return error_of(RTSPResult::Enotconn);
            },
        }
        match read_wire(&self.input) {
            WireRead::Incomplete => error_of(RTSPResult::Etimeout),
            WireRead::Malformed => error_of(RTSPResult::Eparse),
            WireRead::Complete(mut m, h, n) => {
                if n > self.content_length_limit {
                    return error_of(RTSPResult::Enomem);
                }
                let avail = self.input.len();
                if h > avail || (n as usize) > avail - h {
                    return error_of(RTSPResult::Etimeout);
                }
                let end = h + n as usize;
                let mut body: Vec<u8> = Vec::new();
                let mut i: usize = h;
                while i < end
                    invariant
                        h <= i <= end <= self.input@.len(),
                        body@ == self.input@.subrange(h as int, i as int),
                    decreases end - i,
                {
                    body.push(self.input[i]);
                    i = i + 1;
                    assert(body@ =~= self.input@.subrange(h as int, i as int));
                }
                m.set_body(body.as_slice());
                *message = m;
                let rest = self.input.split_off(end);
                self.input = rest;
                Ok(())
            },
        }
    }

    /// Copies into `data` as many received bytes as fit, and drops them from
    /// the input. With nothing received yet the call would block: `Etimeout`.
    pub fn read(&mut self, data: &mut [u8], timeout: i64) -> (r: Result<usize, RTSPResult>)
        ensures
            final(data)@.len() == old(data)@.len(),
            io_refusal(old(self)@.state) matches Some(e) ==> r == Err::<usize, RTSPResult>(e)
                && final(self)@ == old(self)@ && final(data)@ == old(data)@,
            io_refusal(old(self)@.state) is None && old(self)@.input.len() == 0 && old(data)@.len()
                > 0 ==> r == Err::<usize, RTSPResult>(RTSPResult::Etimeout) && final(self)@ == old(self)@ && final(data)@ == old(data)@,
            io_refusal(old(self)@.state) is None && (old(self)@.input.len() > 0 || old(data)@.len()
                == 0) ==> (r matches Ok(n) && read_result(old(self)@, old(data)@, n, final(self)@, final(data)@)),
    {
        match self.state {
            ConnState::Connected => {},
            ConnState::Closed => {
                return Err(RTSPResult::Eeof);
            },
            _ => {
                return Err(RTSPResult::Enotconn);
            },
        }
        let avail = self.input.len();
        let room = data.len();
        if avail == 0 && room > 0 {
            return Err(RTSPResult::Etimeout);
        }
        let n = if room < avail {
            room
        } else {
            avail
        };
        let mut i: usize = 0;
        while i < n
            invariant
                n <= data@.len(),
                n <= self.input@.len(),
                self@ == old(self)@,
                data@.len() == old(data)@.len(),
                i <= n,
                data@.subrange(0, i as int) == old(self)@.input.subrange(0, i as int),
                data@.subrange(n as int, data@.len() as int) == old(data)@.subrange(
                    n as int,
                    old(data)@.len() as int,
                ),
            decreases n - i,
        {
            data[i] = self.input[i];
            i = i + 1;
            assert(data@.subrange(0, i as int) =~= old(self)@.input.subrange(0, i as int));
            assert(data@.subrange(n as int, data@.len() as int) =~= old(data)@.subrange(
                n as int,
                old(data)@.len() as int,
            ));
        }
        let rest = self.input.split_off(n);
        self.input = rest;
        Ok(n)
    }

    /// Queues `data` for the driver to write; all of it is accepted.
    pub fn write(&mut self, data: &[u8], timeout: i64) -> (r: Result<usize, RTSPResult>)
        ensures
            io_refusal(old(self)@.state) matches Some(e) ==> r == Err::<usize, RTSPResult>(e)
                && final(self)@ == old(self)@,
            io_refusal(old(self)@.state) is None ==> (r matches Ok(n) && n == data@.len())
                && final(self)@ == (ConnView { output: old(self)@.output + data@, ..old(self)@ }),
    {
        match self.state {
            ConnState::Connected => {},
            ConnState::Closed => {
                return Err(RTSPResult::Eeof);
            },
            _ => {
                return Err(RTSPResult::Enotconn);
            },
        }
        let v = vstd::slice::slice_to_vec(data);
        self.queue_output(&v);
        Ok(data.len())
    }

    /// Which of the requested events can go ahead without waiting: reading
    /// when bytes have arrived, writing always.
    pub fn poll(&mut self, events: RTSPEvent, timeout: i64) -> (r: Result<RTSPEvent, RTSPResult>)
        ensures
            final(self)@ == old(self)@,
            io_refusal(old(self)@.state) matches Some(e) ==> r == Err::<RTSPEvent, RTSPResult>(e),
            io_refusal(old(self)@.state) is None ==> r == Ok::<RTSPEvent, RTSPResult>(
                RTSPEvent { read: events.read && old(self)@.input.len() > 0, write: events.write },
            ),
    {
        match self.state {
            ConnState::Connected => Ok(
                RTSPEvent { read: events.read && self.input.len() > 0, write: events.write },
            ),
            ConnState::Closed => Err(RTSPResult::Eeof),
            _ => Err(RTSPResult::Enotconn),
        }
    }

    /// With `discard`, drops what is waiting to be written; without, leaves it
    /// for the driver to drain. Never waits.
    pub fn flush(&mut self, discard: bool) -> (r: Result<(), RTSPResult>)
        ensures
            r is Ok,
            discard ==> final(self)@ == (ConnView { output: Seq::empty(), ..old(self)@ }),
            !discard ==> final(self)@ == old(self)@,
    {
        if discard {
            self.output = Vec::new();
        }
        Ok(())
    }

    /// Hands the bytes waiting to be written to the driver.
    pub fn take_output(&mut self) -> (r: Vec<u8>)
        ensures
            r@ == old(self)@.output,
            final(self)@ == (ConnView { output: Seq::empty(), ..old(self)@ }),
    {
        let out = self.output.split_off(0);
        assert(self.output@ =~= Seq::<u8>::empty());
        out
    }

    /// The driver read `data` from the peer.
    pub fn feed_input(&mut self, data: &[u8]) -> (r: Result<(), RTSPResult>)
        ensures
            io_refusal(old(self)@.state) matches Some(e) ==> r == Err::<(), RTSPResult>(e)
                && final(self)@ == old(self)@,
            io_refusal(old(self)@.state) is None ==> r is Ok && final(self)@ == (ConnView {
                input: old(self)@.input + data@,
                ..old(self)@
            }),
    {
        match self.state {
            ConnState::Connected => {},
            ConnState::Closed => {
                return error_of(RTSPResult::Eeof);
            },
            _ => {
                return error_of(RTSPResult::Enotconn);
            },
        }
        let n = data.len();
        let mut i: usize = 0;
        while i < n
            invariant
                n == data@.len(),
                i <= n,
                self@ == (ConnView {
                    input: old(self)@.input + data@.subrange(0, i as int),
                    ..old(self)@
                }),
            decreases n - i,
        {
            self.input.push(data[i]);
            i = i + 1;
            assert(self@.input =~= old(self)@.input + data@.subrange(0, i as int));
        }
        assert(data@.subrange(0, n as int) =~= data@);
        Ok(())
    }

    /// Records the credentials to answer an authentication challenge with.
    /// A user name holding `:` cannot be sent and gives `Einval`; `NoAuth`
    /// forgets the credentials.
    pub fn set_auth(&mut self, method: RTSPAuthMethod, user: &str, pass: &str) -> (r: Result<
        (),
        RTSPResult,
    >)
        ensures
            method == RTSPAuthMethod::NoAuth ==> r is Ok && final(self)@ == (ConnView {
                auth_method: method,
                auth_user: None,
                auth_pass: None,
                ..old(self)@
            }),
            method != RTSPAuthMethod::NoAuth && !user_is_valid(user@) ==> r == Err::<(), RTSPResult>(
                RTSPResult::Einval,
            ) && final(self)@ == old(self)@,
            method != RTSPAuthMethod::NoAuth && user_is_valid(user@) ==> r is Ok && final(self)@ == (
            ConnView {
                auth_method: method,
                auth_user: Some(user@),
                auth_pass: Some(pass@),
                ..old(self)@
            }),
    {
        if method == RTSPAuthMethod::NoAuth {
            self.auth_method = method;
            self.auth_user = None;
            self.auth_pass = None;
            return Ok(());
        }
        let u = chars_of(user);
        let colon = find(&u, 0, u.len(), ':');
        if colon < u.len() {
            return error_of(RTSPResult::Einval);
        }
        proof {
            lemma_find_char_bounds(u@, 0, u@.len() as int, ':');
        }
        self.auth_method = method;
        self.auth_user = Some(user.to_owned());
        self.auth_pass = Some(pass.to_owned());
        Ok(())
    }

    /// Sets an authentication parameter, such as the realm or nonce of a
    /// digest challenge; a parameter of the same name is replaced.
    pub fn set_auth_param(&mut self, param: &str, value: &str)
        ensures
            final(self)@ == (ConnView {
                auth_params: params_set(old(self)@.auth_params, param@, value@),
                ..old(self)@
            }),
    {
        let ghost ps = self@.auth_params;
        let key = param.to_owned();
        let n = self.auth_params.len();
        let mut i: usize = 0;
        while i < n
            invariant
                n == self.auth_params@.len(),
                self@ == old(self)@,
                ps == self@.auth_params,
                key@ == param@,
                i <= n,
                forall|j: int| 0 <= j < i ==> ps[j].0 != param@,
            decreases n - i,
        {
            assert(ps[i as int] == pair_view(self.auth_params@[i as int]));
            if self.auth_params[i].0 == key {
                let ghost k = choose|k: int| 0 <= k < ps.len() && (#[trigger] ps[k]).0 == param@
                    && forall|j: int| 0 <= j < k ==> ps[j].0 != param@;
                assert(k == i) by {
                    if k < i {
                    } else if k > i {
                        assert(ps[i as int].0 == param@);
                    }
                }
                self.auth_params.set(i, (key, value.to_owned()));
                assert(self@.auth_params =~= ps.update(i as int, (param@, value@)));
                return;
            }
            i = i + 1;
        }
        self.auth_params.push((key, value.to_owned()));
        assert(self@.auth_params =~= ps.push((param@, value@)));
    }

    /// Forgets every authentication parameter.
    pub fn clear_auth_params(&mut self)
        ensures
            final(self)@ == (ConnView { auth_params: Seq::empty(), ..old(self)@ }),
    {
        self.auth_params = Vec::new();
        assert(self@.auth_params =~= Seq::empty());
    }

    /// Sends the connection through the HTTP proxy at `host`:`port`.
    pub fn set_proxy(&mut self, host: &str, port: u32) -> (r: Result<(), RTSPResult>)
        ensures
            r is Ok,
            final(self)@ == (ConnView { proxy: Some((host@, port)), ..old(self)@ }),
    {
        self.proxy = Some((host.to_owned(), port));
        Ok(())
    }

    /// The proxy the driver dials instead of the URL's host, if one is set.
    pub fn get_proxy(&self) -> (r: Option<(String, u32)>)
        ensures
            proxy_view(r) == self@.proxy,
    {
        match &self.proxy {
            Some((h, p)) => Some((h.clone(), *p)),
            None => None,
        }
    }

    /// Sets the DSCP mark of outgoing packets (six bits); it needs an
    /// established connection.
    pub fn set_qos_dscp(&mut self, qos_dscp: u32) -> (r: Result<(), RTSPResult>)
        ensures
            io_refusal(old(self)@.state) matches Some(e) ==> r == Err::<(), RTSPResult>(e)
                && final(self)@ == old(self)@,
            io_refusal(old(self)@.state) is None && qos_dscp >= 64 ==> r == Err::<(), RTSPResult>(
                RTSPResult::Einval,
            ) && final(self)@ == old(self)@,
            io_refusal(old(self)@.state) is None && qos_dscp < 64 ==> r is Ok && final(self)@ == (
            ConnView { qos_dscp, ..old(self)@ }),
    {
        match self.state {
            ConnState::Connected => {},
            ConnState::Closed => {
                return error_of(RTSPResult::Eeof);
            },
            _ => {
                return error_of(RTSPResult::Enotconn);
            },
        }
        if qos_dscp >= 64 {
            return error_of(RTSPResult::Einval);
        }
        self.qos_dscp = qos_dscp;
        Ok(())
    }

    /// The largest body accepted from the peer, in bytes.
    pub fn set_content_length_limit(&mut self, limit: u32)
        ensures
            final(self)@ == (ConnView { content_length_limit: limit, ..old(self)@ }),
    {
        self.content_length_limit = limit;
    }

    /// Whether a body of `length` bytes announced by the peer may be read.
    pub fn accepts_content_length(&self, length: u64) -> (r: bool)
        ensures
            r == (length <= self@.content_length_limit),
    {
        length <= self.content_length_limit as u64
    }

    pub fn set_http_mode(&mut self, enable: bool)
        ensures
            final(self)@ == (ConnView { http_mode: enable, ..old(self)@ }),
    {
        self.http_mode = enable;
    }

    /// Adds a header to the HTTP requests that set up a tunnel.
    pub fn add_extra_http_request_header(&mut self, key: &str, value: &str)
        ensures
            final(self)@ == (ConnView {
                extra_http_headers: old(self)@.extra_http_headers.push((key@, value@)),
                ..old(self)@
            }),
    {
        self.extra_http_headers.push((key.to_owned(), value.to_owned()));
        assert(self@.extra_http_headers =~= old(self)@.extra_http_headers.push((key@, value@)));
    }

    pub fn set_tunneled(&mut self, tunneled: bool)
        ensures
            final(self)@ == (ConnView { tunneled, ..old(self)@ }),
    {
        self.tunneled = tunneled;
    }

    pub fn is_tunneled(&self) -> (r: bool)
        ensures
            r == self@.tunneled,
    {
        self.tunneled
    }

    /// The identifier shared by the two halves of a tunnel, once a half is set up.
    pub fn get_tunnelid(&self) -> (r: Option<String>)
        ensures
            opt_chars(r) == self@.tunnel_id,
    {
        match &self.tunnel_id {
            Some(t) => Some(t.clone()),
            None => None,
        }
    }

    /// The driver received the HTTP request that opens one half of a tunnel:
    /// `GET` for the direction towards the client, `POST` for the other, with
    /// the session cookie that ties the halves together. It needs an
    /// established, tunneled connection with no half set up yet.
    pub fn tunnel_request(&mut self, method: RTSPMethod, cookie: &str) -> (r: Result<(), RTSPResult>)
        ensures
            (old(self)@.state == ConnState::Connected && old(self)@.tunneled && old(self)@.tunnel_state
                == TunnelState::Idle && (method == RTSPMethod::GET || method == RTSPMethod::POST))
                ==> r is Ok && final(self)@ == (ConnView {
                tunnel_state: if method == RTSPMethod::GET {
                    TunnelState::Get
                } else {
                    TunnelState::Post
                },
                tunnel_id: Some(cookie@),
                ..old(self)@
            }),
            !(old(self)@.state == ConnState::Connected && old(self)@.tunneled && old(self)@.tunnel_state == TunnelState::Idle && (method == RTSPMethod::GET || method
                == RTSPMethod::POST)) ==> r == Err::<(), RTSPResult>(RTSPResult::Einval) && final(self)@ == old(self)@,
    {
        if self.state != ConnState::Connected || !self.tunneled || self.tunnel_state
            != TunnelState::Idle {
            return error_of(RTSPResult::Einval);
        }
        match method {
            RTSPMethod::GET => {
                self.tunnel_state = TunnelState::Get;
            },
            RTSPMethod::POST => {
                self.tunnel_state = TunnelState::Post;
            },
            _ => {
                return error_of(RTSPResult::Einval);
            },
        }
        self.tunnel_id = Some(cookie.to_owned());
        Ok(())
    }

    /// Pairs the two halves of a tunnel: `self` holds the GET half, `conn2`
    /// the POST half with the same identifier. `self` then carries both
    /// directions and `conn2` is closed. Anything else gives `Einval` and
    /// changes nothing.
    pub fn do_tunnel(&mut self, conn2: &mut RTSPConnection) -> (r: Result<(), RTSPResult>)
        ensures
            (old(self)@.tunnel_state == TunnelState::Get && old(conn2)@.tunnel_state
                == TunnelState::Post && old(self)@.tunnel_id is Some && old(self)@.tunnel_id == old(conn2)@.tunnel_id) ==> r is Ok && final(self)@ == (ConnView {
                tunnel_state: TunnelState::Paired,
                ..old(self)@
            }) && final(conn2)@ == (ConnView {
                state: ConnState::Closed,
                tunnel_state: TunnelState::Paired,
                ..old(conn2)@
            }),
            !(old(self)@.tunnel_state == TunnelState::Get && old(conn2)@.tunnel_state
                == TunnelState::Post && old(self)@.tunnel_id is Some && old(self)@.tunnel_id == old(conn2)@.tunnel_id) ==> r == Err::<(), RTSPResult>(RTSPResult::Einval) && final(self)@ == old(self)@ && final(conn2)@ == old(conn2)@,
    {
        if self.tunnel_state != TunnelState::Get || conn2.tunnel_state != TunnelState::Post {
            return error_of(RTSPResult::Einval);
        }
        let same = match (&self.tunnel_id, &conn2.tunnel_id) {
            (Some(a), Some(b)) => a.eq(b),
            _ => false,
        };
        if !same {
            return error_of(RTSPResult::Einval);
        }
        self.tunnel_state = TunnelState::Paired;
        conn2.tunnel_state = TunnelState::Paired;
        conn2.state = ConnState::Closed;
        Ok(())
    }

    pub fn set_remember_session_id(&mut self, remember: bool)
        ensures
            final(self)@ == (ConnView { remember_session_id: remember, ..old(self)@ }),
    {
        self.remember_session_id = remember;
    }

    pub fn set_ignore_x_server_reply(&mut self, ignore: bool)
        ensures
            final(self)@ == (ConnView { ignore_x_server_reply: ignore, ..old(self)@ }),
    {
        self.ignore_x_server_reply = ignore;
    }

    /// The URL the connection is bound to.
    pub fn get_url(&self) -> (r: Option<RTSPUrl>)
        ensures
            r matches Some(u) && u@ == self@.url,
    {
        Some(self.url.copy())
    }

    /// The address of the peer, once known.
    pub fn get_ip(&self) -> (r: Option<String>)
        ensures
            opt_chars(r) == self@.ip,
    {
        match &self.ip {
            Some(t) => Some(t.clone()),
            None => None,
        }
    }

    pub fn set_ip(&mut self, ip: &str)
        ensures
            final(self)@ == (ConnView { ip: Some(ip@), ..old(self)@ }),
    {
        self.ip = Some(ip.to_owned());
    }

    /// Microseconds left before a keep-alive request is due; never negative.
    pub fn next_timeout(&self) -> (r: i64)
        ensures
            r == (if self@.elapsed >= self@.timeout {
                0
            } else {
                self@.timeout - self@.elapsed
            }),
            r >= 0,
    {
        if self.timeout <= 0 || self.elapsed >= self.timeout as u64 {
            0
        } else {
            self.timeout - self.elapsed as i64
        }
    }

    /// Starts the keep-alive period again.
    pub fn reset_timeout(&mut self) -> (r: Result<(), RTSPResult>)
        ensures
            r is Ok,
            final(self)@ == (ConnView { elapsed: 0, ..old(self)@ }),
    {
        self.elapsed = 0;
        Ok(())
    }

    /// The driver reports that `usec` microseconds went by; the count saturates.
    pub fn advance_time(&mut self, usec: u64)
        ensures
            final(self)@ == (ConnView {
                elapsed: if old(self)@.elapsed + usec > u64::MAX {
                    u64::MAX
                } else {
                    (old(self)@.elapsed + usec) as u64
                },
                ..old(self)@
            }),
    {
        if self.elapsed > u64::MAX - usec {
            self.elapsed = u64::MAX;
        } else {
            self.elapsed = self.elapsed + usec;
        }
    }

    /// Sets the keep-alive period, in microseconds.
    pub fn set_timeout(&mut self, timeout: i64)
        ensures
            final(self)@ == (ConnView { timeout, ..old(self)@ }),
    {
        self.timeout = timeout;
    }

    /// Chooses which checks a peer certificate must pass.
    pub fn set_tls_validation_flags(&mut self, flags: u32) -> (r: bool)
        ensures
            r,
            final(self)@ == (ConnView { tls_validation_flags: flags, ..old(self)@ }),
    {
        self.tls_validation_flags = flags;
        true
    }

    pub fn get_tls_validation_flags(&self) -> (r: u32)
        ensures
            r == self@.tls_validation_flags,
    {
        self.tls_validation_flags
    }

    pub fn state(&self) -> (r: ConnState)
        ensures
            r == self@.state,
    {
        self.state
    }
}

} // verus!
