//! Fluent construction of transports and connections.
use vstd::prelude::*;

use crate::enums::{RTSPAuthMethod, RTSPLowerTrans, RTSPProfile, RTSPResult, RTSPTransMode};
use crate::rtsp_connection::{created_view, user_is_valid, ConnState, ConnView, RTSPConnection};
use crate::rtsp_transport::{empty_view, RTSPRange, RTSPTransport, TransportView};
use crate::rtsp_url::{opt_chars, RTSPUrl, UrlView};

pub mod helpers;

verus! {

/// Builds an `RTSPTransport` one field at a time.
#[derive(Debug)]
pub struct RTSPTransportBuilder {
    transport: RTSPTransport,
}

impl View for RTSPTransportBuilder {
    type V = TransportView;

    closed spec fn view(&self) -> TransportView {
        self.transport@
    }
}

impl RTSPTransportBuilder {
    /// A builder whose transport has nothing set.
    pub fn new() -> (r: Result<RTSPTransportBuilder, RTSPResult>)
        ensures
            r matches Ok(b) && b@ == empty_view(),
    {
        match RTSPTransport::new() {
            Ok(t) => Ok(RTSPTransportBuilder { transport: t }),
            Err(e) => Err(e),
        }
    }

    /// Sets the transport protocol (RTP or RDT).
    pub fn protocol(self, trans: RTSPTransMode) -> (r: RTSPTransportBuilder)
        ensures
            r@ == (TransportView { trans, ..self@ }),
    {
        let mut b = self;
        b.transport.set_trans(trans);
        b
    }

    /// Sets the profile (AVP, SAVP, AVPF or SAVPF).
    pub fn profile(self, profile: RTSPProfile) -> (r: RTSPTransportBuilder)
        ensures
            r@ == (TransportView { profile, ..self@ }),
    {
        let mut b = self;
        b.transport.set_profile(profile);
        b
    }

    /// Sets the lower transport (UDP, multicast UDP or TCP).
    pub fn lower_transport(self, lower_transport: RTSPLowerTrans) -> (r: RTSPTransportBuilder)
        ensures
            r@ == (TransportView { lower_transport, ..self@ }),
    {
        let mut b = self;
        b.transport.set_lower_transport(lower_transport);
        b
    }

    pub fn destination(self, destination: &str) -> (r: RTSPTransportBuilder)
        ensures
            r@ == (TransportView { destination: Some(destination@), ..self@ }),
    {
        let mut b = self;
        b.transport.set_destination(Some(destination));
        b
    }

    pub fn source(self, source: &str) -> (r: RTSPTransportBuilder)
        ensures
            r@ == (TransportView { source: Some(source@), ..self@ }),
    {
        let mut b = self;
        b.transport.set_source(Some(source));
        b
    }

    pub fn mode_play(self, play: bool) -> (r: RTSPTransportBuilder)
        ensures
            r@ == (TransportView { mode_play: play, ..self@ }),
    {
        let mut b = self;
        b.transport.set_mode_play(play);
        b
    }

    pub fn mode_record(self, record: bool) -> (r: RTSPTransportBuilder)
        ensures
            r@ == (TransportView { mode_record: record, ..self@ }),
    {
        let mut b = self;
        b.transport.set_mode_record(record);
        b
    }

    /// Sets both the play and the record mode.
    pub fn mode(self, play: bool, record: bool) -> (r: RTSPTransportBuilder)
        ensures
            r@ == (TransportView { mode_play: play, mode_record: record, ..self@ }),
    {
        let mut b = self;
        b.transport.set_mode_play(play);
        b.transport.set_mode_record(record);
        b
    }

    pub fn client_ports(self, min: i32, max: i32) -> (r: RTSPTransportBuilder)
        ensures
            r@ == (TransportView { client_port: RTSPRange { min, max }, ..self@ }),
    {
        let mut b = self;
        b.transport.set_client_port(RTSPRange::new(min, max));
        b
    }

    pub fn server_ports(self, min: i32, max: i32) -> (r: RTSPTransportBuilder)
        ensures
            r@ == (TransportView { server_port: RTSPRange { min, max }, ..self@ }),
    {
        let mut b = self;
        b.transport.set_server_port(RTSPRange::new(min, max));
        b
    }

    /// Sets the interleaved channel pair.
    pub fn interleaved(self, min: i32, max: i32) -> (r: RTSPTransportBuilder)
        ensures
            r@ == (TransportView { interleaved: RTSPRange { min, max }, ..self@ }),
    {
        let mut b = self;
        b.transport.set_interleaved(RTSPRange::new(min, max));
        b
    }

    /// Sets the multicast time-to-live.
    pub fn ttl(self, ttl: u32) -> (r: RTSPTransportBuilder)
        ensures
            r@ == (TransportView { ttl, ..self@ }),
    {
        let mut b = self;
        b.transport.set_ttl(ttl);
        b
    }

    pub fn ssrc(self, ssrc: u32) -> (r: RTSPTransportBuilder)
        ensures
            r@ == (TransportView { ssrc, ..self@ }),
    {
        let mut b = self;
        b.transport.set_ssrc(ssrc);
        b
    }

    pub fn layers(self, layers: u32) -> (r: RTSPTransportBuilder)
        ensures
            r@ == (TransportView { layers, ..self@ }),
    {
        let mut b = self;
        b.transport.set_layers(layers);
        b
    }

    pub fn append(self, append: bool) -> (r: RTSPTransportBuilder)
        ensures
            r@ == (TransportView { append, ..self@ }),
    {
        let mut b = self;
        b.transport.set_append(append);
        b
    }

    /// Sets the multicast port pair.
    pub fn port(self, min: i32, max: i32) -> (r: RTSPTransportBuilder)
        ensures
            r@ == (TransportView { port: RTSPRange { min, max }, ..self@ }),
    {
        let mut b = self;
        b.transport.set_port(RTSPRange::new(min, max));
        b
    }

    /// The transport as configured.
    pub fn build(self) -> (r: Result<RTSPTransport, RTSPResult>)
        ensures
            r matches Ok(t) && t@ == self@,
    {
        Ok(self.transport)
    }
}

impl Default for RTSPTransportBuilder {
    fn default() -> (r: RTSPTransportBuilder)
        ensures
            r@ == empty_view(),
    {
        RTSPTransportBuilder { transport: RTSPTransport::default() }
    }
}

/// What a connection builder has gathered.
pub struct ConnBuilderView {
    pub url: UrlView,
    pub proxy_host: Option<Seq<char>>,
    pub proxy_port: Option<u32>,
    pub auth_method: Option<RTSPAuthMethod>,
    pub auth_user: Option<Seq<char>>,
    pub auth_pass: Option<Seq<char>>,
    pub tunneled: bool,
    pub http_mode: bool,
    pub timeout: Option<i64>,
}

/// Builds an `RTSPConnection`; nothing is checked and no I/O happens until
/// `build` or `connect`.
#[derive(Debug)]
pub struct RTSPConnectionBuilder {
    url: RTSPUrl,
    proxy_host: Option<String>,
    proxy_port: Option<u32>,
    auth_method: Option<RTSPAuthMethod>,
    auth_user: Option<String>,
    auth_pass: Option<String>,
    tunneled: bool,
    http_mode: bool,
    timeout: Option<i64>,
}

impl View for RTSPConnectionBuilder {
    type V = ConnBuilderView;

    closed spec fn view(&self) -> ConnBuilderView {
        ConnBuilderView {
            url: self.url@,
            proxy_host: opt_chars(self.proxy_host),
            proxy_port: self.proxy_port,
            auth_method: self.auth_method,
            auth_user: opt_chars(self.auth_user),
            auth_pass: opt_chars(self.auth_pass),
            tunneled: self.tunneled,
            http_mode: self.http_mode,
            timeout: self.timeout,
        }
    }
}

/// Whether `build` succeeds: credentials, when given, must have a user name
/// that can be sent.
pub open spec fn builder_accepts(b: ConnBuilderView) -> bool {
    match (b.auth_method, b.auth_user, b.auth_pass) {
        (Some(m), Some(u), Some(_)) => m == RTSPAuthMethod::NoAuth || user_is_valid(u),
        _ => true,
    }
}

/// The connection that `build` makes from what the builder gathered.
pub open spec fn built_view(b: ConnBuilderView) -> ConnView {
    let base = created_view(b.url);
    let with_proxy = match (b.proxy_host, b.proxy_port) {
        (Some(h), Some(p)) => ConnView { proxy: Some((h, p)), ..base },
        _ => base,
    };
    let with_auth = match (b.auth_method, b.auth_user, b.auth_pass) {
        (Some(m), Some(u), Some(p)) => if m == RTSPAuthMethod::NoAuth {
            ConnView { auth_method: m, auth_user: None, auth_pass: None, ..with_proxy }
        } else {
            ConnView { auth_method: m, auth_user: Some(u), auth_pass: Some(p), ..with_proxy }
        },
        _ => with_proxy,
    };
    ConnView { tunneled: b.tunneled, http_mode: b.http_mode, ..with_auth }
}

/// The timeout `connect` uses when none was set: 20 seconds.
pub const DEFAULT_CONNECT_TIMEOUT_USEC: i64 = 20_000_000;

impl RTSPConnectionBuilder {
    /// A builder for a connection to `url`, with nothing else set.
    pub fn new(url: &RTSPUrl) -> (r: RTSPConnectionBuilder)
        ensures
            r@ == (ConnBuilderView {
                url: url@,
                proxy_host: None,
                proxy_port: None,
                auth_method: None,
                auth_user: None,
                auth_pass: None,
                tunneled: false,
                http_mode: false,
                timeout: None,
            }),
    {
        RTSPConnectionBuilder {
            url: url.copy(),
            proxy_host: None,
            proxy_port: None,
            auth_method: None,
            auth_user: None,
            auth_pass: None,
            tunneled: false,
            http_mode: false,
            timeout: None,
        }
    }

    /// Goes through the HTTP proxy at `host`:`port`.
    pub fn proxy(self, host: &str, port: u32) -> (r: RTSPConnectionBuilder)
        ensures
            r@ == (ConnBuilderView { proxy_host: Some(host@), proxy_port: Some(port), ..self@ }),
    {
        let mut b = self;
        b.proxy_host = Some(host.to_owned());
        b.proxy_port = Some(port);
        b
    }

    /// Authenticates with these credentials.
    pub fn auth(self, method: RTSPAuthMethod, user: &str, pass: &str) -> (r: RTSPConnectionBuilder)
        ensures
            r@ == (ConnBuilderView {
                auth_method: Some(method),
                auth_user: Some(user@),
                auth_pass: Some(pass@),
                ..self@
            }),
    {
        let mut b = self;
        b.auth_method = Some(method);
        b.auth_user = Some(user.to_owned());
        b.auth_pass = Some(pass.to_owned());
        b
    }

    /// The time `connect` allows, in microseconds.
    pub fn timeout(self, timeout_usec: i64) -> (r: RTSPConnectionBuilder)
        ensures
            r@ == (ConnBuilderView { timeout: Some(timeout_usec), ..self@ }),
    {
        let mut b = self;
        b.timeout = Some(timeout_usec);
        b
    }

    pub fn tunneled(self, tunneled: bool) -> (r: RTSPConnectionBuilder)
        ensures
            r@ == (ConnBuilderView { tunneled, ..self@ }),
    {
        let mut b = self;
        b.tunneled = tunneled;
        b
    }

    pub fn http_mode(self, http_mode: bool) -> (r: RTSPConnectionBuilder)
        ensures
            r@ == (ConnBuilderView { http_mode, ..self@ }),
    {
        let mut b = self;
        b.http_mode = http_mode;
        b
    }

    /// The configured connection, not yet connected. Credentials whose user
    /// name holds `:` give `Einval`.
    pub fn build(self) -> (r: Result<RTSPConnection, RTSPResult>)
        ensures
            builder_accepts(self@) <==> r is Ok,
            r matches Ok(c) ==> c@ == built_view(self@),
            r matches Err(e) ==> e == RTSPResult::Einval,
    {
        let mut conn = match RTSPConnection::create(&self.url) {
            Ok(c) => c,
            Err(e) => {
                return Err(e);
            },
        };
        match (&self.proxy_host, self.proxy_port) {
            (Some(host), Some(port)) => {
                let _ = conn.set_proxy(host.as_str(), port);
            },
            _ => {},
        }
        match (self.auth_method, &self.auth_user, &self.auth_pass) {
            (Some(method), Some(user), Some(pass)) => {
                match conn.set_auth(method, user.as_str(), pass.as_str()) {
                    Ok(()) => {},
                    Err(e) => {
                        return Err(e);
                    },
                }
            },
            _ => {},
        }
        conn.set_tunneled(self.tunneled);
        conn.set_http_mode(self.http_mode);
        Ok(conn)
    }

    /// Builds the connection and starts connecting it, with the configured
    /// timeout or 20 seconds; the driver then dials.
    pub fn connect(self) -> (r: Result<RTSPConnection, RTSPResult>)
        ensures
            builder_accepts(self@) && (self@.timeout matches Some(t) ==> t >= 0) <==> r is Ok,
            r matches Ok(c) ==> c@ == (ConnView {
                state: ConnState::Connecting,
                ..built_view(self@)
            }),
            r matches Err(e) ==> e == RTSPResult::Einval,
    {
        let timeout = match self.timeout {
            Some(t) => t,
            None => DEFAULT_CONNECT_TIMEOUT_USEC,
        };
        let mut conn = match self.build() {
            Ok(c) => c,
            Err(e) => {
                return Err(e);
            },
        };
        match conn.connect(timeout) {
            Ok(()) => Ok(conn),
            Err(e) => Err(e),
        }
    }
}

} // verus!
