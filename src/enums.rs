//! The protocol's enumerations: result codes, transport kinds, methods,
//! header fields and status codes.
use vstd::prelude::*;

verus! {

/// Outcome of an RTSP operation.
#[derive(Clone, Copy, Debug, PartialEq, Eq, Structural, Hash)]
pub enum RTSPResult {
    /// The operation succeeded.
    Success,
    /// Generic failure.
    Error,
    /// An argument or a piece of text was malformed.
    Einval,
    /// The operation was interrupted.
    Eintr,
    /// A size limit was exceeded, or memory was short.
    Enomem,
    /// The host name could not be resolved.
    Eresolv,
    /// The operation is not available for this configuration.
    Enotimpl,
    /// A system call failed.
    Esys,
    /// Malformed data arrived from the peer.
    Eparse,
    /// The peer closed or reset the connection.
    Eeof,
    /// A network error, such as a refused connection.
    Enet,
    /// The address is not an IP address.
    Enotip,
    /// The operation ran out of time; it may be tried again.
    Etimeout,
    /// The tunnel GET request failed.
    Etget,
    /// The tunnel POST request failed.
    Etpost,
    /// The connection has not been established.
    Enotconn,
    /// The connection is already established.
    Eisconn,
    __Unknown(i32),
}

/// The transport protocol of a media stream.
#[derive(Clone, Copy, Debug, PartialEq, Eq, Structural, Hash)]
pub enum RTSPTransMode {
    RTP,
    RDT,
    __Unknown(i32),
}

/// The media profile: plain or secure, with or without feedback.
#[derive(Clone, Copy, Debug, PartialEq, Eq, Structural, Hash)]
pub enum RTSPProfile {
    AVP,
    SAVP,
    AVPF,
    SAVPF,
    __Unknown(i32),
}

/// How the media packets travel.
#[allow(non_camel_case_types)]
#[derive(Clone, Copy, Debug, PartialEq, Eq, Structural, Hash)]
pub enum RTSPLowerTrans {
    UDP,
    UDP_MCAST,
    TCP,
    __Unknown(i32),
}

/// The authentication scheme used for credentials.
#[derive(Clone, Copy, Debug, PartialEq, Eq, Structural, Hash)]
pub enum RTSPAuthMethod {
    /// No authentication.
    NoAuth,
    Basic,
    Digest,
    __Unknown(i32),
}

/// The method of a request.
#[allow(non_camel_case_types)]
#[derive(Clone, Copy, Debug, PartialEq, Eq, Structural, Hash)]
pub enum RTSPMethod {
    INVALID,
    DESCRIBE,
    ANNOUNCE,
    GET_PARAMETER,
    OPTIONS,
    PAUSE,
    PLAY,
    RECORD,
    REDIRECT,
    SETUP,
    SET_PARAMETER,
    TEARDOWN,
    GET,
    POST,
}

/// The protocol version a message is written in.
#[allow(non_camel_case_types)]
#[derive(Clone, Copy, Debug, PartialEq, Eq, Structural, Hash)]
pub enum RTSPVersion {
    Invalid,
    V1_0,
    V1_1,
    V2_0,
}

/// What a message is.
#[derive(Clone, Copy, Debug, PartialEq, Eq, Structural, Hash)]
pub enum RTSPMsgType {
    Invalid,
    Request,
    Response,
    HttpRequest,
    HttpResponse,
    Data,
}

/// The name of a header field.
#[derive(Clone, Copy, Debug, PartialEq, Eq, Structural, Hash)]
pub enum RTSPHeaderField {
    Accept,
    Authorization,
    Bandwidth,
    Blocksize,
    CacheControl,
    Conference,
    Connection,
    ContentBase,
    ContentEncoding,
    ContentLanguage,
    ContentLength,
    ContentLocation,
    ContentType,
    CSeq,
    Date,
    Expires,
    From,
    IfModifiedSince,
    LastModified,
    ProxyAuthenticate,
    ProxyRequire,
    Public,
    Range,
    Referer,
    Require,
    RetryAfter,
    RtpInfo,
    Scale,
    Session,
    Server,
    Speed,
    Transport,
    Unsupported,
    UserAgent,
    Via,
    WwwAuthenticate,
    __Unknown(i32),
}

/// The status of a response.
#[derive(Clone, Copy, Debug, PartialEq, Eq, Structural, Hash)]
pub enum RTSPStatusCode {
    Continue,
    /// 200, "OK".
    Success,
    Created,
    MovedPermanently,
    MoveTemporarily,
    BadRequest,
    Unauthorized,
    Forbidden,
    NotFound,
    MethodNotAllowed,
    ProxyAuthRequired,
    RequestTimeout,
    SessionNotFound,
    MethodNotValidInThisState,
    UnsupportedTransport,
    InternalServerError,
    NotImplemented,
    ServiceUnavailable,
    RtspVersionNotSupported,
    __Unknown(i32),
}

} // verus!
