//! Requests and responses: a start line, an ordered multimap of header fields,
//! and an optional body.
use vstd::prelude::*;

use crate::enums::{RTSPHeaderField, RTSPMethod, RTSPMsgType, RTSPResult, RTSPStatusCode, RTSPVersion};
use crate::text::{
    chars_of, decimal_text, find, find_char, has_prefix, parse_number, push_decimal, push_str,
    read_number, same_text, skip_space, skip_spaces, starts_with, string_of, token_is,
    token_matches,
};
use vstd::string::StrSliceExecFns;

verus! {

/// What a message holds.
pub struct MessageView {
    pub msg_type: RTSPMsgType,
    pub method: RTSPMethod,
    pub uri: Seq<char>,
    pub status: RTSPStatusCode,
    pub reason: Seq<char>,
    pub version: RTSPVersion,
    pub headers: Seq<(RTSPHeaderField, Seq<char>)>,
    pub body: Seq<u8>,
}

/// An RTSP request or response.
#[derive(Clone, Debug)]
pub struct RTSPMessage {
    msg_type: RTSPMsgType,
    method: RTSPMethod,
    uri: String,
    status: RTSPStatusCode,
    reason: String,
    version: RTSPVersion,
    headers: Vec<(RTSPHeaderField, String)>,
    body: Vec<u8>,
}

pub open spec fn header_view(h: (RTSPHeaderField, String)) -> (RTSPHeaderField, Seq<char>) {
    (h.0, h.1@)
}

impl View for RTSPMessage {
    type V = MessageView;

    closed spec fn view(&self) -> MessageView {
        MessageView {
            msg_type: self.msg_type,
            method: self.method,
            uri: self.uri@,
            status: self.status,
            reason: self.reason@,
            version: self.version,
            headers: self.headers@.map_values(|h: (RTSPHeaderField, String)| header_view(h)),
            body: self.body@,
        }
    }
}

/// The values of the headers named `field`, in the order they were added.
pub open spec fn header_values(hs: Seq<(RTSPHeaderField, Seq<char>)>, field: RTSPHeaderField) -> Seq<
    Seq<char>,
>
    decreases hs.len(),
{
    if hs.len() == 0 {
        Seq::empty()
    } else if hs.last().0 == field {
        header_values(hs.drop_last(), field).push(hs.last().1)
    } else {
        header_values(hs.drop_last(), field)
    }
}

/// The values found in the first `k` headers begin the values found in all of them.
pub proof fn lemma_header_values_prefix(
    hs: Seq<(RTSPHeaderField, Seq<char>)>,
    k: int,
    field: RTSPHeaderField,
)
    requires
        0 <= k <= hs.len(),
    ensures
        header_values(hs.take(k), field).len() <= header_values(hs, field).len(),
        forall|j: int|
            0 <= j < header_values(hs.take(k), field).len() ==> #[trigger] header_values(
                hs.take(k),
                field,
            )[j] == header_values(hs, field)[j],
    decreases hs.len(),
{
    if k < hs.len() {
        lemma_header_values_prefix(hs.drop_last(), k, field);
        assert(hs.drop_last().take(k) =~= hs.take(k));
    } else {
        assert(hs.take(k) =~= hs);
    }
}

/// Headers of one name come back in the order they were added: after adding
/// `a` then `b` under `field`, the values under `field` are the earlier ones,
/// then `a`, then `b`; with none earlier, `a` is the first.
pub proof fn header_order_kept(
    m: MessageView,
    field: RTSPHeaderField,
    a: Seq<char>,
    b: Seq<char>,
)
    ensures
        header_values(m.headers.push((field, a)).push((field, b)), field) == header_values(
            m.headers,
            field,
        ).push(a).push(b),
        header_values(m.headers, field).len() == 0 ==> header_values(
            m.headers.push((field, a)).push((field, b)),
            field,
        )[0] == a,
{
    let h1 = m.headers.push((field, a));
    let h2 = h1.push((field, b));
    assert(h2.drop_last() =~= h1);
    assert(h1.drop_last() =~= m.headers);
    assert(h2.last() == (field, b));
    assert(h1.last() == (field, a));
    assert(header_values(h1, field) == header_values(m.headers, field).push(a));
    assert(header_values(h2, field) == header_values(h1, field).push(b));
}

/// The message that `new_response` makes: the status line, and the request's
/// first `CSeq` when there is one.
pub open spec fn response_view(
    code: RTSPStatusCode,
    reason: Seq<char>,
    request: Option<MessageView>,
) -> MessageView {
    MessageView {
        msg_type: RTSPMsgType::Response,
        method: RTSPMethod::INVALID,
        uri: Seq::empty(),
        status: code,
        reason,
        version: RTSPVersion::V1_0,
        headers: match request {
            Some(req) => if header_values(req.headers, RTSPHeaderField::CSeq).len() > 0 {
                seq![(RTSPHeaderField::CSeq, header_values(req.headers, RTSPHeaderField::CSeq)[0])]
            } else {
                Seq::empty()
            },
            None => Seq::empty(),
        },
        body: Seq::empty(),
    }
}

/// The reason phrase that goes with a status code when none is given.
pub open spec fn status_reason(code: RTSPStatusCode) -> Seq<char> {
    match code {
        RTSPStatusCode::Continue => "Continue"@,
        RTSPStatusCode::Success => "OK"@,
        RTSPStatusCode::Created => "Created"@,
        RTSPStatusCode::MovedPermanently => "Moved Permanently"@,
        RTSPStatusCode::MoveTemporarily => "Move Temporarily"@,
        RTSPStatusCode::BadRequest => "Bad Request"@,
        RTSPStatusCode::Unauthorized => "Unauthorized"@,
        RTSPStatusCode::Forbidden => "Forbidden"@,
        RTSPStatusCode::NotFound => "Not Found"@,
        RTSPStatusCode::MethodNotAllowed => "Method Not Allowed"@,
        RTSPStatusCode::ProxyAuthRequired => "Proxy Authentication Required"@,
        RTSPStatusCode::RequestTimeout => "Request Timeout"@,
        RTSPStatusCode::SessionNotFound => "Session Not Found"@,
        RTSPStatusCode::MethodNotValidInThisState => "Method Not Valid In This State"@,
        RTSPStatusCode::UnsupportedTransport => "Unsupported transport"@,
        RTSPStatusCode::InternalServerError => "Internal Server Error"@,
        RTSPStatusCode::NotImplemented => "Not Implemented"@,
        RTSPStatusCode::ServiceUnavailable => "Service Unavailable"@,
        RTSPStatusCode::RtspVersionNotSupported => "RTSP Version not supported"@,
        RTSPStatusCode::__Unknown(_) => ""@,
    }
}

fn status_reason_text(code: RTSPStatusCode) -> (r: &'static str)
    ensures
        r@ == status_reason(code),
{
    match code {
        RTSPStatusCode::Continue => "Continue",
        RTSPStatusCode::Success => "OK",
        RTSPStatusCode::Created => "Created",
        RTSPStatusCode::MovedPermanently => "Moved Permanently",
        RTSPStatusCode::MoveTemporarily => "Move Temporarily",
        RTSPStatusCode::BadRequest => "Bad Request",
        RTSPStatusCode::Unauthorized => "Unauthorized",
        RTSPStatusCode::Forbidden => "Forbidden",
        RTSPStatusCode::NotFound => "Not Found",
        RTSPStatusCode::MethodNotAllowed => "Method Not Allowed",
        RTSPStatusCode::ProxyAuthRequired => "Proxy Authentication Required",
        RTSPStatusCode::RequestTimeout => "Request Timeout",
        RTSPStatusCode::SessionNotFound => "Session Not Found",
        RTSPStatusCode::MethodNotValidInThisState => "Method Not Valid In This State",
        RTSPStatusCode::UnsupportedTransport => "Unsupported transport",
        RTSPStatusCode::InternalServerError => "Internal Server Error",
        RTSPStatusCode::NotImplemented => "Not Implemented",
        RTSPStatusCode::ServiceUnavailable => "Service Unavailable",
        RTSPStatusCode::RtspVersionNotSupported => "RTSP Version not supported",
        RTSPStatusCode::__Unknown(_) => "",
    }
}

// ---------------------------------------------------------------------------
// Wire form: start line, header lines, a blank line, then the body.
pub open spec fn method_name(m: RTSPMethod) -> Seq<char> {
    match m {
        RTSPMethod::INVALID => ""@,
        RTSPMethod::DESCRIBE => "DESCRIBE"@,
        RTSPMethod::ANNOUNCE => "ANNOUNCE"@,
        RTSPMethod::GET_PARAMETER => "GET_PARAMETER"@,
        RTSPMethod::OPTIONS => "OPTIONS"@,
        RTSPMethod::PAUSE => "PAUSE"@,
        RTSPMethod::PLAY => "PLAY"@,
        RTSPMethod::RECORD => "RECORD"@,
        RTSPMethod::REDIRECT => "REDIRECT"@,
        RTSPMethod::SETUP => "SETUP"@,
        RTSPMethod::SET_PARAMETER => "SET_PARAMETER"@,
        RTSPMethod::TEARDOWN => "TEARDOWN"@,
        RTSPMethod::GET => "GET"@,
        RTSPMethod::POST => "POST"@,
    }
}

pub open spec fn version_text(v: RTSPVersion) -> Seq<char> {
    match v {
        RTSPVersion::V1_1 => "RTSP/1.1"@,
        RTSPVersion::V2_0 => "RTSP/2.0"@,
        _ => "RTSP/1.0"@,
    }
}

/// The three-digit number of a status code; 0 for an unknown code out of range.
pub open spec fn status_number(code: RTSPStatusCode) -> u32 {
    match code {
        RTSPStatusCode::Continue => 100,
        RTSPStatusCode::Success => 200,
        RTSPStatusCode::Created => 201,
        RTSPStatusCode::MovedPermanently => 301,
        RTSPStatusCode::MoveTemporarily => 302,
        RTSPStatusCode::BadRequest => 400,
        RTSPStatusCode::Unauthorized => 401,
        RTSPStatusCode::Forbidden => 403,
        RTSPStatusCode::NotFound => 404,
        RTSPStatusCode::MethodNotAllowed => 405,
        RTSPStatusCode::ProxyAuthRequired => 407,
        RTSPStatusCode::RequestTimeout => 408,
        RTSPStatusCode::SessionNotFound => 454,
        RTSPStatusCode::MethodNotValidInThisState => 455,
        RTSPStatusCode::UnsupportedTransport => 461,
        RTSPStatusCode::InternalServerError => 500,
        RTSPStatusCode::NotImplemented => 501,
        RTSPStatusCode::ServiceUnavailable => 503,
        RTSPStatusCode::RtspVersionNotSupported => 505,
        RTSPStatusCode::__Unknown(n) => if 0 <= n <= 999 {
            n as u32
        } else {
            0
        },
    }
}

/// The name of a header field as it is written; unknown fields have none.
pub open spec fn header_name(f: RTSPHeaderField) -> Seq<char> {
    match f {
        RTSPHeaderField::Accept => "Accept"@,
        RTSPHeaderField::Authorization => "Authorization"@,
        RTSPHeaderField::Bandwidth => "Bandwidth"@,
        RTSPHeaderField::Blocksize => "Blocksize"@,
        RTSPHeaderField::CacheControl => "Cache-Control"@,
        RTSPHeaderField::Conference => "Conference"@,
        RTSPHeaderField::Connection => "Connection"@,
        RTSPHeaderField::ContentBase => "Content-Base"@,
        RTSPHeaderField::ContentEncoding => "Content-Encoding"@,
        RTSPHeaderField::ContentLanguage => "Content-Language"@,
        RTSPHeaderField::ContentLength => "Content-Length"@,
        RTSPHeaderField::ContentLocation => "Content-Location"@,
        RTSPHeaderField::ContentType => "Content-Type"@,
        RTSPHeaderField::CSeq => "CSeq"@,
        RTSPHeaderField::Date => "Date"@,
        RTSPHeaderField::Expires => "Expires"@,
        RTSPHeaderField::From => "From"@,
        RTSPHeaderField::IfModifiedSince => "If-Modified-Since"@,
        RTSPHeaderField::LastModified => "Last-Modified"@,
        RTSPHeaderField::ProxyAuthenticate => "Proxy-Authenticate"@,
        RTSPHeaderField::ProxyRequire => "Proxy-Require"@,
        RTSPHeaderField::Public => "Public"@,
        RTSPHeaderField::Range => "Range"@,
        RTSPHeaderField::Referer => "Referer"@,
        RTSPHeaderField::Require => "Require"@,
        RTSPHeaderField::RetryAfter => "Retry-After"@,
        RTSPHeaderField::RtpInfo => "RTP-Info"@,
        RTSPHeaderField::Scale => "Scale"@,
        RTSPHeaderField::Session => "Session"@,
        RTSPHeaderField::Server => "Server"@,
        RTSPHeaderField::Speed => "Speed"@,
        RTSPHeaderField::Transport => "Transport"@,
        RTSPHeaderField::Unsupported => "Unsupported"@,
        RTSPHeaderField::UserAgent => "User-Agent"@,
        RTSPHeaderField::Via => "Via"@,
        RTSPHeaderField::WwwAuthenticate => "WWW-Authenticate"@,
        RTSPHeaderField::__Unknown(_) => ""@,
    }
}

/// Whether a header is written out: `Content-Length` comes from the body, and
/// unknown fields have no name.
pub open spec fn header_written(f: RTSPHeaderField) -> bool {
    f != RTSPHeaderField::ContentLength && !(f is __Unknown)
}

pub open spec fn header_lines(hs: Seq<(RTSPHeaderField, Seq<char>)>) -> Seq<char>
    decreases hs.len(),
{
    if hs.len() == 0 {
        Seq::empty()
    } else if header_written(hs.last().0) {
        header_lines(hs.drop_last()) + header_name(hs.last().0) + ": "@ + hs.last().1 + "\r\n"@
    } else {
        header_lines(hs.drop_last())
    }
}

pub open spec fn start_line(m: MessageView) -> Seq<char> {
    match m.msg_type {
        RTSPMsgType::Request | RTSPMsgType::HttpRequest => method_name(m.method) + " "@ + m.uri
            + " "@ + version_text(m.version) + "\r\n"@,
        RTSPMsgType::Response | RTSPMsgType::HttpResponse => version_text(m.version) + " "@
            + decimal_text(status_number(m.status) as nat) + " "@ + m.reason + "\r\n"@,
        _ => Seq::empty(),
    }
}

/// Everything before the body: start line, headers, `Content-Length` when
/// there is a body, and the blank line.
pub open spec fn message_head(m: MessageView) -> Seq<char> {
    start_line(m) + header_lines(m.headers) + (if m.body.len() > 0 {
        "Content-Length: "@ + decimal_text(m.body.len()) + "\r\n"@
    } else {
        Seq::empty()
    }) + "\r\n"@
}

/// The bytes of a message on the wire.
pub open spec fn message_bytes(m: MessageView) -> Seq<u8> {
    vstd::utf8::encode_utf8(message_head(m)) + m.body
}

fn method_name_text(m: RTSPMethod) -> (r: &'static str)
    ensures
        r@ == method_name(m),
{
    match m {
        RTSPMethod::INVALID => "",
        RTSPMethod::DESCRIBE => "DESCRIBE",
        RTSPMethod::ANNOUNCE => "ANNOUNCE",
        RTSPMethod::GET_PARAMETER => "GET_PARAMETER",
        RTSPMethod::OPTIONS => "OPTIONS",
        RTSPMethod::PAUSE => "PAUSE",
        RTSPMethod::PLAY => "PLAY",
        RTSPMethod::RECORD => "RECORD",
        RTSPMethod::REDIRECT => "REDIRECT",
        RTSPMethod::SETUP => "SETUP",
        RTSPMethod::SET_PARAMETER => "SET_PARAMETER",
        RTSPMethod::TEARDOWN => "TEARDOWN",
        RTSPMethod::GET => "GET",
        RTSPMethod::POST => "POST",
    }
}

fn version_name_text(v: RTSPVersion) -> (r: &'static str)
    ensures
        r@ == version_text(v),
{
    match v {
        RTSPVersion::V1_1 => "RTSP/1.1",
        RTSPVersion::V2_0 => "RTSP/2.0",
        _ => "RTSP/1.0",
    }
}

fn status_number_of(code: RTSPStatusCode) -> (r: u32)
    ensures
        r == status_number(code),
{
    match code {
        RTSPStatusCode::Continue => 100,
        RTSPStatusCode::Success => 200,
        RTSPStatusCode::Created => 201,
        RTSPStatusCode::MovedPermanently => 301,
        RTSPStatusCode::MoveTemporarily => 302,
        RTSPStatusCode::BadRequest => 400,
        RTSPStatusCode::Unauthorized => 401,
        RTSPStatusCode::Forbidden => 403,
        RTSPStatusCode::NotFound => 404,
        RTSPStatusCode::MethodNotAllowed => 405,
        RTSPStatusCode::ProxyAuthRequired => 407,
        RTSPStatusCode::RequestTimeout => 408,
        RTSPStatusCode::SessionNotFound => 454,
        RTSPStatusCode::MethodNotValidInThisState => 455,
        RTSPStatusCode::UnsupportedTransport => 461,
        RTSPStatusCode::InternalServerError => 500,
        RTSPStatusCode::NotImplemented => 501,
        RTSPStatusCode::ServiceUnavailable => 503,
        RTSPStatusCode::RtspVersionNotSupported => 505,
        RTSPStatusCode::__Unknown(n) => if 0 <= n && n <= 999 {
            n as u32
        } else {
            0
        },
    }
}

fn header_name_text(f: RTSPHeaderField) -> (r: &'static str)
    ensures
        r@ == header_name(f),
{
    match f {
        RTSPHeaderField::Accept => "Accept",
        RTSPHeaderField::Authorization => "Authorization",
        RTSPHeaderField::Bandwidth => "Bandwidth",
        RTSPHeaderField::Blocksize => "Blocksize",
        RTSPHeaderField::CacheControl => "Cache-Control",
        RTSPHeaderField::Conference => "Conference",
        RTSPHeaderField::Connection => "Connection",
        RTSPHeaderField::ContentBase => "Content-Base",
        RTSPHeaderField::ContentEncoding => "Content-Encoding",
        RTSPHeaderField::ContentLanguage => "Content-Language",
        RTSPHeaderField::ContentLength => "Content-Length",
        RTSPHeaderField::ContentLocation => "Content-Location",
        RTSPHeaderField::ContentType => "Content-Type",
        RTSPHeaderField::CSeq => "CSeq",
        RTSPHeaderField::Date => "Date",
        RTSPHeaderField::Expires => "Expires",
        RTSPHeaderField::From => "From",
        RTSPHeaderField::IfModifiedSince => "If-Modified-Since",
        RTSPHeaderField::LastModified => "Last-Modified",
        RTSPHeaderField::ProxyAuthenticate => "Proxy-Authenticate",
        RTSPHeaderField::ProxyRequire => "Proxy-Require",
        RTSPHeaderField::Public => "Public",
        RTSPHeaderField::Range => "Range",
        RTSPHeaderField::Referer => "Referer",
        RTSPHeaderField::Require => "Require",
        RTSPHeaderField::RetryAfter => "Retry-After",
        RTSPHeaderField::RtpInfo => "RTP-Info",
        RTSPHeaderField::Scale => "Scale",
        RTSPHeaderField::Session => "Session",
        RTSPHeaderField::Server => "Server",
        RTSPHeaderField::Speed => "Speed",
        RTSPHeaderField::Transport => "Transport",
        RTSPHeaderField::Unsupported => "Unsupported",
        RTSPHeaderField::UserAgent => "User-Agent",
        RTSPHeaderField::Via => "Via",
        RTSPHeaderField::WwwAuthenticate => "WWW-Authenticate",
        RTSPHeaderField::__Unknown(_) => "",
    }
}

impl RTSPMessage {
    /// A message that is neither a request nor a response yet, with no headers.
    pub fn new() -> (r: Result<RTSPMessage, RTSPResult>)
        ensures
            r matches Ok(m) && m@ == (MessageView {
                msg_type: RTSPMsgType::Invalid,
                method: RTSPMethod::INVALID,
                uri: Seq::empty(),
                status: RTSPStatusCode::__Unknown(0),
                reason: Seq::empty(),
                version: RTSPVersion::Invalid,
                headers: Seq::empty(),
                body: Seq::empty(),
            }),
    {
        let m = RTSPMessage {
            msg_type: RTSPMsgType::Invalid,
            method: RTSPMethod::INVALID,
            uri: String::new(),
            status: RTSPStatusCode::__Unknown(0),
            reason: String::new(),
            version: RTSPVersion::Invalid,
            headers: Vec::new(),
            body: Vec::new(),
        };
        assert(m@.headers =~= Seq::empty());
        Ok(m)
    }

    /// A request for `method` on `uri`, in RTSP/1.0, with no headers.
    pub fn new_request(method: RTSPMethod, uri: &str) -> (r: Result<RTSPMessage, RTSPResult>)
        ensures
            r matches Ok(m) && m@ == (MessageView {
                msg_type: RTSPMsgType::Request,
                method,
                uri: uri@,
                status: RTSPStatusCode::__Unknown(0),
                reason: Seq::empty(),
                version: RTSPVersion::V1_0,
                headers: Seq::empty(),
                body: Seq::empty(),
            }),
    {
        let m = RTSPMessage {
            msg_type: RTSPMsgType::Request,
            method,
            uri: uri.to_owned(),
            status: RTSPStatusCode::__Unknown(0),
            reason: String::new(),
            version: RTSPVersion::V1_0,
            headers: Vec::new(),
            body: Vec::new(),
        };
        assert(m@.headers =~= Seq::empty());
        Ok(m)
    }

    /// A response with status `code`, in RTSP/1.0. Without a reason the
    /// standard phrase of the code is used. When the request it answers is
    /// given and carries a `CSeq`, the response carries the same one.
    pub fn new_response(
        code: RTSPStatusCode,
        reason: Option<&str>,
        request: Option<&RTSPMessage>,
    ) -> (r: Result<RTSPMessage, RTSPResult>)
        ensures
            r matches Ok(m) && m@ == response_view(
                code,
                match reason {
                    Some(t) => t@,
                    None => status_reason(code),
                },
                match request {
                    Some(q) => Some(q@),
                    None => None,
                },
            ),
    {
        let reason_text = match reason {
            Some(t) => t.to_owned(),
            None => status_reason_text(code).to_owned(),
        };
        let mut m = RTSPMessage {
            msg_type: RTSPMsgType::Response,
            method: RTSPMethod::INVALID,
            uri: String::new(),
            status: code,
            reason: reason_text,
            version: RTSPVersion::V1_0,
            headers: Vec::new(),
            body: Vec::new(),
        };
        assert(m@.headers =~= Seq::empty());
        match request {
            Some(q) => {
                match q.get_header_nth(RTSPHeaderField::CSeq, 0) {
                    Some(cseq) => {
                        m.add_header(RTSPHeaderField::CSeq, cseq);
                        assert(m@.headers =~= seq![
                            (RTSPHeaderField::CSeq, header_values(q@.headers, RTSPHeaderField::CSeq)[0]),
                        ]);
                    },
                    None => {},
                }
            },
            None => {},
        }
        Ok(m)
    }

    /// Appends a header; earlier headers of the same name stay, in front of it.
    pub fn add_header(&mut self, field: RTSPHeaderField, value: &str)
        ensures
            final(self)@ == (MessageView {
                headers: old(self)@.headers.push((field, value@)),
                ..old(self)@
            }),
    {
        self.headers.push((field, value.to_owned()));
        assert(self@.headers =~= old(self)@.headers.push((field, value@)));
    }

    /// The value of the `index`-th header named `field`, counting from 0.
    pub fn get_header_nth(&self, field: RTSPHeaderField, index: usize) -> (r: Option<&str>)
        ensures
            match r {
                Some(v) => index < header_values(self@.headers, field).len() && v@ == header_values(
                    self@.headers,
                    field,
                )[index as int],
                None => index >= header_values(self@.headers, field).len(),
            },
    {
        let ghost hs = self@.headers;
        let n = self.headers.len();
        let mut count: usize = 0;
        let mut i: usize = 0;
        while i < n
            invariant
                n == self.headers@.len(),
                hs == self@.headers,
                hs.len() == n,
                i <= n,
                count as int == header_values(hs.take(i as int), field).len(),
                count <= index,
            decreases n - i,
        {
            assert(hs.take(i as int + 1).drop_last() =~= hs.take(i as int));
            assert(hs.take(i as int + 1).last() == hs[i as int]);
            assert(hs[i as int] == header_view(self.headers@[i as int]));
            if self.headers[i].0 == field {
                if count == index {
                    proof {
                        lemma_header_values_prefix(hs, i as int + 1, field);
                        assert(header_values(hs.take(i as int + 1), field)[index as int]
                            == self.headers@[i as int].1@);
                    }
                    return Some(self.headers[i].1.as_str());
                }
                count = count + 1;
            }
            i = i + 1;
        }
        assert(hs.take(n as int) =~= hs);
        None
    }

    /// The number of headers named `field` and the value of the first one:
    /// `(0, None)` when there is none.
    pub fn get_header(&self, field: RTSPHeaderField) -> (r: Result<(usize, Option<&str>), RTSPResult>)
        ensures
            r matches Ok((count, first)) && count == header_values(self@.headers, field).len()
                && match first {
                Some(v) => count > 0 && v@ == header_values(self@.headers, field)[0],
                None => count == 0,
            },
    {
        let values = self.get_headers(field);
        let first = self.get_header_nth(field, 0);
        Ok((values.len(), first))
    }

    /// The values of all headers named `field`, in the order they were added.
    pub fn get_headers(&self, field: RTSPHeaderField) -> (r: Vec<String>)
        ensures
            r@.map_values(|s: String| s@) == header_values(self@.headers, field),
    {
        let ghost hs = self@.headers;
        let n = self.headers.len();
        let mut out: Vec<String> = Vec::new();
        let mut i: usize = 0;
        while i < n
            invariant
                n == self.headers@.len(),
                hs == self@.headers,
                hs.len() == n,
                i <= n,
                out@.map_values(|s: String| s@) == header_values(hs.take(i as int), field),
            decreases n - i,
        {
            assert(hs.take(i as int + 1).drop_last() =~= hs.take(i as int));
            assert(hs[i as int] == header_view(self.headers@[i as int]));
            if self.headers[i].0 == field {
                let v = self.headers[i].1.clone();
                out.push(v);
                assert(out@.map_values(|s: String| s@) =~= header_values(hs.take(i as int + 1), field));
            } else {
                assert(out@.map_values(|s: String| s@) =~= header_values(hs.take(i as int + 1), field));
            }
            i = i + 1;
        }
        assert(hs.take(n as int) =~= hs);
        out
    }

    /// Replaces the body.
    pub fn set_body(&mut self, body: &[u8])
        ensures
            final(self)@ == (MessageView { body: body@, ..old(self)@ }),
    {
        self.body = vstd::slice::slice_to_vec(body);
    }

    pub fn body(&self) -> (r: &[u8])
        ensures
            r@ == self@.body,
    {
        self.body.as_slice()
    }

    pub fn msg_type(&self) -> (r: RTSPMsgType)
        ensures
            r == self@.msg_type,
    {
        self.msg_type
    }

    pub fn method(&self) -> (r: RTSPMethod)
        ensures
            r == self@.method,
    {
        self.method
    }

    pub fn uri(&self) -> (r: &str)
        ensures
            r@ == self@.uri,
    {
        self.uri.as_str()
    }

    pub fn status_code(&self) -> (r: RTSPStatusCode)
        ensures
            r == self@.status,
    {
        self.status
    }

    pub fn reason(&self) -> (r: &str)
        ensures
            r@ == self@.reason,
    {
        self.reason.as_str()
    }

    pub fn version(&self) -> (r: RTSPVersion)
        ensures
            r == self@.version,
    {
        self.version
    }
}

impl RTSPMessage {
    /// The text before the body, as it goes on the wire.
    pub fn head_text(&self) -> (r: String)
        ensures
            r@ == message_head(self@),
    {
        let mut s = String::new();
        match self.msg_type {
            RTSPMsgType::Request | RTSPMsgType::HttpRequest => {
                push_str(&mut s, method_name_text(self.method));
                push_str(&mut s, " ");
                push_str(&mut s, self.uri.as_str());
                push_str(&mut s, " ");
                push_str(&mut s, version_name_text(self.version));
                push_str(&mut s, "\r\n");
            },
            RTSPMsgType::Response | RTSPMsgType::HttpResponse => {
                push_str(&mut s, version_name_text(self.version));
                push_str(&mut s, " ");
                push_decimal(&mut s, status_number_of(self.status) as u64);
                push_str(&mut s, " ");
                push_str(&mut s, self.reason.as_str());
                push_str(&mut s, "\r\n");
            },
            _ => {},
        }
        assert(s@ =~= start_line(self@));
        let ghost s0 = s@;
        let ghost hs = self@.headers;
        let n = self.headers.len();
        let mut i: usize = 0;
        while i < n
            invariant
                n == self.headers@.len(),
                hs == self@.headers,
                hs.len() == n,
                i <= n,
                s@ == s0 + header_lines(hs.take(i as int)),
            decreases n - i,
        {
            assert(hs.take(i as int + 1).drop_last() =~= hs.take(i as int));
            assert(hs.take(i as int + 1).last() == hs[i as int]);
            assert(hs[i as int] == header_view(self.headers@[i as int]));
            let f = self.headers[i].0;
            let written = match f {
                RTSPHeaderField::ContentLength => false,
                RTSPHeaderField::__Unknown(_) => false,
                _ => true,
            };
            if written {
                push_str(&mut s, header_name_text(f));
                push_str(&mut s, ": ");
                push_str(&mut s, self.headers[i].1.as_str());
                push_str(&mut s, "\r\n");
            }
            i = i + 1;
            assert(s@ =~= s0 + header_lines(hs.take(i as int)));
        }
        assert(hs.take(n as int) =~= hs);
        if self.body.len() > 0 {
            push_str(&mut s, "Content-Length: ");
            push_decimal(&mut s, self.body.len() as u64);
            push_str(&mut s, "\r\n");
        }
        push_str(&mut s, "\r\n");
        assert(s@ =~= message_head(self@));
        s
    }

    /// The bytes of this message on the wire.
    pub fn to_bytes(&self) -> (r: Vec<u8>)
        ensures
            r@ == message_bytes(self@),
    {
        let head = self.head_text();
        let mut out = head.as_str().as_bytes_vec();
        let ghost h = out@;
        let n = self.body.len();
        let mut i: usize = 0;
        while i < n
            invariant
                n == self.body@.len(),
                i <= n,
                out@ == h + self.body@.subrange(0, i as int),
            decreases n - i,
        {
            out.push(self.body[i]);
            i = i + 1;
            assert(out@ =~= h + self.body@.subrange(0, i as int));
        }
        assert(self.body@.subrange(0, n as int) =~= self.body@);
        out
    }
}


// ---------------------------------------------------------------------------
// Reading a message from the wire. Each byte of the head stands for one
// character; the head ends at the first empty line.
pub open spec fn wire_chars(b: Seq<u8>) -> Seq<char> {
    b.map_values(|x: u8| x as char)
}

pub open spec fn blank_line_at(c: Seq<char>, i: int) -> bool {
    0 <= i && i + 4 <= c.len() && c[i] == '\r' && c[i + 1] == '\n' && c[i + 2] == '\r' && c[i + 3]
        == '\n'
}

/// Where the first `CR LF CR LF` begins, or the length of `c` when there is none.
pub open spec fn find_blank(c: Seq<char>, from: int) -> int
    decreases c.len() - from,
{
    if from < 0 || from + 4 > c.len() {
        c.len() as int
    } else if blank_line_at(c, from) {
        from
    } else {
        find_blank(c, from + 1)
    }
}

/// The header field a name stands for, ignoring case; unknown names give
/// `__Unknown(0)`.
pub open spec fn field_of(name: Seq<char>) -> RTSPHeaderField {
    if token_is(name, "Accept"@) {
        RTSPHeaderField::Accept
    } else if token_is(name, "Authorization"@) {
        RTSPHeaderField::Authorization
    } else if token_is(name, "Bandwidth"@) {
        RTSPHeaderField::Bandwidth
    } else if token_is(name, "Blocksize"@) {
        RTSPHeaderField::Blocksize
    } else if token_is(name, "Cache-Control"@) {
        RTSPHeaderField::CacheControl
    } else if token_is(name, "Conference"@) {
        RTSPHeaderField::Conference
    } else if token_is(name, "Connection"@) {
        RTSPHeaderField::Connection
    } else if token_is(name, "Content-Base"@) {
        RTSPHeaderField::ContentBase
    } else if token_is(name, "Content-Encoding"@) {
        RTSPHeaderField::ContentEncoding
    } else if token_is(name, "Content-Language"@) {
        RTSPHeaderField::ContentLanguage
    } else if token_is(name, "Content-Length"@) {
        RTSPHeaderField::ContentLength
    } else if token_is(name, "Content-Location"@) {
        RTSPHeaderField::ContentLocation
    } else if token_is(name, "Content-Type"@) {
        RTSPHeaderField::ContentType
    } else if token_is(name, "CSeq"@) {
        RTSPHeaderField::CSeq
    } else if token_is(name, "Date"@) {
        RTSPHeaderField::Date
    } else if token_is(name, "Expires"@) {
        RTSPHeaderField::Expires
    } else if token_is(name, "From"@) {
        RTSPHeaderField::From
    } else if token_is(name, "If-Modified-Since"@) {
        RTSPHeaderField::IfModifiedSince
    } else if token_is(name, "Last-Modified"@) {
        RTSPHeaderField::LastModified
    } else if token_is(name, "Proxy-Authenticate"@) {
        RTSPHeaderField::ProxyAuthenticate
    } else if token_is(name, "Proxy-Require"@) {
        RTSPHeaderField::ProxyRequire
    } else if token_is(name, "Public"@) {
        RTSPHeaderField::Public
    } else if token_is(name, "Range"@) {
        RTSPHeaderField::Range
    } else if token_is(name, "Referer"@) {
        RTSPHeaderField::Referer
    } else if token_is(name, "Require"@) {
        RTSPHeaderField::Require
    } else if token_is(name, "Retry-After"@) {
        RTSPHeaderField::RetryAfter
    } else if token_is(name, "RTP-Info"@) {
        RTSPHeaderField::RtpInfo
    } else if token_is(name, "Scale"@) {
        RTSPHeaderField::Scale
    } else if token_is(name, "Session"@) {
        RTSPHeaderField::Session
    } else if token_is(name, "Server"@) {
        RTSPHeaderField::Server
    } else if token_is(name, "Speed"@) {
        RTSPHeaderField::Speed
    } else if token_is(name, "Transport"@) {
        RTSPHeaderField::Transport
    } else if token_is(name, "Unsupported"@) {
        RTSPHeaderField::Unsupported
    } else if token_is(name, "User-Agent"@) {
        RTSPHeaderField::UserAgent
    } else if token_is(name, "Via"@) {
        RTSPHeaderField::Via
    } else if token_is(name, "WWW-Authenticate"@) {
        RTSPHeaderField::WwwAuthenticate
    } else {
        RTSPHeaderField::__Unknown(0)
    }
}

/// The method a request line names, spelled exactly.
pub open spec fn method_of(tok: Seq<char>) -> Option<RTSPMethod> {
    if tok == "DESCRIBE"@ {
        Some(RTSPMethod::DESCRIBE)
    } else if tok == "ANNOUNCE"@ {
        Some(RTSPMethod::ANNOUNCE)
    } else if tok == "GET_PARAMETER"@ {
        Some(RTSPMethod::GET_PARAMETER)
    } else if tok == "OPTIONS"@ {
        Some(RTSPMethod::OPTIONS)
    } else if tok == "PAUSE"@ {
        Some(RTSPMethod::PAUSE)
    } else if tok == "PLAY"@ {
        Some(RTSPMethod::PLAY)
    } else if tok == "RECORD"@ {
        Some(RTSPMethod::RECORD)
    } else if tok == "REDIRECT"@ {
        Some(RTSPMethod::REDIRECT)
    } else if tok == "SETUP"@ {
        Some(RTSPMethod::SETUP)
    } else if tok == "SET_PARAMETER"@ {
        Some(RTSPMethod::SET_PARAMETER)
    } else if tok == "TEARDOWN"@ {
        Some(RTSPMethod::TEARDOWN)
    } else if tok == "GET"@ {
        Some(RTSPMethod::GET)
    } else if tok == "POST"@ {
        Some(RTSPMethod::POST)
    } else {
        None
    }
}

pub open spec fn version_of(tok: Seq<char>) -> Option<RTSPVersion> {
    if tok == "RTSP/1.0"@ {
        Some(RTSPVersion::V1_0)
    } else if tok == "RTSP/1.1"@ {
        Some(RTSPVersion::V1_1)
    } else if tok == "RTSP/2.0"@ {
        Some(RTSPVersion::V2_0)
    } else {
        None
    }
}

/// The status code with number `n`.
pub open spec fn status_of(n: nat) -> RTSPStatusCode {
    if n == 100 {
        RTSPStatusCode::Continue
    } else if n == 200 {
        RTSPStatusCode::Success
    } else if n == 201 {
        RTSPStatusCode::Created
    } else if n == 301 {
        RTSPStatusCode::MovedPermanently
    } else if n == 302 {
        RTSPStatusCode::MoveTemporarily
    } else if n == 400 {
        RTSPStatusCode::BadRequest
    } else if n == 401 {
        RTSPStatusCode::Unauthorized
    } else if n == 403 {
        RTSPStatusCode::Forbidden
    } else if n == 404 {
        RTSPStatusCode::NotFound
    } else if n == 405 {
        RTSPStatusCode::MethodNotAllowed
    } else if n == 407 {
        RTSPStatusCode::ProxyAuthRequired
    } else if n == 408 {
        RTSPStatusCode::RequestTimeout
    } else if n == 454 {
        RTSPStatusCode::SessionNotFound
    } else if n == 455 {
        RTSPStatusCode::MethodNotValidInThisState
    } else if n == 461 {
        RTSPStatusCode::UnsupportedTransport
    } else if n == 500 {
        RTSPStatusCode::InternalServerError
    } else if n == 501 {
        RTSPStatusCode::NotImplemented
    } else if n == 503 {
        RTSPStatusCode::ServiceUnavailable
    } else if n == 505 {
        RTSPStatusCode::RtspVersionNotSupported
    } else {
        RTSPStatusCode::__Unknown(n as i32)
    }
}

fn field_at(v: &Vec<char>, lo: usize, hi: usize) -> (r: RTSPHeaderField)
    requires
        lo <= hi <= v@.len(),
    ensures
        r == field_of(v@.subrange(lo as int, hi as int)),
{
    if token_matches(v, lo, hi, "Accept") {
        RTSPHeaderField::Accept
    } else if token_matches(v, lo, hi, "Authorization") {
        RTSPHeaderField::Authorization
    } else if token_matches(v, lo, hi, "Bandwidth") {
        RTSPHeaderField::Bandwidth
    } else if token_matches(v, lo, hi, "Blocksize") {
        RTSPHeaderField::Blocksize
    } else if token_matches(v, lo, hi, "Cache-Control") {
        RTSPHeaderField::CacheControl
    } else if token_matches(v, lo, hi, "Conference") {
        RTSPHeaderField::Conference
    } else if token_matches(v, lo, hi, "Connection") {
        RTSPHeaderField::Connection
    } else if token_matches(v, lo, hi, "Content-Base") {
        RTSPHeaderField::ContentBase
    } else if token_matches(v, lo, hi, "Content-Encoding") {
        RTSPHeaderField::ContentEncoding
    } else if token_matches(v, lo, hi, "Content-Language") {
        RTSPHeaderField::ContentLanguage
    } else if token_matches(v, lo, hi, "Content-Length") {
        RTSPHeaderField::ContentLength
    } else if token_matches(v, lo, hi, "Content-Location") {
        RTSPHeaderField::ContentLocation
    } else if token_matches(v, lo, hi, "Content-Type") {
        RTSPHeaderField::ContentType
    } else if token_matches(v, lo, hi, "CSeq") {
        RTSPHeaderField::CSeq
    } else if token_matches(v, lo, hi, "Date") {
        RTSPHeaderField::Date
    } else if token_matches(v, lo, hi, "Expires") {
        RTSPHeaderField::Expires
    } else if token_matches(v, lo, hi, "From") {
        RTSPHeaderField::From
    } else if token_matches(v, lo, hi, "If-Modified-Since") {
        RTSPHeaderField::IfModifiedSince
    } else if token_matches(v, lo, hi, "Last-Modified") {
        RTSPHeaderField::LastModified
    } else if token_matches(v, lo, hi, "Proxy-Authenticate") {
        RTSPHeaderField::ProxyAuthenticate
    } else if token_matches(v, lo, hi, "Proxy-Require") {
        RTSPHeaderField::ProxyRequire
    } else if token_matches(v, lo, hi, "Public") {
        RTSPHeaderField::Public
    } else if token_matches(v, lo, hi, "Range") {
        RTSPHeaderField::Range
    } else if token_matches(v, lo, hi, "Referer") {
        RTSPHeaderField::Referer
    } else if token_matches(v, lo, hi, "Require") {
        RTSPHeaderField::Require
    } else if token_matches(v, lo, hi, "Retry-After") {
        RTSPHeaderField::RetryAfter
    } else if token_matches(v, lo, hi, "RTP-Info") {
        RTSPHeaderField::RtpInfo
    } else if token_matches(v, lo, hi, "Scale") {
        RTSPHeaderField::Scale
    } else if token_matches(v, lo, hi, "Session") {
        RTSPHeaderField::Session
    } else if token_matches(v, lo, hi, "Server") {
        RTSPHeaderField::Server
    } else if token_matches(v, lo, hi, "Speed") {
        RTSPHeaderField::Speed
    } else if token_matches(v, lo, hi, "Transport") {
        RTSPHeaderField::Transport
    } else if token_matches(v, lo, hi, "Unsupported") {
        RTSPHeaderField::Unsupported
    } else if token_matches(v, lo, hi, "User-Agent") {
        RTSPHeaderField::UserAgent
    } else if token_matches(v, lo, hi, "Via") {
        RTSPHeaderField::Via
    } else if token_matches(v, lo, hi, "WWW-Authenticate") {
        RTSPHeaderField::WwwAuthenticate
    } else {
        RTSPHeaderField::__Unknown(0)
    }
}

fn method_at(v: &Vec<char>, lo: usize, hi: usize) -> (r: Option<RTSPMethod>)
    requires
        lo <= hi <= v@.len(),
    ensures
        r == method_of(v@.subrange(lo as int, hi as int)),
{
    if same_text(v, lo, hi, "DESCRIBE") {
        Some(RTSPMethod::DESCRIBE)
    } else if same_text(v, lo, hi, "ANNOUNCE") {
        Some(RTSPMethod::ANNOUNCE)
    } else if same_text(v, lo, hi, "GET_PARAMETER") {
        Some(RTSPMethod::GET_PARAMETER)
    } else if same_text(v, lo, hi, "OPTIONS") {
        Some(RTSPMethod::OPTIONS)
    } else if same_text(v, lo, hi, "PAUSE") {
        Some(RTSPMethod::PAUSE)
    } else if same_text(v, lo, hi, "PLAY") {
        Some(RTSPMethod::PLAY)
    } else if same_text(v, lo, hi, "RECORD") {
        Some(RTSPMethod::RECORD)
    } else if same_text(v, lo, hi, "REDIRECT") {
        Some(RTSPMethod::REDIRECT)
    } else if same_text(v, lo, hi, "SETUP") {
        Some(RTSPMethod::SETUP)
    } else if same_text(v, lo, hi, "SET_PARAMETER") {
        Some(RTSPMethod::SET_PARAMETER)
    } else if same_text(v, lo, hi, "TEARDOWN") {
        Some(RTSPMethod::TEARDOWN)
    } else if same_text(v, lo, hi, "GET") {
        Some(RTSPMethod::GET)
    } else if same_text(v, lo, hi, "POST") {
        Some(RTSPMethod::POST)
    } else {
        None
    }
}

fn version_at(v: &Vec<char>, lo: usize, hi: usize) -> (r: Option<RTSPVersion>)
    requires
        lo <= hi <= v@.len(),
    ensures
        r == version_of(v@.subrange(lo as int, hi as int)),
{
    if same_text(v, lo, hi, "RTSP/1.0") {
        Some(RTSPVersion::V1_0)
    } else if same_text(v, lo, hi, "RTSP/1.1") {
        Some(RTSPVersion::V1_1)
    } else if same_text(v, lo, hi, "RTSP/2.0") {
        Some(RTSPVersion::V2_0)
    } else {
        None
    }
}

fn status_from(n: u32) -> (r: RTSPStatusCode)
    requires
        n <= 999,
    ensures
        r == status_of(n as nat),
{
    if n == 100 {
        RTSPStatusCode::Continue
    } else if n == 200 {
        RTSPStatusCode::Success
    } else if n == 201 {
        RTSPStatusCode::Created
    } else if n == 301 {
        RTSPStatusCode::MovedPermanently
    } else if n == 302 {
        RTSPStatusCode::MoveTemporarily
    } else if n == 400 {
        RTSPStatusCode::BadRequest
    } else if n == 401 {
        RTSPStatusCode::Unauthorized
    } else if n == 403 {
        RTSPStatusCode::Forbidden
    } else if n == 404 {
        RTSPStatusCode::NotFound
    } else if n == 405 {
        RTSPStatusCode::MethodNotAllowed
    } else if n == 407 {
        RTSPStatusCode::ProxyAuthRequired
    } else if n == 408 {
        RTSPStatusCode::RequestTimeout
    } else if n == 454 {
        RTSPStatusCode::SessionNotFound
    } else if n == 455 {
        RTSPStatusCode::MethodNotValidInThisState
    } else if n == 461 {
        RTSPStatusCode::UnsupportedTransport
    } else if n == 500 {
        RTSPStatusCode::InternalServerError
    } else if n == 501 {
        RTSPStatusCode::NotImplemented
    } else if n == 503 {
        RTSPStatusCode::ServiceUnavailable
    } else if n == 505 {
        RTSPStatusCode::RtspVersionNotSupported
    } else {
        RTSPStatusCode::__Unknown(n as i32)
    }
}

/// The start line in `[0, e)`: `METHOD URI VERSION` or `VERSION CODE REASON`.
pub open spec fn parse_start(c: Seq<char>, e: int) -> Option<MessageView> {
    let sp1 = find_char(c, 0, e, ' ');
    let sp2 = find_char(c, sp1 + 1, e, ' ');
    if has_prefix(c.subrange(0, e), "RTSP/"@) {
        if sp1 >= e {
            None
        } else {
            match (version_of(c.subrange(0, sp1)), parse_number(c.subrange(sp1 + 1, sp2), 10, 999)) {
                (Some(v), Some(n)) => Some(
                    MessageView {
                        msg_type: RTSPMsgType::Response,
                        method: RTSPMethod::INVALID,
                        uri: Seq::empty(),
                        status: status_of(n),
                        reason: if sp2 < e {
                            c.subrange(sp2 + 1, e)
                        } else {
                            Seq::empty()
                        },
                        version: v,
                        headers: Seq::empty(),
                        body: Seq::empty(),
                    },
                ),
                _ => None,
            }
        }
    } else if sp1 >= e || sp2 >= e {
        None
    } else {
        match (method_of(c.subrange(0, sp1)), version_of(c.subrange(sp2 + 1, e))) {
            (Some(m), Some(v)) => Some(
                MessageView {
                    msg_type: RTSPMsgType::Request,
                    method: m,
                    uri: c.subrange(sp1 + 1, sp2),
                    status: RTSPStatusCode::__Unknown(0),
                    reason: Seq::empty(),
                    version: v,
                    headers: Seq::empty(),
                    body: Seq::empty(),
                },
            ),
            _ => None,
        }
    }
}

/// The header lines from `from` to `p`, each `Name: value` and ended by `CR LF`,
/// added to `acc`; spaces after the colon are skipped.
pub open spec fn parse_header_lines(
    c: Seq<char>,
    from: int,
    p: int,
    acc: Seq<(RTSPHeaderField, Seq<char>)>,
) -> Option<Seq<(RTSPHeaderField, Seq<char>)>>
    decreases p - from,
{
    if from >= p {
        Some(acc)
    } else {
        let e = find_char(c, from, p, '\r');
        let colon = find_char(c, from, e, ':');
        if colon >= e {
            None
        } else {
            let vs = skip_spaces(c, colon + 1, e);
            let acc2 = acc.push((field_of(c.subrange(from, colon)), c.subrange(vs, e)));
            if e >= p {
                Some(acc2)
            } else if from <= e && e + 1 < p && c[e + 1] == '\n' {
                parse_header_lines(c, e + 2, p, acc2)
            } else {
                None
            }
        }
    }
}

/// The message whose head is `[0, p)`, without its body.
pub open spec fn parse_message_head(c: Seq<char>, p: int) -> Option<MessageView> {
    let e0 = find_char(c, 0, p, '\r');
    match parse_start(c, e0) {
        None => None,
        Some(m) => {
            let hs = if e0 >= p {
                Some(Seq::empty())
            } else if e0 + 1 < p && c[e0 + 1] == '\n' {
                parse_header_lines(c, e0 + 2, p, Seq::empty())
            } else {
                None
            };
            match hs {
                None => None,
                Some(h) => Some(MessageView { headers: h, ..m }),
            }
        },
    }
}

/// The body length announced by the first `Content-Length` header; 0 without one.
pub open spec fn content_length(hs: Seq<(RTSPHeaderField, Seq<char>)>) -> Option<nat> {
    if header_values(hs, RTSPHeaderField::ContentLength).len() > 0 {
        parse_number(header_values(hs, RTSPHeaderField::ContentLength)[0], 10, 0xffff_ffff)
    } else {
        Some(0)
    }
}

/// What the bytes at the front of an input stream hold.
pub enum Incoming {
    /// The head has not ended yet.
    Incomplete,
    /// The head is not a message.
    Malformed,
    /// A message head of the given length, announcing a body of the given length.
    Complete(MessageView, nat, nat),
}

pub open spec fn incoming(b: Seq<u8>) -> Incoming {
    let c = wire_chars(b);
    let p = find_blank(c, 0);
    if p + 4 > c.len() {
        Incoming::Incomplete
    } else {
        match parse_message_head(c, p) {
            None => Incoming::Malformed,
            Some(m) => match content_length(m.headers) {
                None => Incoming::Malformed,
                Some(n) => Incoming::Complete(m, (p + 4) as nat, n),
            },
        }
    }
}

/// What `read_wire` found.
pub enum WireRead {
    Incomplete,
    Malformed,
    /// The message without its body, the length of its head, and of its body.
    Complete(RTSPMessage, usize, u32),
}

fn wire_chars_of(b: &Vec<u8>) -> (r: Vec<char>)
    ensures
        r@ == wire_chars(b@),
{
    let n = b.len();
    let mut r: Vec<char> = Vec::new();
    let mut i: usize = 0;
    while i < n
        invariant
            n == b@.len(),
            i <= n,
            r@.len() == i,
            forall|k: int| 0 <= k < i ==> r@[k] == b@[k] as char,
        decreases n - i,
    {
        r.push(b[i] as char);
        i = i + 1;
    }
    assert(r@ =~= wire_chars(b@));
    r
}

fn find_blank_at(c: &Vec<char>) -> (r: usize)
    ensures
        r == find_blank(c@, 0),
{
    let n = c.len();
    let mut i: usize = 0;
    while n >= 4 && i <= n - 4 && !(c[i] == '\r' && c[i + 1] == '\n' && c[i + 2] == '\r' && c[i + 3] == '\n')
        invariant
            n == c@.len(),
            i <= n,
            find_blank(c@, 0) == find_blank(c@, i as int),
        decreases n - i,
    {
        i = i + 1;
    }
    if n >= 4 && i <= n - 4 {
        i
    } else {
        n
    }
}

fn parse_start_at(c: &Vec<char>, e: usize) -> (r: Option<RTSPMessage>)
    requires
        e <= c@.len(),
    ensures
        match (r, parse_start(c@, e as int)) {
            (Some(m), Some(v)) => m@ == v,
            (None, None) => true,
            _ => false,
        },
{
    let sp1 = find(c, 0, e, ' ');
    let sp2 = if sp1 < e {
        find(c, sp1 + 1, e, ' ')
    } else {
        e
    };
    proof {
        if sp1 >= e {
            assert(find_char(c@, sp1 + 1, e as int, ' ') == e);
        }
    }
    if starts_with(c, 0, e, "RTSP/") {
        if sp1 >= e {
            return None;
        }
        let v = version_at(c, 0, sp1);
        let code = read_number(c, sp1 + 1, sp2, 10, 999);
        match (v, code) {
            (Some(v), Some(n)) => {
                let reason = if sp2 < e {
                    string_of(c, sp2 + 1, e)
                } else {
                    String::new()
                };
                let m = RTSPMessage {
                    msg_type: RTSPMsgType::Response,
                    method: RTSPMethod::INVALID,
                    uri: String::new(),
                    status: status_from(n),
                    reason,
                    version: v,
                    headers: Vec::new(),
                    body: Vec::new(),
                };
                assert(m@.headers =~= Seq::empty());
                Some(m)
            },
            _ => None,
        }
    } else if sp1 >= e || sp2 >= e {
        None
    } else {
        let meth = method_at(c, 0, sp1);
        let v = version_at(c, sp2 + 1, e);
        match (meth, v) {
            (Some(meth), Some(v)) => {
                let m = RTSPMessage {
                    msg_type: RTSPMsgType::Request,
                    method: meth,
                    uri: string_of(c, sp1 + 1, sp2),
                    status: RTSPStatusCode::__Unknown(0),
                    reason: String::new(),
                    version: v,
                    headers: Vec::new(),
                    body: Vec::new(),
                };
                assert(m@.headers =~= Seq::empty());
                Some(m)
            },
            _ => None,
        }
    }
}

impl RTSPMessage {
    fn read_header_lines(&mut self, c: &Vec<char>, start: usize, p: usize) -> (ok: bool)
        requires
            start <= p <= c@.len(),
        ensures
            ok == parse_header_lines(c@, start as int, p as int, old(self)@.headers) is Some,
            ok ==> final(self)@ == (MessageView {
                headers: parse_header_lines(c@, start as int, p as int, old(self)@.headers).unwrap(),
                ..old(self)@
            }),
    {
        let mut from: usize = start;
        while from < p
            invariant
                start <= from <= p <= c@.len(),
                parse_header_lines(c@, start as int, p as int, old(self)@.headers)
                    == parse_header_lines(c@, from as int, p as int, self@.headers),
                self@ == (MessageView { headers: self@.headers, ..old(self)@ }),
            decreases p - from,
        {
            let e = find(c, from, p, '\r');
            let colon = find(c, from, e, ':');
            if colon >= e {
                return false;
            }
            let vs = skip_space(c, colon + 1, e);
            let field = field_at(c, from, colon);
            let value = string_of(c, vs, e);
            let ghost before = self@.headers;
            self.headers.push((field, value));
            assert(self@.headers =~= before.push((field_of(c@.subrange(from as int, colon as int)), c@.subrange(vs as int, e as int))));
            if e >= p {
                return true;
            }
            if !(e + 1 < p && c[e + 1] == '\n') {
                return false;
            }
            from = e + 2;
        }
        true
    }
}

fn parse_message_head_at(c: &Vec<char>, p: usize) -> (r: Option<RTSPMessage>)
    requires
        p <= c@.len(),
    ensures
        match (r, parse_message_head(c@, p as int)) {
            (Some(m), Some(v)) => m@ == v,
            (None, None) => true,
            _ => false,
        },
{
    let e0 = find(c, 0, p, '\r');
    let mut m = match parse_start_at(c, e0) {
        Some(m) => m,
        None => {
            return None;
        },
    };
    if e0 >= p {
        return Some(m);
    }
    if !(e0 + 1 < p && c[e0 + 1] == '\n') {
        return None;
    }
    if m.read_header_lines(c, e0 + 2, p) {
        Some(m)
    } else {
        None
    }
}

/// Reads the message at the front of `bytes`, as far as its head goes.
pub fn read_wire(bytes: &Vec<u8>) -> (r: WireRead)
    ensures
        match (r, incoming(bytes@)) {
            (WireRead::Incomplete, Incoming::Incomplete) => true,
            (WireRead::Malformed, Incoming::Malformed) => true,
            (WireRead::Complete(m, h, n), Incoming::Complete(mv, hv, nv)) => m@ == mv && h == hv
                && n == nv,
            _ => false,
        },
{
    let c = wire_chars_of(bytes);
    let p = find_blank_at(&c);
    if p >= c.len() || c.len() - p < 4 {
        return WireRead::Incomplete;
    }
    let m = match parse_message_head_at(&c, p) {
        Some(m) => m,
        None => {
            return WireRead::Malformed;
        },
    };
    let n = match m.get_header_nth(RTSPHeaderField::ContentLength, 0) {
        Some(v) => {
            let vc = chars_of(v);
            match read_number(&vc, 0, vc.len(), 10, 0xffff_ffff) {
                Some(n) => {
                    assert(vc@.subrange(0, vc@.len() as int) =~= vc@);
                    n
                },
                None => {
                    assert(vc@.subrange(0, vc@.len() as int) =~= vc@);
                    return WireRead::Malformed;
                },
            }
        },
        None => 0,
    };
    WireRead::Complete(m, p + 4, n)
}

} // verus!
