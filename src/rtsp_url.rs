//! RTSP resource locators: `rtsp://[user[:pass]@]host[:port][/path][?query]`,
//! and `rtsps://` for the secure variant. A host may be a bracketed IPv6 literal.
use vstd::prelude::*;

use crate::enums::RTSPResult;
use crate::text::{chars_of, find, find_char, parse_number, read_number, string_of, token_is, token_matches};

verus! {

pub const DEFAULT_PORT: u16 = 554;

pub const DEFAULT_SECURE_PORT: u16 = 322;

/// What a URL holds, with its parts as character sequences.
pub struct UrlView {
    pub secure: bool,
    pub user: Option<Seq<char>>,
    pub passwd: Option<Seq<char>>,
    pub host: Seq<char>,
    pub port: Option<u16>,
    pub abspath: Seq<char>,
    pub query: Option<Seq<char>>,
}

/// A parsed RTSP URL.
#[derive(Clone, Debug)]
pub struct RTSPUrl {
    secure: bool,
    user: Option<String>,
    passwd: Option<String>,
    host: String,
    port: Option<u16>,
    abspath: String,
    query: Option<String>,
}

pub open spec fn opt_chars(o: Option<String>) -> Option<Seq<char>> {
    match o {
        Some(s) => Some(s@),
        None => None,
    }
}

impl View for RTSPUrl {
    type V = UrlView;

    closed spec fn view(&self) -> UrlView {
        UrlView {
            secure: self.secure,
            user: opt_chars(self.user),
            passwd: opt_chars(self.passwd),
            host: self.host@,
            port: self.port,
            abspath: self.abspath@,
            query: opt_chars(self.query),
        }
    }
}

/// The port a URL without one stands for.
pub open spec fn scheme_default_port(secure: bool) -> u16 {
    if secure {
        DEFAULT_SECURE_PORT
    } else {
        DEFAULT_PORT
    }
}

/// Where the part after the scheme begins, and whether the scheme is the secure one.
pub open spec fn url_scheme(s: Seq<char>) -> Option<(int, bool)> {
    if s.len() >= 7 && token_is(s.subrange(0, 7), "rtsp://"@) {
        Some((7, false))
    } else if s.len() >= 8 && token_is(s.subrange(0, 8), "rtsps://"@) {
        Some((8, true))
    } else {
        None
    }
}

/// The host and the explicit port written in `[lo, hi)`.
pub open spec fn url_host_port(s: Seq<char>, lo: int, hi: int) -> Option<(Seq<char>, Option<u16>)> {
    if lo < hi && s[lo] == '[' {
        let rb = find_char(s, lo, hi, ']');
        if rb >= hi {
            None
        } else if rb + 1 == hi {
            Some((s.subrange(lo + 1, rb), None))
        } else if s[rb + 1] == ':' {
            match parse_number(s.subrange(rb + 2, hi), 10, 65535) {
                Some(p) => Some((s.subrange(lo + 1, rb), Some(p as u16))),
                None => None,
            }
        } else {
            None
        }
    } else {
        let c = find_char(s, lo, hi, ':');
        if c >= hi {
            Some((s.subrange(lo, hi), None))
        } else {
            match parse_number(s.subrange(c + 1, hi), 10, 65535) {
                Some(p) => Some((s.subrange(lo, c), Some(p as u16))),
                None => None,
            }
        }
    }
}

/// The URL that `s` spells, or `None` when the scheme is not `rtsp` or `rtsps`,
/// the host is empty, or the port is not a number below 65536.
pub open spec fn parse_url(s: Seq<char>) -> Option<UrlView> {
    match url_scheme(s) {
        None => None,
        Some((start, secure)) => {
            let n = s.len() as int;
            let q = find_char(s, start, n, '?');
            let p = find_char(s, start, q, '/');
            let at = find_char(s, start, p, '@');
            let c = find_char(s, start, at, ':');
            let hstart = if at < p {
                at + 1
            } else {
                start
            };
            match url_host_port(s, hstart, p) {
                None => None,
                Some((host, port)) => if host.len() == 0 {
                    None
                } else {
                    Some(
                        UrlView {
                            secure,
                            user: if at < p {
                                Some(s.subrange(start, c))
                            } else {
                                None
                            },
                            passwd: if at < p && c < at {
                                Some(s.subrange(c + 1, at))
                            } else {
                                None
                            },
                            host,
                            port,
                            abspath: if p < q {
                                s.subrange(p, q)
                            } else {
                                "/"@
                            },
                            query: if q < n {
                                Some(s.subrange(q + 1, n))
                            } else {
                                None
                            },
                        },
                    )
                },
            }
        },
    }
}

fn host_port_at(v: &Vec<char>, lo: usize, hi: usize) -> (r: Option<(String, Option<u16>)>)
    requires
        lo <= hi <= v@.len(),
    ensures
        match (r, url_host_port(v@, lo as int, hi as int)) {
            (Some((h, p)), Some((hs, ps))) => h@ == hs && p == ps,
            (None, None) => true,
            _ => false,
        },
{
    if lo < hi && v[lo] == '[' {
        let rb = find(v, lo, hi, ']');
        if rb >= hi {
            None
        } else if rb + 1 == hi {
            Some((string_of(v, lo + 1, rb), None))
        } else if v[rb + 1] == ':' {
            match read_number(v, rb + 2, hi, 10, 65535) {
                Some(p) => Some((string_of(v, lo + 1, rb), Some(p as u16))),
                None => None,
            }
        } else {
            None
        }
    } else {
        let c = find(v, lo, hi, ':');
        if c >= hi {
            Some((string_of(v, lo, hi), None))
        } else {
            match read_number(v, c + 1, hi, 10, 65535) {
                Some(p) => Some((string_of(v, lo, c), Some(p as u16))),
                None => None,
            }
        }
    }
}

fn copy_opt(o: &Option<String>) -> (r: Option<String>)
    ensures
        opt_chars(r) == opt_chars(*o),
{
    match o {
        Some(s) => Some(s.clone()),
        None => None,
    }
}

impl RTSPUrl {
    pub open spec fn for_peer_view(host: Seq<char>, port: u16) -> UrlView {
        UrlView {
            secure: false,
            user: None,
            passwd: None,
            host,
            port: Some(port),
            abspath: "/"@,
            query: None,
        }
    }

    /// The URL of a peer known by its address: `rtsp://host:port/`.
    pub fn for_peer(host: &str, port: u16) -> (r: RTSPUrl)
        ensures
            r@ == RTSPUrl::for_peer_view(host@, port),
    {
        RTSPUrl {
            secure: false,
            user: None,
            passwd: None,
            host: host.to_owned(),
            port: Some(port),
            abspath: "/".to_owned(),
            query: None,
        }
    }

    /// A copy of this URL.
    pub fn copy(&self) -> (r: RTSPUrl)
        ensures
            r@ == self@,
    {
        RTSPUrl {
            secure: self.secure,
            user: copy_opt(&self.user),
            passwd: copy_opt(&self.passwd),
            host: self.host.clone(),
            port: self.port,
            abspath: self.abspath.clone(),
            query: copy_opt(&self.query),
        }
    }

    /// Parses `urlstr`; the result code is `Success` exactly when a URL comes back.
    pub fn parse(urlstr: &str) -> (r: (RTSPResult, Option<RTSPUrl>))
        ensures
            parse_url(urlstr@) is None ==> r.0 == RTSPResult::Einval && r.1 is None,
            parse_url(urlstr@) matches Some(u) ==> r.0 == RTSPResult::Success && (r.1 matches Some(
                url,
            ) && url@ == u),
    {
        let v = chars_of(urlstr);
        let n = v.len();
        let start: usize;
        let secure: bool;
        if n >= 7 && token_matches(&v, 0, 7, "rtsp://") {
            start = 7;
            secure = false;
        } else if n >= 8 && token_matches(&v, 0, 8, "rtsps://") {
            start = 8;
            secure = true;
        } else {
            return (RTSPResult::Einval, None);
        }
        let q = find(&v, start, n, '?');
        let p = find(&v, start, q, '/');
        let at = find(&v, start, p, '@');
        let c = find(&v, start, at, ':');
        let hstart = if at < p {
            at + 1
        } else {
            start
        };
        let (host, port) = match host_port_at(&v, hstart, p) {
            None => {
                return (RTSPResult::Einval, None);
            },
            Some(hp) => hp,
        };
        if host.as_str().unicode_len() == 0 {
            return (RTSPResult::Einval, None);
        }
        let user = if at < p {
            Some(string_of(&v, start, c))
        } else {
            None
        };
        let passwd = if at < p && c < at {
            Some(string_of(&v, c + 1, at))
        } else {
            None
        };
        let abspath = if p < q {
            string_of(&v, p, q)
        } else {
            "/".to_owned()
        };
        let query = if q < n {
            Some(string_of(&v, q + 1, n))
        } else {
            None
        };
        let url = RTSPUrl { secure, user, passwd, host, port, abspath, query };
        assert(url@ == parse_url(urlstr@).unwrap());
        (RTSPResult::Success, Some(url))
    }

    /// The port to connect to: the one written in the URL, or the scheme's default.
    pub fn get_port(&self) -> (r: u16)
        ensures
            r == match self@.port {
                Some(p) => p,
                None => scheme_default_port(self@.secure),
            },
    {
        match self.port {
            Some(p) => p,
            None => if self.secure {
                DEFAULT_SECURE_PORT
            } else {
                DEFAULT_PORT
            },
        }
    }

    pub fn is_secure(&self) -> (r: bool)
        ensures
            r == self@.secure,
    {
        self.secure
    }

    pub fn host(&self) -> (r: &str)
        ensures
            r@ == self@.host,
    {
        self.host.as_str()
    }

    pub fn abspath(&self) -> (r: &str)
        ensures
            r@ == self@.abspath,
    {
        self.abspath.as_str()
    }

    pub fn query(&self) -> (r: Option<&str>)
        ensures
            match r {
                Some(q) => self@.query == Some(q@),
                None => self@.query is None,
            },
    {
        match &self.query {
            Some(q) => Some(q.as_str()),
            None => None,
        }
    }

    pub fn user(&self) -> (r: Option<&str>)
        ensures
            match r {
                Some(u) => self@.user == Some(u@),
                None => self@.user is None,
            },
    {
        match &self.user {
            Some(u) => Some(u.as_str()),
            None => None,
        }
    }

    pub fn passwd(&self) -> (r: Option<&str>)
        ensures
            match r {
                Some(p) => self@.passwd == Some(p@),
                None => self@.passwd is None,
            },
    {
        match &self.passwd {
            Some(p) => Some(p.as_str()),
            None => None,
        }
    }
}

} // verus!
