//! Shortcuts for common transports, and small lookups.
use vstd::prelude::*;

use crate::builders::RTSPTransportBuilder;
use crate::enums::{RTSPLowerTrans, RTSPProfile, RTSPResult, RTSPTransMode};
use crate::rtsp_transport::{
    empty_view, parsed_transport, transport_text, RTSPRange, RTSPTransport, TransportView,
};
use crate::text::{chars_of, find, find_char, string_of};

verus! {

/// Parses a transport string; see `RTSPTransport::parse`.
pub fn parse_transport(transport_str: &str) -> (r: Result<RTSPTransport, RTSPResult>)
    ensures
        parsed_transport(transport_str@) is None <==> r is Err,
        r matches Ok(t) ==> t@ == parsed_transport(transport_str@).unwrap(),
        r matches Err(e) ==> e == RTSPResult::Einval,
{
    RTSPTransport::parse(transport_str)
}

/// The text form of a transport; see `RTSPTransport::as_text`.
pub fn format_transport(transport: &RTSPTransport) -> (r: String)
    ensures
        r@ == transport_text(transport@),
{
    transport.as_text()
}

/// The content type of streams with this protocol and profile: RTP streams
/// are `application/x-srtp` with a secure profile and `application/x-rtp`
/// otherwise, RDT streams `application/x-rdt`, anything else
/// `application/octet-stream`.
pub open spec fn mime_of(trans: RTSPTransMode, profile: RTSPProfile) -> Seq<char> {
    match trans {
        RTSPTransMode::RTP => match profile {
            RTSPProfile::SAVP | RTSPProfile::SAVPF => "application/x-srtp"@,
            _ => "application/x-rtp"@,
        },
        RTSPTransMode::RDT => "application/x-rdt"@,
        _ => "application/octet-stream"@,
    }
}

pub fn transport_get_mime(trans: RTSPTransMode, profile: RTSPProfile) -> (r: &'static str)
    ensures
        r@ == mime_of(trans, profile),
{
    match trans {
        RTSPTransMode::RTP => match profile {
            RTSPProfile::SAVP | RTSPProfile::SAVPF => "application/x-srtp",
            _ => "application/x-rtp",
        },
        RTSPTransMode::RDT => "application/x-rdt",
        _ => "application/octet-stream",
    }
}

/// The element that manages streams of protocol `trans`: `rtpbin` for RTP,
/// `rdtmanager` for RDT, none otherwise.
pub fn transport_get_manager(trans: RTSPTransMode, _option: u32) -> (r: Option<&'static str>)
    ensures
        match trans {
            RTSPTransMode::RTP => r matches Some(m) && m@ == "rtpbin"@,
            RTSPTransMode::RDT => r matches Some(m) && m@ == "rdtmanager"@,
            _ => r is None,
        },
{
    match trans {
        RTSPTransMode::RTP => Some("rtpbin"),
        RTSPTransMode::RDT => Some("rdtmanager"),
        _ => None,
    }
}

/// The default port: 322 for RTSPS, 554 for RTSP.
pub fn default_port(secure: bool) -> (r: u16)
    ensures
        r == (if secure {
            322u16
        } else {
            554u16
        }),
{
    if secure {
        322
    } else {
        554
    }
}

/// One `key=value` pair of a query in `[lo, hi)`; without `=` the value is empty.
pub open spec fn query_pair(s: Seq<char>, lo: int, hi: int) -> (Seq<char>, Seq<char>) {
    let eq = find_char(s, lo, hi, '=');
    if eq < hi {
        (s.subrange(lo, eq), s.subrange(eq + 1, hi))
    } else {
        (s.subrange(lo, hi), Seq::empty())
    }
}

/// The `&`-separated pairs from `from` to the end of `s`.
pub open spec fn query_pairs(s: Seq<char>, from: int) -> Seq<(Seq<char>, Seq<char>)>
    decreases s.len() - from,
{
    let e = find_char(s, from, s.len() as int, '&');
    if from <= e < s.len() {
        seq![query_pair(s, from, e)] + query_pairs(s, e + 1)
    } else {
        seq![query_pair(s, from, e)]
    }
}

/// The options in the query of `uri`: what follows the first `?`, as
/// `&`-separated pairs. A URI without `?` has none.
pub open spec fn uri_options(s: Seq<char>) -> Seq<(Seq<char>, Seq<char>)> {
    let q = find_char(s, 0, s.len() as int, '?');
    if q < s.len() {
        query_pairs(s, q + 1)
    } else {
        Seq::empty()
    }
}

pub open spec fn string_pair_view(p: (String, String)) -> (Seq<char>, Seq<char>) {
    (p.0@, p.1@)
}

pub fn options_from_uri(uri: &str) -> (r: Vec<(String, String)>)
    ensures
        r@.map_values(|p: (String, String)| string_pair_view(p)) == uri_options(uri@),
{
    let v = chars_of(uri);
    let n = v.len();
    let mut options: Vec<(String, String)> = Vec::new();
    let q = find(&v, 0, n, '?');
    if q >= n {
        assert(options@.map_values(|p: (String, String)| string_pair_view(p)) =~= Seq::empty());
        return options;
    }
    let mut from: usize = q + 1;
    while true
        invariant
            n == v@.len(),
            v@ == uri@,
            from <= n,
            q < n,
            q == find_char(v@, 0, n as int, '?'),
            options@.map_values(|p: (String, String)| string_pair_view(p)) + query_pairs(
                v@,
                from as int,
            ) == query_pairs(v@, q + 1),
        decreases n - from,
    {
        let e = find(&v, from, n, '&');
        let eq = find(&v, from, e, '=');
        let pair = if eq < e {
            (string_of(&v, from, eq), string_of(&v, eq + 1, e))
        } else {
            (string_of(&v, from, e), String::new())
        };
        let ghost before = options@.map_values(|p: (String, String)| string_pair_view(p));
        options.push(pair);
        assert(options@.map_values(|p: (String, String)| string_pair_view(p)) =~= before.push(
            query_pair(v@, from as int, e as int),
        ));
        if e >= n {
            assert(query_pairs(v@, from as int) =~= seq![query_pair(v@, from as int, e as int)]);
            assert(options@.map_values(|p: (String, String)| string_pair_view(p)) =~= before
                + query_pairs(v@, from as int));
            assert(uri_options(uri@) == query_pairs(v@, q + 1));
            return options;
        }
        assert(before + query_pairs(v@, from as int) =~= before.push(
            query_pair(v@, from as int, e as int),
        ) + query_pairs(v@, e + 1));
        from = e + 1;
    }
    options
}

/// An RTP/AVP transport over unicast UDP on the given client ports.
pub fn create_rtp_transport(client_port_min: i32, client_port_max: i32) -> (r: Result<
    RTSPTransport,
    RTSPResult,
>)
    ensures
        r matches Ok(t) && t@ == (TransportView {
            trans: RTSPTransMode::RTP,
            profile: RTSPProfile::AVP,
            lower_transport: RTSPLowerTrans::UDP,
            client_port: RTSPRange { min: client_port_min, max: client_port_max },
            ..empty_view()
        }),
{
    let b = match RTSPTransportBuilder::new() {
        Ok(b) => b,
        Err(e) => {
            return Err(e);
        },
    };
    b.protocol(RTSPTransMode::RTP).profile(RTSPProfile::AVP).lower_transport(
        RTSPLowerTrans::UDP,
    ).client_ports(client_port_min, client_port_max).build()
}

/// An RTP/AVP transport interleaved on the TCP control connection, on the
/// given channels.
pub fn create_tcp_transport(channel_min: i32, channel_max: i32) -> (r: Result<
    RTSPTransport,
    RTSPResult,
>)
    ensures
        r matches Ok(t) && t@ == (TransportView {
            trans: RTSPTransMode::RTP,
            profile: RTSPProfile::AVP,
            lower_transport: RTSPLowerTrans::TCP,
            interleaved: RTSPRange { min: channel_min, max: channel_max },
            ..empty_view()
        }),
{
    let b = match RTSPTransportBuilder::new() {
        Ok(b) => b,
        Err(e) => {
            return Err(e);
        },
    };
    b.protocol(RTSPTransMode::RTP).profile(RTSPProfile::AVP).lower_transport(
        RTSPLowerTrans::TCP,
    ).interleaved(channel_min, channel_max).build()
}

} // verus!
