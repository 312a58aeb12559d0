//! The transport record and its text form, the attribute list carried in the
//! `Transport` header:
//!
//! ```text
//! transport-spec := protocol "/" profile [ "/" lower-transport ] *( ";" parameter )
//! ```
use vstd::prelude::*;

use crate::enums::{RTSPLowerTrans, RTSPProfile, RTSPResult, RTSPTransMode};
use crate::text::{
    decimal_text, find, find_char, has_prefix, parse_number, push_decimal,
    push_str, read_number, starts_with, string_of, chars_of, token_is, token_matches,
};

verus! {

pub const I32_MAX: u32 = 0x7fff_ffff;

pub const U32_MAX: u32 = 0xffff_ffff;

/// A closed interval of integers: a port pair or a pair of interleaved channels.
#[derive(Clone, Copy, Debug, PartialEq, Eq, Structural, Hash)]
pub struct RTSPRange {
    pub min: i32,
    pub max: i32,
}

impl RTSPRange {
    pub fn new(min: i32, max: i32) -> (r: RTSPRange)
        ensures
            r.min == min,
            r.max == max,
    {
        RTSPRange { min, max }
    }
}

/// The range that marks a field as not set.
pub open spec fn unset_range() -> RTSPRange {
    RTSPRange { min: -1i32, max: -1i32 }
}

/// A range takes part in the text form when both of its ends are non-negative.
pub open spec fn range_is_set(r: RTSPRange) -> bool {
    r.min >= 0 && r.max >= 0
}

/// What a transport record holds, with its addresses as character sequences.
pub struct TransportView {
    pub trans: RTSPTransMode,
    pub profile: RTSPProfile,
    pub lower_transport: RTSPLowerTrans,
    pub destination: Option<Seq<char>>,
    pub source: Option<Seq<char>>,
    pub layers: u32,
    pub mode_play: bool,
    pub mode_record: bool,
    pub append: bool,
    pub interleaved: RTSPRange,
    pub ttl: u32,
    pub port: RTSPRange,
    pub client_port: RTSPRange,
    pub server_port: RTSPRange,
    pub ssrc: u32,
}

/// The transport parameters of one media stream.
#[derive(Clone, Debug)]
pub struct RTSPTransport {
    trans: RTSPTransMode,
    profile: RTSPProfile,
    lower_transport: RTSPLowerTrans,
    destination: Option<String>,
    source: Option<String>,
    layers: u32,
    mode_play: bool,
    mode_record: bool,
    append: bool,
    interleaved: RTSPRange,
    ttl: u32,
    port: RTSPRange,
    client_port: RTSPRange,
    server_port: RTSPRange,
    ssrc: u32,
}

pub open spec fn opt_view(o: Option<String>) -> Option<Seq<char>> {
    match o {
        Some(s) => Some(s@),
        None => None,
    }
}

impl View for RTSPTransport {
    type V = TransportView;

    closed spec fn view(&self) -> TransportView {
        TransportView {
            trans: self.trans,
            profile: self.profile,
            lower_transport: self.lower_transport,
            destination: opt_view(self.destination),
            source: opt_view(self.source),
            layers: self.layers,
            mode_play: self.mode_play,
            mode_record: self.mode_record,
            append: self.append,
            interleaved: self.interleaved,
            ttl: self.ttl,
            port: self.port,
            client_port: self.client_port,
            server_port: self.server_port,
            ssrc: self.ssrc,
        }
    }
}

/// The record of a new transport: every enumeration unknown, every range unset,
/// every flag and number cleared, no addresses.
pub open spec fn empty_view() -> TransportView {
    TransportView {
        trans: RTSPTransMode::__Unknown(0),
        profile: RTSPProfile::__Unknown(0),
        lower_transport: RTSPLowerTrans::__Unknown(0),
        destination: None,
        source: None,
        layers: 0,
        mode_play: false,
        mode_record: false,
        append: false,
        interleaved: unset_range(),
        ttl: 0,
        port: unset_range(),
        client_port: unset_range(),
        server_port: unset_range(),
        ssrc: 0,
    }
}

// ---------------------------------------------------------------------------
// The grammar, as spec functions over absolute positions of the input.
pub open spec fn protocol_of(tok: Seq<char>) -> Option<RTSPTransMode> {
    if token_is(tok, "RTP"@) {
        Some(RTSPTransMode::RTP)
    } else if token_is(tok, "RDT"@) {
        Some(RTSPTransMode::RDT)
    } else {
        None
    }
}

pub open spec fn profile_of(tok: Seq<char>) -> Option<RTSPProfile> {
    if token_is(tok, "AVP"@) {
        Some(RTSPProfile::AVP)
    } else if token_is(tok, "SAVP"@) {
        Some(RTSPProfile::SAVP)
    } else if token_is(tok, "AVPF"@) {
        Some(RTSPProfile::AVPF)
    } else if token_is(tok, "SAVPF"@) {
        Some(RTSPProfile::SAVPF)
    } else {
        None
    }
}

pub open spec fn lower_of(tok: Seq<char>) -> Option<RTSPLowerTrans> {
    if token_is(tok, "UDP"@) {
        Some(RTSPLowerTrans::UDP)
    } else if token_is(tok, "TCP"@) {
        Some(RTSPLowerTrans::TCP)
    } else {
        None
    }
}

/// `protocol "/" profile [ "/" lower-transport ]`, the part before the first `;`.
/// Without a lower transport the stream goes over UDP.
pub open spec fn parse_head(s: Seq<char>) -> Option<TransportView> {
    let e = find_char(s, 0, s.len() as int, ';');
    let a = find_char(s, 0, e, '/');
    let b = find_char(s, a + 1, e, '/');
    if a >= e {
        None
    } else {
        match (protocol_of(s.subrange(0, a)), profile_of(s.subrange(a + 1, b))) {
            (Some(trans), Some(profile)) => {
                let lower = if b >= e {
                    Some(RTSPLowerTrans::UDP)
                } else {
                    lower_of(s.subrange(b + 1, e))
                };
                match lower {
                    Some(l) => Some(
                        TransportView { trans, profile, lower_transport: l, ..empty_view() },
                    ),
                    None => None,
                }
            },
            _ => None,
        }
    }
}

/// `int "-" int` or a single `int`, which stands for both ends.
#[verifier::opaque]
pub open spec fn parse_range(s: Seq<char>, lo: int, hi: int) -> Option<RTSPRange> {
    let d = find_char(s, lo, hi, '-');
    if d >= hi {
        match parse_number(s.subrange(lo, hi), 10, I32_MAX as nat) {
            Some(v) => Some(RTSPRange { min: v as i32, max: v as i32 }),
            None => None,
        }
    } else {
        match (
            parse_number(s.subrange(lo, d), 10, I32_MAX as nat),
            parse_number(s.subrange(d + 1, hi), 10, I32_MAX as nat),
        ) {
            (Some(a), Some(b)) => Some(RTSPRange { min: a as i32, max: b as i32 }),
            _ => None,
        }
    }
}

/// An SSRC: hexadecimal after `0x` or `0X`, decimal otherwise.
#[verifier::opaque]
pub open spec fn parse_ssrc(s: Seq<char>, lo: int, hi: int) -> Option<nat> {
    if has_prefix(s.subrange(lo, hi), "0x"@) || has_prefix(s.subrange(lo, hi), "0X"@) {
        parse_number(s.subrange(lo + 2, hi), 16, U32_MAX as nat)
    } else {
        parse_number(s.subrange(lo, hi), 10, U32_MAX as nat)
    }
}

/// Whether the comma-separated list in `[from, hi)` holds `lit`, ignoring case.
pub open spec fn list_has(s: Seq<char>, from: int, hi: int, lit: Seq<char>) -> bool
    decreases hi - from,
{
    if from > hi {
        false
    } else {
        let e = find_char(s, from, hi, ',');
        if token_is(s.subrange(from, e), lit) {
            true
        } else if from <= e < hi {
            list_has(s, e + 1, hi, lit)
        } else {
            false
        }
    }
}

/// The value of `mode=`: a comma-separated list, possibly within double quotes.
#[verifier::opaque]
pub open spec fn mode_flags(s: Seq<char>, lo: int, hi: int) -> (bool, bool) {
    let quoted = hi - lo >= 2 && s[lo] == '"' && s[hi - 1] == '"';
    let a = if quoted {
        lo + 1
    } else {
        lo
    };
    let b = if quoted {
        hi - 1
    } else {
        hi
    };
    (list_has(s, a, b, "PLAY"@), list_has(s, a, b, "RECORD"@))
}

/// What the parameter in `[lo, hi)` does to `t`; `None` when its value is malformed.
/// Empty and unknown parameters leave `t` as it is.
pub open spec fn apply_param(t: TransportView, s: Seq<char>, lo: int, hi: int) -> Option<
    TransportView,
> {
    let p = s.subrange(lo, hi);
    if token_is(p, "unicast"@) {
        Some(
            TransportView {
                lower_transport: if t.lower_transport == RTSPLowerTrans::TCP {
                    RTSPLowerTrans::TCP
                } else {
                    RTSPLowerTrans::UDP
                },
                ..t
            },
        )
    } else if token_is(p, "multicast"@) {
        Some(
            TransportView {
                lower_transport: if t.lower_transport == RTSPLowerTrans::TCP {
                    RTSPLowerTrans::TCP
                } else {
                    RTSPLowerTrans::UDP_MCAST
                },
                ..t
            },
        )
    } else if token_is(p, "append"@) {
        Some(TransportView { append: true, ..t })
    } else if has_prefix(p, "interleaved="@) {
        match parse_range(s, lo + "interleaved="@.len(), hi) {
            Some(r) => Some(TransportView { interleaved: r, ..t }),
            None => None,
        }
    } else if has_prefix(p, "port="@) {
        match parse_range(s, lo + "port="@.len(), hi) {
            Some(r) => Some(TransportView { port: r, ..t }),
            None => None,
        }
    } else if has_prefix(p, "client_port="@) {
        match parse_range(s, lo + "client_port="@.len(), hi) {
            Some(r) => Some(TransportView { client_port: r, ..t }),
            None => None,
        }
    } else if has_prefix(p, "server_port="@) {
        match parse_range(s, lo + "server_port="@.len(), hi) {
            Some(r) => Some(TransportView { server_port: r, ..t }),
            None => None,
        }
    } else if has_prefix(p, "ttl="@) {
        match parse_number(s.subrange(lo + "ttl="@.len(), hi), 10, U32_MAX as nat) {
            Some(n) => Some(TransportView { ttl: n as u32, ..t }),
            None => None,
        }
    } else if has_prefix(p, "layers="@) {
        match parse_number(s.subrange(lo + "layers="@.len(), hi), 10, U32_MAX as nat) {
            Some(n) => Some(TransportView { layers: n as u32, ..t }),
            None => None,
        }
    } else if has_prefix(p, "ssrc="@) {
        match parse_ssrc(s, lo + "ssrc="@.len(), hi) {
            Some(n) => Some(TransportView { ssrc: n as u32, ..t }),
            None => None,
        }
    } else if has_prefix(p, "destination="@) {
        Some(TransportView { destination: Some(s.subrange(lo + "destination="@.len(), hi)), ..t })
    } else if has_prefix(p, "source="@) {
        Some(TransportView { source: Some(s.subrange(lo + "source="@.len(), hi)), ..t })
    } else if has_prefix(p, "mode="@) {
        let f = mode_flags(s, lo + "mode="@.len(), hi);
        Some(TransportView { mode_play: f.0, mode_record: f.1, ..t })
    } else {
        Some(t)
    }
}

/// Applies the `;`-separated parameters from `from` to the end, in order.
pub open spec fn apply_params(t: TransportView, s: Seq<char>, from: int) -> Option<TransportView>
    decreases s.len() - from,
{
    let e = find_char(s, from, s.len() as int, ';');
    match apply_param(t, s, from, e) {
        None => None,
        Some(t2) => if from <= e < s.len() {
            apply_params(t2, s, e + 1)
        } else {
            Some(t2)
        },
    }
}

/// The transport that the text `s` describes, or `None` when it is malformed.
pub open spec fn parsed_transport(s: Seq<char>) -> Option<TransportView> {
    let e = find_char(s, 0, s.len() as int, ';');
    match parse_head(s) {
        None => None,
        Some(t) => if e < s.len() {
            apply_params(t, s, e + 1)
        } else {
            Some(t)
        },
    }
}

/// Text whose part before the first `;` holds no `/` names no profile, and
/// is rejected: the empty string, a bare word, or a run of `;` among them.
pub proof fn head_without_slash_rejected(s: Seq<char>)
    requires
        forall|i: int|
            0 <= i < find_char(s, 0, s.len() as int, ';') ==> s[i] != '/',
    ensures
        parsed_transport(s) is None,
{
    let e = find_char(s, 0, s.len() as int, ';');
    crate::text::lemma_find_char_bounds(s, 0, s.len() as int, ';');
    crate::text::lemma_find_char_at(s, 0, e, '/', e);
}

// ---------------------------------------------------------------------------
// The text form.
pub open spec fn protocol_text(m: RTSPTransMode) -> Seq<char> {
    if m == RTSPTransMode::RDT {
        "RDT"@
    } else {
        "RTP"@
    }
}

pub open spec fn profile_text(p: RTSPProfile) -> Seq<char> {
    match p {
        RTSPProfile::SAVP => "SAVP"@,
        RTSPProfile::AVPF => "AVPF"@,
        RTSPProfile::SAVPF => "SAVPF"@,
        _ => "AVP"@,
    }
}

pub open spec fn lower_text(l: RTSPLowerTrans) -> Seq<char> {
    match l {
        RTSPLowerTrans::TCP => "/TCP"@,
        RTSPLowerTrans::UDP => ";unicast"@,
        RTSPLowerTrans::UDP_MCAST => ";multicast"@,
        _ => Seq::empty(),
    }
}

pub open spec fn range_text(r: RTSPRange) -> Seq<char> {
    if r.min == r.max {
        decimal_text(r.min as nat)
    } else {
        decimal_text(r.min as nat) + "-"@ + decimal_text(r.max as nat)
    }
}

pub open spec fn range_param(name: Seq<char>, r: RTSPRange) -> Seq<char> {
    if range_is_set(r) {
        name + range_text(r)
    } else {
        Seq::empty()
    }
}

pub open spec fn number_param(name: Seq<char>, n: u32) -> Seq<char> {
    if n != 0 {
        name + decimal_text(n as nat)
    } else {
        Seq::empty()
    }
}

pub open spec fn address_param(name: Seq<char>, a: Option<Seq<char>>) -> Seq<char> {
    match a {
        Some(x) => name + x,
        None => Seq::empty(),
    }
}

pub open spec fn mode_text(play: bool, record: bool) -> Seq<char> {
    if play && record {
        ";mode=\"PLAY,RECORD\""@
    } else if play {
        ";mode=\"PLAY\""@
    } else if record {
        ";mode=\"RECORD\""@
    } else {
        Seq::empty()
    }
}

/// The text form of `t`: the protocol framing, the unicast or multicast keyword,
/// the set ranges, the non-zero numbers, `append`, the addresses, then the modes.
/// An unknown protocol is written `RTP` and an unknown profile `AVP`, the defaults
/// of RFC 2326.
pub open spec fn transport_text(t: TransportView) -> Seq<char> {
    protocol_text(t.trans) + "/"@ + profile_text(t.profile) + lower_text(t.lower_transport)
        + range_param(";interleaved="@, t.interleaved) + range_param(";port="@, t.port)
        + range_param(";client_port="@, t.client_port) + range_param(
        ";server_port="@,
        t.server_port,
    ) + number_param(";ttl="@, t.ttl) + number_param(";layers="@, t.layers) + number_param(
        ";ssrc="@,
        t.ssrc,
    ) + (if t.append {
        ";append"@
    } else {
        Seq::empty()
    }) + address_param(";destination="@, t.destination) + address_param(";source="@, t.source)
        + mode_text(t.mode_play, t.mode_record)
}

/// The manager component names known for a transport protocol, by option index.
pub open spec fn manager_name(trans: RTSPTransMode, option: u32) -> Option<Seq<char>> {
    match trans {
        RTSPTransMode::RTP => if option == 0 {
            Some("rtpbin"@)
        } else if option == 1 {
            Some("rtpdec"@)
        } else {
            None
        },
        RTSPTransMode::RDT => if option == 0 {
            Some("rdtmanager"@)
        } else {
            None
        },
        _ => None,
    }
}

/// The media type of streams with this protocol and profile, where one is established.
pub open spec fn media_type_name(trans: RTSPTransMode, profile: RTSPProfile) -> Option<Seq<char>> {
    match (trans, profile) {
        (RTSPTransMode::RTP, RTSPProfile::AVP) => Some("application/x-rtp"@),
        (RTSPTransMode::RTP, RTSPProfile::AVPF) => Some("application/x-rtp"@),
        (RTSPTransMode::RTP, RTSPProfile::SAVP) => Some("application/x-srtp"@),
        (RTSPTransMode::RTP, RTSPProfile::SAVPF) => Some("application/x-srtp"@),
        (RTSPTransMode::RDT, RTSPProfile::AVP) => Some("application/x-rdt"@),
        _ => None,
    }
}

fn parse_range_at(v: &Vec<char>, lo: usize, hi: usize) -> (r: Option<RTSPRange>)
    requires
        lo <= hi <= v@.len(),
    ensures
        r == parse_range(v@, lo as int, hi as int),
{
    reveal(parse_range);
    let d = find(v, lo, hi, '-');
    if d >= hi {
        match read_number(v, lo, hi, 10, I32_MAX) {
            Some(n) => Some(RTSPRange { min: n as i32, max: n as i32 }),
            None => None,
        }
    } else {
        let a = read_number(v, lo, d, 10, I32_MAX);
        let b = read_number(v, d + 1, hi, 10, I32_MAX);
        match (a, b) {
            (Some(a), Some(b)) => Some(RTSPRange { min: a as i32, max: b as i32 }),
            _ => None,
        }
    }
}

fn parse_ssrc_at(v: &Vec<char>, lo: usize, hi: usize) -> (r: Option<u32>)
    requires
        lo <= hi <= v@.len(),
    ensures
        r matches Some(n) ==> parse_ssrc(v@, lo as int, hi as int) == Some(n as nat),
        r is None ==> parse_ssrc(v@, lo as int, hi as int) is None,
{
    reveal(parse_ssrc);
    if starts_with(v, lo, hi, "0x") || starts_with(v, lo, hi, "0X") {
        proof {
            reveal_strlit("0x");
            reveal_strlit("0X");
        }
        read_number(v, lo + 2, hi, 16, U32_MAX)
    } else {
        read_number(v, lo, hi, 10, U32_MAX)
    }
}

fn list_contains(v: &Vec<char>, lo: usize, hi: usize, lit: &str) -> (r: bool)
    requires
        lo <= hi <= v@.len(),
    ensures
        r == list_has(v@, lo as int, hi as int, lit@),
{
    let mut from: usize = lo;
    while true
        invariant
            lo <= from <= hi <= v@.len(),
            list_has(v@, lo as int, hi as int, lit@) == list_has(v@, from as int, hi as int, lit@),
        decreases hi - from,
    {
        let e = find(v, from, hi, ',');
        if token_matches(v, from, e, lit) {
            return true;
        }
        if e >= hi {
            return false;
        }
        from = e + 1;
    }
    false
}

impl RTSPTransport {
    /// A transport with nothing set.
    pub fn new() -> (r: Result<RTSPTransport, RTSPResult>)
        ensures
            r matches Ok(t) && t@ == empty_view(),
    {
        Ok(RTSPTransport::empty())
    }

    fn empty() -> (t: RTSPTransport)
        ensures
            t@ == empty_view(),
    {
        RTSPTransport {
            trans: RTSPTransMode::__Unknown(0),
            profile: RTSPProfile::__Unknown(0),
            lower_transport: RTSPLowerTrans::__Unknown(0),
            destination: None,
            source: None,
            layers: 0,
            mode_play: false,
            mode_record: false,
            append: false,
            interleaved: RTSPRange { min: -1, max: -1 },
            ttl: 0,
            port: RTSPRange { min: -1, max: -1 },
            client_port: RTSPRange { min: -1, max: -1 },
            server_port: RTSPRange { min: -1, max: -1 },
            ssrc: 0,
        }
    }

    fn apply_param_at(&mut self, v: &Vec<char>, lo: usize, hi: usize) -> (ok: bool)
        requires
            lo <= hi <= v@.len(),
        ensures
            ok == apply_param(old(self)@, v@, lo as int, hi as int) is Some,
            ok ==> final(self)@ == apply_param(old(self)@, v@, lo as int, hi as int).unwrap(),
    {
        proof {
            reveal_strlit("interleaved=");
            reveal_strlit("port=");
            reveal_strlit("client_port=");
            reveal_strlit("server_port=");
            reveal_strlit("ttl=");
            reveal_strlit("layers=");
            reveal_strlit("ssrc=");
            reveal_strlit("destination=");
            reveal_strlit("source=");
            reveal_strlit("mode=");
        }
        if token_matches(v, lo, hi, "unicast") {
            if self.lower_transport != RTSPLowerTrans::TCP {
                self.lower_transport = RTSPLowerTrans::UDP;
            }
            true
        } else if token_matches(v, lo, hi, "multicast") {
            if self.lower_transport != RTSPLowerTrans::TCP {
                self.lower_transport = RTSPLowerTrans::UDP_MCAST;
            }
            true
        } else if token_matches(v, lo, hi, "append") {
            self.append = true;
            true
        } else if starts_with(v, lo, hi, "interleaved=") {
            match parse_range_at(v, lo + 12, hi) {
                Some(r) => {
                    self.interleaved = r;
                    true
                },
                None => false,
            }
        } else if starts_with(v, lo, hi, "port=") {
            match parse_range_at(v, lo + 5, hi) {
                Some(r) => {
                    self.port = r;
                    true
                },
                None => false,
            }
        } else if starts_with(v, lo, hi, "client_port=") {
            match parse_range_at(v, lo + 12, hi) {
                Some(r) => {
                    self.client_port = r;
                    true
                },
                None => false,
            }
        } else if starts_with(v, lo, hi, "server_port=") {
            match parse_range_at(v, lo + 12, hi) {
                Some(r) => {
                    self.server_port = r;
                    true
                },
                None => false,
            }
        } else if starts_with(v, lo, hi, "ttl=") {
            match read_number(v, lo + 4, hi, 10, U32_MAX) {
                Some(n) => {
                    self.ttl = n;
                    true
                },
                None => false,
            }
        } else if starts_with(v, lo, hi, "layers=") {
            match read_number(v, lo + 7, hi, 10, U32_MAX) {
                Some(n) => {
                    self.layers = n;
                    true
                },
                None => false,
            }
        } else if starts_with(v, lo, hi, "ssrc=") {
            match parse_ssrc_at(v, lo + 5, hi) {
                Some(n) => {
                    self.ssrc = n;
                    true
                },
                None => false,
            }
        } else if starts_with(v, lo, hi, "destination=") {
            self.destination = Some(string_of(v, lo + 12, hi));
            true
        } else if starts_with(v, lo, hi, "source=") {
            self.source = Some(string_of(v, lo + 7, hi));
            true
        } else if starts_with(v, lo, hi, "mode=") {
            let a0 = lo + 5;
            let quoted = hi - a0 >= 2 && v[a0] == '"' && v[hi - 1] == '"';
            let a = if quoted {
                a0 + 1
            } else {
                a0
            };
            let b = if quoted {
                hi - 1
            } else {
                hi
            };
            proof {
                reveal(mode_flags);
            }
            self.mode_play = list_contains(v, a, b, "PLAY");
            self.mode_record = list_contains(v, a, b, "RECORD");
            true
        } else {
            true
        }
    }

    /// Parses the text of a `Transport` header value.
    ///
    /// Unknown parameters are skipped; a malformed head or a malformed value
    /// gives `Einval`.
    pub fn parse(transport_str: &str) -> (r: Result<RTSPTransport, RTSPResult>)
        ensures
            parsed_transport(transport_str@) is None <==> r is Err,
            r matches Ok(t) ==> t@ == parsed_transport(transport_str@).unwrap(),
            r matches Err(e) ==> e == RTSPResult::Einval,
    {
        let v = chars_of(transport_str);
        let n = v.len();
        let e = find(&v, 0, n, ';');
        let a = find(&v, 0, e, '/');
        if a >= e {
            return Err(RTSPResult::Einval);
        }
        let b = find(&v, a + 1, e, '/');
        let mut t = RTSPTransport::empty();
        if token_matches(&v, 0, a, "RTP") {
            t.trans = RTSPTransMode::RTP;
        } else if token_matches(&v, 0, a, "RDT") {
            t.trans = RTSPTransMode::RDT;
        } else {
            return Err(RTSPResult::Einval);
        }
        if token_matches(&v, a + 1, b, "AVP") {
            t.profile = RTSPProfile::AVP;
        } else if token_matches(&v, a + 1, b, "SAVP") {
            t.profile = RTSPProfile::SAVP;
        } else if token_matches(&v, a + 1, b, "AVPF") {
            t.profile = RTSPProfile::AVPF;
        } else if token_matches(&v, a + 1, b, "SAVPF") {
            t.profile = RTSPProfile::SAVPF;
        } else {
            return Err(RTSPResult::Einval);
        }
        if b >= e {
            t.lower_transport = RTSPLowerTrans::UDP;
        } else if token_matches(&v, b + 1, e, "UDP") {
            t.lower_transport = RTSPLowerTrans::UDP;
        } else if token_matches(&v, b + 1, e, "TCP") {
            t.lower_transport = RTSPLowerTrans::TCP;
        } else {
            return Err(RTSPResult::Einval);
        }
        assert(parse_head(v@) == Some(t@));
        if e >= n {
            return Ok(t);
        }
        let mut from: usize = e + 1;
        while true
            invariant
                v@ == transport_str@,
                n == v@.len(),
                from <= n,
                parsed_transport(v@) == apply_params(t@, v@, from as int),
            decreases n - from,
        {
            let e2 = find(&v, from, n, ';');
            let ok = t.apply_param_at(&v, from, e2);
            if !ok {
                return Err(RTSPResult::Einval);
            }
            if e2 >= n {
                return Ok(t);
            }
            from = e2 + 1;
        }
        Err(RTSPResult::Einval)
    }

    /// The text form of this transport, for a `Transport` header.
    pub fn as_text(&self) -> (r: String)
        ensures
            r@ == transport_text(self@),
    {
        let mut s = String::new();
        match self.trans {
            RTSPTransMode::RDT => push_str(&mut s, "RDT"),
            _ => push_str(&mut s, "RTP"),
        }
        push_str(&mut s, "/");
        match self.profile {
            RTSPProfile::SAVP => push_str(&mut s, "SAVP"),
            RTSPProfile::AVPF => push_str(&mut s, "AVPF"),
            RTSPProfile::SAVPF => push_str(&mut s, "SAVPF"),
            _ => push_str(&mut s, "AVP"),
        }
        match self.lower_transport {
            RTSPLowerTrans::TCP => push_str(&mut s, "/TCP"),
            RTSPLowerTrans::UDP => push_str(&mut s, ";unicast"),
            RTSPLowerTrans::UDP_MCAST => push_str(&mut s, ";multicast"),
            _ => {},
        }
        push_range(&mut s, ";interleaved=", self.interleaved);
        push_range(&mut s, ";port=", self.port);
        push_range(&mut s, ";client_port=", self.client_port);
        push_range(&mut s, ";server_port=", self.server_port);
        push_number(&mut s, ";ttl=", self.ttl);
        push_number(&mut s, ";layers=", self.layers);
        push_number(&mut s, ";ssrc=", self.ssrc);
        if self.append {
            push_str(&mut s, ";append");
        }
        push_address(&mut s, ";destination=", &self.destination);
        push_address(&mut s, ";source=", &self.source);
        if self.mode_play && self.mode_record {
            push_str(&mut s, ";mode=\"PLAY,RECORD\"");
        } else if self.mode_play {
            push_str(&mut s, ";mode=\"PLAY\"");
        } else if self.mode_record {
            push_str(&mut s, ";mode=\"RECORD\"");
        }
        assert(s@ =~= transport_text(self@));
        s
    }

    /// The media type of streams with this transport's protocol and profile.
    pub fn get_media_type(&self) -> (r: Result<Option<String>, RTSPResult>)
        ensures
            r matches Ok(m) && opt_view(m) == media_type_name(self@.trans, self@.profile),
    {
        let name: Option<&str> = match (self.trans, self.profile) {
            (RTSPTransMode::RTP, RTSPProfile::AVP) => Some("application/x-rtp"),
            (RTSPTransMode::RTP, RTSPProfile::AVPF) => Some("application/x-rtp"),
            (RTSPTransMode::RTP, RTSPProfile::SAVP) => Some("application/x-srtp"),
            (RTSPTransMode::RTP, RTSPProfile::SAVPF) => Some("application/x-srtp"),
            (RTSPTransMode::RDT, RTSPProfile::AVP) => Some("application/x-rdt"),
            _ => None,
        };
        match name {
            Some(n) => Ok(Some(n.to_owned())),
            None => Ok(None),
        }
    }

    /// The name of the component that manages streams of protocol `trans`;
    /// `option` picks among the alternatives.
    pub fn get_manager(trans: RTSPTransMode, option: u32) -> (r: Result<Option<String>, RTSPResult>)
        ensures
            r matches Ok(m) && opt_view(m) == manager_name(trans, option),
    {
        let name: Option<&str> = match trans {
            RTSPTransMode::RTP => if option == 0 {
                Some("rtpbin")
            } else if option == 1 {
                Some("rtpdec")
            } else {
                None
            },
            RTSPTransMode::RDT => if option == 0 {
                Some("rdtmanager")
            } else {
                None
            },
            _ => None,
        };
        match name {
            Some(n) => Ok(Some(n.to_owned())),
            None => Ok(None),
        }
    }

    pub fn trans(&self) -> (r: RTSPTransMode)
        ensures
            r == self@.trans,
    {
        self.trans
    }

    pub fn set_trans(&mut self, trans: RTSPTransMode)
        ensures
            final(self)@ == (TransportView { trans, ..old(self)@ }),
    {
        self.trans = trans;
    }

    pub fn profile(&self) -> (r: RTSPProfile)
        ensures
            r == self@.profile,
    {
        self.profile
    }

    pub fn set_profile(&mut self, profile: RTSPProfile)
        ensures
            final(self)@ == (TransportView { profile, ..old(self)@ }),
    {
        self.profile = profile;
    }

    pub fn lower_transport(&self) -> (r: RTSPLowerTrans)
        ensures
            r == self@.lower_transport,
    {
        self.lower_transport
    }

    pub fn set_lower_transport(&mut self, lower_transport: RTSPLowerTrans)
        ensures
            final(self)@ == (TransportView { lower_transport, ..old(self)@ }),
    {
        self.lower_transport = lower_transport;
    }

    pub fn destination(&self) -> (r: Option<String>)
        ensures
            opt_view(r) == self@.destination,
    {
        self.destination.clone()
    }

    pub fn set_destination(&mut self, destination: Option<&str>)
        ensures
            final(self)@ == (TransportView {
                destination: match destination {
                    Some(d) => Some(d@),
                    None => None,
                },
                ..old(self)@
            }),
    {
        self.destination = match destination {
            Some(d) => Some(d.to_owned()),
            None => None,
        };
    }

    pub fn source(&self) -> (r: Option<String>)
        ensures
            opt_view(r) == self@.source,
    {
        self.source.clone()
    }

    pub fn set_source(&mut self, source: Option<&str>)
        ensures
            final(self)@ == (TransportView {
                source: match source {
                    Some(d) => Some(d@),
                    None => None,
                },
                ..old(self)@
            }),
    {
        self.source = match source {
            Some(d) => Some(d.to_owned()),
            None => None,
        };
    }

    pub fn layers(&self) -> (r: u32)
        ensures
            r == self@.layers,
    {
        self.layers
    }

    pub fn set_layers(&mut self, layers: u32)
        ensures
            final(self)@ == (TransportView { layers, ..old(self)@ }),
    {
        self.layers = layers;
    }

    pub fn mode_play(&self) -> (r: bool)
        ensures
            r == self@.mode_play,
    {
        self.mode_play
    }

    pub fn set_mode_play(&mut self, mode_play: bool)
        ensures
            final(self)@ == (TransportView { mode_play, ..old(self)@ }),
    {
        self.mode_play = mode_play;
    }

    pub fn mode_record(&self) -> (r: bool)
        ensures
            r == self@.mode_record,
    {
        self.mode_record
    }

    pub fn set_mode_record(&mut self, mode_record: bool)
        ensures
            final(self)@ == (TransportView { mode_record, ..old(self)@ }),
    {
        self.mode_record = mode_record;
    }

    pub fn append(&self) -> (r: bool)
        ensures
            r == self@.append,
    {
        self.append
    }

    pub fn set_append(&mut self, append: bool)
        ensures
            final(self)@ == (TransportView { append, ..old(self)@ }),
    {
        self.append = append;
    }

    pub fn interleaved(&self) -> (r: RTSPRange)
        ensures
            r == self@.interleaved,
    {
        self.interleaved
    }

    pub fn set_interleaved(&mut self, interleaved: RTSPRange)
        ensures
            final(self)@ == (TransportView { interleaved, ..old(self)@ }),
    {
        self.interleaved = interleaved;
    }

    pub fn ttl(&self) -> (r: u32)
        ensures
            r == self@.ttl,
    {
        self.ttl
    }

    pub fn set_ttl(&mut self, ttl: u32)
        ensures
            final(self)@ == (TransportView { ttl, ..old(self)@ }),
    {
        self.ttl = ttl;
    }

    pub fn port(&self) -> (r: RTSPRange)
        ensures
            r == self@.port,
    {
        self.port
    }

    pub fn set_port(&mut self, port: RTSPRange)
        ensures
            final(self)@ == (TransportView { port, ..old(self)@ }),
    {
        self.port = port;
    }

    pub fn client_port(&self) -> (r: RTSPRange)
        ensures
            r == self@.client_port,
    {
        self.client_port
    }

    pub fn set_client_port(&mut self, client_port: RTSPRange)
        ensures
            final(self)@ == (TransportView { client_port, ..old(self)@ }),
    {
        self.client_port = client_port;
    }

    pub fn server_port(&self) -> (r: RTSPRange)
        ensures
            r == self@.server_port,
    {
        self.server_port
    }

    pub fn set_server_port(&mut self, server_port: RTSPRange)
        ensures
            final(self)@ == (TransportView { server_port, ..old(self)@ }),
    {
        self.server_port = server_port;
    }

    pub fn ssrc(&self) -> (r: u32)
        ensures
            r == self@.ssrc,
    {
        self.ssrc
    }

    pub fn set_ssrc(&mut self, ssrc: u32)
        ensures
            final(self)@ == (TransportView { ssrc, ..old(self)@ }),
    {
        self.ssrc = ssrc;
    }
}

fn push_range(s: &mut String, name: &str, r: RTSPRange)
    ensures
        final(s)@ == old(s)@ + range_param(name@, r),
{
    if r.min >= 0 && r.max >= 0 {
        push_str(s, name);
        push_decimal(s, r.min as u64);
        if r.min != r.max {
            push_str(s, "-");
            push_decimal(s, r.max as u64);
        }
    }
    assert(s@ =~= old(s)@ + range_param(name@, r));
}

fn push_number(s: &mut String, name: &str, n: u32)
    ensures
        final(s)@ == old(s)@ + number_param(name@, n),
{
    if n != 0 {
        push_str(s, name);
        push_decimal(s, n as u64);
    }
    assert(s@ =~= old(s)@ + number_param(name@, n));
}

fn push_address(s: &mut String, name: &str, a: &Option<String>)
    ensures
        final(s)@ == old(s)@ + address_param(name@, opt_view(*a)),
{
    match a {
        Some(x) => {
            push_str(s, name);
            push_str(s, x.as_str());
        },
        None => {},
    }
    assert(s@ =~= old(s)@ + address_param(name@, opt_view(*a)));
}

impl Default for RTSPTransport {
    fn default() -> (r: RTSPTransport)
        ensures
            r@ == empty_view(),
    {
        RTSPTransport::empty()
    }
}

} // verus!
