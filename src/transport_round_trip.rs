//! The text form of a transport reads back as the same transport.
use vstd::prelude::*;

use crate::enums::{RTSPLowerTrans, RTSPProfile, RTSPTransMode};
use crate::rtsp_transport::{
    address_param, apply_param, apply_params, empty_view, list_has, lower_text, mode_flags,
    mode_text, number_param, parse_head, parse_range, profile_of, protocol_of, parse_ssrc, parsed_transport, profile_text,
    protocol_text, range_is_set, range_param, range_text, transport_text, unset_range,
    RTSPRange, TransportView, I32_MAX, U32_MAX,
};
use crate::text::{
    char_matches, decimal_text, find_char, has_prefix, lemma_decimal_text,
    lemma_find_char_at, lemma_find_char_bounds, parse_number, token_is,
};

verus! {

pub open spec fn no_semicolon(x: Seq<char>) -> bool {
    forall|i: int| 0 <= i < x.len() ==> x[i] != ';'
}

/// The parameters, each written after a `;`.
pub open spec fn join(segs: Seq<Seq<char>>) -> Seq<char>
    decreases segs.len(),
{
    if segs.len() == 0 {
        Seq::empty()
    } else {
        seq![';'] + segs[0] + join(segs.skip(1))
    }
}

/// Applies the parameters in order, each on its own.
pub open spec fn apply_all(t: TransportView, segs: Seq<Seq<char>>) -> Option<TransportView>
    decreases segs.len(),
{
    if segs.len() == 0 {
        Some(t)
    } else {
        match apply_param(t, segs[0], 0, segs[0].len() as int) {
            None => None,
            Some(t2) => apply_all(t2, segs.skip(1)),
        }
    }
}

/// The transports whose text form is read back unchanged, but for ranges that
/// are not set: known protocol, profile and lower transport, and addresses
/// without `;`.
pub open spec fn is_canonical(t: TransportView) -> bool {
    &&& (t.trans == RTSPTransMode::RTP || t.trans == RTSPTransMode::RDT)
    &&& !(t.profile is __Unknown)
    &&& !(t.lower_transport is __Unknown)
    &&& (t.destination matches Some(d) ==> no_semicolon(d))
    &&& (t.source matches Some(s) ==> no_semicolon(s))
}

pub open spec fn normal_range(r: RTSPRange) -> RTSPRange {
    if range_is_set(r) {
        r
    } else {
        unset_range()
    }
}

/// `t` with every range that is not set written as the unset range.
pub open spec fn normalized(t: TransportView) -> TransportView {
    TransportView {
        interleaved: normal_range(t.interleaved),
        port: normal_range(t.port),
        client_port: normal_range(t.client_port),
        server_port: normal_range(t.server_port),
        ..t
    }
}

proof fn lemma_find_char_shift(s: Seq<char>, lo: int, hi: int, a: int, b: int, c: char)
    requires
        0 <= lo <= hi <= s.len(),
        0 <= a <= b <= hi - lo,
    ensures
        find_char(s, lo + a, lo + b, c) == lo + find_char(s.subrange(lo, hi), a, b, c),
    decreases b - a,
{
    if a < b {
        lemma_find_char_shift(s, lo, hi, a + 1, b, c);
    }
}

proof fn lemma_list_has_shift(s: Seq<char>, lo: int, hi: int, a: int, b: int, lit: Seq<char>)
    requires
        0 <= lo <= hi <= s.len(),
        0 <= a <= b <= hi - lo,
    ensures
        list_has(s, lo + a, lo + b, lit) == list_has(s.subrange(lo, hi), a, b, lit),
    decreases b - a,
{
    let sub = s.subrange(lo, hi);
    lemma_find_char_shift(s, lo, hi, a, b, ',');
    lemma_find_char_bounds(sub, a, b, ',');
    let e = find_char(sub, a, b, ',');
    assert(s.subrange(lo + a, lo + e) =~= sub.subrange(a, e));
    if e < b {
        lemma_list_has_shift(s, lo, hi, e + 1, b, lit);
    }
}

proof fn lemma_parse_range_shift(s: Seq<char>, lo: int, hi: int, a: int)
    requires
        0 <= lo <= hi <= s.len(),
        0 <= a <= hi - lo,
    ensures
        parse_range(s, lo + a, hi) == parse_range(s.subrange(lo, hi), a, hi - lo),
{
    reveal(parse_range);
    let sub = s.subrange(lo, hi);
    lemma_find_char_shift(s, lo, hi, a, hi - lo, '-');
    lemma_find_char_bounds(sub, a, hi - lo, '-');
    let d = find_char(sub, a, hi - lo, '-');
    assert(s.subrange(lo + a, hi) =~= sub.subrange(a, hi - lo));
    if d < hi - lo {
        assert(s.subrange(lo + a, lo + d) =~= sub.subrange(a, d));
        assert(s.subrange(lo + d + 1, hi) =~= sub.subrange(d + 1, hi - lo));
    }
}

proof fn lemma_mode_flags_shift(s: Seq<char>, lo: int, hi: int, a: int)
    requires
        0 <= lo <= hi <= s.len(),
        0 <= a <= hi - lo,
    ensures
        mode_flags(s, lo + a, hi) == mode_flags(s.subrange(lo, hi), a, hi - lo),
{
    reveal(mode_flags);
    let sub = s.subrange(lo, hi);
    let n = hi - lo;
    if n - a >= 2 {
        assert(s[lo + a] == sub[a]);
        assert(s[hi - 1] == sub[n - 1]);
        lemma_list_has_shift(s, lo, hi, a + 1, n - 1, "PLAY"@);
        lemma_list_has_shift(s, lo, hi, a + 1, n - 1, "RECORD"@);
    }
    lemma_list_has_shift(s, lo, hi, a, n, "PLAY"@);
    lemma_list_has_shift(s, lo, hi, a, n, "RECORD"@);
}

proof fn lemma_parse_ssrc_shift(s: Seq<char>, lo: int, hi: int, a: int)
    requires
        0 <= lo <= hi <= s.len(),
        0 <= a <= hi - lo,
    ensures
        parse_ssrc(s, lo + a, hi) == parse_ssrc(s.subrange(lo, hi), a, hi - lo),
{
    reveal(parse_ssrc);
    let sub = s.subrange(lo, hi);
    let n = hi - lo;
    reveal_strlit("0x");
    reveal_strlit("0X");
    assert(s.subrange(lo + a, hi) =~= sub.subrange(a, n));
    if n - a >= 2 {
        assert(s.subrange(lo + a + 2, hi) =~= sub.subrange(a + 2, n));
    }
}

proof fn lemma_tail_shift(s: Seq<char>, lo: int, hi: int, a: int)
    requires
        0 <= lo <= hi <= s.len(),
        0 <= a <= hi - lo,
    ensures
        s.subrange(lo + a, hi) == s.subrange(lo, hi).subrange(a, hi - lo),
{
    assert(s.subrange(lo + a, hi) =~= s.subrange(lo, hi).subrange(a, hi - lo));
}

/// What a parameter does depends on its own characters alone.
#[verifier::rlimit(60)]
proof fn lemma_apply_param_shift(t: TransportView, s: Seq<char>, lo: int, hi: int)
    requires
        0 <= lo <= hi <= s.len(),
    ensures
        apply_param(t, s, lo, hi) == apply_param(t, s.subrange(lo, hi), 0, hi - lo),
{
    let sub = s.subrange(lo, hi);
    let n = hi - lo;
    assert(sub.subrange(0, n) =~= sub);
    reveal_strlit("interleaved=");
    reveal_strlit("port=");
    reveal_strlit("client_port=");
    reveal_strlit("server_port=");
    reveal_strlit("ttl=");
    reveal_strlit("layers=");
    reveal_strlit("ssrc=");
    reveal_strlit("destination=");
    reveal_strlit("source=");
    reveal_strlit("mode=");
    if n >= 12 {
        lemma_parse_range_shift(s, lo, hi, 12);
        lemma_tail_shift(s, lo, hi, 12);
    }
    if n >= 5 {
        lemma_parse_range_shift(s, lo, hi, 5);
        lemma_parse_ssrc_shift(s, lo, hi, 5);
        lemma_mode_flags_shift(s, lo, hi, 5);
    }
    if n >= 4 {
        lemma_tail_shift(s, lo, hi, 4);
    }
    if n >= 7 {
        lemma_tail_shift(s, lo, hi, 7);
    }
}

proof fn lemma_join_append(a: Seq<Seq<char>>, b: Seq<Seq<char>>)
    ensures
        join(a + b) == join(a) + join(b),
    decreases a.len(),
{
    if a.len() == 0 {
        assert(a + b =~= b);
        assert(join(a) =~= Seq::<char>::empty());
        assert(join(a) + join(b) =~= join(b));
    } else {
        assert((a + b).skip(1) =~= a.skip(1) + b);
        lemma_join_append(a.skip(1), b);
        assert((a + b)[0] == a[0]);
        assert(join(a + b) =~= join(a) + join(b));
    }
}

/// Reading parameters written one after another applies each in turn.
proof fn lemma_apply_params_join(t: TransportView, s: Seq<char>, from: int, segs: Seq<Seq<char>>)
    requires
        segs.len() > 0,
        forall|i: int| 0 <= i < segs.len() ==> no_semicolon(#[trigger] segs[i]),
        1 <= from <= s.len() + 1,
        s.subrange(from - 1, s.len() as int) == join(segs),
    ensures
        apply_params(t, s, from) == apply_all(t, segs),
    decreases segs.len(),
{
    let seg0 = segs[0];
    let rest = segs.skip(1);
    let e = from + seg0.len();
    let j = join(segs);
    assert(j == seq![';'] + seg0 + join(rest));
    assert(j.len() == 1 + seg0.len() + join(rest).len());
    assert(s.len() == from - 1 + j.len());
    assert forall|k: int| from <= k < e implies s[k] != ';' by {
        assert(s[k] == s.subrange(from - 1, s.len() as int)[k - from + 1]);
        assert(j[k - from + 1] == seg0[k - from]);
        assert(no_semicolon(segs[0]));
    }
    if rest.len() > 0 {
        assert(join(rest)[0] == ';');
        assert(s[e] == s.subrange(from - 1, s.len() as int)[e - from + 1]);
        assert(s[e] == ';');
    } else {
        assert(join(rest) =~= Seq::<char>::empty());
    }
    lemma_find_char_at(s, from, s.len() as int, ';', e);
    assert(s.subrange(from, e) =~= seg0) by {
        assert forall|k: int| 0 <= k < seg0.len() implies s.subrange(from, e)[k] == seg0[k] by {
            assert(s[from + k] == s.subrange(from - 1, s.len() as int)[k + 1]);
        }
    }
    lemma_apply_param_shift(t, s, from, e);
    match apply_param(t, s, from, e) {
        None => {},
        Some(t2) => {
            if rest.len() > 0 {
                assert(s.subrange(e, s.len() as int) =~= join(rest)) by {
                    assert forall|k: int| 0 <= k < join(rest).len() implies s.subrange(
                        e,
                        s.len() as int,
                    )[k] == join(rest)[k] by {
                        assert(s[e + k] == s.subrange(from - 1, s.len() as int)[e + k - from + 1]);
                    }
                }
                assert forall|i: int| 0 <= i < rest.len() implies no_semicolon(#[trigger] rest[i]) by {
                    assert(rest[i] == segs[i + 1]);
                }
                lemma_apply_params_join(t2, s, e + 1, rest);
            } else {
                assert(apply_all(t2, rest) == Some(t2));
            }
        },
    }
}

// ---------------------------------------------------------------------------
// The parameters that the text form writes, one segment each.
pub open spec fn lower_segs(l: RTSPLowerTrans) -> Seq<Seq<char>> {
    match l {
        RTSPLowerTrans::UDP => seq!["unicast"@],
        RTSPLowerTrans::UDP_MCAST => seq!["multicast"@],
        _ => Seq::empty(),
    }
}

pub open spec fn range_segs(name: Seq<char>, r: RTSPRange) -> Seq<Seq<char>> {
    if range_is_set(r) {
        seq![name + range_text(r)]
    } else {
        Seq::empty()
    }
}

pub open spec fn number_segs(name: Seq<char>, n: u32) -> Seq<Seq<char>> {
    if n != 0 {
        seq![name + decimal_text(n as nat)]
    } else {
        Seq::empty()
    }
}

pub open spec fn address_segs(name: Seq<char>, a: Option<Seq<char>>) -> Seq<Seq<char>> {
    match a {
        Some(x) => seq![name + x],
        None => Seq::empty(),
    }
}

pub open spec fn mode_segs(play: bool, record: bool) -> Seq<Seq<char>> {
    if play && record {
        seq!["mode=\"PLAY,RECORD\""@]
    } else if play {
        seq!["mode=\"PLAY\""@]
    } else if record {
        seq!["mode=\"RECORD\""@]
    } else {
        Seq::empty()
    }
}

pub open spec fn head_text(t: TransportView) -> Seq<char> {
    protocol_text(t.trans) + "/"@ + profile_text(t.profile) + if t.lower_transport
        == RTSPLowerTrans::TCP {
        "/TCP"@
    } else {
        Seq::empty()
    }
}

pub open spec fn param_segs(t: TransportView) -> Seq<Seq<char>> {
    lower_segs(t.lower_transport) + range_segs("interleaved="@, t.interleaved) + range_segs(
        "port="@,
        t.port,
    ) + range_segs("client_port="@, t.client_port) + range_segs("server_port="@, t.server_port)
        + number_segs("ttl="@, t.ttl) + number_segs("layers="@, t.layers) + number_segs(
        "ssrc="@,
        t.ssrc,
    ) + (if t.append {
        seq!["append"@]
    } else {
        Seq::empty()
    }) + address_segs("destination="@, t.destination) + address_segs("source="@, t.source)
        + mode_segs(t.mode_play, t.mode_record)
}

proof fn lemma_join_one(x: Seq<char>)
    ensures
        join(seq![x]) == seq![';'] + x,
{
    assert(seq![x].skip(1) =~= Seq::<Seq<char>>::empty());
    assert(join(Seq::<Seq<char>>::empty()) =~= Seq::<char>::empty());
    assert(join(seq![x]) =~= seq![';'] + x);
}

proof fn lemma_piece(semi_name: Seq<char>, name: Seq<char>, value: Seq<char>)
    requires
        semi_name == seq![';'] + name,
    ensures
        join(seq![name + value]) == semi_name + value,
{
    lemma_join_one(name + value);
    assert(seq![';'] + (name + value) =~= semi_name + value);
}

proof fn lemma_range_piece(semi_name: Seq<char>, name: Seq<char>, r: RTSPRange)
    requires
        semi_name == seq![';'] + name,
    ensures
        join(range_segs(name, r)) == range_param(semi_name, r),
{
    if range_is_set(r) {
        lemma_piece(semi_name, name, range_text(r));
    }
}

proof fn lemma_number_piece(semi_name: Seq<char>, name: Seq<char>, n: u32)
    requires
        semi_name == seq![';'] + name,
    ensures
        join(number_segs(name, n)) == number_param(semi_name, n),
{
    if n != 0 {
        lemma_piece(semi_name, name, decimal_text(n as nat));
    }
}

proof fn lemma_address_piece(semi_name: Seq<char>, name: Seq<char>, a: Option<Seq<char>>)
    requires
        semi_name == seq![';'] + name,
    ensures
        join(address_segs(name, a)) == address_param(semi_name, a),
{
    if let Some(x) = a {
        lemma_piece(semi_name, name, x);
    }
}

proof fn lemma_word_piece(semi_name: Seq<char>, name: Seq<char>)
    requires
        semi_name == seq![';'] + name,
    ensures
        join(seq![name]) == semi_name,
{
    lemma_join_one(name);
}

proof fn lemma_lower_piece(l: RTSPLowerTrans)
    ensures
        lower_text(l) == (if l == RTSPLowerTrans::TCP {
            "/TCP"@
        } else {
            Seq::empty()
        }) + join(lower_segs(l)),
{
    reveal_strlit(";unicast");
    reveal_strlit("unicast");
    reveal_strlit(";multicast");
    reveal_strlit("multicast");
    if l == RTSPLowerTrans::UDP {
        assert(";unicast"@ =~= seq![';'] + "unicast"@);
        lemma_word_piece(";unicast"@, "unicast"@);
        assert(lower_text(l) =~= Seq::<char>::empty() + join(lower_segs(l)));
    } else if l == RTSPLowerTrans::UDP_MCAST {
        assert(";multicast"@ =~= seq![';'] + "multicast"@);
        lemma_word_piece(";multicast"@, "multicast"@);
        assert(lower_text(l) =~= Seq::<char>::empty() + join(lower_segs(l)));
    } else {
        assert(lower_segs(l) =~= Seq::<Seq<char>>::empty());
        assert(join(lower_segs(l)) =~= Seq::<char>::empty());
        assert(lower_text(l) =~= (if l == RTSPLowerTrans::TCP {
            "/TCP"@
        } else {
            Seq::empty()
        }) + join(lower_segs(l)));
    }
}

proof fn lemma_mode_piece(play: bool, record: bool)
    ensures
        join(mode_segs(play, record)) == mode_text(play, record),
{
    reveal_strlit(";mode=\"PLAY,RECORD\"");
    reveal_strlit("mode=\"PLAY,RECORD\"");
    reveal_strlit(";mode=\"PLAY\"");
    reveal_strlit("mode=\"PLAY\"");
    reveal_strlit(";mode=\"RECORD\"");
    reveal_strlit("mode=\"RECORD\"");
    if play && record {
        assert(";mode=\"PLAY,RECORD\""@ =~= seq![';'] + "mode=\"PLAY,RECORD\""@);
        lemma_word_piece(";mode=\"PLAY,RECORD\""@, "mode=\"PLAY,RECORD\""@);
    } else if play {
        assert(";mode=\"PLAY\""@ =~= seq![';'] + "mode=\"PLAY\""@);
        lemma_word_piece(";mode=\"PLAY\""@, "mode=\"PLAY\""@);
    } else if record {
        assert(";mode=\"RECORD\""@ =~= seq![';'] + "mode=\"RECORD\""@);
        lemma_word_piece(";mode=\"RECORD\""@, "mode=\"RECORD\""@);
    } else {
        assert(join(mode_segs(play, record)) =~= Seq::<char>::empty());
    }
}

proof fn lemma_append_piece(append: bool)
    ensures
        join(
            if append {
                seq!["append"@]
            } else {
                Seq::empty()
            },
        ) == (if append {
            ";append"@
        } else {
            Seq::empty()
        }),
{
    reveal_strlit(";append");
    reveal_strlit("append");
    if append {
        assert(";append"@ =~= seq![';'] + "append"@);
        lemma_word_piece(";append"@, "append"@);
    } else {
        assert(join(Seq::<Seq<char>>::empty()) =~= Seq::<char>::empty());
    }
}

proof fn lemma_names()
    ensures
        ";interleaved="@ == seq![';'] + "interleaved="@,
        ";port="@ == seq![';'] + "port="@,
        ";client_port="@ == seq![';'] + "client_port="@,
        ";server_port="@ == seq![';'] + "server_port="@,
        ";ttl="@ == seq![';'] + "ttl="@,
        ";layers="@ == seq![';'] + "layers="@,
        ";ssrc="@ == seq![';'] + "ssrc="@,
        ";destination="@ == seq![';'] + "destination="@,
        ";source="@ == seq![';'] + "source="@,
{
    reveal_strlit(";interleaved=");
    reveal_strlit("interleaved=");
    reveal_strlit(";port=");
    reveal_strlit("port=");
    reveal_strlit(";client_port=");
    reveal_strlit("client_port=");
    reveal_strlit(";server_port=");
    reveal_strlit("server_port=");
    reveal_strlit(";ttl=");
    reveal_strlit("ttl=");
    reveal_strlit(";layers=");
    reveal_strlit("layers=");
    reveal_strlit(";ssrc=");
    reveal_strlit("ssrc=");
    reveal_strlit(";destination=");
    reveal_strlit("destination=");
    reveal_strlit(";source=");
    reveal_strlit("source=");
    assert(";interleaved="@ =~= seq![';'] + "interleaved="@);
    assert(";port="@ =~= seq![';'] + "port="@);
    assert(";client_port="@ =~= seq![';'] + "client_port="@);
    assert(";server_port="@ =~= seq![';'] + "server_port="@);
    assert(";ttl="@ =~= seq![';'] + "ttl="@);
    assert(";layers="@ =~= seq![';'] + "layers="@);
    assert(";ssrc="@ =~= seq![';'] + "ssrc="@);
    assert(";destination="@ =~= seq![';'] + "destination="@);
    assert(";source="@ =~= seq![';'] + "source="@);
}

proof fn lemma_step(acc: Seq<char>, core: Seq<char>, j: Seq<Seq<char>>, part: Seq<Seq<char>>, piece: Seq<char>)
    requires
        acc == core + join(j),
        join(part) == piece,
    ensures
        acc + piece == core + join(j + part),
{
    lemma_join_append(j, part);
    assert(acc + piece =~= core + join(j + part));
}

/// The text form is the head followed by the parameter segments.
proof fn lemma_text_split(t: TransportView)
    ensures
        transport_text(t) == head_text(t) + join(param_segs(t)),
{
    lemma_names();
    let core = protocol_text(t.trans) + "/"@ + profile_text(t.profile);
    let tcp = if t.lower_transport == RTSPLowerTrans::TCP {
        "/TCP"@
    } else {
        Seq::<char>::empty()
    };
    let l = lower_segs(t.lower_transport);
    let r1 = range_segs("interleaved="@, t.interleaved);
    let r2 = range_segs("port="@, t.port);
    let r3 = range_segs("client_port="@, t.client_port);
    let r4 = range_segs("server_port="@, t.server_port);
    let n1 = number_segs("ttl="@, t.ttl);
    let n2 = number_segs("layers="@, t.layers);
    let n3 = number_segs("ssrc="@, t.ssrc);
    let ap = if t.append {
        seq!["append"@]
    } else {
        Seq::<Seq<char>>::empty()
    };
    let d = address_segs("destination="@, t.destination);
    let so = address_segs("source="@, t.source);
    let m = mode_segs(t.mode_play, t.mode_record);
    let h = core + tcp;
    lemma_lower_piece(t.lower_transport);
    let a0 = core + lower_text(t.lower_transport);
    assert(a0 == h + join(l)) by {
        assert(core + (tcp + join(l)) =~= h + join(l));
    }
    lemma_range_piece(";interleaved="@, "interleaved="@, t.interleaved);
    lemma_step(a0, h, l, r1, range_param(";interleaved="@, t.interleaved));
    let a1 = a0 + range_param(";interleaved="@, t.interleaved);
    lemma_range_piece(";port="@, "port="@, t.port);
    lemma_step(a1, h, l + r1, r2, range_param(";port="@, t.port));
    let a2 = a1 + range_param(";port="@, t.port);
    lemma_range_piece(";client_port="@, "client_port="@, t.client_port);
    lemma_step(a2, h, l + r1 + r2, r3, range_param(";client_port="@, t.client_port));
    let a3 = a2 + range_param(";client_port="@, t.client_port);
    lemma_range_piece(";server_port="@, "server_port="@, t.server_port);
    lemma_step(a3, h, l + r1 + r2 + r3, r4, range_param(";server_port="@, t.server_port));
    let a4 = a3 + range_param(";server_port="@, t.server_port);
    lemma_number_piece(";ttl="@, "ttl="@, t.ttl);
    lemma_step(a4, h, l + r1 + r2 + r3 + r4, n1, number_param(";ttl="@, t.ttl));
    let a5 = a4 + number_param(";ttl="@, t.ttl);
    lemma_number_piece(";layers="@, "layers="@, t.layers);
    lemma_step(a5, h, l + r1 + r2 + r3 + r4 + n1, n2, number_param(";layers="@, t.layers));
    let a6 = a5 + number_param(";layers="@, t.layers);
    lemma_number_piece(";ssrc="@, "ssrc="@, t.ssrc);
    lemma_step(a6, h, l + r1 + r2 + r3 + r4 + n1 + n2, n3, number_param(";ssrc="@, t.ssrc));
    let a7 = a6 + number_param(";ssrc="@, t.ssrc);
    let apt = if t.append {
        ";append"@
    } else {
        Seq::<char>::empty()
    };
    lemma_append_piece(t.append);
    lemma_step(a7, h, l + r1 + r2 + r3 + r4 + n1 + n2 + n3, ap, apt);
    let a8 = a7 + apt;
    lemma_address_piece(";destination="@, "destination="@, t.destination);
    lemma_step(
        a8,
        h,
        l + r1 + r2 + r3 + r4 + n1 + n2 + n3 + ap,
        d,
        address_param(";destination="@, t.destination),
    );
    let a9 = a8 + address_param(";destination="@, t.destination);
    lemma_address_piece(";source="@, "source="@, t.source);
    lemma_step(
        a9,
        h,
        l + r1 + r2 + r3 + r4 + n1 + n2 + n3 + ap + d,
        so,
        address_param(";source="@, t.source),
    );
    let a10 = a9 + address_param(";source="@, t.source);
    lemma_mode_piece(t.mode_play, t.mode_record);
    lemma_step(
        a10,
        h,
        l + r1 + r2 + r3 + r4 + n1 + n2 + n3 + ap + d + so,
        m,
        mode_text(t.mode_play, t.mode_record),
    );
}


// ---------------------------------------------------------------------------
// Reading each segment back.
proof fn lemma_apply_all_append(t: TransportView, a: Seq<Seq<char>>, b: Seq<Seq<char>>)
    ensures
        apply_all(t, a + b) == match apply_all(t, a) {
            None => None,
            Some(t1) => apply_all(t1, b),
        },
    decreases a.len(),
{
    if a.len() == 0 {
        assert(a + b =~= b);
    } else {
        assert((a + b).skip(1) =~= a.skip(1) + b);
        assert((a + b)[0] == a[0]);
        match apply_param(t, a[0], 0, a[0].len() as int) {
            None => {},
            Some(t2) => {
                lemma_apply_all_append(t2, a.skip(1), b);
            },
        }
    }
}

proof fn lemma_apply_all_one(t: TransportView, seg: Seq<char>)
    ensures
        apply_all(t, seq![seg]) == apply_param(t, seg, 0, seg.len() as int),
        seg.subrange(0, seg.len() as int) == seg,
{
    assert(seg.subrange(0, seg.len() as int) =~= seg);
    assert(seq![seg].skip(1) =~= Seq::<Seq<char>>::empty());
    assert(seq![seg][0] == seg);
    match apply_param(t, seg, 0, seg.len() as int) {
        None => {},
        Some(t2) => {
            assert(apply_all(t2, Seq::<Seq<char>>::empty()) == Some(t2));
        },
    }
}

proof fn lemma_apply_all_empty(t: TransportView)
    ensures
        apply_all(t, Seq::<Seq<char>>::empty()) == Some(t),
{
}

proof fn lemma_decimal_no(n: nat, c: char)
    requires
        !('0' <= c <= '9'),
    ensures
        forall|i: int| 0 <= i < decimal_text(n).len() ==> decimal_text(n)[i] != c,
{
    lemma_decimal_text(n);
}

proof fn lemma_decimal_parse(n: nat, max: nat)
    requires
        n <= max,
    ensures
        parse_number(decimal_text(n), 10, max) == Some(n),
{
    lemma_decimal_text(n);
}

proof fn lemma_range_text_parse(r: RTSPRange)
    requires
        range_is_set(r),
    ensures
        parse_range(range_text(r), 0, range_text(r).len() as int) == Some(r),
{
    reveal(parse_range);
    let rt = range_text(r);
    let d1 = decimal_text(r.min as nat);
    let d2 = decimal_text(r.max as nat);
    lemma_decimal_text(r.min as nat);
    lemma_decimal_text(r.max as nat);
    lemma_decimal_parse(r.min as nat, I32_MAX as nat);
    lemma_decimal_parse(r.max as nat, I32_MAX as nat);
    reveal_strlit("-");
    if r.min == r.max {
        lemma_find_char_at(rt, 0, rt.len() as int, '-', rt.len() as int);
        assert(rt.subrange(0, rt.len() as int) =~= rt);
    } else {
        assert(rt == d1 + "-"@ + d2);
        assert forall|j: int| 0 <= j < d1.len() implies rt[j] != '-' by {
            assert(rt[j] == d1[j]);
        }
        assert(rt[d1.len() as int] == '-');
        lemma_find_char_at(rt, 0, rt.len() as int, '-', d1.len() as int);
        assert(rt.subrange(0, d1.len() as int) =~= d1);
        assert(rt.subrange(d1.len() as int + 1, rt.len() as int) =~= d2);
    }
}

/// Enough of the parameter names to tell them apart.
proof fn lemma_param_names()
    ensures
        "unicast"@.len() == 7,
        "multicast"@.len() == 9,
        "append"@.len() == 6,
        "interleaved="@ =~= seq!['i', 'n', 't', 'e', 'r', 'l', 'e', 'a', 'v', 'e', 'd', '='],
        "port="@ =~= seq!['p', 'o', 'r', 't', '='],
        "client_port="@ =~= seq!['c', 'l', 'i', 'e', 'n', 't', '_', 'p', 'o', 'r', 't', '='],
        "server_port="@ =~= seq!['s', 'e', 'r', 'v', 'e', 'r', '_', 'p', 'o', 'r', 't', '='],
        "ttl="@ =~= seq!['t', 't', 'l', '='],
        "layers="@ =~= seq!['l', 'a', 'y', 'e', 'r', 's', '='],
        "ssrc="@ =~= seq!['s', 's', 'r', 'c', '='],
        "destination="@ =~= seq!['d', 'e', 's', 't', 'i', 'n', 'a', 't', 'i', 'o', 'n', '='],
        "source="@ =~= seq!['s', 'o', 'u', 'r', 'c', 'e', '='],
        "mode="@ =~= seq!['m', 'o', 'd', 'e', '='],
        "unicast"@ =~= seq!['u', 'n', 'i', 'c', 'a', 's', 't'],
        "multicast"@ =~= seq!['m', 'u', 'l', 't', 'i', 'c', 'a', 's', 't'],
        "append"@ =~= seq!['a', 'p', 'p', 'e', 'n', 'd'],
{
    reveal_strlit("unicast");
    reveal_strlit("multicast");
    reveal_strlit("append");
    reveal_strlit("interleaved=");
    reveal_strlit("port=");
    reveal_strlit("client_port=");
    reveal_strlit("server_port=");
    reveal_strlit("ttl=");
    reveal_strlit("layers=");
    reveal_strlit("ssrc=");
    reveal_strlit("destination=");
    reveal_strlit("source=");
    reveal_strlit("mode=");
}

proof fn lemma_not_prefix(seg: Seq<char>, lit: Seq<char>, i: int)
    requires
        0 <= i < lit.len(),
        i < seg.len(),
        seg[i] != lit[i],
    ensures
        !has_prefix(seg, lit),
{
    if has_prefix(seg, lit) {
        assert(seg.subrange(0, lit.len() as int)[i] == seg[i]);
    }
}

proof fn lemma_not_token(seg: Seq<char>, lit: Seq<char>, i: int)
    requires
        0 <= i < lit.len(),
        i < seg.len(),
        !char_matches(seg[i], lit[i]),
    ensures
        !token_is(seg, lit),
{
}

proof fn lemma_is_prefix(name: Seq<char>, v: Seq<char>)
    ensures
        has_prefix(name + v, name),
        (name + v).subrange(name.len() as int, (name + v).len() as int) == v,
{
    assert((name + v).subrange(0, name.len() as int) =~= name);
    assert((name + v).subrange(name.len() as int, (name + v).len() as int) =~= v);
}


proof fn lemma_tokens_fail(seg: Seq<char>)
    requires
        seg.len() >= 1,
        seg[0] as u32 != 117 && seg[0] as u32 != 85 && seg[0] as u32 != 109 && seg[0] as u32
            != 77 && seg[0] as u32 != 97 && seg[0] as u32 != 65,
    ensures
        !token_is(seg, "unicast"@),
        !token_is(seg, "multicast"@),
        !token_is(seg, "append"@),
{
    lemma_param_names();
    lemma_not_token(seg, "unicast"@, 0);
    lemma_not_token(seg, "multicast"@, 0);
    lemma_not_token(seg, "append"@, 0);
}

proof fn part_lower(x: TransportView, l: RTSPLowerTrans)
    ensures
        apply_all(x, lower_segs(l)) == Some(
            match l {
                RTSPLowerTrans::UDP => TransportView {
                    lower_transport: if x.lower_transport == RTSPLowerTrans::TCP {
                        RTSPLowerTrans::TCP
                    } else {
                        RTSPLowerTrans::UDP
                    },
                    ..x
                },
                RTSPLowerTrans::UDP_MCAST => TransportView {
                    lower_transport: if x.lower_transport == RTSPLowerTrans::TCP {
                        RTSPLowerTrans::TCP
                    } else {
                        RTSPLowerTrans::UDP_MCAST
                    },
                    ..x
                },
                _ => x,
            },
        ),
{
    lemma_param_names();
    if l == RTSPLowerTrans::UDP {
        lemma_apply_all_one(x, "unicast"@);
        assert(token_is("unicast"@, "unicast"@));
    } else if l == RTSPLowerTrans::UDP_MCAST {
        lemma_apply_all_one(x, "multicast"@);
        assert(token_is("multicast"@, "multicast"@));
    } else {
        lemma_apply_all_empty(x);
    }
}

proof fn part_interleaved(x: TransportView, r: RTSPRange)
    ensures
        apply_all(x, range_segs("interleaved="@, r)) == Some(
            if range_is_set(r) {
                TransportView { interleaved: r, ..x }
            } else {
                x
            },
        ),
{
    lemma_param_names();
    if range_is_set(r) {
        let n = "interleaved="@;
        let seg = n + range_text(r);
        lemma_apply_all_one(x, seg);
        lemma_is_prefix(n, range_text(r));
        lemma_range_text_parse(r);
        lemma_parse_range_shift(seg, 12, seg.len() as int, 0);
    } else {
        lemma_apply_all_empty(x);
    }
}

proof fn part_port(x: TransportView, r: RTSPRange)
    ensures
        apply_all(x, range_segs("port="@, r)) == Some(
            if range_is_set(r) {
                TransportView { port: r, ..x }
            } else {
                x
            },
        ),
{
    lemma_param_names();
    if range_is_set(r) {
        let n = "port="@;
        let seg = n + range_text(r);
        lemma_apply_all_one(x, seg);
        lemma_is_prefix(n, range_text(r));
        lemma_range_text_parse(r);
        lemma_parse_range_shift(seg, 5, seg.len() as int, 0);
        lemma_tokens_fail(seg);
        lemma_not_prefix(seg, "interleaved="@, 0);
    } else {
        lemma_apply_all_empty(x);
    }
}

proof fn part_client_port(x: TransportView, r: RTSPRange)
    ensures
        apply_all(x, range_segs("client_port="@, r)) == Some(
            if range_is_set(r) {
                TransportView { client_port: r, ..x }
            } else {
                x
            },
        ),
{
    lemma_param_names();
    if range_is_set(r) {
        let n = "client_port="@;
        let seg = n + range_text(r);
        lemma_apply_all_one(x, seg);
        lemma_is_prefix(n, range_text(r));
        lemma_range_text_parse(r);
        lemma_parse_range_shift(seg, 12, seg.len() as int, 0);
        lemma_tokens_fail(seg);
        lemma_not_prefix(seg, "interleaved="@, 0);
        lemma_not_prefix(seg, "port="@, 0);
    } else {
        lemma_apply_all_empty(x);
    }
}

proof fn part_server_port(x: TransportView, r: RTSPRange)
    ensures
        apply_all(x, range_segs("server_port="@, r)) == Some(
            if range_is_set(r) {
                TransportView { server_port: r, ..x }
            } else {
                x
            },
        ),
{
    lemma_param_names();
    if range_is_set(r) {
        let n = "server_port="@;
        let seg = n + range_text(r);
        lemma_apply_all_one(x, seg);
        lemma_is_prefix(n, range_text(r));
        lemma_range_text_parse(r);
        lemma_parse_range_shift(seg, 12, seg.len() as int, 0);
        lemma_tokens_fail(seg);
        lemma_not_prefix(seg, "interleaved="@, 0);
        lemma_not_prefix(seg, "port="@, 0);
        lemma_not_prefix(seg, "client_port="@, 0);
    } else {
        lemma_apply_all_empty(x);
    }
}

proof fn part_ttl(x: TransportView, v: u32)
    ensures
        apply_all(x, number_segs("ttl="@, v)) == Some(
            if v != 0 {
                TransportView { ttl: v, ..x }
            } else {
                x
            },
        ),
{
    lemma_param_names();
    if v != 0 {
        let n = "ttl="@;
        let seg = n + decimal_text(v as nat);
        lemma_apply_all_one(x, seg);
        lemma_is_prefix(n, decimal_text(v as nat));
        lemma_decimal_parse(v as nat, U32_MAX as nat);
        assert(seg[0] == 't');
        lemma_tokens_fail(seg);
        lemma_not_prefix(seg, "interleaved="@, 0);
        lemma_not_prefix(seg, "port="@, 0);
        lemma_not_prefix(seg, "client_port="@, 0);
        lemma_not_prefix(seg, "server_port="@, 0);
        assert(has_prefix(seg, "ttl="@));
        assert(parse_number(seg.subrange(4, seg.len() as int), 10, U32_MAX as nat) == Some(v as nat));
        assert(apply_param(x, seg, 0, seg.len() as int) == Some(TransportView { ttl: v, ..x }));
    } else {
        lemma_apply_all_empty(x);
    }
}

proof fn part_layers(x: TransportView, v: u32)
    ensures
        apply_all(x, number_segs("layers="@, v)) == Some(
            if v != 0 {
                TransportView { layers: v, ..x }
            } else {
                x
            },
        ),
{
    lemma_param_names();
    if v != 0 {
        let n = "layers="@;
        let seg = n + decimal_text(v as nat);
        lemma_apply_all_one(x, seg);
        lemma_is_prefix(n, decimal_text(v as nat));
        lemma_decimal_parse(v as nat, U32_MAX as nat);
        lemma_tokens_fail(seg);
        lemma_not_prefix(seg, "interleaved="@, 0);
        lemma_not_prefix(seg, "port="@, 0);
        lemma_not_prefix(seg, "client_port="@, 0);
        lemma_not_prefix(seg, "server_port="@, 0);
        lemma_not_prefix(seg, "ttl="@, 0);
    } else {
        lemma_apply_all_empty(x);
    }
}

proof fn part_ssrc(x: TransportView, v: u32)
    ensures
        apply_all(x, number_segs("ssrc="@, v)) == Some(
            if v != 0 {
                TransportView { ssrc: v, ..x }
            } else {
                x
            },
        ),
{
    lemma_param_names();
    if v != 0 {
        let n = "ssrc="@;
        let d = decimal_text(v as nat);
        let seg = n + d;
        lemma_apply_all_one(x, seg);
        lemma_is_prefix(n, d);
        lemma_decimal_parse(v as nat, U32_MAX as nat);
        lemma_decimal_text(v as nat);
        lemma_tokens_fail(seg);
        lemma_not_prefix(seg, "interleaved="@, 0);
        lemma_not_prefix(seg, "port="@, 0);
        lemma_not_prefix(seg, "client_port="@, 0);
        lemma_not_prefix(seg, "server_port="@, 1);
        lemma_not_prefix(seg, "ttl="@, 0);
        lemma_not_prefix(seg, "layers="@, 0);
        reveal(parse_ssrc);
        reveal_strlit("0x");
        reveal_strlit("0X");
        if d.len() >= 2 {
            lemma_not_prefix(d, "0x"@, 1);
            lemma_not_prefix(d, "0X"@, 1);
        }
        assert(seg.subrange(5, seg.len() as int) == d);
    } else {
        lemma_apply_all_empty(x);
    }
}

proof fn part_append(x: TransportView, a: bool)
    ensures
        apply_all(
            x,
            if a {
                seq!["append"@]
            } else {
                Seq::empty()
            },
        ) == Some(
            if a {
                TransportView { append: true, ..x }
            } else {
                x
            },
        ),
{
    lemma_param_names();
    if a {
        lemma_apply_all_one(x, "append"@);
        assert(token_is("append"@, "append"@));
    } else {
        lemma_apply_all_empty(x);
    }
}

proof fn part_destination(x: TransportView, a: Option<Seq<char>>)
    ensures
        apply_all(x, address_segs("destination="@, a)) == Some(
            match a {
                Some(_) => TransportView { destination: a, ..x },
                None => x,
            },
        ),
{
    lemma_param_names();
    if let Some(v) = a {
        let n = "destination="@;
        let seg = n + v;
        lemma_apply_all_one(x, seg);
        lemma_is_prefix(n, v);
        lemma_tokens_fail(seg);
        lemma_not_prefix(seg, "interleaved="@, 0);
        lemma_not_prefix(seg, "port="@, 0);
        lemma_not_prefix(seg, "client_port="@, 0);
        lemma_not_prefix(seg, "server_port="@, 0);
        lemma_not_prefix(seg, "ttl="@, 0);
        lemma_not_prefix(seg, "layers="@, 0);
        lemma_not_prefix(seg, "ssrc="@, 0);
    } else {
        lemma_apply_all_empty(x);
    }
}

proof fn part_source(x: TransportView, a: Option<Seq<char>>)
    ensures
        apply_all(x, address_segs("source="@, a)) == Some(
            match a {
                Some(_) => TransportView { source: a, ..x },
                None => x,
            },
        ),
{
    lemma_param_names();
    if let Some(v) = a {
        let n = "source="@;
        let seg = n + v;
        lemma_apply_all_one(x, seg);
        lemma_is_prefix(n, v);
        lemma_tokens_fail(seg);
        lemma_not_prefix(seg, "interleaved="@, 0);
        lemma_not_prefix(seg, "port="@, 0);
        lemma_not_prefix(seg, "client_port="@, 0);
        lemma_not_prefix(seg, "server_port="@, 1);
        lemma_not_prefix(seg, "ttl="@, 0);
        lemma_not_prefix(seg, "layers="@, 0);
        lemma_not_prefix(seg, "ssrc="@, 1);
        lemma_not_prefix(seg, "destination="@, 0);
    } else {
        lemma_apply_all_empty(x);
    }
}

proof fn lemma_mode_prefix_checks(seg: Seq<char>)
    requires
        seg.len() >= 10,
        seg.subrange(0, 5) == "mode="@,
    ensures
        !token_is(seg, "unicast"@),
        !token_is(seg, "multicast"@),
        !token_is(seg, "append"@),
        !has_prefix(seg, "interleaved="@),
        !has_prefix(seg, "port="@),
        !has_prefix(seg, "client_port="@),
        !has_prefix(seg, "server_port="@),
        !has_prefix(seg, "ttl="@),
        !has_prefix(seg, "layers="@),
        !has_prefix(seg, "ssrc="@),
        !has_prefix(seg, "destination="@),
        !has_prefix(seg, "source="@),
        has_prefix(seg, "mode="@),
{
    lemma_param_names();
    assert(seg[0] == seg.subrange(0, 5)[0]);
    assert(seg[1] == seg.subrange(0, 5)[1]);
    lemma_not_token(seg, "unicast"@, 0);
    lemma_not_token(seg, "multicast"@, 1);
    lemma_not_token(seg, "append"@, 0);
    lemma_not_prefix(seg, "interleaved="@, 0);
    lemma_not_prefix(seg, "port="@, 0);
    lemma_not_prefix(seg, "client_port="@, 0);
    lemma_not_prefix(seg, "server_port="@, 0);
    lemma_not_prefix(seg, "ttl="@, 0);
    lemma_not_prefix(seg, "layers="@, 0);
    lemma_not_prefix(seg, "ssrc="@, 0);
    lemma_not_prefix(seg, "destination="@, 0);
    lemma_not_prefix(seg, "source="@, 0);
}

proof fn part_mode(x: TransportView, play: bool, record: bool)
    ensures
        apply_all(x, mode_segs(play, record)) == Some(
            if play || record {
                TransportView { mode_play: play, mode_record: record, ..x }
            } else {
                x
            },
        ),
{
    lemma_param_names();
    reveal(mode_flags);
    reveal_strlit("PLAY");
    reveal_strlit("RECORD");
    reveal_strlit("mode=\"PLAY,RECORD\"");
    reveal_strlit("mode=\"PLAY\"");
    reveal_strlit("mode=\"RECORD\"");
    if play && record {
        let seg = "mode=\"PLAY,RECORD\""@;
        lemma_apply_all_one(x, seg);
        assert(seg.subrange(0, 5) =~= "mode="@);
        lemma_mode_prefix_checks(seg);
        lemma_find_char_at(seg, 6, 17, ',', 10);
        lemma_find_char_at(seg, 11, 17, ',', 17);
        assert(seg.subrange(6, 10) =~= "PLAY"@);
        assert(seg.subrange(11, 17) =~= "RECORD"@);
        assert(token_is(seg.subrange(6, 10), "PLAY"@));
        assert(token_is(seg.subrange(11, 17), "RECORD"@));
        assert(list_has(seg, 6, 17, "PLAY"@));
        assert(list_has(seg, 11, 17, "RECORD"@));
        assert(list_has(seg, 6, 17, "RECORD"@));
    } else if play {
        let seg = "mode=\"PLAY\""@;
        lemma_apply_all_one(x, seg);
        assert(seg.subrange(0, 5) =~= "mode="@);
        lemma_mode_prefix_checks(seg);
        lemma_find_char_at(seg, 6, 10, ',', 10);
        assert(seg.subrange(6, 10) =~= "PLAY"@);
        assert(token_is(seg.subrange(6, 10), "PLAY"@));
        assert(list_has(seg, 6, 10, "PLAY"@));
        assert(!list_has(seg, 6, 10, "RECORD"@));
    } else if record {
        let seg = "mode=\"RECORD\""@;
        lemma_apply_all_one(x, seg);
        assert(seg.subrange(0, 5) =~= "mode="@);
        lemma_mode_prefix_checks(seg);
        lemma_find_char_at(seg, 6, 12, ',', 12);
        assert(seg.subrange(6, 12) =~= "RECORD"@);
        assert(token_is(seg.subrange(6, 12), "RECORD"@));
        assert(list_has(seg, 6, 12, "RECORD"@));
        assert(!list_has(seg, 6, 12, "PLAY"@));
    } else {
        lemma_apply_all_empty(x);
    }
}


proof fn lemma_protocol_text(m: RTSPTransMode)
    requires
        m == RTSPTransMode::RTP || m == RTSPTransMode::RDT,
    ensures
        protocol_text(m).len() == 3,
        forall|i: int|
            0 <= i < 3 ==> protocol_text(m)[i] != '/' && protocol_text(m)[i] != ';',
        protocol_of(protocol_text(m)) == Some(m),
{
    reveal_strlit("RTP");
    reveal_strlit("RDT");
    assert(token_is("RTP"@, "RTP"@));
    assert(token_is("RDT"@, "RDT"@));
    if m == RTSPTransMode::RDT {
        lemma_not_token("RDT"@, "RTP"@, 1);
    }
}

proof fn lemma_profile_text(p: RTSPProfile)
    requires
        !(p is __Unknown),
    ensures
        3 <= profile_text(p).len() <= 5,
        forall|i: int|
            0 <= i < profile_text(p).len() ==> profile_text(p)[i] != '/' && profile_text(p)[i]
                != ';',
        profile_of(profile_text(p)) == Some(p),
{
    reveal_strlit("AVP");
    reveal_strlit("SAVP");
    reveal_strlit("AVPF");
    reveal_strlit("SAVPF");
    assert(token_is("AVP"@, "AVP"@));
    assert(token_is("SAVP"@, "SAVP"@));
    assert(token_is("AVPF"@, "AVPF"@));
    assert(token_is("SAVPF"@, "SAVPF"@));
    if p == RTSPProfile::AVPF {
        lemma_not_token("AVPF"@, "SAVP"@, 0);
    }
}

pub open spec fn head_view(t: TransportView) -> TransportView {
    TransportView {
        trans: t.trans,
        profile: t.profile,
        lower_transport: if t.lower_transport == RTSPLowerTrans::TCP {
            RTSPLowerTrans::TCP
        } else {
            RTSPLowerTrans::UDP
        },
        ..empty_view()
    }
}

#[verifier::rlimit(40)]
proof fn lemma_head_parse(t: TransportView, s: Seq<char>)
    requires
        is_canonical(t),
        head_text(t).len() <= s.len(),
        s.subrange(0, head_text(t).len() as int) == head_text(t),
        s.len() == head_text(t).len() || s[head_text(t).len() as int] == ';',
    ensures
        find_char(s, 0, s.len() as int, ';') == head_text(t).len(),
        parse_head(s) == Some(head_view(t)),
{
    let p = protocol_text(t.trans);
    let q = profile_text(t.profile);
    let tcp = t.lower_transport == RTSPLowerTrans::TCP;
    let h = head_text(t);
    lemma_protocol_text(t.trans);
    lemma_profile_text(t.profile);
    reveal_strlit("/");
    reveal_strlit("/TCP");
    reveal_strlit("TCP");
    reveal_strlit("UDP");
    let e = h.len() as int;
    let a = 3int;
    let b = 4 + q.len() as int;
    assert(h == p + "/"@ + q + (if tcp {
        "/TCP"@
    } else {
        Seq::empty()
    }));
    assert(h.len() == (if tcp {
        b + 4
    } else {
        b
    }));
    assert forall|k: int| 0 <= k < e implies s[k] != ';' by {
        assert(s[k] == s.subrange(0, e)[k]);
        if k < 3 {
            assert(h[k] == p[k]);
        } else if k == 3 {
        } else if k < b {
            assert(h[k] == q[k - 4]);
        }
    }
    lemma_find_char_at(s, 0, s.len() as int, ';', e);
    assert forall|k: int| 0 <= k < 3 implies s[k] != '/' by {
        assert(s[k] == s.subrange(0, e)[k]);
        assert(h[k] == p[k]);
    }
    assert(s[3] == s.subrange(0, e)[3]);
    lemma_find_char_at(s, 0, e, '/', 3);
    assert forall|k: int| 4 <= k < b implies s[k] != '/' by {
        assert(s[k] == s.subrange(0, e)[k]);
        assert(h[k] == q[k - 4]);
    }
    if tcp {
        assert(s[b] == s.subrange(0, e)[b]);
    }
    lemma_find_char_at(s, 4, e, '/', b);
    assert(s.subrange(0, 3) =~= p) by {
        assert forall|k: int| 0 <= k < 3 implies s.subrange(0, 3)[k] == p[k] by {
            assert(s[k] == s.subrange(0, e)[k]);
        }
    }
    assert(s.subrange(4, b) =~= q) by {
        assert forall|k: int| 0 <= k < q.len() implies s.subrange(4, b)[k] == q[k] by {
            assert(s[4 + k] == s.subrange(0, e)[4 + k]);
        }
    }
    if tcp {
        assert(s.subrange(b + 1, e) =~= "TCP"@) by {
            assert forall|k: int| 0 <= k < 3 implies s.subrange(b + 1, e)[k] == "TCP"@[k] by {
                assert(s[b + 1 + k] == s.subrange(0, e)[b + 1 + k]);
            }
        }
        assert(token_is("TCP"@, "TCP"@));
        lemma_not_token("TCP"@, "UDP"@, 0);
    }
}

/// The text form reads back as the transport it was written from, for every
/// transport with a known protocol, profile and lower transport and addresses
/// free of `;`. Ranges that are not set read back as the unset range; every
/// other field, set or not, reads back exactly.
pub proof fn transport_text_round_trip(t: TransportView)
    requires
        is_canonical(t),
    ensures
        parsed_transport(transport_text(t)) == Some(normalized(t)),
{
    let s = transport_text(t);
    let h = head_text(t);
    let segs = param_segs(t);
    lemma_text_split(t);
    assert(s.subrange(0, h.len() as int) =~= h);
    if segs.len() > 0 {
        assert(join(segs)[0] == ';');
        assert(s[h.len() as int] == join(segs)[0]);
    } else {
        assert(join(segs) =~= Seq::<char>::empty());
    }
    lemma_head_parse(t, s);
    let t0 = head_view(t);
    assert(apply_all(t0, segs) == parsed_transport(s)) by {
        if segs.len() > 0 {
            assert(s.subrange(h.len() as int, s.len() as int) =~= join(segs));
            lemma_segs_no_semicolon(t);
            lemma_apply_params_join(t0, s, h.len() as int + 1, segs);
        } else {
            lemma_apply_all_empty(t0);
        }
    }
    lemma_apply_segs(t);
}

proof fn lemma_seg_names_no_semicolon()
    ensures
        no_semicolon("unicast"@),
        no_semicolon("multicast"@),
        no_semicolon("append"@),
        no_semicolon("interleaved="@),
        no_semicolon("port="@),
        no_semicolon("client_port="@),
        no_semicolon("server_port="@),
        no_semicolon("ttl="@),
        no_semicolon("layers="@),
        no_semicolon("ssrc="@),
        no_semicolon("destination="@),
        no_semicolon("source="@),
        no_semicolon("mode=\"PLAY,RECORD\""@),
        no_semicolon("mode=\"PLAY\""@),
        no_semicolon("mode=\"RECORD\""@),
{
    lemma_param_names();
    reveal_strlit("mode=\"PLAY,RECORD\"");
    reveal_strlit("mode=\"PLAY\"");
    reveal_strlit("mode=\"RECORD\"");
}

proof fn lemma_concat_no_semicolon(a: Seq<char>, b: Seq<char>)
    requires
        no_semicolon(a),
        no_semicolon(b),
    ensures
        no_semicolon(a + b),
{
    assert forall|i: int| 0 <= i < (a + b).len() implies (a + b)[i] != ';' by {
        if i < a.len() {
        } else {
            assert((a + b)[i] == b[i - a.len()]);
        }
    }
}

proof fn lemma_range_text_no_semicolon(r: RTSPRange)
    requires
        range_is_set(r),
    ensures
        no_semicolon(range_text(r)),
{
    lemma_decimal_no(r.min as nat, ';');
    lemma_decimal_no(r.max as nat, ';');
    reveal_strlit("-");
    if r.min != r.max {
        lemma_concat_no_semicolon(decimal_text(r.min as nat), "-"@);
        lemma_concat_no_semicolon(decimal_text(r.min as nat) + "-"@, decimal_text(r.max as nat));
    }
}

proof fn lemma_all_no_semicolon(a: Seq<Seq<char>>, b: Seq<Seq<char>>)
    requires
        forall|i: int| 0 <= i < a.len() ==> no_semicolon(#[trigger] a[i]),
        forall|i: int| 0 <= i < b.len() ==> no_semicolon(#[trigger] b[i]),
    ensures
        forall|i: int| 0 <= i < (a + b).len() ==> no_semicolon(#[trigger] (a + b)[i]),
{
    assert forall|i: int| 0 <= i < (a + b).len() implies no_semicolon(#[trigger] (a + b)[i]) by {
        if i < a.len() {
            assert((a + b)[i] == a[i]);
        } else {
            assert((a + b)[i] == b[i - a.len()]);
        }
    }
}

proof fn lemma_segs_no_semicolon(t: TransportView)
    requires
        is_canonical(t),
    ensures
        forall|i: int| 0 <= i < param_segs(t).len() ==> no_semicolon(#[trigger] param_segs(t)[i]),
{
    lemma_seg_names_no_semicolon();
    let l = lower_segs(t.lower_transport);
    let r1 = range_segs("interleaved="@, t.interleaved);
    let r2 = range_segs("port="@, t.port);
    let r3 = range_segs("client_port="@, t.client_port);
    let r4 = range_segs("server_port="@, t.server_port);
    let n1 = number_segs("ttl="@, t.ttl);
    let n2 = number_segs("layers="@, t.layers);
    let n3 = number_segs("ssrc="@, t.ssrc);
    let ap = if t.append {
        seq!["append"@]
    } else {
        Seq::<Seq<char>>::empty()
    };
    let d = address_segs("destination="@, t.destination);
    let so = address_segs("source="@, t.source);
    let m = mode_segs(t.mode_play, t.mode_record);
    if range_is_set(t.interleaved) {
        lemma_range_text_no_semicolon(t.interleaved);
        lemma_concat_no_semicolon("interleaved="@, range_text(t.interleaved));
    }
    if range_is_set(t.port) {
        lemma_range_text_no_semicolon(t.port);
        lemma_concat_no_semicolon("port="@, range_text(t.port));
    }
    if range_is_set(t.client_port) {
        lemma_range_text_no_semicolon(t.client_port);
        lemma_concat_no_semicolon("client_port="@, range_text(t.client_port));
    }
    if range_is_set(t.server_port) {
        lemma_range_text_no_semicolon(t.server_port);
        lemma_concat_no_semicolon("server_port="@, range_text(t.server_port));
    }
    lemma_decimal_no(t.ttl as nat, ';');
    lemma_concat_no_semicolon("ttl="@, decimal_text(t.ttl as nat));
    lemma_decimal_no(t.layers as nat, ';');
    lemma_concat_no_semicolon("layers="@, decimal_text(t.layers as nat));
    lemma_decimal_no(t.ssrc as nat, ';');
    lemma_concat_no_semicolon("ssrc="@, decimal_text(t.ssrc as nat));
    if let Some(x) = t.destination {
        lemma_concat_no_semicolon("destination="@, x);
    }
    if let Some(x) = t.source {
        lemma_concat_no_semicolon("source="@, x);
    }
    lemma_all_no_semicolon(l, r1);
    lemma_all_no_semicolon(l + r1, r2);
    lemma_all_no_semicolon(l + r1 + r2, r3);
    lemma_all_no_semicolon(l + r1 + r2 + r3, r4);
    lemma_all_no_semicolon(l + r1 + r2 + r3 + r4, n1);
    lemma_all_no_semicolon(l + r1 + r2 + r3 + r4 + n1, n2);
    lemma_all_no_semicolon(l + r1 + r2 + r3 + r4 + n1 + n2, n3);
    lemma_all_no_semicolon(l + r1 + r2 + r3 + r4 + n1 + n2 + n3, ap);
    lemma_all_no_semicolon(l + r1 + r2 + r3 + r4 + n1 + n2 + n3 + ap, d);
    lemma_all_no_semicolon(l + r1 + r2 + r3 + r4 + n1 + n2 + n3 + ap + d, so);
    lemma_all_no_semicolon(l + r1 + r2 + r3 + r4 + n1 + n2 + n3 + ap + d + so, m);
}

proof fn lemma_chain(x: TransportView, acc: Seq<Seq<char>>, part: Seq<Seq<char>>, y: TransportView, z: TransportView)
    requires
        apply_all(x, acc) == Some(y),
        apply_all(y, part) == Some(z),
    ensures
        apply_all(x, acc + part) == Some(z),
{
    lemma_apply_all_append(x, acc, part);
}

/// Applying the written parameters to the head gives the normalized transport.
proof fn lemma_apply_segs(t: TransportView)
    requires
        is_canonical(t),
    ensures
        apply_all(head_view(t), param_segs(t)) == Some(normalized(t)),
{
    let l = lower_segs(t.lower_transport);
    let r1 = range_segs("interleaved="@, t.interleaved);
    let r2 = range_segs("port="@, t.port);
    let r3 = range_segs("client_port="@, t.client_port);
    let r4 = range_segs("server_port="@, t.server_port);
    let n1 = number_segs("ttl="@, t.ttl);
    let n2 = number_segs("layers="@, t.layers);
    let n3 = number_segs("ssrc="@, t.ssrc);
    let ap = if t.append {
        seq!["append"@]
    } else {
        Seq::<Seq<char>>::empty()
    };
    let d = address_segs("destination="@, t.destination);
    let so = address_segs("source="@, t.source);
    let m = mode_segs(t.mode_play, t.mode_record);
    let x0 = head_view(t);
    part_lower(x0, t.lower_transport);
    let x1 = TransportView { lower_transport: t.lower_transport, ..x0 };
    assert(apply_all(x0, l) == Some(x1));
    part_interleaved(x1, t.interleaved);
    let x2 = TransportView { interleaved: normal_range(t.interleaved), ..x1 };
    lemma_chain(x0, l, r1, x1, x2);
    part_port(x2, t.port);
    let x3 = TransportView { port: normal_range(t.port), ..x2 };
    lemma_chain(x0, l + r1, r2, x2, x3);
    part_client_port(x3, t.client_port);
    let x4 = TransportView { client_port: normal_range(t.client_port), ..x3 };
    lemma_chain(x0, l + r1 + r2, r3, x3, x4);
    part_server_port(x4, t.server_port);
    let x5 = TransportView { server_port: normal_range(t.server_port), ..x4 };
    lemma_chain(x0, l + r1 + r2 + r3, r4, x4, x5);
    part_ttl(x5, t.ttl);
    let x6 = TransportView { ttl: t.ttl, ..x5 };
    lemma_chain(x0, l + r1 + r2 + r3 + r4, n1, x5, x6);
    part_layers(x6, t.layers);
    let x7 = TransportView { layers: t.layers, ..x6 };
    lemma_chain(x0, l + r1 + r2 + r3 + r4 + n1, n2, x6, x7);
    part_ssrc(x7, t.ssrc);
    let x8 = TransportView { ssrc: t.ssrc, ..x7 };
    lemma_chain(x0, l + r1 + r2 + r3 + r4 + n1 + n2, n3, x7, x8);
    part_append(x8, t.append);
    let x9 = TransportView { append: t.append, ..x8 };
    lemma_chain(x0, l + r1 + r2 + r3 + r4 + n1 + n2 + n3, ap, x8, x9);
    part_destination(x9, t.destination);
    let x10 = TransportView { destination: t.destination, ..x9 };
    lemma_chain(x0, l + r1 + r2 + r3 + r4 + n1 + n2 + n3 + ap, d, x9, x10);
    part_source(x10, t.source);
    let x11 = TransportView { source: t.source, ..x10 };
    lemma_chain(x0, l + r1 + r2 + r3 + r4 + n1 + n2 + n3 + ap + d, so, x10, x11);
    part_mode(x11, t.mode_play, t.mode_record);
    let x12 = TransportView { mode_play: t.mode_play, mode_record: t.mode_record, ..x11 };
    lemma_chain(x0, l + r1 + r2 + r3 + r4 + n1 + n2 + n3 + ap + d + so, m, x11, x12);
    assert(x12 == normalized(t));
}

} // verus!
