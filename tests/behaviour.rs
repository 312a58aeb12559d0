use gstreamer_rtsp::builders::helpers;
use gstreamer_rtsp::rtsp_connection::ConnState;
use gstreamer_rtsp::rtsp_message::RTSPMessage;
use gstreamer_rtsp::{
    RTSPAuthMethod, RTSPConnection, RTSPConnectionBuilder, RTSPEvent, RTSPHeaderField,
    RTSPLowerTrans, RTSPMethod, RTSPMsgType, RTSPProfile, RTSPRange, RTSPResult, RTSPStatusCode,
    RTSPTransMode, RTSPTransport, RTSPTransportBuilder, RTSPUrl, RTSPVersion,
};

fn url(s: &str) -> RTSPUrl {
    let (result, url) = RTSPUrl::parse(s);
    assert_eq!(result, RTSPResult::Success);
    url.unwrap()
}

fn connected() -> RTSPConnection {
    let mut conn = RTSPConnection::create(&url("rtsp://localhost/test")).unwrap();
    conn.connect(1_000_000).unwrap();
    conn.connect_result(RTSPResult::Success).unwrap();
    conn
}

#[test]
fn new_transport_is_unset() {
    let t = RTSPTransport::new().unwrap();
    assert!(!t.mode_play());
    assert!(!t.mode_record());
    assert!(!t.append());
    assert_eq!(t.ttl(), 0);
    assert_eq!(t.ssrc(), 0);
    assert_eq!(t.layers(), 0);
    assert_eq!(t.client_port(), RTSPRange::new(-1, -1));
    assert_eq!(t.server_port(), RTSPRange::new(-1, -1));
    assert_eq!(t.port(), RTSPRange::new(-1, -1));
    assert_eq!(t.interleaved(), RTSPRange::new(-1, -1));
    assert_eq!(t.destination(), None);
    assert_eq!(t.as_text(), "RTP/AVP");
}

#[test]
fn parse_rejects_empty_and_garbage() {
    assert_eq!(RTSPTransport::parse("").unwrap_err(), RTSPResult::Einval);
    assert_eq!(RTSPTransport::parse("INVALID").unwrap_err(), RTSPResult::Einval);
    assert_eq!(RTSPTransport::parse(";;;").unwrap_err(), RTSPResult::Einval);
    assert_eq!(RTSPTransport::parse("RTP").unwrap_err(), RTSPResult::Einval);
    assert_eq!(RTSPTransport::parse("XYZ/AVP").unwrap_err(), RTSPResult::Einval);
    assert_eq!(RTSPTransport::parse("RTP/AVP/SCTP").unwrap_err(), RTSPResult::Einval);
}

#[test]
fn parse_rejects_malformed_values() {
    assert_eq!(RTSPTransport::parse("RTP/AVP;client_port=a-b").unwrap_err(), RTSPResult::Einval);
    assert_eq!(RTSPTransport::parse("RTP/AVP;port=5000-").unwrap_err(), RTSPResult::Einval);
    assert_eq!(RTSPTransport::parse("RTP/AVP;ttl=4294967296").unwrap_err(), RTSPResult::Einval);
    assert_eq!(RTSPTransport::parse("RTP/AVP;interleaved=2147483648").unwrap_err(), RTSPResult::Einval);
    assert_eq!(RTSPTransport::parse("RTP/AVP;ssrc=0xZZ").unwrap_err(), RTSPResult::Einval);
}

#[test]
fn parse_multicast_example() {
    let t = RTSPTransport::parse("RTP/AVP;multicast;destination=224.0.0.1;ttl=127;port=5000-5001").unwrap();
    assert_eq!(t.lower_transport(), RTSPLowerTrans::UDP_MCAST);
    assert_eq!(t.destination(), Some("224.0.0.1".to_string()));
    assert_eq!(t.ttl(), 127);
    assert_eq!(t.port(), RTSPRange::new(5000, 5001));
}

#[test]
fn parse_tcp_interleaved_example() {
    let t = RTSPTransport::parse("RTP/AVP/TCP;interleaved=0-1").unwrap();
    assert_eq!(t.lower_transport(), RTSPLowerTrans::TCP);
    assert_eq!(t.interleaved(), RTSPRange::new(0, 1));
}

#[test]
fn parse_details() {
    let t = RTSPTransport::parse("rtp/savpf/udp;multicast;interleaved=7;ssrc=0x1A;mode=\"play,record\";foo=bar;;").unwrap();
    assert_eq!(t.trans(), RTSPTransMode::RTP);
    assert_eq!(t.profile(), RTSPProfile::SAVPF);
    assert_eq!(t.lower_transport(), RTSPLowerTrans::UDP_MCAST);
    assert_eq!(t.interleaved(), RTSPRange::new(7, 7));
    assert_eq!(t.ssrc(), 26);
    assert!(t.mode_play());
    assert!(t.mode_record());

    let t = RTSPTransport::parse("RTP/AVP/TCP;multicast").unwrap();
    assert_eq!(t.lower_transport(), RTSPLowerTrans::TCP);

    let t = RTSPTransport::parse("RDT/AVP;append;layers=3;source=10.0.0.1;mode=RECORD").unwrap();
    assert_eq!(t.trans(), RTSPTransMode::RDT);
    assert!(t.append());
    assert_eq!(t.layers(), 3);
    assert_eq!(t.source(), Some("10.0.0.1".to_string()));
    assert!(!t.mode_play());
    assert!(t.mode_record());

    let t = RTSPTransport::parse("RTP/AVP;invalid_param=value").unwrap();
    assert_eq!(t.lower_transport(), RTSPLowerTrans::UDP);
}

#[test]
fn text_form_exact() {
    assert_eq!(
        helpers::create_rtp_transport(5000, 5001).unwrap().as_text(),
        "RTP/AVP;unicast;client_port=5000-5001"
    );
    assert_eq!(helpers::create_tcp_transport(0, 1).unwrap().as_text(), "RTP/AVP/TCP;interleaved=0-1");
    let t = RTSPTransportBuilder::new()
        .unwrap()
        .protocol(RTSPTransMode::RDT)
        .profile(RTSPProfile::SAVPF)
        .lower_transport(RTSPLowerTrans::UDP_MCAST)
        .port(6000, 6000)
        .server_ports(7000, 7001)
        .ttl(16)
        .layers(2)
        .ssrc(99)
        .append(true)
        .destination("239.0.0.1")
        .source("10.1.1.1")
        .mode(true, true)
        .build()
        .unwrap();
    assert_eq!(
        t.as_text(),
        "RDT/SAVPF;multicast;port=6000;server_port=7000-7001;ttl=16;layers=2;ssrc=99;append;destination=239.0.0.1;source=10.1.1.1;mode=\"PLAY,RECORD\""
    );
    assert_eq!(helpers::format_transport(&t), t.as_text());
}

#[test]
fn text_form_reads_back() {
    let t = RTSPTransportBuilder::new()
        .unwrap()
        .protocol(RTSPTransMode::RTP)
        .profile(RTSPProfile::AVPF)
        .lower_transport(RTSPLowerTrans::UDP)
        .client_ports(5000, 5001)
        .server_ports(6000, 6001)
        .ssrc(0x12345678)
        .mode_record(true)
        .destination("192.168.1.100")
        .build()
        .unwrap();
    let back = RTSPTransport::parse(&t.as_text()).unwrap();
    assert_eq!(back.trans(), t.trans());
    assert_eq!(back.profile(), t.profile());
    assert_eq!(back.lower_transport(), t.lower_transport());
    assert_eq!(back.client_port(), t.client_port());
    assert_eq!(back.server_port(), t.server_port());
    assert_eq!(back.ssrc(), t.ssrc());
    assert_eq!(back.mode_record(), t.mode_record());
    assert_eq!(back.destination(), t.destination());

    let tcp = helpers::create_tcp_transport(4, 5).unwrap();
    let back = RTSPTransport::parse(&tcp.as_text()).unwrap();
    assert_eq!(back.lower_transport(), RTSPLowerTrans::TCP);
    assert_eq!(back.interleaved(), RTSPRange::new(4, 5));

    let mut odd = helpers::create_rtp_transport(-3, 7).unwrap();
    odd.set_port(RTSPRange::new(9, 9));
    let back = RTSPTransport::parse(&odd.as_text()).unwrap();
    assert_eq!(back.client_port(), RTSPRange::new(-1, -1));
    assert_eq!(back.port(), RTSPRange::new(9, 9));
}

#[test]
fn clone_is_independent() {
    let mut a = RTSPTransport::new().unwrap();
    a.set_destination(Some("10.0.0.1"));
    let mut b = a.clone();
    b.set_destination(Some("10.0.0.2"));
    assert_eq!(a.destination(), Some("10.0.0.1".to_string()));
    assert_eq!(b.destination(), Some("10.0.0.2".to_string()));
    a.set_destination(None);
    assert_eq!(b.destination(), Some("10.0.0.2".to_string()));
}

#[test]
fn media_type_and_manager() {
    let mut t = RTSPTransport::new().unwrap();
    assert_eq!(t.get_media_type().unwrap(), None);
    t.set_trans(RTSPTransMode::RTP);
    t.set_profile(RTSPProfile::SAVP);
    assert_eq!(t.get_media_type().unwrap(), Some("application/x-srtp".to_string()));
    t.set_profile(RTSPProfile::AVPF);
    assert_eq!(t.get_media_type().unwrap(), Some("application/x-rtp".to_string()));
    t.set_trans(RTSPTransMode::RDT);
    t.set_profile(RTSPProfile::AVP);
    assert_eq!(t.get_media_type().unwrap(), Some("application/x-rdt".to_string()));
    assert_eq!(RTSPTransport::get_manager(RTSPTransMode::RTP, 0).unwrap(), Some("rtpbin".to_string()));
    assert_eq!(RTSPTransport::get_manager(RTSPTransMode::RTP, 1).unwrap(), Some("rtpdec".to_string()));
    assert_eq!(RTSPTransport::get_manager(RTSPTransMode::RTP, 2).unwrap(), None);
    assert_eq!(RTSPTransport::get_manager(RTSPTransMode::RDT, 0).unwrap(), Some("rdtmanager".to_string()));
    assert_eq!(RTSPTransport::get_manager(RTSPTransMode::__Unknown(7), 0).unwrap(), None);
    assert_eq!(helpers::transport_get_manager(RTSPTransMode::RTP, 9), Some("rtpbin"));
    assert_eq!(helpers::transport_get_manager(RTSPTransMode::__Unknown(0), 0), None);
    assert_eq!(
        helpers::transport_get_mime(RTSPTransMode::__Unknown(0), RTSPProfile::AVP),
        "application/octet-stream"
    );
    assert_eq!(helpers::transport_get_mime(RTSPTransMode::RTP, RTSPProfile::SAVPF), "application/x-srtp");
}

#[test]
fn options_edge_cases() {
    assert!(helpers::options_from_uri("rtsp://host/path").is_empty());
    assert_eq!(helpers::options_from_uri("rtsp://h/p?a"), vec![("a".to_string(), String::new())]);
    assert_eq!(helpers::options_from_uri("rtsp://h/p?k=v=w"), vec![("k".to_string(), "v=w".to_string())]);
    assert_eq!(helpers::options_from_uri("rtsp://h/p?"), vec![(String::new(), String::new())]);
}

#[test]
fn url_parts_and_errors() {
    let u = url("rtsp://user:pw@[::1]:8554/media/a?x=1");
    assert_eq!(u.user(), Some("user"));
    assert_eq!(u.passwd(), Some("pw"));
    assert_eq!(u.host(), "::1");
    assert_eq!(u.get_port(), 8554);
    assert_eq!(u.abspath(), "/media/a");
    assert_eq!(u.query(), Some("x=1"));
    let u = url("RTSPS://example.com");
    assert!(u.is_secure());
    assert_eq!(u.get_port(), 322);
    assert_eq!(u.abspath(), "/");
    assert_eq!(url("rtsp://example.com/x").get_port(), 554);
    for bad in ["http://example.com/", "rtsp:///path", "rtsp://host:99999/", "rtsp://host:/", "rtsp://[::1/"] {
        let (result, u) = RTSPUrl::parse(bad);
        assert_eq!(result, RTSPResult::Einval, "{}", bad);
        assert!(u.is_none());
    }
}

#[test]
fn header_multiplicity() {
    let mut m = RTSPMessage::new_request(RTSPMethod::OPTIONS, "*").unwrap();
    m.add_header(RTSPHeaderField::CSeq, "1");
    m.add_header(RTSPHeaderField::CSeq, "2");
    let (count, first) = m.get_header(RTSPHeaderField::CSeq).unwrap();
    assert_eq!(count, 2);
    assert_eq!(first, Some("1"));
    assert_eq!(m.get_headers(RTSPHeaderField::CSeq), vec!["1".to_string(), "2".to_string()]);
    assert_eq!(m.get_header_nth(RTSPHeaderField::CSeq, 1), Some("2"));
    assert_eq!(m.get_header_nth(RTSPHeaderField::CSeq, 2), None);
    assert_eq!(m.get_header(RTSPHeaderField::Session).unwrap(), (0, None));
    m.add_header(RTSPHeaderField::Session, "");
    assert_eq!(m.get_header(RTSPHeaderField::Session).unwrap(), (1, Some("")));
}

#[test]
fn response_copies_cseq() {
    let mut req = RTSPMessage::new_request(RTSPMethod::SETUP, "rtsp://h/a").unwrap();
    req.add_header(RTSPHeaderField::CSeq, "7");
    let resp = RTSPMessage::new_response(RTSPStatusCode::NotFound, None, Some(&req)).unwrap();
    assert_eq!(resp.msg_type(), RTSPMsgType::Response);
    assert_eq!(resp.reason(), "Not Found");
    assert_eq!(resp.get_headers(RTSPHeaderField::CSeq), vec!["7".to_string()]);
    let bare = RTSPMessage::new_request(RTSPMethod::SETUP, "rtsp://h/a").unwrap();
    let resp = RTSPMessage::new_response(RTSPStatusCode::Success, Some("Fine"), Some(&bare)).unwrap();
    assert_eq!(resp.get_header(RTSPHeaderField::CSeq).unwrap(), (0, None));
    assert_eq!(resp.reason(), "Fine");
}

#[test]
fn wire_form_exact() {
    let mut m = RTSPMessage::new_request(RTSPMethod::OPTIONS, "rtsp://h/a").unwrap();
    m.add_header(RTSPHeaderField::CSeq, "1");
    m.add_header(RTSPHeaderField::UserAgent, "x");
    assert_eq!(m.to_bytes(), b"OPTIONS rtsp://h/a RTSP/1.0\r\nCSeq: 1\r\nUser-Agent: x\r\n\r\n".to_vec());
    let mut r = RTSPMessage::new_response(RTSPStatusCode::Success, None, Some(&m)).unwrap();
    r.set_body(b"v=0");
    r.add_header(RTSPHeaderField::ContentLength, "99");
    assert_eq!(r.to_bytes(), b"RTSP/1.0 200 OK\r\nCSeq: 1\r\nContent-Length: 3\r\n\r\nv=0".to_vec());
}

#[test]
fn not_connected_guard() {
    let mut conn = RTSPConnection::create(&url("rtsp://localhost/test")).unwrap();
    let m = RTSPMessage::new_request(RTSPMethod::OPTIONS, "*").unwrap();
    let mut out = RTSPMessage::new().unwrap();
    let mut buf = [0u8; 4];
    assert_eq!(conn.send(&m, 0), Err(RTSPResult::Enotconn));
    assert_eq!(conn.receive(&mut out, 0), Err(RTSPResult::Enotconn));
    assert_eq!(conn.read(&mut buf, 0), Err(RTSPResult::Enotconn));
    assert_eq!(conn.write(b"x", 0), Err(RTSPResult::Enotconn));
    assert_eq!(conn.poll(RTSPEvent { read: true, write: true }, 0), Err(RTSPResult::Enotconn));
    assert_eq!(conn.close(), Err(RTSPResult::Enotconn));
    assert_eq!(conn.set_qos_dscp(1), Err(RTSPResult::Enotconn));
}

#[test]
fn timeout_is_retryable() {
    let mut conn = RTSPConnection::create(&url("rtsp://localhost/test")).unwrap();
    assert_eq!(conn.connect(0), Ok(()));
    assert_eq!(conn.state(), ConnState::Connecting);
    assert_eq!(conn.connect_result(RTSPResult::Etimeout), Err(RTSPResult::Etimeout));
    assert_eq!(conn.state(), ConnState::Created);
    assert_eq!(conn.connect(1000), Ok(()));
    assert_eq!(conn.connect_result(RTSPResult::Success), Ok(()));
    assert_eq!(conn.connect(1000), Err(RTSPResult::Eisconn));
    assert_eq!(conn.connect_result(RTSPResult::Success), Err(RTSPResult::Einval));
}

#[test]
fn refused_connection_is_closed() {
    let mut conn = RTSPConnection::create(&url("rtsp://localhost/test")).unwrap();
    assert_eq!(conn.connect(-1), Err(RTSPResult::Einval));
    conn.connect(10).unwrap();
    assert_eq!(conn.connect_result(RTSPResult::Enet), Err(RTSPResult::Enet));
    assert_eq!(conn.state(), ConnState::Closed);
    assert_eq!(conn.connect(10), Err(RTSPResult::Eeof));
    assert_eq!(conn.write(b"x", 0), Err(RTSPResult::Eeof));
}

#[test]
fn connected_io() {
    let mut conn = connected();
    let m = RTSPMessage::new_request(RTSPMethod::PLAY, "rtsp://h/a").unwrap();
    conn.send(&m, 0).unwrap();
    assert_eq!(conn.write(b"$\x00", 0), Ok(2));
    let out = conn.take_output();
    assert_eq!(out, b"PLAY rtsp://h/a RTSP/1.0\r\n\r\n$\x00".to_vec());
    assert!(conn.take_output().is_empty());

    let msgs = vec![m.clone(), m];
    assert_eq!(conn.send_messages(&msgs, 0), Ok(2));
    assert_eq!(conn.take_output().len(), 56);

    let mut buf = [9u8; 3];
    assert_eq!(conn.read(&mut buf, 0), Err(RTSPResult::Etimeout));
    assert_eq!(conn.poll(RTSPEvent { read: true, write: false }, 0), Ok(RTSPEvent { read: false, write: false }));
    conn.feed_input(b"abcde").unwrap();
    assert_eq!(conn.poll(RTSPEvent { read: true, write: true }, 0), Ok(RTSPEvent { read: true, write: true }));
    assert_eq!(conn.read(&mut buf, 0), Ok(3));
    assert_eq!(buf, *b"abc");
    assert_eq!(conn.read(&mut buf, 0), Ok(2));
    assert_eq!(buf, *b"dec");

    conn.write(b"zz", 0).unwrap();
    assert_eq!(conn.flush(true), Ok(()));
    assert!(conn.take_output().is_empty());
    assert_eq!(conn.set_qos_dscp(64), Err(RTSPResult::Einval));
    assert_eq!(conn.set_qos_dscp(46), Ok(()));
    assert_eq!(conn.close(), Ok(()));
    assert_eq!(conn.send(&RTSPMessage::new().unwrap(), 0), Err(RTSPResult::Eeof));
}

#[test]
fn receive_parses_messages() {
    let mut conn = connected();
    let mut msg = RTSPMessage::new().unwrap();
    conn.feed_input(b"RTSP/1.0 200 OK\r\nCSeq: 3\r\ncontent-length: 4\r\nSession:  abc\r\n\r\nv=0").unwrap();
    assert_eq!(conn.receive(&mut msg, 0), Err(RTSPResult::Etimeout));
    conn.feed_input(b"\nOPTIONS * RTSP/1.0\r\nCSeq: 4\r\n\r\n").unwrap();
    assert_eq!(conn.receive(&mut msg, 0), Ok(()));
    assert_eq!(msg.msg_type(), RTSPMsgType::Response);
    assert_eq!(msg.status_code(), RTSPStatusCode::Success);
    assert_eq!(msg.reason(), "OK");
    assert_eq!(msg.version(), RTSPVersion::V1_0);
    assert_eq!(msg.get_header(RTSPHeaderField::CSeq).unwrap().1, Some("3"));
    assert_eq!(msg.get_header(RTSPHeaderField::Session).unwrap().1, Some("abc"));
    assert_eq!(msg.body(), b"v=0\n");
    assert_eq!(conn.receive(&mut msg, 0), Ok(()));
    assert_eq!(msg.msg_type(), RTSPMsgType::Request);
    assert_eq!(msg.method(), RTSPMethod::OPTIONS);
    assert_eq!(msg.uri(), "*");
    assert_eq!(msg.get_header(RTSPHeaderField::CSeq).unwrap().1, Some("4"));
    assert_eq!(conn.receive(&mut msg, 0), Err(RTSPResult::Etimeout));
}

#[test]
fn receive_errors() {
    let mut conn = connected();
    let mut msg = RTSPMessage::new().unwrap();
    conn.feed_input(b"HELLO\r\n\r\n").unwrap();
    assert_eq!(conn.receive(&mut msg, 0), Err(RTSPResult::Eparse));

    let mut conn = connected();
    conn.set_content_length_limit(10);
    conn.feed_input(b"RTSP/1.0 200 OK\r\nContent-Length: 11\r\n\r\n").unwrap();
    assert_eq!(conn.receive(&mut msg, 0), Err(RTSPResult::Enomem));
    assert!(conn.accepts_content_length(10));
    assert!(!conn.accepts_content_length(11));

    let mut conn = connected();
    conn.feed_input(b"RTSP/1.0 200 OK\r\nContent-Length: x\r\n\r\n").unwrap();
    assert_eq!(conn.receive(&mut msg, 0), Err(RTSPResult::Eparse));
}

#[test]
fn message_round_trip_through_connection() {
    let mut a = connected();
    let mut b = connected();
    let mut req = RTSPMessage::new_request(RTSPMethod::DESCRIBE, "rtsp://h/a").unwrap();
    req.add_header(RTSPHeaderField::CSeq, "2");
    req.add_header(RTSPHeaderField::Accept, "application/sdp");
    req.set_body(b"hello");
    a.send(&req, 0).unwrap();
    b.feed_input(&a.take_output()).unwrap();
    let mut got = RTSPMessage::new().unwrap();
    b.receive(&mut got, 0).unwrap();
    assert_eq!(got.method(), RTSPMethod::DESCRIBE);
    assert_eq!(got.uri(), "rtsp://h/a");
    assert_eq!(got.get_headers(RTSPHeaderField::Accept), vec!["application/sdp".to_string()]);
    assert_eq!(got.body(), b"hello");
}

#[test]
fn auth_rules() {
    let mut conn = RTSPConnection::create(&url("rtsp://localhost/test")).unwrap();
    assert_eq!(conn.set_auth(RTSPAuthMethod::Basic, "a:b", "p"), Err(RTSPResult::Einval));
    assert_eq!(conn.set_auth(RTSPAuthMethod::Digest, "a", "p"), Ok(()));
    assert_eq!(conn.set_auth(RTSPAuthMethod::NoAuth, "a:b", ""), Ok(()));
    let (result, u) = RTSPUrl::parse("rtsp://localhost/test");
    assert_eq!(result, RTSPResult::Success);
    let built = RTSPConnectionBuilder::new(&u.unwrap()).auth(RTSPAuthMethod::Basic, "x:y", "p").build();
    assert_eq!(built.unwrap_err(), RTSPResult::Einval);
}

#[test]
fn tunnel_pairing() {
    let mut get = connected();
    let mut post = connected();
    assert_eq!(get.tunnel_request(RTSPMethod::GET, "abc"), Err(RTSPResult::Einval));
    get.set_tunneled(true);
    post.set_tunneled(true);
    assert_eq!(get.tunnel_request(RTSPMethod::GET, "abc"), Ok(()));
    assert_eq!(get.get_tunnelid(), Some("abc".to_string()));
    assert_eq!(post.tunnel_request(RTSPMethod::POST, "abd"), Ok(()));
    assert_eq!(get.do_tunnel(&mut post), Err(RTSPResult::Einval));

    let mut post = connected();
    post.set_tunneled(true);
    post.tunnel_request(RTSPMethod::POST, "abc").unwrap();
    assert_eq!(post.do_tunnel(&mut get), Err(RTSPResult::Einval));
    assert_eq!(get.do_tunnel(&mut post), Ok(()));
    assert_eq!(post.state(), ConnState::Closed);
}

#[test]
fn keep_alive_timer() {
    let mut conn = RTSPConnection::create(&url("rtsp://localhost/test")).unwrap();
    assert_eq!(conn.next_timeout(), 60_000_000);
    conn.advance_time(15_000_000);
    assert_eq!(conn.next_timeout(), 45_000_000);
    conn.advance_time(u64::MAX);
    assert_eq!(conn.next_timeout(), 0);
    conn.reset_timeout().unwrap();
    conn.set_timeout(5);
    assert_eq!(conn.next_timeout(), 5);
}

#[test]
fn builder_connect_starts_connecting() {
    let (result, u) = RTSPUrl::parse("rtsp://localhost/test");
    assert_eq!(result, RTSPResult::Success);
    let u = u.unwrap();
    let conn = RTSPConnectionBuilder::new(&u).tunneled(true).connect().unwrap();
    assert_eq!(conn.state(), ConnState::Connecting);
    assert!(conn.is_tunneled());
    let bad = RTSPConnectionBuilder::new(&u).timeout(-5).connect();
    assert_eq!(bad.unwrap_err(), RTSPResult::Einval);
    let mut from_socket = RTSPConnection::create_from_socket("10.0.0.9", 8554, Some("OPT")).unwrap();
    assert_eq!(from_socket.state(), ConnState::Connected);
    assert_eq!(from_socket.get_ip(), Some("10.0.0.9".to_string()));
    let bound = from_socket.get_url().unwrap();
    assert_eq!(bound.host(), "10.0.0.9");
    assert_eq!(bound.get_port(), 8554);
    let mut buf = [0u8; 8];
    assert_eq!(from_socket.read(&mut buf, 0), Ok(3));
    assert_eq!(&buf[..3], b"OPT");
}
