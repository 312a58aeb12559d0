use gstreamer_rtsp::builders::RTSPConnectionBuilder;
use gstreamer_rtsp::rtsp_connection::TLS_VALIDATE_ALL;
use gstreamer_rtsp::rtsp_message::RTSPMessage;
use gstreamer_rtsp::{
    RTSPAuthMethod, RTSPConnection, RTSPEvent, RTSPHeaderField, RTSPMethod, RTSPResult,
    RTSPStatusCode, RTSPUrl,
};

fn parse_url(s: &str) -> RTSPUrl {
    let (result, url) = RTSPUrl::parse(s);
    assert_eq!(result, RTSPResult::Success);
    url.unwrap()
}

#[test]
fn test_connection_creation() {
    gstreamer_rtsp::init().unwrap();

    let (result, url) = RTSPUrl::parse("rtsp://localhost:554/test");
    assert_eq!(result, RTSPResult::Success);
    let url = url.unwrap();

    let conn = RTSPConnection::create(&url);
    assert!(conn.is_ok());
    let conn = conn.unwrap();

    let stored_url = conn.get_url();
    assert!(stored_url.is_some());
}

#[test]
fn rtsp_connection_test_connection_builder() {
    gstreamer_rtsp::init().unwrap();

    let builder = RTSPConnectionBuilder::new(&parse_url("rtsp://localhost:554/test"));

    let conn = builder.build();
    assert!(conn.is_ok());
}

#[test]
fn test_connection_builder_with_timeout() {
    gstreamer_rtsp::init().unwrap();

    let builder = RTSPConnectionBuilder::new(&parse_url("rtsp://localhost:554/test"));

    let conn = builder.timeout(10_000_000).build();
    assert!(conn.is_ok());
}

#[test]
fn test_connection_tunneling() {
    gstreamer_rtsp::init().unwrap();

    let (result, url) = RTSPUrl::parse("rtsp://localhost:554/test");
    assert_eq!(result, RTSPResult::Success);
    let url = url.unwrap();
    let mut conn = RTSPConnection::create(&url).unwrap();

    assert!(!conn.is_tunneled());
    conn.set_tunneled(true);
    assert!(conn.is_tunneled());
    conn.set_tunneled(false);
    assert!(!conn.is_tunneled());

    let tunnel_id = conn.get_tunnelid();
    assert!(tunnel_id.is_none() || tunnel_id == Some("".to_string()));
}

#[test]
fn test_connection_http_mode() {
    gstreamer_rtsp::init().unwrap();

    let mut conn = RTSPConnection::create(&parse_url("rtsp://localhost:554/test")).unwrap();

    conn.set_http_mode(false);
    conn.set_http_mode(true);

    conn.set_remember_session_id(false);
    conn.set_remember_session_id(true);
}

#[test]
fn test_connection_authentication() {
    gstreamer_rtsp::init().unwrap();

    let mut conn = RTSPConnection::create(&parse_url("rtsp://localhost:554/test")).unwrap();

    let result = conn.set_auth(RTSPAuthMethod::Basic, "username", "password");
    assert!(result.is_ok());

    let result = conn.set_auth(RTSPAuthMethod::Digest, "user", "pass");
    assert!(result.is_ok());

    conn.set_auth_param("realm", "Test Realm");
    conn.set_auth_param("nonce", "test-nonce");
    conn.set_auth_param("uri", "/test");

    conn.clear_auth_params();
}

#[test]
fn test_connection_proxy() {
    gstreamer_rtsp::init().unwrap();

    let mut conn = RTSPConnection::create(&parse_url("rtsp://localhost:554/test")).unwrap();

    let result = conn.set_proxy("proxy.example.com", 8080);
    assert!(result.is_ok());

    let result = conn.set_proxy("192.168.1.1", 3128);
    assert!(result.is_ok());
}

#[test]
fn test_connection_qos() {
    gstreamer_rtsp::init().unwrap();

    let mut conn = RTSPConnection::create(&parse_url("rtsp://localhost:554/test")).unwrap();

    let _ = conn.set_qos_dscp(0);
    let _ = conn.set_qos_dscp(46);
    let _ = conn.set_qos_dscp(34);
}

#[test]
fn test_connection_ip() {
    gstreamer_rtsp::init().unwrap();

    let mut conn = RTSPConnection::create(&parse_url("rtsp://localhost:554/test")).unwrap();

    conn.set_ip("127.0.0.1");
    let ip = conn.get_ip();
    assert!(ip.is_none() || ip == Some("127.0.0.1".to_string()));

    conn.set_ip("192.168.1.100");
    conn.set_ip("::1");
}

#[test]
fn test_connection_content_length_limit() {
    gstreamer_rtsp::init().unwrap();

    let mut conn = RTSPConnection::create(&parse_url("rtsp://localhost:554/test")).unwrap();

    conn.set_content_length_limit(1024 * 1024);
    conn.set_content_length_limit(10 * 1024 * 1024);
    conn.set_content_length_limit(0);
}

#[test]
fn test_connection_extra_http_headers() {
    gstreamer_rtsp::init().unwrap();

    let mut conn = RTSPConnection::create(&parse_url("rtsp://localhost:554/test")).unwrap();

    conn.add_extra_http_request_header("X-Custom-Header", "value");
    conn.add_extra_http_request_header("User-Agent", "Custom RTSP Client");
    conn.add_extra_http_request_header("X-Session-Id", "12345");
}

#[test]
fn test_connection_ignore_x_server_reply() {
    gstreamer_rtsp::init().unwrap();

    let mut conn = RTSPConnection::create(&parse_url("rtsp://localhost:554/test")).unwrap();

    conn.set_ignore_x_server_reply(false);
    conn.set_ignore_x_server_reply(true);
}

#[test]
fn test_connection_tunnel_pair() {
    gstreamer_rtsp::init().unwrap();

    let url = parse_url("rtsp://localhost:554/test");

    let mut conn1 = RTSPConnection::create(&url).unwrap();
    let mut conn2 = RTSPConnection::create(&url).unwrap();

    conn1.set_tunneled(true);
    conn2.set_tunneled(true);

    let result = conn1.do_tunnel(&mut conn2);
    assert!(result.is_err());
}

#[test]
fn test_connection_flush() {
    gstreamer_rtsp::init().unwrap();

    let mut conn = RTSPConnection::create(&parse_url("rtsp://localhost:554/test")).unwrap();

    let result = conn.flush(true);
    assert!(result.is_ok() || result.is_err());

    let result = conn.flush(false);
    assert!(result.is_ok() || result.is_err());
}

#[test]
fn test_connection_timeout() {
    gstreamer_rtsp::init().unwrap();

    let mut conn = RTSPConnection::create(&parse_url("rtsp://localhost:554/test")).unwrap();

    let timeout = conn.next_timeout();
    assert!(timeout >= 0);

    let result = conn.reset_timeout();
    assert!(result.is_ok());
}

#[test]
fn test_connection_tls() {
    gstreamer_rtsp::init().unwrap();

    let (result, url) = RTSPUrl::parse("rtsps://localhost:554/test");
    assert_eq!(result, RTSPResult::Success);
    let url = url.unwrap();
    let mut conn = RTSPConnection::create(&url).unwrap();

    let flags = TLS_VALIDATE_ALL;
    let success = conn.set_tls_validation_flags(flags);
    assert!(success);

    let retrieved_flags = conn.get_tls_validation_flags();
    assert_eq!(retrieved_flags, flags);
}

#[test]
fn test_connection_close() {
    gstreamer_rtsp::init().unwrap();

    let mut conn = RTSPConnection::create(&parse_url("rtsp://localhost:554/test")).unwrap();

    let result = conn.close();
    assert!(result.is_ok() || result.is_err());
}

#[test]
fn test_connection_from_socket() {
    gstreamer_rtsp::init().unwrap();

    let conn = RTSPConnection::create_from_socket("127.0.0.1", 554, Some("initial buffer"));
    assert!(conn.is_ok() || conn.is_err());
}

#[test]
fn test_message_creation() {
    gstreamer_rtsp::init().unwrap();

    let request = RTSPMessage::new_request(RTSPMethod::OPTIONS, "rtsp://localhost:554/test");
    assert!(request.is_ok());
    let mut request = request.unwrap();

    request.add_header(RTSPHeaderField::CSeq, "1");
    request.add_header(RTSPHeaderField::UserAgent, "Test Client");

    let response = RTSPMessage::new_response(RTSPStatusCode::Success, Some("OK"), Some(&request));
    assert!(response.is_ok());
    let mut response = response.unwrap();

    response.add_header(RTSPHeaderField::CSeq, "1");
    response.add_header(RTSPHeaderField::Server, "Test Server");
}

#[test]
fn test_connection_poll() {
    gstreamer_rtsp::init().unwrap();

    let mut conn = RTSPConnection::create(&parse_url("rtsp://localhost:554/test")).unwrap();

    let events = RTSPEvent { read: true, write: true };
    let result = conn.poll(events, 0);
    assert!(result.is_err());
}

#[test]
fn test_connection_read_write() {
    gstreamer_rtsp::init().unwrap();

    let mut conn = RTSPConnection::create(&parse_url("rtsp://localhost:554/test")).unwrap();

    let mut buffer = vec![0u8; 1024];
    let result = conn.read(&mut buffer, 0);
    assert!(result.is_err());

    let data = b"TEST DATA";
    let result = conn.write(data, 0);
    assert!(result.is_err());
}

#[test]
fn test_connection_send_messages() {
    gstreamer_rtsp::init().unwrap();

    let mut conn = RTSPConnection::create(&parse_url("rtsp://localhost:554/test")).unwrap();

    let msg1 = RTSPMessage::new_request(RTSPMethod::OPTIONS, "rtsp://localhost:554/test").unwrap();
    let msg2 = RTSPMessage::new_request(RTSPMethod::DESCRIBE, "rtsp://localhost:554/test").unwrap();
    let messages = vec![msg1, msg2];

    let result = conn.send_messages(&messages, 1000000);
    assert!(result.is_err());
}

#[test]
fn test_connection_builder_with_auth() {
    gstreamer_rtsp::init().unwrap();

    let builder = RTSPConnectionBuilder::new(&parse_url("rtsp://localhost:554/test"));

    let conn = builder.auth(RTSPAuthMethod::Basic, "user", "pass").build();
    assert!(conn.is_ok());
}

#[test]
fn test_connection_builder_with_proxy() {
    gstreamer_rtsp::init().unwrap();

    let builder = RTSPConnectionBuilder::new(&parse_url("rtsp://localhost:554/test"));

    let conn = builder.proxy("proxy.example.com", 8080).build();
    assert!(conn.is_ok());
}

#[test]
fn test_connection_url_variations() {
    gstreamer_rtsp::init().unwrap();

    let urls = vec![
        "rtsp://localhost:554/test",
        "rtsp://192.168.1.1:554/stream",
        "rtsp://example.com/media.mp4",
        "rtsps://secure.example.com:8554/secure",
        "rtsp://[::1]:554/ipv6",
    ];

    for url_str in urls {
        let (result, url) = RTSPUrl::parse(url_str);
        if result == RTSPResult::Success {
            let url = url.unwrap();
            let conn = RTSPConnection::create(&url);
            assert!(conn.is_ok(), "Failed to create connection for URL: {}", url_str);
        }
    }
}

#[test]
fn test_connection_send_receive() {
    gstreamer_rtsp::init().unwrap();

    let (result, url) = RTSPUrl::parse("rtsp://localhost:554/test");
    assert_eq!(result, RTSPResult::Success);
    let url = url.unwrap();
    let mut conn = RTSPConnection::create(&url).unwrap();

    let message = RTSPMessage::new_request(RTSPMethod::OPTIONS, "rtsp://localhost:554/test");
    assert!(message.is_ok());
    let message = message.unwrap();

    let send_result = conn.send(&message, 1000000);
    assert!(send_result.is_err());

    let response = RTSPMessage::new();
    assert!(response.is_ok());
    let mut response = response.unwrap();

    let recv_result = conn.receive(&mut response, 1000000);
    assert!(recv_result.is_err());
}
