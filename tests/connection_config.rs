use gstreamer_rtsp::{RTSPAuthMethod, RTSPConnection, RTSPResult, RTSPUrl};

#[test]
fn test_rtsp_connection_create() {
    gstreamer_rtsp::init().unwrap();

    let (result, url) = RTSPUrl::parse("rtsp://localhost:554/test");
    assert_eq!(result, RTSPResult::Success);
    let url = url.unwrap();
    let conn = RTSPConnection::create(&url);
    assert!(conn.is_ok());
}

#[test]
fn test_rtsp_connection_tunneling() {
    gstreamer_rtsp::init().unwrap();

    let (result, url) = RTSPUrl::parse("rtsp://localhost:554/test");
    assert_eq!(result, RTSPResult::Success);
    let url = url.unwrap();
    let mut conn = RTSPConnection::create(&url).unwrap();

    conn.set_tunneled(true);
    assert!(conn.is_tunneled());

    conn.set_tunneled(false);
    assert!(!conn.is_tunneled());
}

#[test]
fn test_rtsp_connection_auth() {
    gstreamer_rtsp::init().unwrap();

    let (result, url) = RTSPUrl::parse("rtsp://localhost:554/test");
    assert_eq!(result, RTSPResult::Success);
    let url = url.unwrap();
    let mut conn = RTSPConnection::create(&url).unwrap();

    conn.set_auth(RTSPAuthMethod::Basic, "user", "pass").unwrap();
    conn.set_auth_param("realm", "test_realm");
    conn.clear_auth_params();
}

#[test]
fn test_rtsp_connection_proxy() {
    gstreamer_rtsp::init().unwrap();

    let (result, url) = RTSPUrl::parse("rtsp://localhost:554/test");
    assert_eq!(result, RTSPResult::Success);
    let url = url.unwrap();
    let mut conn = RTSPConnection::create(&url).unwrap();

    let result = conn.set_proxy("proxy.example.com", 8080);
    assert!(result.is_ok());
}

#[test]
fn test_rtsp_connection_qos() {
    gstreamer_rtsp::init().unwrap();

    let (result, url) = RTSPUrl::parse("rtsp://localhost:554/test");
    assert_eq!(result, RTSPResult::Success);
    let url = url.unwrap();
    let mut conn = RTSPConnection::create(&url).unwrap();

    let _ = conn.set_qos_dscp(46);
}

#[test]
fn test_rtsp_connection_http_mode() {
    gstreamer_rtsp::init().unwrap();

    let (result, url) = RTSPUrl::parse("rtsp://localhost:554/test");
    assert_eq!(result, RTSPResult::Success);
    let url = url.unwrap();
    let mut conn = RTSPConnection::create(&url).unwrap();

    conn.set_http_mode(true);
    conn.set_remember_session_id(true);
}

#[test]
fn test_rtsp_connection_ip() {
    gstreamer_rtsp::init().unwrap();

    let (result, url) = RTSPUrl::parse("rtsp://localhost:554/test");
    assert_eq!(result, RTSPResult::Success);
    let url = url.unwrap();
    let mut conn = RTSPConnection::create(&url).unwrap();

    conn.set_ip("192.168.1.1");
}

#[test]
fn test_rtsp_connection_timeout() {
    gstreamer_rtsp::init().unwrap();

    let (result, url) = RTSPUrl::parse("rtsp://localhost:554/test");
    assert_eq!(result, RTSPResult::Success);
    let url = url.unwrap();
    let mut conn = RTSPConnection::create(&url).unwrap();

    let timeout = conn.next_timeout();
    assert!(timeout >= 0);

    let result = conn.reset_timeout();
    assert!(result.is_ok());
}
