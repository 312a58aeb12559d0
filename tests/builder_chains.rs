use gstreamer_rtsp::builders::helpers;
use gstreamer_rtsp::{
    RTSPConnectionBuilder, RTSPLowerTrans, RTSPProfile, RTSPRange, RTSPResult, RTSPTransMode,
    RTSPTransportBuilder, RTSPUrl,
};

#[test]
fn builders_test_transport_builder() {
    let transport = RTSPTransportBuilder::new()
        .unwrap()
        .profile(RTSPProfile::AVP)
        .lower_transport(RTSPLowerTrans::UDP)
        .client_ports(5000, 5001)
        .server_ports(6000, 6001)
        .ttl(64)
        .build()
        .unwrap();

    assert_eq!(transport.profile(), RTSPProfile::AVP);
    assert_eq!(transport.lower_transport(), RTSPLowerTrans::UDP);
    assert_eq!(transport.client_port(), RTSPRange::new(5000, 5001));
    assert_eq!(transport.server_port(), RTSPRange::new(6000, 6001));
    assert_eq!(transport.ttl(), 64);
}

#[test]
fn test_transport_builder_modes() {
    let transport = RTSPTransportBuilder::new().unwrap().mode(true, false).build().unwrap();

    assert!(transport.mode_play());
    assert!(!transport.mode_record());
}

#[test]
fn builders_test_connection_builder() {
    gstreamer_rtsp::init().unwrap();

    let (result, url) = RTSPUrl::parse("rtsp://localhost:554/test");
    assert_eq!(result, RTSPResult::Success);
    let url = url.unwrap();

    let conn = RTSPConnectionBuilder::new(&url)
        .proxy("proxy.example.com", 8080)
        .tunneled(true)
        .http_mode(true)
        .build();

    assert!(conn.is_ok());
    let conn = conn.unwrap();
    assert!(conn.is_tunneled());
}

#[test]
fn test_helpers_parse_transport() {
    let transport_str = "RTP/AVP;unicast;client_port=5000-5001";
    let transport = helpers::parse_transport(transport_str);
    assert!(transport.is_ok());
}

#[test]
fn test_helpers_transport_mime() {
    assert_eq!(
        helpers::transport_get_mime(RTSPTransMode::RTP, RTSPProfile::AVP),
        "application/x-rtp"
    );
    assert_eq!(
        helpers::transport_get_mime(RTSPTransMode::RTP, RTSPProfile::SAVP),
        "application/x-srtp"
    );
    assert_eq!(
        helpers::transport_get_mime(RTSPTransMode::RDT, RTSPProfile::AVP),
        "application/x-rdt"
    );
}

#[test]
fn test_helpers_default_port() {
    assert_eq!(helpers::default_port(false), 554);
    assert_eq!(helpers::default_port(true), 322);
}

#[test]
fn test_helpers_options_from_uri() {
    let options = helpers::options_from_uri("rtsp://localhost:554/test?timeout=30&latency=100");
    assert_eq!(options.len(), 2);
    assert_eq!(options[0], ("timeout".to_string(), "30".to_string()));
    assert_eq!(options[1], ("latency".to_string(), "100".to_string()));
}

#[test]
fn test_helpers_create_transports() {
    let rtp_transport = helpers::create_rtp_transport(5000, 5001);
    assert!(rtp_transport.is_ok());
    let rtp_transport = rtp_transport.unwrap();
    assert_eq!(rtp_transport.profile(), RTSPProfile::AVP);
    assert_eq!(rtp_transport.lower_transport(), RTSPLowerTrans::UDP);

    let tcp_transport = helpers::create_tcp_transport(0, 1);
    assert!(tcp_transport.is_ok());
    let tcp_transport = tcp_transport.unwrap();
    assert_eq!(tcp_transport.lower_transport(), RTSPLowerTrans::TCP);
    assert_eq!(tcp_transport.interleaved(), RTSPRange::new(0, 1));
}
