use gstreamer_rtsp::{RTSPLowerTrans, RTSPProfile, RTSPRange, RTSPTransMode, RTSPTransport};

#[test]
fn rtsp_transport_test_rtsp_range() {
    let range = RTSPRange::new(0, 100);
    assert_eq!(range.min, 0);
    assert_eq!(range.max, 100);
}

#[test]
fn test_rtsp_transport_new() {
    let transport = RTSPTransport::new();
    assert!(transport.is_ok());
}

#[test]
fn test_rtsp_transport_parse() {
    let transport_str = "RTP/AVP;unicast;client_port=5000-5001";
    let transport = RTSPTransport::parse(transport_str);
    assert!(transport.is_ok());
}

#[test]
fn test_rtsp_transport_fields() {
    let mut transport = RTSPTransport::new().unwrap();

    transport.set_trans(RTSPTransMode::RTP);
    assert_eq!(transport.trans(), RTSPTransMode::RTP);

    transport.set_profile(RTSPProfile::AVP);
    assert_eq!(transport.profile(), RTSPProfile::AVP);

    transport.set_lower_transport(RTSPLowerTrans::UDP);
    assert_eq!(transport.lower_transport(), RTSPLowerTrans::UDP);

    transport.set_destination(Some("192.168.1.1"));
    assert_eq!(transport.destination(), Some("192.168.1.1".to_string()));

    transport.set_source(Some("192.168.1.2"));
    assert_eq!(transport.source(), Some("192.168.1.2".to_string()));

    transport.set_layers(2);
    assert_eq!(transport.layers(), 2);

    transport.set_mode_play(true);
    assert!(transport.mode_play());
    transport.set_mode_record(false);
    assert!(!transport.mode_record());

    transport.set_append(true);
    assert!(transport.append());

    let interleaved = RTSPRange::new(0, 1);
    transport.set_interleaved(interleaved);
    assert_eq!(transport.interleaved(), interleaved);

    transport.set_ttl(64);
    assert_eq!(transport.ttl(), 64);

    let port_range = RTSPRange::new(5000, 5001);
    transport.set_client_port(port_range);
    assert_eq!(transport.client_port(), port_range);

    transport.set_server_port(port_range);
    assert_eq!(transport.server_port(), port_range);

    transport.set_port(port_range);
    assert_eq!(transport.port(), port_range);

    transport.set_ssrc(12345678);
    assert_eq!(transport.ssrc(), 12345678);
}

#[test]
fn test_rtsp_transport_as_text() {
    let transport = RTSPTransport::new().unwrap();
    let text = transport.as_text();
    assert!(!text.is_empty());
}

#[test]
fn test_rtsp_transport_display() {
    let transport = RTSPTransport::new().unwrap();
    let display = transport.as_text();
    assert!(!display.is_empty());
}

#[test]
fn test_rtsp_transport_debug() {
    let transport = RTSPTransport::new().unwrap();
    let debug = format!("{:?}", transport);
    assert!(debug.contains("RTSPTransport"));
}
