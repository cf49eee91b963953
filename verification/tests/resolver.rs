use air_quality_monitor::mdns::{Ipv4, MdnsAnswer, MdnsFacade, ServiceEndpoint};
use air_quality_monitor::mqtt::{MqttFacade, MqttFacadeConfig};

fn answer(a: u8, b: u8, c: u8, d: u8, port: u16) -> MdnsAnswer {
    MdnsAnswer { address: Ipv4::new(a, b, c, d), port }
}

#[test]
fn first_valid_answer_wins() {
    let resolver = MdnsFacade::new();
    let answers = vec![
        answer(0, 0, 0, 0, 1883),
        answer(10, 0, 0, 7, 0),
        answer(192, 168, 1, 50, 1883),
        answer(10, 0, 0, 9, 1884),
    ];
    let endpoint = resolver.query_service("_mqtt._tcp.local", &answers);
    assert_eq!(
        endpoint,
        Some(ServiceEndpoint { address: Ipv4::new(192, 168, 1, 50), port: 1883 })
    );
}

#[test]
fn zero_address_and_zero_port_never_resolve() {
    let resolver = MdnsFacade::new();
    let answers = vec![
        answer(0, 0, 0, 0, 0),
        answer(0, 0, 0, 0, 1883),
        answer(172, 16, 0, 1, 0),
    ];
    assert_eq!(resolver.query_service("_mqtt._tcp.local", &answers), None);
}

#[test]
fn silence_does_not_resolve() {
    let resolver = MdnsFacade::new();
    let answers: Vec<MdnsAnswer> = Vec::new();
    assert_eq!(resolver.query_service("_mqtt._tcp.local", &answers), None);
}

#[test]
fn accept_answer_requires_both_fields() {
    let resolver = MdnsFacade::new();
    assert!(resolver.accept_answer(&answer(1, 2, 3, 4, 1883)).is_some());
    assert!(resolver.accept_answer(&answer(0, 0, 0, 0, 1883)).is_none());
    assert!(resolver.accept_answer(&answer(1, 2, 3, 4, 0)).is_none());
    assert!(resolver.accept_answer(&answer(0, 0, 0, 1, 1)).is_some());
}

fn zero_ms() -> u64 {
    0
}

/// A minimal multicast DNS response for `_mqtt._tcp.local`: one PTR answer
/// carrying the service name, one SRV additional record carrying the port,
/// and one A additional record carrying the address.
fn broker_response_packet(ip: [u8; 4], port: u16) -> Vec<u8> {
    let mut pkt: Vec<u8> = Vec::new();
    // Header: id 0, response flags, no questions, 1 answer, 0 authority,
    // 2 additional records.
    pkt.extend_from_slice(&[0, 0, 0x84, 0x00, 0, 0, 0, 1, 0, 0, 0, 2]);
    // Answer: the queried service name, type PTR, class IN, ttl 0, and a
    // root name as data.
    pkt.push(5);
    pkt.extend_from_slice(b"_mqtt");
    pkt.push(4);
    pkt.extend_from_slice(b"_tcp");
    pkt.push(5);
    pkt.extend_from_slice(b"local");
    pkt.push(0);
    pkt.extend_from_slice(&[0, 12, 0, 1, 0, 0, 0, 0, 0, 1, 0]);
    // Additional: SRV with priority 0, weight 0, and the broker port.
    let [ph, pl] = port.to_be_bytes();
    pkt.push(0);
    pkt.extend_from_slice(&[0, 33, 0, 1, 0, 0, 0, 0, 0, 6, 0, 0, 0, 0, ph, pl]);
    // Additional: A with the broker address.
    pkt.push(0);
    pkt.extend_from_slice(&[0, 1, 0, 1, 0, 0, 0, 0, 0, 4]);
    pkt.extend_from_slice(&ip);
    pkt
}

#[test]
fn parsed_packet_resolves_through_acceptance_rule() {
    // The same path the runtime takes: the packet goes through the mDNS
    // parser, and the parsed answer through the resolver's acceptance rule.
    let mut query = esp_hal_mdns::MdnsQuery::new("_mqtt._tcp.local", 1000, zero_ms);
    let pkt = broker_response_packet([192, 168, 1, 50], 1883);
    let (ip, port, _instance) = query.parse_mdns_query(&pkt, None);
    assert_eq!(ip, [192, 168, 1, 50]);
    assert_eq!(port, 1883);
    let resolver = MdnsFacade::new();
    let parsed = MdnsAnswer { address: Ipv4::new(ip[0], ip[1], ip[2], ip[3]), port };
    assert_eq!(
        resolver.accept_answer(&parsed),
        Some(ServiceEndpoint { address: Ipv4::new(192, 168, 1, 50), port: 1883 })
    );
}

#[test]
fn packet_for_another_service_parses_to_no_answer() {
    let mut query = esp_hal_mdns::MdnsQuery::new("_http._tcp.local", 1000, zero_ms);
    let pkt = broker_response_packet([192, 168, 1, 50], 1883);
    let (ip, port, _instance) = query.parse_mdns_query(&pkt, None);
    let resolver = MdnsFacade::new();
    let parsed = MdnsAnswer { address: Ipv4::new(ip[0], ip[1], ip[2], ip[3]), port };
    assert_eq!(resolver.accept_answer(&parsed), None);
}

#[test]
fn resolved_endpoint_configures_facade() {
    let resolver = MdnsFacade::new();
    let answers = vec![answer(0, 0, 0, 0, 0), answer(192, 168, 1, 50, 1883)];
    let endpoint = resolver.query_service("_mqtt._tcp.local", &answers).unwrap();
    assert_eq!(endpoint.address, Ipv4::new(192, 168, 1, 50));
    assert_eq!(endpoint.port, 1883);
    let facade = MqttFacade::new(MqttFacadeConfig::new(
        endpoint.address,
        endpoint.port,
        "MyDevice",
    ));
    assert_eq!(facade.config.broker_ip, Ipv4::new(192, 168, 1, 50));
    assert_eq!(facade.config.broker_port, 1883);
    assert_eq!(facade.config.client_id, "MyDevice");
}
