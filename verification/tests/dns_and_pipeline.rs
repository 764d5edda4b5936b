use dissect::application::dns::{DNSQuery, DNSQueryRequest};
use dissect::error::DecodeError;
use dissect::pipeline::{decode_packet, DnsOutcome, NetworkOutcome, TransportOutcome};
use dissect::util::DataContainer;

fn example_com_question() -> Vec<u8> {
    let mut data = Vec::new();
    data.push(7);
    data.extend_from_slice(b"example");
    data.push(3);
    data.extend_from_slice(b"com");
    data.push(0);
    data.extend_from_slice(&[0x00, 0x01]); // query type
    data.extend_from_slice(&[0x00, 0x01]); // query class
    data
}

#[test]
fn dns_question_decodes_example_com_in_seventeen_bytes() {
    let data = example_com_question();
    assert_eq!(data.len(), 17);
    let (q, end) = DNSQueryRequest::decode(&data, 0).unwrap();
    assert_eq!(q.name, b"example.com.".to_vec());
    assert_eq!(q.query_type, 1);
    assert_eq!(q.query_class, 1);
    assert_eq!(end, 17);
}

#[test]
fn dns_question_truncated_before_terminator() {
    let data = example_com_question();
    // Cut one byte before the zero-length terminator label.
    assert!(matches!(
        DNSQueryRequest::decode(&data[..12], 0),
        Err(DecodeError::TruncatedInput)
    ));
}

#[test]
fn dns_compression_pointer_is_rejected() {
    let data = [0xC0, 0x0C, 0x00, 0x01, 0x00, 0x01];
    assert!(matches!(
        DNSQueryRequest::decode(&data, 0),
        Err(DecodeError::UnsupportedCompression)
    ));
}

#[test]
fn dns_overlong_label_is_rejected() {
    // 0x7F is above the 63-byte label ceiling but is no compression pointer.
    let data = [0x7F, 0x00, 0x00, 0x01, 0x00, 0x01];
    assert!(matches!(
        DNSQueryRequest::decode(&data, 0),
        Err(DecodeError::MalformedLabel)
    ));
}

fn dns_message(questions: &[&[u8]]) -> Vec<u8> {
    let mut data = vec![
        0xBE, 0xEF, // id
        0x01, 0x00, // flags
        0x00, questions.len() as u8, // question count
        0x00, 0x00, // answers
        0x00, 0x00, // authority
        0x00, 0x00, // additional
    ];
    for q in questions {
        data.extend_from_slice(q);
    }
    data
}

#[test]
fn dns_message_decodes_header_and_questions() {
    let question = example_com_question();
    let data = dns_message(&[&question, &question]);
    let msg = DNSQuery::decode(&data).unwrap();
    assert_eq!(msg.id, 0xBEEF);
    assert_eq!(msg.flags, 0x0100);
    assert_eq!(msg.questions, 2);
    assert_eq!(msg.answers, 0);
    assert_eq!(msg.authority_rr, 0);
    assert_eq!(msg.additional_rr, 0);
    assert_eq!(msg.query_requests.len(), 2);
    for q in &msg.query_requests {
        assert_eq!(q.name, b"example.com.".to_vec());
        assert_eq!(q.query_type, 1);
        assert_eq!(q.query_class, 1);
    }
}

#[test]
fn dns_message_with_missing_question_is_truncated() {
    let question = example_com_question();
    // The header declares two questions but only one follows.
    let mut data = dns_message(&[&question]);
    data[5] = 2;
    assert!(matches!(
        DNSQuery::decode(&data),
        Err(DecodeError::TruncatedInput)
    ));
}

#[test]
fn dns_message_shorter_than_header_is_truncated() {
    let data = [0u8; 11];
    assert!(matches!(
        DNSQuery::decode(&data),
        Err(DecodeError::TruncatedInput)
    ));
}

fn synthetic_dns_frame() -> Vec<u8> {
    // DNS: one question for the name "a.b".
    let mut dns = vec![
        0x12, 0x34, // id
        0x00, 0x00, // flags
        0x00, 0x01, // one question
        0x00, 0x00, 0x00, 0x00, 0x00, 0x00,
    ];
    dns.push(1);
    dns.extend_from_slice(b"a");
    dns.push(1);
    dns.extend_from_slice(b"b");
    dns.push(0);
    dns.extend_from_slice(&[0x00, 0x01, 0x00, 0x01]);

    // UDP to port 53 around it.
    let udp_len = 8 + dns.len();
    let mut udp = vec![0xC0, 0x00, 0x00, 53];
    udp.extend_from_slice(&(udp_len as u16).to_be_bytes());
    udp.extend_from_slice(&[0x00, 0x00]);
    udp.extend_from_slice(&dns);

    // IPv4 with protocol UDP around that.
    let total_len = 20 + udp.len();
    let mut ip = vec![0x45, 0x00];
    ip.extend_from_slice(&(total_len as u16).to_be_bytes());
    ip.extend_from_slice(&[0x00, 0x00, 0x00, 0x00, 64, 17, 0x00, 0x00]);
    ip.extend_from_slice(&[10, 0, 0, 1, 10, 0, 0, 2]);
    ip.extend_from_slice(&udp);

    // Ethernet with ether-type IPv4 around that.
    let mut frame = vec![
        0x94, 0xB8, 0x6D, 0xC4, 0xCD, 0x31, 0x00, 0x11, 0x22, 0x33, 0x44, 0x55, 0x08, 0x00,
    ];
    frame.extend_from_slice(&ip);
    frame
}

#[test]
fn pipeline_decodes_dns_through_all_four_layers() {
    let data = synthetic_dns_frame();
    let decoded = decode_packet(&data).unwrap();
    assert_eq!(decoded.frame.frame_type(), 0x0800);
    match decoded.network {
        NetworkOutcome::Ipv4(packet, transport) => {
            assert_eq!(packet.protocol(), 17);
            match transport {
                TransportOutcome::Udp(segment, dns) => {
                    assert_eq!(segment.destination(), 53);
                    match dns {
                        DnsOutcome::Dns(msg) => {
                            assert_eq!(msg.questions, 1);
                            assert_eq!(msg.query_requests.len(), 1);
                            assert_eq!(msg.query_requests[0].name, b"a.b.".to_vec());
                        }
                        _ => panic!("the UDP payload must decode as DNS"),
                    }
                }
                _ => panic!("the IPv4 payload must decode as UDP"),
            }
        }
        _ => panic!("the frame payload must decode as IPv4"),
    }
}

#[test]
fn pipeline_decodes_twice_to_identical_output() {
    let data = synthetic_dns_frame();
    let a = decode_packet(&data).unwrap();
    let b = decode_packet(&data).unwrap();
    assert_eq!(a.frame.frame_type(), b.frame.frame_type());
    assert_eq!(a.frame.data(), b.frame.data());
    match (a.network, b.network) {
        (NetworkOutcome::Ipv4(pa, ta), NetworkOutcome::Ipv4(pb, tb)) => {
            assert_eq!(pa.ihl(), pb.ihl());
            assert_eq!(pa.data(), pb.data());
            match (ta, tb) {
                (TransportOutcome::Udp(ua, da), TransportOutcome::Udp(ub, db)) => {
                    assert_eq!(ua.data(), ub.data());
                    match (da, db) {
                        (DnsOutcome::Dns(ma), DnsOutcome::Dns(mb)) => {
                            assert_eq!(ma.id, mb.id);
                            assert_eq!(ma.query_requests.len(), mb.query_requests.len());
                            assert_eq!(ma.query_requests[0].name, mb.query_requests[0].name);
                        }
                        _ => panic!("both decodes must reach DNS"),
                    }
                }
                _ => panic!("both decodes must reach UDP"),
            }
        }
        _ => panic!("both decodes must reach IPv4"),
    }
}

#[test]
fn pipeline_keeps_decoded_layers_when_a_deeper_layer_fails() {
    let mut data = synthetic_dns_frame();
    // Corrupt the DNS question: a compression pointer as the first label.
    let dns_start = 14 + 20 + 8;
    data[dns_start + 12] = 0xC0;
    let decoded = decode_packet(&data).unwrap();
    match decoded.network {
        NetworkOutcome::Ipv4(_, TransportOutcome::Udp(segment, dns)) => {
            assert_eq!(segment.destination(), 53);
            assert!(matches!(
                dns,
                DnsOutcome::Failed(DecodeError::UnsupportedCompression)
            ));
        }
        _ => panic!("the frame and IPv4 and UDP layers must still stand"),
    }
}

#[test]
fn pipeline_skips_dns_off_the_dns_port() {
    let mut data = synthetic_dns_frame();
    // Move both ports away from 53.
    let udp_start = 14 + 20;
    data[udp_start + 2] = 0x01;
    data[udp_start + 3] = 0x02;
    let decoded = decode_packet(&data).unwrap();
    match decoded.network {
        NetworkOutcome::Ipv4(_, TransportOutcome::Udp(_, dns)) => {
            assert!(matches!(dns, DnsOutcome::NotDns));
        }
        _ => panic!("the frame must decode to UDP"),
    }
}

#[test]
fn pipeline_tags_unknown_discriminants() {
    let mut data = synthetic_dns_frame();
    // An ether-type with no decoder.
    data[12] = 0x08;
    data[13] = 0x42;
    let decoded = decode_packet(&data).unwrap();
    assert!(matches!(decoded.network, NetworkOutcome::Unknown(0x0842)));

    // An IP protocol with no decoder.
    let mut data = synthetic_dns_frame();
    data[14 + 9] = 2;
    let decoded = decode_packet(&data).unwrap();
    match decoded.network {
        NetworkOutcome::Ipv4(_, TransportOutcome::Unknown(2)) => {}
        _ => panic!("an unmapped protocol must be tagged, not an error"),
    }
}

#[test]
fn pipeline_short_buffer_is_truncated() {
    let data = [0u8; 13];
    assert!(matches!(
        decode_packet(&data),
        Err(DecodeError::TruncatedInput)
    ));
}
