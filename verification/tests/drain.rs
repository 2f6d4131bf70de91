use cgroup_skb_egress::channel::RingChannel;
use cgroup_skb_egress::codec::{
    encode_record, ipv4_from_octets, PacketLog, ACTION_ALLOW, ACTION_DENY,
};
use cgroup_skb_egress::drain::drain_channel;
use cgroup_skb_egress::render::{decimal_string, format_ipv4, render_log_line};

#[test]
fn decimal_rendering_exact() {
    assert_eq!(decimal_string(0), "0");
    assert_eq!(decimal_string(7), "7");
    assert_eq!(decimal_string(10), "10");
    assert_eq!(decimal_string(255), "255");
    assert_eq!(decimal_string(4294967295), "4294967295");
}

#[test]
fn dotted_quad_rendering_exact() {
    assert_eq!(format_ipv4(0), "0.0.0.0");
    assert_eq!(format_ipv4(0x0101_0101), "1.1.1.1");
    assert_eq!(format_ipv4(0x0102_0304), "1.2.3.4");
    assert_eq!(format_ipv4(u32::MAX), "255.255.255.255");
    assert_eq!(format_ipv4(ipv4_from_octets(192, 168, 0, 1)), "192.168.0.1");
}

#[test]
fn log_line_exact() {
    let rec = PacketLog { ipv4_address: ipv4_from_octets(1, 1, 1, 1), action: ACTION_DENY };
    assert_eq!(render_log_line(&rec), "LOG: DST 1.1.1.1, ACTION 0");
}

#[test]
fn three_records_drain_in_order() {
    let mut ch = RingChannel::new(16);
    let records = [
        PacketLog { ipv4_address: ipv4_from_octets(1, 1, 1, 1), action: ACTION_DENY },
        PacketLog { ipv4_address: ipv4_from_octets(8, 8, 8, 8), action: ACTION_ALLOW },
        PacketLog { ipv4_address: ipv4_from_octets(1, 1, 1, 1), action: ACTION_DENY },
    ];
    for rec in &records {
        assert!(ch.push_record(encode_record(rec)));
    }
    let lines = drain_channel(&mut ch);
    assert_eq!(
        lines,
        vec![
            "LOG: DST 1.1.1.1, ACTION 0".to_string(),
            "LOG: DST 8.8.8.8, ACTION 1".to_string(),
            "LOG: DST 1.1.1.1, ACTION 0".to_string(),
        ]
    );
}

#[test]
fn drained_records_are_not_reemitted() {
    let mut ch = RingChannel::new(8);
    let rec = PacketLog { ipv4_address: ipv4_from_octets(1, 2, 3, 4), action: ACTION_ALLOW };
    assert!(ch.push_record(encode_record(&rec)));
    let first_pass = drain_channel(&mut ch);
    assert_eq!(first_pass.len(), 1);
    // The record was consumed: a second pass emits nothing.
    let second_pass = drain_channel(&mut ch);
    assert!(second_pass.is_empty());
    assert_eq!(ch.len(), 0);
}

#[test]
fn wrong_length_record_is_skipped() {
    let mut ch = RingChannel::new(8);
    let good = PacketLog { ipv4_address: ipv4_from_octets(8, 8, 8, 8), action: ACTION_ALLOW };
    assert!(ch.push_record(vec![1, 2, 3]));
    assert!(ch.push_record(encode_record(&good)));
    assert!(ch.push_record(vec![]));
    let lines = drain_channel(&mut ch);
    // The malformed records fail individually; draining goes on.
    assert_eq!(lines, vec!["LOG: DST 8.8.8.8, ACTION 1".to_string()]);
}

#[test]
fn full_channel_drops_new_records() {
    let mut ch = RingChannel::new(1);
    let first = PacketLog { ipv4_address: ipv4_from_octets(1, 1, 1, 1), action: ACTION_DENY };
    let second = PacketLog { ipv4_address: ipv4_from_octets(8, 8, 8, 8), action: ACTION_ALLOW };
    assert!(ch.push_record(encode_record(&first)));
    // Capacity reached: the excess record is dropped silently.
    assert!(!ch.push_record(encode_record(&second)));
    let lines = drain_channel(&mut ch);
    assert_eq!(lines, vec!["LOG: DST 1.1.1.1, ACTION 0".to_string()]);
}

#[test]
fn empty_channel_drains_to_nothing() {
    let mut ch = RingChannel::new(4);
    let lines = drain_channel(&mut ch);
    assert!(lines.is_empty());
}
