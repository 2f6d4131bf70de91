use cgroup_skb_egress::codec::{
    decode_record, encode_record, ipv4_from_octets, EbpfAtomicI64, PacketLog, ACTION_ALLOW,
    ACTION_DENY, RECORD_SIZE,
};

#[test]
fn default_entry_is_zeroed() {
    let e = EbpfAtomicI64::default();
    assert_eq!(e, EbpfAtomicI64 { value: 0, zero: 0 });
}

#[test]
fn record_size_is_eight() {
    assert_eq!(RECORD_SIZE, 8);
}

#[test]
fn decode_exact_record() {
    // 1.1.1.1 little-endian, action 0 (deny).
    let bytes = vec![0x01u8, 0x01, 0x01, 0x01, 0x00, 0x00, 0x00, 0x00];
    let rec = decode_record(&bytes).unwrap();
    assert_eq!(rec.ipv4_address, 0x0101_0101);
    assert_eq!(rec.action, ACTION_DENY);
}

#[test]
fn decode_mixed_bytes() {
    // Address 0x04030201 (4.3.2.1 in dotted-quad), action 1 (allow).
    let bytes = vec![0x01u8, 0x02, 0x03, 0x04, 0x01, 0x00, 0x00, 0x00];
    let rec = decode_record(&bytes).unwrap();
    assert_eq!(rec.ipv4_address, 0x0403_0201);
    assert_eq!(rec.action, ACTION_ALLOW);
}

#[test]
fn short_slice_fails_without_panic() {
    for len in 0..RECORD_SIZE {
        let bytes = vec![0xFFu8; len];
        let err = decode_record(&bytes).unwrap_err();
        assert_eq!(err.actual_len, len);
    }
}

#[test]
fn long_slice_fails_without_panic() {
    for len in (RECORD_SIZE + 1)..(RECORD_SIZE + 4) {
        let bytes = vec![0x00u8; len];
        let err = decode_record(&bytes).unwrap_err();
        assert_eq!(err.actual_len, len);
    }
}

#[test]
fn decode_is_deterministic() {
    let a = vec![0x08u8, 0x08, 0x08, 0x08, 0x01, 0x00, 0x00, 0x00];
    let b = vec![0x08u8, 0x08, 0x08, 0x08, 0x01, 0x00, 0x00, 0x00];
    let ra = decode_record(&a).unwrap();
    let rb = decode_record(&b).unwrap();
    assert_eq!(ra, rb);
    // The same slice decoded twice gives the same record.
    assert_eq!(decode_record(&a).unwrap(), ra);
}

#[test]
fn encode_then_decode_round_trips() {
    let records = [
        PacketLog { ipv4_address: 0, action: 0 },
        PacketLog { ipv4_address: 0x0101_0101, action: ACTION_DENY },
        PacketLog { ipv4_address: 0x0808_0808, action: ACTION_ALLOW },
        PacketLog { ipv4_address: u32::MAX, action: u32::MAX },
    ];
    for rec in records {
        let bytes = encode_record(&rec);
        assert_eq!(bytes.len(), RECORD_SIZE);
        assert_eq!(decode_record(&bytes).unwrap(), rec);
    }
}

#[test]
fn encode_is_little_endian() {
    let rec = PacketLog { ipv4_address: 0x0403_0201, action: 0x0000_0001 };
    let bytes = encode_record(&rec);
    assert_eq!(bytes, vec![0x01, 0x02, 0x03, 0x04, 0x01, 0x00, 0x00, 0x00]);
}

#[test]
fn octets_build_host_value() {
    assert_eq!(ipv4_from_octets(1, 1, 1, 1), 0x0101_0101);
    assert_eq!(ipv4_from_octets(8, 8, 8, 8), 0x0808_0808);
    assert_eq!(ipv4_from_octets(255, 255, 255, 255), u32::MAX);
    assert_eq!(ipv4_from_octets(0, 0, 0, 0), 0);
    assert_eq!(ipv4_from_octets(192, 168, 0, 1), 0xC0A8_0001);
}
