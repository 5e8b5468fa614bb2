use lianli_lcd::lcd_packet::{lcd_packets, PacketFormat};

fn format() -> PacketFormat {
    PacketFormat { report_id: 2, pkt_size: 1024, max_payload: 4 }
}

#[test]
fn payload_is_cut_into_packets() {
    let data: Vec<u8> = (0..10).collect();
    let packets = lcd_packets(format(), 0x0E, &data);
    assert_eq!(packets.len(), 3);
    for (k, packet) in packets.iter().enumerate() {
        assert_eq!(packet.report_id, 2);
        assert_eq!(packet.pkt_size, 1024);
        assert_eq!(packet.cmd, 0x0E);
        assert_eq!(packet.total_size, 10);
        assert_eq!(packet.packet_num, k as u32);
        assert!(packet.payload.len() <= 4);
    }
    assert_eq!(packets[0].payload, &[0, 1, 2, 3]);
    assert_eq!(packets[2].payload, &[8, 9]);
    let joined: Vec<u8> = packets.iter().flat_map(|p| p.payload.to_vec()).collect();
    assert_eq!(joined, data);
}

#[test]
fn full_packets_are_not_followed_by_an_empty_one() {
    let data = [7u8; 8];
    let packets = lcd_packets(format(), 1, &data);
    assert_eq!(packets.len(), 2);
    assert_eq!(packets[1].payload.len(), 4);
}

#[test]
fn empty_payload_takes_one_packet() {
    let packets = lcd_packets(format(), 1, &[]);
    assert_eq!(packets.len(), 1);
    assert_eq!(packets[0].total_size, 0);
    assert!(packets[0].payload.is_empty());
}
