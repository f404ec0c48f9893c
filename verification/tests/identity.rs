use ping_viewer_next::device::manager::{
    SourceSelection, SourceSerialStruct, SourceUdpStruct,
};

fn udp(a: u8, port: u16) -> SourceSelection {
    SourceSelection::UdpStream(SourceUdpStruct { ip: [192, 168, 0, a], port })
}

#[test]
fn equal_sources_have_equal_identities() {
    assert_eq!(udp(1, 9092).id(), udp(1, 9092).id());
    let a = SourceSelection::SerialStream(SourceSerialStruct {
        path: "/dev/ttyUSB0".to_string(),
        baudrate: 115200,
    });
    let b = SourceSelection::SerialStream(SourceSerialStruct {
        path: "/dev/ttyUSB0".to_string(),
        baudrate: 115200,
    });
    assert_eq!(a.id(), b.id());
}

#[test]
fn canonical_bytes_of_a_udp_source() {
    assert_eq!(udp(1, 9092).canonical_bytes(), vec![0, 192, 168, 0, 1, 0x23, 0x84]);
}

#[test]
fn canonical_bytes_of_a_serial_source() {
    let s = SourceSelection::SerialStream(SourceSerialStruct {
        path: "/a".to_string(),
        baudrate: 115200,
    });
    assert_eq!(s.canonical_bytes(), vec![1, 0, 1, 0xc2, 0, b'/', b'a']);
}

#[test]
fn identity_fits_in_sixty_four_bits() {
    assert!(udp(7, 1).id() <= u64::MAX as u128);
}
