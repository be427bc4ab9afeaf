use gb_core::cartridge::header::{get_header, CartridgeType};
use gb_core::cartridge::{Cartridge, CartridgeError, MAX_BYTES};

fn blank_image() -> Vec<u8> {
    vec![0u8; 0x150]
}

#[test]
fn cartridge_type_byte_one_is_mbc1() {
    let mut bytes = blank_image();
    bytes[0x147] = 0x01;
    let h = get_header(&bytes);
    assert_eq!(h.cartridge_type, CartridgeType::MBC1);
}

#[test]
fn cartridge_type_byte_ff_is_huc1() {
    let mut bytes = blank_image();
    bytes[0x147] = 0xFF;
    let h = get_header(&bytes);
    assert_eq!(h.cartridge_type, CartridgeType::HUC1_RAM_BATTERY);
}

#[test]
fn unassigned_cartridge_type_byte_is_unsupported() {
    let mut bytes = blank_image();
    bytes[0x147] = 0x04;
    let h = get_header(&bytes);
    assert_eq!(h.cartridge_type, CartridgeType::Unsupported);
}

#[test]
fn header_single_byte_fields() {
    let mut bytes = blank_image();
    bytes[0x143] = 0x80;
    bytes[0x146] = 0x03;
    bytes[0x147] = 0x19;
    bytes[0x148] = 0x05;
    bytes[0x149] = 0x03;
    let h = get_header(&bytes);
    assert_eq!(h.cgb, 0x80);
    assert_eq!(h.sgb, 0x03);
    assert_eq!(h.cartridge_type, CartridgeType::MBC5);
    assert_eq!(h.rom_size, 0x05);
    assert_eq!(h.ram_size, 0x03);
    assert_eq!(h.raw_size, 0x150);
}

#[test]
fn title_trims_trailing_zero_padding() {
    let mut bytes = blank_image();
    for (i, b) in b"HELLO".iter().enumerate() {
        bytes[0x134 + i] = *b;
    }
    let h = get_header(&bytes);
    assert_eq!(h.title.as_deref(), Some("HELLO"));
}

#[test]
fn invalid_title_bytes_decode_to_absent_not_error() {
    let mut bytes = blank_image();
    bytes[0x134] = 0xFF;
    bytes[0x135] = 0xFE;
    let h = get_header(&bytes);
    assert_eq!(h.title, None);
}

#[test]
fn licensee_field_decodes() {
    let mut bytes = blank_image();
    bytes[0x144] = b'A';
    let h = get_header(&bytes);
    assert_eq!(h.licensee.as_deref(), Some("A"));
}

#[test]
fn image_at_size_limit_is_accepted() {
    let bytes = vec![0u8; MAX_BYTES];
    let c = Cartridge::new(bytes);
    assert!(c.is_ok());
    assert_eq!(c.unwrap().len(), 1_572_864);
}

#[test]
fn image_over_size_limit_is_rejected() {
    let bytes = vec![0u8; MAX_BYTES + 1];
    match Cartridge::new(bytes) {
        Err(CartridgeError::OversizedImage) => {}
        other => panic!("expected an oversized-image fault, got {:?}", other.map(|_| ())),
    }
}

#[test]
fn cartridge_exposes_its_header() {
    let mut bytes = blank_image();
    bytes[0x147] = 0x01;
    let c = Cartridge::new(bytes).unwrap();
    assert_eq!(c.header().cartridge_type, CartridgeType::MBC1);
}

#[test]
fn cartridge_type_from_byte_conversion() {
    assert_eq!(CartridgeType::from(0x00), CartridgeType::ROM_ONLY);
    assert_eq!(CartridgeType::from(0x11), CartridgeType::MBC3);
    assert_eq!(CartridgeType::from(0x22), CartridgeType::MBC7_SENSOR_RUMBLE_RAM_BATTERY);
    assert_eq!(CartridgeType::from(0x07), CartridgeType::Unsupported);
}
