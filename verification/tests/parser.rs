//! Image handling: word splitting, header deserialization, and batch
//! decoding.

use arm_decode::dsi::HeaderNDS;
use arm_decode::errors::{DisasemblerError, ParseError};
use arm_decode::instruction::ArmInstruction;
use arm_decode::parser::Parser;

fn image_with_header(arm9_offset: u32, arm9_size: u32, code: &[u8]) -> Vec<u8> {
    let mut file = vec![0u8; 0x1000];
    file[0x20..0x24].copy_from_slice(&arm9_offset.to_le_bytes());
    file[0x2c..0x30].copy_from_slice(&arm9_size.to_le_bytes());
    file.extend_from_slice(code);
    file
}

#[test]
fn from_bin_splits_little_endian_words() {
    let bytes = [0x03, 0x10, 0x82, 0xE0, 0x05, 0x00, 0x00, 0xEB];
    let words = Parser::from_bin(&bytes).unwrap();
    assert_eq!(words, vec![0xE0821003, 0xEB000005]);
    assert_eq!(Parser::from_bin(&[]).unwrap(), Vec::<u32>::new());
}

#[test]
fn from_bin_rejects_unaligned_input() {
    let bytes = [1, 2, 3, 4, 5];
    assert_eq!(
        Parser::from_bin(&bytes),
        Err(DisasemblerError::UnaligedFile(1))
    );
    assert_eq!(
        Parser::from_bin(&[0, 0, 0]),
        Err(DisasemblerError::UnaligedFile(3))
    );
}

#[test]
fn header_fields_read_at_their_offsets() {
    let mut bytes = vec![0u8; 0x1000];
    bytes[0x0c..0x10].copy_from_slice(&0x41424344u32.to_le_bytes());
    bytes[0x10..0x12].copy_from_slice(&0x3031u16.to_le_bytes());
    bytes[0x12] = 2;
    bytes[0x20..0x24].copy_from_slice(&0x4000u32.to_le_bytes());
    bytes[0x24..0x28].copy_from_slice(&0x2000000u32.to_le_bytes());
    bytes[0x2c..0x30].copy_from_slice(&0x1234u32.to_le_bytes());
    bytes[0x30..0x34].copy_from_slice(&0x8000u32.to_le_bytes());
    bytes[0x84..0x88].copy_from_slice(&0x4000u32.to_le_bytes());
    let header = HeaderNDS::from_bytes(&bytes).unwrap();
    assert_eq!(header.tid, 0x41424344);
    assert_eq!(header.developer, 0x3031);
    assert_eq!(header.unit, 2);
    assert_eq!(header.arm9_offset, 0x4000);
    assert_eq!(header.arm9_entry, 0x2000000);
    assert_eq!(header.arm9_size, 0x1234);
    assert_eq!(header.arm7_offset, 0x8000);
    assert_eq!(header.header_size, 0x4000);
}

#[test]
fn header_rejects_short_input() {
    assert_eq!(
        HeaderNDS::from_bytes(&[0u8; 0xfff]),
        Err(DisasemblerError::FileToShort)
    );
}

#[test]
fn from_image_reads_the_code_region_behind_the_header() {
    let code = [0x03, 0x10, 0x82, 0xE0, 0x05, 0x00, 0x00, 0xEB];
    let file = image_with_header(0x1000, 8, &code);
    let parser = Parser::from_image(&file).unwrap();
    assert!(parser.using_little_endian);
    assert_eq!(parser.iter_arm_9, vec![0xE0821003, 0xEB000005]);
    assert_eq!(parser.rest, code.to_vec());
    let header = parser.header.expect("header expected");
    assert_eq!(header.arm9_offset, 0x1000);
    assert_eq!(header.arm9_size, 8);
}

#[test]
fn from_image_rejects_a_region_outside_the_file() {
    let file = image_with_header(0x1000, 16, &[0u8; 8]);
    assert_eq!(
        Parser::from_image(&file),
        Err(DisasemblerError::FileToShort)
    );
    let inside_header = image_with_header(0x800, 8, &[0u8; 8]);
    assert_eq!(
        Parser::from_image(&inside_header),
        Err(DisasemblerError::FileToShort)
    );
}

#[test]
fn from_image_takes_a_short_file_as_bare_code() {
    let bytes = [0x11, 0x00, 0x00, 0xEF];
    let parser = Parser::from_image(&bytes).unwrap();
    assert!(parser.header.is_none());
    assert_eq!(parser.iter_arm_9, vec![0xEF000011]);
    assert!(parser.rest.is_empty());
    assert_eq!(
        Parser::from_image(&[1, 2, 3]),
        Err(DisasemblerError::UnaligedFile(3))
    );
}

#[test]
fn parse_decodes_in_address_order() {
    let parser = Parser {
        iter_arm_9: vec![0xE0821003, 0xEB000005, 0xEF000011],
        rest: vec![],
        using_little_endian: true,
        header: None,
    };
    let decoded = parser.parse().unwrap();
    assert_eq!(decoded.len(), 3);
    assert_eq!(decoded[0], ArmInstruction::decode(0xE0821003).unwrap());
    assert_eq!(decoded[1], ArmInstruction::decode(0xEB000005).unwrap());
    assert_eq!(decoded[2], ArmInstruction::decode(0xEF000011).unwrap());
}

#[test]
fn parse_stops_at_the_first_failure() {
    let parser = Parser {
        iter_arm_9: vec![0xE0821003, 0xF1234567, 0xEF000011],
        rest: vec![],
        using_little_endian: true,
        header: None,
    };
    assert_eq!(
        parser.parse(),
        Err(ParseError::InvalidMask {
            invalid_set_bytes: 0x1234567
        })
    );
}

#[test]
fn batch_halves_equal_the_whole() {
    // Decoding a batch in independent parts and reassembling them in
    // address order equals the sequential decode of the whole batch.
    let words = vec![
        0xE0821003u32,
        0xEB000005,
        0xE12FFF1E,
        0xEF000011,
        0xE5921004,
        0xE8B20003,
    ];
    let (front, back) = words.split_at(3);
    let decode_all = |ws: &[u32]| {
        Parser {
            iter_arm_9: ws.to_vec(),
            rest: vec![],
            using_little_endian: true,
            header: None,
        }
        .parse()
        .unwrap()
    };
    let mut reassembled = decode_all(front);
    reassembled.extend(decode_all(back));
    assert_eq!(reassembled, decode_all(&words));
}

#[test]
fn parse_error_wraps_into_disasembler_error() {
    let e = ParseError::InvalidMask {
        invalid_set_bytes: 4,
    };
    assert_eq!(DisasemblerError::from(e), DisasemblerError::Parse(e));
}
