use chunk_codec::chunk::Chunk;
use chunk_codec::chunk_type::ChunkType;
use chunk_codec::error::CodecError;
use std::convert::TryFrom;
use std::str::FromStr;

fn testing_chunk() -> Chunk {
    let data_length: u32 = 42;
    let chunk_type = "RuSt".as_bytes();
    let message_bytes = "This is where your secret message will be!".as_bytes();
    let crc: u32 = 2882656334;

    let chunk_data: Vec<u8> = data_length
        .to_be_bytes()
        .iter()
        .chain(chunk_type.iter())
        .chain(message_bytes.iter())
        .chain(crc.to_be_bytes().iter())
        .copied()
        .collect();
    Chunk::try_from(chunk_data.as_ref()).unwrap()
}

fn record(length: u32, chunk_type: &[u8], payload: &[u8], crc: u32) -> Vec<u8> {
    length
        .to_be_bytes()
        .iter()
        .chain(chunk_type.iter())
        .chain(payload.iter())
        .chain(crc.to_be_bytes().iter())
        .copied()
        .collect()
}

const MESSAGE: &str = "This is where your secret message will be!";

#[test]
fn test_new_chunk() {
    let chunk_type = ChunkType::from_str("RuSt").unwrap();
    let data = "This is where your secret message will be!"
        .as_bytes()
        .to_vec();
    let chunk = Chunk::new(chunk_type, data);
    assert_eq!(chunk.length(), 42);
    assert_eq!(chunk.crc(), 2882656334);
}

#[test]
fn test_chunk_length() {
    let chunk = testing_chunk();
    assert_eq!(chunk.length(), 42);
}

#[test]
fn test_chunk_type() {
    let chunk = testing_chunk();
    assert_eq!(chunk.chunk_type().to_string(), String::from("RuSt"));
}

#[test]
fn test_chunk_string() {
    let chunk = testing_chunk();
    let chunk_string = chunk.data_as_string().unwrap();
    let expected_chunk_string = String::from("This is where your secret message will be!");
    assert_eq!(chunk_string, expected_chunk_string);
}

#[test]
fn test_chunk_crc() {
    let chunk = testing_chunk();
    assert_eq!(chunk.crc(), 2882656334);
}

#[test]
fn test_valid_chunk_from_bytes() {
    let data_length: u32 = 42;
    let chunk_type = "RuSt".as_bytes();
    let message_bytes = "This is where your secret message will be!".as_bytes();
    let crc: u32 = 2882656334;

    let chunk_data: Vec<u8> = data_length
        .to_be_bytes()
        .iter()
        .chain(chunk_type.iter())
        .chain(message_bytes.iter())
        .chain(crc.to_be_bytes().iter())
        .copied()
        .collect();

    let chunk = Chunk::try_from(chunk_data.as_ref()).unwrap();

    let chunk_string = chunk.data_as_string().unwrap();
    let expected_chunk_string = String::from("This is where your secret message will be!");

    assert_eq!(chunk.length(), 42);
    assert_eq!(chunk.chunk_type().to_string(), String::from("RuSt"));
    assert_eq!(chunk_string, expected_chunk_string);
    assert_eq!(chunk.crc(), 2882656334);
}

#[test]
fn test_invalid_chunk_from_bytes() {
    let data_length: u32 = 42;
    let chunk_type = "RuSt".as_bytes();
    let message_bytes = "This is where your secret message will be!".as_bytes();
    let crc: u32 = 2882656333;

    let chunk_data: Vec<u8> = data_length
        .to_be_bytes()
        .iter()
        .chain(chunk_type.iter())
        .chain(message_bytes.iter())
        .chain(crc.to_be_bytes().iter())
        .copied()
        .collect();

    let chunk = Chunk::try_from(chunk_data.as_ref());

    assert!(chunk.is_err());
}

#[test]
pub fn test_chunk_trait_impls() {
    let data_length: u32 = 42;
    let chunk_type = "RuSt".as_bytes();
    let message_bytes = "This is where your secret message will be!".as_bytes();
    let crc: u32 = 2882656334;

    let chunk_data: Vec<u8> = data_length
        .to_be_bytes()
        .iter()
        .chain(chunk_type.iter())
        .chain(message_bytes.iter())
        .chain(crc.to_be_bytes().iter())
        .copied()
        .collect();

    let chunk: Chunk = TryFrom::try_from(chunk_data.as_ref()).unwrap();

    let _chunk_string = format!("{}", chunk.to_string());
}

#[test]
fn the_fixed_part_has_twelve_bytes() {
    assert_eq!(Chunk::METADATA_BYTES, 12);
    let chunk = testing_chunk();
    assert_eq!(
        chunk.as_bytes().len(),
        Chunk::METADATA_BYTES + chunk.data().len()
    );
}

#[test]
fn serializing_lays_the_fields_out_in_order() {
    let chunk = Chunk::new(
        ChunkType::from_str("RuSt").unwrap(),
        MESSAGE.as_bytes().to_vec(),
    );
    let bytes = chunk.as_bytes();
    assert_eq!(bytes.len(), 54);
    assert_eq!(&bytes[0..4], &[0, 0, 0, 42]);
    assert_eq!(&bytes[4..8], &[82, 117, 83, 116]);
    assert_eq!(&bytes[8..50], MESSAGE.as_bytes());
    assert_eq!(&bytes[50..54], &2882656334u32.to_be_bytes());
    assert_eq!(bytes, record(42, b"RuSt", MESSAGE.as_bytes(), 2882656334));
}

#[test]
fn serialize_then_parse_gives_the_chunk_back() {
    let chunk = Chunk::new(
        ChunkType::from_str("RuSt").unwrap(),
        MESSAGE.as_bytes().to_vec(),
    );
    let parsed = Chunk::try_from(chunk.as_bytes().as_slice()).unwrap();
    assert_eq!(parsed.length(), 42);
    assert_eq!(parsed.crc(), 2882656334);
    assert_eq!(parsed.chunk_type(), chunk.chunk_type());
    assert_eq!(parsed.data(), chunk.data());
    assert_eq!(parsed.as_bytes(), chunk.as_bytes());
}

#[test]
fn round_trip_of_many_chunks() {
    let payloads: Vec<Vec<u8>> = vec![
        vec![],
        vec![0],
        vec![0xff; 3],
        (0u8..=255).collect(),
        (0..5000u32).map(|i| (i * 7 + 3) as u8).collect(),
    ];
    for code in ["RuSt", "IHDR", "IEND", "tEXt", "zzZz", "AAAA"] {
        for payload in &payloads {
            let chunk = Chunk::new(ChunkType::from_str(code).unwrap(), payload.clone());
            let bytes = chunk.as_bytes();
            assert_eq!(bytes.len(), 12 + payload.len());
            let parsed = Chunk::try_from(bytes.as_slice()).unwrap();
            assert_eq!(parsed.chunk_type().bytes(), chunk.chunk_type().bytes());
            assert_eq!(parsed.data(), payload.as_slice());
            assert_eq!(parsed.length() as usize, payload.len());
            assert_eq!(parsed.crc(), chunk.crc());
        }
    }
}

#[test]
fn a_type_code_with_the_reserved_bit_set_does_not_come_back() {
    let chunk = Chunk::new(ChunkType::from_str("Rust").unwrap(), vec![1, 2, 3]);
    let bytes = chunk.as_bytes();
    assert_eq!(
        Chunk::try_from(bytes.as_slice()).unwrap_err(),
        CodecError::InvalidTypeCode
    );
}

#[test]
fn checksum_is_taken_over_type_code_then_payload() {
    let chunk = Chunk::new(
        ChunkType::from_str("RuSt").unwrap(),
        MESSAGE.as_bytes().to_vec(),
    );
    let mut protected = b"RuSt".to_vec();
    protected.extend_from_slice(MESSAGE.as_bytes());
    assert_eq!(chunk.crc(), crc::crc32::checksum_ieee(&protected));
    // Neither the payload alone nor the payload before the type code.
    assert_ne!(chunk.crc(), crc::crc32::checksum_ieee(MESSAGE.as_bytes()));
    let mut swapped = MESSAGE.as_bytes().to_vec();
    swapped.extend_from_slice(b"RuSt");
    assert_ne!(chunk.crc(), crc::crc32::checksum_ieee(&swapped));
}

#[test]
fn checksum_of_known_inputs() {
    let empty = Chunk::new(ChunkType::from_str("IEND").unwrap(), vec![]);
    assert_eq!(empty.crc(), 0xae42_6082);
    assert_eq!(empty.as_bytes(), vec![0, 0, 0, 0, 73, 69, 78, 68, 0xae, 0x42, 0x60, 0x82]);
    let twice = empty.crc();
    assert_eq!(twice, empty.crc());
}

#[test]
fn altered_checksum_is_reported_with_both_values() {
    let bytes = record(42, b"RuSt", MESSAGE.as_bytes(), 2882656333);
    assert_eq!(
        Chunk::try_from(bytes.as_slice()).unwrap_err(),
        CodecError::ChecksumMismatch(2882656333, 2882656334)
    );
    let bytes = record(42, b"RuSt", MESSAGE.as_bytes(), 2882656335);
    assert_eq!(
        Chunk::try_from(bytes.as_slice()).unwrap_err(),
        CodecError::ChecksumMismatch(2882656335, 2882656334)
    );
}

#[test]
fn every_single_bit_flip_in_the_payload_is_reported() {
    let good = record(42, b"RuSt", MESSAGE.as_bytes(), 2882656334);
    for at in 8..50 {
        for bit in 0..8 {
            let mut bytes = good.clone();
            bytes[at] ^= 1 << bit;
            match Chunk::try_from(bytes.as_slice()) {
                Err(CodecError::ChecksumMismatch(provided, computed)) => {
                    assert_eq!(provided, 2882656334);
                    assert_eq!(computed, crc::crc32::checksum_ieee(&bytes[4..50]));
                    assert_ne!(computed, provided);
                }
                other => panic!("byte {} bit {}: {:?}", at, bit, other.map(|c| c.as_bytes())),
            }
        }
    }
}

#[test]
fn a_bit_flip_in_the_type_code_is_reported_one_way_or_the_other() {
    let good = record(42, b"RuSt", MESSAGE.as_bytes(), 2882656334);
    for at in 4..8 {
        for bit in 0..8 {
            let mut bytes = good.clone();
            bytes[at] ^= 1 << bit;
            let mut raw = [0u8; 4];
            raw.copy_from_slice(&bytes[4..8]);
            let still_valid = ChunkType::try_from(raw).is_ok();
            match Chunk::try_from(bytes.as_slice()) {
                Err(CodecError::ChecksumMismatch(provided, computed)) => {
                    assert!(still_valid);
                    assert_eq!(provided, 2882656334);
                    assert_eq!(computed, crc::crc32::checksum_ieee(&bytes[4..50]));
                }
                Err(CodecError::InvalidTypeCode) => assert!(!still_valid),
                other => panic!("byte {} bit {}: {:?}", at, bit, other.map(|c| c.as_bytes())),
            }
        }
    }
    // The case bit of the third byte is the reserved bit: the code is refused.
    let mut bytes = good.clone();
    bytes[6] ^= 0x20;
    assert_eq!(
        Chunk::try_from(bytes.as_slice()).unwrap_err(),
        CodecError::InvalidTypeCode
    );
    // The case bit of the first byte leaves a valid code: the checksum speaks.
    let mut bytes = good;
    bytes[4] ^= 0x20;
    assert!(matches!(
        Chunk::try_from(bytes.as_slice()),
        Err(CodecError::ChecksumMismatch(2882656334, _))
    ));
}

#[test]
fn too_few_bytes_for_any_field_is_truncated_input() {
    let good = record(42, b"RuSt", MESSAGE.as_bytes(), 2882656334);
    for cut in 0..good.len() {
        assert_eq!(
            Chunk::try_from(&good[..cut]).unwrap_err(),
            CodecError::TruncatedInput,
            "{} bytes",
            cut
        );
    }
    assert!(Chunk::try_from(&good[..]).is_ok());
}

#[test]
fn a_declared_length_past_the_end_is_reported_before_the_checksum() {
    // 43 declared, 42 and a checksum present: the last payload byte would be
    // the first of the checksum, and three bytes are left for the checksum.
    let bytes = record(43, b"RuSt", MESSAGE.as_bytes(), 2882656334);
    assert_eq!(
        Chunk::try_from(bytes.as_slice()).unwrap_err(),
        CodecError::TruncatedInput
    );
    // Far more declared than present, with a checksum field that matches nothing.
    let bytes = record(u32::MAX, b"RuSt", MESSAGE.as_bytes(), 0);
    assert_eq!(
        Chunk::try_from(bytes.as_slice()).unwrap_err(),
        CodecError::TruncatedInput
    );
    assert_eq!(
        Chunk::unframe(bytes.as_slice()).unwrap_err(),
        CodecError::TruncatedInput
    );
    let bytes = record(47, b"RuSt", MESSAGE.as_bytes(), 0);
    assert_eq!(
        Chunk::try_from(bytes.as_slice()).unwrap_err(),
        CodecError::TruncatedInput
    );
}

#[test]
fn the_type_code_is_judged_before_the_payload_is_read() {
    let bytes = record(u32::MAX, b"Ru1t", b"", 0);
    assert_eq!(
        Chunk::try_from(bytes.as_slice()).unwrap_err(),
        CodecError::InvalidTypeCode
    );
    let bytes = record(42, b"Rust", MESSAGE.as_bytes(), 2882656334);
    assert_eq!(
        Chunk::try_from(bytes.as_slice()).unwrap_err(),
        CodecError::InvalidTypeCode
    );
    // With fewer than eight bytes there is no type code to judge.
    assert_eq!(
        Chunk::try_from(&[0u8, 0, 0, 0, b'R', b'u', b'1'][..]).unwrap_err(),
        CodecError::TruncatedInput
    );
}

#[test]
fn a_shorter_declared_length_frames_another_chunk() {
    // 41 declared: the payload loses its last byte, which becomes the first
    // byte of the checksum field.
    let bytes = record(41, b"RuSt", MESSAGE.as_bytes(), 2882656334);
    let (chunk, provided) = Chunk::unframe(bytes.as_slice()).unwrap();
    assert_eq!(chunk.data(), &MESSAGE.as_bytes()[..41]);
    assert_eq!(provided, u32::from_be_bytes([b'!', 0xab, 0xd1, 0xd8]));
    assert_eq!(
        Chunk::try_from(bytes.as_slice()).unwrap_err(),
        CodecError::ChecksumMismatch(provided, chunk.crc())
    );
}

#[test]
fn bytes_behind_the_record_are_not_looked_at() {
    let mut bytes = record(42, b"RuSt", MESSAGE.as_bytes(), 2882656334);
    bytes.extend_from_slice(&[0xde, 0xad, 0xbe, 0xef, 1, 2, 3]);
    let chunk = Chunk::try_from(bytes.as_slice()).unwrap();
    assert_eq!(chunk.length(), 42);
    assert_eq!(chunk.data(), MESSAGE.as_bytes());
    assert_eq!(chunk.as_bytes(), &bytes[..54]);
}

#[test]
fn an_empty_payload_is_a_record_of_twelve_bytes() {
    let bytes = record(0, b"IEND", b"", 0xae42_6082);
    assert_eq!(bytes.len(), 12);
    let chunk = Chunk::try_from(bytes.as_slice()).unwrap();
    assert_eq!(chunk.length(), 0);
    assert_eq!(chunk.data(), b"");
    assert_eq!(chunk.data_as_string().unwrap(), "");
    assert_eq!(chunk.as_bytes(), bytes);
}

#[test]
fn frame_writes_the_checksum_it_is_given() {
    let chunk = Chunk::new(ChunkType::from_str("RuSt").unwrap(), vec![7]);
    assert_eq!(
        chunk.frame(0x0102_0304),
        vec![0, 0, 0, 1, 82, 117, 83, 116, 7, 1, 2, 3, 4]
    );
    assert_eq!(
        chunk.frame(0),
        vec![0, 0, 0, 1, 82, 117, 83, 116, 7, 0, 0, 0, 0]
    );
    let long = Chunk::new(ChunkType::from_str("RuSt").unwrap(), vec![9; 0x0001_0203]);
    let bytes = long.frame(0xffff_fffe);
    assert_eq!(&bytes[..4], &[0, 1, 2, 3]);
    assert_eq!(&bytes[bytes.len() - 4..], &[0xff, 0xff, 0xff, 0xfe]);
    assert_eq!(bytes.len(), 12 + 0x0001_0203);
}

#[test]
fn unframe_reads_the_fields_and_judges_no_checksum() {
    let bytes = vec![0, 0, 0, 1, 82, 117, 83, 116, 7, 1, 2, 3, 4];
    let (chunk, provided) = Chunk::unframe(&bytes).unwrap();
    assert_eq!(provided, 0x0102_0304);
    assert_eq!(chunk.chunk_type().bytes(), [82, 117, 83, 116]);
    assert_eq!(chunk.data(), &[7]);
    assert_eq!(chunk.length(), 1);

    let bytes = record(0x0001_0203, b"bLOb", &vec![5; 0x0001_0203], 0x8000_0001);
    let (chunk, provided) = Chunk::unframe(&bytes).unwrap();
    assert_eq!(provided, 0x8000_0001);
    assert_eq!(chunk.length(), 0x0001_0203);
}

#[test]
fn check_crc_compares_the_two_checksums() {
    let chunk = Chunk::new(ChunkType::from_str("RuSt").unwrap(), vec![7]);
    let kept = chunk.check_crc(5, 5).unwrap();
    assert_eq!(kept.data(), &[7]);
    assert_eq!(kept.chunk_type().bytes(), *b"RuSt");
    assert_eq!(
        kept.check_crc(5, 6).unwrap_err(),
        CodecError::ChecksumMismatch(5, 6)
    );
    let chunk = Chunk::new(ChunkType::from_str("RuSt").unwrap(), vec![7]);
    assert_eq!(
        chunk.check_crc(6, 5).unwrap_err(),
        CodecError::ChecksumMismatch(6, 5)
    );
}

#[test]
fn payload_that_is_no_utf8_is_invalid_text() {
    for payload in [
        vec![0xff],
        vec![0xc3],
        vec![b'a', 0x80],
        vec![0xed, 0xa0, 0x80],
        vec![0xc0, 0x80],
        vec![0xf4, 0x90, 0x80, 0x80],
    ] {
        let chunk = Chunk::new(ChunkType::from_str("RuSt").unwrap(), payload.clone());
        assert_eq!(
            chunk.data_as_string(),
            Err(CodecError::InvalidText),
            "{:?}",
            payload
        );
        assert_eq!(chunk.to_string(), "Chunk Type : RuSt\nData : [data]");
        // The payload is still there as bytes.
        assert_eq!(chunk.data(), payload.as_slice());
    }
}

#[test]
fn payload_that_is_utf8_is_decoded() {
    let text = "gr\u{fc}\u{df}e \u{2603} \u{1f980}";
    let chunk = Chunk::new(ChunkType::from_str("tEXt").unwrap(), text.as_bytes().to_vec());
    assert_eq!(chunk.data_as_string().unwrap(), text);
    assert_eq!(
        chunk.to_string(),
        format!("Chunk Type : tEXt\nData : {}", text)
    );
}

#[test]
fn rendering_names_type_and_text() {
    let chunk = testing_chunk();
    assert_eq!(
        chunk.to_string(),
        "Chunk Type : RuSt\nData : This is where your secret message will be!"
    );
}
