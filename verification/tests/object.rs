use libvmr::object::{ObjectFile, ObjectParseErr, StringParseError};

fn sample() -> ObjectFile {
    let mut o = ObjectFile::new("prog".to_string());
    o.exports.push(("START".to_string(), 0)).unwrap();
    o.external_relocations.push(("lib".to_string(), 5)).unwrap();
    o.internal_relocations.push(2).unwrap();
    o.bytecode.extend_from_slice(&[0xB0, 0x00, 0x04, 0x00]).unwrap();
    o
}

fn sample_bytes() -> Vec<u8> {
    let mut b = b"vmro".to_vec();
    b.extend_from_slice(&[0x00, 0x01, 0x00, 0x05]);
    b.extend_from_slice(b"START");
    b.extend_from_slice(&[0x00, 0x00]);
    b.extend_from_slice(&[0x00, 0x01, 0x00, 0x03]);
    b.extend_from_slice(b"lib");
    b.extend_from_slice(&[0x00, 0x05]);
    b.extend_from_slice(&[0x00, 0x01, 0x00, 0x02]);
    b.extend_from_slice(&[0xB0, 0x00, 0x04, 0x00]);
    b
}

#[test]
fn a_new_object_is_empty() {
    let o = ObjectFile::new("x".to_string());
    assert_eq!(o.name, "x");
    assert!(o.exports.is_empty());
    assert!(o.external_relocations.is_empty());
    assert!(o.internal_relocations.is_empty());
    assert!(o.bytecode.is_empty());
    assert_eq!(o.base_address, 0);
    assert_eq!(o.to_binary(), b"vmro\x00\x00\x00\x00\x00\x00".to_vec());
}

#[test]
fn encoding_follows_the_file_format() {
    assert_eq!(sample().to_binary(), sample_bytes());
}

#[test]
fn local_labels_are_not_encoded() {
    let mut o = sample();
    o.labels.insert(vec!['l', 'o', 'o', 'p'], 3);
    assert_eq!(o.to_binary(), sample_bytes());
}

#[test]
fn decoding_gives_back_what_was_encoded() {
    let o = ObjectFile::from_binary(&sample().to_binary(), "copy", 7).unwrap();
    assert_eq!(o.name, "copy");
    assert_eq!(o.base_address, 7);
    assert_eq!(o.exports.as_slice(), &[("START".to_string(), 0)]);
    assert_eq!(o.external_relocations.as_slice(), &[("lib".to_string(), 5)]);
    assert_eq!(o.internal_relocations.as_slice(), &[2]);
    assert_eq!(o.bytecode.as_slice(), &[0xB0, 0x00, 0x04, 0x00]);
    assert_eq!(o.labels.get(&['l', 'o', 'o', 'p'], 0, 4), None);
}

#[test]
fn decoding_accepts_utf8_names() {
    let mut o = ObjectFile::new("u".to_string());
    o.exports.push(("größe".to_string(), 1)).unwrap();
    let bin = o.to_binary();
    assert_eq!(&bin[4..8], &[0x00, 0x01, 0x00, 0x07]);
    let back = ObjectFile::from_binary(&bin, "u", 0).unwrap();
    assert_eq!(back.exports.as_slice(), &[("größe".to_string(), 1)]);
}

#[test]
fn wrong_magic_is_refused() {
    assert_eq!(ObjectFile::from_binary(b"vmrx\x00\x00\x00\x00\x00\x00", "a", 0).err(), Some(ObjectParseErr::InvalidMagic));
    assert_eq!(ObjectFile::from_binary(b"vm", "a", 0).err(), Some(ObjectParseErr::InvalidMagic));
    assert_eq!(ObjectFile::from_binary(b"", "a", 0).err(), Some(ObjectParseErr::InvalidMagic));
}

#[test]
fn missing_counts_and_offsets_are_unexpected_eof() {
    assert_eq!(ObjectFile::from_binary(b"vmro", "a", 0).err(), Some(ObjectParseErr::UnexpectedEof));
    assert_eq!(ObjectFile::from_binary(b"vmro\x00\x01\x00\x01A", "a", 0).err(), Some(ObjectParseErr::UnexpectedEof));
    assert_eq!(ObjectFile::from_binary(b"vmro\x00\x00\x00\x00", "a", 0).err(), Some(ObjectParseErr::UnexpectedEof));
    assert_eq!(ObjectFile::from_binary(b"vmro\x00\x00\x00\x00\x00\x01\x00", "a", 0).err(), Some(ObjectParseErr::UnexpectedEof));
}

#[test]
fn bad_strings_are_string_parse_errors() {
    assert_eq!(ObjectFile::from_binary(b"vmro\x00\x01\x00\x01\xFF\x00\x00\x00\x00\x00\x00", "a", 0).err(), Some(ObjectParseErr::StringParseError));
    assert_eq!(ObjectFile::from_binary(b"vmro\x00\x01\x00\x05AB", "a", 0).err(), Some(ObjectParseErr::StringParseError));
    assert_eq!(ObjectFile::from_binary(b"vmro\x00\x00\x00\x01\x00\x02\xC3", "a", 0).err(), Some(ObjectParseErr::StringParseError));
}

#[test]
fn a_cut_length_prefix_is_unexpected_eof() {
    assert_eq!(ObjectFile::from_binary(b"vmro\x00\x01\x00", "a", 0).err(), Some(ObjectParseErr::UnexpectedEof));
    assert_eq!(ObjectFile::from_binary(b"vmro\x00\x01", "a", 0).err(), Some(ObjectParseErr::UnexpectedEof));
    assert_eq!(ObjectFile::from_binary(b"vmro\x00\x00\x00\x01\x41", "a", 0).err(), Some(ObjectParseErr::UnexpectedEof));
    assert!(ObjectFile::from_binary(&sample_bytes(), "a", 0).is_ok());
}

#[test]
fn oversized_bytecode_is_refused() {
    let mut b = b"vmro\x00\x00\x00\x00\x00\x00".to_vec();
    b.extend(std::iter::repeat(0u8).take(65534));
    assert_eq!(ObjectFile::from_binary(&b, "a", 0).unwrap().bytecode.len(), 65534);
    b.push(0);
    assert_eq!(ObjectFile::from_binary(&b, "a", 0).err(), Some(ObjectParseErr::BytecodeTooLarge));
}

#[test]
fn oversized_tables_are_refused() {
    let mut exports = b"vmro\xFF\xFF".to_vec();
    exports.extend(std::iter::repeat(0u8).take(4 * 0xFFFF));
    assert_eq!(ObjectFile::from_binary(&exports, "a", 0).err(), Some(ObjectParseErr::ExportsOverflow));

    let mut external = b"vmro\x00\x00\xFF\xFF".to_vec();
    external.extend(std::iter::repeat(0u8).take(4 * 0xFFFF));
    assert_eq!(ObjectFile::from_binary(&external, "a", 0).err(), Some(ObjectParseErr::ExternalRelocationsOverflow));

    let mut internal = b"vmro\x00\x00\x00\x00\xFF\xFF".to_vec();
    internal.extend(std::iter::repeat(0u8).take(2 * 0xFFFF));
    assert_eq!(ObjectFile::from_binary(&internal, "a", 0).err(), Some(ObjectParseErr::InternalRelocationsOverflow));

    let mut full = b"vmro\x00\x00\x00\x00\xFF\xFE".to_vec();
    full.extend(std::iter::repeat(0u8).take(2 * 0xFFFE));
    assert_eq!(ObjectFile::from_binary(&full, "a", 0).unwrap().internal_relocations.len(), 0xFFFE);
}

#[test]
fn a_decoded_object_encodes_back_to_the_same_bytes() {
    let bytes = sample_bytes();
    let o = ObjectFile::from_binary(&bytes, "again", 9).unwrap();
    assert_eq!(o.to_binary(), bytes);
}

#[test]
fn the_encoding_length_follows_the_tables() {
    let o = sample();
    let expected = 10 + (4 + "START".len()) + (4 + "lib".len()) + 2 * 1 + 4;
    assert_eq!(o.to_binary().len(), expected);
    let mut other = sample();
    other.name = "elsewhere".to_string();
    other.base_address = 99;
    other.labels.insert(vec!['x'], 1);
    assert_eq!(other.to_binary(), o.to_binary());
}

#[test]
fn a_written_string_reads_back_with_its_length() {
    for text in ["", "main", "ünïcødé"] {
        let mut buf = vec![];
        ObjectFile::write_string(&mut buf, text);
        assert_eq!(&buf[..2], &(text.len() as u16).to_be_bytes());
        assert_eq!(&buf[2..], text.as_bytes());
        buf.extend_from_slice(&[0xFF, 0x00, 0x42]);
        let (s, n) = ObjectFile::read_string(&buf).unwrap();
        assert_eq!(s, text);
        assert_eq!(n, text.len() + 2);
    }
}

#[test]
fn a_short_or_invalid_string_is_refused() {
    assert!(matches!(
        ObjectFile::read_string(&[0x00, 0x03, b'a', b'b']),
        Err(StringParseError::BadData)
    ));
    assert!(matches!(
        ObjectFile::read_string(&[0x00, 0x02, 0xC3, 0x28]),
        Err(StringParseError::UTF8Error(_))
    ));
    assert_eq!(ObjectFile::read_string(&[0x00, 0x00]).unwrap(), (String::new(), 2));
}
