use dex2smali::dex::string::{
    decode_mutf8, decode_mutf8_units, decode_utf16, encode_mutf8, encode_string_data,
    read_string_data, read_string_from_bytes,
};
use dex2smali::errors::DexParseError;

#[test]
fn decode_mutf8_ascii() {
    assert_eq!(decode_mutf8(b"hello"), "hello");
    assert_eq!(decode_mutf8(b""), "");
}

#[test]
fn decode_mutf8_two_byte_zero() {
    assert_eq!(decode_mutf8(&[0x61, 0xC0, 0x80, 0x62]), "a\u{0}b");
    assert_eq!(decode_mutf8_units(&[0xC0, 0x80]), vec![0u16]);
}

#[test]
fn decode_mutf8_two_and_three_bytes() {
    assert_eq!(decode_mutf8(&[0xC3, 0xA9]), "\u{E9}");
    assert_eq!(decode_mutf8(&[0xE2, 0x82, 0xAC]), "\u{20AC}");
    assert_eq!(decode_mutf8_units(&[0xE2, 0x82, 0xAC]), vec![0x20ACu16]);
}

#[test]
fn decode_mutf8_surrogate_pair() {
    let bytes = [0xED, 0xA0, 0xBD, 0xED, 0xB8, 0x80];
    assert_eq!(decode_mutf8_units(&bytes), vec![0xD83Du16, 0xDE00u16]);
    assert_eq!(decode_mutf8(&bytes), "\u{1F600}");
}

#[test]
fn decode_mutf8_replaces_what_encodes_nothing() {
    assert_eq!(decode_mutf8(&[0xFF]), "\u{FFFD}");
    assert_eq!(decode_mutf8(&[0x80, 0x41]), "\u{FFFD}A");
    assert_eq!(decode_mutf8(&[0xC3]), "\u{FFFD}");
    assert_eq!(decode_mutf8(&[0xE2, 0x82]), "\u{FFFD}\u{FFFD}");
    assert_eq!(decode_mutf8(&[0xED, 0xA0, 0xBD]), "\u{FFFD}");
    assert_eq!(decode_mutf8(&[0xED, 0xB8, 0x80, 0x41]), "\u{FFFD}A");
}

#[test]
fn decode_utf16_pairs_and_halves() {
    assert_eq!(decode_utf16(&vec![0x41, 0xD83D, 0xDE00, 0x42]), "A\u{1F600}B");
    assert_eq!(decode_utf16(&vec![0xD83D, 0x41]), "\u{FFFD}A");
    assert_eq!(decode_utf16(&vec![0xDE00]), "\u{FFFD}");
    assert_eq!(decode_utf16(&vec![0xD7FF, 0xE000, 0xFFFF]), "\u{D7FF}\u{E000}\u{FFFF}");
}

#[test]
fn encode_mutf8_exact_bytes() {
    assert_eq!(encode_mutf8("A"), vec![0x41]);
    assert_eq!(encode_mutf8("\u{0}"), vec![0xC0, 0x80]);
    assert_eq!(encode_mutf8("\u{7F}"), vec![0x7F]);
    assert_eq!(encode_mutf8("\u{80}"), vec![0xC2, 0x80]);
    assert_eq!(encode_mutf8("\u{7FF}"), vec![0xDF, 0xBF]);
    assert_eq!(encode_mutf8("\u{800}"), vec![0xE0, 0xA0, 0x80]);
    assert_eq!(encode_mutf8("\u{20AC}"), vec![0xE2, 0x82, 0xAC]);
    assert_eq!(
        encode_mutf8("\u{1F600}"),
        vec![0xED, 0xA0, 0xBD, 0xED, 0xB8, 0x80]
    );
    assert_eq!(
        encode_mutf8("\u{10FFFF}"),
        vec![0xED, 0xAF, 0xBF, 0xED, 0xBF, 0xBF]
    );
}

#[test]
fn mutf8_decode_undoes_encode() {
    let samples = [
        "",
        "plain",
        "Ljava/lang/String;",
        "nul\u{0}inside",
        "caf\u{E9} \u{20AC}",
        "\u{1F600}\u{10000}\u{10FFFF}",
        "\u{D7FF}\u{E000}\u{FFFD}\u{FFFF}",
        "mixed \u{0}\u{7F}\u{80}\u{7FF}\u{800}\u{1F4A9} end",
    ];
    for s in samples {
        let bytes = encode_mutf8(s);
        assert!(bytes.iter().all(|b| *b != 0));
        assert_eq!(decode_mutf8(&bytes), s);
        assert_eq!(decode_mutf8_units(&bytes).len(), s.encode_utf16().count());
    }
}

fn string_item(declared: u8, text: &str) -> Vec<u8> {
    let mut item = vec![declared];
    item.extend_from_slice(&encode_mutf8(text));
    item.push(0);
    item
}

#[test]
fn read_string_from_bytes_reads_up_to_the_zero_byte() {
    let mut buffer = vec![0xAA, 0xBB];
    buffer.extend_from_slice(&string_item(2, "hi"));
    buffer.extend_from_slice(b"rest");
    assert_eq!(read_string_from_bytes(&buffer, 2), Ok(String::from("hi")));
}

#[test]
fn read_string_data_reports_both_lengths() {
    let buffer = string_item(3, "a\u{1F600}");
    let data = read_string_data(&buffer, 0).unwrap();
    assert_eq!(data.text, "a\u{1F600}");
    assert_eq!(data.utf16_size, 3);
    assert_eq!(data.units, 3);
    assert!(data.has_declared_size());

    let wrong = string_item(7, "abc");
    let data = read_string_data(&wrong, 0).unwrap();
    assert_eq!(data.text, "abc");
    assert_eq!(data.utf16_size, 7);
    assert_eq!(data.units, 3);
    assert!(!data.has_declared_size());
}

#[test]
fn read_string_from_bytes_empty_text() {
    assert_eq!(read_string_from_bytes(&[0x00, 0x00], 0), Ok(String::new()));
}

#[test]
fn read_string_from_bytes_without_terminator() {
    assert_eq!(
        read_string_from_bytes(&[0x02, 0x68, 0x69], 0),
        Err(DexParseError::MissingTerminator {
            field: "string_data"
        })
    );
    assert_eq!(
        read_string_from_bytes(&[0x00], 0),
        Err(DexParseError::MissingTerminator {
            field: "string_data"
        })
    );
}

#[test]
fn read_string_from_bytes_without_length() {
    assert_eq!(
        read_string_from_bytes(&[0x80, 0x80, 0x80, 0x80, 0x80, 0x00], 0),
        Err(DexParseError::MalformedLeb128 {
            field: "utf16_size"
        })
    );
    assert_eq!(
        read_string_from_bytes(&[0x01, 0x41, 0x00], 3),
        Err(DexParseError::MalformedLeb128 {
            field: "utf16_size"
        })
    );
    assert_eq!(
        read_string_from_bytes(&[0x01, 0x41, 0x00], 100),
        Err(DexParseError::MalformedLeb128 {
            field: "utf16_size"
        })
    );
}

#[test]
fn encode_string_data_exact_bytes() {
    assert_eq!(encode_string_data(""), vec![0x00, 0x00]);
    assert_eq!(encode_string_data("hi"), vec![0x02, 0x68, 0x69, 0x00]);
    assert_eq!(
        encode_string_data("a\u{1F600}\u{0}"),
        vec![0x04, 0x61, 0xED, 0xA0, 0xBD, 0xED, 0xB8, 0x80, 0xC0, 0x80, 0x00]
    );
    let long = "x".repeat(200);
    let bytes = encode_string_data(&long);
    assert_eq!(&bytes[..2], &[0xC8, 0x01]);
    assert_eq!(bytes.len(), 203);
}

#[test]
fn string_data_read_undoes_encode() {
    let samples = [
        "",
        "plain",
        "nul\u{0}inside",
        "\u{1F600}\u{10000}\u{10FFFF}",
        "mixed \u{0}\u{7F}\u{80}\u{7FF}\u{800}\u{1F4A9} end",
    ];
    for s in samples {
        let mut buffer = vec![0x11, 0x22, 0x33];
        buffer.extend_from_slice(&encode_string_data(s));
        buffer.extend_from_slice(&[0x44, 0x00, 0x55]);
        let data = read_string_data(&buffer, 3).unwrap();
        assert_eq!(data.text, s);
        assert_eq!(data.utf16_size as usize, s.encode_utf16().count());
        assert_eq!(data.units, s.encode_utf16().count());
        assert!(data.has_declared_size());
    }
}
