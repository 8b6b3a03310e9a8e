use iota_sdk::types::block::address::{Address, Bech32Address, Ed25519Address, Hrp};
use tangle_kit::address_file::{
    can_encode, decode_address, encode_address, prefix_is_encodable, try_encode_address,
    AddressFileError, ADDRESS_FILE_NAME,
};

fn address(hrp: &str, bytes: [u8; 32]) -> Bech32Address {
    Bech32Address::new(Hrp::from_str_unchecked(hrp), Address::Ed25519(Ed25519Address::new(bytes)))
}

fn sequential() -> [u8; 32] {
    let mut bytes = [0u8; 32];
    for (i, b) in bytes.iter_mut().enumerate() {
        *b = i as u8;
    }
    bytes
}

#[test]
fn address_file_has_its_name() {
    assert_eq!(ADDRESS_FILE_NAME, "address.json");
}

#[test]
fn address_is_written_as_a_json_string() {
    assert_eq!(
        encode_address(&address("rms", [0u8; 32])).unwrap(),
        "\"rms1qqqqqqqqqqqqqqqqqqqqqqqqqqqqqqqqqqqqqqqqqqqqqqqqqqqqqsqz45n\""
    );
    assert_eq!(
        encode_address(&address("rms", sequential())).unwrap(),
        "\"rms1qqqqzqsrqszsvpcgpy9qkrqdpc83qygjzv2p29shrqv35xcur50p73t73md\""
    );
    assert_eq!(
        encode_address(&address("smr", [0xab; 32])).unwrap(),
        "\"smr1qz46h2at4w46h2at4w46h2at4w46h2at4w46h2at4w46h2at4w46kzqvufe\""
    );
}

#[test]
fn address_is_read_from_a_json_string() {
    assert_eq!(
        decode_address("\"rms1qqqqzqsrqszsvpcgpy9qkrqdpc83qygjzv2p29shrqv35xcur50p73t73md\"").unwrap(),
        address("rms", sequential())
    );
    assert_eq!(
        decode_address("  \"smr1qz46h2at4w46h2at4w46h2at4w46h2at4w46h2at4w46h2at4w46kzqvufe\"\n").unwrap(),
        address("smr", [0xab; 32])
    );
}

#[test]
fn written_address_is_read_back() {
    for (hrp, bytes) in [("rms", [0u8; 32]), ("smr", [255u8; 32]), ("iota", sequential())] {
        let written = address(hrp, bytes);
        let json = encode_address(&written).unwrap();
        assert_eq!(decode_address(&json).unwrap(), written);
    }
}

#[test]
fn text_that_is_no_address_is_refused() {
    for json in [
        "",
        "rms1qqqqqqqqqqqqqqqqqqqqqqqqqqqqqqqqqqqqqqqqqqqqqqqqqqqqqsqz45n",
        "\"rms1qqqqqqqqqqqqqqqqqqqqqqqqqqqqqqqqqqqqqqqqqqqqqqqqqqqqqsqz45m\"",
        "\"\"",
        "42",
        "{\"address\": \"rms1qqqqqqqqqqqqqqqqqqqqqqqqqqqqqqqqqqqqqqqqqqqqqqqqqqqqqsqz45n\"}",
    ] {
        match decode_address(json) {
            Err(AddressFileError::Json { source }) => assert!(!source.to_string().is_empty()),
            Ok(_) => panic!("{json} was read as an address"),
        }
    }
}

fn with_prefix(hrp: &str) -> Bech32Address {
    Bech32Address::try_new(hrp, Address::Ed25519(Ed25519Address::new([3u8; 32]))).unwrap()
}

#[test]
fn prefix_of_letters_digits_and_signs_can_be_encoded() {
    for prefix in ["a", "rms", "RMS", "smr", "iota", "a1", "1", "!~", "A-9", "tb"] {
        assert!(prefix_is_encodable(prefix.as_bytes()), "{prefix}");
        assert!(can_encode(&with_prefix(prefix)), "{prefix}");
    }
    assert!(prefix_is_encodable(&[b'x'; 83]));
}

#[test]
fn empty_and_long_prefixes_cannot_be_encoded() {
    assert!(!prefix_is_encodable(b""));
    assert!(!prefix_is_encodable(&[b'x'; 84]));
    assert!(!can_encode(&with_prefix("")));
}

#[test]
fn prefix_with_a_space_or_a_control_character_cannot_be_encoded() {
    for prefix in ["a b", " ", "ab\n", "\u{7f}", "r\u{1f}"] {
        assert!(!prefix_is_encodable(prefix.as_bytes()), "{prefix:?}");
        assert!(!can_encode(&with_prefix(prefix)), "{prefix:?}");
    }
    assert!(!prefix_is_encodable(&[b'a', 128]));
    assert!(!prefix_is_encodable(&[255]));
    assert!(!prefix_is_encodable(&[32]));
    assert!(prefix_is_encodable(&[33]));
    assert!(prefix_is_encodable(&[126]));
    assert!(!prefix_is_encodable(&[127]));
}

#[test]
fn prefix_of_mixed_case_cannot_be_encoded() {
    for prefix in ["aB", "Ab", "rmS", "a1B", "Z9z"] {
        assert!(!prefix_is_encodable(prefix.as_bytes()), "{prefix}");
        assert!(!can_encode(&with_prefix(prefix)), "{prefix}");
    }
    assert!(prefix_is_encodable(b"a1@`{"));
    assert!(prefix_is_encodable(b"A1@[`"));
}

#[test]
fn address_that_cannot_be_encoded_is_not_written() {
    for prefix in ["", "a b", "aB"] {
        assert!(try_encode_address(&with_prefix(prefix)).is_none(), "{prefix:?}");
    }
}

#[test]
fn address_that_can_be_encoded_is_written() {
    let written = try_encode_address(&address("rms", [0u8; 32])).unwrap().unwrap();
    assert_eq!(written, "\"rms1qqqqqqqqqqqqqqqqqqqqqqqqqqqqqqqqqqqqqqqqqqqqqqqqqqqqqsqz45n\"");
    assert_eq!(written, encode_address(&address("rms", [0u8; 32])).unwrap());
    let upper = try_encode_address(&with_prefix("RMS")).unwrap().unwrap();
    assert_eq!(decode_address(&upper).unwrap(), with_prefix("rms"));
}

#[test]
fn what_can_be_encoded_is_written_by_the_sdk() {
    for prefix in ["rms", "RMS", "x", "a-b", "!", "~", "a1@`{", "A1@[`", "0123456789"] {
        let address = with_prefix(prefix);
        assert!(can_encode(&address), "{prefix:?}");
        let text = address.to_string();
        assert!(text.to_lowercase().starts_with(&prefix.to_lowercase()), "{prefix:?}");
        let json = encode_address(&address).unwrap();
        assert_eq!(json, format!("\"{text}\""));
    }
}

#[test]
fn two_reads_of_one_text_give_one_address() {
    let json = "\"rms1qqqqzqsrqszsvpcgpy9qkrqdpc83qygjzv2p29shrqv35xcur50p73t73md\"";
    assert_eq!(decode_address(json).unwrap(), decode_address(json).unwrap());
}
