use aes_gcm::aead::{AeadInPlace, NewAead};
use aes_gcm::{Aes128Gcm, Key, Nonce};
use meter2car::apdu::{Body, DecodeError, Field, Record};
use meter2car::decoder::{decode, record_from};
use meter2car::envelope::{open, Opened};
use meter2car::session::read_sample;
use meter2car::Error;

const KEY: [u8; 16] = [
    0xde, 0xaf, 0xbe, 0xef, 0xca, 0xfe, 0xba, 0xbe, 0xde, 0xaf, 0xbe, 0xef, 0xca, 0xfe, 0xba, 0xbe,
];

const CIPHERED: [u8; 354] = [
    0xdb, 0x08, 0x4b, 0x46, 0x4d, 0x10, 0x20, 0x01, 0x12, 0xa9, 0x82, 0x01, 0x55, 0x21, 0x00, 0x02,
    0xbc, 0x66, 0xf4, 0x50, 0xb5, 0x97, 0xb1, 0x1f, 0x09, 0x45, 0x0a, 0x68, 0x03, 0x63, 0xe7, 0x18,
    0x41, 0xc4, 0x09, 0x82, 0x9a, 0xab, 0xe0, 0x8b, 0x44, 0x3f, 0x6c, 0x9a, 0x70, 0x73, 0xbc, 0xc4,
    0x5c, 0xdb, 0x8b, 0x57, 0x48, 0x85, 0x11, 0x80, 0x42, 0x0c, 0x79, 0xd9, 0x0e, 0x26, 0xf1, 0x26,
    0x15, 0xbe, 0xed, 0x5f, 0xea, 0x7d, 0xc8, 0x54, 0x26, 0xaf, 0x38, 0x9c, 0x8c, 0x92, 0x02, 0x9f,
    0xf3, 0x64, 0x63, 0xf7, 0xbf, 0x1b, 0x9e, 0x56, 0xa3, 0x88, 0x75, 0x69, 0xf6, 0x1a, 0x5a, 0x86,
    0x23, 0x9a, 0xd6, 0x2f, 0xda, 0x85, 0x48, 0xb3, 0xf6, 0x22, 0x61, 0x25, 0x3f, 0xe5, 0xcd, 0x0e,
    0x06, 0xb7, 0x14, 0xad, 0x5c, 0x26, 0x85, 0xc8, 0x45, 0x57, 0x70, 0x8d, 0x57, 0xde, 0xba, 0x10,
    0xca, 0xc0, 0x8d, 0xeb, 0xba, 0xcc, 0xc5, 0x66, 0x2b, 0x45, 0x50, 0x14, 0xbc, 0x8b, 0x44, 0x17,
    0x48, 0x1d, 0x2b, 0x9a, 0xf1, 0x66, 0x22, 0x07, 0x1f, 0xbe, 0xef, 0x5e, 0xce, 0xaf, 0x1e, 0x39,
    0xf7, 0x99, 0x6c, 0xa9, 0x98, 0x27, 0x68, 0x31, 0xe6, 0x84, 0xe0, 0x70, 0x44, 0x57, 0xd4, 0xcd,
    0x64, 0x96, 0xca, 0xd4, 0xdb, 0xd9, 0x03, 0x35, 0x98, 0x11, 0x13, 0x5e, 0x7e, 0x70, 0xb4, 0x06,
    0x30, 0x4c, 0x8e, 0x7e, 0xce, 0x20, 0x90, 0xcd, 0x74, 0x3a, 0x08, 0x2d, 0xa6, 0x2e, 0xd6, 0x20,
    0x83, 0xb3, 0xd3, 0xf1, 0x21, 0xf9, 0x97, 0x2d, 0xd6, 0x48, 0x78, 0x86, 0xf6, 0xaf, 0x2c, 0x5c,
    0x76, 0x39, 0x81, 0xa2, 0xe1, 0xa1, 0x28, 0x3c, 0x52, 0x12, 0xa8, 0x15, 0x77, 0x84, 0x7d, 0x40,
    0xf7, 0x64, 0xba, 0x93, 0x6d, 0x26, 0xc6, 0x33, 0xec, 0x73, 0xb0, 0x1b, 0xc7, 0x1a, 0xfd, 0x6d,
    0x4c, 0x10, 0xbb, 0xcb, 0xea, 0x96, 0x86, 0xf0, 0x3d, 0x40, 0x84, 0x99, 0xee, 0x7f, 0x16, 0x35,
    0x69, 0xea, 0x7d, 0xb6, 0xf5, 0x23, 0xea, 0xbd, 0xfe, 0x5d, 0x31, 0xb5, 0xb2, 0x34, 0xf3, 0x09,
    0xc5, 0x71, 0xbc, 0xec, 0x4f, 0x3f, 0xae, 0x4c, 0xe9, 0xab, 0xce, 0x92, 0x62, 0x4a, 0x37, 0xeb,
    0x62, 0x0d, 0x2c, 0x2a, 0xdd, 0xf6, 0x0c, 0xd5, 0xaa, 0x65, 0xd1, 0xe2, 0xe4, 0x5c, 0xe2, 0x13,
    0x4f, 0x0e, 0x4c, 0x2f, 0x70, 0xe1, 0x9d, 0x93, 0x6f, 0x84, 0x5c, 0x6f, 0x36, 0x91, 0xb3, 0x26,
    0x00, 0x5d, 0x43, 0x9c, 0xe6, 0x46, 0x27, 0x53, 0x92, 0xf6, 0x0b, 0x3b, 0x69, 0x90, 0x3f, 0x82,
    0x84, 0x78,
];

const DECIPHERED: [u8; 336] = [
    0x0f, 0x00, 0x02, 0xb5, 0xe4, 0x0c, 0x07, 0xe5, 0x09, 0x0b, 0x06, 0x09, 0x0d, 0x14, 0x00, 0xff,
    0x88, 0x80, 0x02, 0x10, 0x09, 0x06, 0x00, 0x00, 0x01, 0x00, 0x00, 0xff, 0x09, 0x0c, 0x07, 0xe5,
    0x09, 0x0b, 0x06, 0x09, 0x0d, 0x14, 0x00, 0xff, 0x88, 0x80, 0x02, 0x02, 0x09, 0x06, 0x00, 0x00,
    0x60, 0x01, 0x00, 0xff, 0x09, 0x0e, 0x31, 0x4b, 0x46, 0x4d, 0x30, 0x32, 0x30, 0x30, 0x30, 0x37,
    0x30, 0x33, 0x31, 0x33, 0x02, 0x02, 0x09, 0x06, 0x00, 0x00, 0x2a, 0x00, 0x00, 0xff, 0x09, 0x10,
    0x4b, 0x46, 0x4d, 0x31, 0x32, 0x30, 0x30, 0x32, 0x30, 0x30, 0x30, 0x37, 0x30, 0x33, 0x31, 0x33,
    0x02, 0x03, 0x09, 0x06, 0x01, 0x00, 0x20, 0x07, 0x00, 0xff, 0x12, 0x09, 0x20, 0x02, 0x02, 0x0f,
    0xff, 0x16, 0x23, 0x02, 0x03, 0x09, 0x06, 0x01, 0x00, 0x34, 0x07, 0x00, 0xff, 0x12, 0x09, 0x04,
    0x02, 0x02, 0x0f, 0xff, 0x16, 0x23, 0x02, 0x03, 0x09, 0x06, 0x01, 0x00, 0x48, 0x07, 0x00, 0xff,
    0x12, 0x09, 0x0d, 0x02, 0x02, 0x0f, 0xff, 0x16, 0x23, 0x02, 0x03, 0x09, 0x06, 0x01, 0x00, 0x1f,
    0x07, 0x00, 0xff, 0x12, 0x01, 0x6d, 0x02, 0x02, 0x0f, 0xfe, 0x16, 0x21, 0x02, 0x03, 0x09, 0x06,
    0x01, 0x00, 0x33, 0x07, 0x00, 0xff, 0x12, 0x03, 0x0e, 0x02, 0x02, 0x0f, 0xfe, 0x16, 0x21, 0x02,
    0x03, 0x09, 0x06, 0x01, 0x00, 0x47, 0x07, 0x00, 0xff, 0x12, 0x02, 0x62, 0x02, 0x02, 0x0f, 0xfe,
    0x16, 0x21, 0x02, 0x03, 0x09, 0x06, 0x01, 0x00, 0x01, 0x07, 0x00, 0xff, 0x06, 0x00, 0x00, 0x0f,
    0x5e, 0x02, 0x02, 0x0f, 0x00, 0x16, 0x1b, 0x02, 0x03, 0x09, 0x06, 0x01, 0x00, 0x02, 0x07, 0x00,
    0xff, 0x06, 0x00, 0x00, 0x00, 0x00, 0x02, 0x02, 0x0f, 0x00, 0x16, 0x1b, 0x02, 0x03, 0x09, 0x06,
    0x01, 0x00, 0x01, 0x08, 0x00, 0xff, 0x06, 0x00, 0x51, 0x00, 0x15, 0x02, 0x02, 0x0f, 0x00, 0x16,
    0x1e, 0x02, 0x03, 0x09, 0x06, 0x01, 0x00, 0x02, 0x08, 0x00, 0xff, 0x06, 0x00, 0x00, 0x00, 0x00,
    0x02, 0x02, 0x0f, 0x00, 0x16, 0x1e, 0x02, 0x03, 0x09, 0x06, 0x01, 0x00, 0x03, 0x08, 0x00, 0xff,
    0x06, 0x00, 0x00, 0x34, 0x65, 0x02, 0x02, 0x0f, 0x00, 0x16, 0x20, 0x02, 0x03, 0x09, 0x06, 0x01,
    0x00, 0x04, 0x08, 0x00, 0xff, 0x06, 0x00, 0x08, 0xa3, 0xbc, 0x02, 0x02, 0x0f, 0x00, 0x16, 0x20,
];

const TITLE: [u8; 8] = [0x4b, 0x46, 0x4d, 0x10, 0x20, 0x01, 0x12, 0xa9];

fn notification(body: &[u8]) -> Vec<u8> {
    let mut plain = vec![0x0f, 0x00, 0x00, 0x00, 0x01, 0x0c];
    plain.extend_from_slice(&[0x07, 0xe5, 0x09, 0x0b, 0x06, 0x09, 0x0d, 0x14, 0x00, 0xff, 0x88, 0x80]);
    plain.extend_from_slice(body);
    plain
}

fn reading_body() -> Vec<u8> {
    let mut body = vec![0x02, 0x0a];
    body.extend_from_slice(&[0x09, 0x02, 0xaa, 0xbb]);
    body.extend_from_slice(&[0x06, 0x00, 0x00, 0x00, 0x01]);
    body.extend_from_slice(&[0x06, 0x00, 0x00, 0x00, 0x02]);
    body.extend_from_slice(&[0x02, 0x02, 0x06, 0x00, 0x00, 0x27, 0x10, 0x00]);
    body.extend_from_slice(&[0x06, 0x00, 0x00, 0x00, 0x03]);
    body.extend_from_slice(&[0x06, 0x00, 0x00, 0x00, 0x04]);
    body.extend_from_slice(&[0x12, 0x01, 0x02]);
    body.extend_from_slice(&[0x06, 0x00, 0x00, 0x00, 0x64]);
    body.extend_from_slice(&[0x00]);
    body.extend_from_slice(&[0x06, 0x00, 0x00, 0x01, 0x5e]);
    body
}

fn seal(plain: &[u8], key: &[u8; 16], counter: u32) -> Vec<u8> {
    let mut nonce = [0u8; 12];
    nonce[..8].copy_from_slice(&TITLE);
    nonce[8..].copy_from_slice(&counter.to_be_bytes());
    let mut content = plain.to_vec();
    let cipher = Aes128Gcm::new(Key::from_slice(key));
    cipher
        .encrypt_in_place_detached(Nonce::from_slice(&nonce), &[], &mut content)
        .unwrap();
    let mut envelope = vec![0xdb, 0x08];
    envelope.extend_from_slice(&TITLE);
    envelope.push((content.len() + 5) as u8);
    envelope.push(0x20);
    envelope.extend_from_slice(&counter.to_be_bytes());
    envelope.extend_from_slice(&content);
    envelope
}

#[test]
fn open_deciphers_a_known_message() {
    match open(&CIPHERED, &KEY) {
        Opened::Plain { rest, bytes } => {
            assert_eq!(rest, 0);
            assert_eq!(bytes, DECIPHERED.to_vec());
        }
        other => panic!("{:?}", other),
    }
}

#[test]
fn open_with_another_key_gives_other_bytes() {
    let mut key = KEY;
    key[0] ^= 1;
    match open(&CIPHERED, &key) {
        Opened::Plain { rest, bytes } => {
            assert_eq!(rest, 0);
            assert_eq!(bytes.len(), DECIPHERED.len());
            assert_ne!(bytes, DECIPHERED.to_vec());
        }
        other => panic!("{:?}", other),
    }
}

#[test]
fn open_refuses_what_is_no_envelope() {
    assert!(matches!(open(&[], &KEY), Opened::Incomplete { hint: Some(1) }));
    assert!(matches!(open(&[0x0f, 0x00], &KEY), Opened::Malformed));
    assert!(matches!(open(&[0xdb, 0x07], &KEY), Opened::Malformed));
    let mut short = vec![0xdb, 0x08];
    short.extend_from_slice(&TITLE);
    short.push(0x04);
    short.extend_from_slice(&[0x20, 0, 0, 0, 1]);
    assert!(matches!(open(&short, &KEY), Opened::Malformed));
    let mut long_form = vec![0xdb, 0x08];
    long_form.extend_from_slice(&TITLE);
    long_form.extend_from_slice(&[0x82, 0x00, 0x03, 0x20, 0, 0, 0, 1]);
    assert!(matches!(open(&long_form, &KEY), Opened::Malformed));
}

#[test]
fn open_reports_an_envelope_that_breaks_off() {
    assert!(matches!(open(&CIPHERED[..1], &KEY), Opened::Incomplete { .. }));
    assert!(matches!(open(&CIPHERED[..6], &KEY), Opened::Incomplete { .. }));
    assert!(matches!(open(&CIPHERED[..200], &KEY), Opened::Incomplete { .. }));
}

#[test]
fn open_counts_the_bytes_behind_the_envelope() {
    let mut bytes = CIPHERED.to_vec();
    bytes.extend_from_slice(&[1, 2, 3]);
    match open(&bytes, &KEY) {
        Opened::Plain { rest, bytes } => {
            assert_eq!(rest, 3);
            assert_eq!(bytes, DECIPHERED.to_vec());
        }
        other => panic!("{:?}", other),
    }
}

#[test]
fn decode_known_message_gives_its_structure() {
    match decode(&CIPHERED, &KEY) {
        Ok(Record::DataNotification(Body::Structure(fields))) => {
            assert_eq!(fields, vec![Field::Other; 16]);
        }
        other => panic!("{:?}", other),
    }
}

#[test]
fn decode_sealed_reading() {
    let envelope = seal(&notification(&reading_body()), &KEY, 7);
    match decode(&envelope, &KEY) {
        Ok(Record::DataNotification(Body::Structure(fields))) => {
            assert_eq!(
                fields,
                vec![
                    Field::Other,
                    Field::Magnitude(1),
                    Field::Magnitude(2),
                    Field::Other,
                    Field::Magnitude(3),
                    Field::Magnitude(4),
                    Field::Other,
                    Field::Magnitude(100),
                    Field::Other,
                    Field::Magnitude(350),
                ]
            );
        }
        other => panic!("{:?}", other),
    }
}

#[test]
fn decode_refuses_bytes_behind_the_envelope() {
    let mut envelope = seal(&notification(&reading_body()), &KEY, 7);
    envelope.push(0);
    assert!(matches!(decode(&envelope, &KEY), Err(DecodeError::InvalidFormat)));
}

#[test]
fn decode_refuses_plain_notification() {
    let plain = notification(&reading_body());
    assert!(matches!(decode(&plain, &KEY), Err(DecodeError::InvalidFormat)));
}

#[test]
fn decode_with_wrong_key_gives_no_sample() {
    let envelope = seal(&notification(&reading_body()), &KEY, 7);
    let mut key = KEY;
    key[15] ^= 0x80;
    assert_ne!(read_sample(&envelope, &key), Ok(250));
}

#[test]
fn record_from_each_outcome() {
    let plain = notification(&reading_body());
    assert!(matches!(
        record_from(Opened::Plain { rest: 0, bytes: plain.clone() }),
        Ok(Record::DataNotification(Body::Structure(_)))
    ));
    assert!(matches!(
        record_from(Opened::Plain { rest: 1, bytes: plain }),
        Err(DecodeError::InvalidFormat)
    ));
    assert!(matches!(
        record_from(Opened::Incomplete { hint: Some(9) }),
        Err(DecodeError::Incomplete { missing: 9 })
    ));
    assert!(matches!(
        record_from(Opened::Incomplete { hint: None }),
        Err(DecodeError::InvalidFormat)
    ));
    assert!(matches!(
        record_from(Opened::DecryptionFailed),
        Err(DecodeError::DecryptionFailed)
    ));
    assert!(matches!(record_from(Opened::Malformed), Err(DecodeError::InvalidFormat)));
}

#[test]
fn read_sample_of_sealed_reading() {
    let envelope = seal(&notification(&reading_body()), &KEY, 1);
    assert_eq!(read_sample(&envelope, &KEY), Ok(250));
}

#[test]
fn read_sample_reports_each_failure() {
    assert_eq!(
        read_sample(&[], &KEY),
        Err(Error::Decode(DecodeError::Incomplete { missing: 1 }))
    );
    assert_eq!(read_sample(&[0x01], &KEY), Err(Error::Decode(DecodeError::InvalidFormat)));
    assert_eq!(read_sample(&CIPHERED, &KEY), Err(Error::InsufficientFields));
    let scalar = seal(&notification(&[0x06, 0, 0, 0, 1]), &KEY, 2);
    assert_eq!(read_sample(&scalar, &KEY), Err(Error::InvalidApduFormat));
    let nested = seal(&[0xdb, 0x08], &KEY, 3);
    assert_eq!(read_sample(&nested, &KEY), Err(Error::InvalidApduFormat));
}
