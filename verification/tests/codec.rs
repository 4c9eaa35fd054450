use ledger_gateway::codec::{
    decode_private_key, decode_public_key, encode, generate, Keypair, PublicKey,
};
use ledger_gateway::error::CodecError;

const SEED: [u8; 32] = [
    76, 205, 8, 155, 40, 255, 150, 218, 157, 182, 195, 70, 236, 17, 78, 15, 91, 138, 49, 159, 53,
    171, 166, 36, 218, 140, 246, 237, 79, 184, 166, 251,
];

const PUBLIC: [u8; 32] = [
    61, 64, 23, 195, 232, 67, 137, 90, 146, 183, 10, 167, 77, 27, 126, 188, 156, 152, 44, 207, 46,
    196, 150, 140, 192, 205, 85, 241, 42, 244, 102, 12,
];

const SECRET_TEXT: &str =
    "2Y4QjyJVZf9tTmTPP1SY9ACpFYTo7brW9iCQ8SunQht5yQ2r1U9KsVv5aMsCGnzj3NR8KG9P3NY7FKBiYbbTJ2no";

const PUBLIC_TEXT: &str = "586Z7H2vpX9qNhN2T4e9Utugie3ogjbxzGaMtM3E6HR5";

fn pair_bytes() -> Vec<u8> {
    let mut bytes = SEED.to_vec();
    bytes.extend_from_slice(&PUBLIC);
    bytes
}

fn counting_key(first: u8) -> [u8; 32] {
    let mut key = [0u8; 32];
    for (i, byte) in key.iter_mut().enumerate() {
        *byte = first.wrapping_add(i as u8);
    }
    key
}

#[test]
fn encode_writes_the_documented_text() {
    assert_eq!(encode(&[0x04, 0x30, 0x5e, 0x2b, 0x24, 0x73, 0xf0, 0x58]), "he11owor1d");
    assert_eq!(encode(&[]), "");
    assert_eq!(encode(&[0, 0, 1]), "112");
}

#[test]
fn public_key_round_trips_through_text() {
    let keys = [
        [0u8; 32],
        [0xffu8; 32],
        counting_key(1),
        counting_key(101),
        counting_key(250),
        PUBLIC,
    ];
    for bytes in keys {
        let text = encode(&bytes);
        assert_eq!(decode_public_key(&text), Ok(PublicKey::from_bytes(bytes)));
        assert_eq!(PublicKey::from_bytes(bytes).to_base58(), text);
    }
}

#[test]
fn public_key_text_is_the_known_one() {
    assert_eq!(PublicKey::from_bytes(PUBLIC).to_base58(), PUBLIC_TEXT);
    assert_eq!(PublicKey::from_bytes([0u8; 32]).to_base58(), "11111111111111111111111111111111");
    assert_eq!(
        PublicKey::from_bytes(counting_key(1)).to_base58(),
        "4wBqpZM9xaSheZzJSMawUKKwhdpChKbZ5eu5ky4Vigw"
    );
    assert_eq!(
        PublicKey::from_bytes([0xffu8; 32]).to_base58(),
        "JEKNVnkbo3jma5nREBBJCDoXFVeKkD56V3xKrvRmWxFG"
    );
}

#[test]
fn decode_public_key_reads_known_addresses() {
    let token = decode_public_key("TokenkegQfeZyiNwAJbNbGKPFXCWuBvf9Ss623VQ5DA").unwrap();
    assert_eq!(
        token.to_bytes(),
        [
            6, 221, 246, 225, 215, 101, 161, 147, 217, 203, 225, 70, 206, 235, 121, 172, 28, 180,
            133, 237, 95, 91, 55, 145, 58, 140, 245, 133, 126, 255, 0, 169
        ]
    );
    let key = decode_public_key(PUBLIC_TEXT).unwrap();
    assert_eq!(key.to_bytes(), PUBLIC);
    assert_eq!(key.bytes, PUBLIC);
}

#[test]
fn decode_public_key_turns_down_text_that_is_not_base58() {
    assert_eq!(decode_public_key("not-base58!!"), Err(CodecError::InvalidEncoding));
    for letter in ["0", "O", "I", "l"] {
        let text = PUBLIC_TEXT.replacen('5', letter, 1);
        assert_eq!(decode_public_key(&text), Err(CodecError::InvalidEncoding));
    }
    let text = PUBLIC_TEXT.replacen('5', "\u{e9}", 1);
    assert_eq!(decode_public_key(&text), Err(CodecError::InvalidEncoding));
    assert_eq!(
        decode_public_key("586Z7H2vpX9qNhN2T4e9Utugie3ogjbxzGaMtM3E6HR0"),
        Err(CodecError::InvalidEncoding)
    );
}

#[test]
fn decode_public_key_turns_down_other_lengths() {
    assert_eq!(decode_public_key(""), Err(CodecError::InvalidEncoding));
    assert_eq!(decode_public_key("he11owor1d"), Err(CodecError::InvalidEncoding));
    assert_eq!(decode_public_key(&encode(&[7u8; 31])), Err(CodecError::InvalidEncoding));
    assert_eq!(decode_public_key(&encode(&[7u8; 33])), Err(CodecError::InvalidEncoding));
    assert_eq!(decode_public_key(SECRET_TEXT), Err(CodecError::InvalidEncoding));
    assert_eq!(decode_public_key(&"1".repeat(31)), Err(CodecError::InvalidEncoding));
    assert_eq!(decode_public_key(&"1".repeat(33)), Err(CodecError::InvalidEncoding));
    assert_eq!(decode_public_key(&"1".repeat(45)), Err(CodecError::InvalidEncoding));
    assert_eq!(decode_public_key(&"z".repeat(44)), Err(CodecError::InvalidEncoding));
}

#[test]
fn decode_private_key_reads_a_valid_pair() {
    let pair = decode_private_key(SECRET_TEXT).unwrap();
    assert_eq!(pair.to_bytes().to_vec(), pair_bytes());
    assert_eq!(pair.public_key(), PublicKey::from_bytes(PUBLIC));
    assert_eq!(pair.to_base58(), SECRET_TEXT);
}

#[test]
fn decode_private_key_turns_down_text_that_is_not_base58() {
    assert_eq!(decode_private_key("not-base58!!").err(), Some(CodecError::InvalidEncoding));
}

#[test]
fn decode_private_key_turns_down_other_lengths() {
    assert_eq!(decode_private_key(PUBLIC_TEXT).err(), Some(CodecError::InvalidLength));
    assert_eq!(decode_private_key("").err(), Some(CodecError::InvalidLength));
    assert_eq!(decode_private_key(&encode(&[1u8; 63])).err(), Some(CodecError::InvalidLength));
    assert_eq!(decode_private_key(&encode(&[1u8; 65])).err(), Some(CodecError::InvalidLength));
}

#[test]
fn decode_private_key_turns_down_a_public_half_that_does_not_fit() {
    let text = "2Y4QjyJVZf9tTmTPP1SY9ACpFYTo7brW9iCQ8SunQht69mb4wiCVCw7F5NbXrDVanHERav6FNY6q6m4VPoi1dtUH";
    assert_eq!(decode_private_key(text).err(), Some(CodecError::InvalidKeyMaterial));
    let mut bytes = pair_bytes();
    bytes[63] ^= 1;
    assert_eq!(decode_private_key(&encode(&bytes)).err(), Some(CodecError::InvalidKeyMaterial));
}

#[test]
fn keypair_from_bytes_checks_length_before_content() {
    assert_eq!(Keypair::from_bytes(&SEED).err(), Some(CodecError::InvalidLength));
    assert_eq!(Keypair::from_bytes(&[0u8; 64]).err(), Some(CodecError::InvalidKeyMaterial));
    let pair = Keypair::from_bytes(&pair_bytes()).unwrap();
    assert_eq!(pair.public_key().to_bytes(), PUBLIC);
}

#[test]
fn generated_pair_passes_its_own_check() {
    let pair = generate();
    let bytes = pair.to_bytes();
    let again = Keypair::from_bytes(&bytes).unwrap();
    assert_eq!(again.to_bytes(), bytes);
    assert_eq!(pair.public_key().to_bytes().to_vec(), bytes[32..].to_vec());
    let read = decode_private_key(&pair.to_base58()).unwrap();
    assert_eq!(read.to_bytes(), bytes);
}

#[test]
fn generated_pairs_differ() {
    assert_ne!(generate().to_bytes(), generate().to_bytes());
}
