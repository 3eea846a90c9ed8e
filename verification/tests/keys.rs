use bech32::ToBase32;
use nostr_keys::{
    EngineError, Error, FromPkStr, FromSkStr, KeyPair, Keys, Message, PublicKey, SecretKey,
    Signature, XOnlyPublicKey,
};
use secp256k1::rand::rngs::StdRng;
use secp256k1::rand::SeedableRng;

const ORDER: [u8; 32] = [
    0xff, 0xff, 0xff, 0xff, 0xff, 0xff, 0xff, 0xff, 0xff, 0xff, 0xff, 0xff, 0xff, 0xff, 0xff, 0xfe,
    0xba, 0xae, 0xdc, 0xe6, 0xaf, 0x48, 0xa0, 0x3b, 0xbf, 0xd2, 0x5e, 0x8c, 0xd0, 0x36, 0x41, 0x41,
];

const GENERATOR_X: [u8; 32] = [
    0x79, 0xbe, 0x66, 0x7e, 0xf9, 0xdc, 0xbb, 0xac, 0x55, 0xa0, 0x62, 0x95, 0xce, 0x87, 0x0b, 0x07,
    0x02, 0x9b, 0xfc, 0xdb, 0x2d, 0xce, 0x28, 0xd9, 0x59, 0xf2, 0x81, 0x5b, 0x16, 0xf8, 0x17, 0x98,
];

const SECRET_HEX: &str = "67dea2ed018072d675f5415ecfaed7d2597555e202d85b3d65ea4e58d2d92ffa";
const SECRET_BECH32: &str = "nsec1vl029mgpspedva04g90vltkh6fvh240zqtv9k0t9af8935ke9laqsnlfe5";
const PUBLIC_HEX: &str = "7e7e9c42a91bfef19fa929e5fda1b72e0ebc1a4c1141673e2794234d86addf4e";
const PUBLIC_BECH32: &str = "npub10elfcs4fr0l0r8af98jlmgdh9c8tcxjvz9qkw038js35mp4dma8qzvjptg";

fn one() -> [u8; 32] {
    let mut bytes = [0u8; 32];
    bytes[31] = 1;
    bytes
}

fn unhex(text: &str) -> Vec<u8> {
    let digits: Vec<u8> = text.bytes().map(|c| (c as char).to_digit(16).unwrap() as u8).collect();
    digits.chunks(2).map(|pair| pair[0] * 16 + pair[1]).collect()
}

fn hex(bytes: &[u8]) -> String {
    bytes.iter().map(|b| format!("{:02x}", b)).collect()
}

fn secret(bytes: &[u8]) -> SecretKey {
    SecretKey::from_slice(bytes).unwrap()
}

fn digest(byte: u8) -> Message {
    Message::from_slice(&[byte; 32]).unwrap()
}

fn outside_accepts(signature: &Signature, message: &Message, key: &XOnlyPublicKey) -> bool {
    let sig = secp256k1::schnorr::Signature::from_slice(&signature.serialize()).unwrap();
    let msg = secp256k1::Message::from_slice(&message.serialize()).unwrap();
    let pk = secp256k1::XOnlyPublicKey::from_slice(&key.serialize()).unwrap();
    secp256k1::SECP256K1.verify_schnorr(&sig, &msg, &pk).is_ok()
}

#[test]
fn secret_one_has_the_generator_as_public_key() {
    let keys = Keys::new(secret(&one()));
    assert_eq!(keys.public_key().serialize(), GENERATOR_X);
    let normalized = keys.normalized_public_key().unwrap().serialize();
    assert_eq!(normalized[0], 2);
    assert_eq!(&normalized[1..], &GENERATOR_X[..]);
}

#[test]
fn signature_of_secret_one_over_zero_digest_verifies() {
    let keys = Keys::new(secret(&one()));
    let message = digest(0);
    let signature = keys.sign_schnorr(&message).unwrap();
    assert!(outside_accepts(&signature, &message, &keys.public_key()));
    assert_eq!(signature.verify(&message, &keys.public_key()), Ok(()));
}

#[test]
fn public_key_is_x_only_form_of_derived_pair() {
    for seed in [1u8, 2, 3, 0x42, 0xcd] {
        let sk = secret(&[seed; 32]);
        let keys = Keys::new(sk);
        let outside = secp256k1::KeyPair::from_seckey_slice(secp256k1::SECP256K1, &[seed; 32])
            .unwrap();
        let (x_only, _) = outside.x_only_public_key();
        assert_eq!(keys.public_key().serialize(), x_only.serialize());
        assert_eq!(keys.key_pair().unwrap().x_only_public_key(), keys.public_key());
        assert_eq!(keys.key_pair().unwrap().secret_key(), sk);
    }
}

#[test]
fn normalized_public_key_differs_in_parity_byte_only() {
    let mut seen_even = false;
    let mut seen_odd = false;
    for seed in 1u8..=20 {
        let keys = Keys::new(secret(&[seed; 32]));
        let normalized = keys.normalized_public_key().unwrap();
        let bytes = normalized.serialize();
        assert!(bytes[0] == 2 || bytes[0] == 3);
        seen_even |= bytes[0] == 2;
        seen_odd |= bytes[0] == 3;
        assert_eq!(&bytes[1..], &keys.public_key().serialize()[..]);
        assert_eq!(normalized.x_only_public_key(), keys.public_key());
        assert_eq!(normalized, keys.key_pair().unwrap().public_key());
        let outside = secp256k1::SecretKey::from_slice(&[seed; 32]).unwrap();
        assert_eq!(bytes, outside.public_key(secp256k1::SECP256K1).serialize());
    }
    assert!(seen_even && seen_odd);
}

#[test]
fn secret_key_round_trips() {
    for seed in [1u8, 7, 0x80, 0xfe] {
        let sk = secret(&[seed; 32]);
        let keys = Keys::new(sk);
        assert_eq!(keys.secret_key(), Ok(sk));
        assert_eq!(keys.secret_key().unwrap().secret_bytes(), [seed; 32]);
    }
}

#[test]
fn public_only_keys_cannot_sign() {
    let public = XOnlyPublicKey::from_slice(&GENERATOR_X).unwrap();
    let keys = Keys::from_public_key(public);
    assert_eq!(keys.public_key(), public);
    assert_eq!(keys.public_key().serialize(), GENERATOR_X);
    assert_eq!(keys.secret_key(), Err(Error::SkMissing));
    assert_eq!(keys.normalized_public_key(), Err(Error::SkMissing));
    assert_eq!(keys.key_pair(), Err(Error::SkMissing));
    assert_eq!(keys.sign_schnorr(&digest(0)), Err(Error::SkMissing));
    assert_eq!(keys.sign_schnorr(&digest(9)), Err(Error::SkMissing));
}

#[test]
fn secret_scalar_range_is_enforced() {
    assert_eq!(SecretKey::from_slice(&[0u8; 32]), Err(Error::InvalidSecretKey));
    assert_eq!(SecretKey::from_slice(&ORDER), Err(Error::InvalidSecretKey));
    assert_eq!(SecretKey::from_slice(&[0xff; 32]), Err(Error::InvalidSecretKey));
    assert_eq!(SecretKey::from_slice(&[1u8; 31]), Err(Error::InvalidSecretKey));
    assert_eq!(SecretKey::from_slice(&[1u8; 33]), Err(Error::InvalidSecretKey));
    assert_eq!(SecretKey::from_slice(&[]), Err(Error::InvalidSecretKey));
    let mut below = ORDER;
    below[31] -= 1;
    assert_eq!(SecretKey::from_slice(&below).unwrap().secret_bytes(), below);
    assert_eq!(SecretKey::from_slice(&one()).unwrap().secret_bytes(), one());
}

#[test]
fn x_only_public_key_must_be_on_the_curve() {
    assert_eq!(XOnlyPublicKey::from_slice(&[0u8; 32]), Err(Error::InvalidPublicKey));
    assert_eq!(XOnlyPublicKey::from_slice(&[0xff; 32]), Err(Error::InvalidPublicKey));
    assert_eq!(XOnlyPublicKey::from_slice(&GENERATOR_X[..31]), Err(Error::InvalidPublicKey));
    assert_eq!(XOnlyPublicKey::from_slice(&[]), Err(Error::InvalidPublicKey));
    assert_eq!(XOnlyPublicKey::from_slice(&GENERATOR_X).unwrap().serialize(), GENERATOR_X);
}

#[test]
fn public_key_parses_both_serializations() {
    let compressed = Keys::new(secret(&one())).normalized_public_key().unwrap();
    assert_eq!(PublicKey::from_slice(&compressed.serialize()), Ok(compressed));
    let outside = secp256k1::PublicKey::from_slice(&compressed.serialize()).unwrap();
    let uncompressed = outside.serialize_uncompressed();
    assert_eq!(PublicKey::from_slice(&uncompressed), Ok(compressed));
    let mut hybrid = uncompressed;
    hybrid[0] = 6 + (uncompressed[64] & 1);
    assert_eq!(PublicKey::from_slice(&hybrid), Ok(compressed));
    hybrid[0] = 7 - (uncompressed[64] & 1);
    assert_eq!(PublicKey::from_slice(&hybrid), Err(Error::InvalidPublicKey));
    let mut off_curve = uncompressed;
    off_curve[64] ^= 1;
    assert_eq!(PublicKey::from_slice(&off_curve), Err(Error::InvalidPublicKey));
    let mut odd = compressed.serialize();
    odd[0] = 3;
    assert_eq!(PublicKey::from_slice(&odd).unwrap().serialize(), odd);
    odd[0] = 4;
    assert_eq!(PublicKey::from_slice(&odd), Err(Error::InvalidPublicKey));
    assert_eq!(PublicKey::from_slice(&[]), Err(Error::InvalidPublicKey));
    assert_eq!(PublicKey::from_slice(&[2u8; 5]), Err(Error::InvalidPublicKey));
    assert_eq!(PublicKey::from_slice(&[0u8; 33]), Err(Error::InvalidPublicKey));
}

#[test]
fn message_must_be_32_bytes() {
    assert_eq!(Message::from_slice(&[5u8; 32]).unwrap().serialize(), [5u8; 32]);
    assert_eq!(Message::from_slice(&[0u8; 32]).unwrap().serialize(), [0u8; 32]);
    assert_eq!(
        Message::from_slice(&[5u8; 31]),
        Err(Error::Secp256k1(EngineError::InvalidMessage))
    );
    assert_eq!(
        Message::from_slice(&[5u8; 33]),
        Err(Error::Secp256k1(EngineError::InvalidMessage))
    );
}

#[test]
fn hex_secret_text_round_trips() {
    for seed in [1u8, 0x0a, 0xab, 0xfe] {
        let bytes = [seed; 32];
        let keys = Keys::from_sk_str(&hex(&bytes)).unwrap();
        assert_eq!(keys.secret_key().unwrap().secret_bytes(), bytes);
        assert_eq!(keys, Keys::new(secret(&bytes)));
        let upper = Keys::from_sk_str(&hex(&bytes).to_uppercase()).unwrap();
        assert_eq!(upper, keys);
    }
    let keys = Keys::from_sk_str(SECRET_HEX).unwrap();
    assert_eq!(keys.secret_key().unwrap().secret_bytes().to_vec(), unhex(SECRET_HEX));
}

#[test]
fn bech32_secret_text_round_trips() {
    for seed in [1u8, 0x0a, 0xab, 0xfe] {
        let bytes = [seed; 32];
        let text = bech32::encode("nsec", bytes.to_base32(), bech32::Variant::Bech32).unwrap();
        let keys = Keys::from_sk_str(&text).unwrap();
        assert_eq!(keys.secret_key().unwrap().secret_bytes(), bytes);
        assert_eq!(keys, Keys::new(secret(&bytes)));
    }
    let keys = Keys::from_sk_str(SECRET_BECH32).unwrap();
    assert_eq!(keys.secret_key().unwrap().secret_bytes().to_vec(), unhex(SECRET_HEX));
    assert_eq!(keys, Keys::from_sk_str(SECRET_HEX).unwrap());
    assert_eq!(hex(&keys.public_key().serialize()), PUBLIC_HEX);
}

#[test]
fn text_that_is_no_secret_is_refused() {
    assert_eq!(Keys::from_sk_str("not-a-valid-string"), Err(Error::InvalidSecretKey));
    assert_eq!(Keys::from_sk_str(""), Err(Error::InvalidSecretKey));
    assert_eq!(Keys::from_sk_str(&SECRET_HEX[..63]), Err(Error::InvalidSecretKey));
    assert_eq!(Keys::from_sk_str(&SECRET_HEX[..62]), Err(Error::InvalidSecretKey));
    assert_eq!(Keys::from_sk_str(&format!("{}00", SECRET_HEX)), Err(Error::InvalidSecretKey));
    assert_eq!(Keys::from_sk_str(&format!("{}g", &SECRET_HEX[..63])), Err(Error::InvalidSecretKey));
    assert_eq!(Keys::from_sk_str(&hex(&[0u8; 32])), Err(Error::InvalidSecretKey));
    assert_eq!(Keys::from_sk_str(&hex(&ORDER)), Err(Error::InvalidSecretKey));
    // the right payload under the public prefix
    assert_eq!(Keys::from_sk_str(PUBLIC_BECH32), Err(Error::InvalidSecretKey));
    // a broken checksum
    let mut broken = String::from(SECRET_BECH32);
    broken.pop();
    broken.push('6');
    assert_eq!(Keys::from_sk_str(&broken), Err(Error::InvalidSecretKey));
    // the other checksum variant
    let other = bech32::encode("nsec", [7u8; 32].to_base32(), bech32::Variant::Bech32m).unwrap();
    assert_eq!(Keys::from_sk_str(&other), Err(Error::InvalidSecretKey));
    // a payload of the wrong length, and one out of range
    let short = bech32::encode("nsec", [7u8; 31].to_base32(), bech32::Variant::Bech32).unwrap();
    assert_eq!(Keys::from_sk_str(&short), Err(Error::InvalidSecretKey));
    let zero = bech32::encode("nsec", [0u8; 32].to_base32(), bech32::Variant::Bech32).unwrap();
    assert_eq!(Keys::from_sk_str(&zero), Err(Error::InvalidSecretKey));
}

#[test]
fn public_text_in_both_forms() {
    let from_hex = Keys::from_pk_str(PUBLIC_HEX).unwrap();
    assert_eq!(from_hex.public_key().serialize().to_vec(), unhex(PUBLIC_HEX));
    assert_eq!(from_hex.secret_key(), Err(Error::SkMissing));
    let from_bech32 = Keys::from_pk_str(PUBLIC_BECH32).unwrap();
    assert_eq!(from_bech32, from_hex);
    let text = bech32::encode("npub", GENERATOR_X.to_base32(), bech32::Variant::Bech32).unwrap();
    assert_eq!(Keys::from_pk_str(&text).unwrap().public_key().serialize(), GENERATOR_X);
    assert_eq!(
        Keys::from_pk_str(&hex(&GENERATOR_X).to_uppercase()).unwrap().public_key().serialize(),
        GENERATOR_X
    );
}

#[test]
fn text_that_is_no_public_key_is_refused() {
    assert_eq!(Keys::from_pk_str("not-a-valid-string"), Err(Error::InvalidPublicKey));
    assert_eq!(Keys::from_pk_str(""), Err(Error::InvalidPublicKey));
    assert_eq!(Keys::from_pk_str(&PUBLIC_HEX[..62]), Err(Error::InvalidPublicKey));
    assert_eq!(Keys::from_pk_str(&hex(&[0u8; 32])), Err(Error::InvalidPublicKey));
    assert_eq!(Keys::from_pk_str(SECRET_BECH32), Err(Error::InvalidPublicKey));
    let other = bech32::encode("npub", GENERATOR_X.to_base32(), bech32::Variant::Bech32m).unwrap();
    assert_eq!(Keys::from_pk_str(&other), Err(Error::InvalidPublicKey));
    let off = bech32::encode("npub", [0u8; 32].to_base32(), bech32::Variant::Bech32).unwrap();
    assert_eq!(Keys::from_pk_str(&off), Err(Error::InvalidPublicKey));
}

#[test]
fn key_text_parsers_report_their_own_error() {
    assert_eq!(SecretKey::from_hex(SECRET_HEX).unwrap().secret_bytes().to_vec(), unhex(SECRET_HEX));
    assert_eq!(SecretKey::from_hex(SECRET_BECH32), Err(Error::InvalidSecretKey));
    assert_eq!(
        SecretKey::from_bech32(SECRET_BECH32).unwrap().secret_bytes().to_vec(),
        unhex(SECRET_HEX)
    );
    assert_eq!(SecretKey::from_bech32(SECRET_HEX), Err(Error::InvalidSecretKey));
    assert_eq!(XOnlyPublicKey::from_hex(PUBLIC_HEX).unwrap().serialize().to_vec(), unhex(PUBLIC_HEX));
    assert_eq!(XOnlyPublicKey::from_hex(PUBLIC_BECH32), Err(Error::InvalidPublicKey));
    assert_eq!(
        XOnlyPublicKey::from_bech32(PUBLIC_BECH32).unwrap().serialize().to_vec(),
        unhex(PUBLIC_HEX)
    );
    assert_eq!(XOnlyPublicKey::from_bech32(PUBLIC_HEX), Err(Error::InvalidPublicKey));
}

fn draw(seed: u64) -> SecretKey {
    let mut source = StdRng::seed_from_u64(seed);
    let (drawn, _) = secp256k1::SECP256K1.generate_keypair(&mut source);
    secret(&drawn.secret_bytes())
}

#[test]
fn equal_seeds_give_equal_keys() {
    let a = Keys::new(draw(42));
    let b = Keys::new(draw(42));
    assert_eq!(a, b);
    assert_eq!(a.secret_key(), b.secret_key());
    assert_eq!(a.public_key(), b.public_key());
    let message = digest(0x11);
    let sa = a.sign_schnorr(&message).unwrap();
    let sb = b.sign_schnorr(&message).unwrap();
    assert!(outside_accepts(&sa, &message, &b.public_key()));
    assert!(outside_accepts(&sb, &message, &a.public_key()));
    let c = Keys::new(draw(43));
    assert_ne!(a.secret_key(), c.secret_key());
    assert_eq!(Keys::without_key_pair(draw(42)), Keys::without_key_pair(draw(42)));
}

#[test]
fn generated_keys_belong_together() {
    let random = Keys::generate();
    let sk = random.secret_key().unwrap();
    assert_eq!(random, Keys::new(sk));
    assert_eq!(random.key_pair(), Ok(KeyPair::from_secret_key(&sk)));
    let outside = secp256k1::SecretKey::from_slice(&sk.secret_bytes()).unwrap();
    let (x_only, _) = outside.x_only_public_key(secp256k1::SECP256K1);
    assert_eq!(random.public_key().serialize(), x_only.serialize());
    assert_ne!(random.secret_key(), Keys::generate().secret_key());
}

#[test]
fn keys_without_pair_derive_it_on_demand() {
    let sk = draw(7);
    let bare = Keys::without_key_pair(sk);
    let full = Keys::new(sk);
    assert_ne!(bare, full);
    assert_eq!(bare.secret_key(), Ok(sk));
    assert_eq!(bare.public_key(), full.public_key());
    assert_eq!(bare.key_pair(), full.key_pair());
    assert_eq!(bare.key_pair(), Ok(KeyPair::from_secret_key(&sk)));
    assert_eq!(bare.normalized_public_key(), full.normalized_public_key());
    let message = digest(3);
    let signature = bare.sign_schnorr(&message).unwrap();
    assert!(outside_accepts(&signature, &message, &full.public_key()));
}

#[test]
fn keys_without_pair_of_secret_one() {
    let bare = Keys::without_key_pair(secret(&one()));
    assert_eq!(bare.public_key().serialize(), GENERATOR_X);
    assert_eq!(bare.secret_key().unwrap().secret_bytes(), one());
    assert_eq!(bare.normalized_public_key().unwrap().serialize()[0], 2);
}

#[test]
fn signatures_verify_under_their_own_key_only() {
    for seed in [1u8, 2, 0x33] {
        let keys = Keys::new(secret(&[seed; 32]));
        let other = Keys::new(secret(&[seed + 1; 32]));
        for byte in [0u8, 0x5a, 0xff] {
            let message = digest(byte);
            let signature = keys.sign_schnorr(&message).unwrap();
            assert_eq!(signature.serialize().len(), 64);
            assert!(outside_accepts(&signature, &message, &keys.public_key()));
            assert!(!outside_accepts(&signature, &message, &other.public_key()));
            assert_eq!(signature.verify(&message, &keys.public_key()), Ok(()));
            assert_eq!(
                signature.verify(&message, &other.public_key()),
                Err(Error::Secp256k1(EngineError::InvalidSignature))
            );
            assert_eq!(
                signature.verify(&digest(byte ^ 1), &keys.public_key()),
                Err(Error::Secp256k1(EngineError::InvalidSignature))
            );
        }
    }
}

#[test]
fn negated_secret_shares_the_x_only_key() {
    // order - 1 is the negation of 1: the same x-coordinate, the other parity
    let mut negated = ORDER;
    negated[31] -= 1;
    let keys = Keys::new(secret(&one()));
    let mirror = Keys::new(secret(&negated));
    assert_eq!(keys.public_key(), mirror.public_key());
    assert_ne!(keys.normalized_public_key(), mirror.normalized_public_key());
    assert_eq!(mirror.normalized_public_key().unwrap().serialize()[0], 3);
    let message = digest(1);
    let signature = keys.sign_schnorr(&message).unwrap();
    assert!(outside_accepts(&signature, &message, &mirror.public_key()));
}

#[test]
fn bech32_payload_must_regroup_cleanly() {
    // 52 groups of 5 bits carry 32 bytes and 4 spare bits, which must be zero
    let groups = [9u8; 32].to_base32();
    assert_eq!(groups.len(), 52);
    let clean = bech32::encode("nsec", groups.clone(), bech32::Variant::Bech32).unwrap();
    assert_eq!(Keys::from_sk_str(&clean).unwrap().secret_key().unwrap().secret_bytes(), [9u8; 32]);
    let mut dirty = groups.clone();
    dirty[51] = bech32::u5::try_from_u8(dirty[51].to_u8() | 1).unwrap();
    let text = bech32::encode("nsec", dirty, bech32::Variant::Bech32).unwrap();
    assert_eq!(Keys::from_sk_str(&text), Err(Error::InvalidSecretKey));
    // one group more leaves 9 bits over: a 33rd byte and a spare bit
    let mut long = groups.clone();
    long.push(bech32::u5::try_from_u8(0).unwrap());
    let text = bech32::encode("nsec", long, bech32::Variant::Bech32).unwrap();
    assert_eq!(Keys::from_sk_str(&text), Err(Error::InvalidSecretKey));
    // an upper-case text decodes to the same prefix and payload
    assert_eq!(Keys::from_sk_str(&clean.to_uppercase()), Keys::from_sk_str(&clean));
}
