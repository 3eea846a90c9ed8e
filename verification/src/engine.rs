//! Keys, messages and signatures as plain bytes, and the calls into the
//! curve engine that derive, parse and sign them.

use vstd::prelude::*;
use crate::codec::{bech32_payload, decode_payload, hex_bytes, is_hex_text};
use crate::error::{EngineError, Error};

verus! {

/// The value of a byte string read as a big-endian number.
pub open spec fn be_value(bytes: Seq<u8>) -> nat
    decreases bytes.len(),
{
    if bytes.len() == 0 {
        0
    } else {
        be_value(bytes.drop_last()) * 256 + bytes.last() as nat
    }
}

/// The order of the secp256k1 group, as 32 big-endian bytes.
pub open spec fn curve_order_bytes() -> Seq<u8> {
    seq![
        0xffu8, 0xff, 0xff, 0xff, 0xff, 0xff, 0xff, 0xff,
        0xff, 0xff, 0xff, 0xff, 0xff, 0xff, 0xff, 0xfe,
        0xba, 0xae, 0xdc, 0xe6, 0xaf, 0x48, 0xa0, 0x3b,
        0xbf, 0xd2, 0x5e, 0x8c, 0xd0, 0x36, 0x41, 0x41,
    ]
}

/// A valid secret scalar: 32 bytes whose big-endian value is not zero and
/// below the group order.
pub open spec fn is_secret_scalar(bytes: Seq<u8>) -> bool {
    &&& bytes.len() == 32
    &&& 0 < be_value(bytes) < be_value(curve_order_bytes())
}

/// A byte string of zeros has the value zero.
pub proof fn lemma_zero_bytes_value(bytes: Seq<u8>)
    requires
        forall|i: int| 0 <= i < bytes.len() ==> bytes[i] == 0,
    ensures
        be_value(bytes) == 0,
    decreases bytes.len(),
{
    if bytes.len() > 0 {
        lemma_zero_bytes_value(bytes.drop_last());
    }
}

/// Neither zero nor the group order itself is a secret scalar, and no byte
/// string of another length than 32 is one.
pub proof fn lemma_scalar_range_ends(bytes: Seq<u8>)
    ensures
        (forall|i: int| 0 <= i < bytes.len() ==> bytes[i] == 0) ==> !is_secret_scalar(bytes),
        bytes == curve_order_bytes() ==> !is_secret_scalar(bytes),
        bytes.len() != 32 ==> !is_secret_scalar(bytes),
{
    if forall|i: int| 0 <= i < bytes.len() ==> bytes[i] == 0 {
        lemma_zero_bytes_value(bytes);
    }
}

/// The compressed 33-byte serialization of the public key that the engine
/// derives from a secret scalar (`PublicKey::from_secret_key`, serialized).
pub uninterp spec fn derived_public_key(secret: Seq<u8>) -> Seq<u8>;

/// The size of the field that the curve is defined over, as 32 big-endian
/// bytes.
pub open spec fn field_size_bytes() -> Seq<u8> {
    seq![
        0xffu8, 0xff, 0xff, 0xff, 0xff, 0xff, 0xff, 0xff,
        0xff, 0xff, 0xff, 0xff, 0xff, 0xff, 0xff, 0xff,
        0xff, 0xff, 0xff, 0xff, 0xff, 0xff, 0xff, 0xff,
        0xff, 0xff, 0xff, 0xfe, 0xff, 0xff, 0xfc, 0x2f,
    ]
}

/// `(x, y)` is a point of the curve `y^2 = x^3 + 7` over the field.
pub open spec fn on_curve(x: nat, y: nat) -> bool {
    let p = be_value(field_size_bytes());
    &&& x < p
    &&& y < p
    &&& (y * y) % p == (x * x * x + 7) % p
}

/// A valid x-only public key: 32 bytes whose big-endian value is the
/// x-coordinate of a point of the curve.
pub open spec fn is_x_only_key(bytes: Seq<u8>) -> bool {
    &&& bytes.len() == 32
    &&& exists|y: nat| on_curve(be_value(bytes), y)
}

/// A serialized public key: 33 bytes, a tag of 2 or 3 before the
/// x-coordinate of a curve point; or 65 bytes, a tag of 4, 6 or 7 before
/// both coordinates of a curve point, where the tags 6 and 7 also tell that
/// the y-coordinate is even or odd.
pub open spec fn is_public_key(bytes: Seq<u8>) -> bool {
    if bytes.len() == 33 {
        (bytes[0] == 2 || bytes[0] == 3) && is_x_only_key(bytes.subrange(1, 33))
    } else if bytes.len() == 65 {
        let y = be_value(bytes.subrange(33, 65));
        &&& (bytes[0] == 4 || bytes[0] == 6 || bytes[0] == 7)
        &&& on_curve(be_value(bytes.subrange(1, 33)), y)
        &&& (bytes[0] == 6 ==> y % 2 == 0)
        &&& (bytes[0] == 7 ==> y % 2 == 1)
    } else {
        false
    }
}

/// The compressed form of a serialized public key: of 65 bytes, the tag 2
/// for an even and 3 for an odd y-coordinate, then the x-coordinate; of 33
/// bytes, the bytes themselves.
pub open spec fn compressed_form(bytes: Seq<u8>) -> Seq<u8> {
    if bytes.len() == 65 {
        seq![(2 + be_value(bytes.subrange(33, 65)) % 2) as u8] + bytes.subrange(1, 33)
    } else {
        bytes
    }
}

/// Whether `verify_schnorr` accepts a signature for a digest under an
/// x-only public key.
pub uninterp spec fn schnorr_accepts(signature: Seq<u8>, digest: Seq<u8>, x_only: Seq<u8>) -> bool;

/// The x-only form of a compressed public key: the 32 bytes of the
/// x-coordinate that follow the parity byte.
pub open spec fn x_only_of(public: Seq<u8>) -> Seq<u8> {
    public.subrange(1, 33)
}

/// The secret scalar that a text spells in hexadecimal, if it spells one.
pub open spec fn hex_secret(text: Seq<char>) -> Option<Seq<u8>> {
    if is_hex_text(text, 32) && is_secret_scalar(hex_bytes(text)) {
        Some(hex_bytes(text))
    } else {
        None
    }
}

/// The secret scalar that a bech32 text with the prefix `nsec` carries.
pub open spec fn bech32_secret(text: Seq<char>) -> Option<Seq<u8>> {
    match bech32_payload(text, "nsec"@) {
        Some(bytes) => if is_secret_scalar(bytes) {
            Some(bytes)
        } else {
            None
        },
        None => None,
    }
}

/// The x-only public key that a text spells in hexadecimal, if it spells one.
pub open spec fn hex_x_only(text: Seq<char>) -> Option<Seq<u8>> {
    if is_hex_text(text, 32) && is_x_only_key(hex_bytes(text)) {
        Some(hex_bytes(text))
    } else {
        None
    }
}

/// The x-only public key that a bech32 text with the prefix `npub` carries.
pub open spec fn bech32_x_only(text: Seq<char>) -> Option<Seq<u8>> {
    match bech32_payload(text, "npub"@) {
        Some(bytes) => if is_x_only_key(bytes) {
            Some(bytes)
        } else {
            None
        },
        None => None,
    }
}

/// A secret scalar of the curve.
#[derive(Debug, Clone, Copy, PartialEq, Eq)]
pub struct SecretKey {
    bytes: [u8; 32],
}

/// A public key with its parity, in compressed form: a byte that is 2 for an
/// even and 3 for an odd y-coordinate, then the x-coordinate.
#[derive(Debug, Clone, Copy, PartialEq, Eq)]
pub struct PublicKey {
    bytes: [u8; 33],
}

/// A public key without its parity: the x-coordinate alone.
#[derive(Debug, Clone, Copy, PartialEq, Eq)]
pub struct XOnlyPublicKey {
    bytes: [u8; 32],
}

/// A secret scalar together with the public key derived from it.
#[derive(Debug, Clone, Copy, PartialEq, Eq)]
pub struct KeyPair {
    secret: SecretKey,
    public: PublicKey,
}

/// A 32-byte digest to be signed.
#[derive(Debug, Clone, Copy, PartialEq, Eq)]
pub struct Message {
    bytes: [u8; 32],
}

/// A 64-byte Schnorr signature.
#[derive(Debug, Clone, Copy, PartialEq, Eq)]
pub struct Signature {
    bytes: [u8; 64],
}

/// Calls `SecretKey::from_slice`, which accepts exactly the 32-byte strings
/// that are valid secret scalars, and keeps the bytes.
#[verifier::external_body]
fn secret_key_from_slice(data: &[u8]) -> (r: Option<SecretKey>)
    ensures
        r is Some <==> is_secret_scalar(data@),
        r matches Some(key) ==> key@ == data@,
{
    let key = secp256k1::SecretKey::from_slice(data).ok()?;
    Some(SecretKey { bytes: key.secret_bytes() })
}

/// Calls `SecretKey::from_str`, which accepts exactly the texts of 64
/// hexadecimal digits that spell a valid secret scalar.
#[verifier::external_body]
fn secret_key_from_str(text: &str) -> (r: Option<SecretKey>)
    ensures
        r is Some <==> hex_secret(text@) is Some,
        r matches Some(key) ==> hex_secret(text@) == Some(key@),
{
    let key: secp256k1::SecretKey = text.parse().ok()?;
    Some(SecretKey { bytes: key.secret_bytes() })
}

/// Calls `PublicKey::from_slice`, which accepts exactly the compressed,
/// uncompressed and hybrid serializations of curve points, and serializes
/// the point it parsed in compressed form.
#[verifier::external_body]
fn public_key_from_slice(data: &[u8]) -> (r: Option<PublicKey>)
    ensures
        r is Some <==> is_public_key(data@),
        r matches Some(key) ==> key@ == compressed_form(data@) && key.wf(),
{
    let key = secp256k1::PublicKey::from_slice(data).ok()?;
    Some(PublicKey { bytes: key.serialize() })
}

/// Calls `XOnlyPublicKey::from_slice`, which accepts exactly the 32-byte
/// strings that are the x-coordinate of a curve point, and keeps the bytes.
#[verifier::external_body]
fn x_only_from_slice(data: &[u8]) -> (r: Option<XOnlyPublicKey>)
    ensures
        r is Some <==> is_x_only_key(data@),
        r matches Some(key) ==> key@ == data@,
{
    let key = secp256k1::XOnlyPublicKey::from_slice(data).ok()?;
    Some(XOnlyPublicKey { bytes: key.serialize() })
}

/// Calls `XOnlyPublicKey::from_str`, which accepts exactly the texts of 64
/// hexadecimal digits that spell the x-coordinate of a curve point.
#[verifier::external_body]
fn x_only_from_str(text: &str) -> (r: Option<XOnlyPublicKey>)
    ensures
        r is Some <==> hex_x_only(text@) is Some,
        r matches Some(key) ==> hex_x_only(text@) == Some(key@),
{
    let key: secp256k1::XOnlyPublicKey = text.parse().ok()?;
    Some(XOnlyPublicKey { bytes: key.serialize() })
}

/// Calls `Message::from_slice`, which accepts exactly the slices of 32 bytes
/// and keeps them.
#[verifier::external_body]
fn message_from_slice(data: &[u8]) -> (r: Option<Message>)
    ensures
        r is Some <==> data@.len() == 32,
        r matches Some(message) ==> message@ == data@,
{
    let message = secp256k1::Message::from_slice(data).ok()?;
    Some(Message { bytes: *message.as_ref() })
}

/// Calls `SecretKey::public_key` with the global context. The result is the
/// named public key of the secret, a curve point in compressed form.
#[verifier::external_body]
pub(crate) fn derive_public_key(secret: &SecretKey) -> (r: PublicKey)
    requires
        secret.wf(),
    ensures
        r@ == derived_public_key(secret@),
        r.wf(),
{
    let key = secp256k1::SecretKey::from_slice(&secret.bytes).expect("valid secret scalar");
    PublicKey { bytes: key.public_key(secp256k1::SECP256K1).serialize() }
}

/// Calls `KeyPair::from_secret_key` with the global context. The pair holds
/// the secret it was made from and the named public key of that secret.
#[verifier::external_body]
pub(crate) fn derive_key_pair(secret: &SecretKey) -> (r: KeyPair)
    requires
        secret.wf(),
    ensures
        r.secret_view() == secret@,
        r.public_view() == derived_public_key(secret@),
        r.wf(),
{
    let key = secp256k1::SecretKey::from_slice(&secret.bytes).expect("valid secret scalar");
    let pair = secp256k1::KeyPair::from_secret_key(secp256k1::SECP256K1, &key);
    KeyPair {
        secret: SecretKey { bytes: pair.secret_bytes() },
        public: PublicKey { bytes: pair.public_key().serialize() },
    }
}

/// Calls `XOnlyPublicKey::from_keypair` and drops the parity. The result is
/// the x-coordinate of the pair's public key.
#[verifier::external_body]
pub(crate) fn key_pair_x_only(pair: &KeyPair) -> (r: XOnlyPublicKey)
    requires
        pair.wf(),
    ensures
        r@ == x_only_of(pair.public_view()),
{
    let outside = secp256k1::KeyPair::from_seckey_slice(secp256k1::SECP256K1, &pair.secret.bytes)
        .expect("valid secret scalar");
    let (key, _) = secp256k1::XOnlyPublicKey::from_keypair(&outside);
    XOnlyPublicKey { bytes: key.serialize() }
}

/// Calls `PublicKey::x_only_public_key` and drops the parity. The result is
/// the x-coordinate of the public key.
#[verifier::external_body]
pub(crate) fn public_key_x_only(public: &PublicKey) -> (r: XOnlyPublicKey)
    requires
        public.wf(),
    ensures
        r@ == x_only_of(public@),
{
    let outside = secp256k1::PublicKey::from_slice(&public.bytes).expect("valid public key");
    let (key, _) = outside.x_only_public_key();
    XOnlyPublicKey { bytes: key.serialize() }
}

/// Calls `Secp256k1::generate_keypair` on the global context with the
/// operating system's entropy source, which draws 32 bytes until they are a
/// valid secret scalar and derives the public key of that scalar.
#[verifier::external_body]
pub(crate) fn generate_key_pair_from_os() -> (r: (SecretKey, PublicKey))
    ensures
        r.0.wf(),
        r.1.wf(),
        r.1@ == derived_public_key(r.0@),
{
    let mut source = secp256k1::rand::rngs::OsRng;
    let (secret, public) = secp256k1::SECP256K1.generate_keypair(&mut source);
    (SecretKey { bytes: secret.secret_bytes() }, PublicKey { bytes: public.serialize() })
}

/// Calls `Secp256k1::sign_schnorr` on the global context, which draws fresh
/// auxiliary randomness for each signature. Whatever it draws, the signature
/// is one that verification accepts for the digest under the pair's x-only
/// public key.
#[verifier::external_body]
pub(crate) fn schnorr_sign(message: &Message, pair: &KeyPair) -> (r: Signature)
    requires
        pair.wf(),
    ensures
        schnorr_accepts(r@, message@, x_only_of(pair.public_view())),
{
    let digest = secp256k1::Message::from_slice(&message.bytes).expect("32 bytes");
    let outside = secp256k1::KeyPair::from_seckey_slice(secp256k1::SECP256K1, &pair.secret.bytes)
        .expect("valid secret scalar");
    Signature { bytes: *secp256k1::SECP256K1.sign_schnorr(&digest, &outside).as_ref() }
}

/// Calls `Secp256k1::verify_schnorr` on the global context and hands its
/// verdict on.
#[verifier::external_body]
fn schnorr_verify(signature: &Signature, message: &Message, key: &XOnlyPublicKey) -> (r: bool)
    requires
        key.wf(),
    ensures
        r == schnorr_accepts(signature@, message@, key@),
{
    let sig = secp256k1::schnorr::Signature::from_slice(&signature.bytes).expect("64 bytes");
    let digest = secp256k1::Message::from_slice(&message.bytes).expect("32 bytes");
    let outside = secp256k1::XOnlyPublicKey::from_slice(&key.bytes).expect("valid x-coordinate");
    secp256k1::SECP256K1.verify_schnorr(&sig, &digest, &outside).is_ok()
}

impl SecretKey {
    /// The 32 bytes of the scalar.
    pub closed spec fn view(&self) -> Seq<u8> {
        self.bytes@
    }

    /// The bytes are a valid secret scalar.
    #[verifier::type_invariant]
    pub open spec fn wf(self) -> bool {
        is_secret_scalar(self@)
    }

    /// Reads a secret key from 32 bytes. The bytes are accepted if and only
    /// if they are a valid secret scalar.
    pub fn from_slice(data: &[u8]) -> (r: Result<SecretKey, Error>)
        ensures
            is_secret_scalar(data@) ==> (r matches Ok(key) && key@ == data@ && key.wf()),
            !is_secret_scalar(data@) ==> r == Err::<SecretKey, Error>(Error::InvalidSecretKey),
    {
        match secret_key_from_slice(data) {
            Some(key) => Ok(key),
            None => Err(Error::InvalidSecretKey),
        }
    }

    /// Reads a secret key from 64 hexadecimal digits.
    pub fn from_hex(text: &str) -> (r: Result<SecretKey, Error>)
        ensures
            match hex_secret(text@) {
                Some(bytes) => r matches Ok(key) && key@ == bytes && key.wf(),
                None => r == Err::<SecretKey, Error>(Error::InvalidSecretKey),
            },
    {
        match secret_key_from_str(text) {
            Some(key) => Ok(key),
            None => Err(Error::InvalidSecretKey),
        }
    }

    /// Reads a secret key from a bech32 text with the prefix `nsec`.
    pub fn from_bech32(text: &str) -> (r: Result<SecretKey, Error>)
        ensures
            match bech32_secret(text@) {
                Some(bytes) => r matches Ok(key) && key@ == bytes && key.wf(),
                None => r == Err::<SecretKey, Error>(Error::InvalidSecretKey),
            },
    {
        match decode_payload(text, "nsec") {
            Some(bytes) => SecretKey::from_slice(bytes.as_slice()),
            None => Err(Error::InvalidSecretKey),
        }
    }

    /// The 32 bytes of the scalar.
    pub fn secret_bytes(&self) -> (r: [u8; 32])
        ensures
            r@ == self@,
    {
        self.bytes
    }

    /// The public key of this secret, with its parity.
    pub fn public_key(&self) -> (r: PublicKey)
        ensures
            r@ == derived_public_key(self@),
            x_only_of(r@).len() == 32,
            r@[0] == 2 || r@[0] == 3,
            r.wf(),
    {
        proof {
            use_type_invariant(self);
        }
        derive_public_key(self)
    }
}

impl PublicKey {
    /// The 33 bytes of the compressed form.
    pub closed spec fn view(&self) -> Seq<u8> {
        self.bytes@
    }

    /// The bytes are the compressed form of a curve point.
    #[verifier::type_invariant]
    pub open spec fn wf(self) -> bool {
        self@.len() == 33 && is_public_key(self@)
    }

    /// Reads a public key from its compressed or uncompressed serialization.
    pub fn from_slice(data: &[u8]) -> (r: Result<PublicKey, Error>)
        ensures
            is_public_key(data@) ==> (r matches Ok(key) && key@ == compressed_form(data@)
                && key.wf()),
            !is_public_key(data@) ==> r == Err::<PublicKey, Error>(Error::InvalidPublicKey),
    {
        match public_key_from_slice(data) {
            Some(key) => Ok(key),
            None => Err(Error::InvalidPublicKey),
        }
    }

    /// The 33 bytes of the compressed form.
    pub fn serialize(&self) -> (r: [u8; 33])
        ensures
            r@ == self@,
    {
        self.bytes
    }

    /// The same key without its parity.
    pub fn x_only_public_key(&self) -> (r: XOnlyPublicKey)
        ensures
            r@ == x_only_of(self@),
            r.wf(),
    {
        proof {
            use_type_invariant(self);
        }
        public_key_x_only(self)
    }
}

impl XOnlyPublicKey {
    /// The 32 bytes of the x-coordinate.
    pub closed spec fn view(&self) -> Seq<u8> {
        self.bytes@
    }

    /// The bytes are the x-coordinate of a curve point.
    #[verifier::type_invariant]
    pub open spec fn wf(self) -> bool {
        is_x_only_key(self@)
    }

    /// Reads an x-only public key from 32 bytes. The bytes are accepted if
    /// and only if they are the x-coordinate of a curve point.
    pub fn from_slice(data: &[u8]) -> (r: Result<XOnlyPublicKey, Error>)
        ensures
            is_x_only_key(data@) ==> (r matches Ok(key) && key@ == data@ && key.wf()),
            !is_x_only_key(data@) ==> r == Err::<XOnlyPublicKey, Error>(
                Error::InvalidPublicKey,
            ),
    {
        match x_only_from_slice(data) {
            Some(key) => Ok(key),
            None => Err(Error::InvalidPublicKey),
        }
    }

    /// Reads an x-only public key from 64 hexadecimal digits.
    pub fn from_hex(text: &str) -> (r: Result<XOnlyPublicKey, Error>)
        ensures
            match hex_x_only(text@) {
                Some(bytes) => r matches Ok(key) && key@ == bytes && key.wf(),
                None => r == Err::<XOnlyPublicKey, Error>(Error::InvalidPublicKey),
            },
    {
        match x_only_from_str(text) {
            Some(key) => Ok(key),
            None => Err(Error::InvalidPublicKey),
        }
    }

    /// Reads an x-only public key from a bech32 text with the prefix `npub`.
    pub fn from_bech32(text: &str) -> (r: Result<XOnlyPublicKey, Error>)
        ensures
            match bech32_x_only(text@) {
                Some(bytes) => r matches Ok(key) && key@ == bytes && key.wf(),
                None => r == Err::<XOnlyPublicKey, Error>(Error::InvalidPublicKey),
            },
    {
        match decode_payload(text, "npub") {
            Some(bytes) => XOnlyPublicKey::from_slice(bytes.as_slice()),
            None => Err(Error::InvalidPublicKey),
        }
    }

    /// The 32 bytes of the x-coordinate.
    pub fn serialize(&self) -> (r: [u8; 32])
        ensures
            r@ == self@,
    {
        self.bytes
    }
}

impl KeyPair {
    /// The bytes of the pair's secret scalar.
    pub closed spec fn secret_view(&self) -> Seq<u8> {
        self.secret@
    }

    /// The compressed bytes of the pair's public key.
    pub closed spec fn public_view(&self) -> Seq<u8> {
        self.public@
    }

    /// The secret is valid and the public key is the one derived from it.
    #[verifier::type_invariant]
    pub open spec fn wf(self) -> bool {
        &&& is_secret_scalar(self.secret_view())
        &&& self.public_view().len() == 33
        &&& is_public_key(self.public_view())
        &&& self.public_view() == derived_public_key(self.secret_view())
    }

    /// Derives the key pair of a secret.
    pub fn from_secret_key(secret: &SecretKey) -> (r: KeyPair)
        ensures
            r.secret_view() == secret@,
            r.public_view() == derived_public_key(secret@),
            r.wf(),
    {
        proof {
            use_type_invariant(secret);
        }
        derive_key_pair(secret)
    }

    /// The pair's secret scalar.
    pub fn secret_key(&self) -> (r: SecretKey)
        ensures
            r@ == self.secret_view(),
            r.wf(),
    {
        proof {
            use_type_invariant(self);
        }
        self.secret
    }

    /// The pair's public key, with its parity.
    pub fn public_key(&self) -> (r: PublicKey)
        ensures
            r@ == self.public_view(),
            r.wf(),
    {
        proof {
            use_type_invariant(self);
        }
        self.public
    }

    /// The pair's public key without its parity.
    pub fn x_only_public_key(&self) -> (r: XOnlyPublicKey)
        ensures
            r@ == x_only_of(self.public_view()),
            r.wf(),
    {
        proof {
            use_type_invariant(self);
        }
        key_pair_x_only(self)
    }
}

impl Message {
    /// The 32 bytes of the digest.
    pub closed spec fn view(&self) -> Seq<u8> {
        self.bytes@
    }

    /// Takes a digest from a slice, which must hold exactly 32 bytes.
    pub fn from_slice(data: &[u8]) -> (r: Result<Message, Error>)
        ensures
            data@.len() == 32 ==> (r matches Ok(message) && message@ == data@),
            data@.len() != 32 ==> r == Err::<Message, Error>(
                Error::Secp256k1(EngineError::InvalidMessage),
            ),
    {
        match message_from_slice(data) {
            Some(message) => Ok(message),
            None => Err(Error::from(EngineError::InvalidMessage)),
        }
    }

    /// The 32 bytes of the digest.
    pub fn serialize(&self) -> (r: [u8; 32])
        ensures
            r@ == self@,
    {
        self.bytes
    }
}

impl Signature {
    /// The 64 bytes of the signature.
    pub closed spec fn view(&self) -> Seq<u8> {
        self.bytes@
    }

    /// The 64 bytes of the signature.
    pub fn serialize(&self) -> (r: [u8; 64])
        ensures
            r@ == self@,
    {
        self.bytes
    }

    /// Checks the signature for a digest under an x-only public key.
    pub fn verify(&self, message: &Message, key: &XOnlyPublicKey) -> (r: Result<(), Error>)
        ensures
            schnorr_accepts(self@, message@, key@) ==> r is Ok,
            !schnorr_accepts(self@, message@, key@) ==> r == Err::<(), Error>(
                Error::Secp256k1(EngineError::InvalidSignature),
            ),
    {
        proof {
            use_type_invariant(key);
        }
        if schnorr_verify(self, message, key) {
            Ok(())
        } else {
            Err(Error::from(EngineError::InvalidSignature))
        }
    }
}

} // verus!
