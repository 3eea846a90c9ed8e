//! An identity: an x-only public key, and with it the secret scalar it was
//! derived from and the cached key pair, where they are known.

use vstd::prelude::*;
use crate::engine::{
    bech32_secret, bech32_x_only, derived_public_key, generate_key_pair_from_os, hex_secret,
    hex_x_only,
    is_secret_scalar, is_x_only_key, key_pair_x_only, schnorr_accepts, schnorr_sign,
    x_only_of, KeyPair, Message, PublicKey, SecretKey, Signature, XOnlyPublicKey,
};
use crate::codec::{ascii_lower, hex_bytes, hex_digit, is_hex_text, spells_prefix};
use crate::error::Error;

verus! {

/// What an identity holds, as plain values.
pub struct KeysView {
    /// The 32 bytes of the x-only public key.
    pub public_key: Seq<u8>,
    /// The 32 bytes of the secret scalar, if the identity can sign.
    pub secret_key: Option<Seq<u8>>,
    /// Whether the key pair is held ready.
    pub key_pair_cached: bool,
}

/// The identity that a secret scalar gives, with its key pair held ready.
pub open spec fn keys_of_secret(secret: Seq<u8>) -> KeysView {
    KeysView {
        public_key: x_only_of(derived_public_key(secret)),
        secret_key: Some(secret),
        key_pair_cached: true,
    }
}

/// The identity of a public key alone.
pub open spec fn keys_of_public(public_key: Seq<u8>) -> KeysView {
    KeysView { public_key, secret_key: None, key_pair_cached: false }
}

/// What asking an identity for its secret gives.
pub open spec fn secret_of(keys: KeysView) -> Result<Seq<u8>, Error> {
    match keys.secret_key {
        Some(secret) => Ok(secret),
        None => Err(Error::SkMissing),
    }
}

/// What asking an identity for its public key with parity gives: the key
/// derived from the secret.
pub open spec fn normalized_of(keys: KeysView) -> Result<Seq<u8>, Error> {
    match keys.secret_key {
        Some(secret) => Ok(derived_public_key(secret)),
        None => Err(Error::SkMissing),
    }
}

/// Whether `signature` is a possible outcome of signing `digest` with an
/// identity: none is without a secret, and with one every outcome verifies
/// under the identity's public key.
pub open spec fn signing_allows(keys: KeysView, digest: Seq<u8>, signature: Result<
    Seq<u8>,
    Error,
>) -> bool {
    match keys.secret_key {
        Some(_) => signature matches Ok(bytes) && schnorr_accepts(bytes, digest, keys.public_key),
        None => signature == Err::<Seq<u8>, Error>(Error::SkMissing),
    }
}

/// The secret scalar that a text stands for: the one it spells in
/// hexadecimal, or else the one it carries as bech32.
pub open spec fn secret_text(text: Seq<char>) -> Option<Seq<u8>> {
    match hex_secret(text) {
        Some(secret) => Some(secret),
        None => bech32_secret(text),
    }
}

/// The x-only public key that a text stands for: the one it spells in
/// hexadecimal, or else the one it carries as bech32.
pub open spec fn public_text(text: Seq<char>) -> Option<Seq<u8>> {
    match hex_x_only(text) {
        Some(key) => Some(key),
        None => bech32_x_only(text),
    }
}

/// Building an identity from the text form of a secret key.
pub trait FromSkStr: Sized {
    /// The error of a text that is no secret key.
    type Err;

    /// Reads an identity from a secret key in hexadecimal or bech32.
    fn from_sk_str(secret_key: &str) -> Result<Self, Self::Err>;
}

/// Building an identity from the text form of a public key.
pub trait FromPkStr: Sized {
    /// The error of a text that is no public key.
    type Err;

    /// Reads an identity from a public key in hexadecimal or bech32.
    fn from_pk_str(public_key: &str) -> Result<Self, Self::Err>;
}

/// An identity.
#[derive(Debug, Clone, Copy, PartialEq, Eq)]
pub struct Keys {
    public_key: XOnlyPublicKey,
    key_pair: Option<KeyPair>,
    secret_key: Option<SecretKey>,
}

impl View for Keys {
    type V = KeysView;

    closed spec fn view(&self) -> KeysView {
        KeysView {
            public_key: self.public_key@,
            secret_key: match self.secret_key {
                Some(secret) => Some(secret@),
                None => None,
            },
            key_pair_cached: self.key_pair is Some,
        }
    }
}

impl Keys {
    /// The parts fit together: the public key is the x-only form of the key
    /// derived from the secret, a cached pair is the pair of that secret, and
    /// without a secret there is no pair.
    #[verifier::type_invariant]
    pub closed spec fn wf(self) -> bool {
        &&& self.public_key.wf()
        &&& match self.secret_key {
            Some(secret) => secret.wf() && self.public_key@ == x_only_of(
                derived_public_key(secret@),
            ),
            None => self.key_pair is None,
        }
        &&& match self.key_pair {
            Some(pair) => pair.wf() && self.secret_key is Some && pair.secret_view()
                == self.secret_key.unwrap()@,
            None => true,
        }
    }

    /// Builds the identity of a secret key, with its key pair held ready.
    pub fn new(secret_key: SecretKey) -> (r: Keys)
        ensures
            r@ == keys_of_secret(secret_key@),
            r.wf(),
    {
        proof {
            use_type_invariant(&secret_key);
        }
        let key_pair = KeyPair::from_secret_key(&secret_key);
        let public_key = key_pair_x_only(&key_pair);
        Keys { public_key, key_pair: Some(key_pair), secret_key: Some(secret_key) }
    }

    /// Builds the identity of a public key alone, which cannot sign.
    pub fn from_public_key(public_key: XOnlyPublicKey) -> (r: Keys)
        ensures
            r@ == keys_of_public(public_key@),
            r.wf(),
    {
        proof {
            use_type_invariant(&public_key);
        }
        Keys { public_key, key_pair: None, secret_key: None }
    }

    /// Builds the identity of a secret key without its key pair, which is
    /// derived only when it is asked for. Only the public key is computed,
    /// which makes this the cheap way to try many secrets.
    pub fn without_key_pair(secret_key: SecretKey) -> (r: Keys)
        ensures
            r@.secret_key == Some(secret_key@),
            r@.public_key == x_only_of(derived_public_key(secret_key@)),
            !r@.key_pair_cached,
            r.wf(),
    {
        proof {
            use_type_invariant(&secret_key);
        }
        let public_key = secret_key.public_key().x_only_public_key();
        Keys { public_key, key_pair: None, secret_key: Some(secret_key) }
    }

    /// Draws a secret key from the operating system's entropy source and
    /// builds its identity.
    pub fn generate() -> (r: Keys)
        ensures
            r@.secret_key matches Some(secret) && is_secret_scalar(secret) && r@ == keys_of_secret(
                secret,
            ),
            r.wf(),
    {
        let (secret_key, _) = generate_key_pair_from_os();
        proof {
            use_type_invariant(&secret_key);
        }
        Keys::new(secret_key)
    }

    /// The x-only public key.
    pub fn public_key(&self) -> (r: XOnlyPublicKey)
        ensures
            r@ == self@.public_key,
            r.wf(),
    {
        proof {
            use_type_invariant(self);
        }
        self.public_key
    }

    /// The secret key, if the identity has one.
    pub fn secret_key(&self) -> (r: Result<SecretKey, Error>)
        ensures
            match secret_of(self@) {
                Ok(secret) => r matches Ok(key) && key@ == secret && key.wf(),
                Err(e) => r == Err::<SecretKey, Error>(e),
            },
    {
        proof {
            use_type_invariant(self);
        }
        if let Some(secret_key) = self.secret_key {
            Ok(secret_key)
        } else {
            Err(Error::SkMissing)
        }
    }

    /// The public key with its parity, derived from the secret. Its
    /// x-coordinate is the identity's public key; the byte before it tells
    /// the parity.
    pub fn normalized_public_key(&self) -> (r: Result<PublicKey, Error>)
        ensures
            match normalized_of(self@) {
                Ok(public) => r matches Ok(key) && key@ == public && x_only_of(key@)
                    == self@.public_key && (key@[0] == 2 || key@[0] == 3) && key.wf(),
                Err(e) => r == Err::<PublicKey, Error>(e),
            },
    {
        proof {
            use_type_invariant(self);
        }
        match self.secret_key() {
            Ok(secret_key) => Ok(secret_key.public_key()),
            Err(e) => Err(e),
        }
    }

    /// The key pair: the cached one, or else the one derived from the
    /// secret.
    pub fn key_pair(&self) -> (r: Result<KeyPair, Error>)
        ensures
            match self@.secret_key {
                Some(secret) => r matches Ok(pair) && pair.secret_view() == secret
                    && pair.public_view() == derived_public_key(secret) && pair.wf(),
                None => r == Err::<KeyPair, Error>(Error::SkMissing),
            },
    {
        proof {
            use_type_invariant(self);
        }
        if let Some(key_pair) = self.key_pair {
            proof {
                use_type_invariant(&key_pair);
            }
            Ok(key_pair)
        } else {
            match self.secret_key() {
                Ok(secret_key) => Ok(KeyPair::from_secret_key(&secret_key)),
                Err(e) => Err(e),
            }
        }
    }

    /// Signs a digest. Without a secret there is no signature; with one, the
    /// signature verifies under the identity's public key.
    pub fn sign_schnorr(&self, message: &Message) -> (r: Result<Signature, Error>)
        ensures
            signing_allows(
                self@,
                message@,
                match r {
                    Ok(signature) => Ok(signature@),
                    Err(e) => Err(e),
                },
            ),
    {
        proof {
            use_type_invariant(self);
        }
        match self.key_pair() {
            Ok(key_pair) => Ok(schnorr_sign(message, &key_pair)),
            Err(e) => Err(e),
        }
    }
}

impl FromSkStr for Keys {
    type Err = Error;

    /// Reads an identity from a secret key in hexadecimal, or else in bech32
    /// with the prefix `nsec`.
    fn from_sk_str(secret_key: &str) -> (r: Result<Keys, Error>)
        ensures
            match secret_text(secret_key@) {
                Some(secret) => r matches Ok(keys) && keys@ == keys_of_secret(secret) && keys.wf(),
                None => r == Err::<Keys, Error>(Error::InvalidSecretKey),
            },
    {
        match SecretKey::from_hex(secret_key) {
            Ok(key) => Ok(Keys::new(key)),
            Err(_) => match SecretKey::from_bech32(secret_key) {
                Ok(key) => Ok(Keys::new(key)),
                Err(_) => Err(Error::InvalidSecretKey),
            },
        }
    }
}

impl FromPkStr for Keys {
    type Err = Error;

    /// Reads an identity from a public key in hexadecimal, or else in bech32
    /// with the prefix `npub`.
    fn from_pk_str(public_key: &str) -> (r: Result<Keys, Error>)
        ensures
            match public_text(public_key@) {
                Some(key) => r matches Ok(keys) && keys@ == keys_of_public(key) && keys.wf(),
                None => r == Err::<Keys, Error>(Error::InvalidPublicKey),
            },
    {
        match XOnlyPublicKey::from_hex(public_key) {
            Ok(key) => Ok(Keys::from_public_key(key)),
            Err(_) => match XOnlyPublicKey::from_bech32(public_key) {
                Ok(key) => Ok(Keys::from_public_key(key)),
                Err(_) => Err(Error::InvalidPublicKey),
            },
        }
    }
}

/// An identity with a secret has the public key of that secret: the x-only
/// form of the key derived from it. Without a secret it has no key pair.
pub proof fn lemma_keys_consistent(keys: Keys)
    requires
        keys.wf(),
    ensures
        keys@.secret_key matches Some(secret) ==> is_secret_scalar(secret) && keys@.public_key
            == x_only_of(derived_public_key(secret)),
        keys@.secret_key is None ==> !keys@.key_pair_cached,
        is_x_only_key(keys@.public_key),
{
}

/// Two identities with the same secret have the same public key: what is
/// derived from a secret depends on the secret alone.
pub proof fn lemma_same_secret_same_public_key(a: Keys, b: Keys)
    requires
        a.wf(),
        b.wf(),
        a@.secret_key is Some,
        a@.secret_key == b@.secret_key,
    ensures
        a@.public_key == b@.public_key,
        normalized_of(a@) == normalized_of(b@),
{
}

/// The identity of a secret has the x-only form of the derived key as its
/// public key, and its public key with parity has that same x-coordinate.
pub proof fn lemma_public_key_of_secret(secret: Seq<u8>)
    ensures
        keys_of_secret(secret).public_key == x_only_of(derived_public_key(secret)),
        normalized_of(keys_of_secret(secret)) matches Ok(public) && x_only_of(public)
            == keys_of_secret(secret).public_key,
{
}

/// The identity of a secret gives that secret back.
pub proof fn lemma_secret_round_trip(secret: Seq<u8>)
    ensures
        secret_of(keys_of_secret(secret)) == Ok::<Seq<u8>, Error>(secret),
{
}

/// The identity of a public key alone has that public key, and refuses its
/// secret, its public key with parity and every signature for want of a
/// secret.
pub proof fn lemma_public_only_cannot_sign(
    public_key: Seq<u8>,
    digest: Seq<u8>,
    signature: Result<Seq<u8>, Error>,
)
    ensures
        keys_of_public(public_key).public_key == public_key,
        secret_of(keys_of_public(public_key)) == Err::<Seq<u8>, Error>(Error::SkMissing),
        normalized_of(keys_of_public(public_key)) == Err::<Seq<u8>, Error>(Error::SkMissing),
        signing_allows(keys_of_public(public_key), digest, signature) <==> signature == Err::<
            Seq<u8>,
            Error,
        >(Error::SkMissing),
{
}

/// A text of 64 hexadecimal digits that spells a valid secret stands for
/// that secret, and the identity read from it gives the secret back.
pub proof fn lemma_hex_text_round_trip(text: Seq<char>, secret: Seq<u8>)
    requires
        is_hex_text(text, 32),
        hex_bytes(text) == secret,
        is_secret_scalar(secret),
    ensures
        secret_text(text) == Some(secret),
        secret_of(keys_of_secret(secret_text(text).unwrap())) == Ok::<Seq<u8>, Error>(secret),
{
}

/// No text is both a hexadecimal secret and a bech32 secret: a bech32 text
/// begins with its prefix, and `nsec` begins with no hexadecimal digit.
pub proof fn lemma_bech32_secret_is_no_hex(text: Seq<char>)
    requires
        bech32_secret(text) is Some,
    ensures
        hex_secret(text) is None,
{
    reveal_strlit("nsec");
    assert(spells_prefix(text, "nsec"@));
    assert(ascii_lower(text[0]) == "nsec"@[0]);
    assert(hex_digit(text[0]) is None);
}

/// No text is both a hexadecimal and a bech32 public key.
pub proof fn lemma_bech32_x_only_is_no_hex(text: Seq<char>)
    requires
        bech32_x_only(text) is Some,
    ensures
        hex_x_only(text) is None,
{
    reveal_strlit("npub");
    assert(spells_prefix(text, "npub"@));
    assert(ascii_lower(text[0]) == "npub"@[0]);
    assert(hex_digit(text[0]) is None);
}

/// A text that carries a valid secret as bech32 stands for that secret, and
/// the identity read from it gives the secret back.
pub proof fn lemma_bech32_text_round_trip(text: Seq<char>, secret: Seq<u8>)
    requires
        bech32_secret(text) == Some(secret),
    ensures
        secret_text(text) == Some(secret),
        secret_of(keys_of_secret(secret_text(text).unwrap())) == Ok::<Seq<u8>, Error>(secret),
{
    lemma_bech32_secret_is_no_hex(text);
}

/// A text that spells a public key in hexadecimal, or carries one as
/// bech32, stands for that key.
pub proof fn lemma_public_text_round_trip(text: Seq<char>, key: Seq<u8>)
    requires
        hex_x_only(text) == Some(key) || bech32_x_only(text) == Some(key),
    ensures
        public_text(text) == Some(key),
        keys_of_public(public_text(text).unwrap()).public_key == key,
{
    if bech32_x_only(text) is Some {
        lemma_bech32_x_only_is_no_hex(text);
    }
}

/// A text that is neither a hexadecimal nor a bech32 secret stands for none.
pub proof fn lemma_text_without_secret(text: Seq<char>)
    requires
        hex_secret(text) is None,
        bech32_secret(text) is None,
    ensures
        secret_text(text) is None,
{
}

} // verus!
