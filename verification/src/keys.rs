//! RSA keys as PKCS#1 bytes, and the store of trusted public keys.

use crate::armor::{pem_block_of, pem_encode, pem_parse, pem_text_of};
use crate::crypto::{
    generate_private_key, public_half, public_key_parses, rsa_accepts, rsa_public_key_parses,
    rsa_public_of, sign_digest, verify_signature,
};
use crate::der::{
    is_private_key_layout, is_public_key_layout, private_key_bits, private_key_layout,
    private_key_size, public_key_layout,
};
use crate::error::KeyFormatError;
use crate::text::str_eq;
use vstd::prelude::*;
use vstd::utf8::encode_utf8;

verus! {

/// A public RSA key, held as its PKCS#1 encoding.
#[derive(Debug, PartialEq, Eq)]
pub struct PublicKey {
    pkcs1: Vec<u8>,
}

impl View for PublicKey {
    type V = Seq<u8>;

    closed spec fn view(&self) -> Seq<u8> {
        self.pkcs1@
    }
}

/// Whether the library takes `der` for a public key: the bytes are laid out
/// as a PKCS#1 public key, and the RSA library reads a key from them.
pub open spec fn is_public_key(der: Seq<u8>) -> bool {
    public_key_layout(der) && rsa_public_key_parses(der)
}

/// The public key that a PEM text holds. The block is tagged `PUBLIC KEY`,
/// and its content is a PKCS#1 key.
pub open spec fn public_key_of_pem(text: Seq<char>) -> Result<Seq<u8>, KeyFormatError> {
    match pem_block_of(encode_utf8(text)) {
        None => Err(KeyFormatError::MalformedPem),
        Some((tag, contents)) => if tag != "PUBLIC KEY"@ {
            Err(KeyFormatError::WrongTag)
        } else if !is_public_key(contents) {
            Err(KeyFormatError::InvalidPkcs1)
        } else {
            Ok(contents)
        },
    }
}

/// The view of a public key that may have failed to be read.
pub open spec fn public_key_view(key: Result<PublicKey, KeyFormatError>) -> Result<
    Seq<u8>,
    KeyFormatError,
> {
    match key {
        Ok(k) => Ok(k@),
        Err(e) => Err(e),
    }
}

impl PublicKey {
    #[verifier::type_invariant]
    spec fn well_formed(self) -> bool {
        is_public_key(self.pkcs1@)
    }

    /// Takes a key from its PKCS#1 encoding.
    pub fn from_pkcs1(der: Vec<u8>) -> (r: Result<PublicKey, KeyFormatError>)
        ensures
            match r {
                Ok(key) => is_public_key(der@) && key@ == der@,
                Err(e) => !is_public_key(der@) && e == KeyFormatError::InvalidPkcs1,
            },
    {
        if is_public_key_layout(der.as_slice()) && public_key_parses(der.as_slice()) {
            Ok(PublicKey { pkcs1: der })
        } else {
            Err(KeyFormatError::InvalidPkcs1)
        }
    }

    /// Reads a key from a PEM block tagged `PUBLIC KEY`.
    pub fn from_pem(text: &str) -> (r: Result<PublicKey, KeyFormatError>)
        ensures
            public_key_view(r) == public_key_of_pem(text@),
    {
        match pem_parse(text.as_bytes()) {
            None => Err(KeyFormatError::MalformedPem),
            Some((tag, contents)) => {
                if !str_eq(tag.as_str(), "PUBLIC KEY") {
                    Err(KeyFormatError::WrongTag)
                } else {
                    PublicKey::from_pkcs1(contents)
                }
            },
        }
    }

    /// The PKCS#1 encoding of this key, which the library takes for a public
    /// key.
    pub fn as_pkcs1(&self) -> (r: &[u8])
        ensures
            r@ == self@,
            is_public_key(self@),
    {
        proof {
            use_type_invariant(self);
        }
        self.pkcs1.as_slice()
    }

    /// Writes this key as a PEM block tagged `PUBLIC KEY`.
    pub fn to_pem(&self) -> (r: String)
        ensures
            r@ == pem_text_of("PUBLIC KEY"@, self@),
    {
        pem_encode("PUBLIC KEY", self.pkcs1.as_slice())
    }

    /// Whether this key accepts `signature` for `digest`.
    pub fn accepts(&self, digest: &[u8], signature: &[u8]) -> (r: bool)
        ensures
            r == rsa_accepts(self@, digest@, signature@),
    {
        proof {
            use_type_invariant(self);
        }
        verify_signature(self.pkcs1.as_slice(), digest, signature)
    }
}

impl Clone for PublicKey {
    fn clone(&self) -> (r: PublicKey)
        ensures
            r@ == self@,
    {
        proof {
            use_type_invariant(self);
        }
        PublicKey { pkcs1: self.pkcs1.clone() }
    }
}

/// A private RSA key, held as its PKCS#1 encoding together with its public
/// half. It has no `Debug`, so that it is not printed by accident.
pub struct PrivateKey {
    pkcs1: Vec<u8>,
    public: PublicKey,
}

/// The length of a SHA-256 digest, in bytes.
pub const DIGEST_BYTES: usize = 32;

/// The size of the keys that the command-line tool makes, in bits.
pub const KEY_BITS: usize = 2048;

/// The smallest key that the library makes, in bits. A key much below it
/// has no room for the padding and a SHA-256 digest.
pub const MIN_KEY_BITS: usize = 512;

/// The largest key that the library makes, in bits.
pub const MAX_KEY_BITS: usize = 16_384;

/// The public half of the private key that `der` encodes, where the library
/// takes `der` for a private key: the bytes are laid out as a PKCS#1
/// private key, the RSA library reads the key, and the library takes its
/// public half for a public key.
pub open spec fn private_key_of_pkcs1(der: Seq<u8>) -> Option<Seq<u8>> {
    if !private_key_layout(der) {
        None
    } else {
        match rsa_public_of(der) {
            Some(public) => if is_public_key(public) {
                Some(public)
            } else {
                None
            },
            None => None,
        }
    }
}

/// The private key that a PEM text holds, as its PKCS#1 encoding. The block
/// is tagged `PRIVATE KEY`, and its content is a PKCS#1 key.
pub open spec fn private_key_of_pem(text: Seq<char>) -> Result<Seq<u8>, KeyFormatError> {
    match pem_block_of(encode_utf8(text)) {
        None => Err(KeyFormatError::MalformedPem),
        Some((tag, contents)) => if tag != "PRIVATE KEY"@ {
            Err(KeyFormatError::WrongTag)
        } else if private_key_of_pkcs1(contents) is None {
            Err(KeyFormatError::InvalidPkcs1)
        } else {
            Ok(contents)
        },
    }
}

/// The encoding of a private key that may have failed to be read.
pub open spec fn private_key_view(key: Result<PrivateKey, KeyFormatError>) -> Result<
    Seq<u8>,
    KeyFormatError,
> {
    match key {
        Ok(k) => Ok(k.der()),
        Err(e) => Err(e),
    }
}

/// A private key as a mathematical value: its PKCS#1 encoding and that of
/// its public half.
pub struct PrivateKeyView {
    pub pkcs1: Seq<u8>,
    pub public: Seq<u8>,
}

impl View for PrivateKey {
    type V = PrivateKeyView;

    closed spec fn view(&self) -> PrivateKeyView {
        PrivateKeyView { pkcs1: self.pkcs1@, public: self.public@ }
    }
}

impl PrivateKey {
    #[verifier::type_invariant]
    spec fn well_formed(self) -> bool {
        private_key_of_pkcs1(self.pkcs1@) == Some(self.public@)
    }

    /// The PKCS#1 encoding of this key.
    pub open spec fn der(&self) -> Seq<u8> {
        self@.pkcs1
    }

    /// The PKCS#1 encoding of the public half of this key.
    pub open spec fn public_der(&self) -> Seq<u8> {
        self@.public
    }

    /// Takes a key from its PKCS#1 encoding.
    pub fn from_pkcs1(der: Vec<u8>) -> (r: Result<PrivateKey, KeyFormatError>)
        ensures
            match r {
                Ok(key) => key.der() == der@ && private_key_of_pkcs1(der@) == Some(
                    key.public_der(),
                ),
                Err(e) => private_key_of_pkcs1(der@) is None && e == KeyFormatError::InvalidPkcs1,
            },
    {
        if !is_private_key_layout(der.as_slice()) {
            return Err(KeyFormatError::InvalidPkcs1);
        }
        match public_half(der.as_slice()) {
            None => Err(KeyFormatError::InvalidPkcs1),
            Some(public_der) => match PublicKey::from_pkcs1(public_der) {
                Err(e) => Err(e),
                Ok(public) => Ok(PrivateKey { pkcs1: der, public }),
            },
        }
    }

    /// Reads a key from a PEM block tagged `PRIVATE KEY`.
    pub fn from_pem(text: &str) -> (r: Result<PrivateKey, KeyFormatError>)
        ensures
            private_key_view(r) == private_key_of_pem(text@),
    {
        match pem_parse(text.as_bytes()) {
            None => Err(KeyFormatError::MalformedPem),
            Some((tag, contents)) => {
                if !str_eq(tag.as_str(), "PRIVATE KEY") {
                    Err(KeyFormatError::WrongTag)
                } else {
                    PrivateKey::from_pkcs1(contents)
                }
            },
        }
    }

    /// Takes the key that the RSA library made when it was asked for a key
    /// of `bits` bits. The key is taken where the library takes its bytes
    /// for a private key and its modulus has exactly `bits` bits.
    pub fn from_generated(der: Vec<u8>, bits: usize) -> (r: Option<PrivateKey>)
        ensures
            match r {
                Some(key) => {
                    &&& key.der() == der@
                    &&& private_key_of_pkcs1(der@) == Some(key.public_der())
                    &&& private_key_bits(der@) == bits
                },
                None => private_key_of_pkcs1(der@) is None || private_key_bits(der@) != bits,
            },
    {
        if private_key_size(der.as_slice()) != bits {
            return None;
        }
        match PrivateKey::from_pkcs1(der) {
            Ok(key) => Some(key),
            Err(_) => None,
        }
    }

    /// Makes a new key of `bits` bits from the random numbers of the
    /// operating system. A key that comes back is one that the library
    /// takes for a private key, and its modulus has exactly `bits` bits.
    /// `None` where `bits` is not between `MIN_KEY_BITS` and `MAX_KEY_BITS`,
    /// where the RSA library fails, or where it makes a key of another size
    /// or one that the library does not take.
    pub fn generate(bits: usize) -> (r: Option<PrivateKey>)
        ensures
            !(512 <= bits <= 16_384) ==> r is None,
            r matches Some(key) ==> {
                &&& private_key_of_pkcs1(key.der()) == Some(key.public_der())
                &&& private_key_bits(key.der()) == bits
            },
    {
        if bits < MIN_KEY_BITS || bits > MAX_KEY_BITS {
            return None;
        }
        let der = generate_private_key(bits)?;
        PrivateKey::from_generated(der, bits)
    }

    /// The PKCS#1 encoding of this key.
    pub fn as_pkcs1(&self) -> (r: &[u8])
        ensures
            r@ == self.der(),
    {
        self.pkcs1.as_slice()
    }

    /// The public half of this key.
    pub fn public_key(&self) -> (r: PublicKey)
        ensures
            r@ == self.public_der(),
            private_key_of_pkcs1(self.der()) == Some(r@),
    {
        proof {
            use_type_invariant(self);
        }
        self.public.clone()
    }

    /// Writes this key as a PEM block tagged `PRIVATE KEY`.
    pub fn to_pem(&self) -> (r: String)
        ensures
            r@ == pem_text_of("PRIVATE KEY"@, self.der()),
    {
        pem_encode("PRIVATE KEY", self.pkcs1.as_slice())
    }

    /// Signs a SHA-256 digest. A digest of another length than
    /// `DIGEST_BYTES` is not signed. For a digest of that length the RSA
    /// primitive decides, and a signature that comes back is one that the
    /// public half of this key accepts for the digest.
    pub fn sign_digest(&self, digest: &[u8]) -> (r: Option<Vec<u8>>)
        ensures
            digest@.len() != 32 ==> r is None,
            r matches Some(signature) ==> rsa_accepts(self.public_der(), digest@, signature@),
    {
        proof {
            use_type_invariant(self);
        }
        if digest.len() != DIGEST_BYTES {
            return None;
        }
        sign_digest(self.pkcs1.as_slice(), digest)
    }
}

/// The public keys that signatures are checked against, in the order in
/// which they were added.
#[derive(Debug)]
pub struct KeyStore {
    keys: Vec<PublicKey>,
}

impl View for KeyStore {
    type V = Seq<Seq<u8>>;

    closed spec fn view(&self) -> Seq<Seq<u8>> {
        Seq::new(self.keys@.len(), |i: int| self.keys@[i]@)
    }
}

/// The public key that ships with the library, as PEM text.
pub const EMBEDDED_KEY_PEM: &'static str = "-----BEGIN PUBLIC KEY-----\n\
MIIBCgKCAQEAtHhBNA9J7mh301CMP4Hfvv0OLMWDG3FjwR9nUAg3z5SFYnUz4tnP\n\
NB7gDFNXUIUpetKUyyoAwAWwQsu4/zt9XDg6G25jiHZ/inEfI3xQV2tUhJm+zVLg\n\
7RCUpVjbUZthaIhGyYm0Oa/Lqa8q/hInqP/Hlvgga+yfBurrYyhdaJFWpgF/m2ha\n\
yFgEEE/427F/BP/qNfJN+v/ojtsJMM81/jGWH6Tm0bxoWa5nQPsGF7h0MjLc5pYp\n\
NOrioO8lNSNu1Fz8cYwATxmdgA+0scS/pXyNcP1U9ELjpUAXaUdhthViQ4d5hXj2\n\
48DoltWJYg1Vgjj2eeYKr7JiJjrXlZoaFwIDAQAB\n\
-----END PUBLIC KEY-----";

/// The keys of the store that ships with the library: the embedded key,
/// where it reads as a public key.
pub open spec fn embedded_keys() -> Seq<Seq<u8>> {
    match public_key_of_pem(EMBEDDED_KEY_PEM@) {
        Ok(key) => seq![key],
        Err(_) => Seq::empty(),
    }
}

/// Whether some key of `keys` accepts `signature` for `digest`.
pub open spec fn some_key_accepts(keys: Seq<Seq<u8>>, digest: Seq<u8>, signature: Seq<u8>) -> bool {
    exists|i: int| 0 <= i < keys.len() && rsa_accepts(#[trigger] keys[i], digest, signature)
}

impl KeyStore {
    /// A store without keys.
    pub fn new() -> (r: KeyStore)
        ensures
            r@ == Seq::<Seq<u8>>::empty(),
    {
        let r = KeyStore { keys: Vec::new() };
        assert(r@ =~= Seq::<Seq<u8>>::empty());
        r
    }

    /// The store that ships with the library.
    pub fn embedded() -> (r: KeyStore)
        ensures
            r@ == embedded_keys(),
    {
        let mut store = KeyStore::new();
        match PublicKey::from_pem(EMBEDDED_KEY_PEM) {
            Ok(key) => {
                store.add(key);
                assert(store@ =~= embedded_keys());
            },
            Err(_) => {},
        }
        store
    }

    /// The number of keys in the store.
    pub fn len(&self) -> (r: usize)
        ensures
            r == self@.len(),
    {
        self.keys.len()
    }

    /// Adds a key behind those that the store holds.
    pub fn add(&mut self, key: PublicKey)
        ensures
            final(self)@ == old(self)@.push(key@),
    {
        self.keys.push(key);
        assert(self@ =~= old(self)@.push(key@));
    }

    /// The key at position `index`, if the store holds that many keys.
    pub fn get(&self, index: usize) -> (r: Option<&PublicKey>)
        ensures
            match r {
                Some(key) => index < self@.len() && key@ == self@[index as int],
                None => index >= self@.len(),
            },
    {
        if index < self.keys.len() {
            Some(&self.keys[index])
        } else {
            None
        }
    }

    /// Tries the keys in store order and stops at the first that accepts
    /// `signature` for `digest`.
    pub fn accepts(&self, digest: &[u8], signature: &[u8]) -> (r: bool)
        ensures
            r == some_key_accepts(self@, digest@, signature@),
    {
        let mut i: usize = 0;
        while i < self.keys.len()
            invariant
                i <= self.keys@.len(),
                self@.len() == self.keys@.len(),
                forall|j: int| 0 <= j < i ==> !rsa_accepts(#[trigger] self@[j], digest@, signature@),
            decreases self.keys@.len() - i,
        {
            if self.keys[i].accepts(digest, signature) {
                assert(self@[i as int] == self.keys@[i as int]@);
                return true;
            }
            i += 1;
        }
        false
    }
}

} // verus!
