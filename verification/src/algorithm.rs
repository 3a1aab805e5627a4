//! The algorithms that a key's policy can permit.

use vstd::prelude::*;

verus! {

/// Hash algorithms.
#[derive(Copy, Clone, Debug, PartialEq, Eq, Structural)]
pub enum Hash {
    Md2,
    Md4,
    Md5,
    Ripemd160,
    Sha1,
    Sha224,
    Sha256,
    Sha384,
    Sha512,
    Sha512_224,
    Sha512_256,
    Sha3_224,
    Sha3_256,
    Sha3_384,
    Sha3_512,
}

/// MAC algorithms at their full output length.
#[derive(Copy, Clone, Debug, PartialEq, Eq, Structural)]
pub enum FullLengthMac {
    /// HMAC over the given hash.
    Hmac { hash_alg: Hash },
    /// CBC-MAC over a block cipher.
    CbcMac,
    /// CMAC over a block cipher.
    Cmac,
}

/// MAC algorithms, full or truncated.
#[derive(Copy, Clone, Debug, PartialEq, Eq, Structural)]
pub enum Mac {
    /// The MAC at its full length.
    FullLength(FullLengthMac),
    /// The MAC cut to `mac_length` bytes.
    Truncated { mac_alg: FullLengthMac, mac_length: usize },
}

/// Unauthenticated cipher modes.
#[derive(Copy, Clone, Debug, PartialEq, Eq, Structural)]
pub enum Cipher {
    StreamCipher,
    Ctr,
    Cfb,
    Ofb,
    Xts,
    EcbNoPadding,
    CbcNoPadding,
    CbcPkcs7,
}

/// AEAD algorithms with their default tag length.
#[derive(Copy, Clone, Debug, PartialEq, Eq, Structural)]
pub enum AeadWithDefaultLengthTag {
    Ccm,
    Gcm,
    Chacha20Poly1305,
}

/// AEAD algorithms, with the default or a shortened tag.
#[derive(Copy, Clone, Debug, PartialEq, Eq, Structural)]
pub enum Aead {
    /// The algorithm with its default tag length.
    AeadWithDefaultLengthTag(AeadWithDefaultLengthTag),
    /// The algorithm with a tag of `tag_length` bytes.
    AeadWithShortenedTag { aead_alg: AeadWithDefaultLengthTag, tag_length: usize },
}

/// The hash that a signature algorithm signs.
#[derive(Copy, Clone, Debug, PartialEq, Eq, Structural)]
pub enum SignHash {
    /// One given hash.
    Specific(Hash),
    /// Any hash; only meaningful in a policy.
    Any,
}

/// Asymmetric signature algorithms.
#[derive(Copy, Clone, Debug, PartialEq, Eq, Structural)]
pub enum AsymmetricSignature {
    RsaPkcs1v15Sign { hash_alg: SignHash },
    RsaPkcs1v15SignRaw,
    RsaPss { hash_alg: SignHash },
    /// Randomised ECDSA.
    Ecdsa { hash_alg: SignHash },
    /// ECDSA on a hash that the caller computed by any means.
    EcdsaAny,
    /// Deterministic ECDSA (RFC 6979).
    DeterministicEcdsa { hash_alg: SignHash },
}

/// Asymmetric encryption algorithms.
#[derive(Copy, Clone, Debug, PartialEq, Eq, Structural)]
pub enum AsymmetricEncryption {
    RsaPkcs1v15Crypt,
    RsaOaep { hash_alg: Hash },
}

/// Key agreement algorithms without derivation.
#[derive(Copy, Clone, Debug, PartialEq, Eq, Structural)]
pub enum RawKeyAgreement {
    /// Finite-field Diffie-Hellman.
    Ffdh,
    /// Elliptic-curve Diffie-Hellman.
    Ecdh,
}

/// Key derivation algorithms.
#[derive(Copy, Clone, Debug, PartialEq, Eq, Structural)]
pub enum KeyDerivation {
    Hkdf { hash_alg: Hash },
    Tls12Prf { hash_alg: Hash },
    Tls12PskToMs { hash_alg: Hash },
}

/// Key agreement algorithms.
#[derive(Copy, Clone, Debug, PartialEq, Eq, Structural)]
pub enum KeyAgreement {
    /// The shared secret is used as it is.
    Raw(RawKeyAgreement),
    /// The shared secret is fed to a key derivation.
    WithKeyDerivation { ka_alg: RawKeyAgreement, kdf_alg: KeyDerivation },
}

/// Any algorithm that a key's policy can permit.
#[derive(Copy, Clone, Debug, PartialEq, Eq, Structural)]
pub enum Algorithm {
    /// No algorithm is permitted.
    NoAlgorithm,
    Hash(Hash),
    Mac(Mac),
    Cipher(Cipher),
    Aead(Aead),
    AsymmetricSignature(AsymmetricSignature),
    AsymmetricEncryption(AsymmetricEncryption),
    KeyAgreement(KeyAgreement),
    KeyDerivation(KeyDerivation),
}

impl Mac {
    /// The MAC algorithm with any truncation set aside.
    pub open spec fn full_length(self) -> FullLengthMac {
        match self {
            Mac::FullLength(mac_alg) => mac_alg,
            Mac::Truncated { mac_alg, .. } => mac_alg,
        }
    }
}

impl Aead {
    /// The AEAD algorithm with any shortening of the tag set aside.
    pub open spec fn default_length(self) -> AeadWithDefaultLengthTag {
        match self {
            Aead::AeadWithDefaultLengthTag(aead_alg) => aead_alg,
            Aead::AeadWithShortenedTag { aead_alg, .. } => aead_alg,
        }
    }
}

impl KeyAgreement {
    /// The agreement algorithm with any derivation step set aside.
    pub open spec fn raw(self) -> RawKeyAgreement {
        match self {
            KeyAgreement::Raw(ka_alg) => ka_alg,
            KeyAgreement::WithKeyDerivation { ka_alg, .. } => ka_alg,
        }
    }
}

impl Algorithm {
    /// Plain SHA-256.
    pub open spec fn is_sha256(self) -> bool {
        self == Algorithm::Hash(Hash::Sha256)
    }

    /// HMAC over SHA-256, truncated or not.
    pub open spec fn is_hmac_sha256(self) -> bool {
        self matches Algorithm::Mac(mac)
            && mac.full_length() == (FullLengthMac::Hmac { hash_alg: Hash::Sha256 })
    }

    /// CBC-MAC or CMAC, truncated or not.
    pub open spec fn is_block_cipher_mac(self) -> bool {
        self matches Algorithm::Mac(mac)
            && (mac.full_length() == FullLengthMac::CbcMac
            || mac.full_length() == FullLengthMac::Cmac)
    }

    /// One of the cipher modes CBC-PKCS7, CTR, CFB and OFB.
    pub open spec fn is_block_cipher_mode(self) -> bool {
        self matches Algorithm::Cipher(cipher)
            && (cipher == Cipher::CbcPkcs7 || cipher == Cipher::Ctr
            || cipher == Cipher::Cfb || cipher == Cipher::Ofb)
    }

    /// CCM or GCM, with the default or a shortened tag.
    pub open spec fn is_block_cipher_aead(self) -> bool {
        self matches Algorithm::Aead(aead)
            && (aead.default_length() == AeadWithDefaultLengthTag::Ccm
            || aead.default_length() == AeadWithDefaultLengthTag::Gcm)
    }

    /// Randomised ECDSA on SHA-256 and on nothing else.
    pub open spec fn is_ecdsa_sha256(self) -> bool {
        self == Algorithm::AsymmetricSignature(
            AsymmetricSignature::Ecdsa { hash_alg: SignHash::Specific(Hash::Sha256) },
        )
    }

    /// Deterministic ECDSA, whatever it signs.
    pub open spec fn is_deterministic_ecdsa(self) -> bool {
        self matches Algorithm::AsymmetricSignature(signature)
            && signature is DeterministicEcdsa
    }

    /// ECDH, with or without a key derivation after it.
    pub open spec fn is_ecdh(self) -> bool {
        self matches Algorithm::KeyAgreement(agreement) && agreement.raw() == RawKeyAgreement::Ecdh
    }
}

} // verus!
