//! The software side: the description of a key that no hardware shapes.

use vstd::prelude::*;
use crate::algorithm::Algorithm;

verus! {

/// Where a key lives and for how long.
#[derive(Copy, Clone, Debug, PartialEq, Eq, Structural)]
pub enum Lifetime {
    /// Gone when the application ends.
    Volatile,
    /// Kept in the default persistent storage.
    Persistent,
    /// Implementation-defined.
    Custom(u32),
}

/// Families of elliptic curves.
#[derive(Copy, Clone, Debug, PartialEq, Eq, Structural)]
pub enum EccFamily {
    SecpK1,
    SecpR1,
    SecpR2,
    SectK1,
    SectR1,
    SectR2,
    BrainpoolPR1,
    Frp,
    Montgomery,
}

/// Families of Diffie-Hellman groups.
#[derive(Copy, Clone, Debug, PartialEq, Eq, Structural)]
pub enum DhFamily {
    Rfc7919,
}

/// The type of a key.
#[derive(Copy, Clone, Debug, PartialEq, Eq, Structural)]
pub enum Type {
    /// Opaque data, not a key.
    RawData,
    Hmac,
    /// A secret for key derivation.
    Derive,
    Aes,
    Des,
    Camellia,
    Arc4,
    Chacha20,
    RsaPublicKey,
    RsaKeyPair,
    EccKeyPair { curve_family: EccFamily },
    EccPublicKey { curve_family: EccFamily },
    DhKeyPair { group_family: DhFamily },
    DhPublicKey { group_family: DhFamily },
}

/// What a key may be used for.
#[derive(Copy, Clone, Debug, PartialEq, Eq, Structural)]
pub struct UsageFlags {
    /// The key may be exported.
    pub export: bool,
    /// The key may be copied.
    pub copy: bool,
    /// The key may be cached.
    pub cache: bool,
    /// The key may encrypt a message.
    pub encrypt: bool,
    /// The key may decrypt a message.
    pub decrypt: bool,
    /// The key may sign a message.
    pub sign_message: bool,
    /// The key may verify the signature of a message.
    pub verify_message: bool,
    /// The key may sign a hash.
    pub sign_hash: bool,
    /// The key may verify the signature of a hash.
    pub verify_hash: bool,
    /// Other keys may be derived from the key.
    pub derive: bool,
}

/// The usage policy of a key.
#[derive(Copy, Clone, Debug, PartialEq, Eq, Structural)]
pub struct Policy {
    /// What the key may be used for.
    pub usage_flags: UsageFlags,
    /// The one algorithm that the key may be used with.
    pub permitted_algorithms: Algorithm,
}

/// The attributes of a key.
#[derive(Copy, Clone, Debug, PartialEq, Eq, Structural)]
pub struct Attributes {
    /// Where the key lives.
    pub lifetime: Lifetime,
    /// The type of the key.
    pub key_type: Type,
    /// The size of the key in bits.
    pub bits: usize,
    /// The usage policy of the key.
    pub policy: Policy,
}

impl Type {
    /// An elliptic-curve key, pair or public, on a SEC random curve over a
    /// prime field.
    pub open spec fn is_secp_r1(self) -> bool {
        self == (Type::EccKeyPair { curve_family: EccFamily::SecpR1 })
            || self == (Type::EccPublicKey { curve_family: EccFamily::SecpR1 })
    }

    /// A public elliptic-curve or Diffie-Hellman key. A key of one of these
    /// types holds nothing private.
    pub open spec fn is_public_part(self) -> bool {
        self is EccPublicKey || self is DhPublicKey
    }
}

impl UsageFlags {
    /// The key's material may leave the slot.
    pub open spec fn lets_key_out(self) -> bool {
        self.export || self.copy
    }

    /// The key may produce signatures.
    pub open spec fn signs(self) -> bool {
        self.sign_hash || self.sign_message
    }
}

} // verus!
