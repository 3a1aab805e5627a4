//! What it means for a key to fit a slot.
//!
//! Three independent rules decide it: the slot's hardware type must be able
//! to host the key's type, the slot must allow what the key's usage flags
//! ask for, and the chip must be capable of the key's permitted algorithm on
//! that slot. Each rule is stated here as a predicate on a slot's
//! configuration; the executable checks of the slot entity are proved equal
//! to them, and the facts that follow the predicates are proved of them.

use vstd::prelude::*;
use crate::algorithm::Algorithm;
use crate::attributes::{Attributes, Type};
use crate::hardware::{KeyType, SlotConfig};

verus! {

/// The one hardware type that can host a key of the given type. HMAC keys
/// are not tied to a hardware type and have no entry, nor have the types
/// that this family of chips does not support.
pub open spec fn hosting_key_type(key_type: Type) -> Option<KeyType> {
    if key_type is RawData {
        Some(KeyType::ShaOrText)
    } else if key_type is Aes {
        Some(KeyType::Aes)
    } else if key_type.is_secp_r1() {
        Some(KeyType::P256EccKey)
    } else {
        None
    }
}

impl SlotConfig {
    /// The slot can store a key of this type and size. An HMAC key goes into
    /// any slot that allows MAC use; every other type needs its hosting
    /// hardware type, and a P-256 slot takes 256-bit keys only.
    pub open spec fn hosts_key_type(self, key_attr: Attributes) -> bool {
        if key_attr.key_type is Hmac {
            !self.no_mac
        } else {
            &&& hosting_key_type(key_attr.key_type) == Some(self.key_type)
            &&& self.key_type == KeyType::P256EccKey ==> key_attr.bits == 256
        }
    }

    /// A key of this type may leave the slot. Only a P-256 slot restricts
    /// this: it must publish its contents, and the key must be a public one.
    pub open spec fn lets_out(self, key_type: Type) -> bool {
        self.key_type == KeyType::P256EccKey ==> self.pub_info && key_type.is_public_part()
    }

    /// The slot can sign: it is a P-256 slot that holds a private key.
    pub open spec fn can_sign(self) -> bool {
        self.key_type == KeyType::P256EccKey && self.ecc_key_attr.is_private
    }

    /// The slot allows all that the key's usage flags ask for. Flags other
    /// than export, copy and the two signing flags ask nothing of a slot.
    pub open spec fn allows_usage(self, key_attr: Attributes) -> bool {
        &&& key_attr.policy.usage_flags.lets_key_out() ==> self.lets_out(key_attr.key_type)
        &&& key_attr.policy.usage_flags.signs() ==> self.can_sign()
    }

    /// The chip can run the algorithm on this slot. An algorithm that no
    /// line names is not supported on any slot.
    pub open spec fn supports_algorithm(self, alg: Algorithm) -> bool {
        ||| alg.is_sha256()
        ||| alg.is_hmac_sha256() && !self.no_mac && self.key_type != KeyType::P256EccKey
                && !self.ecc_key_attr.is_private
        ||| alg.is_block_cipher_mac() && !self.no_mac && self.key_type == KeyType::Aes
        ||| alg.is_block_cipher_mode() && self.key_type == KeyType::Aes
        ||| alg.is_block_cipher_aead() && self.key_type == KeyType::Aes
        ||| alg.is_ecdsa_sha256() && self.is_secret && self.can_sign()
        ||| alg.is_ecdh() && self.key_type == KeyType::P256EccKey
    }

    /// The key described by `key_attr` can legally live in this slot.
    pub open spec fn accepts(self, key_attr: Attributes) -> bool {
        &&& self.hosts_key_type(key_attr)
        &&& self.allows_usage(key_attr)
        &&& self.supports_algorithm(key_attr.policy.permitted_algorithms)
    }
}

/// The hosting rule read by software key type: a key is hosted exactly in
/// the four listed cases, so no other pair of key type and hardware type is
/// ever accepted.
pub proof fn hosted_pairs(config: SlotConfig, key_attr: Attributes)
    ensures
        config.hosts_key_type(key_attr) <==> {
            ||| key_attr.key_type is RawData && config.key_type == KeyType::ShaOrText
            ||| key_attr.key_type is Hmac && !config.no_mac
            ||| key_attr.key_type is Aes && config.key_type == KeyType::Aes
            ||| key_attr.key_type.is_secp_r1() && key_attr.bits == 256 && config.key_type
                == KeyType::P256EccKey
        },
{
}

/// Derivation keys and Diffie-Hellman keys fit no slot, and a reserved slot
/// hosts nothing but an HMAC key.
pub proof fn unhosted_key_types(config: SlotConfig, key_attr: Attributes)
    ensures
        key_attr.key_type is Derive || key_attr.key_type is DhKeyPair
            || key_attr.key_type is DhPublicKey ==> !config.hosts_key_type(key_attr),
        config.key_type == KeyType::Rfu && config.hosts_key_type(key_attr)
            ==> key_attr.key_type is Hmac,
{
}

/// Export or copy from a P-256 slot is never accepted unless the slot
/// publishes its contents and the key is a public one.
pub proof fn export_from_p256_needs(config: SlotConfig, key_attr: Attributes)
    requires
        config.key_type == KeyType::P256EccKey,
        key_attr.policy.usage_flags.lets_key_out(),
    ensures
        config.allows_usage(key_attr) ==> config.pub_info && key_attr.key_type.is_public_part(),
{
}

/// Export or copy from a P-256 slot is accepted exactly when the slot
/// publishes its contents and the key is a public one, whatever the other
/// flags say. Left out is the key that also asks to sign on a slot that
/// holds no private key: the signing rule turns it down.
pub proof fn export_from_p256(config: SlotConfig, key_attr: Attributes)
    requires
        config.key_type == KeyType::P256EccKey,
        key_attr.policy.usage_flags.lets_key_out(),
        key_attr.policy.usage_flags.signs() ==> config.ecc_key_attr.is_private,
    ensures
        config.allows_usage(key_attr) <==> config.pub_info && key_attr.key_type.is_public_part(),
{
}

/// Signing is accepted only on a P-256 slot that holds a private key, so
/// every slot of another type rejects a key that asks for it, whatever else
/// the slot or the key says.
pub proof fn signing_needs_private_p256(config: SlotConfig, key_attr: Attributes)
    requires
        key_attr.policy.usage_flags.signs(),
    ensures
        config.allows_usage(key_attr) ==> config.key_type == KeyType::P256EccKey
            && config.ecc_key_attr.is_private,
        config.key_type != KeyType::P256EccKey ==> !config.allows_usage(key_attr),
{
}

/// A key that asks neither to leave the slot nor to sign is allowed on any
/// slot.
pub proof fn other_flags_unconstrained(config: SlotConfig, key_attr: Attributes)
    requires
        !key_attr.policy.usage_flags.lets_key_out(),
        !key_attr.policy.usage_flags.signs(),
    ensures
        config.allows_usage(key_attr),
{
}

/// HMAC over SHA-256 is supported exactly on a slot that allows MAC use, is
/// no P-256 slot and holds no private ECC key.
pub proof fn hmac_sha256_support(config: SlotConfig, alg: Algorithm)
    requires
        alg.is_hmac_sha256(),
    ensures
        config.supports_algorithm(alg) <==> !config.no_mac && config.key_type
            != KeyType::P256EccKey && !config.ecc_key_attr.is_private,
{
}

/// Deterministic ECDSA and asymmetric encryption are supported on no slot.
pub proof fn never_supported(config: SlotConfig, alg: Algorithm)
    requires
        alg.is_deterministic_ecdsa() || alg is AsymmetricEncryption,
    ensures
        !config.supports_algorithm(alg),
{
}

} // verus!
