//! The slot entity: one physical slot, its status and its claim guard.

use vstd::prelude::*;
use crate::algorithm;
use crate::algorithm::{
    Aead, AeadWithDefaultLengthTag, Algorithm, AsymmetricSignature, Cipher, FullLengthMac,
    KeyAgreement, Mac, RawKeyAgreement, SignHash,
};
use crate::attributes::{Attributes, EccFamily, Type};
use crate::hardware::{KeyType, SlotConfig};

verus! {

/// Software-visible lifecycle status of a hardware slot.
#[derive(Copy, Clone, Debug, PartialEq, Eq, Structural)]
pub enum KeySlotStatus {
    /// Unclaimed, eligible for binding.
    Free,
    /// Claimed by a logical key; can be released back to `Free`.
    Busy,
    /// Permanently protected by the hardware; the status never changes again.
    Locked,
}

/// Why a slot turned a request down.
#[derive(Copy, Clone, Debug, PartialEq, Eq, Structural)]
pub enum SlotError {
    /// The slot's hardware configuration cannot satisfy the key attributes.
    NotSupported,
    /// The status of the slot may not be changed as requested.
    NotPermitted,
}

/// One hardware slot.
#[derive(Copy, Clone, Debug)]
pub struct AteccKeySlot {
    /// Diagnostic field: the number of logical keys that point at this slot.
    /// The slot itself only ever moves it from zero to one.
    pub ref_count: u8,
    /// Slot status.
    pub status: KeySlotStatus,
    /// Hardware configuration of the slot.
    pub config: SlotConfig,
}

impl KeySlotStatus {
    /// A change from this status to `requested` is permitted. Nothing leads
    /// out of `Locked`, and nothing leads into it by this path.
    pub open spec fn may_become(self, requested: KeySlotStatus) -> bool {
        self != KeySlotStatus::Locked && requested != KeySlotStatus::Locked
    }

    /// The status after a request for `requested`, granted or not.
    pub open spec fn after_request(self, requested: KeySlotStatus) -> KeySlotStatus {
        if self.may_become(requested) {
            requested
        } else {
            self
        }
    }

    /// The status after a series of requests, made in order.
    pub open spec fn after_requests(self, requested: Seq<KeySlotStatus>) -> KeySlotStatus
        decreases requested.len(),
    {
        if requested.len() == 0 {
            self
        } else {
            self.after_request(requested[0]).after_requests(requested.drop_first())
        }
    }
}

impl AteccKeySlot {
    /// A fresh slot: unclaimed, free, with nothing provisioned.
    pub open spec fn fresh() -> AteccKeySlot {
        AteccKeySlot {
            ref_count: 0,
            status: KeySlotStatus::Free,
            config: SlotConfig::unprovisioned(),
        }
    }

    /// No logical key has claimed the slot.
    pub open spec fn unclaimed(self) -> bool {
        self.ref_count == 0
    }

    /// The slot after an attempt to claim it: claimed if it was not, left as
    /// it was otherwise.
    pub open spec fn after_claim(self) -> AteccKeySlot {
        if self.unclaimed() {
            AteccKeySlot { ref_count: 1, ..self }
        } else {
            self
        }
    }

    /// The slot after `attempts` attempts to claim it.
    pub open spec fn after_claims(self, attempts: nat) -> AteccKeySlot
        decreases attempts,
    {
        if attempts == 0 {
            self
        } else {
            self.after_claim().after_claims((attempts - 1) as nat)
        }
    }

    /// Checks whether the key described by `key_attr` can be bound to this
    /// slot. A key that does not fit is an ordinary outcome of a search over
    /// slots, reported as `NotSupported`.
    pub fn key_attr_vs_config(&self, key_attr: &Attributes) -> (result: Result<(), SlotError>)
        ensures
            result is Ok <==> self.config.accepts(*key_attr),
            result is Err ==> result == Err::<(), SlotError>(SlotError::NotSupported),
    {
        if !self.is_key_type_ok(key_attr) {
            return Err(SlotError::NotSupported);
        }
        if !self.is_usage_flags_ok(key_attr) {
            return Err(SlotError::NotSupported);
        }
        if !self.is_permitted_algorithms_ok(key_attr) {
            return Err(SlotError::NotSupported);
        }
        Ok(())
    }

    /// Requests a new status for the slot. A locked slot stays locked, and
    /// no slot becomes locked by this path; both requests are answered with
    /// `NotPermitted` and change nothing.
    pub fn set_slot_status(&mut self, status: KeySlotStatus) -> (result: Result<(), SlotError>)
        ensures
            result is Ok <==> old(self).status.may_become(status),
            result is Err ==> result == Err::<(), SlotError>(SlotError::NotPermitted),
            final(self).status == old(self).status.after_request(status),
            final(self).ref_count == old(self).ref_count,
            final(self).config == old(self).config,
    {
        if self.status == KeySlotStatus::Locked {
            return Err(SlotError::NotPermitted);
        }
        match status {
            KeySlotStatus::Locked => Err(SlotError::NotPermitted),
            _ => {
                self.status = status;
                Ok(())
            },
        }
    }

    /// Whether the slot's hardware type can host the key's type and size.
    pub fn is_key_type_ok(&self, key_attr: &Attributes) -> (ok: bool)
        ensures
            ok == self.config.hosts_key_type(*key_attr),
    {
        match key_attr.key_type {
            Type::RawData => self.config.key_type == KeyType::ShaOrText,
            Type::Hmac => !self.config.no_mac,
            Type::Aes => self.config.key_type == KeyType::Aes,
            Type::EccKeyPair { curve_family: EccFamily::SecpR1 }
            | Type::EccPublicKey { curve_family: EccFamily::SecpR1 } => {
                key_attr.bits == 256 && self.config.key_type == KeyType::P256EccKey
            },
            Type::Derive | Type::DhKeyPair { .. } | Type::DhPublicKey { .. } => false,
            _ => false,
        }
    }

    /// Whether the slot allows what the key's usage flags ask for.
    pub fn is_usage_flags_ok(&self, key_attr: &Attributes) -> (ok: bool)
        ensures
            ok == self.config.allows_usage(*key_attr),
    {
        let mut result = true;
        if key_attr.policy.usage_flags.export || key_attr.policy.usage_flags.copy {
            result = match self.config.key_type {
                KeyType::Aes => true,
                KeyType::P256EccKey => {
                    self.config.pub_info && matches!(
                        key_attr.key_type,
                        Type::EccPublicKey { .. } | Type::DhPublicKey { .. }
                    )
                },
                _ => true,
            };
        }
        if !result {
            return false;
        }
        if key_attr.policy.usage_flags.sign_hash || key_attr.policy.usage_flags.sign_message {
            result = self.config.key_type == KeyType::P256EccKey
                && self.config.ecc_key_attr.is_private;
        }
        result
    }

    /// Whether the chip can run the key's permitted algorithm on this slot.
    pub fn is_permitted_algorithms_ok(&self, key_attr: &Attributes) -> (ok: bool)
        ensures
            ok == self.config.supports_algorithm(key_attr.policy.permitted_algorithms),
    {
        match key_attr.policy.permitted_algorithms {
            Algorithm::Hash(algorithm::Hash::Sha256) => true,
            Algorithm::Mac(Mac::Truncated {
                mac_alg: FullLengthMac::Hmac { hash_alg: algorithm::Hash::Sha256 },
                ..
            })
            | Algorithm::Mac(
                Mac::FullLength(FullLengthMac::Hmac { hash_alg: algorithm::Hash::Sha256 }),
            ) => {
                !self.config.no_mac && self.config.key_type != KeyType::P256EccKey
                    && !self.config.ecc_key_attr.is_private
            },
            Algorithm::Mac(Mac::Truncated { mac_alg: FullLengthMac::CbcMac, .. })
            | Algorithm::Mac(Mac::FullLength(FullLengthMac::CbcMac))
            | Algorithm::Mac(Mac::Truncated { mac_alg: FullLengthMac::Cmac, .. })
            | Algorithm::Mac(Mac::FullLength(FullLengthMac::Cmac)) => {
                !self.config.no_mac && self.config.key_type == KeyType::Aes
            },
            Algorithm::Cipher(Cipher::CbcPkcs7)
            | Algorithm::Cipher(Cipher::Ctr)
            | Algorithm::Cipher(Cipher::Cfb)
            | Algorithm::Cipher(Cipher::Ofb) => self.config.key_type == KeyType::Aes,
            Algorithm::Aead(Aead::AeadWithDefaultLengthTag(AeadWithDefaultLengthTag::Ccm))
            | Algorithm::Aead(Aead::AeadWithDefaultLengthTag(AeadWithDefaultLengthTag::Gcm))
            | Algorithm::Aead(
                Aead::AeadWithShortenedTag { aead_alg: AeadWithDefaultLengthTag::Ccm, .. },
            )
            | Algorithm::Aead(
                Aead::AeadWithShortenedTag { aead_alg: AeadWithDefaultLengthTag::Gcm, .. },
            ) => self.config.key_type == KeyType::Aes,
            Algorithm::AsymmetricSignature(
                AsymmetricSignature::Ecdsa {
                    hash_alg: SignHash::Specific(algorithm::Hash::Sha256),
                },
            ) => {
                self.config.is_secret && self.config.key_type == KeyType::P256EccKey
                    && self.config.ecc_key_attr.is_private
            },
            Algorithm::AsymmetricSignature(AsymmetricSignature::DeterministicEcdsa { .. }) => false,
            Algorithm::AsymmetricEncryption(..) => false,
            Algorithm::KeyAgreement(KeyAgreement::Raw(RawKeyAgreement::Ecdh))
            | Algorithm::KeyAgreement(
                KeyAgreement::WithKeyDerivation { ka_alg: RawKeyAgreement::Ecdh, .. },
            ) => self.config.key_type == KeyType::P256EccKey,
            _ => false,
        }
    }

    /// Claims the slot for one logical key. Succeeds once, on an unclaimed
    /// slot, and marks it claimed; on a claimed slot it fails and changes
    /// nothing. The status plays no part.
    pub fn reference_check_and_set(&mut self) -> (result: Result<(), ()>)
        ensures
            result is Ok <==> old(self).unclaimed(),
            *final(self) == old(self).after_claim(),
    {
        if 0 < self.ref_count {
            Err(())
        } else {
            self.ref_count = 1;
            Ok(())
        }
    }

    /// Whether the slot is free.
    pub fn is_free(&self) -> (free: bool)
        ensures
            free == (self.status == KeySlotStatus::Free),
    {
        matches!(self.status, KeySlotStatus::Free)
    }
}

impl Default for AteccKeySlot {
    fn default() -> (slot: AteccKeySlot)
        ensures
            slot == AteccKeySlot::fresh(),
    {
        AteccKeySlot { ref_count: 0u8, status: KeySlotStatus::Free, config: SlotConfig::default() }
    }
}

} // verus!
