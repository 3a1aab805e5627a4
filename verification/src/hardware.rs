//! The hardware side of a slot: what the chip was provisioned with.
//!
//! A slot's configuration is fixed when the chip is provisioned. Nothing in
//! this crate ever changes one; the compatibility rules only read it.

use vstd::prelude::*;

verus! {

/// The chip's fixed interpretation of what a slot holds.
#[derive(Copy, Clone, Debug, PartialEq, Eq, Structural)]
pub enum KeyType {
    /// Reserved; a slot of this type hosts no typed key.
    Rfu,
    /// The slot may hold a NIST P-256 key.
    P256EccKey,
    /// The slot may hold an AES key.
    Aes,
    /// The slot may hold a hash value or raw text.
    ShaOrText,
}

/// How the data of a slot may be modified.
#[derive(Copy, Clone, Debug, PartialEq, Eq, Structural)]
pub enum WriteConfig {
    /// Reserved.
    Rfu,
    /// Clear-text writes are always permitted.
    Always,
    /// Writes are prohibited while a validated public key is stored.
    PubInvalid,
    /// Writes are never permitted.
    Never,
    /// Writes must be encrypted and carry a MAC.
    Encrypt,
}

/// Read attributes of a slot.
#[derive(Copy, Clone, Debug, PartialEq, Eq, Structural)]
pub struct ReadKey {
    /// Reads from the slot are encrypted.
    pub encrypt_read: bool,
    /// The slot whose key encrypts the reads (0 to 15).
    pub slot_number: u8,
}

/// Attributes of an ECC key as stored in the slot configuration.
#[derive(Copy, Clone, Debug, PartialEq, Eq, Structural)]
pub struct EccKeyAttr {
    /// The slot holds an ECC private key.
    pub is_private: bool,
    /// External signatures of arbitrary messages are enabled.
    pub ext_sign: bool,
    /// Internal signatures of chip-generated messages are enabled.
    pub int_sign: bool,
    /// ECDH is permitted for this key.
    pub ecdh_operation: bool,
    /// The ECDH master secret is written to the next slot instead of output.
    pub ecdh_secret_out: bool,
}

/// The provisioned configuration of one slot.
///
/// The compatibility rules interpret `key_type`, `no_mac`, `is_secret`,
/// `pub_info` and `ecc_key_attr.is_private`; the other fields are carried
/// along unread.
#[derive(Copy, Clone, Debug, PartialEq, Eq, Structural)]
pub struct SlotConfig {
    /// How the slot may be written.
    pub write_config: WriteConfig,
    /// What the chip takes the slot's contents to be.
    pub key_type: KeyType,
    /// How the slot may be read.
    pub read_key: ReadKey,
    /// ECC-specific attributes.
    pub ecc_key_attr: EccKeyAttr,
    /// Index into the X.509 format array (0 to 3).
    pub x509id: u8,
    /// The key that authorises use of this slot, if `req_auth` is set.
    pub auth_key: u8,
    /// The key that validates and encrypts writes to this slot.
    pub write_key: u8,
    /// The contents are secret: clear-text reads are prohibited.
    pub is_secret: bool,
    /// The number of uses of the key is limited by a counter in the chip.
    pub limited_use: bool,
    /// The key cannot be used by the MAC and HMAC commands.
    pub no_mac: bool,
    /// Use of the key depends on the persistent latch.
    pub persistent_disable: bool,
    /// A prior authorisation is required before the key is used.
    pub req_auth: bool,
    /// A random nonce is required for the commands that use the key.
    pub req_random: bool,
    /// The slot can be locked individually.
    pub lockable: bool,
    /// For a private ECC key, its public key can be generated; for a public
    /// key, it must be validated before use.
    pub pub_info: bool,
}

impl SlotConfig {
    /// The configuration of a slot that nothing was provisioned into: both
    /// enumerations reserved, every number zero, every flag cleared.
    pub open spec fn unprovisioned() -> SlotConfig {
        SlotConfig {
            write_config: WriteConfig::Rfu,
            key_type: KeyType::Rfu,
            read_key: ReadKey { encrypt_read: false, slot_number: 0 },
            ecc_key_attr: EccKeyAttr {
                is_private: false,
                ext_sign: false,
                int_sign: false,
                ecdh_operation: false,
                ecdh_secret_out: false,
            },
            x509id: 0,
            auth_key: 0,
            write_key: 0,
            is_secret: false,
            limited_use: false,
            no_mac: false,
            persistent_disable: false,
            req_auth: false,
            req_random: false,
            lockable: false,
            pub_info: false,
        }
    }
}

impl Default for SlotConfig {
    fn default() -> (config: SlotConfig)
        ensures
            config == SlotConfig::unprovisioned(),
    {
        SlotConfig {
            write_config: WriteConfig::Rfu,
            key_type: KeyType::Rfu,
            read_key: ReadKey { encrypt_read: false, slot_number: 0 },
            ecc_key_attr: EccKeyAttr {
                is_private: false,
                ext_sign: false,
                int_sign: false,
                ecdh_operation: false,
                ecdh_secret_out: false,
            },
            x509id: 0,
            auth_key: 0,
            write_key: 0,
            is_secret: false,
            limited_use: false,
            no_mac: false,
            persistent_disable: false,
            req_auth: false,
            req_random: false,
            lockable: false,
            pub_info: false,
        }
    }
}

} // verus!
