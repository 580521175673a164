use vstd::prelude::*;

use crate::bitfield::{bit_range, bits_of, low_mask};
use crate::bytes::{le_u32, le_u64, read_le_u32, read_le_u64};

verus! {

/// The cost parameters of scrypt packed in one word: `N` in bits 15..0, `R` in
/// bits 31..16 and `P` in bits 47..32.
#[derive(Clone, Copy, Debug)]
pub struct bch_scrypt_flags(pub u64);

impl bch_scrypt_flags {
    /// The scrypt CPU/memory cost parameter.
    pub fn N(&self) -> (r: u64)
        ensures
            r == bits_of(self.0, 15, 0),
    {
        bit_range(self.0, 15, 0)
    }

    /// The scrypt block size parameter.
    pub fn R(&self) -> (r: u64)
        ensures
            r == bits_of(self.0, 31, 16),
    {
        bit_range(self.0, 31, 16)
    }

    /// The scrypt parallelization parameter.
    pub fn P(&self) -> (r: u64)
        ensures
            r == bits_of(self.0, 47, 32),
    {
        bit_range(self.0, 47, 32)
    }
}

/// The word that holds `n`, `r` and `p` in the ranges of a `bch_scrypt_flags`.
pub open spec fn scrypt_word(n: u64, r: u64, p: u64) -> u64 {
    n | (r << 16u64) | (p << 32u64)
}

/// Packing three values of at most 16 bits into the scrypt ranges of a word and
/// extracting those ranges again gives back the three values.
pub proof fn lemma_scrypt_ranges_round_trip(n: u64, r: u64, p: u64)
    requires
        n < 0x1_0000,
        r < 0x1_0000,
        p < 0x1_0000,
    ensures
        bits_of(scrypt_word(n, r, p), 15, 0) == n,
        bits_of(scrypt_word(n, r, p), 31, 16) == r,
        bits_of(scrypt_word(n, r, p), 47, 32) == p,
{
    assert(1u64 << 16u64 == 0x1_0000u64) by (bit_vector);
    assert(low_mask(16) == 0xffffu64);
    assert(((n | (r << 16u64) | (p << 32u64)) >> 0u64) & 0xffffu64 == n) by (bit_vector)
        requires
            n < 0x1_0000,
            r < 0x1_0000,
            p < 0x1_0000,
    ;
    assert(((n | (r << 16u64) | (p << 32u64)) >> 16u64) & 0xffffu64 == r) by (bit_vector)
        requires
            n < 0x1_0000,
            r < 0x1_0000,
            p < 0x1_0000,
    ;
    assert(((n | (r << 16u64) | (p << 32u64)) >> 32u64) & 0xffffu64 == p) by (bit_vector)
        requires
            n < 0x1_0000,
            r < 0x1_0000,
            p < 0x1_0000,
    ;
}

/// The selector word of the encryption field: the key-derivation kind in bits 4..0.
#[derive(Clone, Copy, Debug)]
pub struct bch_crypt_flags(pub u64);

impl bch_crypt_flags {
    /// The key-derivation kind selector.
    pub fn TYPE(&self) -> (r: u64)
        ensures
            r == bits_of(self.0, 4, 0),
    {
        bit_range(self.0, 4, 0)
    }
}

/// The key-derivation functions that an encryption field can select.
#[derive(Clone, Copy, Debug, PartialEq, Eq, Structural)]
pub enum bch_kdf_types {
    BCH_KDF_SCRYPT,
}

/// The kind that a `TYPE` value selects; values outside the enumeration select none.
pub open spec fn kdf_kind_of(t: u64) -> Option<bch_kdf_types> {
    if t == 0 {
        Some(bch_kdf_types::BCH_KDF_SCRYPT)
    } else {
        None
    }
}

/// The common header of every field record: its length in 64-bit words and its
/// type tag, both little-endian 32-bit values.
#[derive(Clone, Copy, Debug, PartialEq, Eq, Structural)]
pub struct bch_sb_field {
    pub u64s: u32,
    pub type_: u32,
}

/// The wrapped key material stored in the encryption field.
#[derive(Clone, Copy, Debug)]
pub struct bch_encrypted_key {
    pub magic: u64,
    pub key: [u64; 4],
}

/// The encryption-metadata field record.
#[derive(Clone, Copy, Debug)]
pub struct bch_sb_field_crypt {
    pub field: bch_sb_field,
    pub flags: u64,
    pub kdf_flags: u64,
    pub key: bch_encrypted_key,
}

/// Size in bytes of the common field header.
pub const BCH_SB_FIELD_BYTES: usize = 8;

/// Byte offsets of the members of an encryption field record, from its start.
pub const CRYPT_FIELD_OFFSET: usize = 0;
pub const CRYPT_FLAGS_OFFSET: usize = CRYPT_FIELD_OFFSET + BCH_SB_FIELD_BYTES;
pub const CRYPT_KDF_FLAGS_OFFSET: usize = CRYPT_FLAGS_OFFSET + 8;
pub const CRYPT_KEY_OFFSET: usize = CRYPT_KDF_FLAGS_OFFSET + 8;

/// Size in bytes of the wrapped key: a magic word and four key words.
pub const ENCRYPTED_KEY_BYTES: usize = 8 + 4 * 8;

/// Size in bytes of a whole encryption field record.
pub const CRYPT_RECORD_BYTES: usize = CRYPT_KEY_OFFSET + ENCRYPTED_KEY_BYTES;

impl bch_sb_field_crypt {
    /// The selected key-derivation kind.
    pub open spec fn kdf_kind_spec(&self) -> Option<bch_kdf_types> {
        kdf_kind_of(bits_of(self.flags, 4, 0))
    }

    /// This record is the one whose bytes start at `start` in `s`.
    pub open spec fn decoded_from(&self, s: Seq<u8>, start: int) -> bool {
        &&& self.field.u64s as nat == le_u32(s, start + CRYPT_FIELD_OFFSET)
        &&& self.field.type_ as nat == le_u32(s, start + CRYPT_FIELD_OFFSET + 4)
        &&& self.flags as nat == le_u64(s, start + CRYPT_FLAGS_OFFSET)
        &&& self.kdf_flags as nat == le_u64(s, start + CRYPT_KDF_FLAGS_OFFSET)
        &&& self.key.magic as nat == le_u64(s, start + CRYPT_KEY_OFFSET)
        &&& forall|k: int|
            0 <= k < 4 ==> #[trigger] self.key.key[k] as nat == le_u64(
                s,
                start + CRYPT_KEY_OFFSET + 8 + 8 * k,
            )
    }

    /// Decodes the record whose bytes start at `start`.
    pub fn decode(bytes: &[u8], start: usize) -> (r: Self)
        requires
            start + CRYPT_RECORD_BYTES <= bytes@.len(),
        ensures
            r.decoded_from(bytes@, start as int),
    {
        let n = bytes.len();
        let field = bch_sb_field {
            u64s: read_le_u32(bytes, start + CRYPT_FIELD_OFFSET),
            type_: read_le_u32(bytes, start + CRYPT_FIELD_OFFSET + 4),
        };
        let flags = read_le_u64(bytes, start + CRYPT_FLAGS_OFFSET);
        let kdf_flags = read_le_u64(bytes, start + CRYPT_KDF_FLAGS_OFFSET);
        let k = start + CRYPT_KEY_OFFSET;
        let magic = read_le_u64(bytes, k);
        let key = [
            read_le_u64(bytes, k + 8),
            read_le_u64(bytes, k + 16),
            read_le_u64(bytes, k + 24),
            read_le_u64(bytes, k + 32),
        ];
        let r = bch_sb_field_crypt { field, flags, kdf_flags, key: bch_encrypted_key { magic, key } };
        assert forall|j: int| 0 <= j < 4 implies #[trigger] r.key.key[j] as nat == le_u64(
            bytes@,
            start + CRYPT_KEY_OFFSET + 8 + 8 * j,
        ) by {
            if j == 0 {
            } else if j == 1 {
            } else if j == 2 {
            } else {
            }
        }
        r
    }

    /// The key-derivation kind that `flags` selects, if it is one this library knows.
    pub fn kdf_kind(&self) -> (r: Option<bch_kdf_types>)
        ensures
            r == self.kdf_kind_spec(),
            r == kdf_kind_of(bits_of(self.flags, 4, 0)),
    {
        let t = bch_crypt_flags(self.flags).TYPE();
        if t == 0 {
            Some(bch_kdf_types::BCH_KDF_SCRYPT)
        } else {
            None
        }
    }

    /// The scrypt parameters, present exactly when scrypt is the selected kind.
    pub fn scrypt_flags(&self) -> (r: Option<bch_scrypt_flags>)
        ensures
            r.is_some() <==> self.kdf_kind_spec() == Some(bch_kdf_types::BCH_KDF_SCRYPT),
            r.is_some() ==> r.unwrap().0 == self.kdf_flags,
    {
        match self.kdf_kind() {
            Some(bch_kdf_types::BCH_KDF_SCRYPT) => Some(bch_scrypt_flags(self.kdf_flags)),
            None => None,
        }
    }

    /// The wrapped key material.
    pub fn key(&self) -> (r: &bch_encrypted_key)
        ensures
            *r == self.key,
    {
        &self.key
    }
}

} // verus!
