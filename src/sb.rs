use vstd::prelude::*;

use crate::bytes::{le_u32, read_le_u32};
use crate::crypt::{
    bch_sb_field_crypt, BCH_SB_FIELD_BYTES, CRYPT_FIELD_OFFSET, CRYPT_RECORD_BYTES,
};

verus! {

/// The uuid crate's UUID type, carried through without looking inside.
#[verifier::external_type_specification]
#[verifier::external_body]
pub struct ExUuid(uuid::Uuid);

/// The UUID value whose sixteen bytes are `b`.
pub uninterp spec fn uuid_of_bytes(b: Seq<u8>) -> uuid::Uuid;

/// Relies on uuid::Uuid::from_bytes: the UUID holds the sixteen bytes as given.
#[verifier::external_body]
fn uuid_from_bytes(b: [u8; 16]) -> (r: uuid::Uuid)
    ensures
        r == uuid_of_bytes(b@),
{
    uuid::Uuid::from_bytes(b)
}

/// Sixteen bytes of identity: a UUID, or the format's magic.
#[derive(Clone, Copy, Debug)]
pub struct bch_uuid {
    pub b: [u8; 16],
}

/// A checksum, as two 64-bit words.
#[derive(Clone, Copy, Debug, PartialEq, Eq, Structural)]
pub struct bch_csum {
    pub lo: u64,
    pub hi: u64,
}

/// The nonce that starts the stream cipher, as four 32-bit words.
#[derive(Clone, Copy, Debug)]
pub struct nonce {
    pub d: [u32; 4],
}

/// The types of the fields that follow the superblock header.
#[derive(Clone, Copy, Debug, PartialEq, Eq, Structural)]
pub enum bch_sb_field_type {
    BCH_SB_FIELD_journal,
    BCH_SB_FIELD_members_v1,
    BCH_SB_FIELD_crypt,
    BCH_SB_FIELD_replicas_v0,
    BCH_SB_FIELD_quota,
    BCH_SB_FIELD_disk_groups,
    BCH_SB_FIELD_clean,
    BCH_SB_FIELD_replicas,
    BCH_SB_FIELD_journal_seq_blacklist,
    BCH_SB_FIELD_journal_v2,
    BCH_SB_FIELD_counters,
    BCH_SB_FIELD_members_v2,
    BCH_SB_FIELD_errors,
    BCH_SB_FIELD_ext,
    BCH_SB_FIELD_downgrade,
}

impl bch_sb_field_type {
    /// The tag that marks a field of this type on disk.
    pub open spec fn spec_tag(self) -> u32 {
        match self {
            bch_sb_field_type::BCH_SB_FIELD_journal => 0,
            bch_sb_field_type::BCH_SB_FIELD_members_v1 => 1,
            bch_sb_field_type::BCH_SB_FIELD_crypt => 2,
            bch_sb_field_type::BCH_SB_FIELD_replicas_v0 => 3,
            bch_sb_field_type::BCH_SB_FIELD_quota => 4,
            bch_sb_field_type::BCH_SB_FIELD_disk_groups => 5,
            bch_sb_field_type::BCH_SB_FIELD_clean => 6,
            bch_sb_field_type::BCH_SB_FIELD_replicas => 7,
            bch_sb_field_type::BCH_SB_FIELD_journal_seq_blacklist => 8,
            bch_sb_field_type::BCH_SB_FIELD_journal_v2 => 9,
            bch_sb_field_type::BCH_SB_FIELD_counters => 10,
            bch_sb_field_type::BCH_SB_FIELD_members_v2 => 11,
            bch_sb_field_type::BCH_SB_FIELD_errors => 12,
            bch_sb_field_type::BCH_SB_FIELD_ext => 13,
            bch_sb_field_type::BCH_SB_FIELD_downgrade => 14,
        }
    }

    pub fn tag(self) -> (r: u32)
        ensures
            r == self.spec_tag(),
    {
        match self {
            bch_sb_field_type::BCH_SB_FIELD_journal => 0,
            bch_sb_field_type::BCH_SB_FIELD_members_v1 => 1,
            bch_sb_field_type::BCH_SB_FIELD_crypt => 2,
            bch_sb_field_type::BCH_SB_FIELD_replicas_v0 => 3,
            bch_sb_field_type::BCH_SB_FIELD_quota => 4,
            bch_sb_field_type::BCH_SB_FIELD_disk_groups => 5,
            bch_sb_field_type::BCH_SB_FIELD_clean => 6,
            bch_sb_field_type::BCH_SB_FIELD_replicas => 7,
            bch_sb_field_type::BCH_SB_FIELD_journal_seq_blacklist => 8,
            bch_sb_field_type::BCH_SB_FIELD_journal_v2 => 9,
            bch_sb_field_type::BCH_SB_FIELD_counters => 10,
            bch_sb_field_type::BCH_SB_FIELD_members_v2 => 11,
            bch_sb_field_type::BCH_SB_FIELD_errors => 12,
            bch_sb_field_type::BCH_SB_FIELD_ext => 13,
            bch_sb_field_type::BCH_SB_FIELD_downgrade => 14,
        }
    }
}

/// The superblock: the fixed header and, in `fields`, the bytes of the field
/// records that follow it. `u64s` is the declared length of that region in
/// 64-bit words.
#[derive(Debug)]
pub struct bch_sb {
    pub csum: bch_csum,
    pub version: u16,
    pub version_min: u16,
    pub magic: bch_uuid,
    pub uuid: bch_uuid,
    pub user_uuid: bch_uuid,
    pub offset: u64,
    pub seq: u64,
    pub block_size: u16,
    pub dev_idx: u8,
    pub nr_devices: u8,
    pub u64s: u32,
    pub fields: Vec<u8>,
}

/// Where the scan of the field records that starts at `pos` finds the first record
/// tagged `tag`, looking no further than `end`. The scan stops, finding nothing, at
/// a record whose header or body would cross `end`, or whose length is zero.
pub open spec fn field_scan(s: Seq<u8>, end: int, pos: int, tag: u32) -> Option<int>
    decreases end - pos,
{
    if pos < 0 || pos + BCH_SB_FIELD_BYTES > end {
        None
    } else {
        let size = 8 * le_u32(s, pos);
        if size == 0 || pos + size > end {
            None
        } else if le_u32(s, pos + 4) == tag as nat {
            Some(pos)
        } else {
            field_scan(s, end, pos + size, tag)
        }
    }
}

/// A record that the scan finds lies whole before `end`.
pub proof fn lemma_field_scan_bounds(s: Seq<u8>, end: int, pos: int, tag: u32)
    requires
        end <= s.len(),
    ensures
        field_scan(s, end, pos, tag) matches Some(p) ==> pos <= p && p + BCH_SB_FIELD_BYTES <= end
            && p + 8 * le_u32(s, p) <= end && le_u32(s, p) > 0 && le_u32(s, p + 4) == tag as nat,
    decreases end - pos,
{
    if pos < 0 || pos + BCH_SB_FIELD_BYTES > end {
    } else {
        let size = 8 * le_u32(s, pos);
        if size == 0 || pos + size > end {
        } else if le_u32(s, pos + 4) == tag as nat {
        } else {
            lemma_field_scan_bounds(s, end, pos + size, tag);
        }
    }
}

/// An optional offset, as a mathematical integer.
pub open spec fn opt_pos(r: Option<usize>) -> Option<int> {
    match r {
        Some(p) => Some(p as int),
        None => None,
    }
}

/// The little-endian words of the nonce derived from a UUID's bytes.
pub open spec fn nonce_of(u: Seq<u8>) -> Seq<u32> {
    seq![0u32, 0u32, le_u32(u, 0) as u32, le_u32(u, 4) as u32]
}

/// Byte-wise equality of two sixteen-byte arrays.
fn bytes16_eq(a: &[u8; 16], b: &[u8; 16]) -> (r: bool)
    ensures
        r == (a@ == b@),
{
    let mut i: usize = 0;
    while i < 16
        invariant
            i <= 16,
            a@.len() == 16,
            b@.len() == 16,
            forall|j: int| 0 <= j < i ==> a@[j] == b@[j],
        decreases 16 - i,
    {
        if a[i] != b[i] {
            return false;
        }
        i = i + 1;
    }
    assert(a@ =~= b@);
    true
}

impl bch_sb {
    /// The end of the field region that may be scanned: the declared length, or
    /// the bytes at hand where fewer were read.
    pub open spec fn fields_end(&self) -> int {
        if 8 * self.u64s < self.fields@.len() {
            8 * self.u64s
        } else {
            self.fields@.len() as int
        }
    }

    /// Where the first field record tagged `tag` starts, if there is one.
    pub open spec fn field_pos(&self, tag: u32) -> Option<int> {
        field_scan(self.fields@, self.fields_end(), 0, tag)
    }

    /// Where the encryption record starts: it is found by its tag, the record start
    /// is recovered from the field header's offset within the record, and the
    /// field must be long enough to hold the whole record.
    pub open spec fn crypt_pos(&self) -> Option<int> {
        match self.field_pos(bch_sb_field_type::BCH_SB_FIELD_crypt.spec_tag()) {
            Some(p) => if p >= CRYPT_FIELD_OFFSET && CRYPT_RECORD_BYTES <= CRYPT_FIELD_OFFSET + 8
                * le_u32(self.fields@, p) {
                Some(p - CRYPT_FIELD_OFFSET)
            } else {
                None
            },
            None => None,
        }
    }

    /// Identity of two superblocks: same magic, UUIDs, block size, version and
    /// sequence number.
    pub open spec fn same_identity(&self, other: &bch_sb) -> bool {
        &&& self.magic.b@ == other.magic.b@
        &&& self.user_uuid.b@ == other.user_uuid.b@
        &&& self.block_size == other.block_size
        &&& self.version == other.version
        &&& self.uuid.b@ == other.uuid.b@
        &&& self.seq == other.seq
    }

    /// Finds the first field record tagged `tag` in the field region and returns
    /// its offset there.
    pub fn field_get_id(&self, tag: u32) -> (r: Option<usize>)
        ensures
            opt_pos(r) == self.field_pos(tag),
    {
        let len = self.fields.len();
        let declared: u64 = self.u64s as u64 * 8;
        let end: usize = if declared < len as u64 {
            declared as usize
        } else {
            len
        };
        let mut pos: usize = 0;
        while end - pos >= BCH_SB_FIELD_BYTES
            invariant
                pos <= end,
                end == self.fields_end(),
                end <= self.fields@.len(),
                field_scan(self.fields@, end as int, pos as int, tag) == self.field_pos(tag),
            decreases end - pos,
        {
            let size: u64 = read_le_u32(self.fields.as_slice(), pos) as u64 * 8;
            if size == 0 || size > (end - pos) as u64 {
                return None;
            }
            if read_le_u32(self.fields.as_slice(), pos + 4) == tag {
                return Some(pos);
            }
            pos = pos + size as usize;
        }
        None
    }

    /// The encryption field, if the superblock has one.
    pub fn crypt(&self) -> (r: Option<bch_sb_field_crypt>)
        ensures
            r.is_some() == self.crypt_pos().is_some(),
            r matches Some(c) ==> c.decoded_from(self.fields@, self.crypt_pos().unwrap()),
    {
        let found = self.field_get_id(bch_sb_field_type::BCH_SB_FIELD_crypt.tag());
        match found {
            None => None,
            Some(p) => {
                proof {
                    lemma_field_scan_bounds(
                        self.fields@,
                        self.fields_end(),
                        0,
                        bch_sb_field_type::BCH_SB_FIELD_crypt.spec_tag(),
                    );
                }
                if p < CRYPT_FIELD_OFFSET {
                    return None;
                }
                let size: u64 = read_le_u32(self.fields.as_slice(), p) as u64 * 8;
                if (CRYPT_RECORD_BYTES as u64) > CRYPT_FIELD_OFFSET as u64 + size {
                    return None;
                }
                let start = p - CRYPT_FIELD_OFFSET;
                Some(bch_sb_field_crypt::decode(self.fields.as_slice(), start))
            },
        }
    }

    /// The user-facing UUID of the filesystem.
    pub fn uuid(&self) -> (r: uuid::Uuid)
        ensures
            r == uuid_of_bytes(self.user_uuid.b@),
    {
        uuid_from_bytes(self.user_uuid.b)
    }

    /// Get the nonce used to encrypt the superblock: two zero words, then the
    /// little-endian words of bytes 0..4 and 4..8 of `uuid`.
    pub fn nonce(&self) -> (r: nonce)
        ensures
            r.d@ == nonce_of(self.uuid.b@),
    {
        let dword1 = read_le_u32(self.uuid.b.as_slice(), 0);
        let dword2 = read_le_u32(self.uuid.b.as_slice(), 4);
        let r = nonce { d: [0, 0, dword1, dword2] };
        assert(r.d@ =~= nonce_of(self.uuid.b@));
        r
    }
}

/// The nonce depends on the first eight bytes of the internal UUID alone: two
/// superblocks whose internal UUIDs agree there get the same nonce, whatever bytes
/// 8 to 15 hold.
pub proof fn lemma_nonce_depends_on_first_eight_bytes(a: &bch_sb, b: &bch_sb)
    requires
        forall|i: int| 0 <= i < 8 ==> a.uuid.b@[i] == b.uuid.b@[i],
    ensures
        nonce_of(a.uuid.b@) == nonce_of(b.uuid.b@),
{
    assert(a.uuid.b@[0] == b.uuid.b@[0]);
    assert(a.uuid.b@[1] == b.uuid.b@[1]);
    assert(a.uuid.b@[2] == b.uuid.b@[2]);
    assert(a.uuid.b@[3] == b.uuid.b@[3]);
    assert(a.uuid.b@[4] == b.uuid.b@[4]);
    assert(a.uuid.b@[5] == b.uuid.b@[5]);
    assert(a.uuid.b@[6] == b.uuid.b@[6]);
    assert(a.uuid.b@[7] == b.uuid.b@[7]);
}

/// Superblock identity is reflexive and symmetric, and looks at the magic, the two
/// UUIDs, the block size, the version and the sequence number only: two superblocks
/// that agree on those are the same, whatever their checksums, other header members
/// and field bytes hold.
pub proof fn lemma_identity(a: &bch_sb, b: &bch_sb)
    ensures
        a.same_identity(a),
        a.same_identity(b) == b.same_identity(a),
        (a.magic.b@ == b.magic.b@ && a.user_uuid.b@ == b.user_uuid.b@ && a.block_size
            == b.block_size && a.version == b.version && a.uuid.b@ == b.uuid.b@ && a.seq
            == b.seq) ==> a.same_identity(b),
{
}

/// A superblock whose field region is empty has no field of any tag.
pub proof fn lemma_empty_region_finds_nothing(sb: &bch_sb, tag: u32)
    requires
        sb.u64s == 0 || sb.fields@.len() == 0,
    ensures
        sb.field_pos(tag) is None,
        sb.crypt_pos() is None,
{
}

/// An encryption record written as the first field of the region, with a length
/// that covers the whole record, is found there: the record recovered from the
/// field header starts at the region's first byte, so the flags that `crypt`
/// decodes are the bytes written there.
pub proof fn lemma_crypt_record_first(sb: &bch_sb)
    requires
        CRYPT_RECORD_BYTES <= CRYPT_FIELD_OFFSET + 8 * le_u32(sb.fields@, 0),
        8 * le_u32(sb.fields@, 0) <= sb.fields_end(),
        le_u32(sb.fields@, 4) == bch_sb_field_type::BCH_SB_FIELD_crypt.spec_tag() as nat,
    ensures
        sb.field_pos(bch_sb_field_type::BCH_SB_FIELD_crypt.spec_tag()) == Some(0int),
        sb.crypt_pos() == Some(0int),
{
}

impl PartialEq for bch_sb {
    fn eq(&self, other: &Self) -> (r: bool) {
        bytes16_eq(&self.magic.b, &other.magic.b) && bytes16_eq(
            &self.user_uuid.b,
            &other.user_uuid.b,
        ) && self.block_size == other.block_size && self.version == other.version
            && bytes16_eq(&self.uuid.b, &other.uuid.b) && self.seq == other.seq
    }
}

impl vstd::std_specs::cmp::PartialEqSpecImpl for bch_sb {
    open spec fn obeys_eq_spec() -> bool {
        true
    }

    open spec fn eq_spec(&self, other: &bch_sb) -> bool {
        self.same_identity(other)
    }
}

} // verus!
