use bch_bindgen::bitfield::bit_range;
use bch_bindgen::bytes::{read_le_u32, read_le_u64};
use bch_bindgen::crypt::{
    bch_crypt_flags, bch_kdf_types, bch_scrypt_flags, bch_sb_field_crypt, CRYPT_RECORD_BYTES,
};
use bch_bindgen::handle::{bch_sb_handle, block_device};
use bch_bindgen::sb::{bch_csum, bch_sb, bch_sb_field_type, bch_uuid};

fn header() -> bch_sb {
    bch_sb {
        csum: bch_csum { lo: 1, hi: 2 },
        version: 1029,
        version_min: 1024,
        magic: bch_uuid { b: [0xc6, 0x85, 0x73, 0xf6, 0x66, 0xce, 0x90, 0xa9, 0xd9, 0x6a, 0x60, 0xcf, 0x80, 0x3d, 0xf7, 0xef] },
        uuid: bch_uuid { b: [1, 2, 3, 4, 5, 6, 7, 8, 0, 0, 0, 0, 0, 0, 0, 0] },
        user_uuid: bch_uuid { b: [0xa1, 0xa2, 0xa3, 0xa4, 0xb1, 0xb2, 0xc1, 0xc2, 0xd1, 0xd2, 0xd3, 0xd4, 0xd5, 0xd6, 0xd7, 0xd8] },
        offset: 8,
        seq: 42,
        block_size: 8,
        dev_idx: 0,
        nr_devices: 1,
        u64s: 0,
        fields: Vec::new(),
    }
}

fn push_u32(v: &mut Vec<u8>, x: u32) {
    v.extend_from_slice(&x.to_le_bytes());
}

fn push_u64(v: &mut Vec<u8>, x: u64) {
    v.extend_from_slice(&x.to_le_bytes());
}

/// Appends a field record of `u64s` words tagged `tag`, its body filled with `fill`.
fn push_field(v: &mut Vec<u8>, u64s: u32, tag: u32, fill: u8) {
    push_u32(v, u64s);
    push_u32(v, tag);
    for _ in 0..(u64s as usize * 8 - 8) {
        v.push(fill);
    }
}

/// Appends an encryption record of `u64s` words.
fn push_crypt(v: &mut Vec<u8>, u64s: u32, flags: u64, kdf_flags: u64, magic: u64, key: [u64; 4]) {
    push_u32(v, u64s);
    push_u32(v, 2);
    push_u64(v, flags);
    push_u64(v, kdf_flags);
    push_u64(v, magic);
    for k in key {
        push_u64(v, k);
    }
    for _ in 0..(u64s as usize * 8 - CRYPT_RECORD_BYTES) {
        v.push(0);
    }
}

fn with_fields(fields: Vec<u8>) -> bch_sb {
    let mut sb = header();
    sb.u64s = (fields.len() / 8) as u32;
    sb.fields = fields;
    sb
}

#[test]
fn nonce_from_first_eight_uuid_bytes() {
    let sb = header();
    assert_eq!(sb.nonce().d, [0, 0, 0x04030201, 0x08070605]);
}

#[test]
fn nonce_ignores_uuid_tail() {
    let a = header();
    let mut b = header();
    b.uuid.b[8..].copy_from_slice(&[0xff, 0xee, 0xdd, 0xcc, 0xbb, 0xaa, 0x99, 0x88]);
    assert_eq!(a.nonce().d, b.nonce().d);
    b.uuid.b[7] = 0x80;
    assert_eq!(b.nonce().d, [0, 0, 0x04030201, 0x80070605]);
}

#[test]
fn nonce_is_deterministic() {
    let sb = header();
    assert_eq!(sb.nonce().d, sb.nonce().d);
}

#[test]
fn identity_is_reflexive_and_symmetric() {
    let a = header();
    let b = header();
    assert!(a == a);
    assert!(a == b && b == a);
}

#[test]
fn identity_ignores_checksum_and_fields() {
    let a = header();
    let mut b = with_fields({
        let mut v = Vec::new();
        push_field(&mut v, 2, 6, 0x55);
        v
    });
    b.csum = bch_csum { lo: 99, hi: 100 };
    b.offset = 2048;
    b.version_min = 1;
    b.dev_idx = 3;
    b.nr_devices = 4;
    assert!(a == b);
    assert!(b == a);
}

#[test]
fn identity_sees_each_identity_member() {
    let a = header();
    let mut b = header();
    b.seq = 43;
    assert!(a != b);
    let mut b = header();
    b.magic.b[15] ^= 1;
    assert!(a != b);
    let mut b = header();
    b.user_uuid.b[0] ^= 1;
    assert!(a != b);
    let mut b = header();
    b.uuid.b[15] ^= 1;
    assert!(a != b);
    let mut b = header();
    b.block_size = 16;
    assert!(a != b);
    let mut b = header();
    b.version = 1030;
    assert!(a != b);
}

#[test]
fn empty_region_has_no_field() {
    let sb = header();
    for tag in 0..64u32 {
        assert_eq!(sb.field_get_id(tag), None);
    }
    assert_eq!(sb.field_get_id(u32::MAX), None);
    assert!(sb.crypt().is_none());
}

#[test]
fn declared_length_zero_hides_bytes() {
    let mut v = Vec::new();
    push_crypt(&mut v, 8, 0, 7, 0, [1, 2, 3, 4]);
    let mut sb = with_fields(v);
    sb.u64s = 0;
    assert_eq!(sb.field_get_id(2), None);
    assert!(sb.crypt().is_none());
}

#[test]
fn finds_field_after_others() {
    let mut v = Vec::new();
    push_field(&mut v, 3, 0, 0x11);
    push_field(&mut v, 1, 6, 0x22);
    push_field(&mut v, 2, 11, 0x33);
    let sb = with_fields(v);
    assert_eq!(sb.field_get_id(0), Some(0));
    assert_eq!(sb.field_get_id(6), Some(24));
    assert_eq!(sb.field_get_id(11), Some(32));
    assert_eq!(sb.field_get_id(2), None);
    assert_eq!(sb.field_get_id(bch_sb_field_type::BCH_SB_FIELD_members_v2.tag()), Some(32));
}

#[test]
fn field_crossing_the_end_is_not_found() {
    let mut v = Vec::new();
    push_field(&mut v, 1, 0, 0);
    push_u32(&mut v, 4);
    push_u32(&mut v, 6);
    let sb = with_fields(v);
    assert_eq!(sb.field_get_id(0), Some(0));
    assert_eq!(sb.field_get_id(6), None);
}

#[test]
fn declared_length_past_bytes_is_bounded() {
    let mut v = Vec::new();
    push_field(&mut v, 1, 0, 0);
    push_u32(&mut v, 1);
    push_u32(&mut v, 6);
    let mut sb = with_fields(v);
    sb.u64s = 1000;
    assert_eq!(sb.field_get_id(6), Some(8));
    sb.fields.truncate(12);
    assert_eq!(sb.field_get_id(6), None);
}

#[test]
fn zero_length_field_stops_the_scan() {
    let mut v = Vec::new();
    push_u32(&mut v, 0);
    push_u32(&mut v, 0);
    push_field(&mut v, 1, 6, 0);
    let sb = with_fields(v);
    assert_eq!(sb.field_get_id(0), None);
    assert_eq!(sb.field_get_id(6), None);
}

#[test]
fn synthetic_crypt_field_is_recovered() {
    let mut v = Vec::new();
    push_field(&mut v, 2, 0, 0x77);
    push_crypt(&mut v, 8, 0x20, 0x0000_0001_000a_ffff, 0x5d1c_0a8e_4a39_6c8b, [11, 12, 13, 14]);
    let sb = with_fields(v);
    assert_eq!(sb.field_get_id(bch_sb_field_type::BCH_SB_FIELD_crypt.tag()), Some(16));
    let c = sb.crypt().unwrap();
    assert_eq!(c.field.u64s, 8);
    assert_eq!(c.field.type_, 2);
    assert_eq!(c.flags, 0x20);
    assert_eq!(c.kdf_flags, 0x0000_0001_000a_ffff);
    assert_eq!(c.key().magic, 0x5d1c_0a8e_4a39_6c8b);
    assert_eq!(c.key().key, [11, 12, 13, 14]);
    assert_eq!(c.kdf_kind(), Some(bch_kdf_types::BCH_KDF_SCRYPT));
    let s = c.scrypt_flags().unwrap();
    assert_eq!((s.N(), s.R(), s.P()), (65535, 10, 1));
}

#[test]
fn crypt_field_too_short_is_absent() {
    let mut v = Vec::new();
    push_field(&mut v, 2, 2, 0);
    let sb = with_fields(v);
    assert_eq!(sb.field_get_id(2), Some(0));
    assert!(sb.crypt().is_none());
}

#[test]
fn scrypt_ranges_round_trip() {
    let (n, r, p): (u64, u64, u64) = (65535, 10, 1);
    let w = bch_scrypt_flags(n | (r << 16) | (p << 32));
    assert_eq!((w.N(), w.R(), w.P()), (65535, 10, 1));
    let w = bch_scrypt_flags(0x1234 | (0xffff << 16) | (0 << 32) | (0xabcd << 48));
    assert_eq!((w.N(), w.R(), w.P()), (0x1234, 0xffff, 0));
}

#[test]
fn bit_range_values() {
    assert_eq!(bit_range(0xdead_beef, 15, 0), 0xbeef);
    assert_eq!(bit_range(0xdead_beef, 31, 16), 0xdead);
    assert_eq!(bit_range(0xdead_beef, 7, 4), 0xe);
    assert_eq!(bit_range(u64::MAX, 63, 0), u64::MAX);
    assert_eq!(bit_range(0x8000_0000_0000_0000, 63, 63), 1);
}

#[test]
fn kdf_kind_from_type_bits() {
    let mk = |flags: u64, kdf_flags: u64| {
        let mut v = Vec::new();
        push_crypt(&mut v, 8, flags, kdf_flags, 0, [0; 4]);
        with_fields(v).crypt().unwrap()
    };
    assert_eq!(bch_crypt_flags(0).TYPE(), 0);
    assert_eq!(bch_crypt_flags(0xff).TYPE(), 31);
    assert_eq!(mk(0, 0).kdf_kind(), Some(bch_kdf_types::BCH_KDF_SCRYPT));
    assert_eq!(mk(0xffe0, 0).kdf_kind(), Some(bch_kdf_types::BCH_KDF_SCRYPT));
    assert_eq!(mk(31, 0).kdf_kind(), None);
    assert_eq!(mk(1, 0).kdf_kind(), None);
}

#[test]
fn scrypt_flags_absent_for_other_kinds() {
    let c = bch_sb_field_crypt {
        field: bch_bindgen::crypt::bch_sb_field { u64s: 8, type_: 2 },
        flags: 1,
        kdf_flags: 0x0000_0001_000a_ffff,
        key: bch_bindgen::crypt::bch_encrypted_key { magic: 0, key: [0; 4] },
    };
    assert!(c.scrypt_flags().is_none());
    let c = bch_sb_field_crypt { flags: 31, ..c };
    assert!(c.scrypt_flags().is_none());
    let c = bch_sb_field_crypt { flags: 0, ..c };
    assert_eq!(c.scrypt_flags().unwrap().0, 0x0000_0001_000a_ffff);
}

#[test]
fn uuid_wraps_user_uuid_bytes() {
    let sb = header();
    let u = sb.uuid();
    assert_eq!(u.as_bytes(), &sb.user_uuid.b);
    assert_ne!(u.as_bytes(), &sb.uuid.b);
    assert_eq!(u.hyphenated().to_string(), "a1a2a3a4-b1b2-c1c2-d1d2-d3d4d5d6d7d8");
}

#[test]
fn little_endian_reads() {
    let b = [0x01u8, 0x02, 0x03, 0x04, 0x05, 0x06, 0x07, 0x08, 0x09];
    assert_eq!(read_le_u32(&b, 0), 0x04030201);
    assert_eq!(read_le_u32(&b, 5), 0x09080706);
    assert_eq!(read_le_u64(&b, 1), 0x0908070605040302);
}

#[test]
fn field_type_tags() {
    assert_eq!(bch_sb_field_type::BCH_SB_FIELD_journal.tag(), 0);
    assert_eq!(bch_sb_field_type::BCH_SB_FIELD_crypt.tag(), 2);
    assert_eq!(bch_sb_field_type::BCH_SB_FIELD_downgrade.tag(), 14);
}

#[test]
fn handle_gives_back_what_it_holds() {
    let sb = header();
    let dev = block_device { bd_dev: 0x0801, bd_fd: 3, bd_sync_fd: 4 };
    let h = bch_sb_handle::new(&sb, &dev);
    assert!(std::ptr::eq(h.sb(), &sb));
    assert!(std::ptr::eq(h.bdev(), &dev));
    assert_eq!(h.bdev().bd_dev, 0x0801);
    assert_eq!(h.sb().seq, 42);
}
