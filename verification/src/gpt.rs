//! Decoding of the GPT header and partition-entry array.

use vstd::prelude::*;
use vstd::bytes::{
    spec_u16_from_le_bytes, spec_u32_from_le_bytes, spec_u64_from_le_bytes, u16_from_le_bytes,
    u32_from_le_bytes, u64_from_le_bytes,
};
use vstd::slice::slice_subrange;
use crate::uuid::{Uuid, UuidView, spec_zero_uuid, spec_uuid_chars};
use crate::subr::{known_uuid_to_str, spec_known_name, uuid_to_str};
use crate::Opt;

verus! {

/// Sector size in bytes: GPT structures are read in fixed 512-byte units.
pub const UNIT_SIZE: usize = 512;

/// Bytes of one header read window: 92 meaningful bytes plus 4 of padding.
pub const GPT_HDR_NBYTES: usize = 96;

/// Bytes of one partition-entry record.
pub const GPT_ENT_NBYTES: usize = 128;

/// A failure while decoding GPT structures.
#[derive(Clone, Copy, Debug, PartialEq, Eq, Structural)]
pub enum GptError {
    /// The header declares an entry count over the accepted bound.
    MalformedHeader,
    /// The declared entry size asks for more slots than a sector can hold.
    BadLayout,
    /// The slots seen across all sectors differ from the declared entry count.
    SlotCountMismatch,
    /// A partition name does not decode to valid text.
    BadName,
}

/// The GPT header record, decoded from its 92 meaningful bytes (plus 4 of
/// read-window padding) in declared field order, scalars little-endian.
#[derive(Clone, Copy, Debug)]
pub struct GptHdr {
    pub hdr_sig: [u8; 8],
    pub hdr_revision: u32,
    pub hdr_size: u32,
    pub hdr_crc_self: u32,
    pub reserved: u32,
    pub hdr_lba_self: u64,
    pub hdr_lba_alt: u64,
    pub hdr_lba_start: u64,
    pub hdr_lba_end: u64,
    pub hdr_uuid: Uuid,
    pub hdr_lba_table: u64,
    pub hdr_entries: u32,
    pub hdr_entsz: u32,
    pub hdr_crc_table: u32,
    pub padding: u32,
}

/// Mathematical model of a [`GptHdr`].
pub ghost struct GptHdrView {
    pub hdr_sig: Seq<u8>,
    pub hdr_revision: u32,
    pub hdr_size: u32,
    pub hdr_crc_self: u32,
    pub reserved: u32,
    pub hdr_lba_self: u64,
    pub hdr_lba_alt: u64,
    pub hdr_lba_start: u64,
    pub hdr_lba_end: u64,
    pub hdr_uuid: UuidView,
    pub hdr_lba_table: u64,
    pub hdr_entries: u32,
    pub hdr_entsz: u32,
    pub hdr_crc_table: u32,
    pub padding: u32,
}

impl View for GptHdr {
    type V = GptHdrView;

    open spec fn view(&self) -> GptHdrView {
        GptHdrView {
            hdr_sig: self.hdr_sig@,
            hdr_revision: self.hdr_revision,
            hdr_size: self.hdr_size,
            hdr_crc_self: self.hdr_crc_self,
            reserved: self.reserved,
            hdr_lba_self: self.hdr_lba_self,
            hdr_lba_alt: self.hdr_lba_alt,
            hdr_lba_start: self.hdr_lba_start,
            hdr_lba_end: self.hdr_lba_end,
            hdr_uuid: self.hdr_uuid@,
            hdr_lba_table: self.hdr_lba_table,
            hdr_entries: self.hdr_entries,
            hdr_entsz: self.hdr_entsz,
            hdr_crc_table: self.hdr_crc_table,
            padding: self.padding,
        }
    }
}

/// The all-zero header value.
pub open spec fn spec_zero_header() -> GptHdrView {
    GptHdrView {
        hdr_sig: Seq::new(8, |i: int| 0u8),
        hdr_revision: 0,
        hdr_size: 0,
        hdr_crc_self: 0,
        reserved: 0,
        hdr_lba_self: 0,
        hdr_lba_alt: 0,
        hdr_lba_start: 0,
        hdr_lba_end: 0,
        hdr_uuid: spec_zero_uuid(),
        hdr_lba_table: 0,
        hdr_entries: 0,
        hdr_entsz: 0,
        hdr_crc_table: 0,
        padding: 0,
    }
}

impl GptHdr {
    /// The all-zero header.
    pub fn new() -> (r: Self)
        ensures
            r@ == spec_zero_header(),
    {
        let r = GptHdr {
            hdr_sig: [0, 0, 0, 0, 0, 0, 0, 0],
            hdr_revision: 0,
            hdr_size: 0,
            hdr_crc_self: 0,
            reserved: 0,
            hdr_lba_self: 0,
            hdr_lba_alt: 0,
            hdr_lba_start: 0,
            hdr_lba_end: 0,
            hdr_uuid: Uuid::new(),
            hdr_lba_table: 0,
            hdr_entries: 0,
            hdr_entsz: 0,
            hdr_crc_table: 0,
            padding: 0,
        };
        proof {
            assert(r@.hdr_sig =~= spec_zero_header().hdr_sig);
        }
        r
    }
}

/// One partition-entry record, decoded from its 128 bytes.
#[derive(Debug)]
pub struct GptEnt {
    pub ent_type: Uuid,
    pub ent_uuid: Uuid,
    pub ent_lba_start: u64,
    pub ent_lba_end: u64,
    pub ent_attr: u64,
    pub ent_name: [u16; 36],
}

/// Mathematical model of a [`GptEnt`].
pub ghost struct GptEntView {
    pub ent_type: UuidView,
    pub ent_uuid: UuidView,
    pub ent_lba_start: u64,
    pub ent_lba_end: u64,
    pub ent_attr: u64,
    pub ent_name: Seq<u16>,
}

impl View for GptEnt {
    type V = GptEntView;

    open spec fn view(&self) -> GptEntView {
        GptEntView {
            ent_type: self.ent_type@,
            ent_uuid: self.ent_uuid@,
            ent_lba_start: self.ent_lba_start,
            ent_lba_end: self.ent_lba_end,
            ent_attr: self.ent_attr,
            ent_name: self.ent_name@,
        }
    }
}

/// True of the all-default record: an unused entry slot.
pub open spec fn spec_entry_unused(e: GptEntView) -> bool {
    &&& e.ent_type == spec_zero_uuid()
    &&& e.ent_uuid == spec_zero_uuid()
    &&& e.ent_lba_start == 0
    &&& e.ent_lba_end == 0
    &&& e.ent_attr == 0
    &&& forall|k: int| 0 <= k < e.ent_name.len() ==> e.ent_name[k] == 0
}

impl GptEnt {
    /// The all-default record, which marks an unused slot.
    pub fn new() -> (r: Self)
        ensures
            r@.ent_name.len() == 36,
            spec_entry_unused(r@),
    {
        let r = GptEnt {
            ent_type: Uuid::new(),
            ent_uuid: Uuid::new(),
            ent_lba_start: 0,
            ent_lba_end: 0,
            ent_attr: 0,
            ent_name: [0; 36],
        };
        r
    }
}

impl Default for GptEnt {
    fn default() -> (r: Self)
        ensures
            r@.ent_name.len() == 36,
            spec_entry_unused(r@),
    {
        GptEnt::new()
    }
}

/// True when `u` is the all-zero UUID.
pub fn uuid_is_zero(u: &Uuid) -> (r: bool)
    ensures
        r <==> u@ == spec_zero_uuid(),
{
    let z = Uuid::new();
    let r = *u == z;
    proof {
        broadcast use vstd::array::group_array_axioms;

        if r {
            assert(u@.node =~= z@.node);
        } else {
            if u@ == spec_zero_uuid() {
                assert(u.node =~= z.node);
                assert(false);
            }
        }
    }
    r
}

/// True when `e` is an unused (all-default) entry slot.
pub fn entry_is_unused(e: &GptEnt) -> (r: bool)
    ensures
        r <==> spec_entry_unused(e@),
{
    if !uuid_is_zero(&e.ent_type) || !uuid_is_zero(&e.ent_uuid) {
        return false;
    }
    if e.ent_lba_start != 0 || e.ent_lba_end != 0 || e.ent_attr != 0 {
        return false;
    }
    let mut k: usize = 0;
    while k < 36
        invariant
            k <= 36,
            e@.ent_name.len() == 36,
            forall|i: int| 0 <= i < k ==> e@.ent_name[i] == 0,
            e@.ent_type == spec_zero_uuid(),
            e@.ent_uuid == spec_zero_uuid(),
            e@.ent_lba_start == 0,
            e@.ent_lba_end == 0,
            e@.ent_attr == 0,
        decreases 36 - k,
    {
        if e.ent_name[k] != 0 {
            return false;
        }
        k = k + 1;
    }
    true
}

/// The UUID encoded in 16 bytes: the three leading fields little-endian,
/// the clock-sequence and node bytes as stored.
pub open spec fn spec_decode_uuid(b: Seq<u8>) -> UuidView {
    UuidView {
        time_low: spec_u32_from_le_bytes(b.subrange(0, 4)),
        time_mid: spec_u16_from_le_bytes(b.subrange(4, 6)),
        time_hi_and_version: spec_u16_from_le_bytes(b.subrange(6, 8)),
        clock_seq_hi_and_reserved: b[8],
        clock_seq_low: b[9],
        node: b.subrange(10, 16),
    }
}

/// Decodes one on-disk UUID from its 16 bytes.
pub fn decode_uuid(b: &[u8]) -> (r: Uuid)
    requires
        b@.len() == 16,
    ensures
        r@ == spec_decode_uuid(b@),
{
    let r = Uuid {
        time_low: u32_from_le_bytes(slice_subrange(b, 0, 4)),
        time_mid: u16_from_le_bytes(slice_subrange(b, 4, 6)),
        time_hi_and_version: u16_from_le_bytes(slice_subrange(b, 6, 8)),
        clock_seq_hi_and_reserved: b[8],
        clock_seq_low: b[9],
        node: [b[10], b[11], b[12], b[13], b[14], b[15]],
    };
    proof {
        assert(r@.node =~= b@.subrange(10, 16));
    }
    r
}

/// The header encoded in a sector: every scalar little-endian, fields in
/// declared order at their fixed offsets.
pub open spec fn spec_decode_header(b: Seq<u8>) -> GptHdrView {
    GptHdrView {
        hdr_sig: b.subrange(0, 8),
        hdr_revision: spec_u32_from_le_bytes(b.subrange(8, 12)),
        hdr_size: spec_u32_from_le_bytes(b.subrange(12, 16)),
        hdr_crc_self: spec_u32_from_le_bytes(b.subrange(16, 20)),
        reserved: spec_u32_from_le_bytes(b.subrange(20, 24)),
        hdr_lba_self: spec_u64_from_le_bytes(b.subrange(24, 32)),
        hdr_lba_alt: spec_u64_from_le_bytes(b.subrange(32, 40)),
        hdr_lba_start: spec_u64_from_le_bytes(b.subrange(40, 48)),
        hdr_lba_end: spec_u64_from_le_bytes(b.subrange(48, 56)),
        hdr_uuid: spec_decode_uuid(b.subrange(56, 72)),
        hdr_lba_table: spec_u64_from_le_bytes(b.subrange(72, 80)),
        hdr_entries: spec_u32_from_le_bytes(b.subrange(80, 84)),
        hdr_entsz: spec_u32_from_le_bytes(b.subrange(84, 88)),
        hdr_crc_table: spec_u32_from_le_bytes(b.subrange(88, 92)),
        padding: spec_u32_from_le_bytes(b.subrange(92, 96)),
    }
}

/// Decodes the header found in a 512-byte sector and validates its entry
/// count: a count over 512 is rejected as a malformed header.
pub fn decode_header(buf: &[u8]) -> (r: Result<GptHdr, GptError>)
    requires
        buf@.len() == UNIT_SIZE,
    ensures
        r is Ok <==> spec_decode_header(buf@).hdr_entries <= 512,
        r matches Ok(h) ==> h@ == spec_decode_header(buf@) && h@.hdr_entries <= 512,
        r matches Err(e) ==> e == GptError::MalformedHeader && spec_decode_header(
            buf@,
        ).hdr_entries > 512,
{
    let hdr = decode_header_fields(buf);
    if hdr.hdr_entries > 512 {
        return Err(GptError::MalformedHeader);
    }
    Ok(hdr)
}

/// Decodes every header field from a 512-byte sector, with no validation.
pub fn decode_header_fields(buf: &[u8]) -> (r: GptHdr)
    requires
        buf@.len() == UNIT_SIZE,
    ensures
        r@ == spec_decode_header(buf@),
{
    let hdr_sig = [buf[0], buf[1], buf[2], buf[3], buf[4], buf[5], buf[6], buf[7]];
    let r = GptHdr {
        hdr_sig,
        hdr_revision: u32_from_le_bytes(slice_subrange(buf, 8, 12)),
        hdr_size: u32_from_le_bytes(slice_subrange(buf, 12, 16)),
        hdr_crc_self: u32_from_le_bytes(slice_subrange(buf, 16, 20)),
        reserved: u32_from_le_bytes(slice_subrange(buf, 20, 24)),
        hdr_lba_self: u64_from_le_bytes(slice_subrange(buf, 24, 32)),
        hdr_lba_alt: u64_from_le_bytes(slice_subrange(buf, 32, 40)),
        hdr_lba_start: u64_from_le_bytes(slice_subrange(buf, 40, 48)),
        hdr_lba_end: u64_from_le_bytes(slice_subrange(buf, 48, 56)),
        hdr_uuid: decode_uuid(slice_subrange(buf, 56, 72)),
        hdr_lba_table: u64_from_le_bytes(slice_subrange(buf, 72, 80)),
        hdr_entries: u32_from_le_bytes(slice_subrange(buf, 80, 84)),
        hdr_entsz: u32_from_le_bytes(slice_subrange(buf, 84, 88)),
        hdr_crc_table: u32_from_le_bytes(slice_subrange(buf, 88, 92)),
        padding: u32_from_le_bytes(slice_subrange(buf, 92, 96)),
    };
    proof {
        assert(r@.hdr_sig =~= buf@.subrange(0, 8));
        assert(r@.hdr_uuid.node =~= buf@.subrange(56, 72).subrange(10, 16));
    }
    r
}

/// One partition-entry record encoded in 128 bytes: two UUIDs, three
/// little-endian scalars, then 36 UTF-16LE name units.
pub open spec fn spec_decode_entry(b: Seq<u8>) -> GptEntView {
    GptEntView {
        ent_type: spec_decode_uuid(b.subrange(0, 16)),
        ent_uuid: spec_decode_uuid(b.subrange(16, 32)),
        ent_lba_start: spec_u64_from_le_bytes(b.subrange(32, 40)),
        ent_lba_end: spec_u64_from_le_bytes(b.subrange(40, 48)),
        ent_attr: spec_u64_from_le_bytes(b.subrange(48, 56)),
        ent_name: Seq::new(36, |k: int| spec_u16_from_le_bytes(b.subrange(56 + 2 * k, 58 + 2 * k))),
    }
}

/// Decodes one partition-entry record from its 128 bytes.
pub fn decode_entry(b: &[u8]) -> (r: GptEnt)
    requires
        b@.len() == GPT_ENT_NBYTES,
    ensures
        r@ == spec_decode_entry(b@),
{
    let mut ent_name: [u16; 36] = [0; 36];
    let mut k: usize = 0;
    while k < 36
        invariant
            k <= 36,
            b@.len() == 128,
            forall|i: int|
                0 <= i < k ==> ent_name@[i] == spec_u16_from_le_bytes(
                    b@.subrange(56 + 2 * i, 58 + 2 * i),
                ),
        decreases 36 - k,
    {
        ent_name[k] = u16_from_le_bytes(slice_subrange(b, 56 + 2 * k, 58 + 2 * k));
        k = k + 1;
    }
    let r = GptEnt {
        ent_type: decode_uuid(slice_subrange(b, 0, 16)),
        ent_uuid: decode_uuid(slice_subrange(b, 16, 32)),
        ent_lba_start: u64_from_le_bytes(slice_subrange(b, 32, 40)),
        ent_lba_end: u64_from_le_bytes(slice_subrange(b, 40, 48)),
        ent_attr: u64_from_le_bytes(slice_subrange(b, 48, 56)),
        ent_name,
    };
    proof {
        assert(r@.ent_name =~= spec_decode_entry(b@).ent_name);
        assert(r@.ent_type.node =~= b@.subrange(0, 16).subrange(10, 16));
        assert(r@.ent_uuid.node =~= b@.subrange(16, 32).subrange(10, 16));
    }
    r
}

/// The low byte of each UTF-16 unit of a name: the high byte is dropped,
/// not remapped (the decoder is limited to the ASCII range of each unit).
pub open spec fn spec_low_bytes(s: Seq<u16>) -> Seq<u8> {
    Seq::new(s.len(), |k: int| (s[k] & 0xff) as u8)
}

/// The prefix of `s` that precedes its first zero byte, from position `k`
/// on; all of it when no zero byte follows.
pub open spec fn spec_take_until_zero_from(s: Seq<u8>, k: int) -> Seq<u8>
    decreases s.len() - k,
{
    if k < 0 || k >= s.len() {
        Seq::empty()
    } else if s[k] == 0 {
        Seq::empty()
    } else {
        seq![s[k]] + spec_take_until_zero_from(s, k + 1)
    }
}

/// The prefix of `s` that precedes its first zero byte; all of `s` when it
/// has no zero byte.
pub open spec fn spec_take_until_zero(s: Seq<u8>) -> Seq<u8> {
    spec_take_until_zero_from(s, 0)
}

/// The byte sequence a name is decoded from: the low bytes of its units up
/// to the first zero.
pub open spec fn spec_name_prefix(e: GptEntView) -> Seq<u8> {
    spec_take_until_zero(spec_low_bytes(e.ent_name))
}

/// Decodes a partition name: the low byte of each UTF-16LE unit up to the
/// first zero byte (all 36 when none is zero), which must form valid text.
pub fn decode_entry_name(name: &[u16; 36]) -> (r: Result<String, GptError>)
    ensures
        r is Ok <==> vstd::utf8::valid_utf8(spec_take_until_zero(spec_low_bytes(name@))),
        r matches Ok(s) ==> s@ == vstd::utf8::decode_utf8(
            spec_take_until_zero(spec_low_bytes(name@)),
        ),
        r matches Err(e) ==> e == GptError::BadName,
{
    let ghost lows = spec_low_bytes(name@);
    let mut bytes: Vec<u8> = Vec::new();
    let mut k: usize = 0;
    while k < 36
        invariant_except_break
            k <= 36,
            lows == spec_low_bytes(name@),
            lows.len() == 36,
            spec_take_until_zero_from(lows, 0) == bytes@ + spec_take_until_zero_from(
                lows,
                k as int,
            ),
        ensures
            spec_take_until_zero_from(lows, 0) =~= bytes@,
        decreases 36 - k,
    {
        let b: u8 = (name[k] & 0xff) as u8;
        proof {
            assert(lows[k as int] == b);
        }
        if b == 0 {
            proof {
                assert(spec_take_until_zero_from(lows, k as int) =~= Seq::<u8>::empty());
                assert(bytes@ + Seq::<u8>::empty() =~= bytes@);
            }
            break;
        }
        let ghost prev = bytes@;
        bytes.push(b);
        proof {
            assert(prev + spec_take_until_zero_from(lows, k as int) =~= bytes@
                + spec_take_until_zero_from(lows, k + 1));
        }
        k = k + 1;
    }
    match crate::text::utf8_to_string(&bytes) {
        Some(s) => Ok(s),
        None => Err(GptError::BadName),
    }
}

/// A fresh zeroed sector buffer.
pub fn alloc_buffer() -> (r: Vec<u8>)
    ensures
        r@.len() == UNIT_SIZE,
        forall|i: int| 0 <= i < UNIT_SIZE ==> r@[i] == 0,
{
    let mut buf: Vec<u8> = Vec::new();
    let mut i: usize = 0;
    while i < UNIT_SIZE
        invariant
            i <= UNIT_SIZE,
            buf@.len() == i,
            forall|k: int| 0 <= k < i ==> buf@[k] == 0,
        decreases UNIT_SIZE - i,
    {
        buf.push(0);
        i = i + 1;
    }
    buf
}

/// Whole sectors spanned by the entry array: the declared entry size times
/// the declared entry count, divided by the sector size.
pub open spec fn spec_table_sectors(entries: u32, entsz: u32) -> int {
    (entsz as int * entries as int) / 512
}

/// Slots decoded per sector: the sector size divided by the declared entry
/// size; none when that size is zero.
pub open spec fn spec_slots_per_sector(entsz: u32) -> int {
    if entsz == 0 {
        0
    } else {
        512 as int / entsz as int
    }
}

/// Slots the whole entry array holds: sectors times slots per sector.
pub open spec fn spec_total_slots(entries: u32, entsz: u32) -> int {
    spec_table_sectors(entries, entsz) * spec_slots_per_sector(entsz)
}

/// The entry array never holds more slots than the declared entry count.
pub proof fn lemma_total_slots_le_entries(entries: u32, entsz: u32)
    ensures
        0 <= spec_table_sectors(entries, entsz),
        0 <= spec_slots_per_sector(entsz) <= 512,
        0 <= spec_total_slots(entries, entsz) <= entries,
{
    let p = entsz as int * entries as int;
    let sectors = p / 512;
    assert(p >= 0) by (nonlinear_arith)
        requires
            p == entsz as int * entries as int,
            entsz as int >= 0 && entries as int >= 0,
    ;
    vstd::arithmetic::div_mod::lemma_fundamental_div_mod(p, 512);
    vstd::arithmetic::div_mod::lemma_mod_bound(p, 512);
    assert(sectors >= 0);
    if entsz == 0 {
        assert(p == 0) by (nonlinear_arith)
            requires
                p == entsz as int * entries as int,
                entsz as int == 0,
        ;
        assert(spec_total_slots(entries, entsz) == 0) by (nonlinear_arith)
            requires
                spec_slots_per_sector(entsz) == 0,
        ;
    } else {
        let slots = 512 as int / entsz as int;
        vstd::arithmetic::div_mod::lemma_fundamental_div_mod(512, entsz as int);
        vstd::arithmetic::div_mod::lemma_mod_bound(512, entsz as int);
        assert(slots >= 0 && slots <= 512);
        assert(512 * sectors <= p);
        assert(entsz as int * slots <= 512);
        assert(sectors * slots <= entries as int) by (nonlinear_arith)
            requires
                512 * sectors <= entsz as int * entries as int,
                entsz as int * slots <= 512,
                entsz as int >= 1,
                sectors >= 0,
                slots >= 0,
                entries as int >= 0,
        ;
        assert(sectors * slots >= 0) by (nonlinear_arith)
            requires
                sectors >= 0 && slots >= 0,
        ;
    }
}

/// The sector count and slots-per-sector of the entry array that a header
/// declares.
pub fn entry_table_geometry(entries: u32, entsz: u32) -> (r: (u64, u64))
    ensures
        r.0 == spec_table_sectors(entries, entsz),
        r.1 == spec_slots_per_sector(entsz),
{
    proof {
        assert(entsz as int * entries as int <= 0xffff_ffffint * 0xffff_ffffint) by (
        nonlinear_arith)
            requires
                entsz as int <= 0xffff_ffff && entries as int <= 0xffff_ffff && entsz as int >= 0
                    && entries as int >= 0,
        ;
    }
    let sectors = (entsz as u64 * entries as u64) / 512;
    let slots: u64 = if entsz == 0 {
        0
    } else {
        512 / (entsz as u64)
    };
    (sectors, slots)
}

/// Bytes spanned by the entry array: its whole sectors times the sector
/// size.
pub fn entry_table_span(entries: u32, entsz: u32) -> (r: u64)
    ensures
        r == spec_table_sectors(entries, entsz) * 512,
{
    let (sectors, _) = entry_table_geometry(entries, entsz);
    proof {
        let p = entsz as int * entries as int;
        vstd::arithmetic::div_mod::lemma_fundamental_div_mod(p, 512);
        vstd::arithmetic::div_mod::lemma_mod_bound(p, 512);
        assert(p >= 0) by (nonlinear_arith)
            requires
                p == entsz as int * entries as int,
                entsz as int >= 0 && entries as int >= 0,
        ;
        assert(p <= 0xffff_ffffint * 0xffff_ffffint) by (nonlinear_arith)
            requires
                p == entsz as int * entries as int,
                entsz as int <= 0xffff_ffff && entries as int <= 0xffff_ffff && entsz as int >= 0
                    && entries as int >= 0,
        ;
    }
    sectors * 512
}

/// True when a slot is printed: in verbose mode every slot, otherwise only
/// the used ones.
pub open spec fn spec_printable(e: GptEntView, verbose: bool) -> bool {
    verbose || !spec_entry_unused(e)
}

/// The 128 bytes that global slot `i` of the entry array is decoded from:
/// slots lie at a fixed 128-byte stride inside each 512-byte sector.
pub open spec fn spec_slot_bytes(data: Seq<u8>, entsz: u32, i: int) -> Seq<u8> {
    let sec = i / spec_slots_per_sector(entsz);
    let j = i % spec_slots_per_sector(entsz);
    data.subrange(sec * 512 + j * 128, sec * 512 + j * 128 + 128)
}

/// The record that global slot `i` decodes to.
pub open spec fn spec_slot(data: Seq<u8>, entsz: u32, i: int) -> GptEntView {
    spec_decode_entry(spec_slot_bytes(data, entsz, i))
}

/// True when slot `i` is printed but its name bytes are not valid text.
pub open spec fn spec_bad_slot(data: Seq<u8>, entsz: u32, verbose: bool, i: int) -> bool {
    spec_printable(spec_slot(data, entsz, i), verbose) && !vstd::utf8::valid_utf8(
        spec_name_prefix(spec_slot(data, entsz, i)),
    )
}

/// True when one of the first `k` slots is printed with an invalid name.
pub open spec fn spec_has_bad_slot(data: Seq<u8>, entsz: u32, verbose: bool, k: int) -> bool {
    exists|i: int| 0 <= i < k && spec_bad_slot(data, entsz, verbose, i)
}

/// The printable rows among the first `k` slots, in slot order, each with
/// its global index.
pub open spec fn spec_report_upto(data: Seq<u8>, entsz: u32, verbose: bool, k: int) -> Seq<
    (int, GptEntView),
>
    decreases k,
{
    if k <= 0 {
        Seq::empty()
    } else {
        spec_report_upto(data, entsz, verbose, k - 1) + (if spec_printable(
            spec_slot(data, entsz, k - 1),
            verbose,
        ) {
            seq![(k - 1, spec_slot(data, entsz, k - 1))]
        } else {
            Seq::empty()
        })
    }
}

/// The slots the decoder walks before it stops: all of them, or the first
/// four when the declared entry size packs more than four slots into one
/// sector, where the fixed stride would leave the sector.
pub open spec fn spec_slot_limit(entries: u32, entsz: u32) -> int {
    if spec_table_sectors(entries, entsz) > 0 && spec_slots_per_sector(entsz) > 4 {
        4
    } else {
        spec_total_slots(entries, entsz)
    }
}

/// One printable row of the entry report: the slot's zero-based global
/// index, its decoded record, and its decoded name.
#[derive(Debug)]
pub struct EntrySlot {
    pub index: usize,
    pub ent: GptEnt,
    pub name: String,
}

/// Decodes the whole entry array from the bytes of its sectors.  The rows
/// of the report are the printable slots in order.  Decoding stops at the
/// first printable slot whose name is not valid text, then at the first
/// slot the fixed stride cannot reach, and finally fails unless the slots
/// seen equal the declared entry count.
pub fn decode_entry_table(data: &[u8], entries: u32, entsz: u32, verbose: bool) -> (r: Result<
    Vec<EntrySlot>,
    GptError,
>)
    requires
        data@.len() == spec_table_sectors(entries, entsz) * 512,
    ensures
        r is Ok <==> ({
            &&& !spec_has_bad_slot(data@, entsz, verbose, spec_slot_limit(entries, entsz))
            &&& !(spec_table_sectors(entries, entsz) > 0 && spec_slots_per_sector(entsz) > 4)
            &&& spec_total_slots(entries, entsz) == entries
        }),
        r matches Ok(v) ==> ({
            let rep = spec_report_upto(data@, entsz, verbose, spec_total_slots(entries, entsz));
            &&& v@.len() == rep.len()
            &&& forall|t: int|
                0 <= t < rep.len() ==> (#[trigger] v@[t]).index as int == rep[t].0 && v@[t].ent@
                    == rep[t].1 && v@[t].name@ == vstd::utf8::decode_utf8(
                    spec_name_prefix(rep[t].1),
                )
        }),
        r matches Err(e) ==> e == (if spec_has_bad_slot(
            data@,
            entsz,
            verbose,
            spec_slot_limit(entries, entsz),
        ) {
            GptError::BadName
        } else if spec_table_sectors(entries, entsz) > 0 && spec_slots_per_sector(entsz) > 4 {
            GptError::BadLayout
        } else {
            GptError::SlotCountMismatch
        }),
{
    proof {
        lemma_total_slots_le_entries(entries, entsz);
    }
    let (sectors64, slots64) = entry_table_geometry(entries, entsz);
    let total64: u64 = sectors64 * slots64;
    let total: usize = total64 as usize;
    let slots: usize = slots64 as usize;
    let dlen = data.len();
    let ghost sectors_g = spec_table_sectors(entries, entsz);
    let ghost slots_g = spec_slots_per_sector(entsz);
    let mut out: Vec<EntrySlot> = Vec::new();
    let mut g: usize = 0;
    while g < total
        invariant
            g <= total,
            total as int == spec_total_slots(entries, entsz),
            slots as int == slots_g,
            slots_g == spec_slots_per_sector(entsz),
            sectors_g == spec_table_sectors(entries, entsz),
            total as int == sectors_g * slots_g,
            0 <= slots_g <= 512,
            0 <= sectors_g,
            data@.len() == sectors_g * 512,
            dlen == data@.len(),
            forall|i: int| 0 <= i < g ==> !spec_bad_slot(data@, entsz, verbose, i),
            forall|i: int| 0 <= i < g ==> #[trigger] (i % slots_g) <= 3,
            out@.len() == spec_report_upto(data@, entsz, verbose, g as int).len(),
            forall|t: int|
                0 <= t < out@.len() ==> (#[trigger] out@[t]).index as int == spec_report_upto(
                    data@,
                    entsz,
                    verbose,
                    g as int,
                )[t].0 && out@[t].ent@ == spec_report_upto(data@, entsz, verbose, g as int)[t].1
                    && out@[t].name@ == vstd::utf8::decode_utf8(
                    spec_name_prefix(spec_report_upto(data@, entsz, verbose, g as int)[t].1),
                ),
        decreases total - g,
    {
        proof {
            assert(slots_g >= 1) by (nonlinear_arith)
                requires
                    sectors_g * slots_g >= 1,
                    sectors_g >= 0,
                    slots_g >= 0,
            ;
            assert(sectors_g >= 1) by (nonlinear_arith)
                requires
                    sectors_g * slots_g >= 1,
                    sectors_g >= 0,
                    slots_g >= 0,
            ;
        }
        let j = g % slots;
        proof {
            vstd::arithmetic::div_mod::lemma_mod_bound(g as int, slots_g);
            vstd::arithmetic::div_mod::lemma_mod_decreases(g as nat, slots as nat);
        }
        if j >= 4 {
            proof {
                assert(slots_g > 4);
                assert(g >= 4);
                assert(spec_slot_limit(entries, entsz) == 4);
                assert(!spec_has_bad_slot(data@, entsz, verbose, 4));
            }
            return Err(GptError::BadLayout);
        }
        let sec = g / slots;
        proof {
            vstd::arithmetic::div_mod::lemma_multiply_divide_lt(g as int, slots_g, sectors_g);
            assert(sec as int == g as int / slots_g);
            assert(sec < sectors_g);
            assert(sec as int * 512 + 512 <= sectors_g * 512) by (nonlinear_arith)
                requires
                    (sec as int) < sectors_g,
            ;
        }
        let off = sec * 512 + j * 128;
        let eb = slice_subrange(data, off, off + 128);
        let ent = decode_entry(eb);
        proof {
            assert(eb@ == spec_slot_bytes(data@, entsz, g as int));
            assert(ent@ == spec_slot(data@, entsz, g as int));
        }
        let printable = verbose || !entry_is_unused(&ent);
        proof {
            assert(printable == spec_printable(spec_slot(data@, entsz, g as int), verbose));
        }
        let ghost repg = spec_report_upto(data@, entsz, verbose, g as int);
        let ghost repg1 = spec_report_upto(data@, entsz, verbose, g + 1);
        if printable {
            match decode_entry_name(&ent.ent_name) {
                Ok(nm) => {
                    proof {
                        assert(!spec_bad_slot(data@, entsz, verbose, g as int));
                        assert(repg1 == repg + seq![(g as int, spec_slot(data@, entsz, g as int))]);
                    }
                    let ghost nmv = nm@;
                    out.push(EntrySlot { index: g, ent, name: nm });
                    proof {
                        assert(out@.len() == repg1.len());
                        assert forall|t: int| 0 <= t < out@.len() implies (#[trigger] out@[t]).index
                            as int == repg1[t].0 && out@[t].ent@ == repg1[t].1 && out@[t].name@
                            == vstd::utf8::decode_utf8(spec_name_prefix(repg1[t].1)) by {
                            if t < out@.len() - 1 {
                                assert(repg1[t] == repg[t]);
                            } else {
                                assert(repg1[t] == (g as int, spec_slot(data@, entsz, g as int)));
                            }
                        }
                    }
                },
                Err(_) => {
                    proof {
                        assert(spec_bad_slot(data@, entsz, verbose, g as int));
                        if sectors_g > 0 && slots_g > 4 {
                            if g >= 4 {
                                if g > 4 {
                                    assert(4int % slots_g <= 3);
                                } else {
                                    assert((g as int) % slots_g <= 3);
                                }
                                vstd::arithmetic::div_mod::lemma_small_mod(4nat, slots_g as nat);
                                assert(false);
                            }
                            assert((g as int) < spec_slot_limit(entries, entsz));
                        } else {
                            assert(spec_slot_limit(entries, entsz) == total as int);
                        }
                        assert(spec_has_bad_slot(
                            data@,
                            entsz,
                            verbose,
                            spec_slot_limit(entries, entsz),
                        ));
                    }
                    return Err(GptError::BadName);
                },
            }
        } else {
            proof {
                assert(repg1 =~= repg);
                assert forall|t: int| 0 <= t < out@.len() implies (#[trigger] out@[t]).index as int
                    == repg1[t].0 && out@[t].ent@ == repg1[t].1 && out@[t].name@
                    == vstd::utf8::decode_utf8(spec_name_prefix(repg1[t].1)) by {
                    assert(repg1[t] == repg[t]);
                }
            }
        }
        proof {
            assert(!spec_bad_slot(data@, entsz, verbose, g as int));
        }
        g = g + 1;
    }
    proof {
        if sectors_g > 0 && slots_g > 4 {
            assert(total as int >= slots_g) by (nonlinear_arith)
                requires
                    total as int == sectors_g * slots_g,
                    sectors_g >= 1,
                    slots_g >= 0,
            ;
            assert(4int % slots_g <= 3);
            vstd::arithmetic::div_mod::lemma_small_mod(4nat, slots_g as nat);
            assert(false);
        }
        assert(spec_slot_limit(entries, entsz) == total as int);
    }
    if total != entries as usize {
        return Err(GptError::SlotCountMismatch);
    }
    Ok(out)
}

/// The stations of a dump, in the order they are visited.
#[derive(Clone, Copy, Debug, PartialEq, Eq, Structural)]
pub enum DumpPhase {
    /// Decode the primary header, found at LBA 1.
    PrimaryHeader,
    /// Decode the secondary header, found at the primary's alternate LBA.
    SecondaryHeader,
    /// Decode the primary entry array.
    PrimaryEntries,
    /// Decode the secondary entry array, at the secondary header's table LBA.
    SecondaryEntries,
    /// The dump is complete.
    Done,
}

/// The station after `p`: primary header, then (unless `noalt`) the
/// secondary header, then the primary entries, then (unless `noalt`) the
/// secondary entries.  A dump stops at the first failing station.
pub open spec fn spec_next_phase(p: DumpPhase, noalt: bool) -> DumpPhase {
    match p {
        DumpPhase::PrimaryHeader => if noalt {
            DumpPhase::PrimaryEntries
        } else {
            DumpPhase::SecondaryHeader
        },
        DumpPhase::SecondaryHeader => DumpPhase::PrimaryEntries,
        DumpPhase::PrimaryEntries => if noalt {
            DumpPhase::Done
        } else {
            DumpPhase::SecondaryEntries
        },
        DumpPhase::SecondaryEntries => DumpPhase::Done,
        DumpPhase::Done => DumpPhase::Done,
    }
}

pub fn next_phase(p: DumpPhase, noalt: bool) -> (r: DumpPhase)
    ensures
        r == spec_next_phase(p, noalt),
{
    match p {
        DumpPhase::PrimaryHeader => if noalt {
            DumpPhase::PrimaryEntries
        } else {
            DumpPhase::SecondaryHeader
        },
        DumpPhase::SecondaryHeader => DumpPhase::PrimaryEntries,
        DumpPhase::PrimaryEntries => if noalt {
            DumpPhase::Done
        } else {
            DumpPhase::SecondaryEntries
        },
        DumpPhase::SecondaryEntries => DumpPhase::Done,
        DumpPhase::Done => DumpPhase::Done,
    }
}

/// The byte offset of the sector at `lba`, or `None` when it lies beyond
/// the addressable range.
pub fn sector_offset(lba: u64) -> (r: Option<u64>)
    ensures
        r matches Some(o) ==> o == lba as int * 512,
        r is Some <==> lba as int * 512 <= u64::MAX,
{
    if lba <= u64::MAX / 512 {
        Some(lba * 512)
    } else {
        None
    }
}

/// The string a UUID is displayed as: its registry name when symbol mode is
/// on and the identifier is well known, its canonical form otherwise.
pub fn try_known_uuid_to_str(uuid: &Uuid, opt: &Opt) -> (r: String)
    ensures
        r@ == (if opt.symbol && spec_known_name(uuid@).len() > 0 {
            spec_known_name(uuid@)
        } else {
            spec_uuid_chars(uuid@)
        }),
{
    if opt.symbol {
        let s = known_uuid_to_str(uuid);
        if !s.is_empty() {
            return s.to_owned();
        }
    }
    uuid_to_str(uuid)
}

} // verus!
