use gptdump::gpt;
use gptdump::gpt::DumpPhase;
use gptdump::uuid;
use gptdump::Opt;

fn put_u16(buf: &mut [u8], off: usize, v: u16) {
    buf[off..off + 2].copy_from_slice(&v.to_le_bytes());
}

fn put_u32(buf: &mut [u8], off: usize, v: u32) {
    buf[off..off + 4].copy_from_slice(&v.to_le_bytes());
}

fn put_u64(buf: &mut [u8], off: usize, v: u64) {
    buf[off..off + 8].copy_from_slice(&v.to_le_bytes());
}

fn freebsd_uuid() -> uuid::Uuid {
    uuid::Uuid {
        time_low: 0x516e7cb4,
        time_mid: 0x6ecf,
        time_hi_and_version: 0x11d6,
        clock_seq_hi_and_reserved: 0x8f,
        clock_seq_low: 0xf8,
        node: [0x00, 0x02, 0x2d, 0x09, 0x71, 0x2b],
    }
}

fn put_freebsd_uuid(buf: &mut [u8], off: usize) {
    put_u32(buf, off, 0x516e7cb4);
    put_u16(buf, off + 4, 0x6ecf);
    put_u16(buf, off + 6, 0x11d6);
    buf[off + 8] = 0x8f;
    buf[off + 9] = 0xf8;
    buf[off + 10..off + 16].copy_from_slice(&[0x00, 0x02, 0x2d, 0x09, 0x71, 0x2b]);
}

fn header_sector(entries: u32, entsz: u32) -> Vec<u8> {
    let mut buf = vec![0u8; 512];
    buf[0..8].copy_from_slice(b"EFI PART");
    put_u32(&mut buf, 8, 0x0001_0000);
    put_u32(&mut buf, 12, 92);
    put_u32(&mut buf, 16, 0xdead_beef);
    put_u64(&mut buf, 24, 1);
    put_u64(&mut buf, 32, 0x1000);
    put_u64(&mut buf, 40, 34);
    put_u64(&mut buf, 48, 0xffe);
    put_freebsd_uuid(&mut buf, 56);
    put_u64(&mut buf, 72, 2);
    put_u32(&mut buf, 80, entries);
    put_u32(&mut buf, 84, entsz);
    put_u32(&mut buf, 88, 0xcafe_f00d);
    buf
}

#[test]
fn test_header_decode_fields() {
    let buf = header_sector(128, 128);
    let hdr = gpt::decode_header(&buf).unwrap();
    assert_eq!(&hdr.hdr_sig, b"EFI PART");
    assert_eq!(hdr.hdr_revision, 0x0001_0000);
    assert_eq!(hdr.hdr_size, 92);
    assert_eq!(hdr.hdr_crc_self, 0xdead_beef);
    assert_eq!(hdr.reserved, 0);
    assert_eq!(hdr.hdr_lba_self, 1);
    assert_eq!(hdr.hdr_lba_alt, 0x1000);
    assert_eq!(hdr.hdr_lba_start, 34);
    assert_eq!(hdr.hdr_lba_end, 0xffe);
    assert_eq!(hdr.hdr_uuid, freebsd_uuid());
    assert_eq!(hdr.hdr_lba_table, 2);
    assert_eq!(hdr.hdr_entries, 128);
    assert_eq!(hdr.hdr_entsz, 128);
    assert_eq!(hdr.hdr_crc_table, 0xcafe_f00d);
    assert_eq!(hdr.padding, 0);
}

#[test]
fn test_header_rejects_entry_count() {
    let buf = header_sector(513, 128);
    assert_eq!(
        gpt::decode_header(&buf).unwrap_err(),
        gpt::GptError::MalformedHeader
    );

    let buf = header_sector(512, 128);
    assert!(gpt::decode_header(&buf).is_ok());
}

#[test]
fn test_entry_table_geometry() {
    let (sectors, slots) = gpt::entry_table_geometry(128, 128);
    assert_eq!(sectors, 32);
    assert_eq!(slots, 4);
    assert_eq!(gpt::entry_table_span(128, 128), 32 * 512);
}

#[test]
fn test_entry_table_full_span() {
    let data = vec![0u8; 32 * 512];
    let report = gpt::decode_entry_table(&data, 128, 128, true).unwrap();
    assert_eq!(report.len(), 128);
    for (t, slot) in report.iter().enumerate() {
        assert_eq!(slot.index, t);
        assert_eq!(slot.name, "");
    }

    let report = gpt::decode_entry_table(&data, 128, 128, false).unwrap();
    assert_eq!(report.len(), 0);
}

#[test]
fn test_entry_decode() {
    let mut buf = vec![0u8; 128];
    put_freebsd_uuid(&mut buf, 0);
    put_freebsd_uuid(&mut buf, 16);
    put_u64(&mut buf, 32, 34);
    put_u64(&mut buf, 40, 0x7ff);
    put_u64(&mut buf, 48, 0x8000_0000_0000_0001);
    buf[56] = 0x45;
    buf[58] = 0x46;
    buf[60] = 0x49;
    let ent = gpt::decode_entry(&buf);
    assert_eq!(ent.ent_type, freebsd_uuid());
    assert_eq!(ent.ent_uuid, freebsd_uuid());
    assert_eq!(ent.ent_lba_start, 34);
    assert_eq!(ent.ent_lba_end, 0x7ff);
    assert_eq!(ent.ent_attr, 0x8000_0000_0000_0001);
    assert_eq!(ent.ent_name[0], 0x45);
    assert_eq!(ent.ent_name[1], 0x46);
    assert_eq!(ent.ent_name[2], 0x49);
    assert_eq!(gpt::decode_entry_name(&ent.ent_name), Ok("EFI".to_string()));
}

#[test]
fn test_entry_name_efi() {
    let mut name = [0u16; 36];
    name[0] = 0x45;
    name[1] = 0x46;
    name[2] = 0x49;
    assert_eq!(gpt::decode_entry_name(&name), Ok("EFI".to_string()));
}

#[test]
fn test_entry_name_full_width() {
    let name = [0x61u16; 36];
    assert_eq!(
        gpt::decode_entry_name(&name),
        Ok("aaaaaaaaaaaaaaaaaaaaaaaaaaaaaaaaaaaa".to_string())
    );
}

#[test]
fn test_entry_name_high_byte_dropped() {
    let mut name = [0u16; 36];
    name[0] = 0x0145;
    assert_eq!(gpt::decode_entry_name(&name), Ok("E".to_string()));
}

#[test]
fn test_entry_name_invalid_text() {
    let mut name = [0u16; 36];
    name[0] = 0x80;
    assert_eq!(gpt::decode_entry_name(&name), Err(gpt::GptError::BadName));
}

#[test]
fn test_entry_name_multibyte() {
    let mut name = [0u16; 36];
    name[0] = 0xc3;
    name[1] = 0xa9;
    assert_eq!(gpt::decode_entry_name(&name), Ok("\u{e9}".to_string()));
}

#[test]
fn test_slot_count_mismatch() {
    let data = vec![0u8; 512];
    assert_eq!(
        gpt::decode_entry_table(&data, 5, 128, false).unwrap_err(),
        gpt::GptError::SlotCountMismatch
    );
}

#[test]
fn test_bad_layout() {
    let data = vec![0u8; 512];
    assert_eq!(
        gpt::decode_entry_table(&data, 8, 64, false).unwrap_err(),
        gpt::GptError::BadLayout
    );
}

#[test]
fn test_bad_name_in_table() {
    let mut data = vec![0u8; 512];
    put_u16(&mut data, 56, 0x80);
    assert_eq!(
        gpt::decode_entry_table(&data, 4, 128, false).unwrap_err(),
        gpt::GptError::BadName
    );
}

#[test]
fn test_used_slot_reported() {
    let mut data = vec![0u8; 512];
    put_freebsd_uuid(&mut data, 2 * 128);
    put_u16(&mut data, 2 * 128 + 56, 0x45);
    let report = gpt::decode_entry_table(&data, 4, 128, false).unwrap();
    assert_eq!(report.len(), 1);
    assert_eq!(report[0].index, 2);
    assert_eq!(report[0].ent.ent_type, freebsd_uuid());
    assert_eq!(report[0].name, "E");
}

#[test]
fn test_resolve_display_uuid() {
    let sym = Opt {
        verbose: false,
        symbol: true,
        noalt: false,
    };
    let plain = Opt {
        verbose: false,
        symbol: false,
        noalt: false,
    };
    let u = freebsd_uuid();
    assert_eq!(gpt::try_known_uuid_to_str(&u, &sym), "FREEBSD");
    assert_eq!(
        gpt::try_known_uuid_to_str(&u, &plain),
        "516e7cb4-6ecf-11d6-8ff8-00022d09712b"
    );

    let mut unknown = freebsd_uuid();
    unknown.time_low = 0x416e7cb4;
    assert_eq!(
        gpt::try_known_uuid_to_str(&unknown, &sym),
        "416e7cb4-6ecf-11d6-8ff8-00022d09712b"
    );

    let zero = uuid::Uuid::new();
    assert_eq!(gpt::try_known_uuid_to_str(&zero, &sym), "UNUSED");
}

#[test]
fn test_known_zero_uuid() {
    let zero = uuid::Uuid::new();
    assert_eq!(gptdump::subr::known_uuid_to_str(&zero), "UNUSED");
}

#[test]
fn test_next_phase() {
    assert_eq!(
        gpt::next_phase(DumpPhase::PrimaryHeader, false),
        DumpPhase::SecondaryHeader
    );
    assert_eq!(
        gpt::next_phase(DumpPhase::SecondaryHeader, false),
        DumpPhase::PrimaryEntries
    );
    assert_eq!(
        gpt::next_phase(DumpPhase::PrimaryEntries, false),
        DumpPhase::SecondaryEntries
    );
    assert_eq!(
        gpt::next_phase(DumpPhase::SecondaryEntries, false),
        DumpPhase::Done
    );
    assert_eq!(
        gpt::next_phase(DumpPhase::PrimaryHeader, true),
        DumpPhase::PrimaryEntries
    );
    assert_eq!(gpt::next_phase(DumpPhase::PrimaryEntries, true), DumpPhase::Done);
    assert_eq!(gpt::next_phase(DumpPhase::Done, true), DumpPhase::Done);
}

#[test]
fn test_sector_offset() {
    assert_eq!(gpt::sector_offset(0), Some(0));
    assert_eq!(gpt::sector_offset(1), Some(512));
    assert_eq!(gpt::sector_offset(0x1000), Some(0x1000 * 512));
    assert_eq!(gpt::sector_offset(u64::MAX), None);
}

#[test]
fn test_alloc_buffer() {
    let buf = gpt::alloc_buffer();
    assert_eq!(buf.len(), 512);
    assert!(buf.iter().all(|b| *b == 0));
}

#[test]
fn test_entry_is_unused() {
    let e = gpt::GptEnt::new();
    assert!(gpt::entry_is_unused(&e));

    let mut e = gpt::GptEnt::new();
    e.ent_attr = 1;
    assert!(!gpt::entry_is_unused(&e));

    let mut e = gpt::GptEnt::new();
    e.ent_name[35] = 1;
    assert!(!gpt::entry_is_unused(&e));

    let mut e = gpt::GptEnt::new();
    e.ent_type = freebsd_uuid();
    assert!(!gpt::entry_is_unused(&e));
}

#[test]
fn test_version_string() {
    assert_eq!(gptdump::get_version_string(), "0.1.8");
}

#[test]
fn test_is_le_on_this_host() {
    assert!(gptdump::subr::is_le());
    gptdump::subr::assert_ds();
}

#[test]
fn test_decode_uuid_bytes() {
    let b: [u8; 16] = [
        0xb4, 0x7c, 0x6e, 0x51, 0xcf, 0x6e, 0xd6, 0x11, 0x8f, 0xf8, 0x00, 0x02, 0x2d, 0x09,
        0x71, 0x2b,
    ];
    let u = gpt::decode_uuid(&b);
    assert_eq!(u, freebsd_uuid());
    assert_eq!(
        gptdump::uuid::uuid_to_string(&u),
        "516e7cb4-6ecf-11d6-8ff8-00022d09712b"
    );
}
