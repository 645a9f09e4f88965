use gptdump::uuid;

#[test]
fn test_uuid_to_string() {
    let u = uuid::Uuid::new();
    assert_eq!(
        uuid::uuid_to_string(&u),
        "00000000-0000-0000-0000-000000000000"
    );

    let u = uuid::Uuid {
        time_low: 0x516e7cb4,
        time_mid: 0x6ecf,
        time_hi_and_version: 0x11d6,
        clock_seq_hi_and_reserved: 0x8f,
        clock_seq_low: 0xf8,
        node: [0x00, 0x02, 0x2d, 0x09, 0x71, 0x2b],
    };
    assert_eq!(
        uuid::uuid_to_string(&u),
        "516e7cb4-6ecf-11d6-8ff8-00022d09712b"
    );
}

#[test]
fn test_uuid_string_shape() {
    let samples = [
        uuid::Uuid::new(),
        uuid::Uuid {
            time_low: 0xdeadbeef,
            time_mid: 0x0102,
            time_hi_and_version: 0xfffe,
            clock_seq_hi_and_reserved: 0x00,
            clock_seq_low: 0xff,
            node: [0x10, 0x32, 0x54, 0x76, 0x98, 0xba],
        },
        uuid::Uuid {
            time_low: u32::MAX,
            time_mid: u16::MAX,
            time_hi_and_version: 0,
            clock_seq_hi_and_reserved: u8::MAX,
            clock_seq_low: 1,
            node: [0xff; 6],
        },
    ];
    for u in samples.iter() {
        let s = uuid::uuid_to_string(u);
        assert_eq!(s.len(), 36);
        for (i, c) in s.chars().enumerate() {
            if i == 8 || i == 13 || i == 18 || i == 23 {
                assert_eq!(c, '-');
            } else {
                assert!(c.is_ascii_hexdigit() && !c.is_ascii_uppercase());
            }
        }
    }
}

#[test]
fn test_uuid_string_exact_mixed() {
    let u = uuid::Uuid {
        time_low: 0xdeadbeef,
        time_mid: 0x0102,
        time_hi_and_version: 0xfffe,
        clock_seq_hi_and_reserved: 0x00,
        clock_seq_low: 0xff,
        node: [0x10, 0x32, 0x54, 0x76, 0x98, 0xba],
    };
    assert_eq!(
        uuid::uuid_to_string(&u),
        "deadbeef-0102-fffe-00ff-1032547698ba"
    );
}
