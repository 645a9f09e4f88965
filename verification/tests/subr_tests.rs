use gptdump::gpt;
use gptdump::subr;
use gptdump::uuid;

#[test]
fn test_uuid_to_str() {
    let u = uuid::Uuid {
        ..uuid::Uuid::default()
    };
    assert_eq!(
        subr::uuid_to_str(&u),
        "00000000-0000-0000-0000-000000000000"
    );
}

#[test]
fn test_known_uuid() {
    let known_uuid = subr::get_known_uuid();
    let mut n = 0;
    for (i, a) in known_uuid.iter().enumerate() {
        for (j, b) in known_uuid.iter().enumerate() {
            if i == j {
                n += 1;
                continue;
            }
            assert_ne!(a.uuid, b.uuid);
            assert_ne!(a.name, b.name);
            assert!(!a.name.is_empty());
            assert!(!b.name.is_empty());
        }
    }
    assert_eq!(n, known_uuid.len());
}

#[test]
fn test_known_uuid_to_str() {
    let u = uuid::Uuid {
        time_low: 0x516e7cb4,
        time_mid: 0x6ecf,
        time_hi_and_version: 0x11d6,
        clock_seq_hi_and_reserved: 0x8f,
        clock_seq_low: 0xf8,
        node: [0x00, 0x02, 0x2d, 0x09, 0x71, 0x2b],
    };
    assert_eq!(subr::known_uuid_to_str(&u), "FREEBSD");

    let u = uuid::Uuid {
        time_low: 0x416e7cb4,
        time_mid: 0x6ecf,
        time_hi_and_version: 0x11d6,
        clock_seq_hi_and_reserved: 0x8f,
        clock_seq_low: 0xf8,
        node: [0x00, 0x02, 0x2d, 0x09, 0x71, 0x2b],
    };
    assert_eq!(subr::known_uuid_to_str(&u), "");
}

#[test]
fn test_ds() {
    assert_eq!(gpt::GPT_HDR_NBYTES, 92 + 4);
    assert_eq!(gpt::GPT_ENT_NBYTES, 128);
    assert_eq!(uuid::UUID_NBYTES, 16);
}
