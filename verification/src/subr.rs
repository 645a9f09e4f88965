//! The registry of well-known partition identifiers and small host probes.

use vstd::prelude::*;
use crate::uuid::{Uuid, UuidView, spec_zero_uuid, spec_uuid_chars, uuid_to_string};

verus! {

/// Renders a UUID in its canonical string form.
pub fn uuid_to_str(uuid: &Uuid) -> (r: String)
    ensures
        r@ == spec_uuid_chars(uuid@),
{
    uuid_to_string(uuid)
}

/// One registry row: a well-known UUID and the name it is displayed as.
#[derive(Debug)]
pub struct KnownUuid {
    pub uuid: Uuid,
    pub name: &'static str,
}

/// Number of rows in the registry of well-known identifiers.
pub const KNOWN_UUID_LEN: usize = 64;

/// The UUID of registry row `i`.
pub open spec fn known_uuid_at(i: int) -> UuidView {
    if i == 0 {
        UuidView {
            time_low: 0x00000000,
            time_mid: 0x0000,
            time_hi_and_version: 0x0000,
            clock_seq_hi_and_reserved: 0x00,
            clock_seq_low: 0x00,
            node: seq![0x00u8, 0x00u8, 0x00u8, 0x00u8, 0x00u8, 0x00u8],
        }
    } else if i == 1 {
        UuidView {
            time_low: 0xc12a7328,
            time_mid: 0xf81f,
            time_hi_and_version: 0x11d2,
            clock_seq_hi_and_reserved: 0xba,
            clock_seq_low: 0x4b,
            node: seq![0x00u8, 0xa0u8, 0xc9u8, 0x3eu8, 0xc9u8, 0x3bu8],
        }
    } else if i == 2 {
        UuidView {
            time_low: 0x024dee41,
            time_mid: 0x33e7,
            time_hi_and_version: 0x11d3,
            clock_seq_hi_and_reserved: 0x9d,
            clock_seq_low: 0x69,
            node: seq![0x00u8, 0x08u8, 0xc7u8, 0x81u8, 0xf3u8, 0x9fu8],
        }
    } else if i == 3 {
        UuidView {
            time_low: 0x516e7cb4,
            time_mid: 0x6ecf,
            time_hi_and_version: 0x11d6,
            clock_seq_hi_and_reserved: 0x8f,
            clock_seq_low: 0xf8,
            node: seq![0x00u8, 0x02u8, 0x2du8, 0x09u8, 0x71u8, 0x2bu8],
        }
    } else if i == 4 {
        UuidView {
            time_low: 0x83bd6b9d,
            time_mid: 0x7f41,
            time_hi_and_version: 0x11dc,
            clock_seq_hi_and_reserved: 0xbe,
            clock_seq_low: 0x0b,
            node: seq![0x00u8, 0x15u8, 0x60u8, 0xb8u8, 0x4fu8, 0x0fu8],
        }
    } else if i == 5 {
        UuidView {
            time_low: 0x74ba7dd9,
            time_mid: 0xa689,
            time_hi_and_version: 0x11e1,
            clock_seq_hi_and_reserved: 0xbd,
            clock_seq_low: 0x04,
            node: seq![0x00u8, 0xe0u8, 0x81u8, 0x28u8, 0x6au8, 0xcfu8],
        }
    } else if i == 6 {
        UuidView {
            time_low: 0x516e7cb5,
            time_mid: 0x6ecf,
            time_hi_and_version: 0x11d6,
            clock_seq_hi_and_reserved: 0x8f,
            clock_seq_low: 0xf8,
            node: seq![0x00u8, 0x02u8, 0x2du8, 0x09u8, 0x71u8, 0x2bu8],
        }
    } else if i == 7 {
        UuidView {
            time_low: 0x516e7cb6,
            time_mid: 0x6ecf,
            time_hi_and_version: 0x11d6,
            clock_seq_hi_and_reserved: 0x8f,
            clock_seq_low: 0xf8,
            node: seq![0x00u8, 0x02u8, 0x2du8, 0x09u8, 0x71u8, 0x2bu8],
        }
    } else if i == 8 {
        UuidView {
            time_low: 0x516e7cb8,
            time_mid: 0x6ecf,
            time_hi_and_version: 0x11d6,
            clock_seq_hi_and_reserved: 0x8f,
            clock_seq_low: 0xf8,
            node: seq![0x00u8, 0x02u8, 0x2du8, 0x09u8, 0x71u8, 0x2bu8],
        }
    } else if i == 9 {
        UuidView {
            time_low: 0x516e7cba,
            time_mid: 0x6ecf,
            time_hi_and_version: 0x11d6,
            clock_seq_hi_and_reserved: 0x8f,
            clock_seq_low: 0xf8,
            node: seq![0x00u8, 0x02u8, 0x2du8, 0x09u8, 0x71u8, 0x2bu8],
        }
    } else if i == 10 {
        UuidView {
            time_low: 0x9e1a2d38,
            time_mid: 0xc612,
            time_hi_and_version: 0x4316,
            clock_seq_hi_and_reserved: 0xaa,
            clock_seq_low: 0x26,
            node: seq![0x8bu8, 0x49u8, 0x52u8, 0x1eu8, 0x5au8, 0x8bu8],
        }
    } else if i == 11 {
        UuidView {
            time_low: 0xebd0a0a2,
            time_mid: 0xb9e5,
            time_hi_and_version: 0x4433,
            clock_seq_hi_and_reserved: 0x87,
            clock_seq_low: 0xc0,
            node: seq![0x68u8, 0xb6u8, 0xb7u8, 0x26u8, 0x99u8, 0xc7u8],
        }
    } else if i == 12 {
        UuidView {
            time_low: 0xaf9b60a0,
            time_mid: 0x1431,
            time_hi_and_version: 0x4f62,
            clock_seq_hi_and_reserved: 0xbc,
            clock_seq_low: 0x68,
            node: seq![0x33u8, 0x11u8, 0x71u8, 0x4au8, 0x69u8, 0xadu8],
        }
    } else if i == 13 {
        UuidView {
            time_low: 0x5808c8aa,
            time_mid: 0x7e8f,
            time_hi_and_version: 0x42e0,
            clock_seq_hi_and_reserved: 0x85,
            clock_seq_low: 0xd2,
            node: seq![0xe1u8, 0xe9u8, 0x04u8, 0x34u8, 0xcfu8, 0xb3u8],
        }
    } else if i == 14 {
        UuidView {
            time_low: 0xde94bba4,
            time_mid: 0x06d1,
            time_hi_and_version: 0x4d40,
            clock_seq_hi_and_reserved: 0xa1,
            clock_seq_low: 0x6a,
            node: seq![0xbfu8, 0xd5u8, 0x01u8, 0x79u8, 0xd6u8, 0xacu8],
        }
    } else if i == 15 {
        UuidView {
            time_low: 0xe3c9e316,
            time_mid: 0x0b5c,
            time_hi_and_version: 0x4db8,
            clock_seq_hi_and_reserved: 0x81,
            clock_seq_low: 0x7d,
            node: seq![0xf9u8, 0x2du8, 0xf0u8, 0x02u8, 0x15u8, 0xaeu8],
        }
    } else if i == 16 {
        UuidView {
            time_low: 0xe75caf8f,
            time_mid: 0xf680,
            time_hi_and_version: 0x4cee,
            clock_seq_hi_and_reserved: 0xaf,
            clock_seq_low: 0xa3,
            node: seq![0xb0u8, 0x01u8, 0xe5u8, 0x6eu8, 0xfcu8, 0x2du8],
        }
    } else if i == 17 {
        UuidView {
            time_low: 0x0fc63daf,
            time_mid: 0x8483,
            time_hi_and_version: 0x4772,
            clock_seq_hi_and_reserved: 0x8e,
            clock_seq_low: 0x79,
            node: seq![0x3du8, 0x69u8, 0xd8u8, 0x47u8, 0x7du8, 0xe4u8],
        }
    } else if i == 18 {
        UuidView {
            time_low: 0xa19d880f,
            time_mid: 0x05fc,
            time_hi_and_version: 0x4d3b,
            clock_seq_hi_and_reserved: 0xa0,
            clock_seq_low: 0x06,
            node: seq![0x74u8, 0x3fu8, 0x0fu8, 0x84u8, 0x91u8, 0x1eu8],
        }
    } else if i == 19 {
        UuidView {
            time_low: 0x0657fd6d,
            time_mid: 0xa4ab,
            time_hi_and_version: 0x43c4,
            clock_seq_hi_and_reserved: 0x84,
            clock_seq_low: 0xe5,
            node: seq![0x09u8, 0x33u8, 0xc8u8, 0x4bu8, 0x4fu8, 0x4fu8],
        }
    } else if i == 20 {
        UuidView {
            time_low: 0xe6d6d379,
            time_mid: 0xf507,
            time_hi_and_version: 0x44c2,
            clock_seq_hi_and_reserved: 0xa2,
            clock_seq_low: 0x3c,
            node: seq![0x23u8, 0x8fu8, 0x2au8, 0x3du8, 0xf9u8, 0x28u8],
        }
    } else if i == 21 {
        UuidView {
            time_low: 0xaa31e02a,
            time_mid: 0x400f,
            time_hi_and_version: 0x11db,
            clock_seq_hi_and_reserved: 0x95,
            clock_seq_low: 0x90,
            node: seq![0x00u8, 0x0cu8, 0x29u8, 0x11u8, 0xd1u8, 0xb8u8],
        }
    } else if i == 22 {
        UuidView {
            time_low: 0x9d275380,
            time_mid: 0x40ad,
            time_hi_and_version: 0x11db,
            clock_seq_hi_and_reserved: 0xbf,
            clock_seq_low: 0x97,
            node: seq![0x00u8, 0x0cu8, 0x29u8, 0x11u8, 0xd1u8, 0xb8u8],
        }
    } else if i == 23 {
        UuidView {
            time_low: 0x9198effc,
            time_mid: 0x31c0,
            time_hi_and_version: 0x11db,
            clock_seq_hi_and_reserved: 0x8f,
            clock_seq_low: 0x78,
            node: seq![0x00u8, 0x0cu8, 0x29u8, 0x11u8, 0xd1u8, 0xb8u8],
        }
    } else if i == 24 {
        UuidView {
            time_low: 0x381cfccc,
            time_mid: 0x7288,
            time_hi_and_version: 0x11e0,
            clock_seq_hi_and_reserved: 0x92,
            clock_seq_low: 0xee,
            node: seq![0x00u8, 0x0cu8, 0x29u8, 0x11u8, 0xd0u8, 0xb2u8],
        }
    } else if i == 25 {
        UuidView {
            time_low: 0x426f6f74,
            time_mid: 0x0000,
            time_hi_and_version: 0x11aa,
            clock_seq_hi_and_reserved: 0xaa,
            clock_seq_low: 0x11,
            node: seq![0x00u8, 0x30u8, 0x65u8, 0x43u8, 0xecu8, 0xacu8],
        }
    } else if i == 26 {
        UuidView {
            time_low: 0x48465300,
            time_mid: 0x0000,
            time_hi_and_version: 0x11aa,
            clock_seq_hi_and_reserved: 0xaa,
            clock_seq_low: 0x11,
            node: seq![0x00u8, 0x30u8, 0x65u8, 0x43u8, 0xecu8, 0xacu8],
        }
    } else if i == 27 {
        UuidView {
            time_low: 0x55465300,
            time_mid: 0x0000,
            time_hi_and_version: 0x11aa,
            clock_seq_hi_and_reserved: 0xaa,
            clock_seq_low: 0x11,
            node: seq![0x00u8, 0x30u8, 0x65u8, 0x43u8, 0xecu8, 0xacu8],
        }
    } else if i == 28 {
        UuidView {
            time_low: 0x6a898cc3,
            time_mid: 0x1dd2,
            time_hi_and_version: 0x11b2,
            clock_seq_hi_and_reserved: 0x99,
            clock_seq_low: 0xa6,
            node: seq![0x08u8, 0x00u8, 0x20u8, 0x73u8, 0x66u8, 0x31u8],
        }
    } else if i == 29 {
        UuidView {
            time_low: 0x52414944,
            time_mid: 0x0000,
            time_hi_and_version: 0x11aa,
            clock_seq_hi_and_reserved: 0xaa,
            clock_seq_low: 0x22,
            node: seq![0x00u8, 0x30u8, 0x65u8, 0x43u8, 0xecu8, 0xacu8],
        }
    } else if i == 30 {
        UuidView {
            time_low: 0x52414944,
            time_mid: 0x5f4f,
            time_hi_and_version: 0x11aa,
            clock_seq_hi_and_reserved: 0xaa,
            clock_seq_low: 0x22,
            node: seq![0x00u8, 0x30u8, 0x65u8, 0x43u8, 0xecu8, 0xacu8],
        }
    } else if i == 31 {
        UuidView {
            time_low: 0x4c616265,
            time_mid: 0x6c00,
            time_hi_and_version: 0x11aa,
            clock_seq_hi_and_reserved: 0xaa,
            clock_seq_low: 0x11,
            node: seq![0x00u8, 0x30u8, 0x65u8, 0x43u8, 0xecu8, 0xacu8],
        }
    } else if i == 32 {
        UuidView {
            time_low: 0x5265636f,
            time_mid: 0x7665,
            time_hi_and_version: 0x11aa,
            clock_seq_hi_and_reserved: 0xaa,
            clock_seq_low: 0x11,
            node: seq![0x00u8, 0x30u8, 0x65u8, 0x43u8, 0xecu8, 0xacu8],
        }
    } else if i == 33 {
        UuidView {
            time_low: 0x53746f72,
            time_mid: 0x6167,
            time_hi_and_version: 0x11aa,
            clock_seq_hi_and_reserved: 0xaa,
            clock_seq_low: 0x11,
            node: seq![0x00u8, 0x30u8, 0x65u8, 0x43u8, 0xecu8, 0xacu8],
        }
    } else if i == 34 {
        UuidView {
            time_low: 0x7c3457ef,
            time_mid: 0x0000,
            time_hi_and_version: 0x11aa,
            clock_seq_hi_and_reserved: 0xaa,
            clock_seq_low: 0x11,
            node: seq![0x00u8, 0x30u8, 0x65u8, 0x43u8, 0xecu8, 0xacu8],
        }
    } else if i == 35 {
        UuidView {
            time_low: 0x49f48d5a,
            time_mid: 0xb10e,
            time_hi_and_version: 0x11dc,
            clock_seq_hi_and_reserved: 0xb9,
            clock_seq_low: 0x9b,
            node: seq![0x00u8, 0x19u8, 0xd1u8, 0x87u8, 0x96u8, 0x48u8],
        }
    } else if i == 36 {
        UuidView {
            time_low: 0x49f48d82,
            time_mid: 0xb10e,
            time_hi_and_version: 0x11dc,
            clock_seq_hi_and_reserved: 0xb9,
            clock_seq_low: 0x9b,
            node: seq![0x00u8, 0x19u8, 0xd1u8, 0x87u8, 0x96u8, 0x48u8],
        }
    } else if i == 37 {
        UuidView {
            time_low: 0x49f48d32,
            time_mid: 0xb10e,
            time_hi_and_version: 0x11dc,
            clock_seq_hi_and_reserved: 0xb9,
            clock_seq_low: 0x9b,
            node: seq![0x00u8, 0x19u8, 0xd1u8, 0x87u8, 0x96u8, 0x48u8],
        }
    } else if i == 38 {
        UuidView {
            time_low: 0x49f48daa,
            time_mid: 0xb10e,
            time_hi_and_version: 0x11dc,
            clock_seq_hi_and_reserved: 0xb9,
            clock_seq_low: 0x9b,
            node: seq![0x00u8, 0x19u8, 0xd1u8, 0x87u8, 0x96u8, 0x48u8],
        }
    } else if i == 39 {
        UuidView {
            time_low: 0x2db519c4,
            time_mid: 0xb10f,
            time_hi_and_version: 0x11dc,
            clock_seq_hi_and_reserved: 0xb9,
            clock_seq_low: 0x9b,
            node: seq![0x00u8, 0x19u8, 0xd1u8, 0x87u8, 0x96u8, 0x48u8],
        }
    } else if i == 40 {
        UuidView {
            time_low: 0x2db519ec,
            time_mid: 0xb10f,
            time_hi_and_version: 0x11dc,
            clock_seq_hi_and_reserved: 0xb9,
            clock_seq_low: 0x9b,
            node: seq![0x00u8, 0x19u8, 0xd1u8, 0x87u8, 0x96u8, 0x48u8],
        }
    } else if i == 41 {
        UuidView {
            time_low: 0x9d087404,
            time_mid: 0x1ca5,
            time_hi_and_version: 0x11dc,
            clock_seq_hi_and_reserved: 0x88,
            clock_seq_low: 0x17,
            node: seq![0x01u8, 0x30u8, 0x1bu8, 0xb8u8, 0xa9u8, 0xf5u8],
        }
    } else if i == 42 {
        UuidView {
            time_low: 0x9d58fdbd,
            time_mid: 0x1ca5,
            time_hi_and_version: 0x11dc,
            clock_seq_hi_and_reserved: 0x88,
            clock_seq_low: 0x17,
            node: seq![0x01u8, 0x30u8, 0x1bu8, 0xb8u8, 0xa9u8, 0xf5u8],
        }
    } else if i == 43 {
        UuidView {
            time_low: 0x9d94ce7c,
            time_mid: 0x1ca5,
            time_hi_and_version: 0x11dc,
            clock_seq_hi_and_reserved: 0x88,
            clock_seq_low: 0x17,
            node: seq![0x01u8, 0x30u8, 0x1bu8, 0xb8u8, 0xa9u8, 0xf5u8],
        }
    } else if i == 44 {
        UuidView {
            time_low: 0x9dd4478f,
            time_mid: 0x1ca5,
            time_hi_and_version: 0x11dc,
            clock_seq_hi_and_reserved: 0x88,
            clock_seq_low: 0x17,
            node: seq![0x01u8, 0x30u8, 0x1bu8, 0xb8u8, 0xa9u8, 0xf5u8],
        }
    } else if i == 45 {
        UuidView {
            time_low: 0xdbd5211b,
            time_mid: 0x1ca5,
            time_hi_and_version: 0x11dc,
            clock_seq_hi_and_reserved: 0x88,
            clock_seq_low: 0x17,
            node: seq![0x01u8, 0x30u8, 0x1bu8, 0xb8u8, 0xa9u8, 0xf5u8],
        }
    } else if i == 46 {
        UuidView {
            time_low: 0x3d48ce54,
            time_mid: 0x1d16,
            time_hi_and_version: 0x11dc,
            clock_seq_hi_and_reserved: 0x86,
            clock_seq_low: 0x96,
            node: seq![0x01u8, 0x30u8, 0x1bu8, 0xb8u8, 0xa9u8, 0xf5u8],
        }
    } else if i == 47 {
        UuidView {
            time_low: 0xbd215ab2,
            time_mid: 0x1d16,
            time_hi_and_version: 0x11dc,
            clock_seq_hi_and_reserved: 0x86,
            clock_seq_low: 0x96,
            node: seq![0x01u8, 0x30u8, 0x1bu8, 0xb8u8, 0xa9u8, 0xf5u8],
        }
    } else if i == 48 {
        UuidView {
            time_low: 0x61dc63ac,
            time_mid: 0x6e38,
            time_hi_and_version: 0x11dc,
            clock_seq_hi_and_reserved: 0x85,
            clock_seq_low: 0x13,
            node: seq![0x01u8, 0x30u8, 0x1bu8, 0xb8u8, 0xa9u8, 0xf5u8],
        }
    } else if i == 49 {
        UuidView {
            time_low: 0x5cbb9ad1,
            time_mid: 0x862d,
            time_hi_and_version: 0x11dc,
            clock_seq_hi_and_reserved: 0xa9,
            clock_seq_low: 0x4d,
            node: seq![0x01u8, 0x30u8, 0x1bu8, 0xb8u8, 0xa9u8, 0xf5u8],
        }
    } else if i == 50 {
        UuidView {
            time_low: 0xcab6e88e,
            time_mid: 0xabf3,
            time_hi_and_version: 0x4102,
            clock_seq_hi_and_reserved: 0xa0,
            clock_seq_low: 0x7a,
            node: seq![0xd4u8, 0xbbu8, 0x9bu8, 0xe3u8, 0xc1u8, 0xd3u8],
        }
    } else if i == 51 {
        UuidView {
            time_low: 0xfe3a2a5d,
            time_mid: 0x4f32,
            time_hi_and_version: 0x41a7,
            clock_seq_hi_and_reserved: 0xb7,
            clock_seq_low: 0x25,
            node: seq![0xacu8, 0xccu8, 0x32u8, 0x85u8, 0xa3u8, 0x09u8],
        }
    } else if i == 52 {
        UuidView {
            time_low: 0x2e0a753d,
            time_mid: 0x9e48,
            time_hi_and_version: 0x43b0,
            clock_seq_hi_and_reserved: 0x83,
            clock_seq_low: 0x37,
            node: seq![0xb1u8, 0x51u8, 0x92u8, 0xcbu8, 0x1bu8, 0x5eu8],
        }
    } else if i == 53 {
        UuidView {
            time_low: 0x3cb8e202,
            time_mid: 0x3b7e,
            time_hi_and_version: 0x47dd,
            clock_seq_hi_and_reserved: 0x8a,
            clock_seq_low: 0x3c,
            node: seq![0x7fu8, 0xf2u8, 0xa1u8, 0x3cu8, 0xfcu8, 0xecu8],
        }
    } else if i == 54 {
        UuidView {
            time_low: 0x824cc7a0,
            time_mid: 0x36a8,
            time_hi_and_version: 0x11e3,
            clock_seq_hi_and_reserved: 0x89,
            clock_seq_low: 0x0a,
            node: seq![0x95u8, 0x25u8, 0x19u8, 0xadu8, 0x3fu8, 0x61u8],
        }
    } else if i == 55 {
        UuidView {
            time_low: 0x6a82cb45,
            time_mid: 0x1dd2,
            time_hi_and_version: 0x11b2,
            clock_seq_hi_and_reserved: 0x99,
            clock_seq_low: 0xa6,
            node: seq![0x08u8, 0x00u8, 0x20u8, 0x73u8, 0x66u8, 0x31u8],
        }
    } else if i == 56 {
        UuidView {
            time_low: 0x6a85cf4d,
            time_mid: 0x1dd2,
            time_hi_and_version: 0x11b2,
            clock_seq_hi_and_reserved: 0x99,
            clock_seq_low: 0xa6,
            node: seq![0x08u8, 0x00u8, 0x20u8, 0x73u8, 0x66u8, 0x31u8],
        }
    } else if i == 57 {
        UuidView {
            time_low: 0x6a87c46f,
            time_mid: 0x1dd2,
            time_hi_and_version: 0x11b2,
            clock_seq_hi_and_reserved: 0x99,
            clock_seq_low: 0xa6,
            node: seq![0x08u8, 0x00u8, 0x20u8, 0x73u8, 0x66u8, 0x31u8],
        }
    } else if i == 58 {
        UuidView {
            time_low: 0x6a8b642b,
            time_mid: 0x1dd2,
            time_hi_and_version: 0x11b2,
            clock_seq_hi_and_reserved: 0x99,
            clock_seq_low: 0xa6,
            node: seq![0x08u8, 0x00u8, 0x20u8, 0x73u8, 0x66u8, 0x31u8],
        }
    } else if i == 59 {
        UuidView {
            time_low: 0x6a8ef2e9,
            time_mid: 0x1dd2,
            time_hi_and_version: 0x11b2,
            clock_seq_hi_and_reserved: 0x99,
            clock_seq_low: 0xa6,
            node: seq![0x08u8, 0x00u8, 0x20u8, 0x73u8, 0x66u8, 0x31u8],
        }
    } else if i == 60 {
        UuidView {
            time_low: 0x6a90ba39,
            time_mid: 0x1dd2,
            time_hi_and_version: 0x11b2,
            clock_seq_hi_and_reserved: 0x99,
            clock_seq_low: 0xa6,
            node: seq![0x08u8, 0x00u8, 0x20u8, 0x73u8, 0x66u8, 0x31u8],
        }
    } else if i == 61 {
        UuidView {
            time_low: 0x6a9283a5,
            time_mid: 0x1dd2,
            time_hi_and_version: 0x11b2,
            clock_seq_hi_and_reserved: 0x99,
            clock_seq_low: 0xa6,
            node: seq![0x08u8, 0x00u8, 0x20u8, 0x73u8, 0x66u8, 0x31u8],
        }
    } else if i == 62 {
        UuidView {
            time_low: 0x6a945a3b,
            time_mid: 0x1dd2,
            time_hi_and_version: 0x11b2,
            clock_seq_hi_and_reserved: 0x99,
            clock_seq_low: 0xa6,
            node: seq![0x08u8, 0x00u8, 0x20u8, 0x73u8, 0x66u8, 0x31u8],
        }
    } else {
        UuidView {
            time_low: 0x21686148,
            time_mid: 0x6449,
            time_hi_and_version: 0x6e6f,
            clock_seq_hi_and_reserved: 0x74,
            clock_seq_low: 0x4e,
            node: seq![0x65u8, 0x65u8, 0x64u8, 0x45u8, 0x46u8, 0x49u8],
        }
    }
}

/// The display name of registry row `i`.
pub open spec fn known_name_at(i: int) -> Seq<char> {
    if i == 0 {
        "UNUSED"@
    } else if i == 1 {
        "EFI"@
    } else if i == 2 {
        "MBR"@
    } else if i == 3 {
        "FREEBSD"@
    } else if i == 4 {
        "FREEBSD_BOOT"@
    } else if i == 5 {
        "FREEBSD_NANDFS"@
    } else if i == 6 {
        "FREEBSD_SWAP"@
    } else if i == 7 {
        "FREEBSD_UFS"@
    } else if i == 8 {
        "FREEBSD_VINUM"@
    } else if i == 9 {
        "FREEBSD_ZFS"@
    } else if i == 10 {
        "PREP_BOOT"@
    } else if i == 11 {
        "MS_BASIC_DATA"@
    } else if i == 12 {
        "MS_LDM_DATA"@
    } else if i == 13 {
        "MS_LDM_METADATA"@
    } else if i == 14 {
        "MS_RECOVERY"@
    } else if i == 15 {
        "MS_RESERVED"@
    } else if i == 16 {
        "MS_SPACES"@
    } else if i == 17 {
        "LINUX_DATA"@
    } else if i == 18 {
        "LINUX_RAID"@
    } else if i == 19 {
        "LINUX_SWAP"@
    } else if i == 20 {
        "LINUX_LVM"@
    } else if i == 21 {
        "VMFS"@
    } else if i == 22 {
        "VMKDIAG"@
    } else if i == 23 {
        "VMRESERVED"@
    } else if i == 24 {
        "VMVSANHDR"@
    } else if i == 25 {
        "APPLE_BOOT"@
    } else if i == 26 {
        "APPLE_HFS"@
    } else if i == 27 {
        "APPLE_UFS"@
    } else if i == 28 {
        "APPLE_ZFS"@
    } else if i == 29 {
        "APPLE_RAID"@
    } else if i == 30 {
        "APPLE_RAID_OFFLINE"@
    } else if i == 31 {
        "APPLE_LABEL"@
    } else if i == 32 {
        "APPLE_TV_RECOVERY"@
    } else if i == 33 {
        "APPLE_CORE_STORAGE"@
    } else if i == 34 {
        "APPLE_APFS"@
    } else if i == 35 {
        "NETBSD_FFS"@
    } else if i == 36 {
        "NETBSD_LFS"@
    } else if i == 37 {
        "NETBSD_SWAP"@
    } else if i == 38 {
        "NETBSD_RAID"@
    } else if i == 39 {
        "NETBSD_CCD"@
    } else if i == 40 {
        "NETBSD_CGD"@
    } else if i == 41 {
        "DRAGONFLY_LABEL32"@
    } else if i == 42 {
        "DRAGONFLY_SWAP"@
    } else if i == 43 {
        "DRAGONFLY_UFS1"@
    } else if i == 44 {
        "DRAGONFLY_VINUM"@
    } else if i == 45 {
        "DRAGONFLY_CCD"@
    } else if i == 46 {
        "DRAGONFLY_LABEL64"@
    } else if i == 47 {
        "DRAGONFLY_LEGACY"@
    } else if i == 48 {
        "DRAGONFLY_HAMMER"@
    } else if i == 49 {
        "DRAGONFLY_HAMMER2"@
    } else if i == 50 {
        "CHROMEOS_FIRMWARE"@
    } else if i == 51 {
        "CHROMEOS_KERNEL"@
    } else if i == 52 {
        "CHROMEOS_RESERVED"@
    } else if i == 53 {
        "CHROMEOS_ROOT"@
    } else if i == 54 {
        "OPENBSD_DATA"@
    } else if i == 55 {
        "SOLARIS_BOOT"@
    } else if i == 56 {
        "SOLARIS_ROOT"@
    } else if i == 57 {
        "SOLARIS_SWAP"@
    } else if i == 58 {
        "SOLARIS_BACKUP"@
    } else if i == 59 {
        "SOLARIS_VAR"@
    } else if i == 60 {
        "SOLARIS_HOME"@
    } else if i == 61 {
        "SOLARIS_ALTSEC"@
    } else if i == 62 {
        "SOLARIS_RESERVED"@
    } else {
        "BIOS_BOOT"@
    }
}

/// The compiled-in registry of well-known partition identifiers.
pub fn get_known_uuid() -> (r: [KnownUuid; 64])
    ensures
        forall|i: int|
            0 <= i < 64 ==> (#[trigger] r@[i]).uuid@ == known_uuid_at(i) && r@[i].name@
                == known_name_at(i),
{
    let r = [
        (KnownUuid {
            uuid: Uuid {
                time_low: 0x00000000,
                time_mid: 0x0000,
                time_hi_and_version: 0x0000,
                clock_seq_hi_and_reserved: 0x00,
                clock_seq_low: 0x00,
                node: [0x00, 0x00, 0x00, 0x00, 0x00, 0x00],
            },
            name: "UNUSED",
        }),
        (KnownUuid {
            uuid: Uuid {
                time_low: 0xc12a7328,
                time_mid: 0xf81f,
                time_hi_and_version: 0x11d2,
                clock_seq_hi_and_reserved: 0xba,
                clock_seq_low: 0x4b,
                node: [0x00, 0xa0, 0xc9, 0x3e, 0xc9, 0x3b],
            },
            name: "EFI",
        }),
        (KnownUuid {
            uuid: Uuid {
                time_low: 0x024dee41,
                time_mid: 0x33e7,
                time_hi_and_version: 0x11d3,
                clock_seq_hi_and_reserved: 0x9d,
                clock_seq_low: 0x69,
                node: [0x00, 0x08, 0xc7, 0x81, 0xf3, 0x9f],
            },
            name: "MBR",
        }),
        (KnownUuid {
            uuid: Uuid {
                time_low: 0x516e7cb4,
                time_mid: 0x6ecf,
                time_hi_and_version: 0x11d6,
                clock_seq_hi_and_reserved: 0x8f,
                clock_seq_low: 0xf8,
                node: [0x00, 0x02, 0x2d, 0x09, 0x71, 0x2b],
            },
            name: "FREEBSD",
        }),
        (KnownUuid {
            uuid: Uuid {
                time_low: 0x83bd6b9d,
                time_mid: 0x7f41,
                time_hi_and_version: 0x11dc,
                clock_seq_hi_and_reserved: 0xbe,
                clock_seq_low: 0x0b,
                node: [0x00, 0x15, 0x60, 0xb8, 0x4f, 0x0f],
            },
            name: "FREEBSD_BOOT",
        }),
        (KnownUuid {
            uuid: Uuid {
                time_low: 0x74ba7dd9,
                time_mid: 0xa689,
                time_hi_and_version: 0x11e1,
                clock_seq_hi_and_reserved: 0xbd,
                clock_seq_low: 0x04,
                node: [0x00, 0xe0, 0x81, 0x28, 0x6a, 0xcf],
            },
            name: "FREEBSD_NANDFS",
        }),
        (KnownUuid {
            uuid: Uuid {
                time_low: 0x516e7cb5,
                time_mid: 0x6ecf,
                time_hi_and_version: 0x11d6,
                clock_seq_hi_and_reserved: 0x8f,
                clock_seq_low: 0xf8,
                node: [0x00, 0x02, 0x2d, 0x09, 0x71, 0x2b],
            },
            name: "FREEBSD_SWAP",
        }),
        (KnownUuid {
            uuid: Uuid {
                time_low: 0x516e7cb6,
                time_mid: 0x6ecf,
                time_hi_and_version: 0x11d6,
                clock_seq_hi_and_reserved: 0x8f,
                clock_seq_low: 0xf8,
                node: [0x00, 0x02, 0x2d, 0x09, 0x71, 0x2b],
            },
            name: "FREEBSD_UFS",
        }),
        (KnownUuid {
            uuid: Uuid {
                time_low: 0x516e7cb8,
                time_mid: 0x6ecf,
                time_hi_and_version: 0x11d6,
                clock_seq_hi_and_reserved: 0x8f,
                clock_seq_low: 0xf8,
                node: [0x00, 0x02, 0x2d, 0x09, 0x71, 0x2b],
            },
            name: "FREEBSD_VINUM",
        }),
        (KnownUuid {
            uuid: Uuid {
                time_low: 0x516e7cba,
                time_mid: 0x6ecf,
                time_hi_and_version: 0x11d6,
                clock_seq_hi_and_reserved: 0x8f,
                clock_seq_low: 0xf8,
                node: [0x00, 0x02, 0x2d, 0x09, 0x71, 0x2b],
            },
            name: "FREEBSD_ZFS",
        }),
        (KnownUuid {
            uuid: Uuid {
                time_low: 0x9e1a2d38,
                time_mid: 0xc612,
                time_hi_and_version: 0x4316,
                clock_seq_hi_and_reserved: 0xaa,
                clock_seq_low: 0x26,
                node: [0x8b, 0x49, 0x52, 0x1e, 0x5a, 0x8b],
            },
            name: "PREP_BOOT",
        }),
        (KnownUuid {
            uuid: Uuid {
                time_low: 0xebd0a0a2,
                time_mid: 0xb9e5,
                time_hi_and_version: 0x4433,
                clock_seq_hi_and_reserved: 0x87,
                clock_seq_low: 0xc0,
                node: [0x68, 0xb6, 0xb7, 0x26, 0x99, 0xc7],
            },
            name: "MS_BASIC_DATA",
        }),
        (KnownUuid {
            uuid: Uuid {
                time_low: 0xaf9b60a0,
                time_mid: 0x1431,
                time_hi_and_version: 0x4f62,
                clock_seq_hi_and_reserved: 0xbc,
                clock_seq_low: 0x68,
                node: [0x33, 0x11, 0x71, 0x4a, 0x69, 0xad],
            },
            name: "MS_LDM_DATA",
        }),
        (KnownUuid {
            uuid: Uuid {
                time_low: 0x5808c8aa,
                time_mid: 0x7e8f,
                time_hi_and_version: 0x42e0,
                clock_seq_hi_and_reserved: 0x85,
                clock_seq_low: 0xd2,
                node: [0xe1, 0xe9, 0x04, 0x34, 0xcf, 0xb3],
            },
            name: "MS_LDM_METADATA",
        }),
        (KnownUuid {
            uuid: Uuid {
                time_low: 0xde94bba4,
                time_mid: 0x06d1,
                time_hi_and_version: 0x4d40,
                clock_seq_hi_and_reserved: 0xa1,
                clock_seq_low: 0x6a,
                node: [0xbf, 0xd5, 0x01, 0x79, 0xd6, 0xac],
            },
            name: "MS_RECOVERY",
        }),
        (KnownUuid {
            uuid: Uuid {
                time_low: 0xe3c9e316,
                time_mid: 0x0b5c,
                time_hi_and_version: 0x4db8,
                clock_seq_hi_and_reserved: 0x81,
                clock_seq_low: 0x7d,
                node: [0xf9, 0x2d, 0xf0, 0x02, 0x15, 0xae],
            },
            name: "MS_RESERVED",
        }),
        (KnownUuid {
            uuid: Uuid {
                time_low: 0xe75caf8f,
                time_mid: 0xf680,
                time_hi_and_version: 0x4cee,
                clock_seq_hi_and_reserved: 0xaf,
                clock_seq_low: 0xa3,
                node: [0xb0, 0x01, 0xe5, 0x6e, 0xfc, 0x2d],
            },
            name: "MS_SPACES",
        }),
        (KnownUuid {
            uuid: Uuid {
                time_low: 0x0fc63daf,
                time_mid: 0x8483,
                time_hi_and_version: 0x4772,
                clock_seq_hi_and_reserved: 0x8e,
                clock_seq_low: 0x79,
                node: [0x3d, 0x69, 0xd8, 0x47, 0x7d, 0xe4],
            },
            name: "LINUX_DATA",
        }),
        (KnownUuid {
            uuid: Uuid {
                time_low: 0xa19d880f,
                time_mid: 0x05fc,
                time_hi_and_version: 0x4d3b,
                clock_seq_hi_and_reserved: 0xa0,
                clock_seq_low: 0x06,
                node: [0x74, 0x3f, 0x0f, 0x84, 0x91, 0x1e],
            },
            name: "LINUX_RAID",
        }),
        (KnownUuid {
            uuid: Uuid {
                time_low: 0x0657fd6d,
                time_mid: 0xa4ab,
                time_hi_and_version: 0x43c4,
                clock_seq_hi_and_reserved: 0x84,
                clock_seq_low: 0xe5,
                node: [0x09, 0x33, 0xc8, 0x4b, 0x4f, 0x4f],
            },
            name: "LINUX_SWAP",
        }),
        (KnownUuid {
            uuid: Uuid {
                time_low: 0xe6d6d379,
                time_mid: 0xf507,
                time_hi_and_version: 0x44c2,
                clock_seq_hi_and_reserved: 0xa2,
                clock_seq_low: 0x3c,
                node: [0x23, 0x8f, 0x2a, 0x3d, 0xf9, 0x28],
            },
            name: "LINUX_LVM",
        }),
        (KnownUuid {
            uuid: Uuid {
                time_low: 0xaa31e02a,
                time_mid: 0x400f,
                time_hi_and_version: 0x11db,
                clock_seq_hi_and_reserved: 0x95,
                clock_seq_low: 0x90,
                node: [0x00, 0x0c, 0x29, 0x11, 0xd1, 0xb8],
            },
            name: "VMFS",
        }),
        (KnownUuid {
            uuid: Uuid {
                time_low: 0x9d275380,
                time_mid: 0x40ad,
                time_hi_and_version: 0x11db,
                clock_seq_hi_and_reserved: 0xbf,
                clock_seq_low: 0x97,
                node: [0x00, 0x0c, 0x29, 0x11, 0xd1, 0xb8],
            },
            name: "VMKDIAG",
        }),
        (KnownUuid {
            uuid: Uuid {
                time_low: 0x9198effc,
                time_mid: 0x31c0,
                time_hi_and_version: 0x11db,
                clock_seq_hi_and_reserved: 0x8f,
                clock_seq_low: 0x78,
                node: [0x00, 0x0c, 0x29, 0x11, 0xd1, 0xb8],
            },
            name: "VMRESERVED",
        }),
        (KnownUuid {
            uuid: Uuid {
                time_low: 0x381cfccc,
                time_mid: 0x7288,
                time_hi_and_version: 0x11e0,
                clock_seq_hi_and_reserved: 0x92,
                clock_seq_low: 0xee,
                node: [0x00, 0x0c, 0x29, 0x11, 0xd0, 0xb2],
            },
            name: "VMVSANHDR",
        }),
        (KnownUuid {
            uuid: Uuid {
                time_low: 0x426f6f74,
                time_mid: 0x0000,
                time_hi_and_version: 0x11aa,
                clock_seq_hi_and_reserved: 0xaa,
                clock_seq_low: 0x11,
                node: [0x00, 0x30, 0x65, 0x43, 0xec, 0xac],
            },
            name: "APPLE_BOOT",
        }),
        (KnownUuid {
            uuid: Uuid {
                time_low: 0x48465300,
                time_mid: 0x0000,
                time_hi_and_version: 0x11aa,
                clock_seq_hi_and_reserved: 0xaa,
                clock_seq_low: 0x11,
                node: [0x00, 0x30, 0x65, 0x43, 0xec, 0xac],
            },
            name: "APPLE_HFS",
        }),
        (KnownUuid {
            uuid: Uuid {
                time_low: 0x55465300,
                time_mid: 0x0000,
                time_hi_and_version: 0x11aa,
                clock_seq_hi_and_reserved: 0xaa,
                clock_seq_low: 0x11,
                node: [0x00, 0x30, 0x65, 0x43, 0xec, 0xac],
            },
            name: "APPLE_UFS",
        }),
        (KnownUuid {
            uuid: Uuid {
                time_low: 0x6a898cc3,
                time_mid: 0x1dd2,
                time_hi_and_version: 0x11b2,
                clock_seq_hi_and_reserved: 0x99,
                clock_seq_low: 0xa6,
                node: [0x08, 0x00, 0x20, 0x73, 0x66, 0x31],
            },
            name: "APPLE_ZFS",
        }),
        (KnownUuid {
            uuid: Uuid {
                time_low: 0x52414944,
                time_mid: 0x0000,
                time_hi_and_version: 0x11aa,
                clock_seq_hi_and_reserved: 0xaa,
                clock_seq_low: 0x22,
                node: [0x00, 0x30, 0x65, 0x43, 0xec, 0xac],
            },
            name: "APPLE_RAID",
        }),
        (KnownUuid {
            uuid: Uuid {
                time_low: 0x52414944,
                time_mid: 0x5f4f,
                time_hi_and_version: 0x11aa,
                clock_seq_hi_and_reserved: 0xaa,
                clock_seq_low: 0x22,
                node: [0x00, 0x30, 0x65, 0x43, 0xec, 0xac],
            },
            name: "APPLE_RAID_OFFLINE",
        }),
        (KnownUuid {
            uuid: Uuid {
                time_low: 0x4c616265,
                time_mid: 0x6c00,
                time_hi_and_version: 0x11aa,
                clock_seq_hi_and_reserved: 0xaa,
                clock_seq_low: 0x11,
                node: [0x00, 0x30, 0x65, 0x43, 0xec, 0xac],
            },
            name: "APPLE_LABEL",
        }),
        (KnownUuid {
            uuid: Uuid {
                time_low: 0x5265636f,
                time_mid: 0x7665,
                time_hi_and_version: 0x11aa,
                clock_seq_hi_and_reserved: 0xaa,
                clock_seq_low: 0x11,
                node: [0x00, 0x30, 0x65, 0x43, 0xec, 0xac],
            },
            name: "APPLE_TV_RECOVERY",
        }),
        (KnownUuid {
            uuid: Uuid {
                time_low: 0x53746f72,
                time_mid: 0x6167,
                time_hi_and_version: 0x11aa,
                clock_seq_hi_and_reserved: 0xaa,
                clock_seq_low: 0x11,
                node: [0x00, 0x30, 0x65, 0x43, 0xec, 0xac],
            },
            name: "APPLE_CORE_STORAGE",
        }),
        (KnownUuid {
            uuid: Uuid {
                time_low: 0x7c3457ef,
                time_mid: 0x0000,
                time_hi_and_version: 0x11aa,
                clock_seq_hi_and_reserved: 0xaa,
                clock_seq_low: 0x11,
                node: [0x00, 0x30, 0x65, 0x43, 0xec, 0xac],
            },
            name: "APPLE_APFS",
        }),
        (KnownUuid {
            uuid: Uuid {
                time_low: 0x49f48d5a,
                time_mid: 0xb10e,
                time_hi_and_version: 0x11dc,
                clock_seq_hi_and_reserved: 0xb9,
                clock_seq_low: 0x9b,
                node: [0x00, 0x19, 0xd1, 0x87, 0x96, 0x48],
            },
            name: "NETBSD_FFS",
        }),
        (KnownUuid {
            uuid: Uuid {
                time_low: 0x49f48d82,
                time_mid: 0xb10e,
                time_hi_and_version: 0x11dc,
                clock_seq_hi_and_reserved: 0xb9,
                clock_seq_low: 0x9b,
                node: [0x00, 0x19, 0xd1, 0x87, 0x96, 0x48],
            },
            name: "NETBSD_LFS",
        }),
        (KnownUuid {
            uuid: Uuid {
                time_low: 0x49f48d32,
                time_mid: 0xb10e,
                time_hi_and_version: 0x11dc,
                clock_seq_hi_and_reserved: 0xb9,
                clock_seq_low: 0x9b,
                node: [0x00, 0x19, 0xd1, 0x87, 0x96, 0x48],
            },
            name: "NETBSD_SWAP",
        }),
        (KnownUuid {
            uuid: Uuid {
                time_low: 0x49f48daa,
                time_mid: 0xb10e,
                time_hi_and_version: 0x11dc,
                clock_seq_hi_and_reserved: 0xb9,
                clock_seq_low: 0x9b,
                node: [0x00, 0x19, 0xd1, 0x87, 0x96, 0x48],
            },
            name: "NETBSD_RAID",
        }),
        (KnownUuid {
            uuid: Uuid {
                time_low: 0x2db519c4,
                time_mid: 0xb10f,
                time_hi_and_version: 0x11dc,
                clock_seq_hi_and_reserved: 0xb9,
                clock_seq_low: 0x9b,
                node: [0x00, 0x19, 0xd1, 0x87, 0x96, 0x48],
            },
            name: "NETBSD_CCD",
        }),
        (KnownUuid {
            uuid: Uuid {
                time_low: 0x2db519ec,
                time_mid: 0xb10f,
                time_hi_and_version: 0x11dc,
                clock_seq_hi_and_reserved: 0xb9,
                clock_seq_low: 0x9b,
                node: [0x00, 0x19, 0xd1, 0x87, 0x96, 0x48],
            },
            name: "NETBSD_CGD",
        }),
        (KnownUuid {
            uuid: Uuid {
                time_low: 0x9d087404,
                time_mid: 0x1ca5,
                time_hi_and_version: 0x11dc,
                clock_seq_hi_and_reserved: 0x88,
                clock_seq_low: 0x17,
                node: [0x01, 0x30, 0x1b, 0xb8, 0xa9, 0xf5],
            },
            name: "DRAGONFLY_LABEL32",
        }),
        (KnownUuid {
            uuid: Uuid {
                time_low: 0x9d58fdbd,
                time_mid: 0x1ca5,
                time_hi_and_version: 0x11dc,
                clock_seq_hi_and_reserved: 0x88,
                clock_seq_low: 0x17,
                node: [0x01, 0x30, 0x1b, 0xb8, 0xa9, 0xf5],
            },
            name: "DRAGONFLY_SWAP",
        }),
        (KnownUuid {
            uuid: Uuid {
                time_low: 0x9d94ce7c,
                time_mid: 0x1ca5,
                time_hi_and_version: 0x11dc,
                clock_seq_hi_and_reserved: 0x88,
                clock_seq_low: 0x17,
                node: [0x01, 0x30, 0x1b, 0xb8, 0xa9, 0xf5],
            },
            name: "DRAGONFLY_UFS1",
        }),
        (KnownUuid {
            uuid: Uuid {
                time_low: 0x9dd4478f,
                time_mid: 0x1ca5,
                time_hi_and_version: 0x11dc,
                clock_seq_hi_and_reserved: 0x88,
                clock_seq_low: 0x17,
                node: [0x01, 0x30, 0x1b, 0xb8, 0xa9, 0xf5],
            },
            name: "DRAGONFLY_VINUM",
        }),
        (KnownUuid {
            uuid: Uuid {
                time_low: 0xdbd5211b,
                time_mid: 0x1ca5,
                time_hi_and_version: 0x11dc,
                clock_seq_hi_and_reserved: 0x88,
                clock_seq_low: 0x17,
                node: [0x01, 0x30, 0x1b, 0xb8, 0xa9, 0xf5],
            },
            name: "DRAGONFLY_CCD",
        }),
        (KnownUuid {
            uuid: Uuid {
                time_low: 0x3d48ce54,
                time_mid: 0x1d16,
                time_hi_and_version: 0x11dc,
                clock_seq_hi_and_reserved: 0x86,
                clock_seq_low: 0x96,
                node: [0x01, 0x30, 0x1b, 0xb8, 0xa9, 0xf5],
            },
            name: "DRAGONFLY_LABEL64",
        }),
        (KnownUuid {
            uuid: Uuid {
                time_low: 0xbd215ab2,
                time_mid: 0x1d16,
                time_hi_and_version: 0x11dc,
                clock_seq_hi_and_reserved: 0x86,
                clock_seq_low: 0x96,
                node: [0x01, 0x30, 0x1b, 0xb8, 0xa9, 0xf5],
            },
            name: "DRAGONFLY_LEGACY",
        }),
        (KnownUuid {
            uuid: Uuid {
                time_low: 0x61dc63ac,
                time_mid: 0x6e38,
                time_hi_and_version: 0x11dc,
                clock_seq_hi_and_reserved: 0x85,
                clock_seq_low: 0x13,
                node: [0x01, 0x30, 0x1b, 0xb8, 0xa9, 0xf5],
            },
            name: "DRAGONFLY_HAMMER",
        }),
        (KnownUuid {
            uuid: Uuid {
                time_low: 0x5cbb9ad1,
                time_mid: 0x862d,
                time_hi_and_version: 0x11dc,
                clock_seq_hi_and_reserved: 0xa9,
                clock_seq_low: 0x4d,
                node: [0x01, 0x30, 0x1b, 0xb8, 0xa9, 0xf5],
            },
            name: "DRAGONFLY_HAMMER2",
        }),
        (KnownUuid {
            uuid: Uuid {
                time_low: 0xcab6e88e,
                time_mid: 0xabf3,
                time_hi_and_version: 0x4102,
                clock_seq_hi_and_reserved: 0xa0,
                clock_seq_low: 0x7a,
                node: [0xd4, 0xbb, 0x9b, 0xe3, 0xc1, 0xd3],
            },
            name: "CHROMEOS_FIRMWARE",
        }),
        (KnownUuid {
            uuid: Uuid {
                time_low: 0xfe3a2a5d,
                time_mid: 0x4f32,
                time_hi_and_version: 0x41a7,
                clock_seq_hi_and_reserved: 0xb7,
                clock_seq_low: 0x25,
                node: [0xac, 0xcc, 0x32, 0x85, 0xa3, 0x09],
            },
            name: "CHROMEOS_KERNEL",
        }),
        (KnownUuid {
            uuid: Uuid {
                time_low: 0x2e0a753d,
                time_mid: 0x9e48,
                time_hi_and_version: 0x43b0,
                clock_seq_hi_and_reserved: 0x83,
                clock_seq_low: 0x37,
                node: [0xb1, 0x51, 0x92, 0xcb, 0x1b, 0x5e],
            },
            name: "CHROMEOS_RESERVED",
        }),
        (KnownUuid {
            uuid: Uuid {
                time_low: 0x3cb8e202,
                time_mid: 0x3b7e,
                time_hi_and_version: 0x47dd,
                clock_seq_hi_and_reserved: 0x8a,
                clock_seq_low: 0x3c,
                node: [0x7f, 0xf2, 0xa1, 0x3c, 0xfc, 0xec],
            },
            name: "CHROMEOS_ROOT",
        }),
        (KnownUuid {
            uuid: Uuid {
                time_low: 0x824cc7a0,
                time_mid: 0x36a8,
                time_hi_and_version: 0x11e3,
                clock_seq_hi_and_reserved: 0x89,
                clock_seq_low: 0x0a,
                node: [0x95, 0x25, 0x19, 0xad, 0x3f, 0x61],
            },
            name: "OPENBSD_DATA",
        }),
        (KnownUuid {
            uuid: Uuid {
                time_low: 0x6a82cb45,
                time_mid: 0x1dd2,
                time_hi_and_version: 0x11b2,
                clock_seq_hi_and_reserved: 0x99,
                clock_seq_low: 0xa6,
                node: [0x08, 0x00, 0x20, 0x73, 0x66, 0x31],
            },
            name: "SOLARIS_BOOT",
        }),
        (KnownUuid {
            uuid: Uuid {
                time_low: 0x6a85cf4d,
                time_mid: 0x1dd2,
                time_hi_and_version: 0x11b2,
                clock_seq_hi_and_reserved: 0x99,
                clock_seq_low: 0xa6,
                node: [0x08, 0x00, 0x20, 0x73, 0x66, 0x31],
            },
            name: "SOLARIS_ROOT",
        }),
        (KnownUuid {
            uuid: Uuid {
                time_low: 0x6a87c46f,
                time_mid: 0x1dd2,
                time_hi_and_version: 0x11b2,
                clock_seq_hi_and_reserved: 0x99,
                clock_seq_low: 0xa6,
                node: [0x08, 0x00, 0x20, 0x73, 0x66, 0x31],
            },
            name: "SOLARIS_SWAP",
        }),
        (KnownUuid {
            uuid: Uuid {
                time_low: 0x6a8b642b,
                time_mid: 0x1dd2,
                time_hi_and_version: 0x11b2,
                clock_seq_hi_and_reserved: 0x99,
                clock_seq_low: 0xa6,
                node: [0x08, 0x00, 0x20, 0x73, 0x66, 0x31],
            },
            name: "SOLARIS_BACKUP",
        }),
        (KnownUuid {
            uuid: Uuid {
                time_low: 0x6a8ef2e9,
                time_mid: 0x1dd2,
                time_hi_and_version: 0x11b2,
                clock_seq_hi_and_reserved: 0x99,
                clock_seq_low: 0xa6,
                node: [0x08, 0x00, 0x20, 0x73, 0x66, 0x31],
            },
            name: "SOLARIS_VAR",
        }),
        (KnownUuid {
            uuid: Uuid {
                time_low: 0x6a90ba39,
                time_mid: 0x1dd2,
                time_hi_and_version: 0x11b2,
                clock_seq_hi_and_reserved: 0x99,
                clock_seq_low: 0xa6,
                node: [0x08, 0x00, 0x20, 0x73, 0x66, 0x31],
            },
            name: "SOLARIS_HOME",
        }),
        (KnownUuid {
            uuid: Uuid {
                time_low: 0x6a9283a5,
                time_mid: 0x1dd2,
                time_hi_and_version: 0x11b2,
                clock_seq_hi_and_reserved: 0x99,
                clock_seq_low: 0xa6,
                node: [0x08, 0x00, 0x20, 0x73, 0x66, 0x31],
            },
            name: "SOLARIS_ALTSEC",
        }),
        (KnownUuid {
            uuid: Uuid {
                time_low: 0x6a945a3b,
                time_mid: 0x1dd2,
                time_hi_and_version: 0x11b2,
                clock_seq_hi_and_reserved: 0x99,
                clock_seq_low: 0xa6,
                node: [0x08, 0x00, 0x20, 0x73, 0x66, 0x31],
            },
            name: "SOLARIS_RESERVED",
        }),
        (KnownUuid {
            uuid: Uuid {
                time_low: 0x21686148,
                time_mid: 0x6449,
                time_hi_and_version: 0x6e6f,
                clock_seq_hi_and_reserved: 0x74,
                clock_seq_low: 0x4e,
                node: [0x65, 0x65, 0x64, 0x45, 0x46, 0x49],
            },
            name: "BIOS_BOOT",
        }),
    ];
    proof {
        assert(r@[0].uuid@.node =~= known_uuid_at(0).node);
        assert(r@[1].uuid@.node =~= known_uuid_at(1).node);
        assert(r@[2].uuid@.node =~= known_uuid_at(2).node);
        assert(r@[3].uuid@.node =~= known_uuid_at(3).node);
        assert(r@[4].uuid@.node =~= known_uuid_at(4).node);
        assert(r@[5].uuid@.node =~= known_uuid_at(5).node);
        assert(r@[6].uuid@.node =~= known_uuid_at(6).node);
        assert(r@[7].uuid@.node =~= known_uuid_at(7).node);
        assert(r@[8].uuid@.node =~= known_uuid_at(8).node);
        assert(r@[9].uuid@.node =~= known_uuid_at(9).node);
        assert(r@[10].uuid@.node =~= known_uuid_at(10).node);
        assert(r@[11].uuid@.node =~= known_uuid_at(11).node);
        assert(r@[12].uuid@.node =~= known_uuid_at(12).node);
        assert(r@[13].uuid@.node =~= known_uuid_at(13).node);
        assert(r@[14].uuid@.node =~= known_uuid_at(14).node);
        assert(r@[15].uuid@.node =~= known_uuid_at(15).node);
        assert(r@[16].uuid@.node =~= known_uuid_at(16).node);
        assert(r@[17].uuid@.node =~= known_uuid_at(17).node);
        assert(r@[18].uuid@.node =~= known_uuid_at(18).node);
        assert(r@[19].uuid@.node =~= known_uuid_at(19).node);
        assert(r@[20].uuid@.node =~= known_uuid_at(20).node);
        assert(r@[21].uuid@.node =~= known_uuid_at(21).node);
        assert(r@[22].uuid@.node =~= known_uuid_at(22).node);
        assert(r@[23].uuid@.node =~= known_uuid_at(23).node);
        assert(r@[24].uuid@.node =~= known_uuid_at(24).node);
        assert(r@[25].uuid@.node =~= known_uuid_at(25).node);
        assert(r@[26].uuid@.node =~= known_uuid_at(26).node);
        assert(r@[27].uuid@.node =~= known_uuid_at(27).node);
        assert(r@[28].uuid@.node =~= known_uuid_at(28).node);
        assert(r@[29].uuid@.node =~= known_uuid_at(29).node);
        assert(r@[30].uuid@.node =~= known_uuid_at(30).node);
        assert(r@[31].uuid@.node =~= known_uuid_at(31).node);
        assert(r@[32].uuid@.node =~= known_uuid_at(32).node);
        assert(r@[33].uuid@.node =~= known_uuid_at(33).node);
        assert(r@[34].uuid@.node =~= known_uuid_at(34).node);
        assert(r@[35].uuid@.node =~= known_uuid_at(35).node);
        assert(r@[36].uuid@.node =~= known_uuid_at(36).node);
        assert(r@[37].uuid@.node =~= known_uuid_at(37).node);
        assert(r@[38].uuid@.node =~= known_uuid_at(38).node);
        assert(r@[39].uuid@.node =~= known_uuid_at(39).node);
        assert(r@[40].uuid@.node =~= known_uuid_at(40).node);
        assert(r@[41].uuid@.node =~= known_uuid_at(41).node);
        assert(r@[42].uuid@.node =~= known_uuid_at(42).node);
        assert(r@[43].uuid@.node =~= known_uuid_at(43).node);
        assert(r@[44].uuid@.node =~= known_uuid_at(44).node);
        assert(r@[45].uuid@.node =~= known_uuid_at(45).node);
        assert(r@[46].uuid@.node =~= known_uuid_at(46).node);
        assert(r@[47].uuid@.node =~= known_uuid_at(47).node);
        assert(r@[48].uuid@.node =~= known_uuid_at(48).node);
        assert(r@[49].uuid@.node =~= known_uuid_at(49).node);
        assert(r@[50].uuid@.node =~= known_uuid_at(50).node);
        assert(r@[51].uuid@.node =~= known_uuid_at(51).node);
        assert(r@[52].uuid@.node =~= known_uuid_at(52).node);
        assert(r@[53].uuid@.node =~= known_uuid_at(53).node);
        assert(r@[54].uuid@.node =~= known_uuid_at(54).node);
        assert(r@[55].uuid@.node =~= known_uuid_at(55).node);
        assert(r@[56].uuid@.node =~= known_uuid_at(56).node);
        assert(r@[57].uuid@.node =~= known_uuid_at(57).node);
        assert(r@[58].uuid@.node =~= known_uuid_at(58).node);
        assert(r@[59].uuid@.node =~= known_uuid_at(59).node);
        assert(r@[60].uuid@.node =~= known_uuid_at(60).node);
        assert(r@[61].uuid@.node =~= known_uuid_at(61).node);
        assert(r@[62].uuid@.node =~= known_uuid_at(62).node);
        assert(r@[63].uuid@.node =~= known_uuid_at(63).node);
    }
    r
}

/// The first registry name whose UUID equals `u`, scanning from row `i`;
/// the empty sequence when no row at or after `i` matches.
pub open spec fn spec_lookup_from(u: UuidView, i: int) -> Seq<char>
    decreases 64 - i,
{
    if i < 0 || i >= 64 {
        Seq::empty()
    } else if known_uuid_at(i) == u {
        known_name_at(i)
    } else {
        spec_lookup_from(u, i + 1)
    }
}

/// The registry name for `u`, or the empty sequence when `u` is not a
/// well-known identifier.
pub open spec fn spec_known_name(u: UuidView) -> Seq<char> {
    spec_lookup_from(u, 0)
}

/// Looks `uuid` up in the registry: the matching display name, or the
/// empty string when the identifier is not well known.
pub fn known_uuid_to_str(uuid: &Uuid) -> (r: &'static str)
    ensures
        r@ == spec_known_name(uuid@),
{
    let table = get_known_uuid();
    let mut i: usize = 0;
    while i < KNOWN_UUID_LEN
        invariant
            i <= KNOWN_UUID_LEN,
            spec_lookup_from(uuid@, 0) == spec_lookup_from(uuid@, i as int),
            forall|k: int|
                0 <= k < 64 ==> (#[trigger] table@[k]).uuid@ == known_uuid_at(k)
                    && table@[k].name@ == known_name_at(k),
        decreases KNOWN_UUID_LEN - i,
    {
        if *uuid == table[i].uuid {
            return table[i].name;
        }
        proof {
            broadcast use vstd::array::group_array_axioms;

            if uuid@ == known_uuid_at(i as int) {
                assert(uuid.node =~= table@[i as int].uuid.node);
                assert(false);
            }
        }
        i = i + 1;
    }
    proof {
        reveal_strlit("");
        assert(""@ =~= Seq::<char>::empty());
    }
    ""
}

/// Relies on `u16::to_ne_bytes`: the memory representation of the integer
/// in native byte order, which is either little- or big-endian.
#[verifier::external_body]
fn native_order_bytes(x: u16) -> (r: [u8; 2])
    ensures
        (r@[0] as int) + 256 * (r@[1] as int) == x as int || (r@[1] as int) + 256 * (r@[0] as int)
            == x as int,
{
    u16::to_ne_bytes(x)
}

/// Byte-order capability probe: decoding is defined only on little-endian
/// hosts, so a caller must refuse to run when this is false.
pub fn is_le() -> bool {
    let b = native_order_bytes(1);
    b[0] == 1
}

/// Confirms the fixed sizes of the on-disk records that the decoders read.
pub fn assert_ds() {
    assert(crate::gpt::GPT_HDR_NBYTES == 92 + 4);
    assert(crate::gpt::GPT_ENT_NBYTES == 128);
    assert(crate::uuid::UUID_NBYTES == 16);
}

/// The registry is well formed: its UUIDs are pairwise distinct, its names
/// are pairwise distinct, non-empty and at most 36 characters, and the
/// all-zero UUID is displayed as `UNUSED`.
pub proof fn lemma_registry_well_formed()
    ensures
        forall|i: int, j: int|
            0 <= i < j < 64 ==> known_uuid_at(i) != known_uuid_at(j),
        forall|i: int, j: int|
            0 <= i < j < 64 ==> known_name_at(i) != known_name_at(j),
        forall|i: int| 0 <= i < 64 ==> 1 <= (#[trigger] known_name_at(i)).len() <= 36,
        known_uuid_at(0) == spec_zero_uuid(),
        known_name_at(0) == "UNUSED"@,
{
    reveal_strlit("UNUSED");
    reveal_strlit("EFI");
    reveal_strlit("MBR");
    reveal_strlit("FREEBSD");
    reveal_strlit("FREEBSD_BOOT");
    reveal_strlit("FREEBSD_NANDFS");
    reveal_strlit("FREEBSD_SWAP");
    reveal_strlit("FREEBSD_UFS");
    reveal_strlit("FREEBSD_VINUM");
    reveal_strlit("FREEBSD_ZFS");
    reveal_strlit("PREP_BOOT");
    reveal_strlit("MS_BASIC_DATA");
    reveal_strlit("MS_LDM_DATA");
    reveal_strlit("MS_LDM_METADATA");
    reveal_strlit("MS_RECOVERY");
    reveal_strlit("MS_RESERVED");
    reveal_strlit("MS_SPACES");
    reveal_strlit("LINUX_DATA");
    reveal_strlit("LINUX_RAID");
    reveal_strlit("LINUX_SWAP");
    reveal_strlit("LINUX_LVM");
    reveal_strlit("VMFS");
    reveal_strlit("VMKDIAG");
    reveal_strlit("VMRESERVED");
    reveal_strlit("VMVSANHDR");
    reveal_strlit("APPLE_BOOT");
    reveal_strlit("APPLE_HFS");
    reveal_strlit("APPLE_UFS");
    reveal_strlit("APPLE_ZFS");
    reveal_strlit("APPLE_RAID");
    reveal_strlit("APPLE_RAID_OFFLINE");
    reveal_strlit("APPLE_LABEL");
    reveal_strlit("APPLE_TV_RECOVERY");
    reveal_strlit("APPLE_CORE_STORAGE");
    reveal_strlit("APPLE_APFS");
    reveal_strlit("NETBSD_FFS");
    reveal_strlit("NETBSD_LFS");
    reveal_strlit("NETBSD_SWAP");
    reveal_strlit("NETBSD_RAID");
    reveal_strlit("NETBSD_CCD");
    reveal_strlit("NETBSD_CGD");
    reveal_strlit("DRAGONFLY_LABEL32");
    reveal_strlit("DRAGONFLY_SWAP");
    reveal_strlit("DRAGONFLY_UFS1");
    reveal_strlit("DRAGONFLY_VINUM");
    reveal_strlit("DRAGONFLY_CCD");
    reveal_strlit("DRAGONFLY_LABEL64");
    reveal_strlit("DRAGONFLY_LEGACY");
    reveal_strlit("DRAGONFLY_HAMMER");
    reveal_strlit("DRAGONFLY_HAMMER2");
    reveal_strlit("CHROMEOS_FIRMWARE");
    reveal_strlit("CHROMEOS_KERNEL");
    reveal_strlit("CHROMEOS_RESERVED");
    reveal_strlit("CHROMEOS_ROOT");
    reveal_strlit("OPENBSD_DATA");
    reveal_strlit("SOLARIS_BOOT");
    reveal_strlit("SOLARIS_ROOT");
    reveal_strlit("SOLARIS_SWAP");
    reveal_strlit("SOLARIS_BACKUP");
    reveal_strlit("SOLARIS_VAR");
    reveal_strlit("SOLARIS_HOME");
    reveal_strlit("SOLARIS_ALTSEC");
    reveal_strlit("SOLARIS_RESERVED");
    reveal_strlit("BIOS_BOOT");
    assert("UNUSED"@.len() == 6);
    assert("EFI"@.len() == 3);
    assert("MBR"@.len() == 3);
    assert("FREEBSD"@.len() == 7);
    assert("FREEBSD_BOOT"@.len() == 12);
    assert("FREEBSD_NANDFS"@.len() == 14);
    assert("FREEBSD_SWAP"@.len() == 12);
    assert("FREEBSD_UFS"@.len() == 11);
    assert("FREEBSD_VINUM"@.len() == 13);
    assert("FREEBSD_ZFS"@.len() == 11);
    assert("PREP_BOOT"@.len() == 9);
    assert("MS_BASIC_DATA"@.len() == 13);
    assert("MS_LDM_DATA"@.len() == 11);
    assert("MS_LDM_METADATA"@.len() == 15);
    assert("MS_RECOVERY"@.len() == 11);
    assert("MS_RESERVED"@.len() == 11);
    assert("MS_SPACES"@.len() == 9);
    assert("LINUX_DATA"@.len() == 10);
    assert("LINUX_RAID"@.len() == 10);
    assert("LINUX_SWAP"@.len() == 10);
    assert("LINUX_LVM"@.len() == 9);
    assert("VMFS"@.len() == 4);
    assert("VMKDIAG"@.len() == 7);
    assert("VMRESERVED"@.len() == 10);
    assert("VMVSANHDR"@.len() == 9);
    assert("APPLE_BOOT"@.len() == 10);
    assert("APPLE_HFS"@.len() == 9);
    assert("APPLE_UFS"@.len() == 9);
    assert("APPLE_ZFS"@.len() == 9);
    assert("APPLE_RAID"@.len() == 10);
    assert("APPLE_RAID_OFFLINE"@.len() == 18);
    assert("APPLE_LABEL"@.len() == 11);
    assert("APPLE_TV_RECOVERY"@.len() == 17);
    assert("APPLE_CORE_STORAGE"@.len() == 18);
    assert("APPLE_APFS"@.len() == 10);
    assert("NETBSD_FFS"@.len() == 10);
    assert("NETBSD_LFS"@.len() == 10);
    assert("NETBSD_SWAP"@.len() == 11);
    assert("NETBSD_RAID"@.len() == 11);
    assert("NETBSD_CCD"@.len() == 10);
    assert("NETBSD_CGD"@.len() == 10);
    assert("DRAGONFLY_LABEL32"@.len() == 17);
    assert("DRAGONFLY_SWAP"@.len() == 14);
    assert("DRAGONFLY_UFS1"@.len() == 14);
    assert("DRAGONFLY_VINUM"@.len() == 15);
    assert("DRAGONFLY_CCD"@.len() == 13);
    assert("DRAGONFLY_LABEL64"@.len() == 17);
    assert("DRAGONFLY_LEGACY"@.len() == 16);
    assert("DRAGONFLY_HAMMER"@.len() == 16);
    assert("DRAGONFLY_HAMMER2"@.len() == 17);
    assert("CHROMEOS_FIRMWARE"@.len() == 17);
    assert("CHROMEOS_KERNEL"@.len() == 15);
    assert("CHROMEOS_RESERVED"@.len() == 17);
    assert("CHROMEOS_ROOT"@.len() == 13);
    assert("OPENBSD_DATA"@.len() == 12);
    assert("SOLARIS_BOOT"@.len() == 12);
    assert("SOLARIS_ROOT"@.len() == 12);
    assert("SOLARIS_SWAP"@.len() == 12);
    assert("SOLARIS_BACKUP"@.len() == 14);
    assert("SOLARIS_VAR"@.len() == 11);
    assert("SOLARIS_HOME"@.len() == 12);
    assert("SOLARIS_ALTSEC"@.len() == 14);
    assert("SOLARIS_RESERVED"@.len() == 16);
    assert("BIOS_BOOT"@.len() == 9);
    assert("EFI"@[0] == 'E');
    assert("MBR"@[0] == 'M');
    assert("FREEBSD"@[0] == 'F');
    assert("VMKDIAG"@[0] == 'V');
    assert("PREP_BOOT"@[0] == 'P');
    assert("PREP_BOOT"@[6] == 'O');
    assert("MS_SPACES"@[0] == 'M');
    assert("MS_SPACES"@[6] == 'C');
    assert("LINUX_LVM"@[0] == 'L');
    assert("LINUX_LVM"@[6] == 'L');
    assert("VMVSANHDR"@[0] == 'V');
    assert("VMVSANHDR"@[6] == 'H');
    assert("APPLE_HFS"@[0] == 'A');
    assert("APPLE_HFS"@[6] == 'H');
    assert("APPLE_UFS"@[0] == 'A');
    assert("APPLE_UFS"@[6] == 'U');
    assert("APPLE_ZFS"@[0] == 'A');
    assert("APPLE_ZFS"@[6] == 'Z');
    assert("BIOS_BOOT"@[0] == 'B');
    assert("BIOS_BOOT"@[6] == 'O');
    assert("LINUX_DATA"@[0] == 'L');
    assert("LINUX_DATA"@[7] == 'A');
    assert("LINUX_DATA"@[8] == 'T');
    assert("LINUX_RAID"@[0] == 'L');
    assert("LINUX_RAID"@[7] == 'A');
    assert("LINUX_RAID"@[8] == 'I');
    assert("LINUX_SWAP"@[0] == 'L');
    assert("LINUX_SWAP"@[7] == 'W');
    assert("LINUX_SWAP"@[8] == 'A');
    assert("VMRESERVED"@[0] == 'V');
    assert("VMRESERVED"@[7] == 'V');
    assert("VMRESERVED"@[8] == 'E');
    assert("APPLE_BOOT"@[0] == 'A');
    assert("APPLE_BOOT"@[7] == 'O');
    assert("APPLE_BOOT"@[8] == 'O');
    assert("APPLE_RAID"@[0] == 'A');
    assert("APPLE_RAID"@[7] == 'A');
    assert("APPLE_RAID"@[8] == 'I');
    assert("APPLE_APFS"@[0] == 'A');
    assert("APPLE_APFS"@[7] == 'P');
    assert("APPLE_APFS"@[8] == 'F');
    assert("NETBSD_FFS"@[0] == 'N');
    assert("NETBSD_FFS"@[7] == 'F');
    assert("NETBSD_FFS"@[8] == 'F');
    assert("NETBSD_LFS"@[0] == 'N');
    assert("NETBSD_LFS"@[7] == 'L');
    assert("NETBSD_LFS"@[8] == 'F');
    assert("NETBSD_CCD"@[0] == 'N');
    assert("NETBSD_CCD"@[7] == 'C');
    assert("NETBSD_CCD"@[8] == 'C');
    assert("NETBSD_CGD"@[0] == 'N');
    assert("NETBSD_CGD"@[7] == 'C');
    assert("NETBSD_CGD"@[8] == 'G');
    assert("FREEBSD_UFS"@[0] == 'F');
    assert("FREEBSD_UFS"@[8] == 'U');
    assert("FREEBSD_ZFS"@[0] == 'F');
    assert("FREEBSD_ZFS"@[8] == 'Z');
    assert("MS_LDM_DATA"@[0] == 'M');
    assert("MS_LDM_DATA"@[8] == 'A');
    assert("MS_RECOVERY"@[0] == 'M');
    assert("MS_RECOVERY"@[8] == 'E');
    assert("MS_RESERVED"@[0] == 'M');
    assert("MS_RESERVED"@[8] == 'V');
    assert("APPLE_LABEL"@[0] == 'A');
    assert("APPLE_LABEL"@[8] == 'B');
    assert("NETBSD_SWAP"@[0] == 'N');
    assert("NETBSD_SWAP"@[8] == 'W');
    assert("NETBSD_RAID"@[0] == 'N');
    assert("NETBSD_RAID"@[8] == 'A');
    assert("SOLARIS_VAR"@[0] == 'S');
    assert("SOLARIS_VAR"@[8] == 'V');
    assert("FREEBSD_BOOT"@[0] == 'F');
    assert("FREEBSD_BOOT"@[8] == 'B');
    assert("FREEBSD_SWAP"@[0] == 'F');
    assert("FREEBSD_SWAP"@[8] == 'S');
    assert("OPENBSD_DATA"@[0] == 'O');
    assert("OPENBSD_DATA"@[8] == 'D');
    assert("SOLARIS_BOOT"@[0] == 'S');
    assert("SOLARIS_BOOT"@[8] == 'B');
    assert("SOLARIS_ROOT"@[0] == 'S');
    assert("SOLARIS_ROOT"@[8] == 'R');
    assert("SOLARIS_SWAP"@[0] == 'S');
    assert("SOLARIS_SWAP"@[8] == 'S');
    assert("SOLARIS_HOME"@[0] == 'S');
    assert("SOLARIS_HOME"@[8] == 'H');
    assert("FREEBSD_VINUM"@[0] == 'F');
    assert("MS_BASIC_DATA"@[0] == 'M');
    assert("DRAGONFLY_CCD"@[0] == 'D');
    assert("CHROMEOS_ROOT"@[0] == 'C');
    assert("FREEBSD_NANDFS"@[10] == 'N');
    assert("DRAGONFLY_SWAP"@[10] == 'S');
    assert("DRAGONFLY_UFS1"@[10] == 'U');
    assert("SOLARIS_BACKUP"@[10] == 'C');
    assert("SOLARIS_ALTSEC"@[10] == 'T');
    assert("MS_LDM_METADATA"@[0] == 'M');
    assert("DRAGONFLY_VINUM"@[0] == 'D');
    assert("CHROMEOS_KERNEL"@[0] == 'C');
    assert("DRAGONFLY_LEGACY"@[10] == 'L');
    assert("DRAGONFLY_HAMMER"@[10] == 'H');
    assert("SOLARIS_RESERVED"@[10] == 'S');
    assert("APPLE_TV_RECOVERY"@[13] == 'V');
    assert("APPLE_TV_RECOVERY"@[15] == 'R');
    assert("DRAGONFLY_LABEL32"@[13] == 'E');
    assert("DRAGONFLY_LABEL32"@[15] == '3');
    assert("DRAGONFLY_LABEL64"@[13] == 'E');
    assert("DRAGONFLY_LABEL64"@[15] == '6');
    assert("DRAGONFLY_HAMMER2"@[13] == 'M');
    assert("DRAGONFLY_HAMMER2"@[15] == 'R');
    assert("CHROMEOS_FIRMWARE"@[13] == 'W');
    assert("CHROMEOS_FIRMWARE"@[15] == 'R');
    assert("CHROMEOS_RESERVED"@[13] == 'R');
    assert("CHROMEOS_RESERVED"@[15] == 'E');
    assert("APPLE_RAID_OFFLINE"@[6] == 'R');
    assert("APPLE_CORE_STORAGE"@[6] == 'C');
    assert("EFI"@ != "MBR"@);
    assert("FREEBSD"@ != "VMKDIAG"@);
    assert("PREP_BOOT"@ != "MS_SPACES"@);
    assert("PREP_BOOT"@ != "LINUX_LVM"@);
    assert("PREP_BOOT"@ != "VMVSANHDR"@);
    assert("PREP_BOOT"@ != "APPLE_HFS"@);
    assert("PREP_BOOT"@ != "APPLE_UFS"@);
    assert("PREP_BOOT"@ != "APPLE_ZFS"@);
    assert("PREP_BOOT"@ != "BIOS_BOOT"@);
    assert("MS_SPACES"@ != "LINUX_LVM"@);
    assert("MS_SPACES"@ != "VMVSANHDR"@);
    assert("MS_SPACES"@ != "APPLE_HFS"@);
    assert("MS_SPACES"@ != "APPLE_UFS"@);
    assert("MS_SPACES"@ != "APPLE_ZFS"@);
    assert("MS_SPACES"@ != "BIOS_BOOT"@);
    assert("LINUX_LVM"@ != "VMVSANHDR"@);
    assert("LINUX_LVM"@ != "APPLE_HFS"@);
    assert("LINUX_LVM"@ != "APPLE_UFS"@);
    assert("LINUX_LVM"@ != "APPLE_ZFS"@);
    assert("LINUX_LVM"@ != "BIOS_BOOT"@);
    assert("VMVSANHDR"@ != "APPLE_HFS"@);
    assert("VMVSANHDR"@ != "APPLE_UFS"@);
    assert("VMVSANHDR"@ != "APPLE_ZFS"@);
    assert("VMVSANHDR"@ != "BIOS_BOOT"@);
    assert("APPLE_HFS"@ != "APPLE_UFS"@);
    assert("APPLE_HFS"@ != "APPLE_ZFS"@);
    assert("APPLE_HFS"@ != "BIOS_BOOT"@);
    assert("APPLE_UFS"@ != "APPLE_ZFS"@);
    assert("APPLE_UFS"@ != "BIOS_BOOT"@);
    assert("APPLE_ZFS"@ != "BIOS_BOOT"@);
    assert("LINUX_DATA"@ != "LINUX_RAID"@);
    assert("LINUX_DATA"@ != "LINUX_SWAP"@);
    assert("LINUX_DATA"@ != "VMRESERVED"@);
    assert("LINUX_DATA"@ != "APPLE_BOOT"@);
    assert("LINUX_DATA"@ != "APPLE_RAID"@);
    assert("LINUX_DATA"@ != "APPLE_APFS"@);
    assert("LINUX_DATA"@ != "NETBSD_FFS"@);
    assert("LINUX_DATA"@ != "NETBSD_LFS"@);
    assert("LINUX_DATA"@ != "NETBSD_CCD"@);
    assert("LINUX_DATA"@ != "NETBSD_CGD"@);
    assert("LINUX_RAID"@ != "LINUX_SWAP"@);
    assert("LINUX_RAID"@ != "VMRESERVED"@);
    assert("LINUX_RAID"@ != "APPLE_BOOT"@);
    assert("LINUX_RAID"@ != "APPLE_RAID"@);
    assert("LINUX_RAID"@ != "APPLE_APFS"@);
    assert("LINUX_RAID"@ != "NETBSD_FFS"@);
    assert("LINUX_RAID"@ != "NETBSD_LFS"@);
    assert("LINUX_RAID"@ != "NETBSD_CCD"@);
    assert("LINUX_RAID"@ != "NETBSD_CGD"@);
    assert("LINUX_SWAP"@ != "VMRESERVED"@);
    assert("LINUX_SWAP"@ != "APPLE_BOOT"@);
    assert("LINUX_SWAP"@ != "APPLE_RAID"@);
    assert("LINUX_SWAP"@ != "APPLE_APFS"@);
    assert("LINUX_SWAP"@ != "NETBSD_FFS"@);
    assert("LINUX_SWAP"@ != "NETBSD_LFS"@);
    assert("LINUX_SWAP"@ != "NETBSD_CCD"@);
    assert("LINUX_SWAP"@ != "NETBSD_CGD"@);
    assert("VMRESERVED"@ != "APPLE_BOOT"@);
    assert("VMRESERVED"@ != "APPLE_RAID"@);
    assert("VMRESERVED"@ != "APPLE_APFS"@);
    assert("VMRESERVED"@ != "NETBSD_FFS"@);
    assert("VMRESERVED"@ != "NETBSD_LFS"@);
    assert("VMRESERVED"@ != "NETBSD_CCD"@);
    assert("VMRESERVED"@ != "NETBSD_CGD"@);
    assert("APPLE_BOOT"@ != "APPLE_RAID"@);
    assert("APPLE_BOOT"@ != "APPLE_APFS"@);
    assert("APPLE_BOOT"@ != "NETBSD_FFS"@);
    assert("APPLE_BOOT"@ != "NETBSD_LFS"@);
    assert("APPLE_BOOT"@ != "NETBSD_CCD"@);
    assert("APPLE_BOOT"@ != "NETBSD_CGD"@);
    assert("APPLE_RAID"@ != "APPLE_APFS"@);
    assert("APPLE_RAID"@ != "NETBSD_FFS"@);
    assert("APPLE_RAID"@ != "NETBSD_LFS"@);
    assert("APPLE_RAID"@ != "NETBSD_CCD"@);
    assert("APPLE_RAID"@ != "NETBSD_CGD"@);
    assert("APPLE_APFS"@ != "NETBSD_FFS"@);
    assert("APPLE_APFS"@ != "NETBSD_LFS"@);
    assert("APPLE_APFS"@ != "NETBSD_CCD"@);
    assert("APPLE_APFS"@ != "NETBSD_CGD"@);
    assert("NETBSD_FFS"@ != "NETBSD_LFS"@);
    assert("NETBSD_FFS"@ != "NETBSD_CCD"@);
    assert("NETBSD_FFS"@ != "NETBSD_CGD"@);
    assert("NETBSD_LFS"@ != "NETBSD_CCD"@);
    assert("NETBSD_LFS"@ != "NETBSD_CGD"@);
    assert("NETBSD_CCD"@ != "NETBSD_CGD"@);
    assert("FREEBSD_UFS"@ != "FREEBSD_ZFS"@);
    assert("FREEBSD_UFS"@ != "MS_LDM_DATA"@);
    assert("FREEBSD_UFS"@ != "MS_RECOVERY"@);
    assert("FREEBSD_UFS"@ != "MS_RESERVED"@);
    assert("FREEBSD_UFS"@ != "APPLE_LABEL"@);
    assert("FREEBSD_UFS"@ != "NETBSD_SWAP"@);
    assert("FREEBSD_UFS"@ != "NETBSD_RAID"@);
    assert("FREEBSD_UFS"@ != "SOLARIS_VAR"@);
    assert("FREEBSD_ZFS"@ != "MS_LDM_DATA"@);
    assert("FREEBSD_ZFS"@ != "MS_RECOVERY"@);
    assert("FREEBSD_ZFS"@ != "MS_RESERVED"@);
    assert("FREEBSD_ZFS"@ != "APPLE_LABEL"@);
    assert("FREEBSD_ZFS"@ != "NETBSD_SWAP"@);
    assert("FREEBSD_ZFS"@ != "NETBSD_RAID"@);
    assert("FREEBSD_ZFS"@ != "SOLARIS_VAR"@);
    assert("MS_LDM_DATA"@ != "MS_RECOVERY"@);
    assert("MS_LDM_DATA"@ != "MS_RESERVED"@);
    assert("MS_LDM_DATA"@ != "APPLE_LABEL"@);
    assert("MS_LDM_DATA"@ != "NETBSD_SWAP"@);
    assert("MS_LDM_DATA"@ != "NETBSD_RAID"@);
    assert("MS_LDM_DATA"@ != "SOLARIS_VAR"@);
    assert("MS_RECOVERY"@ != "MS_RESERVED"@);
    assert("MS_RECOVERY"@ != "APPLE_LABEL"@);
    assert("MS_RECOVERY"@ != "NETBSD_SWAP"@);
    assert("MS_RECOVERY"@ != "NETBSD_RAID"@);
    assert("MS_RECOVERY"@ != "SOLARIS_VAR"@);
    assert("MS_RESERVED"@ != "APPLE_LABEL"@);
    assert("MS_RESERVED"@ != "NETBSD_SWAP"@);
    assert("MS_RESERVED"@ != "NETBSD_RAID"@);
    assert("MS_RESERVED"@ != "SOLARIS_VAR"@);
    assert("APPLE_LABEL"@ != "NETBSD_SWAP"@);
    assert("APPLE_LABEL"@ != "NETBSD_RAID"@);
    assert("APPLE_LABEL"@ != "SOLARIS_VAR"@);
    assert("NETBSD_SWAP"@ != "NETBSD_RAID"@);
    assert("NETBSD_SWAP"@ != "SOLARIS_VAR"@);
    assert("NETBSD_RAID"@ != "SOLARIS_VAR"@);
    assert("FREEBSD_BOOT"@ != "FREEBSD_SWAP"@);
    assert("FREEBSD_BOOT"@ != "OPENBSD_DATA"@);
    assert("FREEBSD_BOOT"@ != "SOLARIS_BOOT"@);
    assert("FREEBSD_BOOT"@ != "SOLARIS_ROOT"@);
    assert("FREEBSD_BOOT"@ != "SOLARIS_SWAP"@);
    assert("FREEBSD_BOOT"@ != "SOLARIS_HOME"@);
    assert("FREEBSD_SWAP"@ != "OPENBSD_DATA"@);
    assert("FREEBSD_SWAP"@ != "SOLARIS_BOOT"@);
    assert("FREEBSD_SWAP"@ != "SOLARIS_ROOT"@);
    assert("FREEBSD_SWAP"@ != "SOLARIS_SWAP"@);
    assert("FREEBSD_SWAP"@ != "SOLARIS_HOME"@);
    assert("OPENBSD_DATA"@ != "SOLARIS_BOOT"@);
    assert("OPENBSD_DATA"@ != "SOLARIS_ROOT"@);
    assert("OPENBSD_DATA"@ != "SOLARIS_SWAP"@);
    assert("OPENBSD_DATA"@ != "SOLARIS_HOME"@);
    assert("SOLARIS_BOOT"@ != "SOLARIS_ROOT"@);
    assert("SOLARIS_BOOT"@ != "SOLARIS_SWAP"@);
    assert("SOLARIS_BOOT"@ != "SOLARIS_HOME"@);
    assert("SOLARIS_ROOT"@ != "SOLARIS_SWAP"@);
    assert("SOLARIS_ROOT"@ != "SOLARIS_HOME"@);
    assert("SOLARIS_SWAP"@ != "SOLARIS_HOME"@);
    assert("FREEBSD_VINUM"@ != "MS_BASIC_DATA"@);
    assert("FREEBSD_VINUM"@ != "DRAGONFLY_CCD"@);
    assert("FREEBSD_VINUM"@ != "CHROMEOS_ROOT"@);
    assert("MS_BASIC_DATA"@ != "DRAGONFLY_CCD"@);
    assert("MS_BASIC_DATA"@ != "CHROMEOS_ROOT"@);
    assert("DRAGONFLY_CCD"@ != "CHROMEOS_ROOT"@);
    assert("FREEBSD_NANDFS"@ != "DRAGONFLY_SWAP"@);
    assert("FREEBSD_NANDFS"@ != "DRAGONFLY_UFS1"@);
    assert("FREEBSD_NANDFS"@ != "SOLARIS_BACKUP"@);
    assert("FREEBSD_NANDFS"@ != "SOLARIS_ALTSEC"@);
    assert("DRAGONFLY_SWAP"@ != "DRAGONFLY_UFS1"@);
    assert("DRAGONFLY_SWAP"@ != "SOLARIS_BACKUP"@);
    assert("DRAGONFLY_SWAP"@ != "SOLARIS_ALTSEC"@);
    assert("DRAGONFLY_UFS1"@ != "SOLARIS_BACKUP"@);
    assert("DRAGONFLY_UFS1"@ != "SOLARIS_ALTSEC"@);
    assert("SOLARIS_BACKUP"@ != "SOLARIS_ALTSEC"@);
    assert("MS_LDM_METADATA"@ != "DRAGONFLY_VINUM"@);
    assert("MS_LDM_METADATA"@ != "CHROMEOS_KERNEL"@);
    assert("DRAGONFLY_VINUM"@ != "CHROMEOS_KERNEL"@);
    assert("DRAGONFLY_LEGACY"@ != "DRAGONFLY_HAMMER"@);
    assert("DRAGONFLY_LEGACY"@ != "SOLARIS_RESERVED"@);
    assert("DRAGONFLY_HAMMER"@ != "SOLARIS_RESERVED"@);
    assert("APPLE_TV_RECOVERY"@ != "DRAGONFLY_LABEL32"@);
    assert("APPLE_TV_RECOVERY"@ != "DRAGONFLY_LABEL64"@);
    assert("APPLE_TV_RECOVERY"@ != "DRAGONFLY_HAMMER2"@);
    assert("APPLE_TV_RECOVERY"@ != "CHROMEOS_FIRMWARE"@);
    assert("APPLE_TV_RECOVERY"@ != "CHROMEOS_RESERVED"@);
    assert("DRAGONFLY_LABEL32"@ != "DRAGONFLY_LABEL64"@);
    assert("DRAGONFLY_LABEL32"@ != "DRAGONFLY_HAMMER2"@);
    assert("DRAGONFLY_LABEL32"@ != "CHROMEOS_FIRMWARE"@);
    assert("DRAGONFLY_LABEL32"@ != "CHROMEOS_RESERVED"@);
    assert("DRAGONFLY_LABEL64"@ != "DRAGONFLY_HAMMER2"@);
    assert("DRAGONFLY_LABEL64"@ != "CHROMEOS_FIRMWARE"@);
    assert("DRAGONFLY_LABEL64"@ != "CHROMEOS_RESERVED"@);
    assert("DRAGONFLY_HAMMER2"@ != "CHROMEOS_FIRMWARE"@);
    assert("DRAGONFLY_HAMMER2"@ != "CHROMEOS_RESERVED"@);
    assert("CHROMEOS_FIRMWARE"@ != "CHROMEOS_RESERVED"@);
    assert("APPLE_RAID_OFFLINE"@ != "APPLE_CORE_STORAGE"@);
    assert(known_uuid_at(0).node =~= spec_zero_uuid().node);
}

} // verus!
