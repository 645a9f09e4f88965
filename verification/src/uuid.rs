//! The 16-byte GPT UUID record and its canonical string form.

use vstd::prelude::*;
use crate::strfmt::{append_hex, push_char, spec_hex_seq, is_hex_lower, lemma_hex_seq_chars};

verus! {

/// Number of bytes in the `node` portion of a UUID.
pub const UUID_NODE_LEN: usize = 6;

/// Number of bytes in a whole on-disk UUID.
pub const UUID_NBYTES: usize = 16;

/// A UUID as stored on disk: the three leading fields are little-endian
/// scalars, the clock-sequence bytes and the node bytes are kept raw
/// (the mixed-endian convention of the GPT format).
#[derive(Clone, Copy, Debug)]
pub struct Uuid {
    pub time_low: u32,
    pub time_mid: u16,
    pub time_hi_and_version: u16,
    pub clock_seq_hi_and_reserved: u8,
    pub clock_seq_low: u8,
    pub node: [u8; 6],
}

/// Mathematical model of a [`Uuid`]: the same scalars, with the node bytes
/// as a sequence.
pub ghost struct UuidView {
    pub time_low: u32,
    pub time_mid: u16,
    pub time_hi_and_version: u16,
    pub clock_seq_hi_and_reserved: u8,
    pub clock_seq_low: u8,
    pub node: Seq<u8>,
}

impl View for Uuid {
    type V = UuidView;

    open spec fn view(&self) -> UuidView {
        UuidView {
            time_low: self.time_low,
            time_mid: self.time_mid,
            time_hi_and_version: self.time_hi_and_version,
            clock_seq_hi_and_reserved: self.clock_seq_hi_and_reserved,
            clock_seq_low: self.clock_seq_low,
            node: self.node@,
        }
    }
}

/// The all-zero UUID, which marks an unused entry slot.
pub open spec fn spec_zero_uuid() -> UuidView {
    UuidView {
        time_low: 0,
        time_mid: 0,
        time_hi_and_version: 0,
        clock_seq_hi_and_reserved: 0,
        clock_seq_low: 0,
        node: Seq::new(6, |i: int| 0u8),
    }
}

impl Uuid {
    /// The all-zero UUID.
    pub fn new() -> (r: Self)
        ensures
            r@ == spec_zero_uuid(),
    {
        let r = Uuid {
            time_low: 0,
            time_mid: 0,
            time_hi_and_version: 0,
            clock_seq_hi_and_reserved: 0,
            clock_seq_low: 0,
            node: [0, 0, 0, 0, 0, 0],
        };
        proof {
            assert(r@.node =~= spec_zero_uuid().node);
        }
        r
    }
}

impl PartialEq for Uuid {
    fn eq(&self, o: &Uuid) -> (r: bool) {
        let node_eq = self.node[0] == o.node[0] && self.node[1] == o.node[1] && self.node[2]
            == o.node[2] && self.node[3] == o.node[3] && self.node[4] == o.node[4] && self.node[5]
            == o.node[5];
        proof {
            broadcast use vstd::array::group_array_axioms;

            if node_eq {
                assert(self.node =~= o.node);
            }
        }
        self.time_low == o.time_low && self.time_mid == o.time_mid && self.time_hi_and_version
            == o.time_hi_and_version && self.clock_seq_hi_and_reserved
            == o.clock_seq_hi_and_reserved && self.clock_seq_low == o.clock_seq_low && node_eq
    }
}

impl vstd::std_specs::cmp::PartialEqSpecImpl for Uuid {
    open spec fn obeys_eq_spec() -> bool {
        true
    }

    open spec fn eq_spec(&self, o: &Uuid) -> bool {
        *self == *o
    }
}

impl Default for Uuid {
    fn default() -> (r: Self)
        ensures
            r@ == spec_zero_uuid(),
    {
        Uuid::new()
    }
}

/// The canonical text of a UUID: `xxxxxxxx-xxxx-xxxx-xxxx-xxxxxxxxxxxx`,
/// lowercase hexadecimal, zero padded, each field in its stored byte order.
pub open spec fn spec_uuid_chars(u: UuidView) -> Seq<char> {
    spec_hex_seq(u.time_low as int, 8) + seq!['-'] + spec_hex_seq(u.time_mid as int, 4)
        + seq!['-'] + spec_hex_seq(u.time_hi_and_version as int, 4) + seq!['-'] + spec_hex_seq(
        u.clock_seq_hi_and_reserved as int,
        2,
    ) + spec_hex_seq(u.clock_seq_low as int, 2) + seq!['-'] + spec_hex_seq(u.node[0] as int, 2)
        + spec_hex_seq(u.node[1] as int, 2) + spec_hex_seq(u.node[2] as int, 2) + spec_hex_seq(
        u.node[3] as int,
        2,
    ) + spec_hex_seq(u.node[4] as int, 2) + spec_hex_seq(u.node[5] as int, 2)
}

/// Renders a UUID in its canonical string form.
pub fn uuid_to_string(u: &Uuid) -> (r: String)
    ensures
        r@ == spec_uuid_chars(u@),
{
    let mut s = String::new();
    append_hex(&mut s, u.time_low as u64, 8);
    push_char(&mut s, '-');
    append_hex(&mut s, u.time_mid as u64, 4);
    push_char(&mut s, '-');
    append_hex(&mut s, u.time_hi_and_version as u64, 4);
    push_char(&mut s, '-');
    append_hex(&mut s, u.clock_seq_hi_and_reserved as u64, 2);
    append_hex(&mut s, u.clock_seq_low as u64, 2);
    push_char(&mut s, '-');
    append_hex(&mut s, u.node[0] as u64, 2);
    append_hex(&mut s, u.node[1] as u64, 2);
    append_hex(&mut s, u.node[2] as u64, 2);
    append_hex(&mut s, u.node[3] as u64, 2);
    append_hex(&mut s, u.node[4] as u64, 2);
    append_hex(&mut s, u.node[5] as u64, 2);
    proof {
        assert(s@ =~= spec_uuid_chars(u@));
    }
    s
}

/// The canonical form is always 36 characters: four dashes at fixed
/// positions, lowercase hexadecimal digits everywhere else.
pub proof fn lemma_uuid_canonical_shape(u: UuidView)
    ensures
        spec_uuid_chars(u).len() == 36,
        spec_uuid_chars(u)[8] == '-',
        spec_uuid_chars(u)[13] == '-',
        spec_uuid_chars(u)[18] == '-',
        spec_uuid_chars(u)[23] == '-',
        forall|i: int|
            0 <= i < 36 && i != 8 && i != 13 && i != 18 && i != 23 ==> is_hex_lower(
                #[trigger] spec_uuid_chars(u)[i],
            ),
{
    lemma_hex_seq_chars(u.time_low as int, 8);
    lemma_hex_seq_chars(u.time_mid as int, 4);
    lemma_hex_seq_chars(u.time_hi_and_version as int, 4);
    lemma_hex_seq_chars(u.clock_seq_hi_and_reserved as int, 2);
    lemma_hex_seq_chars(u.clock_seq_low as int, 2);
    lemma_hex_seq_chars(u.node[0] as int, 2);
    lemma_hex_seq_chars(u.node[1] as int, 2);
    lemma_hex_seq_chars(u.node[2] as int, 2);
    lemma_hex_seq_chars(u.node[3] as int, 2);
    lemma_hex_seq_chars(u.node[4] as int, 2);
    lemma_hex_seq_chars(u.node[5] as int, 2);
}

} // verus!
