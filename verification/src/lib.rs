//! Decoder for the GUID Partition Table (GPT) structures found at the start
//! of block-storage media, with symbolic-name resolution for well-known
//! partition identifiers.

pub mod gpt;
pub mod strfmt;
pub mod subr;
pub mod text;
pub mod uuid;

use vstd::prelude::*;
use crate::strfmt::{append_dec, push_char, spec_dec_seq};

verus! {

pub const VERSION_MAJOR: u32 = 0;

pub const VERSION_MINOR: u32 = 1;

pub const VERSION_PATCH: u32 = 8;

/// The options that steer a dump: print unused slots too (`verbose`),
/// resolve well-known identifiers to names (`symbol`), and skip the
/// secondary header and entries (`noalt`).
#[derive(Clone, Copy, Debug)]
pub struct Opt {
    pub verbose: bool,
    pub symbol: bool,
    pub noalt: bool,
}

impl Default for Opt {
    fn default() -> (r: Self)
        ensures
            !r.verbose && !r.symbol && !r.noalt,
    {
        Opt { verbose: false, symbol: false, noalt: false }
    }
}

/// The version of the tool as text: major, minor and patch numbers in
/// decimal, separated by dots.
pub open spec fn spec_version_chars() -> Seq<char> {
    spec_dec_seq(VERSION_MAJOR as int) + seq!['.'] + spec_dec_seq(VERSION_MINOR as int)
        + seq!['.'] + spec_dec_seq(VERSION_PATCH as int)
}

pub fn get_version_string() -> (r: String)
    ensures
        r@ == spec_version_chars(),
{
    let mut s = String::new();
    append_dec(&mut s, VERSION_MAJOR);
    push_char(&mut s, '.');
    append_dec(&mut s, VERSION_MINOR);
    push_char(&mut s, '.');
    append_dec(&mut s, VERSION_PATCH);
    proof {
        assert(s@ =~= spec_version_chars());
    }
    s
}

} // verus!
