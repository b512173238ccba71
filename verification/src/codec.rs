use vstd::prelude::*;

use crate::types::ARef;

verus! {

/// One packed channel-descriptor word: bits 0-7 carry the channel number,
/// bits 16-23 the range index, bits 24-25 the reference-mode code. Inputs
/// wider than their field are truncated by masking.
pub open spec fn spec_cr_pack(chan: u32, rng: u32, aref_code: u32) -> u32 {
    ((aref_code & 0x3) << 24) | ((rng & 0xff) << 16) | (chan & 0xff)
}

/// The channel field of a packed word.
pub open spec fn spec_cr_chan(cr: u32) -> u32 {
    cr & 0xff
}

/// The range-index field of a packed word.
pub open spec fn spec_cr_range(cr: u32) -> u32 {
    (cr >> 16) & 0xff
}

/// The reference-mode code field of a packed word. Always below 4, so it
/// decodes to a reference mode for every word.
pub open spec fn spec_cr_aref_code(cr: u32) -> u32 {
    (cr >> 24) & 0x3
}

/// The reference mode a 2-bit field code denotes. Total: all four field
/// values are legal modes, so unpacking never fails on this field.
pub open spec fn spec_aref_of(code: u32) -> ARef {
    if code == 0 {
        ARef::Ground
    } else if code == 1 {
        ARef::Common
    } else if code == 2 {
        ARef::Diff
    } else {
        ARef::Other
    }
}

/// The decoded triple of a packed channel-descriptor word.
pub open spec fn spec_cr_unpack(cr: u32) -> (u32, u32, ARef) {
    (spec_cr_chan(cr), spec_cr_range(cr), spec_aref_of(spec_cr_aref_code(cr)))
}

/// Packs a (channel, range index, reference mode) triple into one 32-bit
/// channel-descriptor word. Channel and range index are truncated to their
/// 8-bit fields.
pub fn cr_pack(chan: u32, rng: u32, aref: ARef) -> (r: u32)
    ensures
        r == spec_cr_pack(chan, rng, aref.code()),
{
    let code = aref.repr();
    ((code & 0x3) << 24u32) | ((rng & 0xff) << 16u32) | (chan & 0xff)
}

/// Unpacks a channel-descriptor word into its (channel, range index,
/// reference mode) triple. Total: every 2-bit reference code is a legal mode.
pub fn cr_unpack(cr: u32) -> (r: (u32, u32, ARef))
    ensures
        r == spec_cr_unpack(cr),
        r.2.code() == spec_cr_aref_code(cr),
{
    let code = (cr >> 24u32) & 0x3;
    assert((cr >> 24u32) & 0x3 < 4) by (bit_vector);
    let aref = ARef::from_repr(code).unwrap();
    (cr & 0xff, (cr >> 16u32) & 0xff, aref)
}

/// Packing then unpacking returns every in-width triple unchanged: the three
/// fields of the packed word are exactly the inputs.
pub proof fn lemma_cr_round_trip(chan: u32, rng: u32, aref: ARef)
    requires
        chan <= 0xff,
        rng <= 0xff,
    ensures
        spec_cr_chan(spec_cr_pack(chan, rng, aref.code())) == chan,
        spec_cr_range(spec_cr_pack(chan, rng, aref.code())) == rng,
        spec_cr_aref_code(spec_cr_pack(chan, rng, aref.code())) == aref.code(),
        spec_cr_unpack(spec_cr_pack(chan, rng, aref.code())) == (chan, rng, aref),
{
    let code = aref.code();
    assert(code <= 0x3);
    assert(chan <= 0xff && rng <= 0xff && code <= 0x3 ==> {
        let w = spec_cr_pack(chan, rng, code);
        &&& spec_cr_chan(w) == chan
        &&& spec_cr_range(w) == rng
        &&& spec_cr_aref_code(w) == code
    }) by (bit_vector);
    assert(spec_aref_of(aref.code()) == aref);
}

/// Packing truncates: each field sees only its own low bits, so masking an
/// input to its field width never changes the packed word.
pub proof fn lemma_cr_pack_masks(chan: u32, rng: u32, aref_code: u32)
    ensures
        spec_cr_pack(chan, rng, aref_code)
            == spec_cr_pack(chan & 0xff, rng & 0xff, aref_code & 0x3),
{
    assert(spec_cr_pack(chan, rng, aref_code)
        == spec_cr_pack(chan & 0xff, rng & 0xff, aref_code & 0x3)) by (bit_vector);
}

} // verus!
