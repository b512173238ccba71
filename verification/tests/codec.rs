use comedilib::cr_pack;
use comedilib::cr_unpack;
use comedilib::ARef;

#[test]
fn cr_pack_test() {
    let chan1 = 3;
    let packed = cr_pack(chan1, 13, ARef::Diff);
    let (chan2, rng, aref) = cr_unpack(packed);
    assert_eq!(chan1, chan2);
    assert_eq!(13, rng);
    assert_eq!(ARef::Diff, aref);
}

#[test]
fn cr_pack_layout_is_exact() {
    assert_eq!(cr_pack(0x12, 0x34, ARef::Ground), 0x0034_0012);
    assert_eq!(cr_pack(0x12, 0x34, ARef::Common), 0x0134_0012);
    assert_eq!(cr_pack(0x12, 0x34, ARef::Diff), 0x0234_0012);
    assert_eq!(cr_pack(0x12, 0x34, ARef::Other), 0x0334_0012);
}

#[test]
fn cr_round_trips_across_field_widths() {
    for &chan in &[0u32, 1, 127, 255] {
        for &rng in &[0u32, 1, 200, 255] {
            for &aref in &[ARef::Ground, ARef::Common, ARef::Diff, ARef::Other] {
                let (c, r, a) = cr_unpack(cr_pack(chan, rng, aref));
                assert_eq!(c, chan);
                assert_eq!(r, rng);
                assert_eq!(a, aref);
            }
        }
    }
}

#[test]
fn cr_pack_truncates_wide_channel() {
    assert_eq!(cr_pack(256, 13, ARef::Ground), cr_pack(0, 13, ARef::Ground));
    assert_eq!(cr_pack(257, 13, ARef::Ground), cr_pack(1, 13, ARef::Ground));
}

#[test]
fn cr_pack_truncates_wide_range() {
    assert_eq!(cr_pack(3, 256, ARef::Diff), cr_pack(3, 0, ARef::Diff));
    assert_eq!(cr_pack(3, 511, ARef::Diff), cr_pack(3, 255, ARef::Diff));
}
