use comedilib::ARef;
use comedilib::Cmd;
use comedilib::ConvertTrigger;
use comedilib::ScanBeginTrigger;
use comedilib::ScanEndTrigger;
use comedilib::StartTrigger;
use comedilib::StopTrigger;

fn zeroed_template() -> Cmd {
    Cmd::from_raw(0, 0, 0, 0, 0, 0, 0, 0, 0, 0, 0)
}

#[test]
fn chanlist_is_absent_until_installed() {
    let cmd = zeroed_template();
    assert!(cmd.chanlist().is_none());
    assert!(cmd.chanlist_words().is_none());
}

#[test]
fn chanlist_round_trips_after_install() {
    let list = vec![
        (0, 0, ARef::Ground),
        (1, 0, ARef::Ground),
        (2, 5, ARef::Diff),
        (255, 255, ARef::Other),
    ];
    let mut cmd = zeroed_template();
    cmd.set_chanlist(&list);
    let got = cmd.chanlist().unwrap();
    assert_eq!(got.len(), list.len());
    for ((c1, r1, a1), (c2, r2, a2)) in got.iter().zip(&list) {
        assert_eq!(c1, c2);
        assert_eq!(r1, r2);
        assert_eq!(a1, a2);
    }
}

#[test]
fn set_chanlist_replaces_the_whole_list() {
    let mut cmd = zeroed_template();
    cmd.set_chanlist(&[(0, 0, ARef::Ground), (1, 0, ARef::Ground)]);
    cmd.set_chanlist(&[(7, 3, ARef::Common)]);
    let got = cmd.chanlist().unwrap();
    assert_eq!(got, vec![(7, 3, ARef::Common)]);
    assert_eq!(cmd.chanlist_words().unwrap().len(), 1);
}

#[test]
fn phase_setters_store_their_codes() {
    let mut cmd = zeroed_template();
    cmd.set_subdev(2);
    cmd.set_start(StartTrigger::Now, 0);
    cmd.set_scan_begin(ScanBeginTrigger::Timer, 1000);
    cmd.set_convert(ConvertTrigger::Timer, 125);
    cmd.set_scan_end(ScanEndTrigger::Count, 3);
    cmd.set_stop(StopTrigger::Count, 100);

    assert_eq!(cmd.subdev(), 2);
    assert_eq!(cmd.start_src(), StartTrigger::Now);
    assert_eq!(cmd.start_arg(), 0);
    assert_eq!(cmd.scan_begin_src(), ScanBeginTrigger::Timer);
    assert_eq!(cmd.scan_begin_arg(), 1000);
    assert_eq!(cmd.convert_src(), ConvertTrigger::Timer);
    assert_eq!(cmd.convert_arg(), 125);
    assert_eq!(cmd.scan_end_src(), ScanEndTrigger::Count);
    assert_eq!(cmd.scan_end_arg(), 3);
    assert_eq!(cmd.stop_src(), StopTrigger::Count);
    assert_eq!(cmd.stop_arg(), 100);

    assert_eq!(cmd.start_src_raw(), 0x00000002);
    assert_eq!(cmd.scan_begin_src_raw(), 0x00000010);
    assert_eq!(cmd.convert_src_raw(), 0x00000010);
    assert_eq!(cmd.scan_end_src_raw(), 0x00000020);
    assert_eq!(cmd.stop_src_raw(), 0x00000020);
}

#[test]
fn from_raw_keeps_every_field() {
    let cmd = Cmd::from_raw(1, 2, 3, 4, 5, 0x10, 7, 0x20, 9, 0x100, 11);
    assert_eq!(cmd.subdev(), 1);
    assert_eq!(cmd.start_src_raw(), 2);
    assert_eq!(cmd.start_arg(), 3);
    assert_eq!(cmd.scan_begin_src_raw(), 4);
    assert_eq!(cmd.scan_begin_arg(), 5);
    assert_eq!(cmd.convert_src_raw(), 0x10);
    assert_eq!(cmd.convert_arg(), 7);
    assert_eq!(cmd.scan_end_src_raw(), 0x20);
    assert_eq!(cmd.scan_end_arg(), 9);
    assert_eq!(cmd.stop_src_raw(), 0x100);
    assert_eq!(cmd.stop_arg(), 11);
    assert_eq!(cmd.convert_src(), ConvertTrigger::Timer);
    assert_eq!(cmd.scan_end_src(), ScanEndTrigger::Count);
    assert_eq!(cmd.stop_src(), StopTrigger::Other);
}

#[test]
fn setters_leave_other_phases_alone() {
    let mut cmd = Cmd::from_raw(1, 2, 3, 4, 5, 6, 7, 8, 9, 10, 11);
    cmd.set_stop(StopTrigger::Never, 0);
    assert_eq!(cmd.start_src_raw(), 2);
    assert_eq!(cmd.scan_begin_src_raw(), 4);
    assert_eq!(cmd.convert_src_raw(), 6);
    assert_eq!(cmd.scan_end_src_raw(), 8);
    assert_eq!(cmd.stop_src_raw(), 0x00000001);
    assert_eq!(cmd.stop_arg(), 0);
    assert_eq!(cmd.subdev(), 1);
}
