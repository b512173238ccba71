use comedilib::device_path;
use comedilib::maxdata_of_raw;
use comedilib::read_subdevice_of_code;
use comedilib::ARef;
use comedilib::ComediError;
use comedilib::CommandTestResult;
use comedilib::ConvertTrigger;
use comedilib::IODirection;
use comedilib::OORBehavior;
use comedilib::ScanBeginTrigger;
use comedilib::ScanEndTrigger;
use comedilib::StartTrigger;
use comedilib::StopTrigger;
use comedilib::Unit;

#[test]
fn aref_codes_match_the_driver_table() {
    assert_eq!(ARef::Ground.repr(), 0);
    assert_eq!(ARef::Common.repr(), 1);
    assert_eq!(ARef::Diff.repr(), 2);
    assert_eq!(ARef::Other.repr(), 3);
    for v in 0..4 {
        let a = ARef::from_repr(v).unwrap();
        assert_eq!(a.repr(), v);
    }
    assert!(ARef::from_repr(4).is_none());
}

#[test]
fn trigger_codes_match_the_driver_table() {
    assert_eq!(StartTrigger::Now.repr(), 0x02);
    assert_eq!(StartTrigger::Follow.repr(), 0x04);
    assert_eq!(StartTrigger::Ext.repr(), 0x40);
    assert_eq!(StartTrigger::Int.repr(), 0x80);
    assert_eq!(StartTrigger::Other.repr(), 0x100);
    assert_eq!(ScanBeginTrigger::Timer.repr(), 0x10);
    assert_eq!(ScanBeginTrigger::Follow.repr(), 0x04);
    assert_eq!(ConvertTrigger::Now.repr(), 0x02);
    assert_eq!(ConvertTrigger::Timer.repr(), 0x10);
    assert_eq!(ScanEndTrigger::Count.repr(), 0x20);
    assert_eq!(StopTrigger::Count.repr(), 0x20);
    assert_eq!(StopTrigger::Never.repr(), 0x01);
    assert_eq!(StopTrigger::Other.repr(), 0x100);
}

#[test]
fn trigger_decoding_round_trips_and_rejects_unknown_codes() {
    for code in [0x02u32, 0x04, 0x40, 0x80, 0x100] {
        assert_eq!(StartTrigger::from_repr(code).unwrap().repr(), code);
    }
    assert!(StartTrigger::from_repr(0x10).is_none());
    assert!(ScanBeginTrigger::from_repr(0x02).is_none());
    assert!(ConvertTrigger::from_repr(0x04).is_none());
    assert!(ScanEndTrigger::from_repr(0x01).is_none());
    assert!(StopTrigger::from_repr(0x10).is_none());
}

#[test]
fn unit_and_policy_codes_match_the_driver_table() {
    assert_eq!(Unit::Volt.repr(), 0);
    assert_eq!(Unit::MiliAmper.repr(), 1);
    assert_eq!(Unit::NoUnit.repr(), 2);
    assert!(Unit::from_repr(3).is_none());
    assert_eq!(OORBehavior::Number.repr(), 0);
    assert_eq!(OORBehavior::NaN.repr(), 1);
    assert_eq!(OORBehavior::from_repr(0), Some(OORBehavior::Number));
    assert_eq!(OORBehavior::from_repr(1), Some(OORBehavior::NaN));
    assert!(OORBehavior::from_repr(2).is_none());
    assert_eq!(IODirection::Input.repr(), 0);
    assert_eq!(IODirection::Output.repr(), 1);
}

#[test]
fn command_test_outcomes_decode_exactly() {
    assert_eq!(CommandTestResult::from_repr(0), Some(CommandTestResult::Accepted));
    assert_eq!(
        CommandTestResult::from_repr(1),
        Some(CommandTestResult::TriggerUnsupported)
    );
    assert_eq!(
        CommandTestResult::from_repr(2),
        Some(CommandTestResult::TriggerCombinationUnsupported)
    );
    assert_eq!(
        CommandTestResult::from_repr(3),
        Some(CommandTestResult::ArgumentOutOfRange)
    );
    assert_eq!(
        CommandTestResult::from_repr(4),
        Some(CommandTestResult::ArgumentRequiredAdjustment)
    );
    assert_eq!(
        CommandTestResult::from_repr(5),
        Some(CommandTestResult::ChanlistUnsupported)
    );
    assert!(CommandTestResult::from_repr(6).is_none());
    assert!(CommandTestResult::from_repr(-1).is_none());
}

#[test]
fn device_paths_follow_the_index() {
    assert_eq!(device_path(0), "/dev/comedi0");
    assert_eq!(device_path(7), "/dev/comedi7");
    assert_eq!(device_path(10), "/dev/comedi10");
    assert_eq!(device_path(42), "/dev/comedi42");
    assert_eq!(device_path(100), "/dev/comedi100");
    assert_eq!(device_path(255), "/dev/comedi255");
}

#[test]
fn driver_errors_name_the_operation() {
    let e = ComediError::Driver {
        operation: String::from("comedi_open"),
        detail: String::from("No such device"),
    };
    assert_eq!(e.message(), "comedi_open: No such device");
    let v = ComediError::ValidationDidNotConverge { rounds: 8 };
    assert_eq!(v.message(), "command validation did not converge");
}

#[test]
fn read_subdevice_sentinel_means_none_selected() {
    assert_eq!(read_subdevice_of_code(-1), None);
    assert_eq!(read_subdevice_of_code(-42), None);
    assert_eq!(read_subdevice_of_code(0), Some(0));
    assert_eq!(read_subdevice_of_code(3), Some(3));
}

#[test]
fn zero_maxdata_is_rejected() {
    assert_eq!(maxdata_of_raw(0), None);
    assert_eq!(maxdata_of_raw(1), Some(1));
    assert_eq!(maxdata_of_raw(65535), Some(65535));
}
