use vstd::prelude::*;
use vstd::string::StringExecFns;

verus! {

/// The character for one decimal digit.
pub open spec fn spec_digit(d: nat) -> char {
    if d == 0 {
        '0'
    } else if d == 1 {
        '1'
    } else if d == 2 {
        '2'
    } else if d == 3 {
        '3'
    } else if d == 4 {
        '4'
    } else if d == 5 {
        '5'
    } else if d == 6 {
        '6'
    } else if d == 7 {
        '7'
    } else if d == 8 {
        '8'
    } else {
        '9'
    }
}

/// The decimal digits of a number, most significant first, with no leading
/// zero except for the number zero itself.
pub open spec fn spec_decimal(n: nat) -> Seq<char>
    decreases n,
{
    if n < 10 {
        seq![spec_digit(n)]
    } else {
        spec_decimal(n / 10).push(spec_digit(n % 10))
    }
}

/// The device file the handle for a small non-negative index opens:
/// the fixed directory entry prefix followed by the index in decimal.
pub open spec fn spec_device_path(index: nat) -> Seq<char> {
    "/dev/comedi"@ + spec_decimal(index)
}

fn digit_str(d: u8) -> (r: &'static str)
    requires
        d < 10,
    ensures
        r@ =~= seq![spec_digit(d as nat)],
{
    proof {
        reveal_strlit("0");
        reveal_strlit("1");
        reveal_strlit("2");
        reveal_strlit("3");
        reveal_strlit("4");
        reveal_strlit("5");
        reveal_strlit("6");
        reveal_strlit("7");
        reveal_strlit("8");
        reveal_strlit("9");
    }
    if d == 0 {
        "0"
    } else if d == 1 {
        "1"
    } else if d == 2 {
        "2"
    } else if d == 3 {
        "3"
    } else if d == 4 {
        "4"
    } else if d == 5 {
        "5"
    } else if d == 6 {
        "6"
    } else if d == 7 {
        "7"
    } else if d == 8 {
        "8"
    } else {
        "9"
    }
}

/// Formats the path of the device file for a device index: the fixed prefix
/// plus the index in decimal. This is the whole path scheme the handle layer
/// is allowed to assume.
pub fn device_path(index: u8) -> (r: String)
    ensures
        r@ == spec_device_path(index as nat),
{
    let mut s = String::from_str("/dev/comedi");
    if index >= 100 {
        s.append(digit_str(index / 100));
        s.append(digit_str((index / 10) % 10));
        s.append(digit_str(index % 10));
        proof {
            reveal_with_fuel(spec_decimal, 3);
            let n = index as nat;
            assert(index >= 100 ==> index / 10 >= 10 && (index / 10) / 10 == index / 100
                && index / 100 < 10 && (index / 10) % 10 < 10 && index % 10 < 10)
                by (bit_vector);
            assert(spec_decimal(n) == spec_decimal(n / 10).push(spec_digit(n % 10)));
            assert(spec_decimal(n / 10) == spec_decimal(n / 10 / 10).push(
                spec_digit(n / 10 % 10),
            ));
            assert(spec_decimal(n / 10 / 10) == seq![spec_digit(n / 10 / 10)]);
            assert(s@ =~= spec_device_path(n));
        }
    } else if index >= 10 {
        s.append(digit_str(index / 10));
        s.append(digit_str(index % 10));
        proof {
            reveal_with_fuel(spec_decimal, 2);
            let n = index as nat;
            assert(index >= 10 && index < 100 ==> index / 10 >= 1 && index / 10 < 10
                && index % 10 < 10) by (bit_vector);
            assert(spec_decimal(n) == spec_decimal(n / 10).push(spec_digit(n % 10)));
            assert(spec_decimal(n / 10) == seq![spec_digit(n / 10)]);
            assert(s@ =~= spec_device_path(n));
        }
    } else {
        s.append(digit_str(index));
        proof {
            assert(s@ =~= spec_device_path(index as nat));
        }
    }
    s
}

/// Decodes the streamed-read subdevice a driver reports: a negative index is
/// the driver's way of saying none is selected, not a failure.
pub fn read_subdevice_of_code(code: i32) -> (r: Option<u32>)
    ensures
        r == if code < 0 {
            Option::<u32>::None
        } else {
            Option::Some(code as u32)
        },
{
    if code < 0 {
        None
    } else {
        Some(code as u32)
    }
}

/// Screens the raw-value ceiling a driver reports for a channel: zero is the
/// driver's no-such-device sentinel and never a usable ceiling.
pub fn maxdata_of_raw(raw: u32) -> (r: Option<u32>)
    ensures
        r == if raw == 0 {
            Option::<u32>::None
        } else {
            Option::Some(raw)
        },
{
    if raw == 0 {
        None
    } else {
        Some(raw)
    }
}

} // verus!
