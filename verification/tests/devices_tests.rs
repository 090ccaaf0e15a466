use sdl2xinput::devices::{
    admit_device, initial_blocked_devices, parse_filter_device, parse_filter_devices, tick_micros,
    Admission, DeviceFilterError, XBOX360_PID, XBOX360_VID,
};

fn strings(v: &[&str]) -> Vec<String> {
    v.iter().map(|s| s.to_string()).collect()
}

#[test]
fn parses_vid_pid_entries() {
    assert_eq!(parse_filter_device("045E:028E"), Ok((0x045E, 0x028E)));
    assert_eq!(parse_filter_device("045e:028e"), Ok((0x045E, 0x028E)));
    assert_eq!(parse_filter_device("0x045E:0x028E"), Ok((0x045E, 0x028E)));
    assert_eq!(parse_filter_device("0x0x12:1"), Ok((0x12, 0x1)));
    assert_eq!(parse_filter_device("+1:ffff"), Ok((0x1, 0xFFFF)));
    assert_eq!(parse_filter_device("0000045E:28E"), Ok((0x045E, 0x028E)));
    assert_eq!(parse_filter_device("1:2:3"), Err(DeviceFilterError::InvalidHex));
}

#[test]
fn rejects_malformed_entries() {
    assert_eq!(parse_filter_device("045E"), Err(DeviceFilterError::MissingSeparator));
    assert_eq!(parse_filter_device(""), Err(DeviceFilterError::MissingSeparator));
    assert_eq!(parse_filter_device(":"), Err(DeviceFilterError::InvalidHex));
    assert_eq!(parse_filter_device("045E:"), Err(DeviceFilterError::InvalidHex));
    assert_eq!(parse_filter_device("zz:01"), Err(DeviceFilterError::InvalidHex));
    assert_eq!(parse_filter_device("10000:1"), Err(DeviceFilterError::InvalidHex));
    assert_eq!(parse_filter_device("+:1"), Err(DeviceFilterError::InvalidHex));
    assert_eq!(parse_filter_device("-1:1"), Err(DeviceFilterError::InvalidHex));
    assert_eq!(parse_filter_device("0x:1"), Err(DeviceFilterError::InvalidHex));
    assert_eq!(parse_filter_device(" 1:1"), Err(DeviceFilterError::InvalidHex));
}

#[test]
fn printed_ids_parse_back() {
    for &(vid, pid) in &[(0u16, 0u16), (0x045E, 0x028E), (0xFFFF, 0x00AB), (0x1234, 0xBEEF)] {
        let printed = format!("{:04X}:{:04X}", vid, pid);
        assert_eq!(parse_filter_device(&printed), Ok((vid, pid)));
    }
}

#[test]
fn filter_list_is_a_set_in_first_seen_order() {
    let raw = strings(&["045E:028E", "bad", "1:2", "0x045e:0x028e", "zz:1", "1:2", "3:4"]);
    assert_eq!(parse_filter_devices(&raw), vec![(0x045E, 0x028E), (1, 2), (3, 4)]);
    assert_eq!(parse_filter_devices(&Vec::new()), vec![]);
}

#[test]
fn initial_block_list() {
    assert_eq!(initial_blocked_devices(false, &Vec::new()), vec![(XBOX360_VID, XBOX360_PID)]);
    assert_eq!(initial_blocked_devices(true, &Vec::new()), vec![]);
    let raw = strings(&["045E:028E", "054C:0CE6"]);
    assert_eq!(initial_blocked_devices(false, &raw), vec![(0x045E, 0x028E), (0x054C, 0x0CE6)]);
    assert_eq!(initial_blocked_devices(true, &raw), vec![(0x045E, 0x028E), (0x054C, 0x0CE6)]);
}

#[test]
fn admission_order() {
    let blocked = initial_blocked_devices(false, &Vec::new());
    assert_eq!(admit_device(0x045E, 0x028E, &blocked, 0, 1, false), Admission::Blocked);
    assert_eq!(admit_device(0x045E, 0x028E, &blocked, 5, 1, true), Admission::Blocked);
    assert_eq!(admit_device(0x054C, 0x0CE6, &blocked, 1, 1, false), Admission::LimitReached);
    assert_eq!(admit_device(0x054C, 0x0CE6, &blocked, 1, 2, true), Admission::AlreadyActive);
    assert_eq!(admit_device(0x054C, 0x0CE6, &blocked, 0, 1, false), Admission::Open);
    let open = initial_blocked_devices(true, &Vec::new());
    assert_eq!(admit_device(0x045E, 0x028E, &open, 0, 1, false), Admission::Open);
}

#[test]
fn polling_period() {
    assert_eq!(tick_micros(250), 4000);
    assert_eq!(tick_micros(1), 1_000_000);
    assert_eq!(tick_micros(1000), 1000);
    assert_eq!(tick_micros(3), 333_333);
}
