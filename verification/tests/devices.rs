use renarrator::devices::{device_display_name, device_names, find_device, DeviceDescription};

fn device(name: &str, extended: &[&str]) -> Option<DeviceDescription> {
    Some(DeviceDescription {
        name: name.to_string(),
        extended: extended.iter().map(|line| line.to_string()).collect(),
    })
}

#[test]
fn the_users_name_is_preferred() {
    let quadcast = device("Microphone", &["Microphone (HyperX QuadCast)", "USB"]).unwrap();
    assert_eq!(device_display_name(&quadcast), "Microphone (HyperX QuadCast)");
    let plain = device("Speakers", &[]).unwrap();
    assert_eq!(device_display_name(&plain), "Speakers");
}

#[test]
fn undescribed_devices_are_left_out() {
    let devices = vec![
        device("Speakers", &[]),
        None,
        device("Speakers", &["CABLE Input"]),
    ];
    assert_eq!(device_names(&devices), ["Speakers", "CABLE Input"]);
}

#[test]
fn the_first_exact_match_is_found() {
    let devices = vec![
        None,
        device("CABLE Input", &["Other"]),
        device("Speakers", &["CABLE Input"]),
        device("CABLE Input", &[]),
    ];
    assert_eq!(find_device(&devices, &"CABLE Input".to_string()), Some(2));
    assert_eq!(find_device(&devices, &"cable input".to_string()), None);
    for name in device_names(&devices) {
        assert!(find_device(&devices, &name).is_some());
    }
}
