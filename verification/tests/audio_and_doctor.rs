use sillymic_host::audio::{
    choose_stream_config, first_name_containing, list_input_devices, select_input_device, ConfigRange, FrameAccumulator,
    InputDeviceError, StreamConfigChoice, StreamConfigError, FRAME_SIZE_SAMPLES,
};
use sillymic_host::doctor::{doctor_report, DoctorStatus, InputProbe};
use sillymic_host::text::decimal_string;

#[test]
fn device_list_marks_default_and_unknown_names() {
    let names = vec![Some("Built-in Mic".to_string()), None, Some("USB Mic".to_string())];
    let out = list_input_devices(names, Some("USB Mic".to_string()));
    assert_eq!(out.len(), 3);
    assert_eq!(out[0].index, 0);
    assert_eq!(out[0].name, "Built-in Mic");
    assert!(!out[0].default);
    assert_eq!(out[1].index, 1);
    assert_eq!(out[1].name, "<unknown>");
    assert!(!out[1].default);
    assert!(out[2].default);
}

#[test]
fn device_list_without_default_marks_none() {
    let out = list_input_devices(vec![Some("".to_string()), Some("A".to_string())], None);
    // The empty name equals the empty default name.
    assert!(out[0].default);
    assert!(!out[1].default);
}

fn names() -> Vec<String> {
    vec!["Built-in Microphone".to_string(), "USB Audio Device".to_string(), "Headset".to_string()]
}

#[test]
fn selector_index_picks_device() {
    assert_eq!(select_input_device("1", &names()).ok(), Some(1));
    assert_eq!(select_input_device("+2", &names()).ok(), Some(2));
}

#[test]
fn selector_index_out_of_range() {
    let e = select_input_device("5", &names()).err().unwrap();
    assert!(matches!(e, InputDeviceError::IndexOutOfRange(5)));
    assert_eq!(e.message(), "Input device index 5 is out of range");
}

#[test]
fn selector_name_matches_case_insensitively() {
    assert_eq!(select_input_device("usb", &names()).ok(), Some(1));
    assert_eq!(select_input_device("MICRO", &names()).ok(), Some(0));
    assert_eq!(select_input_device("e", &names()).ok(), Some(0));
}

#[test]
fn selector_without_match() {
    let e = select_input_device("webcam", &names()).err().unwrap();
    assert_eq!(e.message(), "No input device found matching selector 'webcam'");
}

#[test]
fn device_error_texts() {
    assert_eq!(InputDeviceError::NoDefault.message(), "No default input device available");
    assert_eq!(InputDeviceError::EnumerationFailed.message(), "Could not enumerate input devices");
    assert_eq!(StreamConfigError::NoSupportedConfig.message(), "No supported input config found");
}

fn range(min: u32, max: u32, ch: u16) -> ConfigRange {
    ConfigRange { min_sample_rate: min, max_sample_rate: max, channels: ch }
}

#[test]
fn stream_config_prefers_mono_at_48k() {
    let rs = vec![range(8000, 44100, 1), range(44100, 96000, 2), range(48000, 48000, 1)];
    assert!(matches!(choose_stream_config(&rs), StreamConfigChoice::Supported(2)));
}

#[test]
fn stream_config_falls_back_to_first_covering() {
    let rs = vec![range(8000, 44100, 1), range(44100, 96000, 2), range(48000, 48000, 4)];
    assert!(matches!(choose_stream_config(&rs), StreamConfigChoice::Supported(1)));
}

#[test]
fn stream_config_falls_back_to_default() {
    let rs = vec![range(8000, 44100, 1)];
    assert!(matches!(choose_stream_config(&rs), StreamConfigChoice::DeviceDefault));
    assert!(matches!(choose_stream_config(&vec![]), StreamConfigChoice::DeviceDefault));
}

#[test]
fn accumulator_at_48k_passes_samples_through() {
    let mut acc = FrameAccumulator::new(48_000, 1);
    let mut frames = Vec::new();
    for i in 0..(FRAME_SIZE_SAMPLES as i16 + 10) {
        frames.extend(acc.push_resampled(i));
    }
    assert_eq!(frames.len(), 1);
    assert_eq!(frames[0].len(), 960);
    assert_eq!(frames[0][0], 0);
    assert_eq!(frames[0][959], 959);
    assert_eq!(acc.frame.len(), 10);
    assert_eq!(acc.resample_cursor, 0);
}

#[test]
fn accumulator_upsamples_from_24k() {
    let mut acc = FrameAccumulator::new(24_000, 2);
    let out = acc.push_resampled(7);
    assert!(out.is_empty());
    assert_eq!(acc.frame, vec![7, 7]);
    for _ in 0..478 {
        assert!(acc.push_resampled(7).is_empty());
    }
    let frames = acc.push_resampled(1);
    assert_eq!(frames.len(), 1);
    assert_eq!(frames[0].len(), 960);
    assert_eq!(frames[0][957], 7);
    assert_eq!(frames[0][958], 1);
    assert_eq!(frames[0][959], 1);
    assert!(acc.frame.is_empty());
    assert!(acc.push_resampled(3).is_empty());
    assert_eq!(acc.frame, vec![3, 3]);
}

#[test]
fn accumulator_downsamples_from_96k() {
    let mut acc = FrameAccumulator::new(96_000, 1);
    assert!(acc.push_resampled(1).is_empty());
    assert!(acc.frame.is_empty());
    assert_eq!(acc.resample_cursor, 48_000);
    assert!(acc.push_resampled(2).is_empty());
    assert_eq!(acc.frame, vec![2]);
    assert_eq!(acc.resample_cursor, 0);
}

#[test]
fn accumulator_at_44100_keeps_exact_time() {
    let mut acc = FrameAccumulator::new(44_100, 1);
    let mut emitted = 0usize;
    for _ in 0..44_100 {
        let frames = acc.push_resampled(0);
        emitted += frames.iter().map(|f| f.len()).sum::<usize>();
    }
    // One second of input gives exactly one second of 48 kHz output.
    assert_eq!(emitted + acc.frame.len(), 48_000);
    assert_eq!(acc.resample_cursor, 0);
}

#[test]
fn doctor_report_all_pass() {
    let r = doctor_report(
        Ok("192.168.1.10".to_string()),
        InputProbe::Ready {
            device_name: "USB Mic".to_string(),
            sample_format: "F32".to_string(),
            sample_rate: 48000,
            channels: 1,
        },
        41777,
        Ok(()),
    );
    assert_eq!(r.checks.len(), 3);
    assert_eq!(r.checks[0].code, "DR001_LAN_IP");
    assert_eq!(r.checks[0].status, DoctorStatus::Pass);
    assert_eq!(r.checks[0].message, "Detected local IP address: 192.168.1.10");
    assert_eq!(r.checks[1].code, "DR002_INPUT_DEVICE");
    assert_eq!(r.checks[1].message, "Input OK on 'USB Mic' (F32, 48000Hz, 1ch)");
    assert_eq!(r.checks[2].code, "DR003_PORT_BIND");
    assert_eq!(r.checks[2].status, DoctorStatus::Pass);
    assert_eq!(r.checks[2].message, "Port 41777 is available");
}

#[test]
fn doctor_report_failures() {
    let r = doctor_report(
        Err("no route".to_string()),
        InputProbe::DeviceUnavailable { error: "No default input device available".to_string() },
        80,
        Err("Permission denied".to_string()),
    );
    assert_eq!(r.checks[0].status, DoctorStatus::Warn);
    assert_eq!(r.checks[0].message, "Could not determine LAN IP: no route");
    assert_eq!(r.checks[1].status, DoctorStatus::Fail);
    assert_eq!(r.checks[1].message, "Input device unavailable: No default input device available");
    assert_eq!(r.checks[2].status, DoctorStatus::Fail);
    assert_eq!(r.checks[2].message, "Port 80 unavailable: Permission denied");
    let r = doctor_report(
        Ok("10.0.0.2".to_string()),
        InputProbe::NoStreamConfig { error: "No supported input config found".to_string() },
        1,
        Ok(()),
    );
    assert_eq!(
        r.checks[1].message,
        "Input device exists but has no valid stream config: No supported input config found"
    );
}

#[test]
fn first_name_containing_scans_in_order() {
    let lowered = vec!["built-in microphone".to_string(), "usb mic".to_string(), "usb headset".to_string()];
    assert_eq!(first_name_containing(&lowered, "usb"), Some(1));
    assert_eq!(first_name_containing(&lowered, "mic"), Some(0));
    assert_eq!(first_name_containing(&lowered, "MIC"), None);
    assert_eq!(first_name_containing(&lowered, "webcam"), None);
    assert_eq!(first_name_containing(&vec![], ""), None);
}

#[test]
fn listing_lines_print_index_name_and_default() {
    let out = list_input_devices(
        vec![Some("Built-in Mic".to_string()), None, Some("USB Mic".to_string())],
        Some("USB Mic".to_string()),
    );
    assert_eq!(out[0].listing_line(), "  [0] Built-in Mic");
    assert_eq!(out[1].listing_line(), "  [1] <unknown>");
    assert_eq!(out[2].listing_line(), "  [2] USB Mic (default)");
}

#[test]
fn listed_index_selects_same_device() {
    let names: Vec<String> = (0..12).map(|i| format!("Device {}", i)).collect();
    let listed = list_input_devices(names.iter().cloned().map(Some).collect(), None);
    for d in &listed {
        let selector = decimal_string(d.index as u64);
        let picked = select_input_device(&selector, &names).ok().unwrap();
        assert_eq!(picked, d.index);
        assert_eq!(names[picked], d.name);
    }
}

#[test]
fn push_samples_matches_single_pushes() {
    let samples: Vec<i16> = (0..3000).map(|i| (i % 100) as i16).collect();
    for rate in [8_000u32, 44_100, 48_000, 96_000] {
        let mut a = FrameAccumulator::new(rate, 1);
        let mut b = FrameAccumulator::new(rate, 1);
        let mut fa = Vec::new();
        for &x in &samples {
            fa.extend(a.push_resampled(x));
        }
        let fb = b.push_samples(&samples);
        assert_eq!(fa, fb);
        assert_eq!(a.frame, b.frame);
        assert_eq!(a.resample_cursor, b.resample_cursor);
        // Output count is floor(n * 48000 / rate).
        let total: usize = fb.iter().map(|f| f.len()).sum::<usize>() + b.frame.len();
        assert_eq!(total as u64, samples.len() as u64 * 48_000 / rate as u64);
        assert!(fb.iter().all(|f| f.len() == 960));
    }
}

#[test]
fn push_samples_paces_each_sample() {
    // At 32 kHz each input sample is due floor(i*1.5) - floor((i-1)*1.5) times: 1, 2, 1, 2, ...
    let mut acc = FrameAccumulator::new(32_000, 1);
    let out = acc.push_samples(&vec![1, 2, 3, 4]);
    assert!(out.is_empty());
    assert_eq!(acc.frame, vec![1, 2, 2, 3, 4, 4]);
    assert_eq!(acc.resample_cursor, 0);
}
