use asus_armoury::controller::HardwareController;
use asus_armoury::error::ArmouryError;
use asus_armoury::surface::encode_fan_curve;
use asus_armoury::surface::find_hwmon_by_name;
use asus_armoury::surface::kbd_level;
use asus_armoury::surface::parse_platform_profile;
use asus_armoury::surface::read_battery_status;
use asus_armoury::surface::thermal_zone_is_cpu;
use asus_armoury::surface::thermal_zone_is_gpu;
use asus_armoury::surface::HardwareWrite;
use asus_armoury::surface::HwmonEntry;
use asus_armoury::surface::HwmonFamily;
use asus_armoury::surface::SurfaceProbe;
use asus_armoury::surface::SysfsInterface;
use asus_armoury::surface::WriteOutcome;
use asus_armoury::text::contains_str;
use asus_armoury::text::decimal_string;
use asus_armoury::text::eq_ignore_ascii_case;
use asus_armoury::text::parse_decimal;
use asus_armoury::types::FanCurve;
use asus_armoury::types::FanCurvePoint;
use asus_armoury::types::GpuMode;
use asus_armoury::types::PerformanceMode;
use asus_armoury::types::RgbSettings;

fn entry(path: &str, name: &str) -> HwmonEntry {
    HwmonEntry { path: path.to_string(), name: name.to_string() }
}

fn full_probe() -> SurfaceProbe {
    SurfaceProbe {
        platform_profile: true,
        fan_curve_node: true,
        battery0_threshold: false,
        battery1_threshold: true,
        kbd_backlight: true,
        kbd_brightness_node: true,
        wmi_leds: false,
        wmi_kbd_backlight: false,
        gpu_helper: true,
        anime_matrix: false,
        hwmon: vec![
            entry("/sys/class/hwmon/hwmon0", "ACPITZ\n"),
            entry("/sys/class/hwmon/hwmon1", "asus_fan\n"),
            entry("/sys/class/hwmon/hwmon2", "amdgpu\n"),
        ],
        dmi_product_name: Some("  \n".to_string()),
        wmi_product_name: Some("ROG Zephyrus G14\n".to_string()),
    }
}

fn empty_probe() -> SurfaceProbe {
    SurfaceProbe {
        platform_profile: false,
        fan_curve_node: false,
        battery0_threshold: false,
        battery1_threshold: false,
        kbd_backlight: false,
        kbd_brightness_node: false,
        wmi_leds: false,
        wmi_kbd_backlight: false,
        gpu_helper: false,
        anime_matrix: false,
        hwmon: Vec::new(),
        dmi_product_name: None,
        wmi_product_name: None,
    }
}

fn sysfs_write(w: &HardwareWrite) -> (String, String) {
    match w {
        HardwareWrite::Sysfs { path, value } => (path.clone(), value.clone()),
        HardwareWrite::GpuSwitch { .. } => panic!("expected a sysfs write"),
    }
}

fn is_unavailable<T>(r: &Result<T, ArmouryError>) -> bool {
    matches!(r, Err(ArmouryError::FeatureNotAvailable(_)))
}

#[test]
fn capabilities_follow_the_probe() {
    let hw = HardwareController::new(full_probe());
    let caps = &hw.capabilities;
    assert!(caps.performance_modes);
    assert!(caps.fan_control);
    assert!(caps.battery_limit);
    assert!(caps.rgb_keyboard);
    assert!(caps.gpu_switching);
    assert!(!caps.anime_matrix);
    assert!(!caps.per_key_rgb);
    assert!(!caps.panel_overdrive);
    assert_eq!(caps.model_name.as_deref(), Some("ROG Zephyrus G14"));
    assert_eq!(hw.get_gpu_mode(), GpuMode::Hybrid);
}

#[test]
fn empty_probe_offers_nothing() {
    let hw = HardwareController::new(empty_probe());
    let caps = &hw.capabilities;
    assert!(!caps.performance_modes && !caps.fan_control && !caps.battery_limit);
    assert!(!caps.rgb_keyboard && !caps.gpu_switching);
    assert!(caps.model_name.is_none());
}

#[test]
fn fan_control_from_sensor_group_alone() {
    let mut probe = empty_probe();
    probe.hwmon = vec![entry("/sys/class/hwmon/hwmon3", "Asus-NB-WMI\n")];
    let sysfs = SysfsInterface::new(probe);
    assert!(sysfs.has_fan_control());
    assert_eq!(sysfs.find_hwmon_fan().as_deref(), Some("/sys/class/hwmon/hwmon3"));
    assert_eq!(
        sysfs.fan_input_path(2).as_deref(),
        Some("/sys/class/hwmon/hwmon3/fan2_input")
    );
}

#[test]
fn battery_path_prefers_first_battery() {
    let mut probe = empty_probe();
    probe.battery0_threshold = true;
    probe.battery1_threshold = true;
    let sysfs = SysfsInterface::new(probe);
    assert!(sysfs.has_battery_limit());
    assert_eq!(
        sysfs.battery_limit_path().as_deref(),
        Some("/sys/class/power_supply/BAT0/charge_control_end_threshold")
    );
}

#[test]
fn hwmon_lookup_finds_first_of_family() {
    let entries = vec![
        entry("/h/0", "nvme\n"),
        entry("/h/1", " K10Temp \n"),
        entry("/h/2", "coretemp"),
        entry("/h/3", "NVIDIA"),
    ];
    assert_eq!(find_hwmon_by_name(&entries, HwmonFamily::Cpu).as_deref(), Some("/h/1"));
    assert_eq!(find_hwmon_by_name(&entries, HwmonFamily::Gpu).as_deref(), Some("/h/3"));
    assert_eq!(find_hwmon_by_name(&entries, HwmonFamily::Fan), None);
    let sysfs = SysfsInterface::new(full_probe());
    assert_eq!(sysfs.find_hwmon_cpu().as_deref(), Some("/sys/class/hwmon/hwmon0"));
    assert_eq!(sysfs.find_hwmon_gpu().as_deref(), Some("/sys/class/hwmon/hwmon2"));
}

#[test]
fn thermal_zones_are_classified() {
    assert!(thermal_zone_is_cpu("x86_pkg_temp\n"));
    assert!(thermal_zone_is_cpu("TCPU"));
    assert!(thermal_zone_is_cpu(" ACPITZ\n"));
    assert!(!thermal_zone_is_cpu("acpitz2"));
    assert!(thermal_zone_is_gpu("amdgpu"));
    assert!(thermal_zone_is_gpu("GPU-thermal"));
    assert!(!thermal_zone_is_gpu("iwlwifi_1"));
}

#[test]
fn fan_speeds_are_read_or_zero() {
    let hw = HardwareController::new(full_probe());
    assert_eq!(hw.get_fan_speeds(Some("2400\n"), Some("junk")), (2400, 0));
    assert_eq!(hw.get_fan_speeds(None, Some(" +3100 ")), (0, 3100));
    let bare = HardwareController::new(empty_probe());
    assert_eq!(bare.get_fan_speeds(Some("2400"), Some("2500")), (0, 0));
}

#[test]
fn platform_profile_is_parsed_after_trimming() {
    assert_eq!(parse_platform_profile("quiet\n"), Some(PerformanceMode::Silent));
    assert_eq!(parse_platform_profile(" silent "), Some(PerformanceMode::Silent));
    assert_eq!(parse_platform_profile("balanced-performance\n"), Some(PerformanceMode::Balanced));
    assert_eq!(parse_platform_profile("turbo"), Some(PerformanceMode::Turbo));
    assert_eq!(parse_platform_profile("Performance"), None);
    assert_eq!(parse_platform_profile("low-power"), None);
}

#[test]
fn performance_mode_read_back_falls_back_to_cache() {
    let hw = HardwareController::new(full_probe());
    assert_eq!(hw.get_performance_mode(Some("performance\n")), PerformanceMode::Turbo);
    assert_eq!(hw.get_performance_mode(Some("cool")), PerformanceMode::Balanced);
    assert_eq!(hw.get_performance_mode(None), PerformanceMode::Balanced);
}

#[test]
fn performance_mode_write_and_commit() {
    let mut hw = HardwareController::new(full_probe());
    let plan = hw.set_performance_mode(PerformanceMode::Silent).unwrap().unwrap();
    assert_eq!(
        sysfs_write(&plan),
        ("/sys/firmware/acpi/platform_profile".to_string(), "quiet".to_string())
    );
    let manual = hw.set_performance_mode(PerformanceMode::Manual).unwrap().unwrap();
    assert_eq!(sysfs_write(&manual).1, "balanced");
    assert!(hw.commit_performance_mode(PerformanceMode::Silent, &WriteOutcome::Done).is_ok());
    assert_eq!(hw.current_performance_mode, PerformanceMode::Silent);
    let r = hw.commit_performance_mode(PerformanceMode::Turbo, &WriteOutcome::PermissionDenied);
    assert!(matches!(r, Err(ArmouryError::PermissionDenied(_))));
    assert_eq!(hw.current_performance_mode, PerformanceMode::Silent);
    let r = hw.commit_performance_mode(
        PerformanceMode::Turbo,
        &WriteOutcome::Failed("device busy".to_string()),
    );
    assert!(matches!(r, Err(ArmouryError::IoError(ref m)) if m == "device busy"));
    assert_eq!(hw.current_performance_mode, PerformanceMode::Silent);
}

#[test]
fn gpu_mode_plan_and_commit() {
    let mut hw = HardwareController::new(full_probe());
    let plan = hw.set_gpu_mode(GpuMode::Integrated).unwrap().unwrap();
    assert!(matches!(plan, HardwareWrite::GpuSwitch { mode: GpuMode::Integrated }));
    let r = hw.commit_gpu_mode(GpuMode::Integrated, &WriteOutcome::Failed("exit 1".to_string()));
    assert!(matches!(r, Err(ArmouryError::HardwareError(_))));
    assert_eq!(hw.get_gpu_mode(), GpuMode::Hybrid);
    assert!(hw.commit_gpu_mode(GpuMode::Integrated, &WriteOutcome::Done).is_ok());
    assert_eq!(hw.get_gpu_mode(), GpuMode::Integrated);
}

#[test]
fn fan_curve_is_encoded_verbatim() {
    let curve = FanCurve::default();
    assert_eq!(encode_fan_curve(&curve.points), "30:0,40:20,50:35,60:50,70:70,80:85,90:100");
    assert_eq!(encode_fan_curve(&Vec::new()), "");
    let unordered = vec![
        FanCurvePoint { temperature: 90, fan_percent: 255 },
        FanCurvePoint { temperature: 5, fan_percent: 7 },
    ];
    assert_eq!(encode_fan_curve(&unordered), "90:255,5:7");
    let hw = HardwareController::new(full_probe());
    let plan = hw.set_fan_curve(&curve).unwrap().unwrap();
    assert_eq!(sysfs_write(&plan).0, "/sys/devices/platform/asus-nb-wmi/fan_curve");
    let reset = hw.reset_fan_auto().unwrap().unwrap();
    assert_eq!(sysfs_write(&reset).1, "auto");
}

#[test]
fn fan_curve_needs_vendor_node() {
    let mut probe = empty_probe();
    probe.hwmon = vec![entry("/h/0", "thinkpad")];
    let hw = HardwareController::new(probe);
    assert!(hw.capabilities.fan_control);
    assert!(is_unavailable(&hw.set_fan_curve(&FanCurve::default())));
    assert!(matches!(hw.reset_fan_auto(), Ok(None)));
}

#[test]
fn rgb_writes_only_scaled_brightness() {
    assert_eq!(kbd_level(0), 0);
    assert_eq!(kbd_level(33), 0);
    assert_eq!(kbd_level(34), 1);
    assert_eq!(kbd_level(50), 1);
    assert_eq!(kbd_level(100), 3);
    assert_eq!(kbd_level(255), 3);
    let hw = HardwareController::new(full_probe());
    let plan = hw.set_rgb_settings(&RgbSettings::default()).unwrap().unwrap();
    assert_eq!(
        sysfs_write(&plan),
        ("/sys/class/leds/asus::kbd_backlight/brightness".to_string(), "3".to_string())
    );
    let mut probe = full_probe();
    probe.kbd_brightness_node = false;
    let hw = HardwareController::new(probe);
    assert!(matches!(hw.set_rgb_settings(&RgbSettings::default()), Ok(None)));
}

#[test]
fn battery_limit_accepts_only_three_values() {
    let hw = HardwareController::new(full_probe());
    for limit in [60u8, 80, 100] {
        let plan = hw.set_battery_limit(limit).unwrap().unwrap();
        assert_eq!(
            sysfs_write(&plan),
            (
                "/sys/class/power_supply/BAT1/charge_control_end_threshold".to_string(),
                limit.to_string()
            )
        );
    }
    for limit in 0u8..=255 {
        if limit != 60 && limit != 80 && limit != 100 {
            let r = hw.set_battery_limit(limit);
            assert!(matches!(r, Err(ArmouryError::InvalidValue(_))), "limit {}", limit);
        }
    }
}

#[test]
fn battery_limit_read_back() {
    let hw = HardwareController::new(full_probe());
    assert_eq!(hw.get_battery_limit(Some("80\n")), 80);
    assert_eq!(hw.get_battery_limit(Some("300")), 100);
    assert_eq!(hw.get_battery_limit(None), 100);
    assert_eq!(read_battery_status(Some("57\n"), Some("1\n")), (57, true));
    assert_eq!(read_battery_status(None, Some("0")), (0, false));
    assert_eq!(read_battery_status(Some("x"), None), (0, false));
}

#[test]
fn gated_setters_refuse_without_capability() {
    let hw = HardwareController::dummy(full_probe());
    assert!(is_unavailable(&hw.set_performance_mode(PerformanceMode::Turbo)));
    assert!(is_unavailable(&hw.set_gpu_mode(GpuMode::Dedicated)));
    assert!(is_unavailable(&hw.set_fan_curve(&FanCurve::default())));
    assert!(is_unavailable(&hw.reset_fan_auto()));
    assert!(is_unavailable(&hw.set_rgb_settings(&RgbSettings::default())));
    assert!(is_unavailable(&hw.set_battery_limit(80)));
    assert!(is_unavailable(&hw.set_battery_limit(50)));
}

#[test]
fn error_messages_have_prefixes() {
    let e = ArmouryError::InvalidValue("bad".to_string());
    assert_eq!(e.to_string(), "Invalid value: bad");
    assert_eq!(ArmouryError::ServiceNotRunning.to_string(), "Service not running");
    let e = ArmouryError::FeatureNotAvailable("fans".to_string());
    assert_eq!(e.to_string(), "Feature not available: fans");
}

#[test]
fn decimal_text_helpers() {
    assert_eq!(decimal_string(0), "0");
    assert_eq!(decimal_string(4_294_967_295), "4294967295");
    assert_eq!(parse_decimal("007", 255), Some(7));
    assert_eq!(parse_decimal("+42", 255), Some(42));
    assert_eq!(parse_decimal("255", 255), Some(255));
    assert_eq!(parse_decimal("256", 255), None);
    assert_eq!(parse_decimal("99999999999999999999", u32::MAX), None);
    assert_eq!(parse_decimal("", 255), None);
    assert_eq!(parse_decimal("+", 255), None);
    assert_eq!(parse_decimal("-1", 255), None);
    assert_eq!(parse_decimal("1 2", 255), None);
}

#[test]
fn word_helpers() {
    assert!(eq_ignore_ascii_case("PeRfOrMaNcE", "performance"));
    assert!(!eq_ignore_ascii_case("turbo ", "turbo"));
    assert!(contains_str("x86_pkg_temp", "pkg"));
    assert!(contains_str("abc", ""));
    assert!(!contains_str("ab", "abc"));
}
