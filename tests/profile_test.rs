use asus_armoury::config::DaemonConfig;
use asus_armoury::controller::HardwareController;
use asus_armoury::error::ArmouryError;
use asus_armoury::profiles::default_profiles;
use asus_armoury::profiles::ProfileManager;
use asus_armoury::service::AppState;
use asus_armoury::surface::SurfaceProbe;
use asus_armoury::surface::WriteOutcome;
use asus_armoury::types::BatterySettings;
use asus_armoury::types::FanCurve;
use asus_armoury::types::FanMode;
use asus_armoury::types::GpuMode;
use asus_armoury::types::PerformanceMode;
use asus_armoury::types::Profile;
use asus_armoury::types::RgbColor;
use asus_armoury::types::RgbEffect;
use asus_armoury::types::RgbSettings;

fn probe(platform_profile: bool) -> SurfaceProbe {
    SurfaceProbe {
        platform_profile,
        fan_curve_node: true,
        battery0_threshold: true,
        battery1_threshold: false,
        kbd_backlight: true,
        kbd_brightness_node: true,
        wmi_leds: false,
        wmi_kbd_backlight: false,
        gpu_helper: false,
        anime_matrix: false,
        hwmon: Vec::new(),
        dmi_product_name: None,
        wmi_product_name: None,
    }
}

fn custom(name: &str, mode: PerformanceMode) -> Profile {
    let mut p = Profile::default();
    p.name = name.to_string();
    p.performance_mode = mode;
    p
}

fn state(platform_profile: bool, loaded: Vec<Profile>) -> AppState {
    let config = DaemonConfig::new("/tmp/profiles".to_string());
    let profiles = ProfileManager::new(
        config.profiles_dir.clone(),
        config.default_profile.clone(),
        loaded,
    );
    AppState { hardware: HardwareController::new(probe(platform_profile)), profiles, config }
}

fn sorted_names(m: &ProfileManager) -> Vec<String> {
    let mut names: Vec<String> = m.list_profiles().iter().map(|p| p.name.clone()).collect();
    names.sort();
    names
}

#[test]
fn fresh_store_seeds_four_builtins() {
    let m = ProfileManager::new("/tmp/p".to_string(), "Balanced".to_string(), Vec::new());
    assert_eq!(sorted_names(&m), vec!["Balanced", "Gaming", "Silent", "Work"]);
    assert_eq!(m.current_profile_name(), "Balanced");
    assert_eq!(m.profiles_dir(), "/tmp/p");

    let gaming = m.get_profile("Gaming").unwrap();
    assert_eq!(gaming.performance_mode, PerformanceMode::Turbo);
    assert_eq!(gaming.gpu_mode, GpuMode::Dedicated);
    assert_eq!(gaming.battery_settings.charge_limit, 100);
    assert_eq!(gaming.rgb_settings.effect, RgbEffect::Rainbow);
    assert_eq!(gaming.rgb_settings.speed, 75);

    let work = m.get_profile("Work").unwrap();
    assert_eq!(work.performance_mode, PerformanceMode::Balanced);
    assert_eq!(work.gpu_mode, GpuMode::Integrated);
    assert_eq!(work.battery_settings.charge_limit, 80);
    assert_eq!(work.rgb_settings.color, RgbColor::new(255, 255, 255));
    assert_eq!(work.rgb_settings.brightness, 50);

    let silent = m.get_profile("Silent").unwrap();
    assert_eq!(silent.performance_mode, PerformanceMode::Silent);
    assert_eq!(silent.rgb_settings.effect, RgbEffect::Off);
    assert_eq!(silent.battery_settings.charge_limit, 60);

    let balanced = m.get_profile("Balanced").unwrap();
    assert_eq!(balanced.gpu_mode, GpuMode::Hybrid);
    assert_eq!(balanced.rgb_settings, RgbSettings::default());
    assert_eq!(balanced.fan_mode, FanMode::Auto);
    assert!(balanced.fan_curve.is_none());
}

#[test]
fn default_store_is_seeded() {
    let m = ProfileManager::default();
    assert_eq!(sorted_names(&m), vec!["Balanced", "Gaming", "Silent", "Work"]);
    assert_eq!(m.profiles_dir(), "/tmp/asus-armoury/profiles");
    assert_eq!(default_profiles().len(), 4);
}

#[test]
fn loaded_profiles_replace_seeding() {
    let loaded = vec![
        custom("Travel", PerformanceMode::Silent),
        custom("Travel", PerformanceMode::Turbo),
        custom("Gaming", PerformanceMode::Manual),
    ];
    let m = ProfileManager::new("/tmp/p".to_string(), "Travel".to_string(), loaded);
    assert_eq!(sorted_names(&m), vec!["Gaming", "Travel"]);
    assert_eq!(m.get_profile("Travel").unwrap().performance_mode, PerformanceMode::Turbo);
    assert_eq!(m.get_profile("Gaming").unwrap().performance_mode, PerformanceMode::Manual);
    assert!(m.get_profile("Work").is_none());
}

#[test]
fn builtins_cannot_be_deleted() {
    let mut m = ProfileManager::new("/tmp/p".to_string(), "Balanced".to_string(), Vec::new());
    for name in ["Gaming", "Work", "Silent", "Balanced"] {
        let r = m.delete_profile(name);
        assert!(matches!(r, Err(ArmouryError::InvalidValue(_))));
        assert!(m.get_profile(name).is_some());
    }
    let mut only_custom =
        ProfileManager::new("/tmp/p".to_string(), "x".to_string(), vec![custom("x", PerformanceMode::Turbo)]);
    assert!(matches!(only_custom.delete_profile("Gaming"), Err(ArmouryError::InvalidValue(_))));
}

#[test]
fn delete_custom_and_unknown() {
    let mut m = ProfileManager::new("/tmp/p".to_string(), "Balanced".to_string(), Vec::new());
    m.save_profile(custom("Travel", PerformanceMode::Silent));
    assert!(m.delete_profile("Travel").is_ok());
    assert!(m.get_profile("Travel").is_none());
    assert!(matches!(m.delete_profile("Travel"), Err(ArmouryError::InvalidValue(_))));
    assert!(matches!(m.delete_profile("gaming"), Err(ArmouryError::InvalidValue(_))));
    assert_eq!(sorted_names(&m).len(), 4);
}

#[test]
fn save_overwrites_by_name() {
    let mut m = ProfileManager::new("/tmp/p".to_string(), "Balanced".to_string(), Vec::new());
    let mut g = custom("Gaming", PerformanceMode::Silent);
    g.fan_curve = Some(FanCurve::default());
    m.save_profile(g);
    assert_eq!(sorted_names(&m).len(), 4);
    let stored = m.get_profile("Gaming").unwrap();
    assert_eq!(stored.performance_mode, PerformanceMode::Silent);
    assert!(stored.fan_curve.is_some());
}

#[test]
fn unknown_current_profile_is_ignored() {
    let mut m = ProfileManager::new("/tmp/p".to_string(), "Balanced".to_string(), Vec::new());
    m.set_current_profile("Nope");
    assert_eq!(m.current_profile_name(), "Balanced");
    m.set_current_profile("Work");
    assert_eq!(m.current_profile_name(), "Work");
}

#[test]
fn apply_profile_succeeds_with_performance_step() {
    let mut s = state(true, Vec::new());
    let plan = s.plan_profile("Gaming").unwrap();
    assert!(plan.performance.is_ok());
    assert!(plan.fan_curve.is_none());
    assert!(s.apply_profile("Gaming", &plan, &WriteOutcome::Done));
    assert_eq!(s.profiles.current_profile_name(), "Gaming");
    assert_eq!(s.hardware.current_performance_mode, PerformanceMode::Turbo);
}

#[test]
fn apply_profile_fails_when_performance_write_fails() {
    let mut s = state(true, Vec::new());
    let plan = s.plan_profile("Silent").unwrap();
    assert!(plan.rgb.is_ok() && plan.battery.is_ok());
    let ok = s.apply_profile("Silent", &plan, &WriteOutcome::PermissionDenied);
    assert!(!ok);
    assert_eq!(s.profiles.current_profile_name(), "Balanced");
    assert_eq!(s.hardware.current_performance_mode, PerformanceMode::Balanced);
}

#[test]
fn apply_profile_fails_without_performance_capability() {
    let mut s = state(false, Vec::new());
    let plan = s.plan_profile("Work").unwrap();
    assert!(matches!(plan.performance, Err(ArmouryError::FeatureNotAvailable(_))));
    assert!(plan.battery.is_ok());
    assert!(!s.apply_profile("Work", &plan, &WriteOutcome::Done));
    assert_eq!(s.profiles.current_profile_name(), "Balanced");
}

#[test]
fn apply_profile_ignores_best_effort_failures() {
    let mut p = custom("Odd", PerformanceMode::Silent);
    p.battery_settings = BatterySettings { charge_limit: 70 };
    p.fan_curve = Some(FanCurve::default());
    let mut s = state(true, vec![p]);
    let plan = s.plan_profile("Odd").unwrap();
    assert!(matches!(plan.battery, Err(ArmouryError::InvalidValue(_))));
    assert!(matches!(plan.fan_curve, Some(Ok(Some(_)))));
    assert!(s.apply_profile("Odd", &plan, &WriteOutcome::Done));
    assert_eq!(s.profiles.current_profile_name(), "Odd");
    assert!(s.plan_profile("Missing").is_none());
}

#[test]
fn performance_synonym_matches_turbo() {
    assert_eq!(PerformanceMode::from_name("PERFORMANCE"), Some(PerformanceMode::Turbo));
    assert_eq!(PerformanceMode::from_name("turbo"), Some(PerformanceMode::Turbo));
    assert_eq!(PerformanceMode::from_name("Silent"), Some(PerformanceMode::Silent));
    assert_eq!(PerformanceMode::from_name("boost"), None);
    let s = state(true, Vec::new());
    let a = s.plan_performance_mode("PERFORMANCE").unwrap();
    let b = s.plan_performance_mode("turbo").unwrap();
    assert_eq!(a.mode, b.mode);
    assert_eq!(format!("{:?}", a.plan), format!("{:?}", b.plan));
    assert!(s.plan_performance_mode("fast").is_none());
}

#[test]
fn gpu_mode_names_are_case_insensitive() {
    assert_eq!(GpuMode::from_name("INTEGRATED"), Some(GpuMode::Integrated));
    assert_eq!(GpuMode::from_name("Compute"), Some(GpuMode::Compute));
    assert_eq!(GpuMode::from_name("discrete"), None);
    let s = state(true, Vec::new());
    let plan = s.plan_gpu_mode("hybrid").unwrap();
    assert_eq!(plan.mode, GpuMode::Hybrid);
    assert!(matches!(plan.plan, Err(ArmouryError::FeatureNotAvailable(_))));
}

#[test]
fn config_defaults() {
    let c = DaemonConfig::new("/var/lib/x".to_string());
    assert_eq!(c.default_profile, "Balanced");
    assert_eq!(c.poll_interval_ms, 1000);
    assert!(!c.debug && c.use_asusctl && c.use_supergfxctl);
}
