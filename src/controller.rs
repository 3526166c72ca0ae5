//! The hardware controller: capability detection, and the gating and
//! validation protocol that every mutating operation follows.
//!
//! A mutation takes two steps. `set_*` checks the capability (no write is
//! planned when it is absent) and the input, and returns the write that the
//! daemon must perform. The daemon performs it and hands the outcome to the
//! matching `commit*`, which updates the cached mode on success only.

use vstd::prelude::*;
use vstd::string::*;

use crate::error::ArmouryError;
use crate::surface::battery_path_spec;
use crate::surface::counter_value;
use crate::surface::curve_text;
use crate::surface::kbd_level_spec;
use crate::surface::platform_profile_name;
use crate::surface::FAN_CURVE_PATH;
use crate::surface::KBD_BRIGHTNESS_PATH;
use crate::surface::PLATFORM_PROFILE;
use crate::surface::first_in_family;
use crate::surface::model_name_spec;
use crate::surface::mode_of_platform_profile;
use crate::surface::opt_view;
use crate::surface::parse_platform_profile;
use crate::surface::read_battery_limit;
use crate::surface::sysfs_result;
use crate::surface::HardwareWrite;
use crate::surface::HwmonFamily;
use crate::surface::SurfaceProbe;
use crate::surface::SysfsInterface;
use crate::surface::WriteOutcome;
use crate::text::decimal;
use crate::text::parse_unsigned;
use crate::text::trim_of;
use crate::types::default_rgb_settings;
use crate::types::is_valid_charge_limit;
use crate::types::FanCurve;
use crate::types::FanCurvePoint;
use crate::types::GpuMode;
use crate::types::HardwareCapabilities;
use crate::types::PerformanceMode;
use crate::types::RgbSettings;

verus! {

/// What a mutating operation asks of the hardware: an error when it may not
/// proceed, else the write to perform (none when there is nothing to write).
pub type WritePlan = Result<Option<HardwareWrite>, ArmouryError>;

/// A plan that was refused because the capability is absent.
pub open spec fn is_unavailable(plan: WritePlan) -> bool {
    plan is Err && plan->Err_0 is FeatureNotAvailable
}

/// A plan to write `value` to the sysfs node at `path`.
pub open spec fn plans_sysfs(plan: WritePlan, path: Seq<char>, value: Seq<char>) -> bool {
    plan is Ok && plan->Ok_0 is Some && plan->Ok_0->0.is_sysfs(path, value)
}

/// A plan that may proceed with nothing to write.
pub open spec fn plans_nothing(plan: WritePlan) -> bool {
    plan is Ok && plan->Ok_0 is None
}

/// The capabilities that a probe shows. Each rule stands alone.
pub open spec fn capabilities_spec(caps: HardwareCapabilities, probe: SurfaceProbe) -> bool {
    &&& caps.performance_modes == probe.platform_profile
    &&& caps.fan_control == (probe.fan_curve_node || first_in_family(
        probe.hwmon@,
        HwmonFamily::Fan,
    ) is Some)
    &&& caps.battery_limit == (battery_path_spec(probe) is Some)
    &&& caps.rgb_keyboard == (probe.kbd_backlight || probe.wmi_leds || probe.wmi_kbd_backlight)
    &&& caps.gpu_switching == probe.gpu_helper
    &&& caps.anime_matrix == probe.anime_matrix
    &&& !caps.per_key_rgb
    &&& !caps.panel_overdrive
    &&& (caps.model_name is Some <==> model_name_spec(probe) is Some)
    &&& (caps.model_name is Some ==> caps.model_name->0@ == model_name_spec(probe)->0)
}

/// Owns the hardware surface, the capabilities detected at start-up, and the
/// modes last set (used when the hardware cannot be read back).
pub struct HardwareController {
    /// Detected hardware capabilities; fixed for the controller's lifetime.
    pub capabilities: HardwareCapabilities,
    /// The hardware surface.
    pub sysfs: SysfsInterface,
    /// Performance mode last set.
    pub current_performance_mode: PerformanceMode,
    /// GPU mode last set. The GPU mode is never read back from the helper,
    /// so this may drift if another program switches it.
    pub current_gpu_mode: GpuMode,
}

impl HardwareController {
    /// The plan for a performance mode: refused without the capability, else
    /// the mode's value written to the platform profile node.
    pub open spec fn performance_plan(&self, mode: PerformanceMode, r: WritePlan) -> bool {
        &&& !self.capabilities.performance_modes ==> is_unavailable(r)
        &&& self.capabilities.performance_modes ==> plans_sysfs(
            r,
            PLATFORM_PROFILE@,
            platform_profile_name(mode),
        )
    }

    /// The plan for a fan curve: refused without the capability or without
    /// the vendor fan-curve node, else the encoded points written to it.
    pub open spec fn fan_curve_plan(&self, points: Seq<FanCurvePoint>, r: WritePlan) -> bool {
        &&& !self.capabilities.fan_control ==> is_unavailable(r)
        &&& self.capabilities.fan_control && !self.sysfs.probe.fan_curve_node ==> is_unavailable(r)
        &&& self.capabilities.fan_control && self.sysfs.probe.fan_curve_node ==> plans_sysfs(
            r,
            FAN_CURVE_PATH@,
            curve_text(points),
        )
    }

    /// The plan for lighting settings: refused without the capability; else
    /// the scaled brightness written to the brightness node, or nothing when
    /// there is no such node.
    pub open spec fn rgb_plan(&self, settings: RgbSettings, r: WritePlan) -> bool {
        &&& !self.capabilities.rgb_keyboard ==> is_unavailable(r)
        &&& self.capabilities.rgb_keyboard && !self.sysfs.probe.kbd_brightness_node
            ==> plans_nothing(r)
        &&& self.capabilities.rgb_keyboard && self.sysfs.probe.kbd_brightness_node ==> plans_sysfs(
            r,
            KBD_BRIGHTNESS_PATH@,
            decimal(kbd_level_spec(settings.brightness) as nat),
        )
    }

    /// The plan for a battery charge limit: refused without the capability;
    /// `InvalidValue` for a limit other than 60, 80 or 100; else the limit in
    /// decimal written to the charge threshold node.
    pub open spec fn battery_plan(&self, limit: u8, r: WritePlan) -> bool {
        &&& !self.capabilities.battery_limit ==> is_unavailable(r)
        &&& self.capabilities.battery_limit && !is_valid_charge_limit(limit) ==> r is Err
            && r->Err_0 is InvalidValue
        &&& self.capabilities.battery_limit && is_valid_charge_limit(limit) ==> match battery_path_spec(
            self.sysfs.probe,
        ) {
            Some(path) => plans_sysfs(r, path, decimal(limit as nat)),
            None => is_unavailable(r),
        }
        &&& r is Ok ==> is_valid_charge_limit(limit)
    }

    /// A controller for the probed machine, with its capabilities detected.
    pub fn new(probe: SurfaceProbe) -> (r: Self)
        ensures
            r.sysfs.probe == probe,
            capabilities_spec(r.capabilities, probe),
            r.current_performance_mode == PerformanceMode::Balanced,
            r.current_gpu_mode == GpuMode::Hybrid,
    {
        let sysfs = SysfsInterface::new(probe);
        let capabilities = Self::detect_capabilities(&sysfs);
        HardwareController {
            capabilities,
            sysfs,
            current_performance_mode: PerformanceMode::Balanced,
            current_gpu_mode: GpuMode::Hybrid,
        }
    }

    /// A controller with no capability at all, for machines that are not
    /// supported.
    pub fn dummy(probe: SurfaceProbe) -> (r: Self)
        ensures
            r.sysfs.probe == probe,
            !r.capabilities.performance_modes && !r.capabilities.gpu_switching,
            !r.capabilities.fan_control && !r.capabilities.rgb_keyboard,
            !r.capabilities.per_key_rgb && !r.capabilities.battery_limit,
            !r.capabilities.panel_overdrive && !r.capabilities.anime_matrix,
            r.capabilities.model_name is None,
            r.current_performance_mode == PerformanceMode::Balanced,
            r.current_gpu_mode == GpuMode::Hybrid,
    {
        HardwareController {
            capabilities: HardwareCapabilities::default(),
            sysfs: SysfsInterface::new(probe),
            current_performance_mode: PerformanceMode::Balanced,
            current_gpu_mode: GpuMode::Hybrid,
        }
    }

    /// Detects the capabilities from the probe. Never fails: what is absent
    /// is simply not offered.
    pub fn detect_capabilities(sysfs: &SysfsInterface) -> (r: HardwareCapabilities)
        ensures
            capabilities_spec(r, sysfs.probe),
    {
        let mut caps = HardwareCapabilities::default();
        caps.model_name = sysfs.read_model_name();
        caps.performance_modes = sysfs.probe.platform_profile;
        caps.fan_control = sysfs.has_fan_control();
        caps.battery_limit = sysfs.has_battery_limit();
        caps.rgb_keyboard = sysfs.has_rgb_keyboard();
        caps.gpu_switching = sysfs.probe.gpu_helper;
        caps.anime_matrix = sysfs.probe.anime_matrix;
        caps
    }

    /// The performance mode: what the platform profile node holds (its
    /// contents, if it could be read), else the mode last set.
    pub fn get_performance_mode(&self, platform_profile: Option<&str>) -> (r: PerformanceMode)
        ensures
            r == match opt_view(platform_profile) {
                Some(t) => match mode_of_platform_profile(trim_of(t)) {
                    Some(m) => m,
                    None => self.current_performance_mode,
                },
                None => self.current_performance_mode,
            },
    {
        match platform_profile {
            Some(t) => match parse_platform_profile(t) {
                Some(m) => m,
                None => self.current_performance_mode,
            },
            None => self.current_performance_mode,
        }
    }

    /// Plans a performance mode change.
    pub fn set_performance_mode(&self, mode: PerformanceMode) -> (r: WritePlan)
        ensures
            self.performance_plan(mode, r),
    {
        if !self.capabilities.performance_modes {
            return Err(
                ArmouryError::FeatureNotAvailable(
                    String::from_str("Performance modes not supported on this hardware"),
                ),
            );
        }
        Ok(Some(self.sysfs.write_platform_profile(mode)))
    }

    /// Records the outcome of a performance mode write: on success the mode
    /// becomes the current one; on failure the error is returned and nothing
    /// changes.
    pub fn commit_performance_mode(&mut self, mode: PerformanceMode, outcome: &WriteOutcome) -> (r:
        Result<(), ArmouryError>)
        ensures
            r is Ok <==> outcome is Done,
            outcome is PermissionDenied ==> r is Err && r->Err_0 is PermissionDenied,
            outcome is Failed ==> r is Err && r->Err_0 is IoError,
            final(self).current_performance_mode == if r is Ok {
                mode
            } else {
                old(self).current_performance_mode
            },
            final(self).current_gpu_mode == old(self).current_gpu_mode,
            final(self).capabilities == old(self).capabilities,
            final(self).sysfs == old(self).sysfs,
    {
        let r = sysfs_result(outcome);
        if r.is_ok() {
            self.current_performance_mode = mode;
        }
        r
    }

    /// The GPU mode last set; it is not read back from the hardware.
    pub fn get_gpu_mode(&self) -> (r: GpuMode)
        ensures
            r == self.current_gpu_mode,
    {
        self.current_gpu_mode
    }

    /// Plans a GPU mode change through the switching helper.
    pub fn set_gpu_mode(&self, mode: GpuMode) -> (r: WritePlan)
        ensures
            !self.capabilities.gpu_switching ==> is_unavailable(r),
            self.capabilities.gpu_switching ==> r is Ok && r->Ok_0 == Some(
                HardwareWrite::GpuSwitch { mode },
            ),
    {
        if !self.capabilities.gpu_switching {
            return Err(
                ArmouryError::FeatureNotAvailable(
                    String::from_str("GPU switching not supported (supergfxctl not found)"),
                ),
            );
        }
        Ok(Some(HardwareWrite::GpuSwitch { mode }))
    }

    /// Records the outcome of running the switching helper: on success the
    /// mode becomes the current one; any failure is a `HardwareError`.
    pub fn commit_gpu_mode(&mut self, mode: GpuMode, outcome: &WriteOutcome) -> (r: Result<
        (),
        ArmouryError,
    >)
        ensures
            r is Ok <==> outcome is Done,
            r is Err ==> r->Err_0 is HardwareError,
            final(self).current_gpu_mode == if r is Ok {
                mode
            } else {
                old(self).current_gpu_mode
            },
            final(self).current_performance_mode == old(self).current_performance_mode,
            final(self).capabilities == old(self).capabilities,
            final(self).sysfs == old(self).sysfs,
    {
        match outcome {
            WriteOutcome::Done => {
                self.current_gpu_mode = mode;
                Ok(())
            },
            WriteOutcome::PermissionDenied => Err(
                ArmouryError::HardwareError(String::from_str("Failed to set GPU mode")),
            ),
            WriteOutcome::Failed(m) => Err(ArmouryError::HardwareError(m.clone())),
        }
    }

    /// Records the outcome of a write that leaves no cached state: fan curve,
    /// fan reset, lighting and battery limit.
    pub fn commit(&self, outcome: &WriteOutcome) -> (r: Result<(), ArmouryError>)
        ensures
            r is Ok <==> outcome is Done,
            outcome is PermissionDenied ==> r is Err && r->Err_0 is PermissionDenied,
            outcome is Failed ==> r is Err && r->Err_0 is IoError,
    {
        sysfs_result(outcome)
    }

    /// The CPU and GPU fan speeds in RPM, from the contents of the two fan
    /// input nodes.
    pub fn get_fan_speeds(&self, cpu_input: Option<&str>, gpu_input: Option<&str>) -> (r: (
        u32,
        u32,
    ))
        ensures
            first_in_family(self.sysfs.probe.hwmon@, HwmonFamily::Fan) is None ==> r == (
                0u32,
                0u32,
            ),
            first_in_family(self.sysfs.probe.hwmon@, HwmonFamily::Fan) is Some ==> r == (
                counter_value(opt_view(cpu_input)),
                counter_value(opt_view(gpu_input)),
            ),
    {
        self.sysfs.read_fan_speeds(cpu_input, gpu_input)
    }

    /// Plans installing a fan curve. Its points are not checked for order.
    pub fn set_fan_curve(&self, curve: &FanCurve) -> (r: WritePlan)
        ensures
            self.fan_curve_plan(curve.points@, r),
    {
        if !self.capabilities.fan_control {
            return Err(
                ArmouryError::FeatureNotAvailable(
                    String::from_str("Fan control not supported on this hardware"),
                ),
            );
        }
        match self.sysfs.write_fan_curve(curve) {
            Ok(w) => Ok(Some(w)),
            Err(e) => Err(e),
        }
    }

    /// Plans returning the fans to automatic control.
    pub fn reset_fan_auto(&self) -> (r: WritePlan)
        ensures
            !self.capabilities.fan_control ==> is_unavailable(r),
            self.capabilities.fan_control && !self.sysfs.probe.fan_curve_node ==> plans_nothing(r),
            self.capabilities.fan_control && self.sysfs.probe.fan_curve_node ==> plans_sysfs(
                r,
                FAN_CURVE_PATH@,
                "auto"@,
            ),
    {
        if !self.capabilities.fan_control {
            return Err(
                ArmouryError::FeatureNotAvailable(
                    String::from_str("Fan control not supported on this hardware"),
                ),
            );
        }
        Ok(self.sysfs.reset_fan_auto())
    }

    /// The lighting settings; they are not read back from the hardware, so
    /// these are always the defaults.
    pub fn get_rgb_settings(&self) -> (r: RgbSettings)
        ensures
            r == default_rgb_settings(),
    {
        RgbSettings::default()
    }

    /// Plans applying lighting settings (only the brightness is written).
    pub fn set_rgb_settings(&self, settings: &RgbSettings) -> (r: WritePlan)
        ensures
            self.rgb_plan(*settings, r),
    {
        if !self.capabilities.rgb_keyboard {
            return Err(
                ArmouryError::FeatureNotAvailable(
                    String::from_str("RGB keyboard not supported on this hardware"),
                ),
            );
        }
        Ok(self.sysfs.write_rgb_settings(settings))
    }

    /// The battery charge limit, from the threshold node's contents; 100 when
    /// it could not be read.
    pub fn get_battery_limit(&self, content: Option<&str>) -> (r: u8)
        ensures
            r == match opt_view(content) {
                Some(t) => match parse_unsigned(trim_of(t), 255) {
                    Some(v) => v as u8,
                    None => 100u8,
                },
                None => 100u8,
            },
    {
        match content {
            Some(t) => match read_battery_limit(t) {
                Some(v) => v,
                None => 100,
            },
            None => 100,
        }
    }

    /// Plans setting the battery charge limit, which must be 60, 80 or 100.
    pub fn set_battery_limit(&self, limit: u8) -> (r: WritePlan)
        ensures
            self.battery_plan(limit, r),
    {
        if !self.capabilities.battery_limit {
            return Err(
                ArmouryError::FeatureNotAvailable(
                    String::from_str("Battery charge limit not supported on this hardware"),
                ),
            );
        }
        if !(limit == 60 || limit == 80 || limit == 100) {
            return Err(
                ArmouryError::InvalidValue(
                    String::from_str("Invalid battery limit. Valid values: 60, 80, 100"),
                ),
            );
        }
        match self.sysfs.write_battery_limit(limit) {
            Ok(w) => Ok(Some(w)),
            Err(e) => Err(e),
        }
    }
}

} // verus!
