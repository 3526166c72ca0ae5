//! The hardware surface: where each setting lives in the sysfs tree, how
//! values are encoded for it, and how what it holds is read back.
//!
//! Nothing here touches the file system. The daemon probes the tree once
//! ([`SurfaceProbe`]), reads node contents and hands them over as text, and
//! performs the [`HardwareWrite`]s that this module plans.

use vstd::prelude::*;
use vstd::string::*;

use crate::error::ArmouryError;
use crate::text::contains_str;
use crate::text::contains_text;
use crate::text::decimal;
use crate::text::lower_of;
use crate::text::parse_decimal;
use crate::text::parse_unsigned;
use crate::text::push_decimal;
use crate::text::str_equal;
use crate::text::to_lowercase;
use crate::text::trim;
use crate::text::trim_of;
use crate::types::FanCurve;
use crate::types::FanCurvePoint;
use crate::types::GpuMode;
use crate::types::PerformanceMode;
use crate::types::RgbSettings;

verus! {

/// The platform profile selector.
pub const PLATFORM_PROFILE: &'static str = "/sys/firmware/acpi/platform_profile";

/// The vendor fan-curve control node.
pub const FAN_CURVE_PATH: &'static str = "/sys/devices/platform/asus-nb-wmi/fan_curve";

/// The charge threshold of the first battery.
pub const BATTERY_LIMIT_PATH: &'static str = "/sys/class/power_supply/BAT0/charge_control_end_threshold";

/// The charge threshold of the second battery.
pub const BATTERY_LIMIT_PATH_ALT: &'static str =
    "/sys/class/power_supply/BAT1/charge_control_end_threshold";

/// The keyboard backlight brightness node.
pub const KBD_BRIGHTNESS_PATH: &'static str = "/sys/class/leds/asus::kbd_backlight/brightness";

/// A sensor group of the hardware-monitoring tree: its directory and the
/// contents of its `name` file.
#[derive(Debug, Clone)]
pub struct HwmonEntry {
    pub path: String,
    pub name: String,
}

/// What the daemon found when it probed the machine at start-up.
#[derive(Debug, Clone)]
pub struct SurfaceProbe {
    /// The platform profile selector exists.
    pub platform_profile: bool,
    /// The vendor fan-curve node exists.
    pub fan_curve_node: bool,
    /// The first battery's charge threshold exists.
    pub battery0_threshold: bool,
    /// The second battery's charge threshold exists.
    pub battery1_threshold: bool,
    /// The vendor keyboard backlight LED exists.
    pub kbd_backlight: bool,
    /// Its brightness node exists.
    pub kbd_brightness_node: bool,
    /// The vendor WMI device has LEDs (Aura keyboards).
    pub wmi_leds: bool,
    /// The keyboard backlight LED under the vendor WMI device (TUF models).
    pub wmi_kbd_backlight: bool,
    /// The GPU switching helper is installed.
    pub gpu_helper: bool,
    /// The AniMe Matrix node exists.
    pub anime_matrix: bool,
    /// The sensor groups, in directory order.
    pub hwmon: Vec<HwmonEntry>,
    /// Contents of the DMI product name, if readable.
    pub dmi_product_name: Option<String>,
    /// Contents of the vendor WMI product name, if readable.
    pub wmi_product_name: Option<String>,
}

/// A write that the hardware surface needs.
#[derive(Debug, Clone)]
pub enum HardwareWrite {
    /// Write `value` to the sysfs node at `path`.
    Sysfs { path: String, value: String },
    /// Run the GPU switching helper to select `mode`.
    GpuSwitch { mode: GpuMode },
}

/// What came of performing a [`HardwareWrite`].
#[derive(Debug, Clone)]
pub enum WriteOutcome {
    /// The write took effect.
    Done,
    /// The operating system refused it for lack of privilege.
    PermissionDenied,
    /// It failed otherwise; the text says how.
    Failed(String),
}

impl HardwareWrite {
    /// A sysfs write of `value` to `path`.
    pub open spec fn is_sysfs(self, path: Seq<char>, value: Seq<char>) -> bool {
        &&& self is Sysfs
        &&& self->Sysfs_path@ == path
        &&& self->Sysfs_value@ == value
    }
}

/// The sensor families that the surface looks for.
#[derive(Debug, Clone, Copy, PartialEq, Eq, Structural)]
pub enum HwmonFamily {
    /// CPU temperature sensors.
    Cpu,
    /// GPU drivers.
    Gpu,
    /// Fan controllers.
    Fan,
}

/// A sensor name as it is compared: trimmed and lower-cased.
pub open spec fn normalized_name(raw: Seq<char>) -> Seq<char> {
    lower_of(trim_of(raw))
}

/// Trims and lower-cases a sensor or zone name.
pub fn normalize_name(raw: &str) -> (r: String)
    ensures
        r@ == normalized_name(raw@),
{
    to_lowercase(trim(raw))
}

impl HwmonFamily {
    /// Whether a normalised sensor name belongs to the family.
    pub open spec fn matches_spec(self, name: Seq<char>) -> bool {
        match self {
            HwmonFamily::Cpu => contains_text(name, "coretemp"@) || contains_text(name, "k10temp"@)
                || contains_text(name, "zenpower"@) || contains_text(name, "acpitz"@),
            HwmonFamily::Gpu => contains_text(name, "nvidia"@) || contains_text(name, "amdgpu"@)
                || contains_text(name, "nouveau"@) || contains_text(name, "radeon"@),
            HwmonFamily::Fan => contains_text(name, "asus-nb-wmi"@) || contains_text(
                name,
                "asus_fan"@,
            ) || contains_text(name, "thinkpad"@),
        }
    }

    /// Whether a normalised sensor name belongs to the family.
    pub fn matches(&self, name: &str) -> (r: bool)
        ensures
            r == self.matches_spec(name@),
    {
        match self {
            HwmonFamily::Cpu => contains_str(name, "coretemp") || contains_str(name, "k10temp")
                || contains_str(name, "zenpower") || contains_str(name, "acpitz"),
            HwmonFamily::Gpu => contains_str(name, "nvidia") || contains_str(name, "amdgpu")
                || contains_str(name, "nouveau") || contains_str(name, "radeon"),
            HwmonFamily::Fan => contains_str(name, "asus-nb-wmi") || contains_str(name, "asus_fan")
                || contains_str(name, "thinkpad"),
        }
    }
}

/// Whether the sensor group at `i` belongs to the family.
pub open spec fn entry_matches(entries: Seq<HwmonEntry>, i: int, family: HwmonFamily) -> bool {
    family.matches_spec(normalized_name(entries[i].name@))
}

/// The path of the first sensor group of the family, if any.
pub open spec fn first_in_family(entries: Seq<HwmonEntry>, family: HwmonFamily) -> Option<
    Seq<char>,
> {
    if exists|i: int| 0 <= i < entries.len() && entry_matches(entries, i, family) {
        let i = choose|i: int|
            0 <= i < entries.len() && entry_matches(entries, i, family) && forall|j: int|
                0 <= j < i ==> !entry_matches(entries, j, family);
        Some(entries[i].path@)
    } else {
        None
    }
}

/// Finds the first sensor group whose name belongs to the family.
pub fn find_hwmon_by_name(entries: &Vec<HwmonEntry>, family: HwmonFamily) -> (r: Option<String>)
    ensures
        r is Some <==> first_in_family(entries@, family) is Some,
        r is Some ==> r->0@ == first_in_family(entries@, family)->0,
{
    let mut i: usize = 0;
    while i < entries.len()
        invariant
            i <= entries@.len(),
            forall|j: int| 0 <= j < i ==> !entry_matches(entries@, j, family),
        decreases entries@.len() - i,
    {
        let name = normalize_name(entries[i].name.as_str());
        if family.matches(name.as_str()) {
            proof {
                assert(entry_matches(entries@, i as int, family));
                let k = choose|k: int|
                    0 <= k < entries@.len() && entry_matches(entries@, k, family) && forall|j: int|
                        0 <= j < k ==> !entry_matches(entries@, j, family);
                if k < i {
                } else if k > i {
                    assert(!entry_matches(entries@, i as int, family));
                }
                assert(k == i);
            }
            return Some(entries[i].path.clone());
        }
        i = i + 1;
    }
    None
}

/// The platform profile value for a performance mode. Manual has no value of
/// its own and uses the balanced one.
pub open spec fn platform_profile_name(mode: PerformanceMode) -> Seq<char> {
    match mode {
        PerformanceMode::Silent => "quiet"@,
        PerformanceMode::Balanced => "balanced"@,
        PerformanceMode::Turbo => "performance"@,
        PerformanceMode::Manual => "balanced"@,
    }
}

/// The performance mode that a (trimmed) platform profile value stands for.
pub open spec fn mode_of_platform_profile(v: Seq<char>) -> Option<PerformanceMode> {
    if v == "quiet"@ || v == "silent"@ {
        Some(PerformanceMode::Silent)
    } else if v == "balanced"@ || v == "balanced-performance"@ {
        Some(PerformanceMode::Balanced)
    } else if v == "performance"@ || v == "turbo"@ {
        Some(PerformanceMode::Turbo)
    } else {
        None
    }
}

/// The performance mode that a trimmed platform profile value stands for.
pub fn platform_profile_mode(v: &str) -> (r: Option<PerformanceMode>)
    ensures
        r == mode_of_platform_profile(v@),
{
    if str_equal(v, "quiet") || str_equal(v, "silent") {
        Some(PerformanceMode::Silent)
    } else if str_equal(v, "balanced") || str_equal(v, "balanced-performance") {
        Some(PerformanceMode::Balanced)
    } else if str_equal(v, "performance") || str_equal(v, "turbo") {
        Some(PerformanceMode::Turbo)
    } else {
        None
    }
}

/// Reads the performance mode from the platform profile node's contents.
pub fn parse_platform_profile(content: &str) -> (r: Option<PerformanceMode>)
    ensures
        r == mode_of_platform_profile(trim_of(content@)),
{
    platform_profile_mode(trim(content))
}

/// `temperature:percent` for one point of a fan curve.
pub open spec fn point_text(p: FanCurvePoint) -> Seq<char> {
    decimal(p.temperature as nat) + seq![':'] + decimal(p.fan_percent as nat)
}

/// The points of a fan curve as the vendor node takes them: each point as
/// `temperature:percent`, joined by commas.
pub open spec fn curve_text(points: Seq<FanCurvePoint>) -> Seq<char>
    decreases points.len(),
{
    if points.len() == 0 {
        seq![]
    } else if points.len() == 1 {
        point_text(points[0])
    } else {
        curve_text(points.drop_last()) + seq![','] + point_text(points.last())
    }
}

/// Encodes the points of a fan curve for the vendor node.
pub fn encode_fan_curve(points: &Vec<FanCurvePoint>) -> (r: String)
    ensures
        r@ == curve_text(points@),
{
    proof {
        reveal_strlit(":");
        reveal_strlit(",");
    }
    let mut s = String::new();
    let mut i: usize = 0;
    while i < points.len()
        invariant
            i <= points@.len(),
            s@ == curve_text(points@.subrange(0, i as int)),
        decreases points@.len() - i,
    {
        proof {
            reveal_strlit(":");
            reveal_strlit(",");
        }
        let ghost before = s@;
        if i > 0 {
            s.append(",");
        }
        let p = points[i];
        push_decimal(&mut s, p.temperature as u32);
        s.append(":");
        push_decimal(&mut s, p.fan_percent as u32);
        proof {
            let next = points@.subrange(0, i + 1);
            assert(next.drop_last() =~= points@.subrange(0, i as int));
            assert(next.last() == p);
            if i == 0 {
                assert(s@ =~= point_text(p));
            } else {
                assert(s@ =~= before + seq![','] + point_text(p));
            }
        }
        i = i + 1;
    }
    proof {
        assert(points@.subrange(0, points@.len() as int) =~= points@);
    }
    s
}

/// The keyboard backlight level for a brightness in percent: the device
/// takes 0 to 3.
pub open spec fn kbd_level_spec(brightness: u8) -> u32 {
    let level = (brightness as int * 3 / 100) as u32;
    if level < 3 {
        level
    } else {
        3
    }
}

/// Scales a brightness in percent to the keyboard backlight's 0 to 3.
pub fn kbd_level(brightness: u8) -> (r: u32)
    ensures
        r == kbd_level_spec(brightness),
        r <= 3,
{
    let level = brightness as u32 * 3 / 100;
    if level < 3 {
        level
    } else {
        3
    }
}

/// Whether a (normalised) thermal zone type is a CPU zone.
pub open spec fn cpu_zone_spec(t: Seq<char>) -> bool {
    contains_text(t, "cpu"@) || contains_text(t, "x86_pkg"@) || t == "acpitz"@
}

/// Whether a (normalised) thermal zone type is a GPU zone.
pub open spec fn gpu_zone_spec(t: Seq<char>) -> bool {
    contains_text(t, "gpu"@) || contains_text(t, "amdgpu"@)
}

/// Whether a thermal zone, by the contents of its `type` file, measures the
/// CPU.
pub fn thermal_zone_is_cpu(zone_type: &str) -> (r: bool)
    ensures
        r == cpu_zone_spec(normalized_name(zone_type@)),
{
    let t = normalize_name(zone_type);
    contains_str(t.as_str(), "cpu") || contains_str(t.as_str(), "x86_pkg") || str_equal(
        t.as_str(),
        "acpitz",
    )
}

/// Whether a thermal zone, by the contents of its `type` file, measures a
/// GPU.
pub fn thermal_zone_is_gpu(zone_type: &str) -> (r: bool)
    ensures
        r == gpu_zone_spec(normalized_name(zone_type@)),
{
    let t = normalize_name(zone_type);
    contains_str(t.as_str(), "gpu") || contains_str(t.as_str(), "amdgpu")
}

/// A counter read from a sysfs node: its trimmed contents as a `u32`, or 0
/// when the node was unreadable or held anything else.
pub open spec fn counter_value(text: Option<Seq<char>>) -> u32 {
    match text {
        Some(t) => match parse_unsigned(trim_of(t), u32::MAX as nat) {
            Some(v) => v as u32,
            None => 0,
        },
        None => 0,
    }
}

fn read_counter(text: Option<&str>) -> (r: u32)
    ensures
        r == counter_value(
            match text {
                Some(t) => Some(t@),
                None => None,
            },
        ),
{
    match text {
        Some(t) => match parse_decimal(trim(t), u32::MAX) {
            Some(v) => v,
            None => 0,
        },
        None => 0,
    }
}

/// The view of an optional string.
pub open spec fn opt_view(text: Option<&str>) -> Option<Seq<char>> {
    match text {
        Some(t) => Some(t@),
        None => None,
    }
}

/// Reads the battery charge threshold from its node's contents.
pub fn read_battery_limit(content: &str) -> (r: Option<u8>)
    ensures
        r is Some <==> parse_unsigned(trim_of(content@), 255) is Some,
        r is Some ==> r->0 as nat == parse_unsigned(trim_of(content@), 255)->0,
{
    match parse_decimal(trim(content), 255) {
        Some(v) => Some(v as u8),
        None => None,
    }
}

/// Reads the battery state from the capacity node and the AC adapter's
/// `online` node: the capacity in percent (0 when unreadable) and whether AC
/// is connected (the node holds "1").
pub fn read_battery_status(capacity: Option<&str>, ac_online: Option<&str>) -> (r: (u8, bool))
    ensures
        r.0 == match opt_view(capacity) {
            Some(t) => match parse_unsigned(trim_of(t), 255) {
                Some(v) => v as u8,
                None => 0u8,
            },
            None => 0u8,
        },
        r.1 == match opt_view(ac_online) {
            Some(t) => trim_of(t) == "1"@,
            None => false,
        },
{
    let percent = match capacity {
        Some(t) => match read_battery_limit(t) {
            Some(v) => v,
            None => 0,
        },
        None => 0,
    };
    let ac = match ac_online {
        Some(t) => str_equal(trim(t), "1"),
        None => false,
    };
    (percent, ac)
}

/// Turns the outcome of a sysfs write into the result of the operation.
pub fn sysfs_result(outcome: &WriteOutcome) -> (r: Result<(), ArmouryError>)
    ensures
        outcome is Done <==> r is Ok,
        outcome is PermissionDenied ==> r is Err && r->Err_0 is PermissionDenied,
        outcome is Failed ==> r is Err && r->Err_0 is IoError && r->Err_0->IoError_0
            == outcome->Failed_0,
{
    match outcome {
        WriteOutcome::Done => Ok(()),
        WriteOutcome::PermissionDenied => Err(
            ArmouryError::PermissionDenied(String::from_str("cannot write to sysfs (root required)")),
        ),
        WriteOutcome::Failed(m) => Err(ArmouryError::IoError(m.clone())),
    }
}

/// The charge threshold node to use: the first battery's, else the
/// second's.
pub open spec fn battery_path_spec(probe: SurfaceProbe) -> Option<Seq<char>> {
    if probe.battery0_threshold {
        Some(BATTERY_LIMIT_PATH@)
    } else if probe.battery1_threshold {
        Some(BATTERY_LIMIT_PATH_ALT@)
    } else {
        None
    }
}

/// A product name that was read, if it is non-empty once trimmed.
pub open spec fn usable_name(name: Option<String>) -> Option<Seq<char>> {
    match name {
        Some(n) => if trim_of(n@).len() > 0 {
            Some(trim_of(n@))
        } else {
            None
        },
        None => None,
    }
}

/// The model name: the DMI product name, else the vendor WMI one.
pub open spec fn model_name_spec(probe: SurfaceProbe) -> Option<Seq<char>> {
    if usable_name(probe.dmi_product_name) is Some {
        usable_name(probe.dmi_product_name)
    } else {
        usable_name(probe.wmi_product_name)
    }
}

fn usable_name_exec(name: &Option<String>) -> (r: Option<String>)
    ensures
        r is Some <==> usable_name(*name) is Some,
        r is Some ==> r->0@ == usable_name(*name)->0,
{
    match name {
        Some(n) => {
            let t = trim(n.as_str());
            if t.unicode_len() > 0 {
                Some(String::from_str(t))
            } else {
                None
            }
        },
        None => None,
    }
}

/// Access to the hardware surface of one machine, as probed at start-up.
pub struct SysfsInterface {
    pub probe: SurfaceProbe,
}

impl SysfsInterface {
    pub fn new(probe: SurfaceProbe) -> (r: Self)
        ensures
            r.probe == probe,
    {
        SysfsInterface { probe }
    }

    /// The charge threshold node, if the machine has one.
    pub fn battery_limit_path(&self) -> (r: Option<String>)
        ensures
            r is Some <==> battery_path_spec(self.probe) is Some,
            r is Some ==> r->0@ == battery_path_spec(self.probe)->0,
    {
        if self.probe.battery0_threshold {
            Some(String::from_str(BATTERY_LIMIT_PATH))
        } else if self.probe.battery1_threshold {
            Some(String::from_str(BATTERY_LIMIT_PATH_ALT))
        } else {
            None
        }
    }

    /// The laptop's model name, if one could be read.
    pub fn read_model_name(&self) -> (r: Option<String>)
        ensures
            r is Some <==> model_name_spec(self.probe) is Some,
            r is Some ==> r->0@ == model_name_spec(self.probe)->0,
    {
        let dmi = usable_name_exec(&self.probe.dmi_product_name);
        if dmi.is_some() {
            dmi
        } else {
            usable_name_exec(&self.probe.wmi_product_name)
        }
    }

    /// Whether the fans can be controlled: the vendor fan-curve node exists or
    /// a fan controller sensor group was found.
    pub fn has_fan_control(&self) -> (r: bool)
        ensures
            r == (self.probe.fan_curve_node || first_in_family(self.probe.hwmon@, HwmonFamily::Fan)
                is Some),
    {
        self.probe.fan_curve_node || self.find_hwmon_fan().is_some()
    }

    /// Whether a battery charge threshold node exists.
    pub fn has_battery_limit(&self) -> (r: bool)
        ensures
            r == (battery_path_spec(self.probe) is Some),
    {
        self.probe.battery0_threshold || self.probe.battery1_threshold
    }

    /// Whether any of the three known keyboard backlight controls exists.
    pub fn has_rgb_keyboard(&self) -> (r: bool)
        ensures
            r == (self.probe.kbd_backlight || self.probe.wmi_leds || self.probe.wmi_kbd_backlight),
    {
        self.probe.kbd_backlight || self.probe.wmi_leds || self.probe.wmi_kbd_backlight
    }

    /// The first CPU temperature sensor group.
    pub fn find_hwmon_cpu(&self) -> (r: Option<String>)
        ensures
            r is Some <==> first_in_family(self.probe.hwmon@, HwmonFamily::Cpu) is Some,
            r is Some ==> r->0@ == first_in_family(self.probe.hwmon@, HwmonFamily::Cpu)->0,
    {
        find_hwmon_by_name(&self.probe.hwmon, HwmonFamily::Cpu)
    }

    /// The first GPU sensor group.
    pub fn find_hwmon_gpu(&self) -> (r: Option<String>)
        ensures
            r is Some <==> first_in_family(self.probe.hwmon@, HwmonFamily::Gpu) is Some,
            r is Some ==> r->0@ == first_in_family(self.probe.hwmon@, HwmonFamily::Gpu)->0,
    {
        find_hwmon_by_name(&self.probe.hwmon, HwmonFamily::Gpu)
    }

    /// The first fan controller sensor group.
    pub fn find_hwmon_fan(&self) -> (r: Option<String>)
        ensures
            r is Some <==> first_in_family(self.probe.hwmon@, HwmonFamily::Fan) is Some,
            r is Some ==> r->0@ == first_in_family(self.probe.hwmon@, HwmonFamily::Fan)->0,
    {
        find_hwmon_by_name(&self.probe.hwmon, HwmonFamily::Fan)
    }

    /// The RPM input of a fan channel (1 for the CPU fan, 2 for the GPU fan)
    /// in the fan controller's sensor group.
    pub fn fan_input_path(&self, channel: u8) -> (r: Option<String>)
        ensures
            r is Some <==> first_in_family(self.probe.hwmon@, HwmonFamily::Fan) is Some,
            r is Some ==> r->0@ == first_in_family(self.probe.hwmon@, HwmonFamily::Fan)->0
                + "/fan"@ + decimal(channel as nat) + "_input"@,
    {
        match self.find_hwmon_fan() {
            Some(dir) => {
                let mut p = dir;
                p.append("/fan");
                push_decimal(&mut p, channel as u32);
                p.append("_input");
                Some(p)
            },
            None => None,
        }
    }

    /// The CPU and GPU fan speeds in RPM, from the contents of the two
    /// channels' input nodes; 0 for a channel that is missing or unreadable,
    /// and for both when there is no fan controller.
    pub fn read_fan_speeds(&self, cpu_input: Option<&str>, gpu_input: Option<&str>) -> (r: (
        u32,
        u32,
    ))
        ensures
            first_in_family(self.probe.hwmon@, HwmonFamily::Fan) is None ==> r == (0u32, 0u32),
            first_in_family(self.probe.hwmon@, HwmonFamily::Fan) is Some ==> r == (
                counter_value(opt_view(cpu_input)),
                counter_value(opt_view(gpu_input)),
            ),
    {
        if self.find_hwmon_fan().is_none() {
            return (0, 0);
        }
        (read_counter(cpu_input), read_counter(gpu_input))
    }

    /// The write that selects a performance mode.
    pub fn write_platform_profile(&self, mode: PerformanceMode) -> (r: HardwareWrite)
        ensures
            r.is_sysfs(PLATFORM_PROFILE@, platform_profile_name(mode)),
    {
        let value = match mode {
            PerformanceMode::Silent => String::from_str("quiet"),
            PerformanceMode::Balanced => String::from_str("balanced"),
            PerformanceMode::Turbo => String::from_str("performance"),
            PerformanceMode::Manual => String::from_str("balanced"),
        };
        HardwareWrite::Sysfs { path: String::from_str(PLATFORM_PROFILE), value }
    }

    /// The write that installs a fan curve; fails when the vendor fan-curve
    /// node is absent. The points are written as they are, unchecked.
    pub fn write_fan_curve(&self, curve: &FanCurve) -> (r: Result<HardwareWrite, ArmouryError>)
        ensures
            !self.probe.fan_curve_node ==> r is Err && r->Err_0 is FeatureNotAvailable,
            self.probe.fan_curve_node ==> r is Ok && r->Ok_0.is_sysfs(
                FAN_CURVE_PATH@,
                curve_text(curve.points@),
            ),
    {
        if !self.probe.fan_curve_node {
            return Err(
                ArmouryError::FeatureNotAvailable(
                    String::from_str("Fan curve control not available"),
                ),
            );
        }
        Ok(
            HardwareWrite::Sysfs {
                path: String::from_str(FAN_CURVE_PATH),
                value: encode_fan_curve(&curve.points),
            },
        )
    }

    /// The write that returns the fans to automatic control; none when there
    /// is no vendor fan-curve node, as there is then nothing to reset.
    pub fn reset_fan_auto(&self) -> (r: Option<HardwareWrite>)
        ensures
            !self.probe.fan_curve_node ==> r is None,
            self.probe.fan_curve_node ==> r is Some && r->0.is_sysfs(FAN_CURVE_PATH@, "auto"@),
    {
        if self.probe.fan_curve_node {
            Some(
                HardwareWrite::Sysfs {
                    path: String::from_str(FAN_CURVE_PATH),
                    value: String::from_str("auto"),
                },
            )
        } else {
            None
        }
    }

    /// The write for keyboard lighting settings: only the brightness reaches
    /// the hardware, scaled to 0..3; none without a brightness node.
    pub fn write_rgb_settings(&self, settings: &RgbSettings) -> (r: Option<HardwareWrite>)
        ensures
            !self.probe.kbd_brightness_node ==> r is None,
            self.probe.kbd_brightness_node ==> r is Some && r->0.is_sysfs(
                KBD_BRIGHTNESS_PATH@,
                decimal(kbd_level_spec(settings.brightness) as nat),
            ),
    {
        if self.probe.kbd_brightness_node {
            let mut value = String::new();
            push_decimal(&mut value, kbd_level(settings.brightness));
            proof {
                assert(value@ =~= decimal(kbd_level_spec(settings.brightness) as nat));
            }
            Some(HardwareWrite::Sysfs { path: String::from_str(KBD_BRIGHTNESS_PATH), value })
        } else {
            None
        }
    }

    /// The write that sets the battery charge limit, in decimal; fails when
    /// the machine has no charge threshold node.
    pub fn write_battery_limit(&self, limit: u8) -> (r: Result<HardwareWrite, ArmouryError>)
        ensures
            battery_path_spec(self.probe) is None ==> r is Err && r->Err_0 is FeatureNotAvailable,
            battery_path_spec(self.probe) is Some ==> r is Ok && r->Ok_0.is_sysfs(
                battery_path_spec(self.probe)->0,
                decimal(limit as nat),
            ),
    {
        match self.battery_limit_path() {
            Some(path) => {
                let mut value = String::new();
                push_decimal(&mut value, limit as u32);
                proof {
                    assert(value@ =~= decimal(limit as nat));
                }
                Ok(HardwareWrite::Sysfs { path, value })
            },
            None => Err(
                ArmouryError::FeatureNotAvailable(
                    String::from_str("Battery charge limit not available"),
                ),
            ),
        }
    }
}

} // verus!
