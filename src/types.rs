//! The settings model shared by the daemon and its clients.

use vstd::prelude::*;
use vstd::string::*;

use crate::text::ascii_upper;
use crate::text::ascii_upper_char;
use crate::text::same_word;
use crate::text::eq_ignore_ascii_case;

verus! {

/// CPU performance modes available on ASUS laptops.
#[derive(Debug, Clone, Copy, PartialEq, Eq, Structural)]
pub enum PerformanceMode {
    /// Prioritises low noise and temperatures.
    Silent,
    /// Balances performance and thermals; the default.
    Balanced,
    /// Maximum performance.
    Turbo,
    /// User-defined settings; no hardware representation of its own.
    Manual,
}

impl PerformanceMode {
    /// The display name of the mode.
    pub open spec fn name(self) -> Seq<char> {
        match self {
            PerformanceMode::Silent => "Silent"@,
            PerformanceMode::Balanced => "Balanced"@,
            PerformanceMode::Turbo => "Turbo"@,
            PerformanceMode::Manual => "Manual"@,
        }
    }

    /// The mode that a request names, case-insensitively; "performance" is
    /// another name for Turbo.
    pub open spec fn from_name_spec(s: Seq<char>) -> Option<PerformanceMode> {
        if same_word(s, "silent"@) {
            Some(PerformanceMode::Silent)
        } else if same_word(s, "balanced"@) {
            Some(PerformanceMode::Balanced)
        } else if same_word(s, "turbo"@) || same_word(s, "performance"@) {
            Some(PerformanceMode::Turbo)
        } else if same_word(s, "manual"@) {
            Some(PerformanceMode::Manual)
        } else {
            None
        }
    }

    pub fn to_string(&self) -> (r: String)
        ensures
            r@ == self.name(),
    {
        match self {
            PerformanceMode::Silent => String::from_str("Silent"),
            PerformanceMode::Balanced => String::from_str("Balanced"),
            PerformanceMode::Turbo => String::from_str("Turbo"),
            PerformanceMode::Manual => String::from_str("Manual"),
        }
    }

    /// Parses a mode name as it arrives in a request.
    pub fn from_name(s: &str) -> (r: Option<PerformanceMode>)
        ensures
            r == Self::from_name_spec(s@),
    {
        if eq_ignore_ascii_case(s, "silent") {
            Some(PerformanceMode::Silent)
        } else if eq_ignore_ascii_case(s, "balanced") {
            Some(PerformanceMode::Balanced)
        } else if eq_ignore_ascii_case(s, "turbo") || eq_ignore_ascii_case(s, "performance") {
            Some(PerformanceMode::Turbo)
        } else if eq_ignore_ascii_case(s, "manual") {
            Some(PerformanceMode::Manual)
        } else {
            None
        }
    }
}

/// Mode names are case-insensitive: two names that agree up to the case of
/// ASCII letters select the same performance mode and the same GPU mode.
pub proof fn lemma_mode_names_ignore_case(s: Seq<char>, t: Seq<char>)
    requires
        same_word(s, t),
    ensures
        PerformanceMode::from_name_spec(s) == PerformanceMode::from_name_spec(t),
        GpuMode::from_name_spec(s) == GpuMode::from_name_spec(t),
{
}

impl Default for PerformanceMode {
    fn default() -> (r: Self)
        ensures
            r == PerformanceMode::Balanced,
    {
        PerformanceMode::Balanced
    }
}

/// GPU operation modes.
#[derive(Debug, Clone, Copy, PartialEq, Eq, Structural)]
pub enum GpuMode {
    /// Integrated graphics only.
    Integrated,
    /// Dedicated GPU only.
    Dedicated,
    /// Automatic switching; the default.
    Hybrid,
    /// GPU available for compute, without display output.
    Compute,
}

impl GpuMode {
    /// The display name of the mode, which is also what the switching helper
    /// takes.
    pub open spec fn name(self) -> Seq<char> {
        match self {
            GpuMode::Integrated => "Integrated"@,
            GpuMode::Dedicated => "Dedicated"@,
            GpuMode::Hybrid => "Hybrid"@,
            GpuMode::Compute => "Compute"@,
        }
    }

    /// The mode that a request names, case-insensitively.
    pub open spec fn from_name_spec(s: Seq<char>) -> Option<GpuMode> {
        if same_word(s, "integrated"@) {
            Some(GpuMode::Integrated)
        } else if same_word(s, "dedicated"@) {
            Some(GpuMode::Dedicated)
        } else if same_word(s, "hybrid"@) {
            Some(GpuMode::Hybrid)
        } else if same_word(s, "compute"@) {
            Some(GpuMode::Compute)
        } else {
            None
        }
    }

    pub fn to_string(&self) -> (r: String)
        ensures
            r@ == self.name(),
    {
        match self {
            GpuMode::Integrated => String::from_str("Integrated"),
            GpuMode::Dedicated => String::from_str("Dedicated"),
            GpuMode::Hybrid => String::from_str("Hybrid"),
            GpuMode::Compute => String::from_str("Compute"),
        }
    }

    /// Parses a mode name as it arrives in a request.
    pub fn from_name(s: &str) -> (r: Option<GpuMode>)
        ensures
            r == Self::from_name_spec(s@),
    {
        if eq_ignore_ascii_case(s, "integrated") {
            Some(GpuMode::Integrated)
        } else if eq_ignore_ascii_case(s, "dedicated") {
            Some(GpuMode::Dedicated)
        } else if eq_ignore_ascii_case(s, "hybrid") {
            Some(GpuMode::Hybrid)
        } else if eq_ignore_ascii_case(s, "compute") {
            Some(GpuMode::Compute)
        } else {
            None
        }
    }
}

impl Default for GpuMode {
    fn default() -> (r: Self)
        ensures
            r == GpuMode::Hybrid,
    {
        GpuMode::Hybrid
    }
}

/// Fan control mode.
#[derive(Debug, Clone, Copy, PartialEq, Eq, Structural)]
pub enum FanMode {
    /// Automatic control by temperature; the default.
    Auto,
    /// A custom fan curve.
    Manual,
}

impl Default for FanMode {
    fn default() -> (r: Self)
        ensures
            r == FanMode::Auto,
    {
        FanMode::Auto
    }
}

/// Keyboard lighting effects.
#[derive(Debug, Clone, Copy, PartialEq, Eq, Structural)]
pub enum RgbEffect {
    /// A single static colour; the default.
    Static,
    /// Pulsing.
    Breathing,
    /// Rainbow colour cycling.
    Rainbow,
    /// Colour wave.
    Wave,
    /// Spectrum cycling.
    Spectrum,
    /// Lights on key presses.
    Reactive,
    /// Lighting off.
    Off,
}

impl RgbEffect {
    /// The display name of the effect.
    pub open spec fn name(self) -> Seq<char> {
        match self {
            RgbEffect::Static => "Static"@,
            RgbEffect::Breathing => "Breathing"@,
            RgbEffect::Rainbow => "Rainbow"@,
            RgbEffect::Wave => "Wave"@,
            RgbEffect::Spectrum => "Spectrum"@,
            RgbEffect::Reactive => "Reactive"@,
            RgbEffect::Off => "Off"@,
        }
    }

    pub fn to_string(&self) -> (r: String)
        ensures
            r@ == self.name(),
    {
        match self {
            RgbEffect::Static => String::from_str("Static"),
            RgbEffect::Breathing => String::from_str("Breathing"),
            RgbEffect::Rainbow => String::from_str("Rainbow"),
            RgbEffect::Wave => String::from_str("Wave"),
            RgbEffect::Spectrum => String::from_str("Spectrum"),
            RgbEffect::Reactive => String::from_str("Reactive"),
            RgbEffect::Off => String::from_str("Off"),
        }
    }
}

impl Default for RgbEffect {
    fn default() -> (r: Self)
        ensures
            r == RgbEffect::Static,
    {
        RgbEffect::Static
    }
}


/// Whether a character is a hexadecimal digit, in either case.
pub open spec fn is_hex_digit(c: char) -> bool {
    ('0' <= c && c <= '9') || ('a' <= c && c <= 'f') || ('A' <= c && c <= 'F')
}

/// The value of a hexadecimal digit.
pub open spec fn hex_value(c: char) -> int {
    if '0' <= c && c <= '9' {
        c as int - '0' as int
    } else if 'a' <= c && c <= 'f' {
        c as int - 'a' as int + 10
    } else {
        c as int - 'A' as int + 10
    }
}

/// The upper-case hexadecimal digit of a value below 16.
pub open spec fn hex_digit_upper(d: int) -> char {
    if d < 10 {
        (48 + d) as u8 as char
    } else {
        (55 + d) as u8 as char
    }
}

/// The string with all leading '#' characters removed.
pub open spec fn strip_hashes(s: Seq<char>) -> Seq<char>
    decreases s.len(),
{
    if s.len() > 0 && s[0] == '#' {
        strip_hashes(s.drop_first())
    } else {
        s
    }
}

/// The byte that two hexadecimal digits spell, high digit first.
pub open spec fn hex_byte(hi: char, lo: char) -> u8 {
    (hex_value(hi) * 16 + hex_value(lo)) as u8
}

/// The colour that a hex string spells: after any leading '#', exactly six
/// hexadecimal digits, two for each of red, green and blue.
pub open spec fn parse_hex_color(s: Seq<char>) -> Option<RgbColor> {
    let body = strip_hashes(s);
    if body.len() == 6 && (forall|i: int| 0 <= i < 6 ==> is_hex_digit(#[trigger] body[i])) {
        Some(
            RgbColor {
                r: hex_byte(body[0], body[1]),
                g: hex_byte(body[2], body[3]),
                b: hex_byte(body[4], body[5]),
            },
        )
    } else {
        None
    }
}

/// Two upper-case hexadecimal digits for a byte.
pub open spec fn byte_hex(v: u8) -> Seq<char> {
    seq![hex_digit_upper(v as int / 16), hex_digit_upper(v as int % 16)]
}

/// An RGB colour value.
#[derive(Debug, Clone, Copy, PartialEq, Eq, Structural)]
pub struct RgbColor {
    pub r: u8,
    pub g: u8,
    pub b: u8,
}

impl RgbColor {
    /// The canonical `#RRGGBB` form, upper case.
    pub open spec fn hex_spec(self) -> Seq<char> {
        seq!['#'] + byte_hex(self.r) + byte_hex(self.g) + byte_hex(self.b)
    }

    pub fn new(r: u8, g: u8, b: u8) -> (c: Self)
        ensures
            c == (RgbColor { r, g, b }),
    {
        RgbColor { r, g, b }
    }

    /// Parses `#RRGGBB` or `RRGGBB`, in either case.
    pub fn from_hex(hex: &str) -> (r: Option<Self>)
        ensures
            r == parse_hex_color(hex@),
    {
        let n = hex.unicode_len();
        let mut k: usize = 0;
        proof {
            assert(hex@.subrange(0, n as int) =~= hex@);
        }
        while k < n && hex.get_char(k) == '#'
            invariant
                n == hex@.len(),
                k <= n,
                strip_hashes(hex@) == strip_hashes(hex@.subrange(k as int, n as int)),
            decreases n - k,
        {
            proof {
                let rest = hex@.subrange(k as int, n as int);
                assert(rest.drop_first() =~= hex@.subrange(k + 1, n as int));
            }
            k = k + 1;
        }
        let ghost body = hex@.subrange(k as int, n as int);
        proof {
            assert(body.len() == 0 || body[0] != '#');
            assert(strip_hashes(hex@) == body);
        }
        if n - k != 6 {
            return None;
        }
        let d0 = hex_digit_value(hex.get_char(k));
        let d1 = hex_digit_value(hex.get_char(k + 1));
        let d2 = hex_digit_value(hex.get_char(k + 2));
        let d3 = hex_digit_value(hex.get_char(k + 3));
        let d4 = hex_digit_value(hex.get_char(k + 4));
        let d5 = hex_digit_value(hex.get_char(k + 5));
        proof {
            assert(body[0] == hex@[k as int]);
            assert(body[1] == hex@[k + 1]);
            assert(body[2] == hex@[k + 2]);
            assert(body[3] == hex@[k + 3]);
            assert(body[4] == hex@[k + 4]);
            assert(body[5] == hex@[k + 5]);
        }
        match (d0, d1, d2, d3, d4, d5) {
            (Some(a0), Some(a1), Some(a2), Some(a3), Some(a4), Some(a5)) => {
                proof {
                    assert forall|i: int| 0 <= i < 6 implies is_hex_digit(#[trigger] body[i]) by {
                        if i == 0 {
                        } else if i == 1 {
                        } else if i == 2 {
                        } else if i == 3 {
                        } else if i == 4 {
                        } else {
                        }
                    }
                }
                Some(RgbColor { r: a0 * 16 + a1, g: a2 * 16 + a3, b: a4 * 16 + a5 })
            },
            _ => {
                proof {
                    assert(!(forall|i: int| 0 <= i < 6 ==> is_hex_digit(#[trigger] body[i])));
                }
                None
            },
        }
    }

    /// The colour as `#RRGGBB`, upper case.
    pub fn to_hex(&self) -> (r: String)
        ensures
            r@ == self.hex_spec(),
    {
        proof {
            reveal_strlit("#");
        }
        let mut s = String::from_str("#");
        push_byte_hex(&mut s, self.r);
        push_byte_hex(&mut s, self.g);
        push_byte_hex(&mut s, self.b);
        proof {
            assert(s@ =~= self.hex_spec());
        }
        s
    }
}

impl Default for RgbColor {
    fn default() -> (c: Self)
        ensures
            c == (RgbColor { r: 0, g: 0, b: 0 }),
    {
        RgbColor { r: 0, g: 0, b: 0 }
    }
}

proof fn lemma_digit_upper(c: char)
    requires
        is_hex_digit(c),
    ensures
        0 <= hex_value(c) < 16,
        hex_digit_upper(hex_value(c)) == ascii_upper_char(c),
{
}

proof fn lemma_byte_hex(hi: char, lo: char)
    requires
        is_hex_digit(hi),
        is_hex_digit(lo),
    ensures
        byte_hex(hex_byte(hi, lo)) == seq![ascii_upper_char(hi), ascii_upper_char(lo)],
{
    lemma_digit_upper(hi);
    lemma_digit_upper(lo);
    let a = hex_value(hi);
    let b = hex_value(lo);
    assert((a * 16 + b) / 16 == a && (a * 16 + b) % 16 == b && 0 <= a * 16 + b < 256) by (nonlinear_arith)
        requires
            0 <= a < 16,
            0 <= b < 16,
    ;
    assert(byte_hex(hex_byte(hi, lo)) =~= seq![ascii_upper_char(hi), ascii_upper_char(lo)]);
}

/// Hex round trip: a string whose body (after any leading '#') is six
/// hexadecimal digits parses to a colour whose hex form is '#' followed by
/// that body in upper case.
pub proof fn lemma_hex_round_trip(s: Seq<char>)
    requires
        strip_hashes(s).len() == 6,
        forall|i: int| 0 <= i < 6 ==> is_hex_digit(#[trigger] strip_hashes(s)[i]),
    ensures
        parse_hex_color(s) is Some,
        parse_hex_color(s)->0.hex_spec() == seq!['#'] + ascii_upper(strip_hashes(s)),
{
    let body = strip_hashes(s);
    assert(is_hex_digit(body[0]) && is_hex_digit(body[1]) && is_hex_digit(body[2]));
    assert(is_hex_digit(body[3]) && is_hex_digit(body[4]) && is_hex_digit(body[5]));
    lemma_byte_hex(body[0], body[1]);
    lemma_byte_hex(body[2], body[3]);
    lemma_byte_hex(body[4], body[5]);
    assert(parse_hex_color(s)->0.hex_spec() =~= seq!['#'] + ascii_upper(body));
}

/// A string whose body (after any leading '#') is not exactly six
/// hexadecimal digits spells no colour.
pub proof fn lemma_hex_rejects_malformed(s: Seq<char>)
    requires
        strip_hashes(s).len() != 6 || exists|i: int|
            0 <= i < strip_hashes(s).len() && !is_hex_digit(#[trigger] strip_hashes(s)[i]),
    ensures
        parse_hex_color(s) is None,
{
}

fn hex_digit_value(c: char) -> (r: Option<u8>)
    ensures
        r is Some <==> is_hex_digit(c),
        r is Some ==> r->0 as int == hex_value(c) && r->0 < 16,
{
    if '0' <= c && c <= '9' {
        Some((c as u8) - 48)
    } else if 'a' <= c && c <= 'f' {
        Some((c as u8) - 87)
    } else if 'A' <= c && c <= 'F' {
        Some((c as u8) - 55)
    } else {
        None
    }
}

fn hex_digit_str(d: u8) -> (r: &'static str)
    requires
        d < 16,
    ensures
        r@ == seq![hex_digit_upper(d as int)],
{
    let digits = "0123456789ABCDEF";
    proof {
        reveal_strlit("0123456789ABCDEF");
    }
    let r = digits.substring_ascii(d as usize, d as usize + 1);
    proof {
        assert(r@ =~= seq![digits@[d as int]]);
    }
    r
}

fn push_byte_hex(s: &mut String, v: u8)
    ensures
        final(s)@ == old(s)@ + byte_hex(v),
{
    s.append(hex_digit_str(v / 16));
    s.append(hex_digit_str(v % 16));
    proof {
        assert(final(s)@ =~= old(s)@ + byte_hex(v));
    }
}

/// A point of a fan curve: at this temperature, this fan speed.
#[derive(Debug, Clone, Copy, PartialEq, Eq, Structural)]
pub struct FanCurvePoint {
    /// Temperature in degrees Celsius.
    pub temperature: u8,
    /// Fan speed in percent, 0 to 100.
    pub fan_percent: u8,
}

/// Points whose temperatures never decrease and whose speeds are percentages.
pub open spec fn curve_is_ordered(points: Seq<FanCurvePoint>) -> bool {
    &&& forall|i: int, j: int|
        0 <= i <= j < points.len() ==> points[i].temperature <= points[j].temperature
    &&& forall|i: int| 0 <= i < points.len() ==> #[trigger] points[i].fan_percent <= 100
}

/// The points of the default fan curve, as (temperature, percent) pairs.
pub open spec fn default_curve_points() -> Seq<FanCurvePoint> {
    seq![
        FanCurvePoint { temperature: 30, fan_percent: 0 },
        FanCurvePoint { temperature: 40, fan_percent: 20 },
        FanCurvePoint { temperature: 50, fan_percent: 35 },
        FanCurvePoint { temperature: 60, fan_percent: 50 },
        FanCurvePoint { temperature: 70, fan_percent: 70 },
        FanCurvePoint { temperature: 80, fan_percent: 85 },
        FanCurvePoint { temperature: 90, fan_percent: 100 },
    ]
}

/// A named fan curve: temperature/speed points, in order of temperature by
/// convention (not checked).
#[derive(Debug, Clone)]
pub struct FanCurve {
    /// Name of the curve.
    pub name: String,
    /// The points of the curve.
    pub points: Vec<FanCurvePoint>,
}

impl Default for FanCurve {
    /// The built-in curve named "Default", from 0% at 30 degrees to 100% at 90.
    fn default() -> (c: Self)
        ensures
            c.name@ == "Default"@,
            c.points@ == default_curve_points(),
            curve_is_ordered(c.points@),
    {
        let mut points: Vec<FanCurvePoint> = Vec::new();
        points.push(FanCurvePoint { temperature: 30, fan_percent: 0 });
        points.push(FanCurvePoint { temperature: 40, fan_percent: 20 });
        points.push(FanCurvePoint { temperature: 50, fan_percent: 35 });
        points.push(FanCurvePoint { temperature: 60, fan_percent: 50 });
        points.push(FanCurvePoint { temperature: 70, fan_percent: 70 });
        points.push(FanCurvePoint { temperature: 80, fan_percent: 85 });
        points.push(FanCurvePoint { temperature: 90, fan_percent: 100 });
        proof {
            assert(points@ =~= default_curve_points());
            lemma_default_curve_ordered();
        }
        FanCurve { name: String::from_str("Default"), points }
    }
}

/// The default fan curve's temperatures never decrease and each of its
/// speeds is at most 100 percent.
pub proof fn lemma_default_curve_ordered()
    ensures
        curve_is_ordered(default_curve_points()),
{
    let p = default_curve_points();
    assert forall|i: int, j: int| 0 <= i <= j < p.len() implies p[i].temperature
        <= p[j].temperature by {
        assert(p[i].temperature == 30 + 10 * i);
        assert(p[j].temperature == 30 + 10 * j);
    }
}

/// Keyboard lighting settings. Only the brightness reaches the hardware;
/// effect, colours and speed are accepted and kept but not transmitted.
#[derive(Debug, Clone, Copy, PartialEq, Eq, Structural)]
pub struct RgbSettings {
    /// The effect.
    pub effect: RgbEffect,
    /// Primary colour.
    pub color: RgbColor,
    /// Secondary colour, for effects that use two.
    pub color_secondary: Option<RgbColor>,
    /// Brightness, 0 to 100.
    pub brightness: u8,
    /// Effect speed, 0 to 100.
    pub speed: u8,
}

/// Static red at full brightness and half speed.
pub open spec fn default_rgb_settings() -> RgbSettings {
    RgbSettings {
        effect: RgbEffect::Static,
        color: RgbColor { r: 255, g: 0, b: 0 },
        color_secondary: None,
        brightness: 100,
        speed: 50,
    }
}

impl Default for RgbSettings {
    fn default() -> (s: Self)
        ensures
            s == default_rgb_settings(),
    {
        RgbSettings {
            effect: RgbEffect::Static,
            color: RgbColor::new(255, 0, 0),
            color_secondary: None,
            brightness: 100,
            speed: 50,
        }
    }
}

/// The charge limits that the battery threshold accepts.
pub open spec fn is_valid_charge_limit(limit: u8) -> bool {
    limit == 60 || limit == 80 || limit == 100
}

/// Battery charge limit settings.
#[derive(Debug, Clone, Copy, PartialEq, Eq, Structural)]
pub struct BatterySettings {
    /// Maximum charge in percent: 60, 80 or 100.
    pub charge_limit: u8,
}

impl Default for BatterySettings {
    fn default() -> (s: Self)
        ensures
            s.charge_limit == 100,
    {
        BatterySettings { charge_limit: 100 }
    }
}

/// A named bundle of settings.
#[derive(Debug, Clone)]
pub struct Profile {
    /// Name of the profile, its key in the store.
    pub name: String,
    /// Performance mode.
    pub performance_mode: PerformanceMode,
    /// GPU mode.
    pub gpu_mode: GpuMode,
    /// Fan mode.
    pub fan_mode: FanMode,
    /// Custom fan curve, applied when present.
    pub fan_curve: Option<FanCurve>,
    /// Keyboard lighting settings.
    pub rgb_settings: RgbSettings,
    /// Battery settings.
    pub battery_settings: BatterySettings,
}

impl Default for Profile {
    fn default() -> (p: Self)
        ensures
            p.name@ == "Default"@,
            p.performance_mode == PerformanceMode::Balanced,
            p.gpu_mode == GpuMode::Hybrid,
            p.fan_mode == FanMode::Auto,
            p.fan_curve is None,
            p.rgb_settings == default_rgb_settings(),
            p.battery_settings.charge_limit == 100,
    {
        Profile {
            name: String::from_str("Default"),
            performance_mode: PerformanceMode::Balanced,
            gpu_mode: GpuMode::Hybrid,
            fan_mode: FanMode::Auto,
            fan_curve: None,
            rgb_settings: RgbSettings::default(),
            battery_settings: BatterySettings::default(),
        }
    }
}

/// Which hardware features this machine offers. Detected once at start-up.
#[derive(Debug, Clone)]
pub struct HardwareCapabilities {
    /// Performance mode switching.
    pub performance_modes: bool,
    /// GPU mode switching.
    pub gpu_switching: bool,
    /// Fan control.
    pub fan_control: bool,
    /// Keyboard backlight control.
    pub rgb_keyboard: bool,
    /// Per-key lighting.
    pub per_key_rgb: bool,
    /// Battery charge limit.
    pub battery_limit: bool,
    /// Panel overdrive.
    pub panel_overdrive: bool,
    /// AniMe Matrix display.
    pub anime_matrix: bool,
    /// Model name, if it could be read.
    pub model_name: Option<String>,
}

impl Default for HardwareCapabilities {
    /// No feature at all, and no model name.
    fn default() -> (c: Self)
        ensures
            !c.performance_modes && !c.gpu_switching && !c.fan_control && !c.rgb_keyboard,
            !c.per_key_rgb && !c.battery_limit && !c.panel_overdrive && !c.anime_matrix,
            c.model_name is None,
    {
        HardwareCapabilities {
            performance_modes: false,
            gpu_switching: false,
            fan_control: false,
            rgb_keyboard: false,
            per_key_rgb: false,
            battery_limit: false,
            panel_overdrive: false,
            anime_matrix: false,
            model_name: None,
        }
    }
}

} // verus!
