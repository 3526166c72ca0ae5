//! Commands for the optional asusctl helper, which can stand in for the sysfs
//! surface where it is installed. The daemon runs them; this module builds
//! their argument lists and reads the helper's answers.

use vstd::prelude::*;
use vstd::string::*;

use crate::surface::kbd_level;
use crate::surface::kbd_level_spec;
use crate::surface::normalize_name;
use crate::surface::normalized_name;
use crate::text::contains_str;
use crate::text::contains_text;
use crate::text::decimal;
use crate::text::decimal_string;
use crate::types::PerformanceMode;
use crate::types::RgbEffect;
use crate::types::RgbSettings;

verus! {

/// The helper program.
pub const ASUSCTL: &'static str = "asusctl";

/// The views of a list of arguments.
pub open spec fn arg_views(args: Seq<String>) -> Seq<Seq<char>> {
    args.map_values(|a: String| a@)
}

/// asusctl's name for a performance mode; Manual uses Balanced.
pub open spec fn asusctl_profile_name(mode: PerformanceMode) -> Seq<char> {
    match mode {
        PerformanceMode::Silent => "Quiet"@,
        PerformanceMode::Balanced => "Balanced"@,
        PerformanceMode::Turbo => "Performance"@,
        PerformanceMode::Manual => "Balanced"@,
    }
}

/// Arguments that select a performance profile: `profile -P <name>`.
pub fn set_profile_args(mode: PerformanceMode) -> (r: Vec<String>)
    ensures
        arg_views(r@) == seq!["profile"@, "-P"@, asusctl_profile_name(mode)],
{
    let name = match mode {
        PerformanceMode::Silent => String::from_str("Quiet"),
        PerformanceMode::Balanced => String::from_str("Balanced"),
        PerformanceMode::Turbo => String::from_str("Performance"),
        PerformanceMode::Manual => String::from_str("Balanced"),
    };
    let mut r: Vec<String> = Vec::new();
    r.push(String::from_str("profile"));
    r.push(String::from_str("-P"));
    r.push(name);
    proof {
        assert(arg_views(r@) =~= seq!["profile"@, "-P"@, asusctl_profile_name(mode)]);
    }
    r
}

/// Arguments that ask for the current performance profile: `profile -p`.
pub fn get_profile_args() -> (r: Vec<String>)
    ensures
        arg_views(r@) == seq!["profile"@, "-p"@],
{
    let mut r: Vec<String> = Vec::new();
    r.push(String::from_str("profile"));
    r.push(String::from_str("-p"));
    proof {
        assert(arg_views(r@) =~= seq!["profile"@, "-p"@]);
    }
    r
}

/// The performance mode that asusctl's (normalised) answer names.
pub open spec fn mode_of_profile_answer(answer: Seq<char>) -> Option<PerformanceMode> {
    if contains_text(answer, "quiet"@) {
        Some(PerformanceMode::Silent)
    } else if contains_text(answer, "balanced"@) {
        Some(PerformanceMode::Balanced)
    } else if contains_text(answer, "performance"@) {
        Some(PerformanceMode::Turbo)
    } else {
        None
    }
}

/// The performance mode that a trimmed, lower-cased answer names.
pub fn profile_answer_mode(answer: &str) -> (r: Option<PerformanceMode>)
    ensures
        r == mode_of_profile_answer(answer@),
{
    if contains_str(answer, "quiet") {
        Some(PerformanceMode::Silent)
    } else if contains_str(answer, "balanced") {
        Some(PerformanceMode::Balanced)
    } else if contains_str(answer, "performance") {
        Some(PerformanceMode::Turbo)
    } else {
        None
    }
}

/// Reads the performance mode from what `profile -p` printed.
pub fn parse_profile_output(stdout: &str) -> (r: Option<PerformanceMode>)
    ensures
        r == mode_of_profile_answer(normalized_name(stdout@)),
{
    let answer = normalize_name(stdout);
    profile_answer_mode(answer.as_str())
}

/// asusctl's LED mode for a lighting effect.
pub open spec fn led_mode_name(effect: RgbEffect) -> Seq<char> {
    match effect {
        RgbEffect::Static => "static"@,
        RgbEffect::Breathing => "breathe"@,
        RgbEffect::Rainbow => "rainbow"@,
        RgbEffect::Wave => "comet"@,
        RgbEffect::Spectrum => "rainbow"@,
        RgbEffect::Reactive => "pulse"@,
        RgbEffect::Off => "off"@,
    }
}

/// The effects that take a colour.
pub open spec fn takes_color(effect: RgbEffect) -> bool {
    effect == RgbEffect::Static || effect == RgbEffect::Breathing || effect == RgbEffect::Reactive
}

/// Arguments that set the LED mode: `led-mode -s <mode>`, followed by
/// `-c <#RRGGBB>` for the effects that take a colour.
pub fn led_mode_args(settings: &RgbSettings) -> (r: Vec<String>)
    ensures
        takes_color(settings.effect) ==> arg_views(r@) == seq![
            "led-mode"@,
            "-s"@,
            led_mode_name(settings.effect),
            "-c"@,
            settings.color.hex_spec(),
        ],
        !takes_color(settings.effect) ==> arg_views(r@) == seq![
            "led-mode"@,
            "-s"@,
            led_mode_name(settings.effect),
        ],
{
    let mode = match settings.effect {
        RgbEffect::Static => String::from_str("static"),
        RgbEffect::Breathing => String::from_str("breathe"),
        RgbEffect::Rainbow => String::from_str("rainbow"),
        RgbEffect::Wave => String::from_str("comet"),
        RgbEffect::Spectrum => String::from_str("rainbow"),
        RgbEffect::Reactive => String::from_str("pulse"),
        RgbEffect::Off => String::from_str("off"),
    };
    let mut r: Vec<String> = Vec::new();
    r.push(String::from_str("led-mode"));
    r.push(String::from_str("-s"));
    r.push(mode);
    let ghost base = r@;
    let with_color = match settings.effect {
        RgbEffect::Static | RgbEffect::Breathing | RgbEffect::Reactive => true,
        _ => false,
    };
    if with_color {
        r.push(String::from_str("-c"));
        r.push(settings.color.to_hex());
        proof {
            assert(arg_views(r@) =~= seq![
                "led-mode"@,
                "-s"@,
                led_mode_name(settings.effect),
                "-c"@,
                settings.color.hex_spec(),
            ]);
        }
    } else {
        proof {
            assert(arg_views(r@) =~= seq!["led-mode"@, "-s"@, led_mode_name(settings.effect)]);
        }
    }
    r
}

/// Arguments that set the keyboard brightness: `led-mode -b <level>`, the
/// level being the brightness scaled to 0..3.
pub fn kbd_brightness_args(brightness: u8) -> (r: Vec<String>)
    ensures
        arg_views(r@) == seq!["led-mode"@, "-b"@, decimal(kbd_level_spec(brightness) as nat)],
{
    let mut r: Vec<String> = Vec::new();
    r.push(String::from_str("led-mode"));
    r.push(String::from_str("-b"));
    r.push(decimal_string(kbd_level(brightness)));
    proof {
        assert(arg_views(r@) =~= seq![
            "led-mode"@,
            "-b"@,
            decimal(kbd_level_spec(brightness) as nat),
        ]);
    }
    r
}

/// Arguments that set the battery charge limit: `bios -c <limit>`.
pub fn charge_limit_args(limit: u8) -> (r: Vec<String>)
    ensures
        arg_views(r@) == seq!["bios"@, "-c"@, decimal(limit as nat)],
{
    let mut r: Vec<String> = Vec::new();
    r.push(String::from_str("bios"));
    r.push(String::from_str("-c"));
    r.push(decimal_string(limit as u32));
    proof {
        assert(arg_views(r@) =~= seq!["bios"@, "-c"@, decimal(limit as nat)]);
    }
    r
}

} // verus!
