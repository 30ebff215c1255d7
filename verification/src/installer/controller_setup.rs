//! Default controller configuration for emulators whose first-run config
//! binds pad 1 to the keyboard only. Each seed decision takes the current
//! contents of the emulator's config file (or `None` when there is none)
//! and returns the contents to write, or `None` to leave the file alone:
//! an existing user-customised config is never overwritten.

use vstd::prelude::*;

use crate::installer::ini::{ensure_input_source, replace_section, with_input_source, with_section};
use crate::text::{chars_of, contains, contains_str, extend_str, owned, string_of};

verus! {

/// Minimal PCSX2.ini that enables the XInput source and binds pad 1 to
/// SDL gamepad 0 with the keyboard as fallback.
pub const PCSX2_INI_SEED: &'static str = "[UI]\nSettingsVersion = 1\nSetupWizardIncomplete = false\n\n[InputSources]\nKeyboard = true\nMouse = true\nSDL = true\nDInput = false\nXInput = true\nSDLControllerEnhancedMode = true\nSDLPS5PlayerLED = true\n\n[Pad1]\nType = DualShock2\nInvertL = 0\nInvertR = 0\nDeadzone = 0\nAxisScale = 1.33\nLargeMotorScale = 1\nSmallMotorScale = 1\nButtonDeadzone = 0\nPressureModifier = 0.5\nUp = SDL-0/DPadUp & Keyboard/Up\nRight = SDL-0/DPadRight & Keyboard/Right\nDown = SDL-0/DPadDown & Keyboard/Down\nLeft = SDL-0/DPadLeft & Keyboard/Left\nTriangle = SDL-0/Y & Keyboard/I\nCircle = SDL-0/B & Keyboard/L\nCross = SDL-0/A & Keyboard/K\nSquare = SDL-0/X & Keyboard/J\nSelect = SDL-0/Back & Keyboard/Backspace\nStart = SDL-0/Start & Keyboard/Return\nL1 = SDL-0/LeftShoulder & Keyboard/Q\nL2 = SDL-0/+LeftTrigger & Keyboard/1\nR1 = SDL-0/RightShoulder & Keyboard/E\nR2 = SDL-0/+RightTrigger & Keyboard/3\nL3 = SDL-0/LeftStick & Keyboard/2\nR3 = SDL-0/RightStick & Keyboard/4\nLUp = SDL-0/-LeftY & Keyboard/W\nLRight = SDL-0/+LeftX & Keyboard/D\nLDown = SDL-0/+LeftY & Keyboard/S\nLLeft = SDL-0/-LeftX & Keyboard/A\nRUp = SDL-0/-RightY & Keyboard/T\nRRight = SDL-0/+RightX & Keyboard/H\nRDown = SDL-0/+RightY & Keyboard/G\nRLeft = SDL-0/-RightX & Keyboard/F\nSmallMotor = SDL-0/SmallMotor\nLargeMotor = SDL-0/LargeMotor\n";

/// Body of PCSX2's `[Pad1]` (without the header line), for patching an
/// existing PCSX2.ini.
pub const PCSX2_PAD1_BODY: &'static str = "Type = DualShock2\nInvertL = 0\nInvertR = 0\nDeadzone = 0\nAxisScale = 1.33\nLargeMotorScale = 1\nSmallMotorScale = 1\nButtonDeadzone = 0\nPressureModifier = 0.5\nUp = SDL-0/DPadUp & Keyboard/Up\nRight = SDL-0/DPadRight & Keyboard/Right\nDown = SDL-0/DPadDown & Keyboard/Down\nLeft = SDL-0/DPadLeft & Keyboard/Left\nTriangle = SDL-0/Y & Keyboard/I\nCircle = SDL-0/B & Keyboard/L\nCross = SDL-0/A & Keyboard/K\nSquare = SDL-0/X & Keyboard/J\nSelect = SDL-0/Back & Keyboard/Backspace\nStart = SDL-0/Start & Keyboard/Return\nL1 = SDL-0/LeftShoulder & Keyboard/Q\nL2 = SDL-0/+LeftTrigger & Keyboard/1\nR1 = SDL-0/RightShoulder & Keyboard/E\nR2 = SDL-0/+RightTrigger & Keyboard/3\nL3 = SDL-0/LeftStick & Keyboard/2\nR3 = SDL-0/RightStick & Keyboard/4\nLUp = SDL-0/-LeftY & Keyboard/W\nLRight = SDL-0/+LeftX & Keyboard/D\nLDown = SDL-0/+LeftY & Keyboard/S\nLLeft = SDL-0/-LeftX & Keyboard/A\nRUp = SDL-0/-RightY & Keyboard/T\nRRight = SDL-0/+RightX & Keyboard/H\nRDown = SDL-0/+RightY & Keyboard/G\nRLeft = SDL-0/-RightX & Keyboard/F\nSmallMotor = SDL-0/SmallMotor\nLargeMotor = SDL-0/LargeMotor";

/// DuckStation `[Pad1]`: an analog controller on the first SDL gamepad.
pub const DUCKSTATION_PAD1_BLOCK: &'static str = "[Pad1]\nType = AnalogController\nUp = SDL-0/DPadUp & Keyboard/W\nDown = SDL-0/DPadDown & Keyboard/S\nLeft = SDL-0/DPadLeft & Keyboard/A\nRight = SDL-0/DPadRight & Keyboard/D\nTriangle = SDL-0/Y & Keyboard/I\nCircle = SDL-0/B & Keyboard/L\nCross = SDL-0/A & Keyboard/K\nSquare = SDL-0/X & Keyboard/J\nSelect = SDL-0/Back & Keyboard/Backspace\nStart = SDL-0/Start & Keyboard/Return\nL1 = SDL-0/LeftShoulder & Keyboard/Q\nL2 = SDL-0/+LeftTrigger & Keyboard/1\nR1 = SDL-0/RightShoulder & Keyboard/E\nR2 = SDL-0/+RightTrigger & Keyboard/3\nL3 = SDL-0/LeftStick & Keyboard/2\nR3 = SDL-0/RightStick & Keyboard/4\nLLeftRight = SDL-0/LeftX\nLUpDown = SDL-0/LeftY\nRLeftRight = SDL-0/RightX\nRUpDown = SDL-0/RightY\nSmallMotor = SDL-0/SmallMotor\nLargeMotor = SDL-0/LargeMotor";

/// Dolphin `[GCPad1]` bound to XInput controller 0.
pub const DOLPHIN_GCPAD1_BLOCK: &'static str = "[GCPad1]\nDevice = XInput/0/Gamepad\nButtons/A = `Button A`\nButtons/B = `Button B`\nButtons/X = `Button X`\nButtons/Y = `Button Y`\nButtons/Z = `Trigger R`\nButtons/Start = `Button Start`\nMain Stick/Up = `Left Y+`\nMain Stick/Down = `Left Y-`\nMain Stick/Left = `Left X-`\nMain Stick/Right = `Left X+`\nMain Stick/Modifier = `Thumb L`\nMain Stick/Modifier/Range = 50.000000\nC-Stick/Up = `Right Y+`\nC-Stick/Down = `Right Y-`\nC-Stick/Left = `Right X-`\nC-Stick/Right = `Right X+`\nC-Stick/Modifier = `Thumb R`\nC-Stick/Modifier/Range = 50.000000\nTriggers/L = `Trigger L`\nTriggers/R = `Trigger R`\nTriggers/L-Analog = `Trigger L`\nTriggers/R-Analog = `Trigger R`\nD-Pad/Up = `Pad N`\nD-Pad/Down = `Pad S`\nD-Pad/Left = `Pad W`\nD-Pad/Right = `Pad E`\nRumble/Motor = `Motor L`|`Motor R`";

/// PCSX2's own keyboard-only pad 1: all four face-button defaults are
/// still present, so the user has not customised it.
pub open spec fn pcsx2_pad1_is_default(text: Seq<char>) -> bool {
    &&& contains(text, "Triangle = Keyboard/I"@)
    &&& contains(text, "Cross = Keyboard/K"@)
    &&& contains(text, "Square = Keyboard/J"@)
    &&& contains(text, "Circle = Keyboard/L"@)
}

/// The PCSX2.ini to write given the current one.
pub open spec fn pcsx2_plan(existing: Option<Seq<char>>) -> Option<Seq<char>> {
    match existing {
        None => Some(PCSX2_INI_SEED@),
        Some(text) => if pcsx2_pad1_is_default(text) {
            Some(
                with_section(
                    with_input_source(with_input_source(text, "XInput"@, "true"@), "SDL"@, "true"@),
                    "[Pad1]"@,
                    "[Pad1]\n"@ + PCSX2_PAD1_BODY@,
                ),
            )
        } else {
            None
        },
    }
}

/// The fresh DuckStation settings.ini.
pub open spec fn duckstation_seed() -> Seq<char> {
    "[InputSources]\nSDL = true\nXInput = false\nDInput = false\n\n"@ + DUCKSTATION_PAD1_BLOCK@ + "\n"@
}

/// The DuckStation settings.ini to write given the current one: a config
/// with a `[Pad1]` already bound to an SDL pad is left alone.
pub open spec fn duckstation_plan(existing: Option<Seq<char>>) -> Option<Seq<char>> {
    match existing {
        None => Some(duckstation_seed()),
        Some(text) => if contains(text, "[Pad1]"@) && contains(text, "SDL-0/"@) {
            None
        } else {
            Some(
                with_section(
                    with_input_source(text, "SDL"@, "true"@),
                    "[Pad1]"@,
                    DUCKSTATION_PAD1_BLOCK@,
                ),
            )
        },
    }
}

/// The Dolphin GCPadNew.ini to write: only when none exists, since
/// Dolphin rewrites the file itself.
pub open spec fn dolphin_plan(exists: bool) -> Option<Seq<char>> {
    if exists {
        None
    } else {
        Some(DOLPHIN_GCPAD1_BLOCK@)
    }
}

/// The characters of an optional file's contents.
pub open spec fn opt_view(o: Option<&str>) -> Option<Seq<char>> {
    match o {
        Some(t) => Some(t@),
        None => None,
    }
}

fn contains_text(text: &str, needle: &str) -> (r: bool)
    ensures
        r == contains(text@, needle@),
{
    let t = chars_of(text);
    contains_str(t.as_slice(), needle)
}

/// Seed PCSX2's controller config. Three cases: no PCSX2.ini yet, write the
/// full seed; one with the keyboard-only defaults, enable the XInput and
/// SDL sources and replace `[Pad1]` in place; a customised one, leave it.
pub fn pcsx2_seed(existing: Option<&str>) -> (r: Option<String>)
    ensures
        r matches Some(s) ==> pcsx2_plan(opt_view(existing)) == Some(s@),
        r is None ==> pcsx2_plan(opt_view(existing)) is None,
{
    match existing {
        None => Some(owned(PCSX2_INI_SEED)),
        Some(text) => {
            let is_default = contains_text(text, "Triangle = Keyboard/I") && contains_text(
                text,
                "Cross = Keyboard/K",
            ) && contains_text(text, "Square = Keyboard/J") && contains_text(
                text,
                "Circle = Keyboard/L",
            );
            if !is_default {
                return None;
            }
            let a = ensure_input_source(text, "XInput", "true");
            let b = ensure_input_source(a.as_str(), "SDL", "true");
            let mut pad: Vec<char> = Vec::new();
            extend_str(&mut pad, "[Pad1]\n");
            extend_str(&mut pad, PCSX2_PAD1_BODY);
            let pad_s = string_of(pad.as_slice());
            Some(replace_section(b.as_str(), "[Pad1]", pad_s.as_str()))
        },
    }
}

/// Seed DuckStation's pad 1 binding to the first SDL gamepad, unless the
/// existing settings already bind `[Pad1]` to an SDL pad.
pub fn duckstation_seed_for(existing: Option<&str>) -> (r: Option<String>)
    ensures
        r matches Some(s) ==> duckstation_plan(opt_view(existing)) == Some(s@),
        r is None ==> duckstation_plan(opt_view(existing)) is None,
{
    match existing {
        None => {
            let mut v: Vec<char> = Vec::new();
            extend_str(&mut v, "[InputSources]\nSDL = true\nXInput = false\nDInput = false\n\n");
            extend_str(&mut v, DUCKSTATION_PAD1_BLOCK);
            extend_str(&mut v, "\n");
            Some(string_of(v.as_slice()))
        },
        Some(text) => {
            if contains_text(text, "[Pad1]") && contains_text(text, "SDL-0/") {
                return None;
            }
            let a = ensure_input_source(text, "SDL", "true");
            Some(replace_section(a.as_str(), "[Pad1]", DUCKSTATION_PAD1_BLOCK))
        },
    }
}

/// Seed Dolphin's GCPadNew.ini with the XInput binding when none exists.
pub fn dolphin_seed(exists: bool) -> (r: Option<String>)
    ensures
        r matches Some(s) ==> dolphin_plan(exists) == Some(s@),
        r is None ==> dolphin_plan(exists) is None,
{
    if exists {
        None
    } else {
        Some(owned(DOLPHIN_GCPAD1_BLOCK))
    }
}

/// The ids of the emulators whose controller defaults were written, given
/// each seeding outcome (`Ok(true)`: written, `Ok(false)`: left alone,
/// `Err`: failed), in the order PCSX2, DuckStation, Dolphin.
pub open spec fn applied_ids(pcsx2: bool, duckstation: bool, dolphin: bool) -> Seq<Seq<char>> {
    (if pcsx2 { seq!["pcsx2"@] } else { seq![] }) + (if duckstation {
        seq!["duckstation"@]
    } else {
        seq![]
    }) + (if dolphin { seq!["dolphin"@] } else { seq![] })
}

/// Collect the ids of the emulators whose defaults were applied.
pub fn apply_all_defaults(
    pcsx2: Result<bool, String>,
    duckstation: Result<bool, String>,
    dolphin: Result<bool, String>,
) -> (r: Vec<String>)
    ensures
        r@.map_values(|s: String| s@) == applied_ids(
            pcsx2 == Ok::<bool, String>(true),
            duckstation == Ok::<bool, String>(true),
            dolphin == Ok::<bool, String>(true),
        ),
{
    let mut applied: Vec<String> = Vec::new();
    let p = match pcsx2 {
        Ok(true) => true,
        _ => false,
    };
    let d = match duckstation {
        Ok(true) => true,
        _ => false,
    };
    let g = match dolphin {
        Ok(true) => true,
        _ => false,
    };
    if p {
        applied.push(owned("pcsx2"));
    }
    if d {
        applied.push(owned("duckstation"));
    }
    if g {
        applied.push(owned("dolphin"));
    }
    assert(applied@.map_values(|s: String| s@) =~= applied_ids(p, d, g));
    applied
}

} // verus!
