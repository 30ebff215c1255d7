//! Controller families.

use vstd::prelude::*;

use crate::text::{contains, contains_str, lowercase, to_lowercase, chars_of};

verus! {

/// What family of gamepad we're looking at.
#[derive(Debug, Clone, Copy, PartialEq, Eq, Structural)]
pub enum ControllerKind {
    Xbox,
    PlayStation,
    SwitchPro,
    /// Anything not recognised: a sane Xbox-like default.
    Generic,
}

/// The family a lower-cased Gamepad id names, by the first group of
/// keywords it contains: Xbox, then PlayStation, then Switch.
pub open spec fn kind_for_lower(l: Seq<char>) -> ControllerKind {
    if contains(l, "xbox"@) || contains(l, "xinput"@) || contains(l, "microsoft"@) {
        ControllerKind::Xbox
    } else if contains(l, "dualshock"@) || contains(l, "dualsense"@) || contains(l, "playstation"@)
        || contains(l, "sony"@) || contains(l, "ds4"@) || contains(l, "ds5"@) || contains(
        l,
        "wireless controller"@,
    ) {
        ControllerKind::PlayStation
    } else if contains(l, "nintendo"@) || contains(l, "pro controller"@) || contains(l, "switch"@)
        || contains(l, "joy-con"@) {
        ControllerKind::SwitchPro
    } else {
        ControllerKind::Generic
    }
}

impl ControllerKind {
    /// The family named by an already lower-cased Gamepad id.
    pub fn detect_from_lowercase(lower: &str) -> (r: Self)
        ensures
            r == kind_for_lower(lower@),
    {
        let l = chars_of(lower);
        let s = l.as_slice();
        if contains_str(s, "xbox") || contains_str(s, "xinput") || contains_str(s, "microsoft") {
            ControllerKind::Xbox
        } else if contains_str(s, "dualshock") || contains_str(s, "dualsense") || contains_str(
            s,
            "playstation",
        ) || contains_str(s, "sony") || contains_str(s, "ds4") || contains_str(s, "ds5")
            || contains_str(s, "wireless controller") {
            ControllerKind::PlayStation
        } else if contains_str(s, "nintendo") || contains_str(s, "pro controller") || contains_str(
            s,
            "switch",
        ) || contains_str(s, "joy-con") {
            ControllerKind::SwitchPro
        } else {
            ControllerKind::Generic
        }
    }

    /// Detection from the `Gamepad.id` string (e.g. "Xbox 360 Controller
    /// (XInput STANDARD GAMEPAD)"), compared after Unicode lower-casing.
    pub fn detect_from_id(id: &str) -> (r: Self)
        ensures
            r == kind_for_lower(lowercase(id@)),
    {
        let lower = to_lowercase(id);
        Self::detect_from_lowercase(lower.as_str())
    }

    /// The RetroArch autoconfig driver: XInput pads use `xinput`,
    /// everything else `dinput`.
    pub open spec fn spec_driver(self) -> Seq<char> {
        match self {
            ControllerKind::Xbox => "xinput"@,
            _ => "dinput"@,
        }
    }

    /// Suggested driver name in RetroArch's autoconfig.
    pub fn retroarch_driver(&self) -> (r: &'static str)
        ensures
            r@ == self.spec_driver(),
    {
        match self {
            ControllerKind::Xbox => "xinput",
            _ => "dinput",
        }
    }
}

/// Where an autoconfig file was written and how large it is.
#[derive(Debug, Clone)]
pub struct AutoConfigReport {
    pub written_to: String,
    pub bytes: usize,
}

/// A lower-cased id names an Xbox pad.
pub open spec fn xbox_id(l: Seq<char>) -> bool {
    contains(l, "xbox"@) || contains(l, "xinput"@) || contains(l, "microsoft"@)
}

/// A lower-cased id names a PlayStation pad.
pub open spec fn playstation_id(l: Seq<char>) -> bool {
    contains(l, "dualshock"@) || contains(l, "dualsense"@) || contains(l, "playstation"@) || contains(
        l,
        "sony"@,
    ) || contains(l, "ds4"@) || contains(l, "ds5"@) || contains(l, "wireless controller"@)
}

/// A lower-cased id names a Nintendo pad.
pub open spec fn nintendo_id(l: Seq<char>) -> bool {
    contains(l, "nintendo"@) || contains(l, "pro controller"@) || contains(l, "switch"@) || contains(
        l,
        "joy-con"@,
    )
}

/// The family of a lower-cased pad id: any Xbox keyword makes it Xbox;
/// otherwise any of `dualshock`, `dualsense`, `playstation`, `sony`, `ds4`,
/// `ds5`, `wireless controller` makes it PlayStation; otherwise any of
/// `nintendo`, `pro controller`, `switch`, `joy-con` makes it a Switch Pro
/// pad; an id with none of them is generic. Each keyword counts on its own.
pub proof fn lemma_controller_family(l: Seq<char>)
    ensures
        xbox_id(l) ==> kind_for_lower(l) == ControllerKind::Xbox,
        !xbox_id(l) && playstation_id(l) ==> kind_for_lower(l) == ControllerKind::PlayStation,
        !xbox_id(l) && contains(l, "playstation"@) ==> kind_for_lower(l) == ControllerKind::PlayStation,
        !xbox_id(l) && contains(l, "dualshock"@) ==> kind_for_lower(l) == ControllerKind::PlayStation,
        !xbox_id(l) && contains(l, "dualsense"@) ==> kind_for_lower(l) == ControllerKind::PlayStation,
        !xbox_id(l) && contains(l, "sony"@) ==> kind_for_lower(l) == ControllerKind::PlayStation,
        !xbox_id(l) && contains(l, "ds4"@) ==> kind_for_lower(l) == ControllerKind::PlayStation,
        !xbox_id(l) && contains(l, "ds5"@) ==> kind_for_lower(l) == ControllerKind::PlayStation,
        !xbox_id(l) && contains(l, "wireless controller"@) ==> kind_for_lower(l)
            == ControllerKind::PlayStation,
        !xbox_id(l) && !playstation_id(l) && nintendo_id(l) ==> kind_for_lower(l)
            == ControllerKind::SwitchPro,
        !xbox_id(l) && !playstation_id(l) && !nintendo_id(l) ==> kind_for_lower(l)
            == ControllerKind::Generic,
        kind_for_lower(l) == ControllerKind::Xbox <==> xbox_id(l),
        kind_for_lower(l) == ControllerKind::PlayStation <==> (!xbox_id(l) && playstation_id(l)),
        kind_for_lower(l) == ControllerKind::SwitchPro <==> (!xbox_id(l) && !playstation_id(l)
            && nintendo_id(l)),
{
}

} // verus!
