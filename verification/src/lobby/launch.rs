//! What a lobby launch needs from the launch configuration: the local
//! copy of the room's game, the emulator assigned to its platform (only
//! RetroArch can do netplay), and the netplay command line.

use vstd::prelude::*;

use crate::installer::emulators::{slot_index, EmulatorEntry};
use crate::library::platform::Platform;
use crate::library::scanner::LibraryEntry;
use crate::lobby::commands::{find_room_entry, netplay_flag, room_entry_index};
use crate::text::{chars_of, copy_string, extend_str, owned, str_eq, string_of, strs};

verus! {

/// The variant name a platform is printed with in messages.
pub open spec fn debug_name(p: Platform) -> Seq<char> {
    match p {
        Platform::Pc => "Pc"@,
        Platform::Nes => "Nes"@,
        Platform::Snes => "Snes"@,
        Platform::N64 => "N64"@,
        Platform::GameCube => "GameCube"@,
        Platform::Wii => "Wii"@,
        Platform::WiiU => "WiiU"@,
        Platform::Switch => "Switch"@,
        Platform::Gameboy => "Gameboy"@,
        Platform::GameboyColor => "GameboyColor"@,
        Platform::GameboyAdvance => "GameboyAdvance"@,
        Platform::Nds => "Nds"@,
        Platform::Threeds => "Threeds"@,
        Platform::Ps1 => "Ps1"@,
        Platform::Ps2 => "Ps2"@,
        Platform::Ps3 => "Ps3"@,
        Platform::Psp => "Psp"@,
        Platform::PsVita => "PsVita"@,
        Platform::Genesis => "Genesis"@,
        Platform::MasterSystem => "MasterSystem"@,
        Platform::GameGear => "GameGear"@,
        Platform::Saturn => "Saturn"@,
        Platform::Dreamcast => "Dreamcast"@,
        Platform::Atari2600 => "Atari2600"@,
        Platform::NeoGeo => "NeoGeo"@,
        Platform::Arcade => "Arcade"@,
        Platform::Other => "Other"@,
    }
}

/// The variant name of a platform.
pub fn platform_debug_name(p: Platform) -> (r: &'static str)
    ensures
        r@ == debug_name(p),
{
    match p {
        Platform::Pc => "Pc",
        Platform::Nes => "Nes",
        Platform::Snes => "Snes",
        Platform::N64 => "N64",
        Platform::GameCube => "GameCube",
        Platform::Wii => "Wii",
        Platform::WiiU => "WiiU",
        Platform::Switch => "Switch",
        Platform::Gameboy => "Gameboy",
        Platform::GameboyColor => "GameboyColor",
        Platform::GameboyAdvance => "GameboyAdvance",
        Platform::Nds => "Nds",
        Platform::Threeds => "Threeds",
        Platform::Ps1 => "Ps1",
        Platform::Ps2 => "Ps2",
        Platform::Ps3 => "Ps3",
        Platform::Psp => "Psp",
        Platform::PsVita => "PsVita",
        Platform::Genesis => "Genesis",
        Platform::MasterSystem => "MasterSystem",
        Platform::GameGear => "GameGear",
        Platform::Saturn => "Saturn",
        Platform::Dreamcast => "Dreamcast",
        Platform::Atari2600 => "Atari2600",
        Platform::NeoGeo => "NeoGeo",
        Platform::Arcade => "Arcade",
        Platform::Other => "Other",
    }
}

/// The emulator id assigned to a platform.
pub open spec fn assigned_to(a: Seq<(Platform, String)>, p: Platform) -> Option<Seq<char>>
    decreases a.len(),
{
    if a.len() == 0 {
        None
    } else if a[0].0 == p {
        Some(a[0].1@)
    } else {
        assigned_to(a.drop_first(), p)
    }
}

fn assignment_for(a: &Vec<(Platform, String)>, p: Platform) -> (r: Option<String>)
    ensures
        opt_view(r) == assigned_to(a@, p),
{
    let mut i: usize = 0;
    assert(a@.skip(0) =~= a@);
    while i < a.len()
        invariant
            i <= a@.len(),
            assigned_to(a@, p) == assigned_to(a@.skip(i as int), p),
        decreases a.len() - i,
    {
        assert(a@.skip(i as int)[0] == a@[i as int]);
        if a[i].0 == p {
            return Some(copy_string(&a[i].1));
        }
        assert(a@.skip(i as int).drop_first() =~= a@.skip(i + 1));
        i += 1;
    }
    None
}

pub open spec fn opt_view(o: Option<String>) -> Option<Seq<char>> {
    match o {
        Some(s) => Some(s@),
        None => None,
    }
}

/// The slot a lobby launch uses for `platform`, or why it cannot launch.
pub open spec fn netplay_slot(
    assignments: Seq<(Platform, String)>,
    slots: Seq<EmulatorEntry>,
    platform: Platform,
    game_name: Seq<char>,
) -> Result<int, Seq<char>> {
    match assigned_to(assignments, platform) {
        None => Err(
            "no emulator assigned to "@ + debug_name(platform)
                + " — open Settings → Emulators to pick one"@,
        ),
        Some(id) => match slot_index(slots, id) {
            None => Err("emulator "@ + id + " missing from config"@),
            Some(k) => if slots[k].exe@.len() == 0 {
                Err("emulator "@ + slots[k].name@ + " has no exe path set"@)
            } else if slots[k].id@ != "retroarch"@ {
                Err(
                    "Netplay in Abyss is currently RetroArch-only. The host picked '"@ + game_name
                        + "' which is assigned to "@ + slots[k].name@
                        + ". Switch its emulator to RetroArch under Settings → Emulators to play this together."@,
                )
            } else {
                Ok(k)
            },
        },
    }
}

/// Pick the emulator slot for a lobby launch of `game_name` on `platform`.
pub fn netplay_emulator(
    assignments: &Vec<(Platform, String)>,
    slots: &Vec<EmulatorEntry>,
    platform: Platform,
    game_name: &str,
) -> (r: Result<usize, String>)
    ensures
        match netplay_slot(assignments@, slots@, platform, game_name@) {
            Ok(k) => r == Ok::<usize, String>(k as usize),
            Err(m) => r matches Err(e) && e@ == m,
        },
{
    let id = match assignment_for(assignments, platform) {
        Some(id) => id,
        None => {
            let mut v: Vec<char> = Vec::new();
            extend_str(&mut v, "no emulator assigned to ");
            extend_str(&mut v, platform_debug_name(platform));
            extend_str(&mut v, " — open Settings → Emulators to pick one");
            return Err(string_of(v.as_slice()));
        },
    };
    let k = match crate::installer::emulators::find_slot(slots, id.as_str()) {
        Some(k) => k,
        None => {
            let mut v: Vec<char> = Vec::new();
            extend_str(&mut v, "emulator ");
            extend_str(&mut v, id.as_str());
            extend_str(&mut v, " missing from config");
            return Err(string_of(v.as_slice()));
        },
    };
    let e = &slots[k];
    if chars_of(e.exe.as_str()).len() == 0 {
        let mut v: Vec<char> = Vec::new();
        extend_str(&mut v, "emulator ");
        extend_str(&mut v, e.name.as_str());
        extend_str(&mut v, " has no exe path set");
        return Err(string_of(v.as_slice()));
    }
    if !str_eq(e.id.as_str(), "retroarch") {
        let mut v: Vec<char> = Vec::new();
        extend_str(&mut v, "Netplay in Abyss is currently RetroArch-only. The host picked '");
        extend_str(&mut v, game_name);
        extend_str(&mut v, "' which is assigned to ");
        extend_str(&mut v, e.name.as_str());
        extend_str(
            &mut v,
            ". Switch its emulator to RetroArch under Settings → Emulators to play this together.",
        );
        return Err(string_of(v.as_slice()));
    }
    Ok(k)
}

/// The local copy of the room's game, or the message asking the user to
/// get it from the host.
pub fn room_entry_or_error<M, E>(
    entries: &Vec<LibraryEntry<M, E>>,
    platform: Platform,
    game_name: &str,
) -> (r: Result<usize, String>)
    ensures
        match room_entry_index(entries@, platform, game_name@) {
            Some(i) => r == Ok::<usize, String>(i as usize),
            None => r matches Err(e) && e@ == "you don't have a local copy of '"@ + game_name@
                + "' for "@ + debug_name(platform)
                + ". Ask the host to send it via the Friends tab, then try again."@,
        },
{
    match find_room_entry(entries, platform, game_name) {
        Some(i) => Ok(i),
        None => {
            let mut v: Vec<char> = Vec::new();
            extend_str(&mut v, "you don't have a local copy of '");
            extend_str(&mut v, game_name);
            extend_str(&mut v, "' for ");
            extend_str(&mut v, platform_debug_name(platform));
            extend_str(&mut v, ". Ask the host to send it via the Friends tab, then try again.");
            Err(string_of(v.as_slice()))
        },
    }
}

/// The netplay role flag's view.
pub open spec fn flag_view(join_addr: Option<Seq<char>>) -> Seq<char> {
    match join_addr {
        Some(a) => "--connect="@ + a,
        None => "--host"@,
    }
}

/// The RetroArch command line for a lobby launch: the libretro core (when
/// one is installed for the platform), the emulator's expanded arguments,
/// then the netplay role flag.
pub fn netplay_args(expanded: Vec<String>, core_path: Option<String>, join_addr: Option<&str>) -> (r:
    Vec<String>)
    ensures
        strs(r@) == (match core_path {
            Some(c) => seq!["-L"@, c@],
            None => Seq::empty(),
        }) + strs(expanded@) + seq![flag_view(
            match join_addr {
                Some(a) => Some(a@),
                None => None,
            },
        )],
{
    let ghost ex = strs(expanded@);
    let ghost core = core_path;
    let mut out: Vec<String> = Vec::new();
    match core_path {
        Some(c) => {
            out.push(owned("-L"));
            out.push(c);
        },
        None => {},
    }
    let ghost head = strs(out@);
    let mut rest = expanded;
    let n = rest.len();
    let mut i: usize = 0;
    while i < n
        invariant
            n == ex.len(),
            i <= n,
            strs(rest@) == ex.skip(i as int),
            strs(out@) == head + ex.take(i as int),
        decreases n - i,
    {
        let ghost before = rest@;
        assert(before.len() == strs(before).len());
        let s = rest.remove(0);
        assert(strs(before)[0] == s@);
        assert forall|j: int| 0 <= j < rest@.len() implies #[trigger] strs(rest@)[j] == ex.skip(i + 1)[j] by {
            assert(rest@[j] == before[j + 1]);
            assert(strs(before)[j + 1] == before[j + 1]@);
        }
        assert(strs(rest@) =~= ex.skip(i + 1));
        assert(s@ == ex[i as int]);
        let ghost prev_out = out@;
        out.push(s);
        assert(strs(out@) =~= strs(prev_out).push(s@));
        assert(ex.take(i + 1) =~= ex.take(i as int).push(ex[i as int]));
        assert(strs(out@) =~= head + ex.take(i + 1));
        i += 1;
    }
    out.push(netplay_flag(join_addr));
    proof {
        assert(ex.take(n as int) =~= ex);
        match core {
            Some(c) => assert(head =~= seq!["-L"@, c@]),
            None => assert(head =~= Seq::<Seq<char>>::empty()),
        }
    }
    assert(strs(out@) =~= head + ex + seq![flag_view(
        match join_addr {
            Some(a) => Some(a@),
            None => None,
        },
    )]);
    out
}

} // verus!
