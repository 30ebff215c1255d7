//! Game platforms and the rules that decide which platform a file belongs
//! to: the extension table and the heuristics that refine ambiguous disc
//! images by folder name, title, serial number, descriptor type and size.

use vstd::prelude::*;

use crate::text::{
    ascii_lower_exec, ascii_lower_seq, chars_eq, chars_of, contains, contains_str, lowercase,
    slice_chars, to_lowercase,
};

verus! {

/// Stable identifier for a known gaming platform / system.
#[derive(Debug, Clone, Copy, PartialEq, Eq, Structural, Hash, PartialOrd, Ord)]
pub enum Platform {
    Pc,
    Nes,
    Snes,
    N64,
    GameCube,
    Wii,
    WiiU,
    Switch,
    Gameboy,
    GameboyColor,
    GameboyAdvance,
    Nds,
    Threeds,
    Ps1,
    Ps2,
    Ps3,
    Psp,
    PsVita,
    Genesis, // Sega Mega Drive
    MasterSystem,
    GameGear,
    Saturn,
    Dreamcast,
    Atari2600,
    NeoGeo,
    Arcade, // MAME / FBNeo
    Other,
}

/// Every platform, in declaration order (which is also the derived `Ord`).
pub open spec fn all_platforms() -> Seq<Platform> {
    seq![Platform::Pc, Platform::Nes, Platform::Snes, Platform::N64, Platform::GameCube, Platform::Wii, Platform::WiiU, Platform::Switch, Platform::Gameboy, Platform::GameboyColor, Platform::GameboyAdvance, Platform::Nds, Platform::Threeds, Platform::Ps1, Platform::Ps2, Platform::Ps3, Platform::Psp, Platform::PsVita, Platform::Genesis, Platform::MasterSystem, Platform::GameGear, Platform::Saturn, Platform::Dreamcast, Platform::Atari2600, Platform::NeoGeo, Platform::Arcade, Platform::Other]
}

impl Platform {
    /// Human-readable platform name.
    pub open spec fn spec_display_name(self) -> Seq<char> {
        match self {
            Platform::Pc => "PC"@,
            Platform::Nes => "NES"@,
            Platform::Snes => "SNES"@,
            Platform::N64 => "Nintendo 64"@,
            Platform::GameCube => "GameCube"@,
            Platform::Wii => "Wii"@,
            Platform::WiiU => "Wii U"@,
            Platform::Switch => "Switch"@,
            Platform::Gameboy => "Game Boy"@,
            Platform::GameboyColor => "Game Boy Color"@,
            Platform::GameboyAdvance => "Game Boy Advance"@,
            Platform::Nds => "Nintendo DS"@,
            Platform::Threeds => "Nintendo 3DS"@,
            Platform::Ps1 => "PlayStation"@,
            Platform::Ps2 => "PlayStation 2"@,
            Platform::Ps3 => "PlayStation 3"@,
            Platform::Psp => "PSP"@,
            Platform::PsVita => "PS Vita"@,
            Platform::Genesis => "Mega Drive / Genesis"@,
            Platform::MasterSystem => "Master System"@,
            Platform::GameGear => "Game Gear"@,
            Platform::Saturn => "Saturn"@,
            Platform::Dreamcast => "Dreamcast"@,
            Platform::Atari2600 => "Atari 2600"@,
            Platform::NeoGeo => "Neo Geo"@,
            Platform::Arcade => "Arcade"@,
            Platform::Other => "Other"@,
        }
    }

    /// The snake_case name the platform has on the wire and in config files.
    pub open spec fn spec_wire_name(self) -> Seq<char> {
        match self {
            Platform::Pc => "pc"@,
            Platform::Nes => "nes"@,
            Platform::Snes => "snes"@,
            Platform::N64 => "n64"@,
            Platform::GameCube => "game_cube"@,
            Platform::Wii => "wii"@,
            Platform::WiiU => "wii_u"@,
            Platform::Switch => "switch"@,
            Platform::Gameboy => "gameboy"@,
            Platform::GameboyColor => "gameboy_color"@,
            Platform::GameboyAdvance => "gameboy_advance"@,
            Platform::Nds => "nds"@,
            Platform::Threeds => "threeds"@,
            Platform::Ps1 => "ps1"@,
            Platform::Ps2 => "ps2"@,
            Platform::Ps3 => "ps3"@,
            Platform::Psp => "psp"@,
            Platform::PsVita => "ps_vita"@,
            Platform::Genesis => "genesis"@,
            Platform::MasterSystem => "master_system"@,
            Platform::GameGear => "game_gear"@,
            Platform::Saturn => "saturn"@,
            Platform::Dreamcast => "dreamcast"@,
            Platform::Atari2600 => "atari2600"@,
            Platform::NeoGeo => "neo_geo"@,
            Platform::Arcade => "arcade"@,
            Platform::Other => "other"@,
        }
    }

    /// Human-readable platform name (e.g. "Mega Drive / Genesis").
    pub fn display_name(&self) -> (r: &'static str)
        ensures
            r@ == self.spec_display_name(),
    {
        match self {
            Platform::Pc => "PC",
            Platform::Nes => "NES",
            Platform::Snes => "SNES",
            Platform::N64 => "Nintendo 64",
            Platform::GameCube => "GameCube",
            Platform::Wii => "Wii",
            Platform::WiiU => "Wii U",
            Platform::Switch => "Switch",
            Platform::Gameboy => "Game Boy",
            Platform::GameboyColor => "Game Boy Color",
            Platform::GameboyAdvance => "Game Boy Advance",
            Platform::Nds => "Nintendo DS",
            Platform::Threeds => "Nintendo 3DS",
            Platform::Ps1 => "PlayStation",
            Platform::Ps2 => "PlayStation 2",
            Platform::Ps3 => "PlayStation 3",
            Platform::Psp => "PSP",
            Platform::PsVita => "PS Vita",
            Platform::Genesis => "Mega Drive / Genesis",
            Platform::MasterSystem => "Master System",
            Platform::GameGear => "Game Gear",
            Platform::Saturn => "Saturn",
            Platform::Dreamcast => "Dreamcast",
            Platform::Atari2600 => "Atari 2600",
            Platform::NeoGeo => "Neo Geo",
            Platform::Arcade => "Arcade",
            Platform::Other => "Other",
        }
    }

    /// The snake_case wire name (e.g. `game_cube`, `wii_u`).
    pub fn wire_name(&self) -> (r: &'static str)
        ensures
            r@ == self.spec_wire_name(),
    {
        match self {
            Platform::Pc => "pc",
            Platform::Nes => "nes",
            Platform::Snes => "snes",
            Platform::N64 => "n64",
            Platform::GameCube => "game_cube",
            Platform::Wii => "wii",
            Platform::WiiU => "wii_u",
            Platform::Switch => "switch",
            Platform::Gameboy => "gameboy",
            Platform::GameboyColor => "gameboy_color",
            Platform::GameboyAdvance => "gameboy_advance",
            Platform::Nds => "nds",
            Platform::Threeds => "threeds",
            Platform::Ps1 => "ps1",
            Platform::Ps2 => "ps2",
            Platform::Ps3 => "ps3",
            Platform::Psp => "psp",
            Platform::PsVita => "ps_vita",
            Platform::Genesis => "genesis",
            Platform::MasterSystem => "master_system",
            Platform::GameGear => "game_gear",
            Platform::Saturn => "saturn",
            Platform::Dreamcast => "dreamcast",
            Platform::Atari2600 => "atari2600",
            Platform::NeoGeo => "neo_geo",
            Platform::Arcade => "arcade",
            Platform::Other => "other",
        }
    }
}

/// Every platform, in declaration order.
pub fn all_platforms_exec() -> (r: Vec<Platform>)
    ensures
        r@ == all_platforms(),
{
    vec![Platform::Pc, Platform::Nes, Platform::Snes, Platform::N64, Platform::GameCube, Platform::Wii, Platform::WiiU, Platform::Switch, Platform::Gameboy, Platform::GameboyColor, Platform::GameboyAdvance, Platform::Nds, Platform::Threeds, Platform::Ps1, Platform::Ps2, Platform::Ps3, Platform::Psp, Platform::PsVita, Platform::Genesis, Platform::MasterSystem, Platform::GameGear, Platform::Saturn, Platform::Dreamcast, Platform::Atari2600, Platform::NeoGeo, Platform::Arcade, Platform::Other]
}

/// A table of (text, platform) pairs as plain character sequences.
pub open spec fn table_view(t: Seq<(&str, Platform)>) -> Seq<(Seq<char>, Platform)> {
    t.map_values(|e: (&str, Platform)| (e.0@, e.1))
}

/// Platform of the first table entry whose key equals `key`.
pub open spec fn lookup(t: Seq<(Seq<char>, Platform)>, key: Seq<char>) -> Option<Platform>
    decreases t.len(),
{
    if t.len() == 0 {
        None
    } else if t[0].0 == key {
        Some(t[0].1)
    } else {
        lookup(t.drop_first(), key)
    }
}

/// Platform of the first table entry whose key occurs inside `hay`.
pub open spec fn first_contained(hay: Seq<char>, t: Seq<(Seq<char>, Platform)>) -> Option<Platform>
    decreases t.len(),
{
    if t.len() == 0 {
        None
    } else if contains(hay, t[0].0) {
        Some(t[0].1)
    } else {
        first_contained(hay, t.drop_first())
    }
}

/// Lower-case file extension (no leading dot) to platform. Ambiguous container formats map to `Other` and are refined by `refine_ambiguous`.
pub open spec fn ext_table() -> Seq<(Seq<char>, Platform)> {
    seq![
        ("exe"@, Platform::Pc),
        ("lnk"@, Platform::Pc),
        ("url"@, Platform::Pc),
        ("bat"@, Platform::Pc),
        ("cmd"@, Platform::Pc),
        ("msi"@, Platform::Pc),
        ("nes"@, Platform::Nes),
        ("unf"@, Platform::Nes),
        ("unif"@, Platform::Nes),
        ("fds"@, Platform::Nes),
        ("nez"@, Platform::Nes),
        ("sfc"@, Platform::Snes),
        ("smc"@, Platform::Snes),
        ("swc"@, Platform::Snes),
        ("fig"@, Platform::Snes),
        ("bs"@, Platform::Snes),
        ("n64"@, Platform::N64),
        ("z64"@, Platform::N64),
        ("v64"@, Platform::N64),
        ("u1"@, Platform::N64),
        ("ndd"@, Platform::N64),
        ("gcm"@, Platform::GameCube),
        ("gcz"@, Platform::GameCube),
        ("rvz"@, Platform::GameCube),
        ("ciso"@, Platform::GameCube),
        ("wbfs"@, Platform::Wii),
        ("wad"@, Platform::Wii),
        ("wia"@, Platform::Wii),
        ("wux"@, Platform::WiiU),
        ("wud"@, Platform::WiiU),
        ("rpx"@, Platform::WiiU),
        ("nsp"@, Platform::Switch),
        ("xci"@, Platform::Switch),
        ("nca"@, Platform::Switch),
        ("nro"@, Platform::Switch),
        ("nsz"@, Platform::Switch),
        ("xcz"@, Platform::Switch),
        ("gb"@, Platform::Gameboy),
        ("gbc"@, Platform::GameboyColor),
        ("gba"@, Platform::GameboyAdvance),
        ("agb"@, Platform::GameboyAdvance),
        ("nds"@, Platform::Nds),
        ("srl"@, Platform::Nds),
        ("dsi"@, Platform::Nds),
        ("ids"@, Platform::Nds),
        ("3ds"@, Platform::Threeds),
        ("3dsx"@, Platform::Threeds),
        ("cci"@, Platform::Threeds),
        ("cxi"@, Platform::Threeds),
        ("cia"@, Platform::Threeds),
        ("app"@, Platform::Threeds),
        ("pbp"@, Platform::Psp),
        ("cso"@, Platform::Psp),
        ("psp"@, Platform::Psp),
        ("prx"@, Platform::Psp),
        ("vpk"@, Platform::PsVita),
        ("nps"@, Platform::PsVita),
        ("md"@, Platform::Genesis),
        ("gen"@, Platform::Genesis),
        ("smd"@, Platform::Genesis),
        ("mdx"@, Platform::Genesis),
        ("32x"@, Platform::Genesis),
        ("sms"@, Platform::MasterSystem),
        ("sg"@, Platform::MasterSystem),
        ("gg"@, Platform::GameGear),
        ("cdi"@, Platform::Dreamcast),
        ("gdi"@, Platform::Dreamcast),
        ("dat"@, Platform::Dreamcast),
        ("ss"@, Platform::Saturn),
        ("st"@, Platform::Saturn),
        ("a26"@, Platform::Atari2600),
        ("a52"@, Platform::Atari2600),
        ("a78"@, Platform::Atari2600),
        ("neo"@, Platform::NeoGeo),
        ("iso"@, Platform::Other),
        ("bin"@, Platform::Other),
        ("img"@, Platform::Other),
        ("chd"@, Platform::Other),
        ("cue"@, Platform::Other),
        ("ccd"@, Platform::Other),
        ("mds"@, Platform::Other),
        ("mdf"@, Platform::Other),
        ("nrg"@, Platform::Other),
        ("m3u"@, Platform::Other),
        ("pkg"@, Platform::Other),
        ("ecm"@, Platform::Other),
        ("toc"@, Platform::Other),
        ("zip"@, Platform::Other),
        ("7z"@, Platform::Other),
        ("rar"@, Platform::Other),
    ]
}

/// The extension table, in the order of `ext_table`.
pub fn build_ext_map() -> (t: Vec<(&'static str, Platform)>)
    ensures
        table_view(t@) == ext_table(),
{
    let t = vec![
        ("exe", Platform::Pc),
        ("lnk", Platform::Pc),
        ("url", Platform::Pc),
        ("bat", Platform::Pc),
        ("cmd", Platform::Pc),
        ("msi", Platform::Pc),
        ("nes", Platform::Nes),
        ("unf", Platform::Nes),
        ("unif", Platform::Nes),
        ("fds", Platform::Nes),
        ("nez", Platform::Nes),
        ("sfc", Platform::Snes),
        ("smc", Platform::Snes),
        ("swc", Platform::Snes),
        ("fig", Platform::Snes),
        ("bs", Platform::Snes),
        ("n64", Platform::N64),
        ("z64", Platform::N64),
        ("v64", Platform::N64),
        ("u1", Platform::N64),
        ("ndd", Platform::N64),
        ("gcm", Platform::GameCube),
        ("gcz", Platform::GameCube),
        ("rvz", Platform::GameCube),
        ("ciso", Platform::GameCube),
        ("wbfs", Platform::Wii),
        ("wad", Platform::Wii),
        ("wia", Platform::Wii),
        ("wux", Platform::WiiU),
        ("wud", Platform::WiiU),
        ("rpx", Platform::WiiU),
        ("nsp", Platform::Switch),
        ("xci", Platform::Switch),
        ("nca", Platform::Switch),
        ("nro", Platform::Switch),
        ("nsz", Platform::Switch),
        ("xcz", Platform::Switch),
        ("gb", Platform::Gameboy),
        ("gbc", Platform::GameboyColor),
        ("gba", Platform::GameboyAdvance),
        ("agb", Platform::GameboyAdvance),
        ("nds", Platform::Nds),
        ("srl", Platform::Nds),
        ("dsi", Platform::Nds),
        ("ids", Platform::Nds),
        ("3ds", Platform::Threeds),
        ("3dsx", Platform::Threeds),
        ("cci", Platform::Threeds),
        ("cxi", Platform::Threeds),
        ("cia", Platform::Threeds),
        ("app", Platform::Threeds),
        ("pbp", Platform::Psp),
        ("cso", Platform::Psp),
        ("psp", Platform::Psp),
        ("prx", Platform::Psp),
        ("vpk", Platform::PsVita),
        ("nps", Platform::PsVita),
        ("md", Platform::Genesis),
        ("gen", Platform::Genesis),
        ("smd", Platform::Genesis),
        ("mdx", Platform::Genesis),
        ("32x", Platform::Genesis),
        ("sms", Platform::MasterSystem),
        ("sg", Platform::MasterSystem),
        ("gg", Platform::GameGear),
        ("cdi", Platform::Dreamcast),
        ("gdi", Platform::Dreamcast),
        ("dat", Platform::Dreamcast),
        ("ss", Platform::Saturn),
        ("st", Platform::Saturn),
        ("a26", Platform::Atari2600),
        ("a52", Platform::Atari2600),
        ("a78", Platform::Atari2600),
        ("neo", Platform::NeoGeo),
        ("iso", Platform::Other),
        ("bin", Platform::Other),
        ("img", Platform::Other),
        ("chd", Platform::Other),
        ("cue", Platform::Other),
        ("ccd", Platform::Other),
        ("mds", Platform::Other),
        ("mdf", Platform::Other),
        ("nrg", Platform::Other),
        ("m3u", Platform::Other),
        ("pkg", Platform::Other),
        ("ecm", Platform::Other),
        ("toc", Platform::Other),
        ("zip", Platform::Other),
        ("7z", Platform::Other),
        ("rar", Platform::Other),
    ];
    assert(table_view(t@) =~= ext_table());
    t
}

/// Folder-name tokens, most specific first.
pub open spec fn folder_tokens() -> Seq<(Seq<char>, Platform)> {
    seq![
        ("ps3"@, Platform::Ps3),
        ("ps2"@, Platform::Ps2),
        ("ps1"@, Platform::Ps1),
        ("psx"@, Platform::Ps1),
        ("psp"@, Platform::Psp),
        ("playstation 3"@, Platform::Ps3),
        ("playstation 2"@, Platform::Ps2),
        ("playstation 1"@, Platform::Ps1),
        ("playstation"@, Platform::Ps1),
        ("dreamcast"@, Platform::Dreamcast),
        ("saturn"@, Platform::Saturn),
        ("gamecube"@, Platform::GameCube),
        ("wii u"@, Platform::WiiU),
        ("wii"@, Platform::Wii),
        ("switch"@, Platform::Switch),
        ("xbox"@, Platform::Pc),
        ("arcade"@, Platform::Arcade),
        ("mame"@, Platform::Arcade),
    ]
}

/// The folder-token table, in the order of `folder_tokens`.
pub fn folder_token_table() -> (t: Vec<(&'static str, Platform)>)
    ensures
        table_view(t@) == folder_tokens(),
{
    let t = vec![
        ("ps3", Platform::Ps3),
        ("ps2", Platform::Ps2),
        ("ps1", Platform::Ps1),
        ("psx", Platform::Ps1),
        ("psp", Platform::Psp),
        ("playstation 3", Platform::Ps3),
        ("playstation 2", Platform::Ps2),
        ("playstation 1", Platform::Ps1),
        ("playstation", Platform::Ps1),
        ("dreamcast", Platform::Dreamcast),
        ("saturn", Platform::Saturn),
        ("gamecube", Platform::GameCube),
        ("wii u", Platform::WiiU),
        ("wii", Platform::Wii),
        ("switch", Platform::Switch),
        ("xbox", Platform::Pc),
        ("arcade", Platform::Arcade),
        ("mame", Platform::Arcade),
    ];
    assert(table_view(t@) =~= folder_tokens());
    t
}

/// Game titles whose disc image could only be one platform.
pub open spec fn title_pins() -> Seq<(Seq<char>, Platform)> {
    seq![
        ("tekken 5"@, Platform::Ps2),
        ("tekken 6"@, Platform::Ps3),
        ("tekken 4"@, Platform::Ps2),
        ("tekken tag"@, Platform::Ps2),
        ("god of war iii"@, Platform::Ps3),
        ("god of war 3"@, Platform::Ps3),
        ("god of war ii"@, Platform::Ps2),
        ("god of war 2"@, Platform::Ps2),
        ("god of war: chains of olympus"@, Platform::Psp),
        ("god of war: ghost of sparta"@, Platform::Psp),
        ("god of war"@, Platform::Ps2),
        ("gta sa"@, Platform::Ps2),
        ("gta vc"@, Platform::Ps2),
        ("gta iii"@, Platform::Ps2),
        ("grand theft auto: san andreas"@, Platform::Ps2),
        ("grand theft auto: vice city"@, Platform::Ps2),
        ("grand theft auto iii"@, Platform::Ps2),
        ("grand theft auto: liberty city stories"@, Platform::Psp),
        ("grand theft auto: vice city stories"@, Platform::Psp),
        ("final fantasy x"@, Platform::Ps2),
        ("final fantasy xii"@, Platform::Ps2),
        ("metal gear solid 2"@, Platform::Ps2),
        ("metal gear solid 3"@, Platform::Ps2),
        ("metal gear solid 4"@, Platform::Ps3),
        ("metal gear solid: peace walker"@, Platform::Psp),
        ("resident evil 4"@, Platform::Ps2),
        ("resident evil 5"@, Platform::Ps3),
        ("crash twinsanity"@, Platform::Ps2),
        ("spyro: enter"@, Platform::Ps2),
        ("twisted metal 2012"@, Platform::Ps3),
        ("twisted metal black"@, Platform::Ps2),
        ("twisted metal head on"@, Platform::Psp),
        ("twisted metal 1"@, Platform::Ps1),
        ("twisted metal 2"@, Platform::Ps1),
        ("twisted metal 3"@, Platform::Ps1),
        ("twisted metal 4"@, Platform::Ps1),
        ("breath of the wild"@, Platform::Switch),
        ("super mario odyssey"@, Platform::Switch),
    ]
}

/// The title table, in the order of `title_pins`.
pub fn title_pin_table() -> (t: Vec<(&'static str, Platform)>)
    ensures
        table_view(t@) == title_pins(),
{
    let t = vec![
        ("tekken 5", Platform::Ps2),
        ("tekken 6", Platform::Ps3),
        ("tekken 4", Platform::Ps2),
        ("tekken tag", Platform::Ps2),
        ("god of war iii", Platform::Ps3),
        ("god of war 3", Platform::Ps3),
        ("god of war ii", Platform::Ps2),
        ("god of war 2", Platform::Ps2),
        ("god of war: chains of olympus", Platform::Psp),
        ("god of war: ghost of sparta", Platform::Psp),
        ("god of war", Platform::Ps2),
        ("gta sa", Platform::Ps2),
        ("gta vc", Platform::Ps2),
        ("gta iii", Platform::Ps2),
        ("grand theft auto: san andreas", Platform::Ps2),
        ("grand theft auto: vice city", Platform::Ps2),
        ("grand theft auto iii", Platform::Ps2),
        ("grand theft auto: liberty city stories", Platform::Psp),
        ("grand theft auto: vice city stories", Platform::Psp),
        ("final fantasy x", Platform::Ps2),
        ("final fantasy xii", Platform::Ps2),
        ("metal gear solid 2", Platform::Ps2),
        ("metal gear solid 3", Platform::Ps2),
        ("metal gear solid 4", Platform::Ps3),
        ("metal gear solid: peace walker", Platform::Psp),
        ("resident evil 4", Platform::Ps2),
        ("resident evil 5", Platform::Ps3),
        ("crash twinsanity", Platform::Ps2),
        ("spyro: enter", Platform::Ps2),
        ("twisted metal 2012", Platform::Ps3),
        ("twisted metal black", Platform::Ps2),
        ("twisted metal head on", Platform::Psp),
        ("twisted metal 1", Platform::Ps1),
        ("twisted metal 2", Platform::Ps1),
        ("twisted metal 3", Platform::Ps1),
        ("twisted metal 4", Platform::Ps1),
        ("breath of the wild", Platform::Switch),
        ("super mario odyssey", Platform::Switch),
    ];
    assert(table_view(t@) =~= title_pins());
    t
}

/// Region-code serial prefixes printed on every retail PlayStation disc.
pub open spec fn serial_prefixes() -> Seq<(Seq<char>, Platform)> {
    seq![
        ("scus-"@, Platform::Ps1),
        ("slus-"@, Platform::Ps1),
        ("scus_"@, Platform::Ps1),
        ("slus_"@, Platform::Ps1),
        ("sces-"@, Platform::Ps1),
        ("sles-"@, Platform::Ps1),
        ("sced-"@, Platform::Ps1),
        ("sces_"@, Platform::Ps1),
        ("sles_"@, Platform::Ps1),
        ("scps-"@, Platform::Ps1),
        ("slps-"@, Platform::Ps1),
        ("slpm-"@, Platform::Ps1),
        ("scps_"@, Platform::Ps1),
        ("slps_"@, Platform::Ps1),
        ("slpm_"@, Platform::Ps1),
        ("scaj-"@, Platform::Ps1),
        ("scas-"@, Platform::Ps1),
        ("papx-"@, Platform::Ps1),
        ("pbpx-"@, Platform::Ps1),
        ("pcpx-"@, Platform::Ps1),
    ]
}

/// The serial-prefix table, in the order of `serial_prefixes`.
pub fn serial_prefix_table() -> (t: Vec<(&'static str, Platform)>)
    ensures
        table_view(t@) == serial_prefixes(),
{
    let t = vec![
        ("scus-", Platform::Ps1),
        ("slus-", Platform::Ps1),
        ("scus_", Platform::Ps1),
        ("slus_", Platform::Ps1),
        ("sces-", Platform::Ps1),
        ("sles-", Platform::Ps1),
        ("sced-", Platform::Ps1),
        ("sces_", Platform::Ps1),
        ("sles_", Platform::Ps1),
        ("scps-", Platform::Ps1),
        ("slps-", Platform::Ps1),
        ("slpm-", Platform::Ps1),
        ("scps_", Platform::Ps1),
        ("slps_", Platform::Ps1),
        ("slpm_", Platform::Ps1),
        ("scaj-", Platform::Ps1),
        ("scas-", Platform::Ps1),
        ("papx-", Platform::Ps1),
        ("pbpx-", Platform::Ps1),
        ("pcpx-", Platform::Ps1),
    ];
    assert(table_view(t@) =~= serial_prefixes());
    t
}

/// Platform for a lower-case file extension (no leading dot); `None` for
/// files that are not recognised as games.
pub fn platform_for_extension(ext: &str) -> (r: Option<Platform>)
    ensures
        r == lookup(ext_table(), ext@),
{
    let t = build_ext_map();
    let key = chars_of(ext);
    let mut i: usize = 0;
    assert(table_view(t@).skip(0) =~= table_view(t@));
    while i < t.len()
        invariant
            i <= t@.len(),
            table_view(t@) == ext_table(),
            key@ == ext@,
            lookup(ext_table(), ext@) == lookup(table_view(t@).skip(i as int), ext@),
        decreases t.len() - i,
    {
        let ghost rest = table_view(t@).skip(i as int);
        assert(rest.drop_first() =~= table_view(t@).skip(i + 1));
        let (k, p) = t[i];
        let kc = chars_of(k);
        if chars_eq(kc.as_slice(), key.as_slice()) {
            return Some(p);
        }
        i += 1;
    }
    None
}

/// Every (extension, platform) pair we recognise, in table order; each
/// extension resolves to the platform it is listed with.
pub fn known_extensions() -> (t: Vec<(&'static str, Platform)>)
    ensures
        table_view(t@) == ext_table(),
        forall|i: int|
            0 <= i < t@.len() ==> lookup(ext_table(), (#[trigger] t@[i]).0@) == Some(t@[i].1),
{
    let t = build_ext_map();
    proof {
        crate::library::tables::lemma_known_extensions_resolve();
        assert forall|i: int| 0 <= i < t@.len() implies lookup(ext_table(), (#[trigger] t@[i]).0@) == Some(
            t@[i].1,
        ) by {
            assert(table_view(t@)[i] == (t@[i].0@, t@[i].1));
            assert(ext_table()[i] == (t@[i].0@, t@[i].1));
            assert(lookup(ext_table(), ext_table()[i].0) == Some(ext_table()[i].1));
        }
    }
    t
}

/// Platform of the first entry of `t` whose text occurs in `hay`.
pub fn first_contained_exec(hay: &[char], t: &Vec<(&'static str, Platform)>) -> (r: Option<Platform>)
    ensures
        r == first_contained(hay@, table_view(t@)),
{
    let mut i: usize = 0;
    assert(table_view(t@).skip(0) =~= table_view(t@));
    while i < t.len()
        invariant
            i <= t@.len(),
            first_contained(hay@, table_view(t@)) == first_contained(hay@, table_view(t@).skip(i as int)),
        decreases t.len() - i,
    {
        let ghost rest = table_view(t@).skip(i as int);
        assert(rest.drop_first() =~= table_view(t@).skip(i + 1));
        let (k, p) = t[i];
        if contains_str(hay, k) {
            return Some(p);
        }
        i += 1;
    }
    None
}

/// One mebibyte.
pub const MIB: u64 = 1048576;

/// Platform suggested by the size of a raw `.iso` / `.bin` / `.img` disc
/// image, following physical disc capacities: PS1 CDs up to 750 MiB, PSP
/// UMDs up to 1.8 GiB, PS2 DVDs below 4.5 GiB, Wii DVDs below 8.7 GiB and
/// PS3 Blu-rays above. A size of zero means "unknown" and suggests nothing.
pub open spec fn platform_for_disc_size(size: u64) -> Option<Platform> {
    if size == 0 {
        None
    } else if size <= 750 * MIB {
        Some(Platform::Ps1)
    } else if size <= 1800 * MIB {
        Some(Platform::Psp)
    } else if size < 4500 * MIB {
        Some(Platform::Ps2)
    } else if size < 8700 * MIB {
        Some(Platform::Wii)
    } else {
        Some(Platform::Ps3)
    }
}

/// Index of the last occurrence of `c` in `s`.
pub open spec fn last_index_of(s: Seq<char>, c: char) -> Option<int>
    decreases s.len(),
{
    if s.len() == 0 {
        None
    } else if s.last() == c {
        Some(s.len() - 1)
    } else {
        last_index_of(s.drop_last(), c)
    }
}

pub proof fn lemma_last_index_of(s: Seq<char>, c: char)
    ensures
        last_index_of(s, c) matches Some(k) ==> 0 <= k < s.len() && s[k] == c,
    decreases s.len(),
{
    if s.len() > 0 && s.last() != c {
        lemma_last_index_of(s.drop_last(), c);
    }
}

/// The extension of a file name as `Path::extension` computes it: the text
/// after the last `.`, unless the name has no dot, its only dot starts the
/// name, or the name is `..`.
pub open spec fn extension_of(name: Seq<char>) -> Option<Seq<char>> {
    if name == seq!['.', '.'] {
        None
    } else {
        match last_index_of(name, '.') {
            None => None,
            Some(k) => if k <= 0 {
                None
            } else {
                Some(name.skip(k + 1))
            },
        }
    }
}

/// A path separator: `/`, or `\` as on Windows.
pub open spec fn is_path_sep(c: char) -> bool {
    c == '/' || c == '\\'
}

/// The path without its trailing separators.
pub open spec fn trim_trailing_seps(p: Seq<char>) -> Seq<char>
    decreases p.len(),
{
    if p.len() > 0 && is_path_sep(p.last()) {
        trim_trailing_seps(p.drop_last())
    } else {
        p
    }
}

/// The characters after the last separator.
pub open spec fn after_last_sep(p: Seq<char>) -> Seq<char>
    decreases p.len(),
{
    if p.len() == 0 {
        p
    } else if is_path_sep(p.last()) {
        Seq::empty()
    } else {
        after_last_sep(p.drop_last()).push(p.last())
    }
}

/// The last component of a path: what follows the last separator, trailing
/// separators ignored.
pub open spec fn path_leaf(p: Seq<char>) -> Seq<char> {
    after_last_sep(trim_trailing_seps(p))
}

/// The ASCII-lower-cased extension of the last component of a path.
pub open spec fn path_lower_extension(p: Seq<char>) -> Option<Seq<char>> {
    lower_extension_of(path_leaf(p))
}

/// The ASCII-lower-cased extension of a file name.
pub open spec fn lower_extension_of(name: Seq<char>) -> Option<Seq<char>> {
    match extension_of(name) {
        Some(e) => Some(ascii_lower_seq(e)),
        None => None,
    }
}

/// Refinement of an ambiguous classification from already lower-cased
/// inputs. Signals in order of confidence: folder names in the path, title
/// pins in the file name, PlayStation serial prefixes in the file name,
/// the descriptor format (`.cue` is PS1, `.gdi` Dreamcast, `.toc` Saturn),
/// and finally the size of a raw disc image.
pub open spec fn refined_platform(
    initial: Platform,
    lower_path: Seq<char>,
    lower_name: Seq<char>,
    ext: Option<Seq<char>>,
    size: u64,
) -> Platform {
    if initial != Platform::Other {
        initial
    } else if let Some(p) = first_contained(lower_path, folder_tokens()) {
        p
    } else if let Some(p) = first_contained(lower_name, title_pins()) {
        p
    } else if first_contained(lower_name, serial_prefixes()) is Some {
        Platform::Ps1
    } else if ext == Some("cue"@) {
        Platform::Ps1
    } else if ext == Some("gdi"@) {
        Platform::Dreamcast
    } else if ext == Some("toc"@) {
        Platform::Saturn
    } else if (ext == Some("iso"@) || ext == Some("bin"@) || ext == Some("img"@))
        && platform_for_disc_size(size) is Some {
        platform_for_disc_size(size)->0
    } else {
        Platform::Other
    }
}

/// Index of the last `c` in `s`.
pub fn last_index_of_exec(s: &[char], c: char) -> (r: Option<usize>)
    ensures
        r matches Some(k) ==> last_index_of(s@, c) == Some(k as int),
        r is None ==> last_index_of(s@, c) is None,
{
    let mut i = s.len();
    assert(s@.take(i as int) =~= s@);
    while i > 0
        invariant
            i <= s.len(),
            last_index_of(s@, c) == last_index_of(s@.take(i as int), c),
        decreases i,
    {
        assert(s@.take(i as int).drop_last() =~= s@.take(i - 1));
        if s[i - 1] == c {
            return Some(i - 1);
        }
        i -= 1;
    }
    None
}

/// The extension of a file name (`Path::extension`).
pub fn extension_chars(name: &[char]) -> (r: Option<Vec<char>>)
    ensures
        r matches Some(v) ==> extension_of(name@) == Some(v@),
        r is None ==> extension_of(name@) is None,
{
    if name.len() == 2 && name[0] == '.' && name[1] == '.' {
        assert(name@ =~= seq!['.', '.']);
        return None;
    }
    proof {
        if name@ == seq!['.', '.'] {
            assert(name@.len() == 2 && name@[0] == '.' && name@[1] == '.');
        }
        lemma_last_index_of(name@, '.');
    }
    match last_index_of_exec(name, '.') {
        None => None,
        Some(k) => {
            if k == 0 {
                None
            } else {
                let e = slice_chars(name, k + 1, name.len());
                assert(e@ =~= name@.skip(k + 1));
                Some(e)
            }
        },
    }
}

/// The ASCII-lower-cased extension of a file name (`Path::extension`
/// followed by `to_ascii_lowercase`).
pub fn lower_extension(name: &[char]) -> (r: Option<Vec<char>>)
    ensures
        r matches Some(v) ==> lower_extension_of(name@) == Some(v@),
        r is None ==> lower_extension_of(name@) is None,
{
    if name.len() == 2 && name[0] == '.' && name[1] == '.' {
        assert(name@ =~= seq!['.', '.']);
        return None;
    }
    proof {
        if name@ == seq!['.', '.'] {
            assert(name@.len() == 2 && name@[0] == '.' && name@[1] == '.');
        }
    }
    proof {
        lemma_last_index_of(name@, '.');
    }
    match last_index_of_exec(name, '.') {
        None => None,
        Some(k) => {
            if k == 0 {
                None
            } else {
                let e = slice_chars(name, k + 1, name.len());
                assert(e@ =~= name@.skip(k + 1));
                Some(ascii_lower_exec(e.as_slice()))
            }
        },
    }
}

/// Whether the optional extension equals the given text.
fn ext_is(ext: &Option<Vec<char>>, s: &str) -> (r: bool)
    ensures
        r == (ext matches Some(e) && e@ == s@),
{
    match ext {
        Some(e) => {
            let sc = chars_of(s);
            chars_eq(e.as_slice(), sc.as_slice())
        },
        None => false,
    }
}

/// The last component of a path (see `path_leaf`).
pub fn path_leaf_exec(p: &[char]) -> (r: Vec<char>)
    ensures
        r@ == path_leaf(p@),
{
    let mut end: usize = p.len();
    assert(p@.take(end as int) =~= p@);
    while end > 0 && (p[end - 1] == '/' || p[end - 1] == '\\')
        invariant
            end <= p@.len(),
            trim_trailing_seps(p@) == trim_trailing_seps(p@.take(end as int)),
        decreases end,
    {
        assert(p@.take(end as int).drop_last() =~= p@.take(end - 1));
        end -= 1;
    }
    let ghost q = p@.take(end as int);
    assert(trim_trailing_seps(q) == q);
    let mut start: usize = end;
    assert(p@.subrange(start as int, end as int) =~= Seq::<char>::empty());
    assert(q.take(start as int) =~= q);
    while start > 0 && !(p[start - 1] == '/' || p[start - 1] == '\\')
        invariant
            start <= end <= p@.len(),
            q == p@.take(end as int),
            after_last_sep(q) == after_last_sep(q.take(start as int)) + p@.subrange(start as int, end as int),
        decreases start,
    {
        let ghost a = q.take(start as int);
        assert(a.last() == p@[start - 1]);
        assert(a.drop_last() =~= q.take(start - 1));
        assert(p@.subrange(start - 1, end as int) =~= seq![p@[start - 1]] + p@.subrange(start as int, end as int));
        assert(after_last_sep(a) == after_last_sep(q.take(start - 1)).push(p@[start - 1]));
        assert(after_last_sep(q.take(start - 1)).push(p@[start - 1]) + p@.subrange(start as int, end as int)
            =~= after_last_sep(q.take(start - 1)) + p@.subrange(start - 1, end as int));
        start -= 1;
    }
    assert(after_last_sep(q.take(start as int)) =~= Seq::<char>::empty()) by {
        if start > 0 {
            assert(q.take(start as int).last() == p@[start - 1]);
        }
    }
    let r = slice_chars(p, start, end);
    assert(r@ =~= after_last_sep(q));
    r
}

/// Refines an ambiguous classification given the already lower-cased path
/// and file name and the ASCII-lower-cased extension.
pub fn refine_lowered(
    initial: Platform,
    lower_path: &[char],
    lower_name: &[char],
    ext: &Option<Vec<char>>,
    size_bytes: u64,
) -> (r: Platform)
    ensures
        r == refined_platform(
            initial,
            lower_path@,
            lower_name@,
            match ext {
                Some(e) => Some(e@),
                None => None,
            },
            size_bytes,
        ),
{
    if initial != Platform::Other {
        return initial;
    }
    if let Some(p) = first_contained_exec(lower_path, &folder_token_table()) {
        return p;
    }
    if let Some(p) = first_contained_exec(lower_name, &title_pin_table()) {
        return p;
    }
    if first_contained_exec(lower_name, &serial_prefix_table()).is_some() {
        return Platform::Ps1;
    }
    if ext_is(ext, "cue") {
        return Platform::Ps1;
    }
    if ext_is(ext, "gdi") {
        return Platform::Dreamcast;
    }
    if ext_is(ext, "toc") {
        return Platform::Saturn;
    }
    if ext_is(ext, "iso") || ext_is(ext, "bin") || ext_is(ext, "img") {
        if size_bytes == 0 {
        } else if size_bytes <= 750 * MIB {
            return Platform::Ps1;
        } else if size_bytes <= 1800 * MIB {
            return Platform::Psp;
        } else if size_bytes < 4500 * MIB {
            return Platform::Ps2;
        } else if size_bytes < 8700 * MIB {
            return Platform::Wii;
        } else {
            return Platform::Ps3;
        }
    }
    Platform::Other
}

/// Refine an `Other` classification for the game file at `path` whose leaf
/// name is `file_name` and whose size is `size_bytes` (0 when unknown).
/// A specific initial platform is returned unchanged: the extension is
/// authoritative. Path and name are compared after Unicode lower-casing;
/// the extension is that of the path's last component (`/` and `\` both
/// separate components), compared after ASCII lower-casing.
pub fn refine_ambiguous(initial: Platform, path: &str, file_name: &str, size_bytes: u64) -> (r:
    Platform)
    ensures
        r == refined_platform(
            initial,
            lowercase(path@),
            lowercase(file_name@),
            path_lower_extension(path@),
            size_bytes,
        ),
{
    if initial != Platform::Other {
        return initial;
    }
    let lp = to_lowercase(path);
    let ln = to_lowercase(file_name);
    let lpc = chars_of(lp.as_str());
    let lnc = chars_of(ln.as_str());
    let pc = chars_of(path);
    let leaf = path_leaf_exec(pc.as_slice());
    let ext = lower_extension(leaf.as_slice());
    refine_lowered(initial, lpc.as_slice(), lnc.as_slice(), &ext, size_bytes)
}

} // verus!

verus! {

// ---------------------------------------------------------------------------
// Laws of the refinement
// ---------------------------------------------------------------------------

/// Whether some key of the table occurs in `hay`.
pub open spec fn any_key_in(hay: Seq<char>, t: Seq<(Seq<char>, Platform)>) -> bool {
    exists|i: int| 0 <= i < t.len() && contains(hay, #[trigger] t[i].0)
}

/// The first table entry whose key occurs in `hay` decides: nothing when
/// no key occurs, else the platform of the first key that does.
pub proof fn lemma_first_contained(hay: Seq<char>, t: Seq<(Seq<char>, Platform)>)
    ensures
        first_contained(hay, t) is None <==> !any_key_in(hay, t),
        forall|i: int|
            0 <= i < t.len() && contains(hay, #[trigger] t[i].0) && (forall|j: int|
                0 <= j < i ==> !contains(hay, t[j].0)) ==> first_contained(hay, t) == Some(t[i].1),
    decreases t.len(),
{
    if t.len() > 0 {
        let r = t.drop_first();
        lemma_first_contained(hay, r);
        if !contains(hay, t[0].0) {
            assert(any_key_in(hay, t) ==> any_key_in(hay, r)) by {
                if any_key_in(hay, t) {
                    let i = choose|i: int| 0 <= i < t.len() && contains(hay, #[trigger] t[i].0);
                    assert(r[i - 1] == t[i]);
                }
            }
            assert(any_key_in(hay, r) ==> any_key_in(hay, t)) by {
                if any_key_in(hay, r) {
                    let i = choose|i: int| 0 <= i < r.len() && contains(hay, #[trigger] r[i].0);
                    assert(t[i + 1] == r[i]);
                }
            }
            assert forall|i: int|
                0 <= i < t.len() && contains(hay, #[trigger] t[i].0) && (forall|j: int|
                    0 <= j < i ==> !contains(hay, t[j].0)) implies first_contained(hay, t) == Some(
                t[i].1,
            ) by {
                assert(i > 0);
                assert(r[i - 1] == t[i]);
                assert forall|j: int| 0 <= j < i - 1 implies !contains(hay, r[j].0) by {
                    assert(r[j] == t[j + 1]);
                }
            }
        } else {
            assert(contains(hay, t[0].0));
        }
    }
}

/// No folder token in the path, and no title pin or region serial in the
/// file name.
pub open spec fn no_name_signal(lower_path: Seq<char>, lower_name: Seq<char>) -> bool {
    !any_key_in(lower_path, folder_tokens()) && !any_key_in(lower_name, title_pins()) && !any_key_in(
        lower_name,
        serial_prefixes(),
    )
}

/// A raw disc image: `.iso`, `.bin` or `.img`.
pub open spec fn raw_image(ext: Option<Seq<char>>) -> bool {
    ext == Some("iso"@) || ext == Some("bin"@) || ext == Some("img"@)
}

/// What the refinement of a file first classified by its extension gives,
/// in terms of the lower-cased path and name, the extension and the size:
/// - a specific first classification is kept;
/// - otherwise the first folder token found in the path decides;
/// - with none, the first title pin found in the file name decides;
/// - with none, a PlayStation region serial in the file name means PS1;
/// - with none, `.cue` means PS1, `.gdi` Dreamcast, `.toc` Saturn;
/// - with none, a raw `.iso` / `.bin` / `.img` image of known size is PS1 up
///   to 750 MiB, PSP up to 1800 MiB, PS2 below 4500 MiB, Wii below
///   8700 MiB and PS3 from there;
/// - anything else stays `Other`.
pub proof fn lemma_refine_laws(
    initial: Platform,
    lower_path: Seq<char>,
    lower_name: Seq<char>,
    ext: Option<Seq<char>>,
    size: u64,
)
    ensures
        initial != Platform::Other ==> refined_platform(initial, lower_path, lower_name, ext, size)
            == initial,
        forall|i: int|
            0 <= i < folder_tokens().len() && contains(lower_path, #[trigger] folder_tokens()[i].0) && (
            forall|j: int| 0 <= j < i ==> !contains(lower_path, folder_tokens()[j].0))
                ==> refined_platform(Platform::Other, lower_path, lower_name, ext, size)
                == folder_tokens()[i].1,
        forall|i: int|
            0 <= i < title_pins().len() && !any_key_in(lower_path, folder_tokens()) && contains(
                lower_name,
                #[trigger] title_pins()[i].0,
            ) && (forall|j: int| 0 <= j < i ==> !contains(lower_name, title_pins()[j].0))
                ==> refined_platform(Platform::Other, lower_path, lower_name, ext, size)
                == title_pins()[i].1,
        !any_key_in(lower_path, folder_tokens()) && !any_key_in(lower_name, title_pins())
            && any_key_in(lower_name, serial_prefixes()) ==> refined_platform(
            Platform::Other,
            lower_path,
            lower_name,
            ext,
            size,
        ) == Platform::Ps1,
        no_name_signal(lower_path, lower_name) && ext == Some("cue"@) ==> refined_platform(
            Platform::Other,
            lower_path,
            lower_name,
            ext,
            size,
        ) == Platform::Ps1,
        no_name_signal(lower_path, lower_name) && ext == Some("gdi"@) ==> refined_platform(
            Platform::Other,
            lower_path,
            lower_name,
            ext,
            size,
        ) == Platform::Dreamcast,
        no_name_signal(lower_path, lower_name) && ext == Some("toc"@) ==> refined_platform(
            Platform::Other,
            lower_path,
            lower_name,
            ext,
            size,
        ) == Platform::Saturn,
        no_name_signal(lower_path, lower_name) && raw_image(ext) && size > 0 ==> refined_platform(
            Platform::Other,
            lower_path,
            lower_name,
            ext,
            size,
        ) == if size <= 750 * 1048576 {
            Platform::Ps1
        } else if size <= 1800 * 1048576 {
            Platform::Psp
        } else if size < 4500 * 1048576 {
            Platform::Ps2
        } else if size < 8700 * 1048576 {
            Platform::Wii
        } else {
            Platform::Ps3
        },
        no_name_signal(lower_path, lower_name) && (size == 0 || !raw_image(ext)) && ext != Some("cue"@)
            && ext != Some("gdi"@) && ext != Some("toc"@) ==> refined_platform(
            Platform::Other,
            lower_path,
            lower_name,
            ext,
            size,
        ) == Platform::Other,
{
    lemma_first_contained(lower_path, folder_tokens());
    lemma_first_contained(lower_name, title_pins());
    lemma_first_contained(lower_name, serial_prefixes());
    reveal_strlit("cue");
    reveal_strlit("gdi");
    reveal_strlit("toc");
    reveal_strlit("iso");
    reveal_strlit("bin");
    reveal_strlit("img");
    assert("cue"@[0] != "gdi"@[0] && "cue"@[0] != "toc"@[0] && "gdi"@[0] != "toc"@[0]);
    assert("cue"@ != "gdi"@ && "cue"@ != "toc"@ && "gdi"@ != "toc"@);
}

/// The folder tokens, literally and in order: the first of them found in
/// the lower-cased path names the platform of an ambiguous file.
pub proof fn lemma_folder_tokens_decide(lower_path: Seq<char>, lower_name: Seq<char>, ext: Option<Seq<char>>, size: u64)
    ensures
        contains(lower_path, "ps3"@)
            ==> refined_platform(Platform::Other, lower_path, lower_name, ext, size) == Platform::Ps3,
        !contains(lower_path, "ps3"@) && contains(lower_path, "ps2"@)
            ==> refined_platform(Platform::Other, lower_path, lower_name, ext, size) == Platform::Ps2,
        !contains(lower_path, "ps3"@) && !contains(lower_path, "ps2"@) && contains(lower_path, "ps1"@)
            ==> refined_platform(Platform::Other, lower_path, lower_name, ext, size) == Platform::Ps1,
        !contains(lower_path, "ps3"@) && !contains(lower_path, "ps2"@) && !contains(lower_path, "ps1"@) && contains(lower_path, "psx"@)
            ==> refined_platform(Platform::Other, lower_path, lower_name, ext, size) == Platform::Ps1,
        !contains(lower_path, "ps3"@) && !contains(lower_path, "ps2"@) && !contains(lower_path, "ps1"@) && !contains(lower_path, "psx"@) && contains(lower_path, "psp"@)
            ==> refined_platform(Platform::Other, lower_path, lower_name, ext, size) == Platform::Psp,
        !contains(lower_path, "ps3"@) && !contains(lower_path, "ps2"@) && !contains(lower_path, "ps1"@) && !contains(lower_path, "psx"@) && !contains(lower_path, "psp"@) && contains(lower_path, "playstation 3"@)
            ==> refined_platform(Platform::Other, lower_path, lower_name, ext, size) == Platform::Ps3,
        !contains(lower_path, "ps3"@) && !contains(lower_path, "ps2"@) && !contains(lower_path, "ps1"@) && !contains(lower_path, "psx"@) && !contains(lower_path, "psp"@) && !contains(lower_path, "playstation 3"@) && contains(lower_path, "playstation 2"@)
            ==> refined_platform(Platform::Other, lower_path, lower_name, ext, size) == Platform::Ps2,
        !contains(lower_path, "ps3"@) && !contains(lower_path, "ps2"@) && !contains(lower_path, "ps1"@) && !contains(lower_path, "psx"@) && !contains(lower_path, "psp"@) && !contains(lower_path, "playstation 3"@) && !contains(lower_path, "playstation 2"@) && contains(lower_path, "playstation 1"@)
            ==> refined_platform(Platform::Other, lower_path, lower_name, ext, size) == Platform::Ps1,
        !contains(lower_path, "ps3"@) && !contains(lower_path, "ps2"@) && !contains(lower_path, "ps1"@) && !contains(lower_path, "psx"@) && !contains(lower_path, "psp"@) && !contains(lower_path, "playstation 3"@) && !contains(lower_path, "playstation 2"@) && !contains(lower_path, "playstation 1"@) && contains(lower_path, "playstation"@)
            ==> refined_platform(Platform::Other, lower_path, lower_name, ext, size) == Platform::Ps1,
        !contains(lower_path, "ps3"@) && !contains(lower_path, "ps2"@) && !contains(lower_path, "ps1"@) && !contains(lower_path, "psx"@) && !contains(lower_path, "psp"@) && !contains(lower_path, "playstation 3"@) && !contains(lower_path, "playstation 2"@) && !contains(lower_path, "playstation 1"@) && !contains(lower_path, "playstation"@) && contains(lower_path, "dreamcast"@)
            ==> refined_platform(Platform::Other, lower_path, lower_name, ext, size) == Platform::Dreamcast,
        !contains(lower_path, "ps3"@) && !contains(lower_path, "ps2"@) && !contains(lower_path, "ps1"@) && !contains(lower_path, "psx"@) && !contains(lower_path, "psp"@) && !contains(lower_path, "playstation 3"@) && !contains(lower_path, "playstation 2"@) && !contains(lower_path, "playstation 1"@) && !contains(lower_path, "playstation"@) && !contains(lower_path, "dreamcast"@) && contains(lower_path, "saturn"@)
            ==> refined_platform(Platform::Other, lower_path, lower_name, ext, size) == Platform::Saturn,
        !contains(lower_path, "ps3"@) && !contains(lower_path, "ps2"@) && !contains(lower_path, "ps1"@) && !contains(lower_path, "psx"@) && !contains(lower_path, "psp"@) && !contains(lower_path, "playstation 3"@) && !contains(lower_path, "playstation 2"@) && !contains(lower_path, "playstation 1"@) && !contains(lower_path, "playstation"@) && !contains(lower_path, "dreamcast"@) && !contains(lower_path, "saturn"@) && contains(lower_path, "gamecube"@)
            ==> refined_platform(Platform::Other, lower_path, lower_name, ext, size) == Platform::GameCube,
        !contains(lower_path, "ps3"@) && !contains(lower_path, "ps2"@) && !contains(lower_path, "ps1"@) && !contains(lower_path, "psx"@) && !contains(lower_path, "psp"@) && !contains(lower_path, "playstation 3"@) && !contains(lower_path, "playstation 2"@) && !contains(lower_path, "playstation 1"@) && !contains(lower_path, "playstation"@) && !contains(lower_path, "dreamcast"@) && !contains(lower_path, "saturn"@) && !contains(lower_path, "gamecube"@) && contains(lower_path, "wii u"@)
            ==> refined_platform(Platform::Other, lower_path, lower_name, ext, size) == Platform::WiiU,
        !contains(lower_path, "ps3"@) && !contains(lower_path, "ps2"@) && !contains(lower_path, "ps1"@) && !contains(lower_path, "psx"@) && !contains(lower_path, "psp"@) && !contains(lower_path, "playstation 3"@) && !contains(lower_path, "playstation 2"@) && !contains(lower_path, "playstation 1"@) && !contains(lower_path, "playstation"@) && !contains(lower_path, "dreamcast"@) && !contains(lower_path, "saturn"@) && !contains(lower_path, "gamecube"@) && !contains(lower_path, "wii u"@) && contains(lower_path, "wii"@)
            ==> refined_platform(Platform::Other, lower_path, lower_name, ext, size) == Platform::Wii,
        !contains(lower_path, "ps3"@) && !contains(lower_path, "ps2"@) && !contains(lower_path, "ps1"@) && !contains(lower_path, "psx"@) && !contains(lower_path, "psp"@) && !contains(lower_path, "playstation 3"@) && !contains(lower_path, "playstation 2"@) && !contains(lower_path, "playstation 1"@) && !contains(lower_path, "playstation"@) && !contains(lower_path, "dreamcast"@) && !contains(lower_path, "saturn"@) && !contains(lower_path, "gamecube"@) && !contains(lower_path, "wii u"@) && !contains(lower_path, "wii"@) && contains(lower_path, "switch"@)
            ==> refined_platform(Platform::Other, lower_path, lower_name, ext, size) == Platform::Switch,
        !contains(lower_path, "ps3"@) && !contains(lower_path, "ps2"@) && !contains(lower_path, "ps1"@) && !contains(lower_path, "psx"@) && !contains(lower_path, "psp"@) && !contains(lower_path, "playstation 3"@) && !contains(lower_path, "playstation 2"@) && !contains(lower_path, "playstation 1"@) && !contains(lower_path, "playstation"@) && !contains(lower_path, "dreamcast"@) && !contains(lower_path, "saturn"@) && !contains(lower_path, "gamecube"@) && !contains(lower_path, "wii u"@) && !contains(lower_path, "wii"@) && !contains(lower_path, "switch"@) && contains(lower_path, "xbox"@)
            ==> refined_platform(Platform::Other, lower_path, lower_name, ext, size) == Platform::Pc,
        !contains(lower_path, "ps3"@) && !contains(lower_path, "ps2"@) && !contains(lower_path, "ps1"@) && !contains(lower_path, "psx"@) && !contains(lower_path, "psp"@) && !contains(lower_path, "playstation 3"@) && !contains(lower_path, "playstation 2"@) && !contains(lower_path, "playstation 1"@) && !contains(lower_path, "playstation"@) && !contains(lower_path, "dreamcast"@) && !contains(lower_path, "saturn"@) && !contains(lower_path, "gamecube"@) && !contains(lower_path, "wii u"@) && !contains(lower_path, "wii"@) && !contains(lower_path, "switch"@) && !contains(lower_path, "xbox"@) && contains(lower_path, "arcade"@)
            ==> refined_platform(Platform::Other, lower_path, lower_name, ext, size) == Platform::Arcade,
        !contains(lower_path, "ps3"@) && !contains(lower_path, "ps2"@) && !contains(lower_path, "ps1"@) && !contains(lower_path, "psx"@) && !contains(lower_path, "psp"@) && !contains(lower_path, "playstation 3"@) && !contains(lower_path, "playstation 2"@) && !contains(lower_path, "playstation 1"@) && !contains(lower_path, "playstation"@) && !contains(lower_path, "dreamcast"@) && !contains(lower_path, "saturn"@) && !contains(lower_path, "gamecube"@) && !contains(lower_path, "wii u"@) && !contains(lower_path, "wii"@) && !contains(lower_path, "switch"@) && !contains(lower_path, "xbox"@) && !contains(lower_path, "arcade"@) && contains(lower_path, "mame"@)
            ==> refined_platform(Platform::Other, lower_path, lower_name, ext, size) == Platform::Arcade,
{
    lemma_refine_laws(Platform::Other, lower_path, lower_name, ext, size);

    assert(folder_tokens()[0].0 == "ps3"@);
    assert(folder_tokens()[1].0 == "ps2"@);
    assert(folder_tokens()[2].0 == "ps1"@);
    assert(folder_tokens()[3].0 == "psx"@);
    assert(folder_tokens()[4].0 == "psp"@);
    assert(folder_tokens()[5].0 == "playstation 3"@);
    assert(folder_tokens()[6].0 == "playstation 2"@);
    assert(folder_tokens()[7].0 == "playstation 1"@);
    assert(folder_tokens()[8].0 == "playstation"@);
    assert(folder_tokens()[9].0 == "dreamcast"@);
    assert(folder_tokens()[10].0 == "saturn"@);
    assert(folder_tokens()[11].0 == "gamecube"@);
    assert(folder_tokens()[12].0 == "wii u"@);
    assert(folder_tokens()[13].0 == "wii"@);
    assert(folder_tokens()[14].0 == "switch"@);
    assert(folder_tokens()[15].0 == "xbox"@);
    assert(folder_tokens()[16].0 == "arcade"@);
    assert(folder_tokens()[17].0 == "mame"@);
}

/// The title pins, literally and in order (entries 0 to 9): with no
/// folder token in the path, the first of them found in the lower-cased
/// file name names the platform of an ambiguous file.
#[verifier::rlimit(50)]
pub proof fn lemma_title_pins_decide_0(lower_path: Seq<char>, lower_name: Seq<char>, ext: Option<Seq<char>>, size: u64)
    ensures
        !any_key_in(lower_path, folder_tokens()) && contains(lower_name, "tekken 5"@)
            ==> refined_platform(Platform::Other, lower_path, lower_name, ext, size) == Platform::Ps2,
        !any_key_in(lower_path, folder_tokens()) && !contains(lower_name, "tekken 5"@) && contains(lower_name, "tekken 6"@)
            ==> refined_platform(Platform::Other, lower_path, lower_name, ext, size) == Platform::Ps3,
        !any_key_in(lower_path, folder_tokens()) && !contains(lower_name, "tekken 5"@) && !contains(lower_name, "tekken 6"@) && contains(lower_name, "tekken 4"@)
            ==> refined_platform(Platform::Other, lower_path, lower_name, ext, size) == Platform::Ps2,
        !any_key_in(lower_path, folder_tokens()) && !contains(lower_name, "tekken 5"@) && !contains(lower_name, "tekken 6"@) && !contains(lower_name, "tekken 4"@) && contains(lower_name, "tekken tag"@)
            ==> refined_platform(Platform::Other, lower_path, lower_name, ext, size) == Platform::Ps2,
        !any_key_in(lower_path, folder_tokens()) && !contains(lower_name, "tekken 5"@) && !contains(lower_name, "tekken 6"@) && !contains(lower_name, "tekken 4"@) && !contains(lower_name, "tekken tag"@) && contains(lower_name, "god of war iii"@)
            ==> refined_platform(Platform::Other, lower_path, lower_name, ext, size) == Platform::Ps3,
        !any_key_in(lower_path, folder_tokens()) && !contains(lower_name, "tekken 5"@) && !contains(lower_name, "tekken 6"@) && !contains(lower_name, "tekken 4"@) && !contains(lower_name, "tekken tag"@) && !contains(lower_name, "god of war iii"@) && contains(lower_name, "god of war 3"@)
            ==> refined_platform(Platform::Other, lower_path, lower_name, ext, size) == Platform::Ps3,
        !any_key_in(lower_path, folder_tokens()) && !contains(lower_name, "tekken 5"@) && !contains(lower_name, "tekken 6"@) && !contains(lower_name, "tekken 4"@) && !contains(lower_name, "tekken tag"@) && !contains(lower_name, "god of war iii"@) && !contains(lower_name, "god of war 3"@) && contains(lower_name, "god of war ii"@)
            ==> refined_platform(Platform::Other, lower_path, lower_name, ext, size) == Platform::Ps2,
        !any_key_in(lower_path, folder_tokens()) && !contains(lower_name, "tekken 5"@) && !contains(lower_name, "tekken 6"@) && !contains(lower_name, "tekken 4"@) && !contains(lower_name, "tekken tag"@) && !contains(lower_name, "god of war iii"@) && !contains(lower_name, "god of war 3"@) && !contains(lower_name, "god of war ii"@) && contains(lower_name, "god of war 2"@)
            ==> refined_platform(Platform::Other, lower_path, lower_name, ext, size) == Platform::Ps2,
        !any_key_in(lower_path, folder_tokens()) && !contains(lower_name, "tekken 5"@) && !contains(lower_name, "tekken 6"@) && !contains(lower_name, "tekken 4"@) && !contains(lower_name, "tekken tag"@) && !contains(lower_name, "god of war iii"@) && !contains(lower_name, "god of war 3"@) && !contains(lower_name, "god of war ii"@) && !contains(lower_name, "god of war 2"@) && contains(lower_name, "god of war: chains of olympus"@)
            ==> refined_platform(Platform::Other, lower_path, lower_name, ext, size) == Platform::Psp,
        !any_key_in(lower_path, folder_tokens()) && !contains(lower_name, "tekken 5"@) && !contains(lower_name, "tekken 6"@) && !contains(lower_name, "tekken 4"@) && !contains(lower_name, "tekken tag"@) && !contains(lower_name, "god of war iii"@) && !contains(lower_name, "god of war 3"@) && !contains(lower_name, "god of war ii"@) && !contains(lower_name, "god of war 2"@) && !contains(lower_name, "god of war: chains of olympus"@) && contains(lower_name, "god of war: ghost of sparta"@)
            ==> refined_platform(Platform::Other, lower_path, lower_name, ext, size) == Platform::Psp,
{
    lemma_refine_laws(Platform::Other, lower_path, lower_name, ext, size);
    assert(title_pins()[0].0 == "tekken 5"@);
    assert(title_pins()[1].0 == "tekken 6"@);
    assert(title_pins()[2].0 == "tekken 4"@);
    assert(title_pins()[3].0 == "tekken tag"@);
    assert(title_pins()[4].0 == "god of war iii"@);
    assert(title_pins()[5].0 == "god of war 3"@);
    assert(title_pins()[6].0 == "god of war ii"@);
    assert(title_pins()[7].0 == "god of war 2"@);
    assert(title_pins()[8].0 == "god of war: chains of olympus"@);
    assert(title_pins()[9].0 == "god of war: ghost of sparta"@);
}

/// The title pins, literally and in order (entries 10 to 19): with no
/// folder token in the path, the first of them found in the lower-cased
/// file name names the platform of an ambiguous file.
#[verifier::rlimit(50)]
pub proof fn lemma_title_pins_decide_1(lower_path: Seq<char>, lower_name: Seq<char>, ext: Option<Seq<char>>, size: u64)
    ensures
        !any_key_in(lower_path, folder_tokens()) && !contains(lower_name, "tekken 5"@) && !contains(lower_name, "tekken 6"@) && !contains(lower_name, "tekken 4"@) && !contains(lower_name, "tekken tag"@) && !contains(lower_name, "god of war iii"@) && !contains(lower_name, "god of war 3"@) && !contains(lower_name, "god of war ii"@) && !contains(lower_name, "god of war 2"@) && !contains(lower_name, "god of war: chains of olympus"@) && !contains(lower_name, "god of war: ghost of sparta"@) && contains(lower_name, "god of war"@)
            ==> refined_platform(Platform::Other, lower_path, lower_name, ext, size) == Platform::Ps2,
        !any_key_in(lower_path, folder_tokens()) && !contains(lower_name, "tekken 5"@) && !contains(lower_name, "tekken 6"@) && !contains(lower_name, "tekken 4"@) && !contains(lower_name, "tekken tag"@) && !contains(lower_name, "god of war iii"@) && !contains(lower_name, "god of war 3"@) && !contains(lower_name, "god of war ii"@) && !contains(lower_name, "god of war 2"@) && !contains(lower_name, "god of war: chains of olympus"@) && !contains(lower_name, "god of war: ghost of sparta"@) && !contains(lower_name, "god of war"@) && contains(lower_name, "gta sa"@)
            ==> refined_platform(Platform::Other, lower_path, lower_name, ext, size) == Platform::Ps2,
        !any_key_in(lower_path, folder_tokens()) && !contains(lower_name, "tekken 5"@) && !contains(lower_name, "tekken 6"@) && !contains(lower_name, "tekken 4"@) && !contains(lower_name, "tekken tag"@) && !contains(lower_name, "god of war iii"@) && !contains(lower_name, "god of war 3"@) && !contains(lower_name, "god of war ii"@) && !contains(lower_name, "god of war 2"@) && !contains(lower_name, "god of war: chains of olympus"@) && !contains(lower_name, "god of war: ghost of sparta"@) && !contains(lower_name, "god of war"@) && !contains(lower_name, "gta sa"@) && contains(lower_name, "gta vc"@)
            ==> refined_platform(Platform::Other, lower_path, lower_name, ext, size) == Platform::Ps2,
        !any_key_in(lower_path, folder_tokens()) && !contains(lower_name, "tekken 5"@) && !contains(lower_name, "tekken 6"@) && !contains(lower_name, "tekken 4"@) && !contains(lower_name, "tekken tag"@) && !contains(lower_name, "god of war iii"@) && !contains(lower_name, "god of war 3"@) && !contains(lower_name, "god of war ii"@) && !contains(lower_name, "god of war 2"@) && !contains(lower_name, "god of war: chains of olympus"@) && !contains(lower_name, "god of war: ghost of sparta"@) && !contains(lower_name, "god of war"@) && !contains(lower_name, "gta sa"@) && !contains(lower_name, "gta vc"@) && contains(lower_name, "gta iii"@)
            ==> refined_platform(Platform::Other, lower_path, lower_name, ext, size) == Platform::Ps2,
        !any_key_in(lower_path, folder_tokens()) && !contains(lower_name, "tekken 5"@) && !contains(lower_name, "tekken 6"@) && !contains(lower_name, "tekken 4"@) && !contains(lower_name, "tekken tag"@) && !contains(lower_name, "god of war iii"@) && !contains(lower_name, "god of war 3"@) && !contains(lower_name, "god of war ii"@) && !contains(lower_name, "god of war 2"@) && !contains(lower_name, "god of war: chains of olympus"@) && !contains(lower_name, "god of war: ghost of sparta"@) && !contains(lower_name, "god of war"@) && !contains(lower_name, "gta sa"@) && !contains(lower_name, "gta vc"@) && !contains(lower_name, "gta iii"@) && contains(lower_name, "grand theft auto: san andreas"@)
            ==> refined_platform(Platform::Other, lower_path, lower_name, ext, size) == Platform::Ps2,
        !any_key_in(lower_path, folder_tokens()) && !contains(lower_name, "tekken 5"@) && !contains(lower_name, "tekken 6"@) && !contains(lower_name, "tekken 4"@) && !contains(lower_name, "tekken tag"@) && !contains(lower_name, "god of war iii"@) && !contains(lower_name, "god of war 3"@) && !contains(lower_name, "god of war ii"@) && !contains(lower_name, "god of war 2"@) && !contains(lower_name, "god of war: chains of olympus"@) && !contains(lower_name, "god of war: ghost of sparta"@) && !contains(lower_name, "god of war"@) && !contains(lower_name, "gta sa"@) && !contains(lower_name, "gta vc"@) && !contains(lower_name, "gta iii"@) && !contains(lower_name, "grand theft auto: san andreas"@) && contains(lower_name, "grand theft auto: vice city"@)
            ==> refined_platform(Platform::Other, lower_path, lower_name, ext, size) == Platform::Ps2,
        !any_key_in(lower_path, folder_tokens()) && !contains(lower_name, "tekken 5"@) && !contains(lower_name, "tekken 6"@) && !contains(lower_name, "tekken 4"@) && !contains(lower_name, "tekken tag"@) && !contains(lower_name, "god of war iii"@) && !contains(lower_name, "god of war 3"@) && !contains(lower_name, "god of war ii"@) && !contains(lower_name, "god of war 2"@) && !contains(lower_name, "god of war: chains of olympus"@) && !contains(lower_name, "god of war: ghost of sparta"@) && !contains(lower_name, "god of war"@) && !contains(lower_name, "gta sa"@) && !contains(lower_name, "gta vc"@) && !contains(lower_name, "gta iii"@) && !contains(lower_name, "grand theft auto: san andreas"@) && !contains(lower_name, "grand theft auto: vice city"@) && contains(lower_name, "grand theft auto iii"@)
            ==> refined_platform(Platform::Other, lower_path, lower_name, ext, size) == Platform::Ps2,
        !any_key_in(lower_path, folder_tokens()) && !contains(lower_name, "tekken 5"@) && !contains(lower_name, "tekken 6"@) && !contains(lower_name, "tekken 4"@) && !contains(lower_name, "tekken tag"@) && !contains(lower_name, "god of war iii"@) && !contains(lower_name, "god of war 3"@) && !contains(lower_name, "god of war ii"@) && !contains(lower_name, "god of war 2"@) && !contains(lower_name, "god of war: chains of olympus"@) && !contains(lower_name, "god of war: ghost of sparta"@) && !contains(lower_name, "god of war"@) && !contains(lower_name, "gta sa"@) && !contains(lower_name, "gta vc"@) && !contains(lower_name, "gta iii"@) && !contains(lower_name, "grand theft auto: san andreas"@) && !contains(lower_name, "grand theft auto: vice city"@) && !contains(lower_name, "grand theft auto iii"@) && contains(lower_name, "grand theft auto: liberty city stories"@)
            ==> refined_platform(Platform::Other, lower_path, lower_name, ext, size) == Platform::Psp,
        !any_key_in(lower_path, folder_tokens()) && !contains(lower_name, "tekken 5"@) && !contains(lower_name, "tekken 6"@) && !contains(lower_name, "tekken 4"@) && !contains(lower_name, "tekken tag"@) && !contains(lower_name, "god of war iii"@) && !contains(lower_name, "god of war 3"@) && !contains(lower_name, "god of war ii"@) && !contains(lower_name, "god of war 2"@) && !contains(lower_name, "god of war: chains of olympus"@) && !contains(lower_name, "god of war: ghost of sparta"@) && !contains(lower_name, "god of war"@) && !contains(lower_name, "gta sa"@) && !contains(lower_name, "gta vc"@) && !contains(lower_name, "gta iii"@) && !contains(lower_name, "grand theft auto: san andreas"@) && !contains(lower_name, "grand theft auto: vice city"@) && !contains(lower_name, "grand theft auto iii"@) && !contains(lower_name, "grand theft auto: liberty city stories"@) && contains(lower_name, "grand theft auto: vice city stories"@)
            ==> refined_platform(Platform::Other, lower_path, lower_name, ext, size) == Platform::Psp,
        !any_key_in(lower_path, folder_tokens()) && !contains(lower_name, "tekken 5"@) && !contains(lower_name, "tekken 6"@) && !contains(lower_name, "tekken 4"@) && !contains(lower_name, "tekken tag"@) && !contains(lower_name, "god of war iii"@) && !contains(lower_name, "god of war 3"@) && !contains(lower_name, "god of war ii"@) && !contains(lower_name, "god of war 2"@) && !contains(lower_name, "god of war: chains of olympus"@) && !contains(lower_name, "god of war: ghost of sparta"@) && !contains(lower_name, "god of war"@) && !contains(lower_name, "gta sa"@) && !contains(lower_name, "gta vc"@) && !contains(lower_name, "gta iii"@) && !contains(lower_name, "grand theft auto: san andreas"@) && !contains(lower_name, "grand theft auto: vice city"@) && !contains(lower_name, "grand theft auto iii"@) && !contains(lower_name, "grand theft auto: liberty city stories"@) && !contains(lower_name, "grand theft auto: vice city stories"@) && contains(lower_name, "final fantasy x"@)
            ==> refined_platform(Platform::Other, lower_path, lower_name, ext, size) == Platform::Ps2,
{
    lemma_refine_laws(Platform::Other, lower_path, lower_name, ext, size);
    assert(title_pins()[0].0 == "tekken 5"@);
    assert(title_pins()[1].0 == "tekken 6"@);
    assert(title_pins()[2].0 == "tekken 4"@);
    assert(title_pins()[3].0 == "tekken tag"@);
    assert(title_pins()[4].0 == "god of war iii"@);
    assert(title_pins()[5].0 == "god of war 3"@);
    assert(title_pins()[6].0 == "god of war ii"@);
    assert(title_pins()[7].0 == "god of war 2"@);
    assert(title_pins()[8].0 == "god of war: chains of olympus"@);
    assert(title_pins()[9].0 == "god of war: ghost of sparta"@);
    assert(title_pins()[10].0 == "god of war"@);
    assert(title_pins()[11].0 == "gta sa"@);
    assert(title_pins()[12].0 == "gta vc"@);
    assert(title_pins()[13].0 == "gta iii"@);
    assert(title_pins()[14].0 == "grand theft auto: san andreas"@);
    assert(title_pins()[15].0 == "grand theft auto: vice city"@);
    assert(title_pins()[16].0 == "grand theft auto iii"@);
    assert(title_pins()[17].0 == "grand theft auto: liberty city stories"@);
    assert(title_pins()[18].0 == "grand theft auto: vice city stories"@);
    assert(title_pins()[19].0 == "final fantasy x"@);
}

/// The title pins, literally and in order (entries 20 to 29): with no
/// folder token in the path, the first of them found in the lower-cased
/// file name names the platform of an ambiguous file.
#[verifier::rlimit(50)]
pub proof fn lemma_title_pins_decide_2(lower_path: Seq<char>, lower_name: Seq<char>, ext: Option<Seq<char>>, size: u64)
    ensures
        !any_key_in(lower_path, folder_tokens()) && !contains(lower_name, "tekken 5"@) && !contains(lower_name, "tekken 6"@) && !contains(lower_name, "tekken 4"@) && !contains(lower_name, "tekken tag"@) && !contains(lower_name, "god of war iii"@) && !contains(lower_name, "god of war 3"@) && !contains(lower_name, "god of war ii"@) && !contains(lower_name, "god of war 2"@) && !contains(lower_name, "god of war: chains of olympus"@) && !contains(lower_name, "god of war: ghost of sparta"@) && !contains(lower_name, "god of war"@) && !contains(lower_name, "gta sa"@) && !contains(lower_name, "gta vc"@) && !contains(lower_name, "gta iii"@) && !contains(lower_name, "grand theft auto: san andreas"@) && !contains(lower_name, "grand theft auto: vice city"@) && !contains(lower_name, "grand theft auto iii"@) && !contains(lower_name, "grand theft auto: liberty city stories"@) && !contains(lower_name, "grand theft auto: vice city stories"@) && !contains(lower_name, "final fantasy x"@) && contains(lower_name, "final fantasy xii"@)
            ==> refined_platform(Platform::Other, lower_path, lower_name, ext, size) == Platform::Ps2,
        !any_key_in(lower_path, folder_tokens()) && !contains(lower_name, "tekken 5"@) && !contains(lower_name, "tekken 6"@) && !contains(lower_name, "tekken 4"@) && !contains(lower_name, "tekken tag"@) && !contains(lower_name, "god of war iii"@) && !contains(lower_name, "god of war 3"@) && !contains(lower_name, "god of war ii"@) && !contains(lower_name, "god of war 2"@) && !contains(lower_name, "god of war: chains of olympus"@) && !contains(lower_name, "god of war: ghost of sparta"@) && !contains(lower_name, "god of war"@) && !contains(lower_name, "gta sa"@) && !contains(lower_name, "gta vc"@) && !contains(lower_name, "gta iii"@) && !contains(lower_name, "grand theft auto: san andreas"@) && !contains(lower_name, "grand theft auto: vice city"@) && !contains(lower_name, "grand theft auto iii"@) && !contains(lower_name, "grand theft auto: liberty city stories"@) && !contains(lower_name, "grand theft auto: vice city stories"@) && !contains(lower_name, "final fantasy x"@) && !contains(lower_name, "final fantasy xii"@) && contains(lower_name, "metal gear solid 2"@)
            ==> refined_platform(Platform::Other, lower_path, lower_name, ext, size) == Platform::Ps2,
        !any_key_in(lower_path, folder_tokens()) && !contains(lower_name, "tekken 5"@) && !contains(lower_name, "tekken 6"@) && !contains(lower_name, "tekken 4"@) && !contains(lower_name, "tekken tag"@) && !contains(lower_name, "god of war iii"@) && !contains(lower_name, "god of war 3"@) && !contains(lower_name, "god of war ii"@) && !contains(lower_name, "god of war 2"@) && !contains(lower_name, "god of war: chains of olympus"@) && !contains(lower_name, "god of war: ghost of sparta"@) && !contains(lower_name, "god of war"@) && !contains(lower_name, "gta sa"@) && !contains(lower_name, "gta vc"@) && !contains(lower_name, "gta iii"@) && !contains(lower_name, "grand theft auto: san andreas"@) && !contains(lower_name, "grand theft auto: vice city"@) && !contains(lower_name, "grand theft auto iii"@) && !contains(lower_name, "grand theft auto: liberty city stories"@) && !contains(lower_name, "grand theft auto: vice city stories"@) && !contains(lower_name, "final fantasy x"@) && !contains(lower_name, "final fantasy xii"@) && !contains(lower_name, "metal gear solid 2"@) && contains(lower_name, "metal gear solid 3"@)
            ==> refined_platform(Platform::Other, lower_path, lower_name, ext, size) == Platform::Ps2,
        !any_key_in(lower_path, folder_tokens()) && !contains(lower_name, "tekken 5"@) && !contains(lower_name, "tekken 6"@) && !contains(lower_name, "tekken 4"@) && !contains(lower_name, "tekken tag"@) && !contains(lower_name, "god of war iii"@) && !contains(lower_name, "god of war 3"@) && !contains(lower_name, "god of war ii"@) && !contains(lower_name, "god of war 2"@) && !contains(lower_name, "god of war: chains of olympus"@) && !contains(lower_name, "god of war: ghost of sparta"@) && !contains(lower_name, "god of war"@) && !contains(lower_name, "gta sa"@) && !contains(lower_name, "gta vc"@) && !contains(lower_name, "gta iii"@) && !contains(lower_name, "grand theft auto: san andreas"@) && !contains(lower_name, "grand theft auto: vice city"@) && !contains(lower_name, "grand theft auto iii"@) && !contains(lower_name, "grand theft auto: liberty city stories"@) && !contains(lower_name, "grand theft auto: vice city stories"@) && !contains(lower_name, "final fantasy x"@) && !contains(lower_name, "final fantasy xii"@) && !contains(lower_name, "metal gear solid 2"@) && !contains(lower_name, "metal gear solid 3"@) && contains(lower_name, "metal gear solid 4"@)
            ==> refined_platform(Platform::Other, lower_path, lower_name, ext, size) == Platform::Ps3,
        !any_key_in(lower_path, folder_tokens()) && !contains(lower_name, "tekken 5"@) && !contains(lower_name, "tekken 6"@) && !contains(lower_name, "tekken 4"@) && !contains(lower_name, "tekken tag"@) && !contains(lower_name, "god of war iii"@) && !contains(lower_name, "god of war 3"@) && !contains(lower_name, "god of war ii"@) && !contains(lower_name, "god of war 2"@) && !contains(lower_name, "god of war: chains of olympus"@) && !contains(lower_name, "god of war: ghost of sparta"@) && !contains(lower_name, "god of war"@) && !contains(lower_name, "gta sa"@) && !contains(lower_name, "gta vc"@) && !contains(lower_name, "gta iii"@) && !contains(lower_name, "grand theft auto: san andreas"@) && !contains(lower_name, "grand theft auto: vice city"@) && !contains(lower_name, "grand theft auto iii"@) && !contains(lower_name, "grand theft auto: liberty city stories"@) && !contains(lower_name, "grand theft auto: vice city stories"@) && !contains(lower_name, "final fantasy x"@) && !contains(lower_name, "final fantasy xii"@) && !contains(lower_name, "metal gear solid 2"@) && !contains(lower_name, "metal gear solid 3"@) && !contains(lower_name, "metal gear solid 4"@) && contains(lower_name, "metal gear solid: peace walker"@)
            ==> refined_platform(Platform::Other, lower_path, lower_name, ext, size) == Platform::Psp,
        !any_key_in(lower_path, folder_tokens()) && !contains(lower_name, "tekken 5"@) && !contains(lower_name, "tekken 6"@) && !contains(lower_name, "tekken 4"@) && !contains(lower_name, "tekken tag"@) && !contains(lower_name, "god of war iii"@) && !contains(lower_name, "god of war 3"@) && !contains(lower_name, "god of war ii"@) && !contains(lower_name, "god of war 2"@) && !contains(lower_name, "god of war: chains of olympus"@) && !contains(lower_name, "god of war: ghost of sparta"@) && !contains(lower_name, "god of war"@) && !contains(lower_name, "gta sa"@) && !contains(lower_name, "gta vc"@) && !contains(lower_name, "gta iii"@) && !contains(lower_name, "grand theft auto: san andreas"@) && !contains(lower_name, "grand theft auto: vice city"@) && !contains(lower_name, "grand theft auto iii"@) && !contains(lower_name, "grand theft auto: liberty city stories"@) && !contains(lower_name, "grand theft auto: vice city stories"@) && !contains(lower_name, "final fantasy x"@) && !contains(lower_name, "final fantasy xii"@) && !contains(lower_name, "metal gear solid 2"@) && !contains(lower_name, "metal gear solid 3"@) && !contains(lower_name, "metal gear solid 4"@) && !contains(lower_name, "metal gear solid: peace walker"@) && contains(lower_name, "resident evil 4"@)
            ==> refined_platform(Platform::Other, lower_path, lower_name, ext, size) == Platform::Ps2,
        !any_key_in(lower_path, folder_tokens()) && !contains(lower_name, "tekken 5"@) && !contains(lower_name, "tekken 6"@) && !contains(lower_name, "tekken 4"@) && !contains(lower_name, "tekken tag"@) && !contains(lower_name, "god of war iii"@) && !contains(lower_name, "god of war 3"@) && !contains(lower_name, "god of war ii"@) && !contains(lower_name, "god of war 2"@) && !contains(lower_name, "god of war: chains of olympus"@) && !contains(lower_name, "god of war: ghost of sparta"@) && !contains(lower_name, "god of war"@) && !contains(lower_name, "gta sa"@) && !contains(lower_name, "gta vc"@) && !contains(lower_name, "gta iii"@) && !contains(lower_name, "grand theft auto: san andreas"@) && !contains(lower_name, "grand theft auto: vice city"@) && !contains(lower_name, "grand theft auto iii"@) && !contains(lower_name, "grand theft auto: liberty city stories"@) && !contains(lower_name, "grand theft auto: vice city stories"@) && !contains(lower_name, "final fantasy x"@) && !contains(lower_name, "final fantasy xii"@) && !contains(lower_name, "metal gear solid 2"@) && !contains(lower_name, "metal gear solid 3"@) && !contains(lower_name, "metal gear solid 4"@) && !contains(lower_name, "metal gear solid: peace walker"@) && !contains(lower_name, "resident evil 4"@) && contains(lower_name, "resident evil 5"@)
            ==> refined_platform(Platform::Other, lower_path, lower_name, ext, size) == Platform::Ps3,
        !any_key_in(lower_path, folder_tokens()) && !contains(lower_name, "tekken 5"@) && !contains(lower_name, "tekken 6"@) && !contains(lower_name, "tekken 4"@) && !contains(lower_name, "tekken tag"@) && !contains(lower_name, "god of war iii"@) && !contains(lower_name, "god of war 3"@) && !contains(lower_name, "god of war ii"@) && !contains(lower_name, "god of war 2"@) && !contains(lower_name, "god of war: chains of olympus"@) && !contains(lower_name, "god of war: ghost of sparta"@) && !contains(lower_name, "god of war"@) && !contains(lower_name, "gta sa"@) && !contains(lower_name, "gta vc"@) && !contains(lower_name, "gta iii"@) && !contains(lower_name, "grand theft auto: san andreas"@) && !contains(lower_name, "grand theft auto: vice city"@) && !contains(lower_name, "grand theft auto iii"@) && !contains(lower_name, "grand theft auto: liberty city stories"@) && !contains(lower_name, "grand theft auto: vice city stories"@) && !contains(lower_name, "final fantasy x"@) && !contains(lower_name, "final fantasy xii"@) && !contains(lower_name, "metal gear solid 2"@) && !contains(lower_name, "metal gear solid 3"@) && !contains(lower_name, "metal gear solid 4"@) && !contains(lower_name, "metal gear solid: peace walker"@) && !contains(lower_name, "resident evil 4"@) && !contains(lower_name, "resident evil 5"@) && contains(lower_name, "crash twinsanity"@)
            ==> refined_platform(Platform::Other, lower_path, lower_name, ext, size) == Platform::Ps2,
        !any_key_in(lower_path, folder_tokens()) && !contains(lower_name, "tekken 5"@) && !contains(lower_name, "tekken 6"@) && !contains(lower_name, "tekken 4"@) && !contains(lower_name, "tekken tag"@) && !contains(lower_name, "god of war iii"@) && !contains(lower_name, "god of war 3"@) && !contains(lower_name, "god of war ii"@) && !contains(lower_name, "god of war 2"@) && !contains(lower_name, "god of war: chains of olympus"@) && !contains(lower_name, "god of war: ghost of sparta"@) && !contains(lower_name, "god of war"@) && !contains(lower_name, "gta sa"@) && !contains(lower_name, "gta vc"@) && !contains(lower_name, "gta iii"@) && !contains(lower_name, "grand theft auto: san andreas"@) && !contains(lower_name, "grand theft auto: vice city"@) && !contains(lower_name, "grand theft auto iii"@) && !contains(lower_name, "grand theft auto: liberty city stories"@) && !contains(lower_name, "grand theft auto: vice city stories"@) && !contains(lower_name, "final fantasy x"@) && !contains(lower_name, "final fantasy xii"@) && !contains(lower_name, "metal gear solid 2"@) && !contains(lower_name, "metal gear solid 3"@) && !contains(lower_name, "metal gear solid 4"@) && !contains(lower_name, "metal gear solid: peace walker"@) && !contains(lower_name, "resident evil 4"@) && !contains(lower_name, "resident evil 5"@) && !contains(lower_name, "crash twinsanity"@) && contains(lower_name, "spyro: enter"@)
            ==> refined_platform(Platform::Other, lower_path, lower_name, ext, size) == Platform::Ps2,
        !any_key_in(lower_path, folder_tokens()) && !contains(lower_name, "tekken 5"@) && !contains(lower_name, "tekken 6"@) && !contains(lower_name, "tekken 4"@) && !contains(lower_name, "tekken tag"@) && !contains(lower_name, "god of war iii"@) && !contains(lower_name, "god of war 3"@) && !contains(lower_name, "god of war ii"@) && !contains(lower_name, "god of war 2"@) && !contains(lower_name, "god of war: chains of olympus"@) && !contains(lower_name, "god of war: ghost of sparta"@) && !contains(lower_name, "god of war"@) && !contains(lower_name, "gta sa"@) && !contains(lower_name, "gta vc"@) && !contains(lower_name, "gta iii"@) && !contains(lower_name, "grand theft auto: san andreas"@) && !contains(lower_name, "grand theft auto: vice city"@) && !contains(lower_name, "grand theft auto iii"@) && !contains(lower_name, "grand theft auto: liberty city stories"@) && !contains(lower_name, "grand theft auto: vice city stories"@) && !contains(lower_name, "final fantasy x"@) && !contains(lower_name, "final fantasy xii"@) && !contains(lower_name, "metal gear solid 2"@) && !contains(lower_name, "metal gear solid 3"@) && !contains(lower_name, "metal gear solid 4"@) && !contains(lower_name, "metal gear solid: peace walker"@) && !contains(lower_name, "resident evil 4"@) && !contains(lower_name, "resident evil 5"@) && !contains(lower_name, "crash twinsanity"@) && !contains(lower_name, "spyro: enter"@) && contains(lower_name, "twisted metal 2012"@)
            ==> refined_platform(Platform::Other, lower_path, lower_name, ext, size) == Platform::Ps3,
{
    lemma_refine_laws(Platform::Other, lower_path, lower_name, ext, size);
    assert(title_pins()[0].0 == "tekken 5"@);
    assert(title_pins()[1].0 == "tekken 6"@);
    assert(title_pins()[2].0 == "tekken 4"@);
    assert(title_pins()[3].0 == "tekken tag"@);
    assert(title_pins()[4].0 == "god of war iii"@);
    assert(title_pins()[5].0 == "god of war 3"@);
    assert(title_pins()[6].0 == "god of war ii"@);
    assert(title_pins()[7].0 == "god of war 2"@);
    assert(title_pins()[8].0 == "god of war: chains of olympus"@);
    assert(title_pins()[9].0 == "god of war: ghost of sparta"@);
    assert(title_pins()[10].0 == "god of war"@);
    assert(title_pins()[11].0 == "gta sa"@);
    assert(title_pins()[12].0 == "gta vc"@);
    assert(title_pins()[13].0 == "gta iii"@);
    assert(title_pins()[14].0 == "grand theft auto: san andreas"@);
    assert(title_pins()[15].0 == "grand theft auto: vice city"@);
    assert(title_pins()[16].0 == "grand theft auto iii"@);
    assert(title_pins()[17].0 == "grand theft auto: liberty city stories"@);
    assert(title_pins()[18].0 == "grand theft auto: vice city stories"@);
    assert(title_pins()[19].0 == "final fantasy x"@);
    assert(title_pins()[20].0 == "final fantasy xii"@);
    assert(title_pins()[21].0 == "metal gear solid 2"@);
    assert(title_pins()[22].0 == "metal gear solid 3"@);
    assert(title_pins()[23].0 == "metal gear solid 4"@);
    assert(title_pins()[24].0 == "metal gear solid: peace walker"@);
    assert(title_pins()[25].0 == "resident evil 4"@);
    assert(title_pins()[26].0 == "resident evil 5"@);
    assert(title_pins()[27].0 == "crash twinsanity"@);
    assert(title_pins()[28].0 == "spyro: enter"@);
    assert(title_pins()[29].0 == "twisted metal 2012"@);
}

/// The title pins, literally and in order (entries 30 to 37): with no
/// folder token in the path, the first of them found in the lower-cased
/// file name names the platform of an ambiguous file.
#[verifier::rlimit(50)]
pub proof fn lemma_title_pins_decide_3(lower_path: Seq<char>, lower_name: Seq<char>, ext: Option<Seq<char>>, size: u64)
    ensures
        !any_key_in(lower_path, folder_tokens()) && !contains(lower_name, "tekken 5"@) && !contains(lower_name, "tekken 6"@) && !contains(lower_name, "tekken 4"@) && !contains(lower_name, "tekken tag"@) && !contains(lower_name, "god of war iii"@) && !contains(lower_name, "god of war 3"@) && !contains(lower_name, "god of war ii"@) && !contains(lower_name, "god of war 2"@) && !contains(lower_name, "god of war: chains of olympus"@) && !contains(lower_name, "god of war: ghost of sparta"@) && !contains(lower_name, "god of war"@) && !contains(lower_name, "gta sa"@) && !contains(lower_name, "gta vc"@) && !contains(lower_name, "gta iii"@) && !contains(lower_name, "grand theft auto: san andreas"@) && !contains(lower_name, "grand theft auto: vice city"@) && !contains(lower_name, "grand theft auto iii"@) && !contains(lower_name, "grand theft auto: liberty city stories"@) && !contains(lower_name, "grand theft auto: vice city stories"@) && !contains(lower_name, "final fantasy x"@) && !contains(lower_name, "final fantasy xii"@) && !contains(lower_name, "metal gear solid 2"@) && !contains(lower_name, "metal gear solid 3"@) && !contains(lower_name, "metal gear solid 4"@) && !contains(lower_name, "metal gear solid: peace walker"@) && !contains(lower_name, "resident evil 4"@) && !contains(lower_name, "resident evil 5"@) && !contains(lower_name, "crash twinsanity"@) && !contains(lower_name, "spyro: enter"@) && !contains(lower_name, "twisted metal 2012"@) && contains(lower_name, "twisted metal black"@)
            ==> refined_platform(Platform::Other, lower_path, lower_name, ext, size) == Platform::Ps2,
        !any_key_in(lower_path, folder_tokens()) && !contains(lower_name, "tekken 5"@) && !contains(lower_name, "tekken 6"@) && !contains(lower_name, "tekken 4"@) && !contains(lower_name, "tekken tag"@) && !contains(lower_name, "god of war iii"@) && !contains(lower_name, "god of war 3"@) && !contains(lower_name, "god of war ii"@) && !contains(lower_name, "god of war 2"@) && !contains(lower_name, "god of war: chains of olympus"@) && !contains(lower_name, "god of war: ghost of sparta"@) && !contains(lower_name, "god of war"@) && !contains(lower_name, "gta sa"@) && !contains(lower_name, "gta vc"@) && !contains(lower_name, "gta iii"@) && !contains(lower_name, "grand theft auto: san andreas"@) && !contains(lower_name, "grand theft auto: vice city"@) && !contains(lower_name, "grand theft auto iii"@) && !contains(lower_name, "grand theft auto: liberty city stories"@) && !contains(lower_name, "grand theft auto: vice city stories"@) && !contains(lower_name, "final fantasy x"@) && !contains(lower_name, "final fantasy xii"@) && !contains(lower_name, "metal gear solid 2"@) && !contains(lower_name, "metal gear solid 3"@) && !contains(lower_name, "metal gear solid 4"@) && !contains(lower_name, "metal gear solid: peace walker"@) && !contains(lower_name, "resident evil 4"@) && !contains(lower_name, "resident evil 5"@) && !contains(lower_name, "crash twinsanity"@) && !contains(lower_name, "spyro: enter"@) && !contains(lower_name, "twisted metal 2012"@) && !contains(lower_name, "twisted metal black"@) && contains(lower_name, "twisted metal head on"@)
            ==> refined_platform(Platform::Other, lower_path, lower_name, ext, size) == Platform::Psp,
        !any_key_in(lower_path, folder_tokens()) && !contains(lower_name, "tekken 5"@) && !contains(lower_name, "tekken 6"@) && !contains(lower_name, "tekken 4"@) && !contains(lower_name, "tekken tag"@) && !contains(lower_name, "god of war iii"@) && !contains(lower_name, "god of war 3"@) && !contains(lower_name, "god of war ii"@) && !contains(lower_name, "god of war 2"@) && !contains(lower_name, "god of war: chains of olympus"@) && !contains(lower_name, "god of war: ghost of sparta"@) && !contains(lower_name, "god of war"@) && !contains(lower_name, "gta sa"@) && !contains(lower_name, "gta vc"@) && !contains(lower_name, "gta iii"@) && !contains(lower_name, "grand theft auto: san andreas"@) && !contains(lower_name, "grand theft auto: vice city"@) && !contains(lower_name, "grand theft auto iii"@) && !contains(lower_name, "grand theft auto: liberty city stories"@) && !contains(lower_name, "grand theft auto: vice city stories"@) && !contains(lower_name, "final fantasy x"@) && !contains(lower_name, "final fantasy xii"@) && !contains(lower_name, "metal gear solid 2"@) && !contains(lower_name, "metal gear solid 3"@) && !contains(lower_name, "metal gear solid 4"@) && !contains(lower_name, "metal gear solid: peace walker"@) && !contains(lower_name, "resident evil 4"@) && !contains(lower_name, "resident evil 5"@) && !contains(lower_name, "crash twinsanity"@) && !contains(lower_name, "spyro: enter"@) && !contains(lower_name, "twisted metal 2012"@) && !contains(lower_name, "twisted metal black"@) && !contains(lower_name, "twisted metal head on"@) && contains(lower_name, "twisted metal 1"@)
            ==> refined_platform(Platform::Other, lower_path, lower_name, ext, size) == Platform::Ps1,
        !any_key_in(lower_path, folder_tokens()) && !contains(lower_name, "tekken 5"@) && !contains(lower_name, "tekken 6"@) && !contains(lower_name, "tekken 4"@) && !contains(lower_name, "tekken tag"@) && !contains(lower_name, "god of war iii"@) && !contains(lower_name, "god of war 3"@) && !contains(lower_name, "god of war ii"@) && !contains(lower_name, "god of war 2"@) && !contains(lower_name, "god of war: chains of olympus"@) && !contains(lower_name, "god of war: ghost of sparta"@) && !contains(lower_name, "god of war"@) && !contains(lower_name, "gta sa"@) && !contains(lower_name, "gta vc"@) && !contains(lower_name, "gta iii"@) && !contains(lower_name, "grand theft auto: san andreas"@) && !contains(lower_name, "grand theft auto: vice city"@) && !contains(lower_name, "grand theft auto iii"@) && !contains(lower_name, "grand theft auto: liberty city stories"@) && !contains(lower_name, "grand theft auto: vice city stories"@) && !contains(lower_name, "final fantasy x"@) && !contains(lower_name, "final fantasy xii"@) && !contains(lower_name, "metal gear solid 2"@) && !contains(lower_name, "metal gear solid 3"@) && !contains(lower_name, "metal gear solid 4"@) && !contains(lower_name, "metal gear solid: peace walker"@) && !contains(lower_name, "resident evil 4"@) && !contains(lower_name, "resident evil 5"@) && !contains(lower_name, "crash twinsanity"@) && !contains(lower_name, "spyro: enter"@) && !contains(lower_name, "twisted metal 2012"@) && !contains(lower_name, "twisted metal black"@) && !contains(lower_name, "twisted metal head on"@) && !contains(lower_name, "twisted metal 1"@) && contains(lower_name, "twisted metal 2"@)
            ==> refined_platform(Platform::Other, lower_path, lower_name, ext, size) == Platform::Ps1,
        !any_key_in(lower_path, folder_tokens()) && !contains(lower_name, "tekken 5"@) && !contains(lower_name, "tekken 6"@) && !contains(lower_name, "tekken 4"@) && !contains(lower_name, "tekken tag"@) && !contains(lower_name, "god of war iii"@) && !contains(lower_name, "god of war 3"@) && !contains(lower_name, "god of war ii"@) && !contains(lower_name, "god of war 2"@) && !contains(lower_name, "god of war: chains of olympus"@) && !contains(lower_name, "god of war: ghost of sparta"@) && !contains(lower_name, "god of war"@) && !contains(lower_name, "gta sa"@) && !contains(lower_name, "gta vc"@) && !contains(lower_name, "gta iii"@) && !contains(lower_name, "grand theft auto: san andreas"@) && !contains(lower_name, "grand theft auto: vice city"@) && !contains(lower_name, "grand theft auto iii"@) && !contains(lower_name, "grand theft auto: liberty city stories"@) && !contains(lower_name, "grand theft auto: vice city stories"@) && !contains(lower_name, "final fantasy x"@) && !contains(lower_name, "final fantasy xii"@) && !contains(lower_name, "metal gear solid 2"@) && !contains(lower_name, "metal gear solid 3"@) && !contains(lower_name, "metal gear solid 4"@) && !contains(lower_name, "metal gear solid: peace walker"@) && !contains(lower_name, "resident evil 4"@) && !contains(lower_name, "resident evil 5"@) && !contains(lower_name, "crash twinsanity"@) && !contains(lower_name, "spyro: enter"@) && !contains(lower_name, "twisted metal 2012"@) && !contains(lower_name, "twisted metal black"@) && !contains(lower_name, "twisted metal head on"@) && !contains(lower_name, "twisted metal 1"@) && !contains(lower_name, "twisted metal 2"@) && contains(lower_name, "twisted metal 3"@)
            ==> refined_platform(Platform::Other, lower_path, lower_name, ext, size) == Platform::Ps1,
        !any_key_in(lower_path, folder_tokens()) && !contains(lower_name, "tekken 5"@) && !contains(lower_name, "tekken 6"@) && !contains(lower_name, "tekken 4"@) && !contains(lower_name, "tekken tag"@) && !contains(lower_name, "god of war iii"@) && !contains(lower_name, "god of war 3"@) && !contains(lower_name, "god of war ii"@) && !contains(lower_name, "god of war 2"@) && !contains(lower_name, "god of war: chains of olympus"@) && !contains(lower_name, "god of war: ghost of sparta"@) && !contains(lower_name, "god of war"@) && !contains(lower_name, "gta sa"@) && !contains(lower_name, "gta vc"@) && !contains(lower_name, "gta iii"@) && !contains(lower_name, "grand theft auto: san andreas"@) && !contains(lower_name, "grand theft auto: vice city"@) && !contains(lower_name, "grand theft auto iii"@) && !contains(lower_name, "grand theft auto: liberty city stories"@) && !contains(lower_name, "grand theft auto: vice city stories"@) && !contains(lower_name, "final fantasy x"@) && !contains(lower_name, "final fantasy xii"@) && !contains(lower_name, "metal gear solid 2"@) && !contains(lower_name, "metal gear solid 3"@) && !contains(lower_name, "metal gear solid 4"@) && !contains(lower_name, "metal gear solid: peace walker"@) && !contains(lower_name, "resident evil 4"@) && !contains(lower_name, "resident evil 5"@) && !contains(lower_name, "crash twinsanity"@) && !contains(lower_name, "spyro: enter"@) && !contains(lower_name, "twisted metal 2012"@) && !contains(lower_name, "twisted metal black"@) && !contains(lower_name, "twisted metal head on"@) && !contains(lower_name, "twisted metal 1"@) && !contains(lower_name, "twisted metal 2"@) && !contains(lower_name, "twisted metal 3"@) && contains(lower_name, "twisted metal 4"@)
            ==> refined_platform(Platform::Other, lower_path, lower_name, ext, size) == Platform::Ps1,
        !any_key_in(lower_path, folder_tokens()) && !contains(lower_name, "tekken 5"@) && !contains(lower_name, "tekken 6"@) && !contains(lower_name, "tekken 4"@) && !contains(lower_name, "tekken tag"@) && !contains(lower_name, "god of war iii"@) && !contains(lower_name, "god of war 3"@) && !contains(lower_name, "god of war ii"@) && !contains(lower_name, "god of war 2"@) && !contains(lower_name, "god of war: chains of olympus"@) && !contains(lower_name, "god of war: ghost of sparta"@) && !contains(lower_name, "god of war"@) && !contains(lower_name, "gta sa"@) && !contains(lower_name, "gta vc"@) && !contains(lower_name, "gta iii"@) && !contains(lower_name, "grand theft auto: san andreas"@) && !contains(lower_name, "grand theft auto: vice city"@) && !contains(lower_name, "grand theft auto iii"@) && !contains(lower_name, "grand theft auto: liberty city stories"@) && !contains(lower_name, "grand theft auto: vice city stories"@) && !contains(lower_name, "final fantasy x"@) && !contains(lower_name, "final fantasy xii"@) && !contains(lower_name, "metal gear solid 2"@) && !contains(lower_name, "metal gear solid 3"@) && !contains(lower_name, "metal gear solid 4"@) && !contains(lower_name, "metal gear solid: peace walker"@) && !contains(lower_name, "resident evil 4"@) && !contains(lower_name, "resident evil 5"@) && !contains(lower_name, "crash twinsanity"@) && !contains(lower_name, "spyro: enter"@) && !contains(lower_name, "twisted metal 2012"@) && !contains(lower_name, "twisted metal black"@) && !contains(lower_name, "twisted metal head on"@) && !contains(lower_name, "twisted metal 1"@) && !contains(lower_name, "twisted metal 2"@) && !contains(lower_name, "twisted metal 3"@) && !contains(lower_name, "twisted metal 4"@) && contains(lower_name, "breath of the wild"@)
            ==> refined_platform(Platform::Other, lower_path, lower_name, ext, size) == Platform::Switch,
        !any_key_in(lower_path, folder_tokens()) && !contains(lower_name, "tekken 5"@) && !contains(lower_name, "tekken 6"@) && !contains(lower_name, "tekken 4"@) && !contains(lower_name, "tekken tag"@) && !contains(lower_name, "god of war iii"@) && !contains(lower_name, "god of war 3"@) && !contains(lower_name, "god of war ii"@) && !contains(lower_name, "god of war 2"@) && !contains(lower_name, "god of war: chains of olympus"@) && !contains(lower_name, "god of war: ghost of sparta"@) && !contains(lower_name, "god of war"@) && !contains(lower_name, "gta sa"@) && !contains(lower_name, "gta vc"@) && !contains(lower_name, "gta iii"@) && !contains(lower_name, "grand theft auto: san andreas"@) && !contains(lower_name, "grand theft auto: vice city"@) && !contains(lower_name, "grand theft auto iii"@) && !contains(lower_name, "grand theft auto: liberty city stories"@) && !contains(lower_name, "grand theft auto: vice city stories"@) && !contains(lower_name, "final fantasy x"@) && !contains(lower_name, "final fantasy xii"@) && !contains(lower_name, "metal gear solid 2"@) && !contains(lower_name, "metal gear solid 3"@) && !contains(lower_name, "metal gear solid 4"@) && !contains(lower_name, "metal gear solid: peace walker"@) && !contains(lower_name, "resident evil 4"@) && !contains(lower_name, "resident evil 5"@) && !contains(lower_name, "crash twinsanity"@) && !contains(lower_name, "spyro: enter"@) && !contains(lower_name, "twisted metal 2012"@) && !contains(lower_name, "twisted metal black"@) && !contains(lower_name, "twisted metal head on"@) && !contains(lower_name, "twisted metal 1"@) && !contains(lower_name, "twisted metal 2"@) && !contains(lower_name, "twisted metal 3"@) && !contains(lower_name, "twisted metal 4"@) && !contains(lower_name, "breath of the wild"@) && contains(lower_name, "super mario odyssey"@)
            ==> refined_platform(Platform::Other, lower_path, lower_name, ext, size) == Platform::Switch,
{
    lemma_refine_laws(Platform::Other, lower_path, lower_name, ext, size);
    assert(title_pins()[0].0 == "tekken 5"@);
    assert(title_pins()[1].0 == "tekken 6"@);
    assert(title_pins()[2].0 == "tekken 4"@);
    assert(title_pins()[3].0 == "tekken tag"@);
    assert(title_pins()[4].0 == "god of war iii"@);
    assert(title_pins()[5].0 == "god of war 3"@);
    assert(title_pins()[6].0 == "god of war ii"@);
    assert(title_pins()[7].0 == "god of war 2"@);
    assert(title_pins()[8].0 == "god of war: chains of olympus"@);
    assert(title_pins()[9].0 == "god of war: ghost of sparta"@);
    assert(title_pins()[10].0 == "god of war"@);
    assert(title_pins()[11].0 == "gta sa"@);
    assert(title_pins()[12].0 == "gta vc"@);
    assert(title_pins()[13].0 == "gta iii"@);
    assert(title_pins()[14].0 == "grand theft auto: san andreas"@);
    assert(title_pins()[15].0 == "grand theft auto: vice city"@);
    assert(title_pins()[16].0 == "grand theft auto iii"@);
    assert(title_pins()[17].0 == "grand theft auto: liberty city stories"@);
    assert(title_pins()[18].0 == "grand theft auto: vice city stories"@);
    assert(title_pins()[19].0 == "final fantasy x"@);
    assert(title_pins()[20].0 == "final fantasy xii"@);
    assert(title_pins()[21].0 == "metal gear solid 2"@);
    assert(title_pins()[22].0 == "metal gear solid 3"@);
    assert(title_pins()[23].0 == "metal gear solid 4"@);
    assert(title_pins()[24].0 == "metal gear solid: peace walker"@);
    assert(title_pins()[25].0 == "resident evil 4"@);
    assert(title_pins()[26].0 == "resident evil 5"@);
    assert(title_pins()[27].0 == "crash twinsanity"@);
    assert(title_pins()[28].0 == "spyro: enter"@);
    assert(title_pins()[29].0 == "twisted metal 2012"@);
    assert(title_pins()[30].0 == "twisted metal black"@);
    assert(title_pins()[31].0 == "twisted metal head on"@);
    assert(title_pins()[32].0 == "twisted metal 1"@);
    assert(title_pins()[33].0 == "twisted metal 2"@);
    assert(title_pins()[34].0 == "twisted metal 3"@);
    assert(title_pins()[35].0 == "twisted metal 4"@);
    assert(title_pins()[36].0 == "breath of the wild"@);
    assert(title_pins()[37].0 == "super mario odyssey"@);
}

/// Every PlayStation region serial prefix, literally: with no folder token
/// in the path and no title pin in the name, a file name holding any of
/// them is a PS1 disc.
pub proof fn lemma_serials_mean_ps1(lower_path: Seq<char>, lower_name: Seq<char>, ext: Option<Seq<char>>, size: u64)
    ensures
        !any_key_in(lower_path, folder_tokens()) && !any_key_in(lower_name, title_pins()) && contains(lower_name, "scus-"@)
            ==> refined_platform(Platform::Other, lower_path, lower_name, ext, size) == Platform::Ps1,
        !any_key_in(lower_path, folder_tokens()) && !any_key_in(lower_name, title_pins()) && contains(lower_name, "slus-"@)
            ==> refined_platform(Platform::Other, lower_path, lower_name, ext, size) == Platform::Ps1,
        !any_key_in(lower_path, folder_tokens()) && !any_key_in(lower_name, title_pins()) && contains(lower_name, "scus_"@)
            ==> refined_platform(Platform::Other, lower_path, lower_name, ext, size) == Platform::Ps1,
        !any_key_in(lower_path, folder_tokens()) && !any_key_in(lower_name, title_pins()) && contains(lower_name, "slus_"@)
            ==> refined_platform(Platform::Other, lower_path, lower_name, ext, size) == Platform::Ps1,
        !any_key_in(lower_path, folder_tokens()) && !any_key_in(lower_name, title_pins()) && contains(lower_name, "sces-"@)
            ==> refined_platform(Platform::Other, lower_path, lower_name, ext, size) == Platform::Ps1,
        !any_key_in(lower_path, folder_tokens()) && !any_key_in(lower_name, title_pins()) && contains(lower_name, "sles-"@)
            ==> refined_platform(Platform::Other, lower_path, lower_name, ext, size) == Platform::Ps1,
        !any_key_in(lower_path, folder_tokens()) && !any_key_in(lower_name, title_pins()) && contains(lower_name, "sced-"@)
            ==> refined_platform(Platform::Other, lower_path, lower_name, ext, size) == Platform::Ps1,
        !any_key_in(lower_path, folder_tokens()) && !any_key_in(lower_name, title_pins()) && contains(lower_name, "sces_"@)
            ==> refined_platform(Platform::Other, lower_path, lower_name, ext, size) == Platform::Ps1,
        !any_key_in(lower_path, folder_tokens()) && !any_key_in(lower_name, title_pins()) && contains(lower_name, "sles_"@)
            ==> refined_platform(Platform::Other, lower_path, lower_name, ext, size) == Platform::Ps1,
        !any_key_in(lower_path, folder_tokens()) && !any_key_in(lower_name, title_pins()) && contains(lower_name, "scps-"@)
            ==> refined_platform(Platform::Other, lower_path, lower_name, ext, size) == Platform::Ps1,
        !any_key_in(lower_path, folder_tokens()) && !any_key_in(lower_name, title_pins()) && contains(lower_name, "slps-"@)
            ==> refined_platform(Platform::Other, lower_path, lower_name, ext, size) == Platform::Ps1,
        !any_key_in(lower_path, folder_tokens()) && !any_key_in(lower_name, title_pins()) && contains(lower_name, "slpm-"@)
            ==> refined_platform(Platform::Other, lower_path, lower_name, ext, size) == Platform::Ps1,
        !any_key_in(lower_path, folder_tokens()) && !any_key_in(lower_name, title_pins()) && contains(lower_name, "scps_"@)
            ==> refined_platform(Platform::Other, lower_path, lower_name, ext, size) == Platform::Ps1,
        !any_key_in(lower_path, folder_tokens()) && !any_key_in(lower_name, title_pins()) && contains(lower_name, "slps_"@)
            ==> refined_platform(Platform::Other, lower_path, lower_name, ext, size) == Platform::Ps1,
        !any_key_in(lower_path, folder_tokens()) && !any_key_in(lower_name, title_pins()) && contains(lower_name, "slpm_"@)
            ==> refined_platform(Platform::Other, lower_path, lower_name, ext, size) == Platform::Ps1,
        !any_key_in(lower_path, folder_tokens()) && !any_key_in(lower_name, title_pins()) && contains(lower_name, "scaj-"@)
            ==> refined_platform(Platform::Other, lower_path, lower_name, ext, size) == Platform::Ps1,
        !any_key_in(lower_path, folder_tokens()) && !any_key_in(lower_name, title_pins()) && contains(lower_name, "scas-"@)
            ==> refined_platform(Platform::Other, lower_path, lower_name, ext, size) == Platform::Ps1,
        !any_key_in(lower_path, folder_tokens()) && !any_key_in(lower_name, title_pins()) && contains(lower_name, "papx-"@)
            ==> refined_platform(Platform::Other, lower_path, lower_name, ext, size) == Platform::Ps1,
        !any_key_in(lower_path, folder_tokens()) && !any_key_in(lower_name, title_pins()) && contains(lower_name, "pbpx-"@)
            ==> refined_platform(Platform::Other, lower_path, lower_name, ext, size) == Platform::Ps1,
        !any_key_in(lower_path, folder_tokens()) && !any_key_in(lower_name, title_pins()) && contains(lower_name, "pcpx-"@)
            ==> refined_platform(Platform::Other, lower_path, lower_name, ext, size) == Platform::Ps1,
{
    lemma_refine_laws(Platform::Other, lower_path, lower_name, ext, size);
    assert(serial_prefixes()[0].0 == "scus-"@);
    assert(serial_prefixes()[1].0 == "slus-"@);
    assert(serial_prefixes()[2].0 == "scus_"@);
    assert(serial_prefixes()[3].0 == "slus_"@);
    assert(serial_prefixes()[4].0 == "sces-"@);
    assert(serial_prefixes()[5].0 == "sles-"@);
    assert(serial_prefixes()[6].0 == "sced-"@);
    assert(serial_prefixes()[7].0 == "sces_"@);
    assert(serial_prefixes()[8].0 == "sles_"@);
    assert(serial_prefixes()[9].0 == "scps-"@);
    assert(serial_prefixes()[10].0 == "slps-"@);
    assert(serial_prefixes()[11].0 == "slpm-"@);
    assert(serial_prefixes()[12].0 == "scps_"@);
    assert(serial_prefixes()[13].0 == "slps_"@);
    assert(serial_prefixes()[14].0 == "slpm_"@);
    assert(serial_prefixes()[15].0 == "scaj-"@);
    assert(serial_prefixes()[16].0 == "scas-"@);
    assert(serial_prefixes()[17].0 == "papx-"@);
    assert(serial_prefixes()[18].0 == "pbpx-"@);
    assert(serial_prefixes()[19].0 == "pcpx-"@);
    if contains(lower_name, "scus-"@) { assert(contains(lower_name, serial_prefixes()[0].0)); }
    if contains(lower_name, "slus-"@) { assert(contains(lower_name, serial_prefixes()[1].0)); }
    if contains(lower_name, "scus_"@) { assert(contains(lower_name, serial_prefixes()[2].0)); }
    if contains(lower_name, "slus_"@) { assert(contains(lower_name, serial_prefixes()[3].0)); }
    if contains(lower_name, "sces-"@) { assert(contains(lower_name, serial_prefixes()[4].0)); }
    if contains(lower_name, "sles-"@) { assert(contains(lower_name, serial_prefixes()[5].0)); }
    if contains(lower_name, "sced-"@) { assert(contains(lower_name, serial_prefixes()[6].0)); }
    if contains(lower_name, "sces_"@) { assert(contains(lower_name, serial_prefixes()[7].0)); }
    if contains(lower_name, "sles_"@) { assert(contains(lower_name, serial_prefixes()[8].0)); }
    if contains(lower_name, "scps-"@) { assert(contains(lower_name, serial_prefixes()[9].0)); }
    if contains(lower_name, "slps-"@) { assert(contains(lower_name, serial_prefixes()[10].0)); }
    if contains(lower_name, "slpm-"@) { assert(contains(lower_name, serial_prefixes()[11].0)); }
    if contains(lower_name, "scps_"@) { assert(contains(lower_name, serial_prefixes()[12].0)); }
    if contains(lower_name, "slps_"@) { assert(contains(lower_name, serial_prefixes()[13].0)); }
    if contains(lower_name, "slpm_"@) { assert(contains(lower_name, serial_prefixes()[14].0)); }
    if contains(lower_name, "scaj-"@) { assert(contains(lower_name, serial_prefixes()[15].0)); }
    if contains(lower_name, "scas-"@) { assert(contains(lower_name, serial_prefixes()[16].0)); }
    if contains(lower_name, "papx-"@) { assert(contains(lower_name, serial_prefixes()[17].0)); }
    if contains(lower_name, "pbpx-"@) { assert(contains(lower_name, serial_prefixes()[18].0)); }
    if contains(lower_name, "pcpx-"@) { assert(contains(lower_name, serial_prefixes()[19].0)); }
}

} // verus!
