//! The bundled list of emulators the installer knows how to fetch. Each
//! URL points at an official upstream artifact; entries are pure data.

use vstd::prelude::*;

use crate::library::platform::Platform;
use crate::installer::types::{ArchiveFormat, EmulatorManifest, ManifestView};
use crate::text::{owned, starts_with, str_eq};

verus! {

/// Every manifest, in the order the installer offers them.
pub open spec fn manifest_table() -> Seq<ManifestView> {
    seq![
        ManifestView {
            id: "retroarch"@,
            name: "RetroArch (multi-system)"@,
            homepage: "https://www.retroarch.com/"@,
            license: "GPLv3"@,
            url: "https://buildbot.libretro.com/stable/1.20.0/windows/x86_64/RetroArch.7z"@,
            archive_format: ArchiveFormat::SevenZ,
            exe_relpath: "RetroArch-Win64/retroarch.exe"@,
            platforms: seq![Platform::Nes, Platform::Snes, Platform::N64, Platform::Gameboy, Platform::GameboyColor, Platform::GameboyAdvance, Platform::Nds, Platform::Genesis, Platform::MasterSystem, Platform::GameGear, Platform::Ps1, Platform::Psp, Platform::Atari2600, Platform::NeoGeo, Platform::Arcade, Platform::Saturn, Platform::Dreamcast],
            approx_size_mb: 90,
            embeddable: true,
        },
        ManifestView {
            id: "dolphin"@,
            name: "Dolphin (GameCube / Wii)"@,
            homepage: "https://dolphin-emu.org/"@,
            license: "GPLv2"@,
            url: "https://dl.dolphin-emu.org/releases/2412/dolphin-2412-x64.7z"@,
            archive_format: ArchiveFormat::SevenZ,
            exe_relpath: "Dolphin-x64/Dolphin.exe"@,
            platforms: seq![Platform::GameCube, Platform::Wii],
            approx_size_mb: 70,
            embeddable: false,
        },
        ManifestView {
            id: "pcsx2"@,
            name: "PCSX2 (PlayStation 2)"@,
            homepage: "https://pcsx2.net/"@,
            license: "GPLv3"@,
            url: "https://github.com/PCSX2/pcsx2/releases/download/v2.4.0/pcsx2-v2.4.0-windows-x64-Qt.7z"@,
            archive_format: ArchiveFormat::SevenZ,
            exe_relpath: "pcsx2-qt.exe"@,
            platforms: seq![Platform::Ps2],
            approx_size_mb: 150,
            embeddable: false,
        },
        ManifestView {
            id: "rpcs3"@,
            name: "RPCS3 (PlayStation 3)"@,
            homepage: "https://rpcs3.net/"@,
            license: "GPLv2"@,
            url: "https://github.com/RPCS3/rpcs3-binaries-win/releases/latest/download/rpcs3.7z"@,
            archive_format: ArchiveFormat::SevenZ,
            exe_relpath: "rpcs3.exe"@,
            platforms: seq![Platform::Ps3],
            approx_size_mb: 130,
            embeddable: false,
        },
        ManifestView {
            id: "ppsspp"@,
            name: "PPSSPP (PSP)"@,
            homepage: "https://www.ppsspp.org/"@,
            license: "GPLv2"@,
            url: "https://www.ppsspp.org/files/1_17_1/ppsspp_win.zip"@,
            archive_format: ArchiveFormat::Zip,
            exe_relpath: "PPSSPPWindows64.exe"@,
            platforms: seq![Platform::Psp],
            approx_size_mb: 30,
            embeddable: true,
        },
        ManifestView {
            id: "mgba"@,
            name: "mGBA (Game Boy Advance)"@,
            homepage: "https://mgba.io/"@,
            license: "MPL-2.0"@,
            url: "https://github.com/mgba-emu/mgba/releases/download/0.10.5/mGBA-0.10.5-win64.7z"@,
            archive_format: ArchiveFormat::SevenZ,
            exe_relpath: "mGBA-0.10.5-win64/mGBA.exe"@,
            platforms: seq![Platform::GameboyAdvance, Platform::Gameboy, Platform::GameboyColor],
            approx_size_mb: 15,
            embeddable: true,
        },
        ManifestView {
            id: "desmume"@,
            name: "DeSmuME (Nintendo DS)"@,
            homepage: "https://desmume.org/"@,
            license: "GPLv2"@,
            url: "https://github.com/TASEmulators/desmume/releases/download/release_0_9_13/desmume-0.9.13-win64.zip"@,
            archive_format: ArchiveFormat::Zip,
            exe_relpath: "DeSmuME_0.9.13_x64.exe"@,
            platforms: seq![Platform::Nds],
            approx_size_mb: 8,
            embeddable: true,
        },
        ManifestView {
            id: "cemu"@,
            name: "Cemu (Wii U)"@,
            homepage: "https://cemu.info/"@,
            license: "MPL-2.0"@,
            url: "https://github.com/cemu-project/Cemu/releases/download/v2.0-90/cemu-2.0-90-windows-x64.zip"@,
            archive_format: ArchiveFormat::Zip,
            exe_relpath: "Cemu.exe"@,
            platforms: seq![Platform::WiiU],
            approx_size_mb: 50,
            embeddable: false,
        },
        ManifestView {
            id: "snes9x"@,
            name: "Snes9x (SNES standalone)"@,
            homepage: "https://www.snes9x.com/"@,
            license: "Permissive (custom)"@,
            url: "https://github.com/snes9xgit/snes9x/releases/download/1.62.3/snes9x-1.62.3-win32-x64.zip"@,
            archive_format: ArchiveFormat::Zip,
            exe_relpath: "snes9x-x64.exe"@,
            platforms: seq![Platform::Snes],
            approx_size_mb: 5,
            embeddable: true,
        },
        ManifestView {
            id: "project64"@,
            name: "Project64 (Nintendo 64)"@,
            homepage: "https://www.pj64-emu.com/"@,
            license: "GPLv2"@,
            url: "https://github.com/project64/project64/releases/download/3.0.1/Project64-3.0.1-7-c5c.zip"@,
            archive_format: ArchiveFormat::Zip,
            exe_relpath: "Project64.exe"@,
            platforms: seq![Platform::N64],
            approx_size_mb: 20,
            embeddable: false,
        },
        ManifestView {
            id: "pcsx-redux"@,
            name: "PCSX-Redux (PlayStation)"@,
            homepage: "https://pcsx-redux.consoledev.net/"@,
            license: "GPLv2"@,
            url: "https://github.com/grumpycoders/pcsx-redux/releases/download/v25.04.0/pcsx-redux-windows-x86_64.zip"@,
            archive_format: ArchiveFormat::Zip,
            exe_relpath: "pcsx-redux.exe"@,
            platforms: seq![Platform::Ps1],
            approx_size_mb: 25,
            embeddable: false,
        },
        ManifestView {
            id: "stella"@,
            name: "Stella (Atari 2600)"@,
            homepage: "https://stella-emu.github.io/"@,
            license: "GPLv2"@,
            url: "https://github.com/stella-emu/stella/releases/download/7.0/Stella-7.0-x64.zip"@,
            archive_format: ArchiveFormat::Zip,
            exe_relpath: "Stella-7.0/64-bit/Stella.exe"@,
            platforms: seq![Platform::Atari2600],
            approx_size_mb: 12,
            embeddable: true,
        },
    ]
}

/// Number of bundled manifests.
pub open spec fn manifest_count() -> nat {
    manifest_table().len()
}

/// The views of a list of manifests.
pub open spec fn manifests_view(s: Seq<EmulatorManifest>) -> Seq<ManifestView> {
    s.map_values(|m: EmulatorManifest| m@)
}

/// Index of the first manifest with the given id.
pub open spec fn index_of_id(t: Seq<ManifestView>, id: Seq<char>) -> Option<int>
    decreases t.len(),
{
    if t.len() == 0 {
        None
    } else if t[0].id == id {
        Some(0)
    } else {
        match index_of_id(t.drop_first(), id) {
            Some(i) => Some(i + 1),
            None => None,
        }
    }
}

pub proof fn lemma_index_of_id(t: Seq<ManifestView>, id: Seq<char>)
    ensures
        index_of_id(t, id) matches Some(i) ==> 0 <= i < t.len() && t[i].id == id && forall|j: int|
            0 <= j < i ==> t[j].id != id,
        index_of_id(t, id) is None ==> forall|j: int| 0 <= j < t.len() ==> t[j].id != id,
    decreases t.len(),
{
    if t.len() > 0 {
        lemma_index_of_id(t.drop_first(), id);
        if t[0].id != id {
            assert forall|j: int| 1 <= j < t.len() implies t[j] == t.drop_first()[j - 1] by {}
        }
    }
}

fn manifest(
    id: &str,
    name: &str,
    homepage: &str,
    license: &str,
    url: &str,
    archive_format: ArchiveFormat,
    exe_relpath: &str,
    platforms: Vec<Platform>,
    approx_size_mb: u32,
    embeddable: bool,
) -> (m: EmulatorManifest)
    ensures
        m@ == (ManifestView {
            id: id@,
            name: name@,
            homepage: homepage@,
            license: license@,
            url: url@,
            archive_format,
            exe_relpath: exe_relpath@,
            platforms: platforms@,
            approx_size_mb,
            embeddable,
        }),
{
    EmulatorManifest {
        id: owned(id),
        name: owned(name),
        homepage: owned(homepage),
        license: owned(license),
        url: owned(url),
        archive_format,
        exe_relpath: owned(exe_relpath),
        platforms,
        approx_size_mb,
        embeddable,
    }
}

/// Every emulator the installer can fetch.
pub fn all() -> (r: Vec<EmulatorManifest>)
    ensures
        manifests_view(r@) == manifest_table(),
{
    let mut v: Vec<EmulatorManifest> = Vec::new();
    v.push(manifest(
        "retroarch",
        "RetroArch (multi-system)",
        "https://www.retroarch.com/",
        "GPLv3",
        "https://buildbot.libretro.com/stable/1.20.0/windows/x86_64/RetroArch.7z",
        ArchiveFormat::SevenZ,
        "RetroArch-Win64/retroarch.exe",
        vec![Platform::Nes, Platform::Snes, Platform::N64, Platform::Gameboy, Platform::GameboyColor, Platform::GameboyAdvance, Platform::Nds, Platform::Genesis, Platform::MasterSystem, Platform::GameGear, Platform::Ps1, Platform::Psp, Platform::Atari2600, Platform::NeoGeo, Platform::Arcade, Platform::Saturn, Platform::Dreamcast],
        90,
        true,
    ));
    v.push(manifest(
        "dolphin",
        "Dolphin (GameCube / Wii)",
        "https://dolphin-emu.org/",
        "GPLv2",
        "https://dl.dolphin-emu.org/releases/2412/dolphin-2412-x64.7z",
        ArchiveFormat::SevenZ,
        "Dolphin-x64/Dolphin.exe",
        vec![Platform::GameCube, Platform::Wii],
        70,
        false,
    ));
    v.push(manifest(
        "pcsx2",
        "PCSX2 (PlayStation 2)",
        "https://pcsx2.net/",
        "GPLv3",
        "https://github.com/PCSX2/pcsx2/releases/download/v2.4.0/pcsx2-v2.4.0-windows-x64-Qt.7z",
        ArchiveFormat::SevenZ,
        "pcsx2-qt.exe",
        vec![Platform::Ps2],
        150,
        false,
    ));
    v.push(manifest(
        "rpcs3",
        "RPCS3 (PlayStation 3)",
        "https://rpcs3.net/",
        "GPLv2",
        "https://github.com/RPCS3/rpcs3-binaries-win/releases/latest/download/rpcs3.7z",
        ArchiveFormat::SevenZ,
        "rpcs3.exe",
        vec![Platform::Ps3],
        130,
        false,
    ));
    v.push(manifest(
        "ppsspp",
        "PPSSPP (PSP)",
        "https://www.ppsspp.org/",
        "GPLv2",
        "https://www.ppsspp.org/files/1_17_1/ppsspp_win.zip",
        ArchiveFormat::Zip,
        "PPSSPPWindows64.exe",
        vec![Platform::Psp],
        30,
        true,
    ));
    v.push(manifest(
        "mgba",
        "mGBA (Game Boy Advance)",
        "https://mgba.io/",
        "MPL-2.0",
        "https://github.com/mgba-emu/mgba/releases/download/0.10.5/mGBA-0.10.5-win64.7z",
        ArchiveFormat::SevenZ,
        "mGBA-0.10.5-win64/mGBA.exe",
        vec![Platform::GameboyAdvance, Platform::Gameboy, Platform::GameboyColor],
        15,
        true,
    ));
    v.push(manifest(
        "desmume",
        "DeSmuME (Nintendo DS)",
        "https://desmume.org/",
        "GPLv2",
        "https://github.com/TASEmulators/desmume/releases/download/release_0_9_13/desmume-0.9.13-win64.zip",
        ArchiveFormat::Zip,
        "DeSmuME_0.9.13_x64.exe",
        vec![Platform::Nds],
        8,
        true,
    ));
    v.push(manifest(
        "cemu",
        "Cemu (Wii U)",
        "https://cemu.info/",
        "MPL-2.0",
        "https://github.com/cemu-project/Cemu/releases/download/v2.0-90/cemu-2.0-90-windows-x64.zip",
        ArchiveFormat::Zip,
        "Cemu.exe",
        vec![Platform::WiiU],
        50,
        false,
    ));
    v.push(manifest(
        "snes9x",
        "Snes9x (SNES standalone)",
        "https://www.snes9x.com/",
        "Permissive (custom)",
        "https://github.com/snes9xgit/snes9x/releases/download/1.62.3/snes9x-1.62.3-win32-x64.zip",
        ArchiveFormat::Zip,
        "snes9x-x64.exe",
        vec![Platform::Snes],
        5,
        true,
    ));
    v.push(manifest(
        "project64",
        "Project64 (Nintendo 64)",
        "https://www.pj64-emu.com/",
        "GPLv2",
        "https://github.com/project64/project64/releases/download/3.0.1/Project64-3.0.1-7-c5c.zip",
        ArchiveFormat::Zip,
        "Project64.exe",
        vec![Platform::N64],
        20,
        false,
    ));
    v.push(manifest(
        "pcsx-redux",
        "PCSX-Redux (PlayStation)",
        "https://pcsx-redux.consoledev.net/",
        "GPLv2",
        "https://github.com/grumpycoders/pcsx-redux/releases/download/v25.04.0/pcsx-redux-windows-x86_64.zip",
        ArchiveFormat::Zip,
        "pcsx-redux.exe",
        vec![Platform::Ps1],
        25,
        false,
    ));
    v.push(manifest(
        "stella",
        "Stella (Atari 2600)",
        "https://stella-emu.github.io/",
        "GPLv2",
        "https://github.com/stella-emu/stella/releases/download/7.0/Stella-7.0-x64.zip",
        ArchiveFormat::Zip,
        "Stella-7.0/64-bit/Stella.exe",
        vec![Platform::Atari2600],
        12,
        true,
    ));
    assert(v@.len() == 12);
    assert(v@[0]@ =~= manifest_table()[0]);
    assert(v@[1]@ =~= manifest_table()[1]);
    assert(v@[2]@ =~= manifest_table()[2]);
    assert(v@[3]@ =~= manifest_table()[3]);
    assert(v@[4]@ =~= manifest_table()[4]);
    assert(v@[5]@ =~= manifest_table()[5]);
    assert(v@[6]@ =~= manifest_table()[6]);
    assert(v@[7]@ =~= manifest_table()[7]);
    assert(v@[8]@ =~= manifest_table()[8]);
    assert(v@[9]@ =~= manifest_table()[9]);
    assert(v@[10]@ =~= manifest_table()[10]);
    assert(v@[11]@ =~= manifest_table()[11]);
    assert(manifests_view(v@) =~= manifest_table());
    v
}

/// The manifest with the given id, if one is bundled.
pub fn find_by_id(id: &str) -> (r: Option<EmulatorManifest>)
    ensures
        match index_of_id(manifest_table(), id@) {
            Some(i) => r matches Some(m) && m@ == manifest_table()[i],
            None => r is None,
        },
{
    let mut v = all();
    let ghost t = manifest_table();
    proof {
        lemma_index_of_id(t, id@);
    }
    let mut i: usize = 0;
    while i < v.len()
        invariant
            t == manifest_table(),
            manifests_view(v@) == t,
            v@.len() == t.len(),
            i <= v@.len(),
            forall|j: int| 0 <= j < i ==> t[j].id != id@,
            index_of_id(t, id@) matches Some(k) ==> 0 <= k < t.len() && t[k].id == id@
                && forall|j: int| 0 <= j < k ==> t[j].id != id@,
            index_of_id(t, id@) is None ==> forall|j: int| 0 <= j < t.len() ==> t[j].id != id@,
        decreases v@.len() - i,
    {
        assert(manifests_view(v@)[i as int] == v@[i as int]@);
        if str_eq(v[i].id.as_str(), id) {
            let ghost vi = v@[i as int];
            assert(vi@ == t[i as int]);
            assert(t[i as int].id == id@);
            assert(index_of_id(t, id@) == Some(i as int)) by {
                match index_of_id(t, id@) {
                    Some(k) => {
                        if k < i {
                            assert(t[k].id != id@);
                        } else if k > i {
                            assert(t[i as int].id != id@);
                        }
                    },
                    None => {
                        assert(t[i as int].id != id@);
                    },
                }
            }
            let m = v.remove(i);
            assert(m == vi);
            return Some(m);
        }
        i += 1;
    }
    None
}

// ---------------------------------------------------------------------------
// Properties of the bundled list
// ---------------------------------------------------------------------------

/// No two bundled manifests share an id.
pub proof fn lemma_manifest_ids_unique()
    ensures
        forall|i: int, j: int|
            0 <= i < manifest_count() && 0 <= j < manifest_count() && i != j
                ==> #[trigger] manifest_table()[i].id != #[trigger] manifest_table()[j].id,
{
    reveal_strlit("retroarch");
    reveal_strlit("dolphin");
    reveal_strlit("pcsx2");
    reveal_strlit("rpcs3");
    reveal_strlit("ppsspp");
    reveal_strlit("mgba");
    reveal_strlit("desmume");
    reveal_strlit("cemu");
    reveal_strlit("snes9x");
    reveal_strlit("project64");
    reveal_strlit("pcsx-redux");
    reveal_strlit("stella");
    let t = manifest_table();
    assert(t[0].id == "retroarch"@);
    assert(t[1].id == "dolphin"@);
    assert(t[2].id == "pcsx2"@);
    assert(t[3].id == "rpcs3"@);
    assert(t[4].id == "ppsspp"@);
    assert(t[5].id == "mgba"@);
    assert(t[6].id == "desmume"@);
    assert(t[7].id == "cemu"@);
    assert(t[8].id == "snes9x"@);
    assert(t[9].id == "project64"@);
    assert(t[10].id == "pcsx-redux"@);
    assert(t[11].id == "stella"@);
    assert("retroarch"@[0] != "project64"@[0]);
    assert("dolphin"@[1] != "desmume"@[1]);
    assert("pcsx2"@[0] != "rpcs3"@[0]);
    assert("ppsspp"@[0] != "snes9x"@[0]);
    assert("ppsspp"@[0] != "stella"@[0]);
    assert("snes9x"@[1] != "stella"@[1]);
    assert("mgba"@[0] != "cemu"@[0]);
    assert forall|i: int, j: int|
        0 <= i < manifest_count() && 0 <= j < manifest_count() && i != j implies #[trigger] manifest_table()[i].id
        != #[trigger] manifest_table()[j].id by {
        assert(i == 0 || i == 1 || i == 2 || i == 3 || i == 4 || i == 5 || i == 6 || i == 7 || i == 8 || i == 9 || i == 10 || i == 11);
        assert(j == 0 || j == 1 || j == 2 || j == 3 || j == 4 || j == 5 || j == 6 || j == 7 || j == 8 || j == 9 || j == 10 || j == 11);
    }
}

/// Every download URL is either `https://` or a `gh-latest://` release
/// reference that resolves to an https asset.
pub proof fn lemma_urls_are_https_or_gh_latest()
    ensures
        forall|i: int|
            0 <= i < manifest_count() ==> starts_with(#[trigger] manifest_table()[i].url, "https://"@)
                || starts_with(manifest_table()[i].url, "gh-latest://"@),
{
    reveal_strlit("https://");
    reveal_strlit("https://buildbot.libretro.com/stable/1.20.0/windows/x86_64/RetroArch.7z");
    reveal_strlit("https://dl.dolphin-emu.org/releases/2412/dolphin-2412-x64.7z");
    reveal_strlit("https://github.com/PCSX2/pcsx2/releases/download/v2.4.0/pcsx2-v2.4.0-windows-x64-Qt.7z");
    reveal_strlit("https://github.com/RPCS3/rpcs3-binaries-win/releases/latest/download/rpcs3.7z");
    reveal_strlit("https://www.ppsspp.org/files/1_17_1/ppsspp_win.zip");
    reveal_strlit("https://github.com/mgba-emu/mgba/releases/download/0.10.5/mGBA-0.10.5-win64.7z");
    reveal_strlit("https://github.com/TASEmulators/desmume/releases/download/release_0_9_13/desmume-0.9.13-win64.zip");
    reveal_strlit("https://github.com/cemu-project/Cemu/releases/download/v2.0-90/cemu-2.0-90-windows-x64.zip");
    reveal_strlit("https://github.com/snes9xgit/snes9x/releases/download/1.62.3/snes9x-1.62.3-win32-x64.zip");
    reveal_strlit("https://github.com/project64/project64/releases/download/3.0.1/Project64-3.0.1-7-c5c.zip");
    reveal_strlit("https://github.com/grumpycoders/pcsx-redux/releases/download/v25.04.0/pcsx-redux-windows-x86_64.zip");
    reveal_strlit("https://github.com/stella-emu/stella/releases/download/7.0/Stella-7.0-x64.zip");
    assert(manifest_table()[0].url.take(8) =~= "https://"@);
    assert(manifest_table()[1].url.take(8) =~= "https://"@);
    assert(manifest_table()[2].url.take(8) =~= "https://"@);
    assert(manifest_table()[3].url.take(8) =~= "https://"@);
    assert(manifest_table()[4].url.take(8) =~= "https://"@);
    assert(manifest_table()[5].url.take(8) =~= "https://"@);
    assert(manifest_table()[6].url.take(8) =~= "https://"@);
    assert(manifest_table()[7].url.take(8) =~= "https://"@);
    assert(manifest_table()[8].url.take(8) =~= "https://"@);
    assert(manifest_table()[9].url.take(8) =~= "https://"@);
    assert(manifest_table()[10].url.take(8) =~= "https://"@);
    assert(manifest_table()[11].url.take(8) =~= "https://"@);
}

/// The RetroArch manifest covers the major retro platforms.
pub proof fn lemma_retroarch_covers_major_platforms()
    ensures
        index_of_id(manifest_table(), "retroarch"@) == Some(0int),
        manifest_table()[0].platforms.contains(Platform::Nes),
        manifest_table()[0].platforms.contains(Platform::Snes),
        manifest_table()[0].platforms.contains(Platform::N64),
        manifest_table()[0].platforms.contains(Platform::GameboyAdvance),
        manifest_table()[0].platforms.contains(Platform::Genesis),
        manifest_table()[0].platforms.contains(Platform::Ps1),
        manifest_table()[0].platforms.contains(Platform::Psp),
{
    let p = manifest_table()[0].platforms;
    assert(p[0] == Platform::Nes);
    assert(p[1] == Platform::Snes);
    assert(p[2] == Platform::N64);
    assert(p[5] == Platform::GameboyAdvance);
    assert(p[7] == Platform::Genesis);
    assert(p[10] == Platform::Ps1);
    assert(p[11] == Platform::Psp);
}

/// Simple Win32 front ends embed; Qt-based and other emulators whose
/// windows do not reparent cleanly fall back to minimise-and-restore.
pub open spec fn embeds_cleanly(id: Seq<char>) -> bool {
    id == "retroarch"@ || id == "mgba"@ || id == "ppsspp"@ || id == "desmume"@ || id == "snes9x"@
        || id == "stella"@
}

/// Ids whose emulator window is never embedded.
pub open spec fn never_embeds(id: Seq<char>) -> bool {
    id == "pcsx2"@ || id == "rpcs3"@ || id == "dolphin"@ || id == "cemu"@ || id == "pcsx-redux"@
        || id == "project64"@ || id == "flycast"@
}

/// Every bundled manifest's embeddable flag follows its emulator's UI kind.
pub proof fn lemma_embeddable_flags()
    ensures
        forall|i: int|
            0 <= i < manifest_count() ==> {
                let m = #[trigger] manifest_table()[i];
                &&& embeds_cleanly(m.id) || never_embeds(m.id)
                &&& embeds_cleanly(m.id) ==> m.embeddable
                &&& never_embeds(m.id) ==> !m.embeddable
            },
{
    reveal_strlit("flycast");
    reveal_strlit("retroarch");
    reveal_strlit("dolphin");
    reveal_strlit("pcsx2");
    reveal_strlit("rpcs3");
    reveal_strlit("ppsspp");
    reveal_strlit("mgba");
    reveal_strlit("desmume");
    reveal_strlit("cemu");
    reveal_strlit("snes9x");
    reveal_strlit("project64");
    reveal_strlit("pcsx-redux");
    reveal_strlit("stella");
    let t = manifest_table();
    assert(t[0].id == "retroarch"@);
    assert(t[1].id == "dolphin"@);
    assert(t[2].id == "pcsx2"@);
    assert(t[3].id == "rpcs3"@);
    assert(t[4].id == "ppsspp"@);
    assert(t[5].id == "mgba"@);
    assert(t[6].id == "desmume"@);
    assert(t[7].id == "cemu"@);
    assert(t[8].id == "snes9x"@);
    assert(t[9].id == "project64"@);
    assert(t[10].id == "pcsx-redux"@);
    assert(t[11].id == "stella"@);
    assert("desmume"@[0] != "flycast"@[0]);
    assert("dolphin"@[1] != "desmume"@[1]);
    assert("mgba"@[0] != "cemu"@[0]);
    assert("retroarch"@[0] != "project64"@[0]);
    assert forall|i: int| 0 <= i < manifest_count() implies {
        let m = #[trigger] manifest_table()[i];
        &&& embeds_cleanly(m.id) || never_embeds(m.id)
        &&& embeds_cleanly(m.id) ==> m.embeddable
        &&& never_embeds(m.id) ==> !m.embeddable
    } by {
        assert(i == 0 || i == 1 || i == 2 || i == 3 || i == 4 || i == 5 || i == 6 || i == 7 || i == 8 || i == 9 || i == 10 || i == 11);
    }
}

} // verus!
