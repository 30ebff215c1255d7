//! Console BIOS identification. A BIOS dump the user already has is
//! recognised by its lower-case file name and its exact byte size; both
//! must match, which protects against junk files that share a name. The
//! directory walk and the copies into each emulator's BIOS folder are done
//! by the host application.

use vstd::prelude::*;

use crate::text::{ascii_lower_exec, ascii_lower_seq, chars_of, owned, str_eq};

verus! {

/// A BIOS file fingerprint: lower-case file name and exact byte size.
#[derive(Debug, Clone, Copy)]
pub struct BiosFingerprint {
    pub filename: &'static str,
    pub size: u64,
}

/// One BIOS slot to fill and the fingerprints that satisfy it.
#[derive(Debug, Clone)]
pub struct BiosSlot {
    pub label: &'static str,
    pub fingerprints: Vec<BiosFingerprint>,
}

/// Size of every PS1 BIOS revision.
pub const PS1_BIOS_BYTES: u64 = 524288;

/// Size of every PS2 BIOS revision.
pub const PS2_BIOS_BYTES: u64 = 4194304;

/// The model of a fingerprint list.
pub open spec fn fps_view(fps: Seq<BiosFingerprint>) -> Seq<(Seq<char>, u64)> {
    fps.map_values(|f: BiosFingerprint| (f.filename@, f.size))
}

/// The model of the slot list.
pub open spec fn slots_view(slots: Seq<BiosSlot>) -> Seq<(Seq<char>, Seq<(Seq<char>, u64)>)> {
    slots.map_values(|s: BiosSlot| (s.label@, fps_view(s.fingerprints@)))
}

/// Every BIOS slot, with its fingerprints.
pub open spec fn bios_table() -> Seq<(Seq<char>, Seq<(Seq<char>, u64)>)> {
    seq![
        ("PS1 (DuckStation + RetroArch libretro cores)"@, seq![
            ("scph1001.bin"@, 524288u64),
            ("scph1002.bin"@, 524288u64),
            ("scph5500.bin"@, 524288u64),
            ("scph5501.bin"@, 524288u64),
            ("scph5502.bin"@, 524288u64),
            ("scph7001.bin"@, 524288u64),
            ("scph7002.bin"@, 524288u64),
            ("scph7003.bin"@, 524288u64),
            ("scph7501.bin"@, 524288u64),
            ("scph7502.bin"@, 524288u64),
            ("scph7503.bin"@, 524288u64),
            ("ps-30a.bin"@, 524288u64),
        ]),
        ("PS2 (PCSX2)"@, seq![
            ("scph10000.bin"@, 4194304u64),
            ("scph30004.bin"@, 4194304u64),
            ("scph39001.bin"@, 4194304u64),
            ("scph70004.bin"@, 4194304u64),
            ("scph70012.bin"@, 4194304u64),
            ("scph77001.bin"@, 4194304u64),
            ("scph90001.bin"@, 4194304u64),
        ]),
        ("Dreamcast (Flycast + libretro)"@, seq![
            ("dc_boot.bin"@, 2097152u64),
            ("dc_flash.bin"@, 131072u64),
        ]),
    ]
}

fn fp(filename: &'static str, size: u64) -> (r: BiosFingerprint)
    ensures
        r.filename@ == filename@,
        r.size == size,
{
    BiosFingerprint { filename, size }
}

/// The BIOS slots, in the order they are filled.
pub fn bios_slots() -> (r: Vec<BiosSlot>)
    ensures
        slots_view(r@) == bios_table(),
{
    let ps1 = vec![
        fp("scph1001.bin", 524288),
        fp("scph1002.bin", 524288),
        fp("scph5500.bin", 524288),
        fp("scph5501.bin", 524288),
        fp("scph5502.bin", 524288),
        fp("scph7001.bin", 524288),
        fp("scph7002.bin", 524288),
        fp("scph7003.bin", 524288),
        fp("scph7501.bin", 524288),
        fp("scph7502.bin", 524288),
        fp("scph7503.bin", 524288),
        fp("ps-30a.bin", 524288),
    ];
    let ps2 = vec![
        fp("scph10000.bin", 4194304),
        fp("scph30004.bin", 4194304),
        fp("scph39001.bin", 4194304),
        fp("scph70004.bin", 4194304),
        fp("scph70012.bin", 4194304),
        fp("scph77001.bin", 4194304),
        fp("scph90001.bin", 4194304),
    ];
    let dc = vec![fp("dc_boot.bin", 2097152), fp("dc_flash.bin", 131072)];
    assert(fps_view(ps1@) =~= bios_table()[0].1);
    assert(fps_view(ps2@) =~= bios_table()[1].1);
    assert(fps_view(dc@) =~= bios_table()[2].1);
    let r = vec![
        BiosSlot { label: "PS1 (DuckStation + RetroArch libretro cores)", fingerprints: ps1 },
        BiosSlot { label: "PS2 (PCSX2)", fingerprints: ps2 },
        BiosSlot { label: "Dreamcast (Flycast + libretro)", fingerprints: dc },
    ];
    assert(slots_view(r@) =~= bios_table());
    r
}

/// The size of the first fingerprint with this file name.
pub open spec fn size_for_name(fps: Seq<(Seq<char>, u64)>, name: Seq<char>) -> Option<u64>
    decreases fps.len(),
{
    if fps.len() == 0 {
        None
    } else if fps[0].0 == name {
        Some(fps[0].1)
    } else {
        size_for_name(fps.drop_first(), name)
    }
}

/// A file is a dump for the slot: the first fingerprint with its
/// lower-cased name has exactly its size.
pub open spec fn fingerprint_matches(fps: Seq<(Seq<char>, u64)>, lower_name: Seq<char>, size: u64) -> bool {
    size_for_name(fps, lower_name) == Some(size)
}

/// Whether a file with the given (already lower-cased) name and size
/// matches one of the fingerprints.
pub fn matches_fingerprint(fps: &Vec<BiosFingerprint>, lower_name: &str, size: u64) -> (r: bool)
    ensures
        r == fingerprint_matches(fps_view(fps@), lower_name@, size),
{
    let ghost fv = fps_view(fps@);
    let mut i: usize = 0;
    assert(fv.skip(0) =~= fv);
    while i < fps.len()
        invariant
            i <= fps@.len(),
            fv == fps_view(fps@),
            size_for_name(fv, lower_name@) == size_for_name(fv.skip(i as int), lower_name@),
        decreases fps.len() - i,
    {
        assert(fv.skip(i as int)[0] == (fps@[i as int].filename@, fps@[i as int].size));
        if str_eq(fps[i].filename, lower_name) {
            return fps[i].size == size;
        }
        assert(fv.skip(i as int).drop_first() =~= fv.skip(i + 1));
        i += 1;
    }
    false
}

/// Whether a file is a dump for the slot: its name, ASCII-lower-cased, is
/// the name of the slot's first fingerprint with that name, and its size
/// is exactly that fingerprint's.
pub fn is_bios_dump(fps: &Vec<BiosFingerprint>, file_name: &str, size: u64) -> (r: bool)
    ensures
        r == fingerprint_matches(fps_view(fps@), ascii_lower_seq(file_name@), size),
{
    let name = chars_of(file_name);
    let lower = crate::text::string_of(ascii_lower_exec(name.as_slice()).as_slice());
    matches_fingerprint(fps, lower.as_str(), size)
}

/// The label of the first slot a picked file matches (by ASCII-lower-cased
/// name and exact size).
pub open spec fn identified_slot(
    slots: Seq<(Seq<char>, Seq<(Seq<char>, u64)>)>,
    file_name: Seq<char>,
    size: u64,
) -> Option<Seq<char>>
    decreases slots.len(),
{
    if slots.len() == 0 {
        None
    } else if fingerprint_matches(slots[0].1, ascii_lower_seq(file_name), size) {
        Some(slots[0].0)
    } else {
        identified_slot(slots.drop_first(), file_name, size)
    }
}

/// Which BIOS slot a file the user picked belongs to, judged by its name
/// (ASCII case-insensitively) and its size; `None` when it is not a
/// recognised BIOS.
pub fn identify_bios(file_name: &str, size: u64) -> (r: Option<String>)
    ensures
        match identified_slot(bios_table(), file_name@, size) {
            Some(l) => r matches Some(s) && s@ == l,
            None => r is None,
        },
{
    let name = chars_of(file_name);
    let lower_v = ascii_lower_exec(name.as_slice());
    let lower = crate::text::string_of(lower_v.as_slice());
    let slots = bios_slots();
    let ghost t = bios_table();
    let mut i: usize = 0;
    assert(t.skip(0) =~= t);
    while i < slots.len()
        invariant
            i <= slots@.len(),
            t == bios_table(),
            slots_view(slots@) == t,
            lower@ == ascii_lower_seq(file_name@),
            identified_slot(t, file_name@, size) == identified_slot(t.skip(i as int), file_name@, size),
        decreases slots.len() - i,
    {
        assert(t.skip(i as int)[0] == (slots@[i as int].label@, fps_view(slots@[i as int].fingerprints@)));
        if matches_fingerprint(&slots[i].fingerprints, lower.as_str(), size) {
            return Some(owned(slots[i].label));
        }
        assert(t.skip(i as int).drop_first() =~= t.skip(i + 1));
        i += 1;
    }
    None
}

} // verus!
