//! Properties of the platform tables: every extension of the table
//! resolves to the platform the table lists it with (the table holds no
//! extension twice), and every platform has its own non-empty display
//! name.
//!
//! Distinctness is shown by sorting: the sorted extensions are strictly
//! increasing, and each table entry sits at a known position among them.

use vstd::prelude::*;

use crate::library::platform::{ext_table, lookup, Platform};

verus! {

/// `a` sorts strictly before `b`, character by character.
pub open spec fn lex_lt(a: Seq<char>, b: Seq<char>) -> bool
    decreases a.len(),
{
    if a.len() == 0 {
        b.len() > 0
    } else if b.len() == 0 {
        false
    } else if (a[0] as u32) < (b[0] as u32) {
        true
    } else if a[0] == b[0] {
        lex_lt(a.drop_first(), b.drop_first())
    } else {
        false
    }
}

proof fn lemma_lex_irreflexive(a: Seq<char>)
    ensures
        !lex_lt(a, a),
    decreases a.len(),
{
    if a.len() > 0 {
        lemma_lex_irreflexive(a.drop_first());
    }
}

proof fn lemma_lex_transitive(a: Seq<char>, b: Seq<char>, c: Seq<char>)
    requires
        lex_lt(a, b),
        lex_lt(b, c),
    ensures
        lex_lt(a, c),
    decreases a.len(),
{
    if a.len() > 0 && b.len() > 0 && c.len() > 0 && a[0] == b[0] && b[0] == c[0] {
        lemma_lex_transitive(a.drop_first(), b.drop_first(), c.drop_first());
    }
}

/// The table's extensions in sorted order.
pub open spec fn sorted_extensions() -> Seq<Seq<char>> {
    seq![
        "32x"@,
        "3ds"@,
        "3dsx"@,
        "7z"@,
        "a26"@,
        "a52"@,
        "a78"@,
        "agb"@,
        "app"@,
        "bat"@,
        "bin"@,
        "bs"@,
        "ccd"@,
        "cci"@,
        "cdi"@,
        "chd"@,
        "cia"@,
        "ciso"@,
        "cmd"@,
        "cso"@,
        "cue"@,
        "cxi"@,
        "dat"@,
        "dsi"@,
        "ecm"@,
        "exe"@,
        "fds"@,
        "fig"@,
        "gb"@,
        "gba"@,
        "gbc"@,
        "gcm"@,
        "gcz"@,
        "gdi"@,
        "gen"@,
        "gg"@,
        "ids"@,
        "img"@,
        "iso"@,
        "lnk"@,
        "m3u"@,
        "md"@,
        "mdf"@,
        "mds"@,
        "mdx"@,
        "msi"@,
        "n64"@,
        "nca"@,
        "ndd"@,
        "nds"@,
        "neo"@,
        "nes"@,
        "nez"@,
        "nps"@,
        "nrg"@,
        "nro"@,
        "nsp"@,
        "nsz"@,
        "pbp"@,
        "pkg"@,
        "prx"@,
        "psp"@,
        "rar"@,
        "rpx"@,
        "rvz"@,
        "sfc"@,
        "sg"@,
        "smc"@,
        "smd"@,
        "sms"@,
        "srl"@,
        "ss"@,
        "st"@,
        "swc"@,
        "toc"@,
        "u1"@,
        "unf"@,
        "unif"@,
        "url"@,
        "v64"@,
        "vpk"@,
        "wad"@,
        "wbfs"@,
        "wia"@,
        "wud"@,
        "wux"@,
        "xci"@,
        "xcz"@,
        "z64"@,
        "zip"@
    ]
}

/// Where each table entry's extension sits in the sorted list.
pub open spec fn sorted_position() -> Seq<int> {
    seq![
        25, 39, 78, 9, 18, 45, 51, 76, 77, 26, 52, 65, 67, 73, 27, 11, 46, 88, 79, 75,
        48, 31, 32, 64, 17, 82, 81, 83, 85, 84, 63, 56, 86, 47, 55, 57, 87, 28, 30, 29,
        7, 49, 70, 23, 36, 1, 2, 13, 21, 16, 8, 58, 19, 61, 60, 80, 53, 41, 34, 68,
        44, 0, 69, 66, 35, 14, 33, 22, 71, 72, 4, 5, 6, 50, 38, 10, 37, 15, 20, 12,
        43, 42, 54, 40, 59, 24, 74, 89, 3, 62
    ]
}

/// Which table entry each sorted position holds.
pub open spec fn table_position() -> Seq<int> {
    seq![
        61, 45, 46, 88, 70, 71, 72, 40, 50, 3, 75, 15, 79, 47, 65, 77, 49, 24, 4, 52,
        78, 48, 67, 43, 85, 0, 9, 14, 37, 39, 38, 21, 22, 66, 58, 64, 44, 76, 74, 1,
        83, 57, 81, 80, 60, 5, 16, 33, 20, 41, 73, 6, 10, 56, 82, 34, 31, 35, 51, 84,
        54, 53, 89, 30, 23, 11, 63, 12, 59, 62, 42, 68, 69, 13, 86, 19, 7, 8, 2, 18,
        55, 26, 25, 27, 29, 28, 32, 36, 17, 87
    ]
}

proof fn lemma_sorted_run_0()
    ensures
        forall|m: int| 0 <= m < 8 ==> #[trigger] lex_lt(sorted_extensions()[m], sorted_extensions()[m + 1]),
{
    reveal_strlit("32x");
    reveal_strlit("3ds");
    reveal_strlit("3dsx");
    reveal_strlit("7z");
    reveal_strlit("a26");
    reveal_strlit("a52");
    reveal_strlit("a78");
    reveal_strlit("agb");
    reveal_strlit("app");
    reveal_with_fuel(lex_lt, 5);
    let s = sorted_extensions();
    assert(s[0] == "32x"@ && s[1] == "3ds"@);
    assert(lex_lt(s[0], s[1]));
    assert(s[1] == "3ds"@ && s[2] == "3dsx"@);
    assert(lex_lt(s[1], s[2]));
    assert(s[2] == "3dsx"@ && s[3] == "7z"@);
    assert(lex_lt(s[2], s[3]));
    assert(s[3] == "7z"@ && s[4] == "a26"@);
    assert(lex_lt(s[3], s[4]));
    assert(s[4] == "a26"@ && s[5] == "a52"@);
    assert(lex_lt(s[4], s[5]));
    assert(s[5] == "a52"@ && s[6] == "a78"@);
    assert(lex_lt(s[5], s[6]));
    assert(s[6] == "a78"@ && s[7] == "agb"@);
    assert(lex_lt(s[6], s[7]));
    assert(s[7] == "agb"@ && s[8] == "app"@);
    assert(lex_lt(s[7], s[8]));
}

proof fn lemma_sorted_run_1()
    ensures
        forall|m: int| 8 <= m < 16 ==> #[trigger] lex_lt(sorted_extensions()[m], sorted_extensions()[m + 1]),
{
    reveal_strlit("app");
    reveal_strlit("bat");
    reveal_strlit("bin");
    reveal_strlit("bs");
    reveal_strlit("ccd");
    reveal_strlit("cci");
    reveal_strlit("cdi");
    reveal_strlit("chd");
    reveal_strlit("cia");
    reveal_with_fuel(lex_lt, 5);
    let s = sorted_extensions();
    assert(s[8] == "app"@ && s[9] == "bat"@);
    assert(lex_lt(s[8], s[9]));
    assert(s[9] == "bat"@ && s[10] == "bin"@);
    assert(lex_lt(s[9], s[10]));
    assert(s[10] == "bin"@ && s[11] == "bs"@);
    assert(lex_lt(s[10], s[11]));
    assert(s[11] == "bs"@ && s[12] == "ccd"@);
    assert(lex_lt(s[11], s[12]));
    assert(s[12] == "ccd"@ && s[13] == "cci"@);
    assert(lex_lt(s[12], s[13]));
    assert(s[13] == "cci"@ && s[14] == "cdi"@);
    assert(lex_lt(s[13], s[14]));
    assert(s[14] == "cdi"@ && s[15] == "chd"@);
    assert(lex_lt(s[14], s[15]));
    assert(s[15] == "chd"@ && s[16] == "cia"@);
    assert(lex_lt(s[15], s[16]));
}

proof fn lemma_sorted_run_2()
    ensures
        forall|m: int| 16 <= m < 24 ==> #[trigger] lex_lt(sorted_extensions()[m], sorted_extensions()[m + 1]),
{
    reveal_strlit("cia");
    reveal_strlit("ciso");
    reveal_strlit("cmd");
    reveal_strlit("cso");
    reveal_strlit("cue");
    reveal_strlit("cxi");
    reveal_strlit("dat");
    reveal_strlit("dsi");
    reveal_strlit("ecm");
    reveal_with_fuel(lex_lt, 5);
    let s = sorted_extensions();
    assert(s[16] == "cia"@ && s[17] == "ciso"@);
    assert(lex_lt(s[16], s[17]));
    assert(s[17] == "ciso"@ && s[18] == "cmd"@);
    assert(lex_lt(s[17], s[18]));
    assert(s[18] == "cmd"@ && s[19] == "cso"@);
    assert(lex_lt(s[18], s[19]));
    assert(s[19] == "cso"@ && s[20] == "cue"@);
    assert(lex_lt(s[19], s[20]));
    assert(s[20] == "cue"@ && s[21] == "cxi"@);
    assert(lex_lt(s[20], s[21]));
    assert(s[21] == "cxi"@ && s[22] == "dat"@);
    assert(lex_lt(s[21], s[22]));
    assert(s[22] == "dat"@ && s[23] == "dsi"@);
    assert(lex_lt(s[22], s[23]));
    assert(s[23] == "dsi"@ && s[24] == "ecm"@);
    assert(lex_lt(s[23], s[24]));
}

proof fn lemma_sorted_run_3()
    ensures
        forall|m: int| 24 <= m < 32 ==> #[trigger] lex_lt(sorted_extensions()[m], sorted_extensions()[m + 1]),
{
    reveal_strlit("ecm");
    reveal_strlit("exe");
    reveal_strlit("fds");
    reveal_strlit("fig");
    reveal_strlit("gb");
    reveal_strlit("gba");
    reveal_strlit("gbc");
    reveal_strlit("gcm");
    reveal_strlit("gcz");
    reveal_with_fuel(lex_lt, 5);
    let s = sorted_extensions();
    assert(s[24] == "ecm"@ && s[25] == "exe"@);
    assert(lex_lt(s[24], s[25]));
    assert(s[25] == "exe"@ && s[26] == "fds"@);
    assert(lex_lt(s[25], s[26]));
    assert(s[26] == "fds"@ && s[27] == "fig"@);
    assert(lex_lt(s[26], s[27]));
    assert(s[27] == "fig"@ && s[28] == "gb"@);
    assert(lex_lt(s[27], s[28]));
    assert(s[28] == "gb"@ && s[29] == "gba"@);
    assert(lex_lt(s[28], s[29]));
    assert(s[29] == "gba"@ && s[30] == "gbc"@);
    assert(lex_lt(s[29], s[30]));
    assert(s[30] == "gbc"@ && s[31] == "gcm"@);
    assert(lex_lt(s[30], s[31]));
    assert(s[31] == "gcm"@ && s[32] == "gcz"@);
    assert(lex_lt(s[31], s[32]));
}

proof fn lemma_sorted_run_4()
    ensures
        forall|m: int| 32 <= m < 40 ==> #[trigger] lex_lt(sorted_extensions()[m], sorted_extensions()[m + 1]),
{
    reveal_strlit("gcz");
    reveal_strlit("gdi");
    reveal_strlit("gen");
    reveal_strlit("gg");
    reveal_strlit("ids");
    reveal_strlit("img");
    reveal_strlit("iso");
    reveal_strlit("lnk");
    reveal_strlit("m3u");
    reveal_with_fuel(lex_lt, 5);
    let s = sorted_extensions();
    assert(s[32] == "gcz"@ && s[33] == "gdi"@);
    assert(lex_lt(s[32], s[33]));
    assert(s[33] == "gdi"@ && s[34] == "gen"@);
    assert(lex_lt(s[33], s[34]));
    assert(s[34] == "gen"@ && s[35] == "gg"@);
    assert(lex_lt(s[34], s[35]));
    assert(s[35] == "gg"@ && s[36] == "ids"@);
    assert(lex_lt(s[35], s[36]));
    assert(s[36] == "ids"@ && s[37] == "img"@);
    assert(lex_lt(s[36], s[37]));
    assert(s[37] == "img"@ && s[38] == "iso"@);
    assert(lex_lt(s[37], s[38]));
    assert(s[38] == "iso"@ && s[39] == "lnk"@);
    assert(lex_lt(s[38], s[39]));
    assert(s[39] == "lnk"@ && s[40] == "m3u"@);
    assert(lex_lt(s[39], s[40]));
}

proof fn lemma_sorted_run_5()
    ensures
        forall|m: int| 40 <= m < 48 ==> #[trigger] lex_lt(sorted_extensions()[m], sorted_extensions()[m + 1]),
{
    reveal_strlit("m3u");
    reveal_strlit("md");
    reveal_strlit("mdf");
    reveal_strlit("mds");
    reveal_strlit("mdx");
    reveal_strlit("msi");
    reveal_strlit("n64");
    reveal_strlit("nca");
    reveal_strlit("ndd");
    reveal_with_fuel(lex_lt, 5);
    let s = sorted_extensions();
    assert(s[40] == "m3u"@ && s[41] == "md"@);
    assert(lex_lt(s[40], s[41]));
    assert(s[41] == "md"@ && s[42] == "mdf"@);
    assert(lex_lt(s[41], s[42]));
    assert(s[42] == "mdf"@ && s[43] == "mds"@);
    assert(lex_lt(s[42], s[43]));
    assert(s[43] == "mds"@ && s[44] == "mdx"@);
    assert(lex_lt(s[43], s[44]));
    assert(s[44] == "mdx"@ && s[45] == "msi"@);
    assert(lex_lt(s[44], s[45]));
    assert(s[45] == "msi"@ && s[46] == "n64"@);
    assert(lex_lt(s[45], s[46]));
    assert(s[46] == "n64"@ && s[47] == "nca"@);
    assert(lex_lt(s[46], s[47]));
    assert(s[47] == "nca"@ && s[48] == "ndd"@);
    assert(lex_lt(s[47], s[48]));
}

proof fn lemma_sorted_run_6()
    ensures
        forall|m: int| 48 <= m < 56 ==> #[trigger] lex_lt(sorted_extensions()[m], sorted_extensions()[m + 1]),
{
    reveal_strlit("ndd");
    reveal_strlit("nds");
    reveal_strlit("neo");
    reveal_strlit("nes");
    reveal_strlit("nez");
    reveal_strlit("nps");
    reveal_strlit("nrg");
    reveal_strlit("nro");
    reveal_strlit("nsp");
    reveal_with_fuel(lex_lt, 5);
    let s = sorted_extensions();
    assert(s[48] == "ndd"@ && s[49] == "nds"@);
    assert(lex_lt(s[48], s[49]));
    assert(s[49] == "nds"@ && s[50] == "neo"@);
    assert(lex_lt(s[49], s[50]));
    assert(s[50] == "neo"@ && s[51] == "nes"@);
    assert(lex_lt(s[50], s[51]));
    assert(s[51] == "nes"@ && s[52] == "nez"@);
    assert(lex_lt(s[51], s[52]));
    assert(s[52] == "nez"@ && s[53] == "nps"@);
    assert(lex_lt(s[52], s[53]));
    assert(s[53] == "nps"@ && s[54] == "nrg"@);
    assert(lex_lt(s[53], s[54]));
    assert(s[54] == "nrg"@ && s[55] == "nro"@);
    assert(lex_lt(s[54], s[55]));
    assert(s[55] == "nro"@ && s[56] == "nsp"@);
    assert(lex_lt(s[55], s[56]));
}

proof fn lemma_sorted_run_7()
    ensures
        forall|m: int| 56 <= m < 64 ==> #[trigger] lex_lt(sorted_extensions()[m], sorted_extensions()[m + 1]),
{
    reveal_strlit("nsp");
    reveal_strlit("nsz");
    reveal_strlit("pbp");
    reveal_strlit("pkg");
    reveal_strlit("prx");
    reveal_strlit("psp");
    reveal_strlit("rar");
    reveal_strlit("rpx");
    reveal_strlit("rvz");
    reveal_with_fuel(lex_lt, 5);
    let s = sorted_extensions();
    assert(s[56] == "nsp"@ && s[57] == "nsz"@);
    assert(lex_lt(s[56], s[57]));
    assert(s[57] == "nsz"@ && s[58] == "pbp"@);
    assert(lex_lt(s[57], s[58]));
    assert(s[58] == "pbp"@ && s[59] == "pkg"@);
    assert(lex_lt(s[58], s[59]));
    assert(s[59] == "pkg"@ && s[60] == "prx"@);
    assert(lex_lt(s[59], s[60]));
    assert(s[60] == "prx"@ && s[61] == "psp"@);
    assert(lex_lt(s[60], s[61]));
    assert(s[61] == "psp"@ && s[62] == "rar"@);
    assert(lex_lt(s[61], s[62]));
    assert(s[62] == "rar"@ && s[63] == "rpx"@);
    assert(lex_lt(s[62], s[63]));
    assert(s[63] == "rpx"@ && s[64] == "rvz"@);
    assert(lex_lt(s[63], s[64]));
}

proof fn lemma_sorted_run_8()
    ensures
        forall|m: int| 64 <= m < 72 ==> #[trigger] lex_lt(sorted_extensions()[m], sorted_extensions()[m + 1]),
{
    reveal_strlit("rvz");
    reveal_strlit("sfc");
    reveal_strlit("sg");
    reveal_strlit("smc");
    reveal_strlit("smd");
    reveal_strlit("sms");
    reveal_strlit("srl");
    reveal_strlit("ss");
    reveal_strlit("st");
    reveal_with_fuel(lex_lt, 5);
    let s = sorted_extensions();
    assert(s[64] == "rvz"@ && s[65] == "sfc"@);
    assert(lex_lt(s[64], s[65]));
    assert(s[65] == "sfc"@ && s[66] == "sg"@);
    assert(lex_lt(s[65], s[66]));
    assert(s[66] == "sg"@ && s[67] == "smc"@);
    assert(lex_lt(s[66], s[67]));
    assert(s[67] == "smc"@ && s[68] == "smd"@);
    assert(lex_lt(s[67], s[68]));
    assert(s[68] == "smd"@ && s[69] == "sms"@);
    assert(lex_lt(s[68], s[69]));
    assert(s[69] == "sms"@ && s[70] == "srl"@);
    assert(lex_lt(s[69], s[70]));
    assert(s[70] == "srl"@ && s[71] == "ss"@);
    assert(lex_lt(s[70], s[71]));
    assert(s[71] == "ss"@ && s[72] == "st"@);
    assert(lex_lt(s[71], s[72]));
}

proof fn lemma_sorted_run_9()
    ensures
        forall|m: int| 72 <= m < 80 ==> #[trigger] lex_lt(sorted_extensions()[m], sorted_extensions()[m + 1]),
{
    reveal_strlit("st");
    reveal_strlit("swc");
    reveal_strlit("toc");
    reveal_strlit("u1");
    reveal_strlit("unf");
    reveal_strlit("unif");
    reveal_strlit("url");
    reveal_strlit("v64");
    reveal_strlit("vpk");
    reveal_with_fuel(lex_lt, 5);
    let s = sorted_extensions();
    assert(s[72] == "st"@ && s[73] == "swc"@);
    assert(lex_lt(s[72], s[73]));
    assert(s[73] == "swc"@ && s[74] == "toc"@);
    assert(lex_lt(s[73], s[74]));
    assert(s[74] == "toc"@ && s[75] == "u1"@);
    assert(lex_lt(s[74], s[75]));
    assert(s[75] == "u1"@ && s[76] == "unf"@);
    assert(lex_lt(s[75], s[76]));
    assert(s[76] == "unf"@ && s[77] == "unif"@);
    assert(lex_lt(s[76], s[77]));
    assert(s[77] == "unif"@ && s[78] == "url"@);
    assert(lex_lt(s[77], s[78]));
    assert(s[78] == "url"@ && s[79] == "v64"@);
    assert(lex_lt(s[78], s[79]));
    assert(s[79] == "v64"@ && s[80] == "vpk"@);
    assert(lex_lt(s[79], s[80]));
}

proof fn lemma_sorted_run_10()
    ensures
        forall|m: int| 80 <= m < 88 ==> #[trigger] lex_lt(sorted_extensions()[m], sorted_extensions()[m + 1]),
{
    reveal_strlit("vpk");
    reveal_strlit("wad");
    reveal_strlit("wbfs");
    reveal_strlit("wia");
    reveal_strlit("wud");
    reveal_strlit("wux");
    reveal_strlit("xci");
    reveal_strlit("xcz");
    reveal_strlit("z64");
    reveal_with_fuel(lex_lt, 5);
    let s = sorted_extensions();
    assert(s[80] == "vpk"@ && s[81] == "wad"@);
    assert(lex_lt(s[80], s[81]));
    assert(s[81] == "wad"@ && s[82] == "wbfs"@);
    assert(lex_lt(s[81], s[82]));
    assert(s[82] == "wbfs"@ && s[83] == "wia"@);
    assert(lex_lt(s[82], s[83]));
    assert(s[83] == "wia"@ && s[84] == "wud"@);
    assert(lex_lt(s[83], s[84]));
    assert(s[84] == "wud"@ && s[85] == "wux"@);
    assert(lex_lt(s[84], s[85]));
    assert(s[85] == "wux"@ && s[86] == "xci"@);
    assert(lex_lt(s[85], s[86]));
    assert(s[86] == "xci"@ && s[87] == "xcz"@);
    assert(lex_lt(s[86], s[87]));
    assert(s[87] == "xcz"@ && s[88] == "z64"@);
    assert(lex_lt(s[87], s[88]));
}

proof fn lemma_sorted_run_11()
    ensures
        forall|m: int| 88 <= m < 89 ==> #[trigger] lex_lt(sorted_extensions()[m], sorted_extensions()[m + 1]),
{
    reveal_strlit("z64");
    reveal_strlit("zip");
    reveal_with_fuel(lex_lt, 5);
    let s = sorted_extensions();
    assert(s[88] == "z64"@ && s[89] == "zip"@);
    assert(lex_lt(s[88], s[89]));
}

proof fn lemma_sorted_adjacent()
    ensures
        forall|m: int| 0 <= m < 89 ==> #[trigger] lex_lt(sorted_extensions()[m], sorted_extensions()[m + 1]),
{
    lemma_sorted_run_0();
    lemma_sorted_run_1();
    lemma_sorted_run_2();
    lemma_sorted_run_3();
    lemma_sorted_run_4();
    lemma_sorted_run_5();
    lemma_sorted_run_6();
    lemma_sorted_run_7();
    lemma_sorted_run_8();
    lemma_sorted_run_9();
    lemma_sorted_run_10();
    lemma_sorted_run_11();
    assert forall|m: int| 0 <= m < 89 implies #[trigger] lex_lt(sorted_extensions()[m], sorted_extensions()[m + 1]) by {
        if 0 <= m < 8 { assert(lex_lt(sorted_extensions()[m], sorted_extensions()[m + 1])); }
        if 8 <= m < 16 { assert(lex_lt(sorted_extensions()[m], sorted_extensions()[m + 1])); }
        if 16 <= m < 24 { assert(lex_lt(sorted_extensions()[m], sorted_extensions()[m + 1])); }
        if 24 <= m < 32 { assert(lex_lt(sorted_extensions()[m], sorted_extensions()[m + 1])); }
        if 32 <= m < 40 { assert(lex_lt(sorted_extensions()[m], sorted_extensions()[m + 1])); }
        if 40 <= m < 48 { assert(lex_lt(sorted_extensions()[m], sorted_extensions()[m + 1])); }
        if 48 <= m < 56 { assert(lex_lt(sorted_extensions()[m], sorted_extensions()[m + 1])); }
        if 56 <= m < 64 { assert(lex_lt(sorted_extensions()[m], sorted_extensions()[m + 1])); }
        if 64 <= m < 72 { assert(lex_lt(sorted_extensions()[m], sorted_extensions()[m + 1])); }
        if 72 <= m < 80 { assert(lex_lt(sorted_extensions()[m], sorted_extensions()[m + 1])); }
        if 80 <= m < 88 { assert(lex_lt(sorted_extensions()[m], sorted_extensions()[m + 1])); }
        if 88 <= m < 89 { assert(lex_lt(sorted_extensions()[m], sorted_extensions()[m + 1])); }
    }
}

proof fn lemma_sorted_chain(k: int, l: int)
    requires
        0 <= k < l < sorted_extensions().len(),
    ensures
        lex_lt(sorted_extensions()[k], sorted_extensions()[l]),
    decreases l - k,
{
    lemma_sorted_adjacent();
    if l > k + 1 {
        lemma_sorted_chain(k, l - 1);
        let m = l - 1;
        assert(lex_lt(sorted_extensions()[m], sorted_extensions()[m + 1]));
        assert(m + 1 == l);
        lemma_lex_transitive(sorted_extensions()[k], sorted_extensions()[l - 1], sorted_extensions()[l]);
    } else {
        assert(lex_lt(sorted_extensions()[k], sorted_extensions()[k + 1]));
    }
}

proof fn lemma_placed_0()
    ensures
        forall|i: int| 0 <= i < 15 ==> 0 <= #[trigger] sorted_position()[i] < 90 && ext_table()[i].0 == sorted_extensions()[sorted_position()[i]] && table_position()[sorted_position()[i]] == i,
{
    let t = ext_table();
    let r = sorted_position();
    let p = table_position();
    let s = sorted_extensions();
    assert(r[0] == 25 && p[25] == 0 && t[0].0 == "exe"@ && s[25] == "exe"@);
    assert(r[1] == 39 && p[39] == 1 && t[1].0 == "lnk"@ && s[39] == "lnk"@);
    assert(r[2] == 78 && p[78] == 2 && t[2].0 == "url"@ && s[78] == "url"@);
    assert(r[3] == 9 && p[9] == 3 && t[3].0 == "bat"@ && s[9] == "bat"@);
    assert(r[4] == 18 && p[18] == 4 && t[4].0 == "cmd"@ && s[18] == "cmd"@);
    assert(r[5] == 45 && p[45] == 5 && t[5].0 == "msi"@ && s[45] == "msi"@);
    assert(r[6] == 51 && p[51] == 6 && t[6].0 == "nes"@ && s[51] == "nes"@);
    assert(r[7] == 76 && p[76] == 7 && t[7].0 == "unf"@ && s[76] == "unf"@);
    assert(r[8] == 77 && p[77] == 8 && t[8].0 == "unif"@ && s[77] == "unif"@);
    assert(r[9] == 26 && p[26] == 9 && t[9].0 == "fds"@ && s[26] == "fds"@);
    assert(r[10] == 52 && p[52] == 10 && t[10].0 == "nez"@ && s[52] == "nez"@);
    assert(r[11] == 65 && p[65] == 11 && t[11].0 == "sfc"@ && s[65] == "sfc"@);
    assert(r[12] == 67 && p[67] == 12 && t[12].0 == "smc"@ && s[67] == "smc"@);
    assert(r[13] == 73 && p[73] == 13 && t[13].0 == "swc"@ && s[73] == "swc"@);
    assert(r[14] == 27 && p[27] == 14 && t[14].0 == "fig"@ && s[27] == "fig"@);
}

proof fn lemma_placed_1()
    ensures
        forall|i: int| 15 <= i < 30 ==> 0 <= #[trigger] sorted_position()[i] < 90 && ext_table()[i].0 == sorted_extensions()[sorted_position()[i]] && table_position()[sorted_position()[i]] == i,
{
    let t = ext_table();
    let r = sorted_position();
    let p = table_position();
    let s = sorted_extensions();
    assert(r[15] == 11 && p[11] == 15 && t[15].0 == "bs"@ && s[11] == "bs"@);
    assert(r[16] == 46 && p[46] == 16 && t[16].0 == "n64"@ && s[46] == "n64"@);
    assert(r[17] == 88 && p[88] == 17 && t[17].0 == "z64"@ && s[88] == "z64"@);
    assert(r[18] == 79 && p[79] == 18 && t[18].0 == "v64"@ && s[79] == "v64"@);
    assert(r[19] == 75 && p[75] == 19 && t[19].0 == "u1"@ && s[75] == "u1"@);
    assert(r[20] == 48 && p[48] == 20 && t[20].0 == "ndd"@ && s[48] == "ndd"@);
    assert(r[21] == 31 && p[31] == 21 && t[21].0 == "gcm"@ && s[31] == "gcm"@);
    assert(r[22] == 32 && p[32] == 22 && t[22].0 == "gcz"@ && s[32] == "gcz"@);
    assert(r[23] == 64 && p[64] == 23 && t[23].0 == "rvz"@ && s[64] == "rvz"@);
    assert(r[24] == 17 && p[17] == 24 && t[24].0 == "ciso"@ && s[17] == "ciso"@);
    assert(r[25] == 82 && p[82] == 25 && t[25].0 == "wbfs"@ && s[82] == "wbfs"@);
    assert(r[26] == 81 && p[81] == 26 && t[26].0 == "wad"@ && s[81] == "wad"@);
    assert(r[27] == 83 && p[83] == 27 && t[27].0 == "wia"@ && s[83] == "wia"@);
    assert(r[28] == 85 && p[85] == 28 && t[28].0 == "wux"@ && s[85] == "wux"@);
    assert(r[29] == 84 && p[84] == 29 && t[29].0 == "wud"@ && s[84] == "wud"@);
}

proof fn lemma_placed_2()
    ensures
        forall|i: int| 30 <= i < 45 ==> 0 <= #[trigger] sorted_position()[i] < 90 && ext_table()[i].0 == sorted_extensions()[sorted_position()[i]] && table_position()[sorted_position()[i]] == i,
{
    let t = ext_table();
    let r = sorted_position();
    let p = table_position();
    let s = sorted_extensions();
    assert(r[30] == 63 && p[63] == 30 && t[30].0 == "rpx"@ && s[63] == "rpx"@);
    assert(r[31] == 56 && p[56] == 31 && t[31].0 == "nsp"@ && s[56] == "nsp"@);
    assert(r[32] == 86 && p[86] == 32 && t[32].0 == "xci"@ && s[86] == "xci"@);
    assert(r[33] == 47 && p[47] == 33 && t[33].0 == "nca"@ && s[47] == "nca"@);
    assert(r[34] == 55 && p[55] == 34 && t[34].0 == "nro"@ && s[55] == "nro"@);
    assert(r[35] == 57 && p[57] == 35 && t[35].0 == "nsz"@ && s[57] == "nsz"@);
    assert(r[36] == 87 && p[87] == 36 && t[36].0 == "xcz"@ && s[87] == "xcz"@);
    assert(r[37] == 28 && p[28] == 37 && t[37].0 == "gb"@ && s[28] == "gb"@);
    assert(r[38] == 30 && p[30] == 38 && t[38].0 == "gbc"@ && s[30] == "gbc"@);
    assert(r[39] == 29 && p[29] == 39 && t[39].0 == "gba"@ && s[29] == "gba"@);
    assert(r[40] == 7 && p[7] == 40 && t[40].0 == "agb"@ && s[7] == "agb"@);
    assert(r[41] == 49 && p[49] == 41 && t[41].0 == "nds"@ && s[49] == "nds"@);
    assert(r[42] == 70 && p[70] == 42 && t[42].0 == "srl"@ && s[70] == "srl"@);
    assert(r[43] == 23 && p[23] == 43 && t[43].0 == "dsi"@ && s[23] == "dsi"@);
    assert(r[44] == 36 && p[36] == 44 && t[44].0 == "ids"@ && s[36] == "ids"@);
}

proof fn lemma_placed_3()
    ensures
        forall|i: int| 45 <= i < 60 ==> 0 <= #[trigger] sorted_position()[i] < 90 && ext_table()[i].0 == sorted_extensions()[sorted_position()[i]] && table_position()[sorted_position()[i]] == i,
{
    let t = ext_table();
    let r = sorted_position();
    let p = table_position();
    let s = sorted_extensions();
    assert(r[45] == 1 && p[1] == 45 && t[45].0 == "3ds"@ && s[1] == "3ds"@);
    assert(r[46] == 2 && p[2] == 46 && t[46].0 == "3dsx"@ && s[2] == "3dsx"@);
    assert(r[47] == 13 && p[13] == 47 && t[47].0 == "cci"@ && s[13] == "cci"@);
    assert(r[48] == 21 && p[21] == 48 && t[48].0 == "cxi"@ && s[21] == "cxi"@);
    assert(r[49] == 16 && p[16] == 49 && t[49].0 == "cia"@ && s[16] == "cia"@);
    assert(r[50] == 8 && p[8] == 50 && t[50].0 == "app"@ && s[8] == "app"@);
    assert(r[51] == 58 && p[58] == 51 && t[51].0 == "pbp"@ && s[58] == "pbp"@);
    assert(r[52] == 19 && p[19] == 52 && t[52].0 == "cso"@ && s[19] == "cso"@);
    assert(r[53] == 61 && p[61] == 53 && t[53].0 == "psp"@ && s[61] == "psp"@);
    assert(r[54] == 60 && p[60] == 54 && t[54].0 == "prx"@ && s[60] == "prx"@);
    assert(r[55] == 80 && p[80] == 55 && t[55].0 == "vpk"@ && s[80] == "vpk"@);
    assert(r[56] == 53 && p[53] == 56 && t[56].0 == "nps"@ && s[53] == "nps"@);
    assert(r[57] == 41 && p[41] == 57 && t[57].0 == "md"@ && s[41] == "md"@);
    assert(r[58] == 34 && p[34] == 58 && t[58].0 == "gen"@ && s[34] == "gen"@);
    assert(r[59] == 68 && p[68] == 59 && t[59].0 == "smd"@ && s[68] == "smd"@);
}

proof fn lemma_placed_4()
    ensures
        forall|i: int| 60 <= i < 75 ==> 0 <= #[trigger] sorted_position()[i] < 90 && ext_table()[i].0 == sorted_extensions()[sorted_position()[i]] && table_position()[sorted_position()[i]] == i,
{
    let t = ext_table();
    let r = sorted_position();
    let p = table_position();
    let s = sorted_extensions();
    assert(r[60] == 44 && p[44] == 60 && t[60].0 == "mdx"@ && s[44] == "mdx"@);
    assert(r[61] == 0 && p[0] == 61 && t[61].0 == "32x"@ && s[0] == "32x"@);
    assert(r[62] == 69 && p[69] == 62 && t[62].0 == "sms"@ && s[69] == "sms"@);
    assert(r[63] == 66 && p[66] == 63 && t[63].0 == "sg"@ && s[66] == "sg"@);
    assert(r[64] == 35 && p[35] == 64 && t[64].0 == "gg"@ && s[35] == "gg"@);
    assert(r[65] == 14 && p[14] == 65 && t[65].0 == "cdi"@ && s[14] == "cdi"@);
    assert(r[66] == 33 && p[33] == 66 && t[66].0 == "gdi"@ && s[33] == "gdi"@);
    assert(r[67] == 22 && p[22] == 67 && t[67].0 == "dat"@ && s[22] == "dat"@);
    assert(r[68] == 71 && p[71] == 68 && t[68].0 == "ss"@ && s[71] == "ss"@);
    assert(r[69] == 72 && p[72] == 69 && t[69].0 == "st"@ && s[72] == "st"@);
    assert(r[70] == 4 && p[4] == 70 && t[70].0 == "a26"@ && s[4] == "a26"@);
    assert(r[71] == 5 && p[5] == 71 && t[71].0 == "a52"@ && s[5] == "a52"@);
    assert(r[72] == 6 && p[6] == 72 && t[72].0 == "a78"@ && s[6] == "a78"@);
    assert(r[73] == 50 && p[50] == 73 && t[73].0 == "neo"@ && s[50] == "neo"@);
    assert(r[74] == 38 && p[38] == 74 && t[74].0 == "iso"@ && s[38] == "iso"@);
}

proof fn lemma_placed_5()
    ensures
        forall|i: int| 75 <= i < 90 ==> 0 <= #[trigger] sorted_position()[i] < 90 && ext_table()[i].0 == sorted_extensions()[sorted_position()[i]] && table_position()[sorted_position()[i]] == i,
{
    let t = ext_table();
    let r = sorted_position();
    let p = table_position();
    let s = sorted_extensions();
    assert(r[75] == 10 && p[10] == 75 && t[75].0 == "bin"@ && s[10] == "bin"@);
    assert(r[76] == 37 && p[37] == 76 && t[76].0 == "img"@ && s[37] == "img"@);
    assert(r[77] == 15 && p[15] == 77 && t[77].0 == "chd"@ && s[15] == "chd"@);
    assert(r[78] == 20 && p[20] == 78 && t[78].0 == "cue"@ && s[20] == "cue"@);
    assert(r[79] == 12 && p[12] == 79 && t[79].0 == "ccd"@ && s[12] == "ccd"@);
    assert(r[80] == 43 && p[43] == 80 && t[80].0 == "mds"@ && s[43] == "mds"@);
    assert(r[81] == 42 && p[42] == 81 && t[81].0 == "mdf"@ && s[42] == "mdf"@);
    assert(r[82] == 54 && p[54] == 82 && t[82].0 == "nrg"@ && s[54] == "nrg"@);
    assert(r[83] == 40 && p[40] == 83 && t[83].0 == "m3u"@ && s[40] == "m3u"@);
    assert(r[84] == 59 && p[59] == 84 && t[84].0 == "pkg"@ && s[59] == "pkg"@);
    assert(r[85] == 24 && p[24] == 85 && t[85].0 == "ecm"@ && s[24] == "ecm"@);
    assert(r[86] == 74 && p[74] == 86 && t[86].0 == "toc"@ && s[74] == "toc"@);
    assert(r[87] == 89 && p[89] == 87 && t[87].0 == "zip"@ && s[89] == "zip"@);
    assert(r[88] == 3 && p[3] == 88 && t[88].0 == "7z"@ && s[3] == "7z"@);
    assert(r[89] == 62 && p[62] == 89 && t[89].0 == "rar"@ && s[62] == "rar"@);
}

proof fn lemma_placed()
    ensures
        forall|i: int| 0 <= i < 90 ==> 0 <= #[trigger] sorted_position()[i] < 90 && ext_table()[i].0 == sorted_extensions()[sorted_position()[i]] && table_position()[sorted_position()[i]] == i,
{
    lemma_placed_0();
    lemma_placed_1();
    lemma_placed_2();
    lemma_placed_3();
    lemma_placed_4();
    lemma_placed_5();
    assert forall|i: int| 0 <= i < 90 implies 0 <= #[trigger] sorted_position()[i] < 90 && ext_table()[i].0 == sorted_extensions()[sorted_position()[i]] && table_position()[sorted_position()[i]] == i by {
        if 0 <= i < 15 { assert(0 <= sorted_position()[i] < 90); }
        if 15 <= i < 30 { assert(0 <= sorted_position()[i] < 90); }
        if 30 <= i < 45 { assert(0 <= sorted_position()[i] < 90); }
        if 45 <= i < 60 { assert(0 <= sorted_position()[i] < 90); }
        if 60 <= i < 75 { assert(0 <= sorted_position()[i] < 90); }
        if 75 <= i < 90 { assert(0 <= sorted_position()[i] < 90); }
    }
}

/// No extension is listed twice in the table.
pub proof fn lemma_extensions_distinct()
    ensures
        forall|i: int, j: int|
            0 <= i < ext_table().len() && 0 <= j < ext_table().len() && i != j
                ==> #[trigger] ext_table()[i].0 != #[trigger] ext_table()[j].0,
{
    lemma_placed();
    assert(ext_table().len() == 90);
    assert(sorted_extensions().len() == 90);
    assert forall|i: int, j: int|
        0 <= i < ext_table().len() && 0 <= j < ext_table().len() && i != j
            implies #[trigger] ext_table()[i].0 != #[trigger] ext_table()[j].0 by {
        let ri = sorted_position()[i];
        let rj = sorted_position()[j];
        assert(0 <= ri < 90 && 0 <= rj < 90);
        assert(table_position()[ri] == i && table_position()[rj] == j);
        assert(ri != rj);
        if ri < rj {
            lemma_sorted_chain(ri, rj);
            lemma_lex_irreflexive(sorted_extensions()[ri]);
        } else {
            lemma_sorted_chain(rj, ri);
            lemma_lex_irreflexive(sorted_extensions()[rj]);
        }
    }
}

proof fn lemma_lookup_first(t: Seq<(Seq<char>, Platform)>, i: int)
    requires
        0 <= i < t.len(),
        forall|j: int| 0 <= j < i ==> #[trigger] t[j].0 != t[i].0,
    ensures
        lookup(t, t[i].0) == Some(t[i].1),
    decreases i,
{
    if i > 0 {
        assert(t[0].0 != t[i].0);
        let u = t.drop_first();
        assert(u[i - 1] == t[i]);
        assert forall|j: int| 0 <= j < i - 1 implies #[trigger] u[j].0 != u[i - 1].0 by {
            assert(u[j] == t[j + 1]);
        }
        lemma_lookup_first(u, i - 1);
    }
}

/// Every extension of the table resolves to the platform the table gives
/// it.
pub proof fn lemma_known_extensions_resolve()
    ensures
        forall|i: int|
            0 <= i < ext_table().len() ==> lookup(ext_table(), #[trigger] ext_table()[i].0) == Some(
                ext_table()[i].1,
            ),
{
    lemma_extensions_distinct();
    assert forall|i: int| 0 <= i < ext_table().len() implies lookup(ext_table(), #[trigger] ext_table()[i].0) == Some(
        ext_table()[i].1,
    ) by {
        assert forall|j: int| 0 <= j < i implies #[trigger] ext_table()[j].0 != ext_table()[i].0 by {
            assert(ext_table()[j].0 != ext_table()[i].0);
        }
        lemma_lookup_first(ext_table(), i);
    }
}

/// Every platform has a non-empty display name.
pub proof fn lemma_display_names_nonempty(p: Platform)
    ensures
        p.spec_display_name().len() > 0,
{
    reveal_strlit("PC");
    reveal_strlit("NES");
    reveal_strlit("SNES");
    reveal_strlit("Nintendo 64");
    reveal_strlit("GameCube");
    reveal_strlit("Wii");
    reveal_strlit("Wii U");
    reveal_strlit("Switch");
    reveal_strlit("Game Boy");
    reveal_strlit("Game Boy Color");
    reveal_strlit("Game Boy Advance");
    reveal_strlit("Nintendo DS");
    reveal_strlit("Nintendo 3DS");
    reveal_strlit("PlayStation");
    reveal_strlit("PlayStation 2");
    reveal_strlit("PlayStation 3");
    reveal_strlit("PSP");
    reveal_strlit("PS Vita");
    reveal_strlit("Mega Drive / Genesis");
    reveal_strlit("Master System");
    reveal_strlit("Game Gear");
    reveal_strlit("Saturn");
    reveal_strlit("Dreamcast");
    reveal_strlit("Atari 2600");
    reveal_strlit("Neo Geo");
    reveal_strlit("Arcade");
    reveal_strlit("Other");
}

/// The display names in sorted order.
pub open spec fn sorted_display_names() -> Seq<Seq<char>> {
    seq![
        "Arcade"@,
        "Atari 2600"@,
        "Dreamcast"@,
        "Game Boy"@,
        "Game Boy Advance"@,
        "Game Boy Color"@,
        "Game Gear"@,
        "GameCube"@,
        "Master System"@,
        "Mega Drive / Genesis"@,
        "NES"@,
        "Neo Geo"@,
        "Nintendo 3DS"@,
        "Nintendo 64"@,
        "Nintendo DS"@,
        "Other"@,
        "PC"@,
        "PS Vita"@,
        "PSP"@,
        "PlayStation"@,
        "PlayStation 2"@,
        "PlayStation 3"@,
        "SNES"@,
        "Saturn"@,
        "Switch"@,
        "Wii"@,
        "Wii U"@
    ]
}

/// Where a platform's display name sits among the sorted names.
pub open spec fn display_rank(p: Platform) -> int {
    match p {
        Platform::Pc => 16,
        Platform::Nes => 10,
        Platform::Snes => 22,
        Platform::N64 => 13,
        Platform::GameCube => 7,
        Platform::Wii => 25,
        Platform::WiiU => 26,
        Platform::Switch => 24,
        Platform::Gameboy => 3,
        Platform::GameboyColor => 5,
        Platform::GameboyAdvance => 4,
        Platform::Nds => 14,
        Platform::Threeds => 12,
        Platform::Ps1 => 19,
        Platform::Ps2 => 20,
        Platform::Ps3 => 21,
        Platform::Psp => 18,
        Platform::PsVita => 17,
        Platform::Genesis => 9,
        Platform::MasterSystem => 8,
        Platform::GameGear => 6,
        Platform::Saturn => 23,
        Platform::Dreamcast => 2,
        Platform::Atari2600 => 1,
        Platform::NeoGeo => 11,
        Platform::Arcade => 0,
        Platform::Other => 15,
    }
}

/// The platform whose display name sits at each sorted position.
pub open spec fn platform_at_rank() -> Seq<Platform> {
    seq![
        Platform::Arcade,
        Platform::Atari2600,
        Platform::Dreamcast,
        Platform::Gameboy,
        Platform::GameboyAdvance,
        Platform::GameboyColor,
        Platform::GameGear,
        Platform::GameCube,
        Platform::MasterSystem,
        Platform::Genesis,
        Platform::Nes,
        Platform::NeoGeo,
        Platform::Threeds,
        Platform::N64,
        Platform::Nds,
        Platform::Other,
        Platform::Pc,
        Platform::PsVita,
        Platform::Psp,
        Platform::Ps1,
        Platform::Ps2,
        Platform::Ps3,
        Platform::Snes,
        Platform::Saturn,
        Platform::Switch,
        Platform::Wii,
        Platform::WiiU
    ]
}

proof fn lemma_names_run_0()
    ensures
        forall|m: int| 0 <= m < 7 ==> #[trigger] lex_lt(sorted_display_names()[m], sorted_display_names()[m + 1]),
{
    reveal_strlit("Arcade");
    reveal_strlit("Atari 2600");
    reveal_strlit("Dreamcast");
    reveal_strlit("Game Boy");
    reveal_strlit("Game Boy Advance");
    reveal_strlit("Game Boy Color");
    reveal_strlit("Game Gear");
    reveal_strlit("GameCube");
    reveal_with_fuel(lex_lt, 22);
    let s = sorted_display_names();
    assert(s[0] == "Arcade"@ && s[1] == "Atari 2600"@);
    assert(lex_lt(s[0], s[1]));
    assert(s[1] == "Atari 2600"@ && s[2] == "Dreamcast"@);
    assert(lex_lt(s[1], s[2]));
    assert(s[2] == "Dreamcast"@ && s[3] == "Game Boy"@);
    assert(lex_lt(s[2], s[3]));
    assert(s[3] == "Game Boy"@ && s[4] == "Game Boy Advance"@);
    assert(lex_lt(s[3], s[4]));
    assert(s[4] == "Game Boy Advance"@ && s[5] == "Game Boy Color"@);
    assert(lex_lt(s[4], s[5]));
    assert(s[5] == "Game Boy Color"@ && s[6] == "Game Gear"@);
    assert(lex_lt(s[5], s[6]));
    assert(s[6] == "Game Gear"@ && s[7] == "GameCube"@);
    assert(lex_lt(s[6], s[7]));
}

proof fn lemma_names_run_1()
    ensures
        forall|m: int| 7 <= m < 14 ==> #[trigger] lex_lt(sorted_display_names()[m], sorted_display_names()[m + 1]),
{
    reveal_strlit("GameCube");
    reveal_strlit("Master System");
    reveal_strlit("Mega Drive / Genesis");
    reveal_strlit("NES");
    reveal_strlit("Neo Geo");
    reveal_strlit("Nintendo 3DS");
    reveal_strlit("Nintendo 64");
    reveal_strlit("Nintendo DS");
    reveal_with_fuel(lex_lt, 22);
    let s = sorted_display_names();
    assert(s[7] == "GameCube"@ && s[8] == "Master System"@);
    assert(lex_lt(s[7], s[8]));
    assert(s[8] == "Master System"@ && s[9] == "Mega Drive / Genesis"@);
    assert(lex_lt(s[8], s[9]));
    assert(s[9] == "Mega Drive / Genesis"@ && s[10] == "NES"@);
    assert(lex_lt(s[9], s[10]));
    assert(s[10] == "NES"@ && s[11] == "Neo Geo"@);
    assert(lex_lt(s[10], s[11]));
    assert(s[11] == "Neo Geo"@ && s[12] == "Nintendo 3DS"@);
    assert(lex_lt(s[11], s[12]));
    assert(s[12] == "Nintendo 3DS"@ && s[13] == "Nintendo 64"@);
    assert(lex_lt(s[12], s[13]));
    assert(s[13] == "Nintendo 64"@ && s[14] == "Nintendo DS"@);
    assert(lex_lt(s[13], s[14]));
}

proof fn lemma_names_run_2()
    ensures
        forall|m: int| 14 <= m < 21 ==> #[trigger] lex_lt(sorted_display_names()[m], sorted_display_names()[m + 1]),
{
    reveal_strlit("Nintendo DS");
    reveal_strlit("Other");
    reveal_strlit("PC");
    reveal_strlit("PS Vita");
    reveal_strlit("PSP");
    reveal_strlit("PlayStation");
    reveal_strlit("PlayStation 2");
    reveal_strlit("PlayStation 3");
    reveal_with_fuel(lex_lt, 22);
    let s = sorted_display_names();
    assert(s[14] == "Nintendo DS"@ && s[15] == "Other"@);
    assert(lex_lt(s[14], s[15]));
    assert(s[15] == "Other"@ && s[16] == "PC"@);
    assert(lex_lt(s[15], s[16]));
    assert(s[16] == "PC"@ && s[17] == "PS Vita"@);
    assert(lex_lt(s[16], s[17]));
    assert(s[17] == "PS Vita"@ && s[18] == "PSP"@);
    assert(lex_lt(s[17], s[18]));
    assert(s[18] == "PSP"@ && s[19] == "PlayStation"@);
    assert(lex_lt(s[18], s[19]));
    assert(s[19] == "PlayStation"@ && s[20] == "PlayStation 2"@);
    assert(lex_lt(s[19], s[20]));
    assert(s[20] == "PlayStation 2"@ && s[21] == "PlayStation 3"@);
    assert(lex_lt(s[20], s[21]));
}

proof fn lemma_names_run_3()
    ensures
        forall|m: int| 21 <= m < 26 ==> #[trigger] lex_lt(sorted_display_names()[m], sorted_display_names()[m + 1]),
{
    reveal_strlit("PlayStation 3");
    reveal_strlit("SNES");
    reveal_strlit("Saturn");
    reveal_strlit("Switch");
    reveal_strlit("Wii");
    reveal_strlit("Wii U");
    reveal_with_fuel(lex_lt, 22);
    let s = sorted_display_names();
    assert(s[21] == "PlayStation 3"@ && s[22] == "SNES"@);
    assert(lex_lt(s[21], s[22]));
    assert(s[22] == "SNES"@ && s[23] == "Saturn"@);
    assert(lex_lt(s[22], s[23]));
    assert(s[23] == "Saturn"@ && s[24] == "Switch"@);
    assert(lex_lt(s[23], s[24]));
    assert(s[24] == "Switch"@ && s[25] == "Wii"@);
    assert(lex_lt(s[24], s[25]));
    assert(s[25] == "Wii"@ && s[26] == "Wii U"@);
    assert(lex_lt(s[25], s[26]));
}

proof fn lemma_names_adjacent()
    ensures
        forall|m: int| 0 <= m < 26 ==> #[trigger] lex_lt(sorted_display_names()[m], sorted_display_names()[m + 1]),
{
    lemma_names_run_0();
    lemma_names_run_1();
    lemma_names_run_2();
    lemma_names_run_3();
    assert forall|m: int| 0 <= m < 26 implies #[trigger] lex_lt(sorted_display_names()[m], sorted_display_names()[m + 1]) by {
        if 0 <= m < 7 { assert(lex_lt(sorted_display_names()[m], sorted_display_names()[m + 1])); }
        if 7 <= m < 14 { assert(lex_lt(sorted_display_names()[m], sorted_display_names()[m + 1])); }
        if 14 <= m < 21 { assert(lex_lt(sorted_display_names()[m], sorted_display_names()[m + 1])); }
        if 21 <= m < 26 { assert(lex_lt(sorted_display_names()[m], sorted_display_names()[m + 1])); }
    }
}

proof fn lemma_names_chain(k: int, l: int)
    requires
        0 <= k < l < 27,
    ensures
        lex_lt(sorted_display_names()[k], sorted_display_names()[l]),
    decreases l - k,
{
    lemma_names_adjacent();
    if l > k + 1 {
        lemma_names_chain(k, l - 1);
        let m = l - 1;
        assert(lex_lt(sorted_display_names()[m], sorted_display_names()[m + 1]));
        assert(m + 1 == l);
        lemma_lex_transitive(sorted_display_names()[k], sorted_display_names()[l - 1], sorted_display_names()[l]);
    } else {
        assert(lex_lt(sorted_display_names()[k], sorted_display_names()[k + 1]));
    }
}

proof fn lemma_name_placed(p: Platform)
    ensures
        0 <= display_rank(p) < 27,
        sorted_display_names()[display_rank(p)] == p.spec_display_name(),
        platform_at_rank()[display_rank(p)] == p,
{
    let s = sorted_display_names();
    let q = platform_at_rank();
    match p {
        Platform::Pc => { assert(s[16] == "PC"@ && q[16] == Platform::Pc); },
        Platform::Nes => { assert(s[10] == "NES"@ && q[10] == Platform::Nes); },
        Platform::Snes => { assert(s[22] == "SNES"@ && q[22] == Platform::Snes); },
        Platform::N64 => { assert(s[13] == "Nintendo 64"@ && q[13] == Platform::N64); },
        Platform::GameCube => { assert(s[7] == "GameCube"@ && q[7] == Platform::GameCube); },
        Platform::Wii => { assert(s[25] == "Wii"@ && q[25] == Platform::Wii); },
        Platform::WiiU => { assert(s[26] == "Wii U"@ && q[26] == Platform::WiiU); },
        Platform::Switch => { assert(s[24] == "Switch"@ && q[24] == Platform::Switch); },
        Platform::Gameboy => { assert(s[3] == "Game Boy"@ && q[3] == Platform::Gameboy); },
        Platform::GameboyColor => { assert(s[5] == "Game Boy Color"@ && q[5] == Platform::GameboyColor); },
        Platform::GameboyAdvance => { assert(s[4] == "Game Boy Advance"@ && q[4] == Platform::GameboyAdvance); },
        Platform::Nds => { assert(s[14] == "Nintendo DS"@ && q[14] == Platform::Nds); },
        Platform::Threeds => { assert(s[12] == "Nintendo 3DS"@ && q[12] == Platform::Threeds); },
        Platform::Ps1 => { assert(s[19] == "PlayStation"@ && q[19] == Platform::Ps1); },
        Platform::Ps2 => { assert(s[20] == "PlayStation 2"@ && q[20] == Platform::Ps2); },
        Platform::Ps3 => { assert(s[21] == "PlayStation 3"@ && q[21] == Platform::Ps3); },
        Platform::Psp => { assert(s[18] == "PSP"@ && q[18] == Platform::Psp); },
        Platform::PsVita => { assert(s[17] == "PS Vita"@ && q[17] == Platform::PsVita); },
        Platform::Genesis => { assert(s[9] == "Mega Drive / Genesis"@ && q[9] == Platform::Genesis); },
        Platform::MasterSystem => { assert(s[8] == "Master System"@ && q[8] == Platform::MasterSystem); },
        Platform::GameGear => { assert(s[6] == "Game Gear"@ && q[6] == Platform::GameGear); },
        Platform::Saturn => { assert(s[23] == "Saturn"@ && q[23] == Platform::Saturn); },
        Platform::Dreamcast => { assert(s[2] == "Dreamcast"@ && q[2] == Platform::Dreamcast); },
        Platform::Atari2600 => { assert(s[1] == "Atari 2600"@ && q[1] == Platform::Atari2600); },
        Platform::NeoGeo => { assert(s[11] == "Neo Geo"@ && q[11] == Platform::NeoGeo); },
        Platform::Arcade => { assert(s[0] == "Arcade"@ && q[0] == Platform::Arcade); },
        Platform::Other => { assert(s[15] == "Other"@ && q[15] == Platform::Other); },
    }
}

/// Different platforms have different display names.
pub proof fn lemma_display_names_distinct(p: Platform, q: Platform)
    requires
        p != q,
    ensures
        p.spec_display_name() != q.spec_display_name(),
{
    lemma_name_placed(p);
    lemma_name_placed(q);
    let rp = display_rank(p);
    let rq = display_rank(q);
    assert(rp != rq);
    if rp < rq {
        lemma_names_chain(rp, rq);
        lemma_lex_irreflexive(sorted_display_names()[rp]);
    } else {
        lemma_names_chain(rq, rp);
        lemma_lex_irreflexive(sorted_display_names()[rq]);
    }
}

} // verus!
