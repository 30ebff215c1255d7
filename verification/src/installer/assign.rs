//! Platform auto-assignment: every platform some installed emulator
//! covers, and which no emulator is assigned to yet, gets one. RetroArch
//! wins ties for the platforms it covers; otherwise the first covering
//! emulator in configuration order is taken. Platforms are visited in
//! their declaration order.

use vstd::prelude::*;

use crate::library::platform::{all_platforms, all_platforms_exec, Platform};
use crate::text::{chars_of, copy_string, str_eq};

verus! {

/// A configured emulator as the assignment rule reads it.
#[derive(Debug, Clone)]
pub struct EmulatorCandidate {
    pub id: String,
    /// Path of the emulator's exe; empty when it is not installed.
    pub exe: String,
    pub platforms: Vec<Platform>,
}

/// The plain-value model of a candidate: id, whether it is installed, and
/// the platforms it covers.
pub open spec fn cand_view(c: EmulatorCandidate) -> (Seq<char>, bool, Seq<Platform>) {
    (c.id@, c.exe@.len() > 0, c.platforms@)
}

pub open spec fn cands_view(s: Seq<EmulatorCandidate>) -> Seq<(Seq<char>, bool, Seq<Platform>)> {
    s.map_values(|c: EmulatorCandidate| cand_view(c))
}

/// The id of the first installed candidate covering `p`; with
/// `retroarch_only`, only the candidate with id `retroarch` qualifies.
pub open spec fn first_covering(
    cs: Seq<(Seq<char>, bool, Seq<Platform>)>,
    p: Platform,
    retroarch_only: bool,
) -> Option<Seq<char>>
    decreases cs.len(),
{
    if cs.len() == 0 {
        None
    } else if cs[0].1 && cs[0].2.contains(p) && (!retroarch_only || cs[0].0 == "retroarch"@) {
        Some(cs[0].0)
    } else {
        first_covering(cs.drop_first(), p, retroarch_only)
    }
}

/// The emulator a platform is assigned to: RetroArch when it covers the
/// platform, else the first installed emulator that does.
pub open spec fn pick_for(cs: Seq<(Seq<char>, bool, Seq<Platform>)>, p: Platform) -> Option<
    Seq<char>,
> {
    match first_covering(cs, p, true) {
        Some(id) => Some(id),
        None => first_covering(cs, p, false),
    }
}

/// The assignments made while visiting the platforms `ps` in order.
pub open spec fn assignments_over(
    ps: Seq<Platform>,
    cs: Seq<(Seq<char>, bool, Seq<Platform>)>,
    assigned: Seq<Platform>,
) -> Seq<(Platform, Seq<char>)>
    decreases ps.len(),
{
    if ps.len() == 0 {
        Seq::empty()
    } else {
        let rest = assignments_over(ps.drop_last(), cs, assigned);
        let p = ps.last();
        if !assigned.contains(p) && pick_for(cs, p) is Some {
            rest.push((p, pick_for(cs, p)->0))
        } else {
            rest
        }
    }
}

/// Every assignment the rule makes, in platform order.
pub open spec fn auto_assignments(
    cs: Seq<(Seq<char>, bool, Seq<Platform>)>,
    assigned: Seq<Platform>,
) -> Seq<(Platform, Seq<char>)> {
    assignments_over(all_platforms(), cs, assigned)
}

fn first_covering_exec(cands: &Vec<EmulatorCandidate>, p: Platform, retroarch_only: bool) -> (r:
    Option<usize>)
    ensures
        match first_covering(cands_view(cands@), p, retroarch_only) {
            Some(id) => r matches Some(i) && i < cands@.len() && cands@[i as int].id@ == id,
            None => r is None,
        },
{
    let ghost cv = cands_view(cands@);
    let mut i: usize = 0;
    assert(cv.skip(0) =~= cv);
    while i < cands.len()
        invariant
            i <= cands@.len(),
            cv == cands_view(cands@),
            first_covering(cv, p, retroarch_only) == first_covering(
                cv.skip(i as int),
                p,
                retroarch_only,
            ),
        decreases cands.len() - i,
    {
        let c = &cands[i];
        assert(cv.skip(i as int)[0] == cand_view(*c));
        let installed = chars_of(c.exe.as_str()).len() > 0;
        let mut covers = false;
        let mut k: usize = 0;
        while k < c.platforms.len()
            invariant
                k <= c.platforms@.len(),
                covers == exists|j: int| 0 <= j < k && c.platforms@[j] == p,
            decreases c.platforms.len() - k,
        {
            if c.platforms[k] == p {
                covers = true;
            }
            k += 1;
        }
        assert(covers == c.platforms@.contains(p));
        let ok_id = !retroarch_only || str_eq(c.id.as_str(), "retroarch");
        if installed && covers && ok_id {
            return Some(i);
        }
        assert(cv.skip(i as int).drop_first() =~= cv.skip(i + 1));
        i += 1;
    }
    None
}

/// The platform → emulator assignments to add: for each platform, in
/// declaration order, that is not yet in `assigned` and that an installed
/// candidate (one with a non-empty exe path) covers.
pub fn auto_assign(cands: &Vec<EmulatorCandidate>, assigned: &Vec<Platform>) -> (r: Vec<(Platform, String)>)
    ensures
        r@.map_values(|a: (Platform, String)| (a.0, a.1@)) == auto_assignments(
            cands_view(cands@),
            assigned@,
        ),
{
    let all = all_platforms_exec();
    let ghost cv = cands_view(cands@);
    let mut out: Vec<(Platform, String)> = Vec::new();
    let mut k: usize = 0;
    while k < all.len()
        invariant
            k <= all@.len(),
            all@ == all_platforms(),
            cv == cands_view(cands@),
            out@.map_values(|a: (Platform, String)| (a.0, a.1@)) == assignments_over(
                all@.take(k as int),
                cv,
                assigned@,
            ),
        decreases all.len() - k,
    {
        let p = all[k];
        assert(all@.take(k + 1).drop_last() =~= all@.take(k as int));
        assert(all@.take(k + 1).last() == p);
        let mut is_assigned = false;
        let mut j: usize = 0;
        while j < assigned.len()
            invariant
                j <= assigned@.len(),
                is_assigned == exists|q: int| 0 <= q < j && assigned@[q] == p,
            decreases assigned.len() - j,
        {
            if assigned[j] == p {
                is_assigned = true;
            }
            j += 1;
        }
        assert(is_assigned == assigned@.contains(p));
        if !is_assigned {
            let pick = match first_covering_exec(cands, p, true) {
                Some(i) => Some(i),
                None => first_covering_exec(cands, p, false),
            };
            match pick {
                Some(i) => {
                    let ghost before = out@;
                    out.push((p, copy_string(&cands[i].id)));
                    assert(out@.map_values(|a: (Platform, String)| (a.0, a.1@)) =~= before.map_values(
                        |a: (Platform, String)| (a.0, a.1@),
                    ).push((p, pick_for(cv, p)->0)));
                },
                None => {},
            }
        }
        k += 1;
    }
    assert(all@.take(all@.len() as int) =~= all@);
    out
}

/// Whether candidate `i` is installed and covers `p`.
pub open spec fn installed_covering(cs: Seq<(Seq<char>, bool, Seq<Platform>)>, i: int, p: Platform) -> bool {
    cs[i].1 && cs[i].2.contains(p)
}

/// Some installed candidate covers `p`.
pub open spec fn covered(cs: Seq<(Seq<char>, bool, Seq<Platform>)>, p: Platform) -> bool {
    exists|i: int| 0 <= i < cs.len() && #[trigger] installed_covering(cs, i, p)
}

/// An installed candidate with id `retroarch` covers `p`.
pub open spec fn retroarch_covers(cs: Seq<(Seq<char>, bool, Seq<Platform>)>, p: Platform) -> bool {
    exists|i: int| 0 <= i < cs.len() && #[trigger] installed_covering(cs, i, p) && cs[i].0 == "retroarch"@
}

/// Every platform is one of `all_platforms`.
pub proof fn lemma_all_platforms_contains(p: Platform)
    ensures
        all_platforms().contains(p),
{
    match p {
        Platform::Pc => assert(all_platforms()[0] == p),
        Platform::Nes => assert(all_platforms()[1] == p),
        Platform::Snes => assert(all_platforms()[2] == p),
        Platform::N64 => assert(all_platforms()[3] == p),
        Platform::GameCube => assert(all_platforms()[4] == p),
        Platform::Wii => assert(all_platforms()[5] == p),
        Platform::WiiU => assert(all_platforms()[6] == p),
        Platform::Switch => assert(all_platforms()[7] == p),
        Platform::Gameboy => assert(all_platforms()[8] == p),
        Platform::GameboyColor => assert(all_platforms()[9] == p),
        Platform::GameboyAdvance => assert(all_platforms()[10] == p),
        Platform::Nds => assert(all_platforms()[11] == p),
        Platform::Threeds => assert(all_platforms()[12] == p),
        Platform::Ps1 => assert(all_platforms()[13] == p),
        Platform::Ps2 => assert(all_platforms()[14] == p),
        Platform::Ps3 => assert(all_platforms()[15] == p),
        Platform::Psp => assert(all_platforms()[16] == p),
        Platform::PsVita => assert(all_platforms()[17] == p),
        Platform::Genesis => assert(all_platforms()[18] == p),
        Platform::MasterSystem => assert(all_platforms()[19] == p),
        Platform::GameGear => assert(all_platforms()[20] == p),
        Platform::Saturn => assert(all_platforms()[21] == p),
        Platform::Dreamcast => assert(all_platforms()[22] == p),
        Platform::Atari2600 => assert(all_platforms()[23] == p),
        Platform::NeoGeo => assert(all_platforms()[24] == p),
        Platform::Arcade => assert(all_platforms()[25] == p),
        Platform::Other => assert(all_platforms()[26] == p),
    }
}

proof fn lemma_first_covering(cs: Seq<(Seq<char>, bool, Seq<Platform>)>, p: Platform, ra: bool)
    ensures
        first_covering(cs, p, ra) is None <==> forall|i: int|
            0 <= i < cs.len() ==> !(#[trigger] installed_covering(cs, i, p) && (!ra || cs[i].0 == "retroarch"@)),
        first_covering(cs, p, ra) matches Some(id) ==> exists|i: int|
            0 <= i < cs.len() && #[trigger] installed_covering(cs, i, p) && (!ra || cs[i].0 == "retroarch"@)
                && cs[i].0 == id && forall|j: int|
                0 <= j < i ==> !(installed_covering(cs, j, p) && (!ra || cs[j].0 == "retroarch"@)),
    decreases cs.len(),
{
    if cs.len() > 0 {
        let r = cs.drop_first();
        lemma_first_covering(r, p, ra);
        assert forall|i: int| 0 <= i < r.len() implies #[trigger] installed_covering(r, i, p)
            == installed_covering(cs, i + 1, p) && r[i].0 == cs[i + 1].0 by {
            assert(r[i] == cs[i + 1]);
        }
        if cs[0].1 && cs[0].2.contains(p) && (!ra || cs[0].0 == "retroarch"@) {
            assert(installed_covering(cs, 0, p));
        } else {
            assert(!(installed_covering(cs, 0, p) && (!ra || cs[0].0 == "retroarch"@)));
            if first_covering(r, p, ra) is None {
                assert forall|i: int|
                    0 <= i < cs.len() implies !(#[trigger] installed_covering(cs, i, p) && (!ra || cs[i].0
                    == "retroarch"@)) by {
                    if i > 0 {
                        assert(installed_covering(r, i - 1, p) == installed_covering(cs, i, p));
                    }
                }
            } else {
                let id = first_covering(r, p, ra)->0;
                let i = choose|i: int|
                    0 <= i < r.len() && #[trigger] installed_covering(r, i, p) && (!ra || r[i].0 == "retroarch"@)
                        && r[i].0 == id && forall|j: int|
                        0 <= j < i ==> !(installed_covering(r, j, p) && (!ra || r[j].0 == "retroarch"@));
                assert(installed_covering(cs, i + 1, p));
                assert forall|j: int| 0 <= j < i + 1 implies !(installed_covering(cs, j, p) && (!ra || cs[j].0
                    == "retroarch"@)) by {
                    if j > 0 {
                        assert(installed_covering(r, j - 1, p) == installed_covering(cs, j, p));
                    }
                }
            }
        }
    }
}

proof fn lemma_assignments_over(
    ps: Seq<Platform>,
    cs: Seq<(Seq<char>, bool, Seq<Platform>)>,
    assigned: Seq<Platform>,
)
    ensures
        forall|k: int|
            0 <= k < assignments_over(ps, cs, assigned).len() ==> ps.contains(
                (#[trigger] assignments_over(ps, cs, assigned)[k]).0,
            ) && !assigned.contains(assignments_over(ps, cs, assigned)[k].0) && pick_for(
                cs,
                assignments_over(ps, cs, assigned)[k].0,
            ) == Some(assignments_over(ps, cs, assigned)[k].1),
        forall|p: Platform|
            ps.contains(p) && !assigned.contains(p) && #[trigger] pick_for(cs, p) is Some ==> exists|k: int|
                0 <= k < assignments_over(ps, cs, assigned).len() && (#[trigger] assignments_over(
                    ps,
                    cs,
                    assigned,
                )[k]).0 == p,
    decreases ps.len(),
{
    if ps.len() > 0 {
        let pre = ps.drop_last();
        lemma_assignments_over(pre, cs, assigned);
        let rest = assignments_over(pre, cs, assigned);
        let res = assignments_over(ps, cs, assigned);
        assert forall|q: Platform| pre.contains(q) implies ps.contains(q) by {
            let j = choose|j: int| 0 <= j < pre.len() && pre[j] == q;
            assert(ps[j] == q);
        }
        assert forall|k: int| 0 <= k < rest.len() implies res[k] == rest[k] by {}
        assert(ps[ps.len() - 1] == ps.last());
        assert forall|p: Platform|
            ps.contains(p) && !assigned.contains(p) && #[trigger] pick_for(cs, p) is Some implies exists|k: int|
                0 <= k < res.len() && (#[trigger] res[k]).0 == p by {
            let j = choose|j: int| 0 <= j < ps.len() && ps[j] == p;
            if j < ps.len() - 1 {
                assert(pre[j] == p);
                let k = choose|k: int| 0 <= k < rest.len() && (#[trigger] rest[k]).0 == p;
                assert(res[k] == rest[k]);
            } else {
                assert(res[res.len() - 1].0 == p);
            }
        }
    }
}

/// What the auto-assignment adds, over the candidates' plain model (id,
/// installed, platforms covered) and the platforms already assigned:
/// - every unassigned platform that some installed candidate covers gets an
///   assignment, and no other platform does;
/// - it goes to an installed candidate that covers the platform;
/// - to RetroArch whenever an installed RetroArch covers it;
/// - otherwise to the first installed candidate, in configuration order,
///   that covers it.
pub proof fn lemma_auto_assign_laws(cs: Seq<(Seq<char>, bool, Seq<Platform>)>, assigned: Seq<Platform>)
    ensures
        forall|p: Platform|
            !assigned.contains(p) && #[trigger] covered(cs, p) ==> exists|k: int|
                0 <= k < auto_assignments(cs, assigned).len() && (#[trigger] auto_assignments(
                    cs,
                    assigned,
                )[k]).0 == p,
        forall|k: int|
            0 <= k < auto_assignments(cs, assigned).len() ==> {
                let (p, id) = #[trigger] auto_assignments(cs, assigned)[k];
                &&& !assigned.contains(p)
                &&& exists|i: int| 0 <= i < cs.len() && #[trigger] installed_covering(cs, i, p) && cs[i].0 == id
                &&& retroarch_covers(cs, p) ==> id == "retroarch"@
                &&& !retroarch_covers(cs, p) ==> exists|i: int|
                    0 <= i < cs.len() && #[trigger] installed_covering(cs, i, p) && cs[i].0 == id && forall|j: int|
                        0 <= j < i ==> !installed_covering(cs, j, p)
            },
{
    lemma_assignments_over(all_platforms(), cs, assigned);
    let res = auto_assignments(cs, assigned);
    assert forall|p: Platform| !assigned.contains(p) && #[trigger] covered(cs, p) implies exists|k: int|
        0 <= k < res.len() && (#[trigger] res[k]).0 == p by {
        lemma_all_platforms_contains(p);
        lemma_first_covering(cs, p, false);
        lemma_first_covering(cs, p, true);
        let i = choose|i: int| 0 <= i < cs.len() && #[trigger] installed_covering(cs, i, p);
        assert(first_covering(cs, p, false) is Some);
        assert(pick_for(cs, p) is Some);
    }
    assert forall|k: int| 0 <= k < res.len() implies {
        let (p, id) = #[trigger] res[k];
        &&& !assigned.contains(p)
        &&& exists|i: int| 0 <= i < cs.len() && #[trigger] installed_covering(cs, i, p) && cs[i].0 == id
        &&& retroarch_covers(cs, p) ==> id == "retroarch"@
        &&& !retroarch_covers(cs, p) ==> exists|i: int|
            0 <= i < cs.len() && #[trigger] installed_covering(cs, i, p) && cs[i].0 == id && forall|j: int|
                0 <= j < i ==> !installed_covering(cs, j, p)
    } by {
        let p = res[k].0;
        let id = res[k].1;
        lemma_first_covering(cs, p, false);
        lemma_first_covering(cs, p, true);
        assert(pick_for(cs, p) == Some(id));
        if retroarch_covers(cs, p) {
            let i = choose|i: int| 0 <= i < cs.len() && #[trigger] installed_covering(cs, i, p) && cs[i].0 == "retroarch"@;
            assert(installed_covering(cs, i, p) && (!true || cs[i].0 == "retroarch"@));
            assert(first_covering(cs, p, true) is Some);
        } else {
            if first_covering(cs, p, true) is Some {
                let i = choose|i: int|
                    0 <= i < cs.len() && #[trigger] installed_covering(cs, i, p) && (!true || cs[i].0 == "retroarch"@)
                        && cs[i].0 == first_covering(cs, p, true)->0 && forall|j: int|
                        0 <= j < i ==> !(installed_covering(cs, j, p) && (!true || cs[j].0 == "retroarch"@));
                assert(false);
            }
        }
    }
}

} // verus!
