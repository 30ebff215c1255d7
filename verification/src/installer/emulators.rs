//! The emulator slots of the launch configuration, and how an install or
//! the startup repair sweep updates them: an installed emulator's exe is
//! spliced into its slot, slots for emulators that no longer ship and were
//! never installed are pruned, assignments to pruned slots are dropped, and
//! DuckStation's old default arguments gain `-fastboot`.

use vstd::prelude::*;

use crate::installer::types::EmulatorManifest;
use crate::library::platform::Platform;
use crate::text::{chars_of, copy_string, copy_strings, owned, str_eq, strs};

verus! {

/// One emulator of the launch configuration.
#[derive(Debug, Clone)]
pub struct EmulatorEntry {
    pub id: String,
    pub name: String,
    /// Path of the launchable exe; empty when it is not installed.
    pub exe: String,
    /// Launch arguments, with `{game_path}` style placeholders.
    pub args: Vec<String>,
    pub working_dir: Option<String>,
    pub env: Vec<(String, String)>,
    pub platforms: Vec<Platform>,
}

/// The launch defaults a built-in recipe gives an emulator.
#[derive(Debug, Clone)]
pub struct RecipeDefaults {
    pub id: String,
    pub args: Vec<String>,
    pub platforms: Vec<Platform>,
}

/// The emulators and the platform → emulator-id assignments.
#[derive(Debug, Clone)]
pub struct LaunchConfig {
    pub emulators: Vec<EmulatorEntry>,
    pub assignments: Vec<(Platform, String)>,
}

/// Index of the first slot with the given id.
pub open spec fn slot_index(s: Seq<EmulatorEntry>, id: Seq<char>) -> Option<int>
    decreases s.len(),
{
    if s.len() == 0 {
        None
    } else if s[0].id@ == id {
        Some(0)
    } else {
        match slot_index(s.drop_first(), id) {
            Some(i) => Some(i + 1),
            None => None,
        }
    }
}

/// Index of the first recipe with the given id.
pub open spec fn recipe_index(s: Seq<RecipeDefaults>, id: Seq<char>) -> Option<int>
    decreases s.len(),
{
    if s.len() == 0 {
        None
    } else if s[0].id@ == id {
        Some(0)
    } else {
        match recipe_index(s.drop_first(), id) {
            Some(i) => Some(i + 1),
            None => None,
        }
    }
}

proof fn lemma_slot_index(s: Seq<EmulatorEntry>, id: Seq<char>)
    ensures
        match slot_index(s, id) {
            Some(i) => 0 <= i < s.len() && s[i].id@ == id && forall|j: int| 0 <= j < i ==> s[j].id@ != id,
            None => forall|j: int| 0 <= j < s.len() ==> s[j].id@ != id,
        },
    decreases s.len(),
{
    if s.len() > 0 {
        lemma_slot_index(s.drop_first(), id);
        if s[0].id@ != id {
            assert forall|j: int| 1 <= j < s.len() implies s[j] == s.drop_first()[j - 1] by {}
        }
    }
}

/// Position of the slot with the given id.
pub fn find_slot(slots: &Vec<EmulatorEntry>, id: &str) -> (r: Option<usize>)
    ensures
        r is None <==> slot_index(slots@, id@) is None,
        r matches Some(k) ==> slot_index(slots@, id@) == Some(k as int) && k < slots@.len(),
{
    let mut i: usize = 0;
    assert(slots@.skip(0) =~= slots@);
    while i < slots.len()
        invariant
            i <= slots@.len(),
            slot_index(slots@, id@) == match slot_index(slots@.skip(i as int), id@) {
                Some(k) => Some(k + i),
                None => None,
            },
        decreases slots.len() - i,
    {
        assert(slots@.skip(i as int)[0] == slots@[i as int]);
        if str_eq(slots[i].id.as_str(), id) {
            return Some(i);
        }
        assert(slots@.skip(i as int).drop_first() =~= slots@.skip(i + 1));
        i += 1;
    }
    None
}

fn find_recipe(recipes: &Vec<RecipeDefaults>, id: &str) -> (r: Option<usize>)
    ensures
        r is None <==> recipe_index(recipes@, id@) is None,
        r matches Some(k) ==> recipe_index(recipes@, id@) == Some(k as int),
        r matches Some(i) ==> i < recipes@.len(),
{
    let mut i: usize = 0;
    assert(recipes@.skip(0) =~= recipes@);
    while i < recipes.len()
        invariant
            i <= recipes@.len(),
            recipe_index(recipes@, id@) == match recipe_index(recipes@.skip(i as int), id@) {
                Some(k) => Some(k + i),
                None => None,
            },
        decreases recipes.len() - i,
    {
        assert(recipes@.skip(i as int)[0] == recipes@[i as int]);
        if str_eq(recipes[i].id.as_str(), id) {
            return Some(i);
        }
        assert(recipes@.skip(i as int).drop_first() =~= recipes@.skip(i + 1));
        i += 1;
    }
    None
}

fn copy_platforms(v: &Vec<Platform>) -> (r: Vec<Platform>)
    ensures
        r@ == v@,
{
    let mut out: Vec<Platform> = Vec::new();
    let mut i: usize = 0;
    while i < v.len()
        invariant
            i <= v@.len(),
            out@ == v@.take(i as int),
        decreases v.len() - i,
    {
        out.push(v[i]);
        assert(out@ =~= v@.take(i + 1));
        i += 1;
    }
    assert(v@.take(v@.len() as int) =~= v@);
    out
}

/// The slot after an install found `exe`: the path and display name are
/// refreshed; arguments and platforms come from the recipe only where the
/// slot has none.
pub open spec fn refreshed_slot(
    before: EmulatorEntry,
    after: EmulatorEntry,
    name: Seq<char>,
    exe: Seq<char>,
    recipe: Option<RecipeDefaults>,
) -> bool {
    &&& after.id == before.id
    &&& after.name@ == name
    &&& after.exe@ == exe
    &&& after.working_dir == before.working_dir
    &&& after.env == before.env
    &&& strs(after.args@) == match recipe {
        Some(r) => if before.args@.len() == 0 {
            strs(r.args@)
        } else {
            strs(before.args@)
        },
        None => strs(before.args@),
    }
    &&& after.platforms@ == match recipe {
        Some(r) => if before.platforms@.len() == 0 {
            r.platforms@
        } else {
            before.platforms@
        },
        None => before.platforms@,
    }
}

/// A new slot for a freshly installed emulator: the recipe's arguments and
/// platforms, or no arguments and the manifest's platforms without one.
pub open spec fn new_slot(
    e: EmulatorEntry,
    m: EmulatorManifest,
    exe: Seq<char>,
    recipe: Option<RecipeDefaults>,
) -> bool {
    &&& e.id@ == m.id@
    &&& e.name@ == m.name@
    &&& e.exe@ == exe
    &&& e.working_dir is None
    &&& e.env@.len() == 0
    &&& strs(e.args@) == match recipe {
        Some(r) => strs(r.args@),
        None => Seq::empty(),
    }
    &&& e.platforms@ == match recipe {
        Some(r) => r.platforms@,
        None => m.platforms@,
    }
}

/// The recipe for an id, if there is one.
pub open spec fn recipe_for(recipes: Seq<RecipeDefaults>, id: Seq<char>) -> Option<RecipeDefaults> {
    match recipe_index(recipes, id) {
        Some(i) => Some(recipes[i]),
        None => None,
    }
}

/// Record an installed emulator in the configuration: its existing slot
/// is refreshed in place (user-edited arguments and platforms are kept);
/// without one, a slot is appended.
pub fn splice_install(
    slots: &mut Vec<EmulatorEntry>,
    manifest: &EmulatorManifest,
    exe: String,
    recipes: &Vec<RecipeDefaults>,
)
    ensures
        ({
            let recipe = recipe_for(recipes@, manifest.id@);
            match slot_index(old(slots)@, manifest.id@) {
                Some(k) => {
                    &&& final(slots)@.len() == old(slots)@.len()
                    &&& forall|j: int| 0 <= j < old(slots)@.len() && j != k ==> final(slots)@[j] == old(slots)@[j]
                    &&& refreshed_slot(old(slots)@[k], final(slots)@[k], manifest.name@, exe@, recipe)
                },
                None => {
                    &&& final(slots)@.len() == old(slots)@.len() + 1
                    &&& final(slots)@.drop_last() == old(slots)@
                    &&& new_slot(final(slots)@.last(), *manifest, exe@, recipe)
                },
            }
        }),
{
    let ghost recipe = recipe_for(recipes@, manifest.id@);
    let ri = find_recipe(recipes, manifest.id.as_str());
    proof {
        lemma_slot_index(slots@, manifest.id@);
    }
    match find_slot(slots, manifest.id.as_str()) {
        Some(k) => {
            let ghost before = slots@;
            let mut e = slots.remove(k);
            e.exe = exe;
            e.name = copy_string(&manifest.name);
            match ri {
                Some(r) => {
                    if e.args.len() == 0 {
                        e.args = copy_strings(&recipes[r].args);
                    }
                    if e.platforms.len() == 0 {
                        e.platforms = copy_platforms(&recipes[r].platforms);
                    }
                },
                None => {},
            }
            slots.insert(k, e);
            assert(slots@ =~= before.update(k as int, e));
        },
        None => {
            let (args, platforms) = match ri {
                Some(r) => (copy_strings(&recipes[r].args), copy_platforms(&recipes[r].platforms)),
                None => (Vec::new(), copy_platforms(&manifest.platforms)),
            };
            let e = EmulatorEntry {
                id: copy_string(&manifest.id),
                name: copy_string(&manifest.name),
                exe,
                args,
                working_dir: None,
                env: Vec::new(),
                platforms,
            };
            let ghost before = slots@;
            slots.push(e);
            assert(slots@.drop_last() =~= before);
            assert(strs(Seq::<String>::empty()) =~= Seq::<Seq<char>>::empty());
        },
    }
}

// ---------------------------------------------------------------------------
// Repair sweep
// ---------------------------------------------------------------------------

/// A slot survives the repair sweep when a built-in recipe still ships its
/// emulator, or when it points at an exe (a user's own install).
pub open spec fn survives(e: EmulatorEntry, recipe_ids: Seq<Seq<char>>) -> bool {
    recipe_ids.contains(e.id@) || e.exe@.len() > 0
}

/// The surviving slots, in order.
pub open spec fn surviving(s: Seq<EmulatorEntry>, recipe_ids: Seq<Seq<char>>) -> Seq<EmulatorEntry>
    decreases s.len(),
{
    if s.len() == 0 {
        Seq::empty()
    } else if survives(s.last(), recipe_ids) {
        surviving(s.drop_last(), recipe_ids).push(s.last())
    } else {
        surviving(s.drop_last(), recipe_ids)
    }
}

proof fn lemma_surviving_len(s: Seq<EmulatorEntry>, recipe_ids: Seq<Seq<char>>)
    ensures
        surviving(s, recipe_ids).len() <= s.len(),
    decreases s.len(),
{
    if s.len() > 0 {
        lemma_surviving_len(s.drop_last(), recipe_ids);
    }
}

fn listed(ids: &Vec<String>, id: &str) -> (r: bool)
    ensures
        r == strs(ids@).contains(id@),
{
    let mut i: usize = 0;
    while i < ids.len()
        invariant
            i <= ids@.len(),
            forall|j: int| 0 <= j < i ==> strs(ids@)[j] != id@,
        decreases ids.len() - i,
    {
        if str_eq(ids[i].as_str(), id) {
            assert(strs(ids@)[i as int] == id@);
            return true;
        }
        i += 1;
    }
    false
}

/// Drop the slots of emulators no recipe ships any more and that were
/// never pointed at an exe.
pub fn prune_orphans(slots: Vec<EmulatorEntry>, recipe_ids: &Vec<String>) -> (r: Vec<EmulatorEntry>)
    ensures
        r@ == surviving(slots@, strs(recipe_ids@)),
{
    let ghost orig = slots@;
    let ghost ids = strs(recipe_ids@);
    let mut rest = slots;
    let mut out: Vec<EmulatorEntry> = Vec::new();
    let n = rest.len();
    let mut i: usize = 0;
    assert(orig.skip(0) =~= orig);
    while i < n
        invariant
            n == orig.len(),
            i <= n,
            rest@ == orig.skip(i as int),
            out@ == surviving(orig.take(i as int), ids),
            ids == strs(recipe_ids@),
        decreases n - i,
    {
        let e = rest.remove(0);
        assert(e == orig[i as int]);
        assert(orig.take(i + 1).drop_last() =~= orig.take(i as int));
        assert(rest@ =~= orig.skip(i + 1));
        let keep = listed(recipe_ids, e.id.as_str()) || chars_of(e.exe.as_str()).len() > 0;
        if keep {
            out.push(e);
        }
        i += 1;
    }
    assert(orig.take(n as int) =~= orig);
    out
}

/// DuckStation's old default arguments.
pub open spec fn old_duckstation_args() -> Seq<Seq<char>> {
    seq!["-fullscreen"@, "{game_path}"@]
}

/// The default that boots without a PS1 BIOS dump.
pub open spec fn fastboot_args() -> Seq<Seq<char>> {
    seq!["-fastboot"@, "-fullscreen"@, "{game_path}"@]
}

/// `after` is `before` with only its arguments changed.
pub open spec fn same_but_args(before: EmulatorEntry, after: EmulatorEntry) -> bool {
    &&& after.id == before.id
    &&& after.name == before.name
    &&& after.exe == before.exe
    &&& after.working_dir == before.working_dir
    &&& after.env == before.env
    &&& after.platforms == before.platforms
}

/// The DuckStation migration: the first slot with id `pcsx-redux` whose
/// arguments are exactly the old default gets the fast-boot default; every
/// other slot, and a customised one, is left as it was.
pub open spec fn migrated_from(before: Seq<EmulatorEntry>, after: Seq<EmulatorEntry>) -> bool {
    match slot_index(before, "pcsx-redux"@) {
        Some(k) => if strs(before[k].args@) == old_duckstation_args() {
            &&& after.len() == before.len()
            &&& forall|j: int| 0 <= j < before.len() && j != k ==> after[j] == before[j]
            &&& same_but_args(before[k], after[k])
            &&& strs(after[k].args@) == fastboot_args()
        } else {
            after == before
        },
        None => after == before,
    }
}

fn is_old_duckstation_default(args: &Vec<String>) -> (r: bool)
    ensures
        r == (strs(args@) == old_duckstation_args()),
{
    if args.len() != 2 {
        assert(strs(args@).len() != old_duckstation_args().len());
        return false;
    }
    let r = str_eq(args[0].as_str(), "-fullscreen") && str_eq(args[1].as_str(), "{game_path}");
    if r {
        assert(strs(args@) =~= old_duckstation_args());
    } else {
        proof {
            if strs(args@) == old_duckstation_args() {
                assert(strs(args@)[0] == args@[0]@);
                assert(strs(args@)[1] == args@[1]@);
            }
        }
    }
    r
}

/// Give DuckStation (shipped under the `pcsx-redux` id) `-fastboot` when
/// its arguments are still the old default.
pub fn migrate_duckstation_args(slots: &mut Vec<EmulatorEntry>)
    ensures
        migrated_from(old(slots)@, final(slots)@),
{
    proof {
        lemma_slot_index(slots@, "pcsx-redux"@);
    }
    match find_slot(slots, "pcsx-redux") {
        Some(k) => {
            if is_old_duckstation_default(&slots[k].args) {
                let ghost before = slots@;
                let mut e = slots.remove(k);
                let mut args: Vec<String> = Vec::new();
                args.push(owned("-fastboot"));
                args.push(owned("-fullscreen"));
                args.push(owned("{game_path}"));
                assert(strs(args@) =~= fastboot_args());
                e.args = args;
                slots.insert(k, e);
                assert(slots@ =~= before.update(k as int, e));
            }
        },
        None => {},
    }
}

/// The ids of the slots.
pub open spec fn slot_ids(s: Seq<EmulatorEntry>) -> Seq<Seq<char>> {
    s.map_values(|e: EmulatorEntry| e.id@)
}

/// The assignments that still name an existing slot, in order.
pub open spec fn live_assignments(a: Seq<(Platform, String)>, ids: Seq<Seq<char>>) -> Seq<(Platform, String)>
    decreases a.len(),
{
    if a.len() == 0 {
        Seq::empty()
    } else if ids.contains(a.last().1@) {
        live_assignments(a.drop_last(), ids).push(a.last())
    } else {
        live_assignments(a.drop_last(), ids)
    }
}

fn slot_listed(slots: &Vec<EmulatorEntry>, id: &str) -> (r: bool)
    ensures
        r == slot_ids(slots@).contains(id@),
{
    let mut i: usize = 0;
    while i < slots.len()
        invariant
            i <= slots@.len(),
            forall|j: int| 0 <= j < i ==> slot_ids(slots@)[j] != id@,
        decreases slots.len() - i,
    {
        if str_eq(slots[i].id.as_str(), id) {
            assert(slot_ids(slots@)[i as int] == id@);
            return true;
        }
        i += 1;
    }
    false
}

/// Drop the assignments that point at a slot that no longer exists.
pub fn prune_assignments(assignments: Vec<(Platform, String)>, slots: &Vec<EmulatorEntry>) -> (r: Vec<
    (Platform, String),
>)
    ensures
        r@ == live_assignments(assignments@, slot_ids(slots@)),
{
    let ghost orig = assignments@;
    let ghost ids = slot_ids(slots@);
    let mut rest = assignments;
    let mut out: Vec<(Platform, String)> = Vec::new();
    let n = rest.len();
    let mut i: usize = 0;
    assert(orig.skip(0) =~= orig);
    while i < n
        invariant
            n == orig.len(),
            i <= n,
            rest@ == orig.skip(i as int),
            out@ == live_assignments(orig.take(i as int), ids),
            ids == slot_ids(slots@),
        decreases n - i,
    {
        let a = rest.remove(0);
        assert(a == orig[i as int]);
        assert(orig.take(i + 1).drop_last() =~= orig.take(i as int));
        assert(rest@ =~= orig.skip(i + 1));
        if slot_listed(slots, a.1.as_str()) {
            out.push(a);
        }
        i += 1;
    }
    assert(orig.take(n as int) =~= orig);
    out
}

/// The startup repair of the launch configuration: prune orphaned slots,
/// migrate DuckStation's arguments, and, when slots were pruned, drop the
/// assignments that pointed at them. Returns the configuration and whether
/// slots were pruned (and so the configuration must be saved).
pub fn repair_config(cfg: LaunchConfig, recipe_ids: &Vec<String>) -> (r: (LaunchConfig, bool))
    ensures
        ({
            let pruned = surviving(cfg.emulators@, strs(recipe_ids@));
            &&& r.1 == (pruned.len() != cfg.emulators@.len())
            &&& migrated_from(pruned, r.0.emulators@)
            &&& r.1 ==> r.0.assignments@ == live_assignments(cfg.assignments@, slot_ids(r.0.emulators@))
            &&& !r.1 ==> r.0.assignments@ == cfg.assignments@
        }),
{
    let ghost c = cfg;
    let LaunchConfig { emulators, assignments } = cfg;
    let before = emulators.len();
    let mut slots = prune_orphans(emulators, recipe_ids);
    migrate_duckstation_args(&mut slots);
    proof {
        lemma_slot_index(surviving(c.emulators@, strs(recipe_ids@)), "pcsx-redux"@);
    }
    let changed = slots.len() != before;
    if changed {
        let kept = prune_assignments(assignments, &slots);
        (LaunchConfig { emulators: slots, assignments: kept }, true)
    } else {
        (LaunchConfig { emulators: slots, assignments }, false)
    }
}


// ---------------------------------------------------------------------------
// The repair sweep settles
// ---------------------------------------------------------------------------

proof fn lemma_surviving_all_survive(s: Seq<EmulatorEntry>, ids: Seq<Seq<char>>)
    ensures
        forall|i: int| 0 <= i < surviving(s, ids).len() ==> survives(#[trigger] surviving(s, ids)[i], ids),
    decreases s.len(),
{
    if s.len() > 0 {
        lemma_surviving_all_survive(s.drop_last(), ids);
        let prev = surviving(s.drop_last(), ids);
        if survives(s.last(), ids) {
            assert forall|i: int| 0 <= i < prev.push(s.last()).len() implies survives(
                #[trigger] prev.push(s.last())[i],
                ids,
            ) by {
                if i < prev.len() {
                    assert(prev.push(s.last())[i] == prev[i]);
                }
            }
        }
    }
}

proof fn lemma_surviving_keeps_survivors(s: Seq<EmulatorEntry>, ids: Seq<Seq<char>>)
    requires
        forall|i: int| 0 <= i < s.len() ==> survives(#[trigger] s[i], ids),
    ensures
        surviving(s, ids) == s,
    decreases s.len(),
{
    if s.len() > 0 {
        assert(survives(s[s.len() - 1], ids));
        assert forall|i: int| 0 <= i < s.drop_last().len() implies survives(#[trigger] s.drop_last()[i], ids) by {
            assert(s.drop_last()[i] == s[i]);
        }
        lemma_surviving_keeps_survivors(s.drop_last(), ids);
        assert(s.drop_last().push(s.last()) =~= s);
    }
}

proof fn lemma_slot_index_by_ids(a: Seq<EmulatorEntry>, b: Seq<EmulatorEntry>, id: Seq<char>)
    requires
        slot_ids(a) == slot_ids(b),
    ensures
        slot_index(a, id) == slot_index(b, id),
    decreases a.len(),
{
    assert(a.len() == slot_ids(a).len());
    assert(b.len() == slot_ids(b).len());
    if a.len() > 0 {
        assert(a[0].id@ == slot_ids(a)[0]);
        assert(b[0].id@ == slot_ids(b)[0]);
        assert(slot_ids(a.drop_first()) =~= slot_ids(a).drop_first());
        assert(slot_ids(b.drop_first()) =~= slot_ids(b).drop_first());
        lemma_slot_index_by_ids(a.drop_first(), b.drop_first(), id);
    }
}

proof fn lemma_migration_keeps_ids_and_survival(p: Seq<EmulatorEntry>, t: Seq<EmulatorEntry>, ids: Seq<Seq<char>>)
    requires
        migrated_from(p, t),
    ensures
        slot_ids(t) == slot_ids(p),
        t.len() == p.len(),
        forall|i: int| 0 <= i < p.len() ==> survives(#[trigger] t[i], ids) == survives(p[i], ids),
{
    lemma_slot_index(p, "pcsx-redux"@);
    assert(slot_ids(t) =~= slot_ids(p));
}

/// The startup repair settles after one run: on the configuration it
/// produced, a second run prunes no slot and changes no arguments (and so
/// reports nothing to save).
pub proof fn lemma_repair_settles(
    s: Seq<EmulatorEntry>,
    ids: Seq<Seq<char>>,
    t: Seq<EmulatorEntry>,
    u: Seq<EmulatorEntry>,
)
    requires
        migrated_from(surviving(s, ids), t),
        migrated_from(surviving(t, ids), u),
    ensures
        surviving(t, ids) == t,
        u == t,
{
    let p = surviving(s, ids);
    lemma_surviving_all_survive(s, ids);
    lemma_migration_keeps_ids_and_survival(p, t, ids);
    assert forall|i: int| 0 <= i < t.len() implies survives(#[trigger] t[i], ids) by {
        assert(survives(p[i], ids));
    }
    lemma_surviving_keeps_survivors(t, ids);
    lemma_slot_index_by_ids(t, p, "pcsx-redux"@);
    lemma_slot_index(p, "pcsx-redux"@);
    match slot_index(p, "pcsx-redux"@) {
        Some(k) => {
            if strs(p[k].args@) == old_duckstation_args() {
                assert(strs(t[k].args@).len() != old_duckstation_args().len());
            }
        },
        None => {},
    }
}

/// The platforms an installed emulator covering `ps` takes over: each of
/// them, in order and once, that is not already in `assigned`.
pub open spec fn install_assignments(ps: Seq<Platform>, assigned: Seq<Platform>) -> Seq<Platform>
    decreases ps.len(),
{
    if ps.len() == 0 {
        Seq::empty()
    } else {
        let prev = install_assignments(ps.drop_last(), assigned);
        if assigned.contains(ps.last()) || prev.contains(ps.last()) {
            prev
        } else {
            prev.push(ps.last())
        }
    }
}

fn contains_platform(v: &Vec<Platform>, p: Platform) -> (r: bool)
    ensures
        r == v@.contains(p),
{
    let mut i: usize = 0;
    while i < v.len()
        invariant
            i <= v@.len(),
            forall|j: int| 0 <= j < i ==> v@[j] != p,
        decreases v.len() - i,
    {
        if v[i] == p {
            assert(v@[i as int] == p);
            return true;
        }
        i += 1;
    }
    false
}

/// After an install, the platforms to assign to the installed emulator:
/// every platform of its slot (in order, once) that has no assignment yet.
pub fn install_assignments_for(platforms: &Vec<Platform>, assigned: &Vec<Platform>) -> (r: Vec<Platform>)
    ensures
        r@ == install_assignments(platforms@, assigned@),
{
    let mut out: Vec<Platform> = Vec::new();
    let mut i: usize = 0;
    while i < platforms.len()
        invariant
            i <= platforms@.len(),
            out@ == install_assignments(platforms@.take(i as int), assigned@),
        decreases platforms.len() - i,
    {
        let p = platforms[i];
        assert(platforms@.take(i + 1).drop_last() =~= platforms@.take(i as int));
        assert(platforms@.take(i + 1).last() == p);
        if !contains_platform(assigned, p) && !contains_platform(&out, p) {
            out.push(p);
        }
        i += 1;
    }
    assert(platforms@.take(platforms@.len() as int) =~= platforms@);
    out
}

/// Installing never takes over an assigned platform, and every platform of
/// the slot ends up assigned (before or by the install).
pub proof fn lemma_install_assignments(ps: Seq<Platform>, assigned: Seq<Platform>)
    ensures
        forall|p: Platform| #[trigger] install_assignments(ps, assigned).contains(p) ==> ps.contains(p)
            && !assigned.contains(p),
        forall|p: Platform| ps.contains(p) ==> assigned.contains(p) || #[trigger] install_assignments(
            ps,
            assigned,
        ).contains(p),
    decreases ps.len(),
{
    if ps.len() > 0 {
        let rest = ps.drop_last();
        lemma_install_assignments(rest, assigned);
        assert forall|p: Platform| ps.contains(p) implies assigned.contains(p) || install_assignments(
            ps,
            assigned,
        ).contains(p) by {
            let k = choose|k: int| 0 <= k < ps.len() && ps[k] == p;
            let prev = install_assignments(rest, assigned);
            let cur = install_assignments(ps, assigned);
            if k < ps.len() - 1 {
                assert(rest[k] == p);
                assert(rest.contains(p));
            }
            if prev.contains(p) {
                let j = choose|j: int| 0 <= j < prev.len() && prev[j] == p;
                assert(cur[j] == p);
            } else if !assigned.contains(p) {
                assert(p == ps.last());
                assert(cur[cur.len() - 1] == p);
            }
        }
        assert forall|p: Platform| #[trigger] install_assignments(ps, assigned).contains(p) implies ps.contains(p)
            && !assigned.contains(p) by {
            let prev = install_assignments(rest, assigned);
            if prev.contains(p) {
                let k = choose|k: int| 0 <= k < rest.len() && rest[k] == p;
                assert(ps[k] == p);
            } else {
                assert(ps[ps.len() - 1] == p);
            }
        }
    }
}

} // verus!
