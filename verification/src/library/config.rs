//! Library configuration and reports: the scan folders, IGDB credentials,
//! one-shot markers, scan and enrichment reports, and the cached
//! snapshot. Timestamps (`T`) and entry metadata are carried through
//! unchanged.

use vstd::prelude::*;

use crate::installer::streaming::StreamingInstallReport;
use crate::library::igdb::{metadata_of, to_metadata, IgdbGame, IgdbMetadata};
use crate::library::scanner::{LibraryEntry, MergeOutcome};
use crate::text::{ascii_lower_seq, chars_of, copy_string, opt_chars, owned, string_of, trim, trim_exec};

verus! {

/// File the settings store writes to under the app data folder.
pub const STORE_FILE: &'static str = "settings.json";

/// Key the library configuration is stored under.
pub const LIBRARY_CONFIG_KEY: &'static str = "library.config";

/// File the library cache is written to.
pub const LIBRARY_FILE: &'static str = "library.json";

/// Event names scan and enrichment progress is emitted under.
pub const SCAN_PROGRESS_EVENT: &'static str = "abyss://library/scan-progress";

pub const ENRICH_PROGRESS_EVENT: &'static str = "abyss://library/enrich-progress";

/// Persisted library configuration.
#[derive(Debug, Clone)]
pub struct LibraryConfig<T> {
    pub scan_paths: Vec<String>,
    /// IGDB / Twitch client credentials, stored locally only.
    pub igdb_client_id: Option<String>,
    pub igdb_client_secret: Option<String>,
    /// When the first-run wizard was completed or skipped.
    pub wizard_completed_at: Option<T>,
    /// When installing the streaming apps was last attempted.
    pub streaming_apps_attempted_at: Option<T>,
    /// When installing every emulator was last attempted.
    pub emulators_install_attempted_at: Option<T>,
}

/// The folders of a configuration.
pub open spec fn paths_view(v: Seq<String>) -> Seq<Seq<char>> {
    v.map_values(|s: String| s@)
}

/// The characters of a path that `std::path::Path` equality can never
/// disregard: everything but the separators `/` and `\` and the dots,
/// ASCII-lower-cased (a Windows drive letter is compared without case).
pub open spec fn path_skeleton(p: Seq<char>) -> Seq<char> {
    ascii_lower_seq(p.filter(|c: char| c != '/' && c != '\\' && c != '.'))
}

/// `std::path::Path` equality of two paths. Paths are equal when their
/// components are (std's `Path::components`: repeated separators, trailing
/// separators and inner `.` are normalized away, nothing else), so
/// identical texts are always the same path and the same path never
/// differs in its skeleton. Which other texts count as the same depends on
/// the platform's separators and prefixes, so no more is stated.
#[verifier::external_body]
fn same_path(a: &str, b: &str) -> (r: bool)
    ensures
        a@ == b@ ==> r,
        r ==> path_skeleton(a@) == path_skeleton(b@),
{
    std::path::Path::new(a) == std::path::Path::new(b)
}

/// Some comparison said "same path".
pub open spec fn any_same(same: Seq<bool>) -> bool
    decreases same.len(),
{
    if same.len() == 0 {
        false
    } else {
        any_same(same.drop_last()) || same.last()
    }
}

proof fn lemma_any_same(same: Seq<bool>, j: int)
    requires
        0 <= j < same.len(),
        same[j],
    ensures
        any_same(same),
    decreases same.len(),
{
    if j < same.len() - 1 {
        lemma_any_same(same.drop_last(), j);
    }
}

/// `same` holds one outcome of `std::path::Path` equality per configured
/// folder, in order: identical texts always compare the same, and paths
/// that compare the same have the same skeleton.
pub open spec fn same_paths_outcome(same: Seq<bool>, paths: Seq<Seq<char>>, path: Seq<char>) -> bool {
    &&& same.len() == paths.len()
    &&& forall|j: int| 0 <= j < paths.len() && paths[j] == path ==> #[trigger] same[j]
    &&& forall|j: int|
        0 <= j < paths.len() && #[trigger] same[j] ==> path_skeleton(paths[j]) == path_skeleton(path)
}

/// The folders kept when those whose comparison said "same path" are
/// dropped, in order.
pub open spec fn kept_paths(paths: Seq<Seq<char>>, same: Seq<bool>) -> Seq<Seq<char>>
    decreases paths.len(),
{
    if paths.len() == 0 || same.len() == 0 {
        Seq::empty()
    } else if same.last() {
        kept_paths(paths.drop_last(), same.drop_last())
    } else {
        kept_paths(paths.drop_last(), same.drop_last()).push(paths.last())
    }
}

/// A text setting as stored: `None` when blank after trimming.
pub open spec fn trimmed_setting(s: Seq<char>) -> Option<Seq<char>> {
    if trim(s).len() > 0 {
        Some(trim(s))
    } else {
        None
    }
}

fn trimmed_string(s: &str) -> (r: Option<String>)
    ensures
        opt_chars(r) == trimmed_setting(s@),
{
    let t = trim_exec(chars_of(s).as_slice());
    if t.len() > 0 {
        Some(string_of(t.as_slice()))
    } else {
        None
    }
}

impl<T> LibraryConfig<T> {
    /// No folders, no credentials, no markers.
    pub fn new() -> (r: Self)
        ensures
            r.scan_paths@.len() == 0,
            r.igdb_client_id is None,
            r.igdb_client_secret is None,
            r.wizard_completed_at is None,
            r.streaming_apps_attempted_at is None,
            r.emulators_install_attempted_at is None,
    {
        LibraryConfig {
            scan_paths: Vec::new(),
            igdb_client_id: None,
            igdb_client_secret: None,
            wizard_completed_at: None,
            streaming_apps_attempted_at: None,
            emulators_install_attempted_at: None,
        }
    }

    /// Whether the first-launch install of every emulator should run: it
    /// has never been attempted.
    pub fn should_auto_install_emulators(&self) -> (r: bool)
        ensures
            r == (self.emulators_install_attempted_at is None),
    {
        self.emulators_install_attempted_at.is_none()
    }

    /// Whether the first-launch install of the streaming apps should run:
    /// it has never been attempted and at least one of Sunshine, Moonlight
    /// and Tailscale was not found.
    pub fn should_auto_install_streaming(&self, found: &StreamingInstallReport) -> (r: bool)
        ensures
            r == (self.streaming_apps_attempted_at is None && !(found.sunshine_installed
                && found.moonlight_installed && found.tailscale_installed)),
    {
        self.streaming_apps_attempted_at.is_none() && !(found.sunshine_installed && found.moonlight_installed
            && found.tailscale_installed)
    }

    /// Add a scan folder unless the same path is already configured: the
    /// path is compared with every configured folder (identical texts are
    /// always the same path) and appended exactly when none compared the
    /// same.
    pub fn add_path(&mut self, path: String)
        ensures
            exists|same: Seq<bool>|
                same_paths_outcome(same, paths_view(old(self).scan_paths@), path@) && paths_view(
                    final(self).scan_paths@,
                ) == if any_same(same) {
                    paths_view(old(self).scan_paths@)
                } else {
                    paths_view(old(self).scan_paths@).push(path@)
                },
            paths_view(old(self).scan_paths@).contains(path@) ==> paths_view(final(self).scan_paths@)
                == paths_view(old(self).scan_paths@),
            final(self).igdb_client_id == old(self).igdb_client_id,
            final(self).igdb_client_secret == old(self).igdb_client_secret,
            final(self).wizard_completed_at == old(self).wizard_completed_at,
            final(self).streaming_apps_attempted_at == old(self).streaming_apps_attempted_at,
            final(self).emulators_install_attempted_at == old(self).emulators_install_attempted_at,
    {
        let ghost pv = paths_view(self.scan_paths@);
        let ghost mut same: Seq<bool> = Seq::empty();
        let mut i: usize = 0;
        let mut found = false;
        while i < self.scan_paths.len()
            invariant
                i <= self.scan_paths@.len(),
                pv == paths_view(self.scan_paths@),
                same.len() == i,
                forall|j: int| 0 <= j < i && pv[j] == path@ ==> #[trigger] same[j],
                forall|j: int| 0 <= j < i && #[trigger] same[j] ==> path_skeleton(pv[j]) == path_skeleton(path@),
                found == any_same(same),
            decreases self.scan_paths.len() - i,
        {
            let eq = same_path(self.scan_paths[i].as_str(), path.as_str());
            assert(pv[i as int] == self.scan_paths@[i as int]@);
            proof {
                let prev = same;
                same = same.push(eq);
                assert(same.drop_last() =~= prev);
            }
            if eq {
                found = true;
            }
            i += 1;
        }
        if !found {
            self.scan_paths.push(path);
            assert(paths_view(self.scan_paths@) =~= pv.push(path@));
        }
        proof {
            if pv.contains(path@) && !found {
                let j = choose|j: int| 0 <= j < pv.len() && pv[j] == path@;
                assert(same[j]);
                lemma_any_same(same, j);
            }
            assert(same_paths_outcome(same, pv, path@));
        }
    }

    /// Drop every scan folder that is the same path as `path`: each
    /// configured folder is compared with `path` (identical texts are always
    /// the same path), and exactly those that did not compare the same are
    /// kept, in their order.
    pub fn remove_path(&mut self, path: &str)
        ensures
            exists|same: Seq<bool>|
                same_paths_outcome(same, paths_view(old(self).scan_paths@), path@) && paths_view(
                    final(self).scan_paths@,
                ) == kept_paths(paths_view(old(self).scan_paths@), same),
            forall|i: int|
                0 <= i < final(self).scan_paths@.len() ==> #[trigger] final(self).scan_paths@[i]@ != path@,
            forall|i: int|
                0 <= i < final(self).scan_paths@.len() ==> paths_view(old(self).scan_paths@).contains(
                    #[trigger] final(self).scan_paths@[i]@,
                ),
            final(self).scan_paths@.len() <= old(self).scan_paths@.len(),
            final(self).igdb_client_id == old(self).igdb_client_id,
            final(self).igdb_client_secret == old(self).igdb_client_secret,
            final(self).wizard_completed_at == old(self).wizard_completed_at,
            final(self).streaming_apps_attempted_at == old(self).streaming_apps_attempted_at,
            final(self).emulators_install_attempted_at == old(self).emulators_install_attempted_at,
    {
        let ghost pv = paths_view(self.scan_paths@);
        let ghost mut same: Seq<bool> = Seq::empty();
        let mut kept: Vec<String> = Vec::new();
        let mut i: usize = 0;
        while i < self.scan_paths.len()
            invariant
                i <= self.scan_paths@.len(),
                pv == paths_view(self.scan_paths@),
                kept@.len() <= i,
                same.len() == i,
                forall|j: int| 0 <= j < i && pv[j] == path@ ==> #[trigger] same[j],
                forall|j: int| 0 <= j < i && #[trigger] same[j] ==> path_skeleton(pv[j]) == path_skeleton(path@),
                paths_view(kept@) == kept_paths(pv.take(i as int), same),
                forall|k: int| 0 <= k < kept@.len() ==> #[trigger] kept@[k]@ != path@,
                forall|k: int| 0 <= k < kept@.len() ==> pv.contains(#[trigger] kept@[k]@),
            decreases self.scan_paths.len() - i,
        {
            let ghost before = kept@;
            let ghost before_same = same;
            assert(pv.take(i + 1).drop_last() =~= pv.take(i as int));
            assert(pv.take(i + 1).last() == pv[i as int]);
            let is_same = same_path(self.scan_paths[i].as_str(), path);
            proof {
                same = same.push(is_same);
                assert(same.drop_last() =~= before_same);
            }
            if !is_same {
                kept.push(copy_string(&self.scan_paths[i]));
                assert(pv[i as int] == self.scan_paths@[i as int]@);
                assert(paths_view(kept@) =~= paths_view(before).push(pv[i as int]));
                assert forall|k: int| 0 <= k < kept@.len() implies pv.contains(#[trigger] kept@[k]@) by {
                    if k < before.len() {
                        assert(kept@[k] == before[k]);
                    } else {
                        assert(pv[i as int] == kept@[k]@);
                    }
                }
                assert forall|k: int| 0 <= k < kept@.len() implies #[trigger] kept@[k]@ != path@ by {
                    if k < before.len() {
                        assert(kept@[k] == before[k]);
                    }
                }
            }
            assert forall|j: int| 0 <= j < i + 1 && pv[j] == path@ implies #[trigger] same[j] by {
                if j < i {
                    assert(same[j] == before_same[j]);
                }
            }
            assert forall|j: int| 0 <= j < i + 1 && #[trigger] same[j] implies path_skeleton(pv[j])
                == path_skeleton(path@) by {
                if j < i {
                    assert(same[j] == before_same[j]);
                }
            }
            i += 1;
        }
        assert(pv.take(pv.len() as int) =~= pv);
        self.scan_paths = kept;
    }

    /// Store IGDB credentials, trimmed; a blank one is cleared.
    pub fn set_igdb_credentials(&mut self, client_id: &str, client_secret: &str)
        ensures
            opt_chars(final(self).igdb_client_id) == trimmed_setting(client_id@),
            opt_chars(final(self).igdb_client_secret) == trimmed_setting(client_secret@),
            final(self).scan_paths == old(self).scan_paths,
            final(self).wizard_completed_at == old(self).wizard_completed_at,
            final(self).streaming_apps_attempted_at == old(self).streaming_apps_attempted_at,
            final(self).emulators_install_attempted_at == old(self).emulators_install_attempted_at,
    {
        self.igdb_client_id = trimmed_string(client_id);
        self.igdb_client_secret = trimmed_string(client_secret);
    }

    /// The IGDB credentials needed for enrichment, or the message saying
    /// which one is missing.
    pub fn igdb_credentials(&self) -> (r: Result<(String, String), String>)
        ensures
            self.igdb_client_id is None ==> (r matches Err(e) && e@
                == "IGDB client_id not set — add it under Settings"@),
            self.igdb_client_id is Some && self.igdb_client_secret is None ==> (r matches Err(e) && e@
                == "IGDB client_secret not set — add it under Settings"@),
            self.igdb_client_id is Some && self.igdb_client_secret is Some ==> (r matches Ok((id, secret))
                && Some(id@) == opt_chars(self.igdb_client_id) && Some(secret@) == opt_chars(
                self.igdb_client_secret,
            )),
    {
        let id = match &self.igdb_client_id {
            Some(x) => copy_string(x),
            None => {
                return Err(owned("IGDB client_id not set — add it under Settings"));
            },
        };
        let secret = match &self.igdb_client_secret {
            Some(x) => copy_string(x),
            None => {
                return Err(owned("IGDB client_secret not set — add it under Settings"));
            },
        };
        Ok((id, secret))
    }
}

/// What a scan reports.
#[derive(Debug, Clone)]
pub struct ScanReport {
    pub roots: Vec<String>,
    pub total_files_seen: u64,
    pub games_found: usize,
    pub games_new: usize,
    pub games_kept: usize,
    pub elapsed_ms: u64,
}

/// The report of a scan over `roots` that saw `total_files_seen` files and
/// merged into `outcome`.
pub fn scan_report<M, E>(roots: Vec<String>, total_files_seen: u64, outcome: &MergeOutcome<M, E>, elapsed_ms: u64) -> (r: ScanReport)
    ensures
        r.roots == roots,
        r.total_files_seen == total_files_seen,
        r.games_found == outcome.entries@.len(),
        r.games_new == outcome.games_new,
        r.games_kept == outcome.games_kept,
        r.elapsed_ms == elapsed_ms,
{
    ScanReport {
        roots,
        total_files_seen,
        games_found: outcome.entries.len(),
        games_new: outcome.games_new,
        games_kept: outcome.games_kept,
        elapsed_ms,
    }
}

/// The report when no scan folder is configured.
pub fn empty_scan_report() -> (r: ScanReport)
    ensures
        r.roots@.len() == 0,
        r.total_files_seen == 0,
        r.games_found == 0,
        r.games_new == 0,
        r.games_kept == 0,
        r.elapsed_ms == 0,
{
    ScanReport { roots: Vec::new(), total_files_seen: 0, games_found: 0, games_new: 0, games_kept: 0, elapsed_ms: 0 }
}

/// Progress of a running scan.
#[derive(Debug, Clone)]
pub struct ScanProgressEvent {
    pub root: String,
    pub files_seen: u64,
    pub games_found: u64,
    pub current_file: Option<String>,
}

/// Scan progress is reported every this many files of a root.
pub const PROGRESS_EVERY: u64 = 50;

/// Whether the scan reports progress after this many files of a root.
pub fn progress_due(files_in_root: u64) -> (r: bool)
    ensures
        r == (files_in_root % PROGRESS_EVERY == 0),
{
    files_in_root % PROGRESS_EVERY == 0
}

/// The cached library.
#[derive(Debug, Clone)]
pub struct LibrarySnapshot<M, E> {
    pub version: u32,
    pub entries: Vec<LibraryEntry<M, E>>,
}

/// Version of the cache format written by this library.
pub const SNAPSHOT_VERSION: u32 = 1;

impl<M, E> LibrarySnapshot<M, E> {
    /// A snapshot of the current format holding `entries`.
    pub fn new(entries: Vec<LibraryEntry<M, E>>) -> (r: Self)
        ensures
            r.version == SNAPSHOT_VERSION,
            r.entries == entries,
    {
        LibrarySnapshot { version: SNAPSHOT_VERSION, entries }
    }
}

/// Indexes of the entries an enrichment pass looks up: all of them when
/// forced, else those without metadata yet.
pub open spec fn enrich_targets<M, E>(entries: Seq<LibraryEntry<M, E>>, force: bool) -> Seq<int>
    decreases entries.len(),
{
    if entries.len() == 0 {
        Seq::empty()
    } else if force || entries.last().igdb is None {
        enrich_targets(entries.drop_last(), force).push(entries.len() - 1)
    } else {
        enrich_targets(entries.drop_last(), force)
    }
}

/// Which entries to enrich.
pub fn entries_to_enrich<M, E>(entries: &Vec<LibraryEntry<M, E>>, force: bool) -> (r: Vec<usize>)
    ensures
        r@.map_values(|i: usize| i as int) == enrich_targets(entries@, force),
{
    let mut out: Vec<usize> = Vec::new();
    let mut i: usize = 0;
    while i < entries.len()
        invariant
            i <= entries@.len(),
            out@.map_values(|k: usize| k as int) == enrich_targets(entries@.take(i as int), force),
        decreases entries.len() - i,
    {
        assert(entries@.take(i + 1).drop_last() =~= entries@.take(i as int));
        assert(entries@.take(i + 1).last() == entries@[i as int]);
        let ghost before = out@.map_values(|k: usize| k as int);
        if force || entries[i].igdb.is_none() {
            out.push(i);
            assert(out@.map_values(|k: usize| k as int) =~= before.push(i as int));
        }
        i += 1;
    }
    assert(entries@.take(entries@.len() as int) =~= entries@);
    out
}

/// The running counts of an enrichment pass.
#[derive(Debug, Clone, Copy)]
pub struct EnrichTally {
    pub processed: usize,
    pub matched: usize,
    pub errors: usize,
}

impl EnrichTally {
    /// Nothing processed yet.
    pub fn new() -> (r: Self)
        ensures
            r.processed == 0 && r.matched == 0 && r.errors == 0,
    {
        EnrichTally { processed: 0, matched: 0, errors: 0 }
    }
}

/// Record one IGDB lookup for `entry` at time `now`. Hits: the first one's
/// metadata replaces the entry's (its cached cover stays), the lookup time
/// is set and the entry counts as matched. No hit: only the lookup time is
/// set, so the entry is not looked up again on every pass unless forced.
/// A failed lookup changes nothing but the error count. Every call counts
/// as processed.
pub fn record_lookup<M, R>(
    entry: &mut LibraryEntry<M, IgdbMetadata<R>>,
    tally: &mut EnrichTally,
    outcome: Result<Vec<IgdbGame<R>>, String>,
    now: M,
)
    requires
        old(tally).processed < usize::MAX,
        old(tally).matched <= old(tally).processed,
        old(tally).errors <= old(tally).processed,
    ensures
        final(tally).processed == old(tally).processed + 1,
        final(entry).file == old(entry).file,
        final(entry).cover_local_path == old(entry).cover_local_path,
        match outcome {
            Ok(hits) => {
                &&& final(entry).last_enriched == Some(now)
                &&& final(tally).errors == old(tally).errors
                &&& if hits@.len() > 0 {
                    &&& final(entry).igdb matches Some(m) && metadata_of(m, hits@[0])
                    &&& final(tally).matched == old(tally).matched + 1
                } else {
                    &&& final(entry).igdb == old(entry).igdb
                    &&& final(tally).matched == old(tally).matched
                }
            },
            Err(_) => {
                &&& final(entry).igdb == old(entry).igdb
                &&& final(entry).last_enriched == old(entry).last_enriched
                &&& final(tally).matched == old(tally).matched
                &&& final(tally).errors == old(tally).errors + 1
            },
        },
        final(tally).matched <= final(tally).processed,
        final(tally).errors <= final(tally).processed,
{
    match outcome {
        Ok(mut hits) => {
            if hits.len() > 0 {
                let game = hits.remove(0);
                entry.igdb = Some(to_metadata(game));
                tally.matched = tally.matched + 1;
            }
            entry.last_enriched = Some(now);
        },
        Err(_) => {
            tally.errors = tally.errors + 1;
        },
    }
    tally.processed = tally.processed + 1;
}

/// Progress of a running enrichment.
#[derive(Debug, Clone)]
pub struct EnrichProgress {
    pub processed: usize,
    pub total: usize,
    pub matched: usize,
    pub current: Option<String>,
}

/// Receiver of scan progress; the host application forwards it to the UI.
pub trait ProgressSink {
    fn on_progress(&self, event: ScanProgressEvent);
}

/// A progress sink that drops every event.
pub struct NoopSink;

impl ProgressSink for NoopSink {
    fn on_progress(&self, event: ScanProgressEvent) {
    }
}

/// A finished scan: its report and the resulting library.
#[derive(Debug, Clone)]
pub struct ScanResult<M, E> {
    pub report: ScanReport,
    pub entries: Vec<LibraryEntry<M, E>>,
}

/// What an enrichment pass reports.
#[derive(Debug, Clone)]
pub struct EnrichReport<M, E> {
    pub processed: usize,
    pub matched: usize,
    /// Targets never processed (the pass stopped early).
    pub skipped: usize,
    pub errors: usize,
    pub elapsed_ms: u64,
    pub entries: Vec<LibraryEntry<M, E>>,
}

/// The report of an enrichment pass over `total` targets.
pub fn enrich_report<M, E>(
    total: usize,
    processed: usize,
    matched: usize,
    errors: usize,
    elapsed_ms: u64,
    entries: Vec<LibraryEntry<M, E>>,
) -> (r: EnrichReport<M, E>)
    ensures
        r.processed == processed,
        r.matched == matched,
        r.skipped == if total > processed { (total - processed) as usize } else { 0 },
        r.errors == errors,
        r.elapsed_ms == elapsed_ms,
        r.entries == entries,
{
    EnrichReport {
        processed,
        matched,
        skipped: total.saturating_sub(processed),
        errors,
        elapsed_ms,
        entries,
    }
}

} // verus!
