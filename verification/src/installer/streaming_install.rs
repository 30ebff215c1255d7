//! The streaming-app install flow as a state machine.
//!
//! The host starts from the report of what is already installed, hands
//! `StreamingEvent::Start` to [`streaming_install_step`], and then performs
//! each action it is given (download and run an installer, set Sunshine's
//! credentials) and hands back what came of it, until the action is
//! `Done` or `Abort`. Every decision of the flow is made here: which apps
//! are skipped, what each re-check after an installer run means, when
//! credentials are set, and the text of every message.

use vstd::prelude::*;

use crate::installer::streaming::{StreamingInstallReport, ReportView};
use crate::installer::download::{asset_pick, pick_asset};
use crate::text::{
    ascii_lower_exec, ascii_lower_seq, chars_of, copy_string, extend_chars, extend_str, opt_chars, owned,
    string_of, strs,
};

verus! {

/// The three external apps the flow installs, in the order it handles them.
#[derive(Debug, Clone, Copy, PartialEq, Eq, Structural)]
pub enum StreamingApp {
    Sunshine,
    Moonlight,
    Tailscale,
}

/// The step of an installer run that failed.
#[derive(Debug, Clone)]
pub enum InstallStage {
    /// Looking up the installer's download URL.
    ResolveUrl,
    /// Downloading the installer from the given URL.
    Download(String),
    /// Running the downloaded installer.
    RunInstaller,
}

/// What the host reports back after performing an action.
#[derive(Debug)]
pub enum StreamingEvent {
    /// The flow begins; the report is the one of what is already installed.
    Start,
    /// The installer of `app` ran; `found` is where the re-check after it
    /// found the app's executable, if anywhere.
    Installed { app: StreamingApp, found: Option<String> },
    /// Sunshine's credentials were set to the generated `pass`, or setting
    /// them failed with the given error text.
    CredentialsSet { pass: String, outcome: Result<(), String> },
    /// A step of installing `app` failed with the error text `cause`.
    Failed { app: StreamingApp, stage: InstallStage, cause: String },
}

/// What the host is asked to do next.
#[derive(Debug, Clone)]
pub enum StreamingAction {
    /// Download and run the installer of the app (see [`installer_plan`]),
    /// then re-check its install locations.
    Install(StreamingApp),
    /// Generate a password and set it with `user` on the Sunshine at `exe`.
    SetSunshineCredentials { exe: String, user: String },
    /// Stop: the flow failed with this error text.
    Abort(String),
    /// The flow is complete; the report is final.
    Done,
}

/// Plain-value model of an install stage.
pub enum StageView {
    ResolveUrl,
    Download(Seq<char>),
    RunInstaller,
}

/// Plain-value model of an event.
pub enum EventView {
    Start,
    Installed { app: StreamingApp, found: Option<Seq<char>> },
    CredentialsSet { pass: Seq<char>, outcome: Result<(), Seq<char>> },
    Failed { app: StreamingApp, stage: StageView, cause: Seq<char> },
}

/// Plain-value model of an action.
pub enum ActionView {
    Install(StreamingApp),
    SetSunshineCredentials { exe: Seq<char>, user: Seq<char> },
    Abort(Seq<char>),
    Done,
}

impl View for InstallStage {
    type V = StageView;

    open spec fn view(&self) -> StageView {
        match self {
            InstallStage::ResolveUrl => StageView::ResolveUrl,
            InstallStage::Download(u) => StageView::Download(u@),
            InstallStage::RunInstaller => StageView::RunInstaller,
        }
    }
}

/// The characters of an outcome's error text.
pub open spec fn outcome_view(o: Result<(), String>) -> Result<(), Seq<char>> {
    match o {
        Ok(()) => Ok(()),
        Err(e) => Err(e@),
    }
}

impl View for StreamingEvent {
    type V = EventView;

    open spec fn view(&self) -> EventView {
        match self {
            StreamingEvent::Start => EventView::Start,
            StreamingEvent::Installed { app, found } => EventView::Installed {
                app: *app,
                found: opt_chars(*found),
            },
            StreamingEvent::CredentialsSet { pass, outcome } => EventView::CredentialsSet {
                pass: pass@,
                outcome: outcome_view(*outcome),
            },
            StreamingEvent::Failed { app, stage, cause } => EventView::Failed {
                app: *app,
                stage: stage@,
                cause: cause@,
            },
        }
    }
}

impl View for StreamingAction {
    type V = ActionView;

    open spec fn view(&self) -> ActionView {
        match self {
            StreamingAction::Install(a) => ActionView::Install(*a),
            StreamingAction::SetSunshineCredentials { exe, user } => ActionView::SetSunshineCredentials {
                exe: exe@,
                user: user@,
            },
            StreamingAction::Abort(e) => ActionView::Abort(e@),
            StreamingAction::Done => ActionView::Done,
        }
    }
}

/// The model of a step's result.
pub open spec fn step_view(r: (StreamingInstallReport, StreamingAction)) -> (ReportView, ActionView) {
    (r.0@, r.1@)
}

// ---------------------------------------------------------------------------
// The flow, stated over the models
// ---------------------------------------------------------------------------

/// The user name set on a freshly installed Sunshine.
pub open spec fn sunshine_user() -> Seq<char> {
    "abyss"@
}

/// The report with one more message.
pub open spec fn with_message(r: ReportView, m: Seq<char>) -> ReportView {
    ReportView { messages: r.messages.push(m), ..r }
}

/// The report with `app` marked installed at `path`.
pub open spec fn with_installed(r: ReportView, app: StreamingApp, path: Seq<char>) -> ReportView {
    match app {
        StreamingApp::Sunshine => ReportView { sunshine_installed: true, sunshine_path: Some(path), ..r },
        StreamingApp::Moonlight => ReportView { moonlight_installed: true, moonlight_path: Some(path), ..r },
        StreamingApp::Tailscale => ReportView { tailscale_installed: true, tailscale_path: Some(path), ..r },
    }
}

/// The app's name in messages.
pub open spec fn app_name(app: StreamingApp) -> Seq<char> {
    match app {
        StreamingApp::Sunshine => "Sunshine"@,
        StreamingApp::Moonlight => "Moonlight"@,
        StreamingApp::Tailscale => "Tailscale"@,
    }
}

/// The message when the re-check found the app after its installer ran.
pub open spec fn installed_message(app: StreamingApp) -> Seq<char> {
    match app {
        StreamingApp::Sunshine => "Sunshine installed."@,
        StreamingApp::Moonlight => "Moonlight installed."@,
        StreamingApp::Tailscale => "Tailscale installed."@,
    }
}

/// The message when the re-check did not find the app after its installer ran.
pub open spec fn missing_message(app: StreamingApp) -> Seq<char> {
    match app {
        StreamingApp::Sunshine =>
            "Sunshine installer ran but the binary isn't where expected — user may have cancelled the UAC prompt."@,
        StreamingApp::Moonlight => "Moonlight installer ran but the binary isn't where expected."@,
        StreamingApp::Tailscale =>
            "Tailscale installer ran but the binary isn't where expected — user may have cancelled the UAC prompt."@,
    }
}

/// The message when the app was installed before the flow began.
pub open spec fn skipped_message(app: StreamingApp) -> Seq<char> {
    match app {
        StreamingApp::Sunshine =>
            "Sunshine was already installed; skipped credential setup to preserve any existing config."@,
        StreamingApp::Moonlight => "Moonlight was already installed; skipped."@,
        StreamingApp::Tailscale => "Tailscale was already installed; skipped."@,
    }
}

/// The message when all three apps were installed before the flow began.
pub open spec fn all_present_message() -> Seq<char> {
    "Sunshine + Moonlight + Tailscale already installed."@
}

/// The message after Sunshine's credentials were set.
pub open spec fn creds_set_message() -> Seq<char> {
    "Sunshine credentials configured silently — no browser dance needed."@
}

/// The message after setting Sunshine's credentials failed with `e`.
pub open spec fn creds_failed_message(e: Seq<char>) -> Seq<char> {
    "Sunshine installed but auto-credential setup failed: "@ + e
        + ". You can set them manually at https://localhost:47990 or via Settings → Streaming."@
}

/// What failed, when a step of installing `app` fails.
pub open spec fn failure_context(app: StreamingApp, stage: StageView) -> Seq<char> {
    match stage {
        StageView::ResolveUrl => "resolving "@ + app_name(app) + " installer URL"@,
        StageView::Download(url) => "downloading "@ + app_name(app) + " from "@ + url,
        StageView::RunInstaller => "running "@ + app_name(app) + " installer"@,
    }
}

/// Whether the report says `app` is installed.
pub open spec fn is_installed(r: ReportView, app: StreamingApp) -> bool {
    match app {
        StreamingApp::Sunshine => r.sunshine_installed,
        StreamingApp::Moonlight => r.moonlight_installed,
        StreamingApp::Tailscale => r.tailscale_installed,
    }
}

/// Handle Tailscale and finish: install it, or note that it was skipped.
pub open spec fn from_tailscale(r: ReportView) -> (ReportView, ActionView) {
    if !r.tailscale_installed {
        (r, ActionView::Install(StreamingApp::Tailscale))
    } else {
        (with_message(r, skipped_message(StreamingApp::Tailscale)), ActionView::Done)
    }
}

/// Handle Moonlight, then Tailscale.
pub open spec fn from_moonlight(r: ReportView) -> (ReportView, ActionView) {
    if !r.moonlight_installed {
        (r, ActionView::Install(StreamingApp::Moonlight))
    } else {
        from_tailscale(with_message(r, skipped_message(StreamingApp::Moonlight)))
    }
}

/// Handle Sunshine, then Moonlight and Tailscale.
pub open spec fn from_sunshine(r: ReportView) -> (ReportView, ActionView) {
    if !r.sunshine_installed {
        (r, ActionView::Install(StreamingApp::Sunshine))
    } else {
        from_moonlight(with_message(r, skipped_message(StreamingApp::Sunshine)))
    }
}

/// Go on with the apps after `app`.
pub open spec fn after(r: ReportView, app: StreamingApp) -> (ReportView, ActionView) {
    match app {
        StreamingApp::Sunshine => from_moonlight(r),
        StreamingApp::Moonlight => from_tailscale(r),
        StreamingApp::Tailscale => (r, ActionView::Done),
    }
}

/// One step of the flow: the new report and the next action, given the
/// report so far and what came of the last action.
pub open spec fn install_step(r: ReportView, e: EventView) -> (ReportView, ActionView) {
    match e {
        EventView::Start => {
            if r.sunshine_installed && r.moonlight_installed && r.tailscale_installed {
                (with_message(r, all_present_message()), ActionView::Done)
            } else {
                from_sunshine(r)
            }
        },
        EventView::Installed { app, found } => match found {
            Some(path) => {
                let r2 = with_message(with_installed(r, app, path), installed_message(app));
                if app == StreamingApp::Sunshine {
                    (r2, ActionView::SetSunshineCredentials { exe: path, user: sunshine_user() })
                } else {
                    after(r2, app)
                }
            },
            None => after(with_message(r, missing_message(app)), app),
        },
        EventView::CredentialsSet { pass, outcome } => match outcome {
            Ok(()) => from_moonlight(
                with_message(
                    ReportView { auto_creds_user: Some(sunshine_user()), auto_creds_pass: Some(pass), ..r },
                    creds_set_message(),
                ),
            ),
            Err(err) => from_moonlight(with_message(r, creds_failed_message(err))),
        },
        EventView::Failed { app, stage, cause } => (
            r,
            ActionView::Abort(failure_context(app, stage) + ": "@ + cause),
        ),
    }
}

// ---------------------------------------------------------------------------
// The flow, executed
// ---------------------------------------------------------------------------

fn push_message(mut report: StreamingInstallReport, m: String) -> (r: StreamingInstallReport)
    ensures
        r@ == with_message(report@, m@),
{
    let ghost before = report@;
    let ghost mv = m@;
    report.messages.push(m);
    proof {
        assert(strs(report.messages@) =~= before.messages.push(mv));
    }
    report
}

fn app_name_str(app: StreamingApp) -> (r: &'static str)
    ensures
        r@ == app_name(app),
{
    match app {
        StreamingApp::Sunshine => "Sunshine",
        StreamingApp::Moonlight => "Moonlight",
        StreamingApp::Tailscale => "Tailscale",
    }
}

fn skipped_str(app: StreamingApp) -> (r: &'static str)
    ensures
        r@ == skipped_message(app),
{
    match app {
        StreamingApp::Sunshine =>
            "Sunshine was already installed; skipped credential setup to preserve any existing config.",
        StreamingApp::Moonlight => "Moonlight was already installed; skipped.",
        StreamingApp::Tailscale => "Tailscale was already installed; skipped.",
    }
}

fn installed_str(app: StreamingApp) -> (r: &'static str)
    ensures
        r@ == installed_message(app),
{
    match app {
        StreamingApp::Sunshine => "Sunshine installed.",
        StreamingApp::Moonlight => "Moonlight installed.",
        StreamingApp::Tailscale => "Tailscale installed.",
    }
}

fn missing_str(app: StreamingApp) -> (r: &'static str)
    ensures
        r@ == missing_message(app),
{
    match app {
        StreamingApp::Sunshine =>
            "Sunshine installer ran but the binary isn't where expected — user may have cancelled the UAC prompt.",
        StreamingApp::Moonlight => "Moonlight installer ran but the binary isn't where expected.",
        StreamingApp::Tailscale =>
            "Tailscale installer ran but the binary isn't where expected — user may have cancelled the UAC prompt.",
    }
}

fn tailscale_next(report: StreamingInstallReport) -> (r: (StreamingInstallReport, StreamingAction))
    ensures
        step_view(r) == from_tailscale(report@),
{
    if !report.tailscale_installed {
        (report, StreamingAction::Install(StreamingApp::Tailscale))
    } else {
        (push_message(report, owned(skipped_str(StreamingApp::Tailscale))), StreamingAction::Done)
    }
}

fn moonlight_next(report: StreamingInstallReport) -> (r: (StreamingInstallReport, StreamingAction))
    ensures
        step_view(r) == from_moonlight(report@),
{
    if !report.moonlight_installed {
        (report, StreamingAction::Install(StreamingApp::Moonlight))
    } else {
        tailscale_next(push_message(report, owned(skipped_str(StreamingApp::Moonlight))))
    }
}

fn sunshine_next(report: StreamingInstallReport) -> (r: (StreamingInstallReport, StreamingAction))
    ensures
        step_view(r) == from_sunshine(report@),
{
    if !report.sunshine_installed {
        (report, StreamingAction::Install(StreamingApp::Sunshine))
    } else {
        moonlight_next(push_message(report, owned(skipped_str(StreamingApp::Sunshine))))
    }
}

fn after_exec(report: StreamingInstallReport, app: StreamingApp) -> (r: (StreamingInstallReport, StreamingAction))
    ensures
        step_view(r) == after(report@, app),
{
    match app {
        StreamingApp::Sunshine => moonlight_next(report),
        StreamingApp::Moonlight => tailscale_next(report),
        StreamingApp::Tailscale => (report, StreamingAction::Done),
    }
}

fn mark_installed(mut report: StreamingInstallReport, app: StreamingApp, path: String) -> (r:
    StreamingInstallReport)
    ensures
        r@ == with_installed(report@, app, path@),
{
    match app {
        StreamingApp::Sunshine => {
            report.sunshine_installed = true;
            report.sunshine_path = Some(path);
        },
        StreamingApp::Moonlight => {
            report.moonlight_installed = true;
            report.moonlight_path = Some(path);
        },
        StreamingApp::Tailscale => {
            report.tailscale_installed = true;
            report.tailscale_path = Some(path);
        },
    }
    report
}

/// What failed, when a step of installing `app` fails.
pub fn install_failure_context(app: StreamingApp, stage: &InstallStage) -> (r: String)
    ensures
        r@ == failure_context(app, stage@),
{
    let mut v: Vec<char> = Vec::new();
    match stage {
        InstallStage::ResolveUrl => {
            extend_str(&mut v, "resolving ");
            extend_str(&mut v, app_name_str(app));
            extend_str(&mut v, " installer URL");
        },
        InstallStage::Download(url) => {
            extend_str(&mut v, "downloading ");
            extend_str(&mut v, app_name_str(app));
            extend_str(&mut v, " from ");
            let u = chars_of(url.as_str());
            extend_chars(&mut v, u.as_slice());
        },
        InstallStage::RunInstaller => {
            extend_str(&mut v, "running ");
            extend_str(&mut v, app_name_str(app));
            extend_str(&mut v, " installer");
        },
    }
    string_of(v.as_slice())
}

/// One step of the streaming-app install flow: given the report so far and
/// what came of the last action (or `Start`, with the report of what is
/// already installed), the new report and the next action.
///
/// All three apps present at the start: the flow is done at once with a
/// single message. Otherwise Sunshine, Moonlight and Tailscale are handled
/// in that order; each one already present is skipped with a message, the
/// first missing one is installed. After an installer ran, the re-check
/// decides: found, the app is recorded at that path and, for Sunshine
/// only, credentials are set next; not found, a message says so. A failed
/// download or installer run aborts the flow with the error text.
pub fn streaming_install_step(report: StreamingInstallReport, event: StreamingEvent) -> (r: (
    StreamingInstallReport,
    StreamingAction,
))
    ensures
        step_view(r) == install_step(report@, event@),
{
    match event {
        StreamingEvent::Start => {
            if report.sunshine_installed && report.moonlight_installed && report.tailscale_installed {
                (push_message(report, owned("Sunshine + Moonlight + Tailscale already installed.")),
                    StreamingAction::Done)
            } else {
                sunshine_next(report)
            }
        },
        StreamingEvent::Installed { app, found } => match found {
            Some(path) => {
                let exe = copy_string(&path);
                let r2 = push_message(mark_installed(report, app, path), owned(installed_str(app)));
                if app == StreamingApp::Sunshine {
                    (r2, StreamingAction::SetSunshineCredentials { exe, user: owned("abyss") })
                } else {
                    after_exec(r2, app)
                }
            },
            None => after_exec(push_message(report, owned(missing_str(app))), app),
        },
        StreamingEvent::CredentialsSet { pass, outcome } => match outcome {
            Ok(()) => {
                let mut r2 = report;
                r2.auto_creds_user = Some(owned("abyss"));
                r2.auto_creds_pass = Some(pass);
                moonlight_next(
                    push_message(
                        r2,
                        owned("Sunshine credentials configured silently — no browser dance needed."),
                    ),
                )
            },
            Err(err) => {
                let mut v: Vec<char> = Vec::new();
                extend_str(&mut v, "Sunshine installed but auto-credential setup failed: ");
                let e = chars_of(err.as_str());
                extend_chars(&mut v, e.as_slice());
                extend_str(
                    &mut v,
                    ". You can set them manually at https://localhost:47990 or via Settings → Streaming.",
                );
                moonlight_next(push_message(report, string_of(v.as_slice())))
            },
        },
        StreamingEvent::Failed { app, stage, cause } => {
            let mut v: Vec<char> = Vec::new();
            let ctx = install_failure_context(app, &stage);
            let c = chars_of(ctx.as_str());
            extend_chars(&mut v, c.as_slice());
            extend_str(&mut v, ": ");
            let k = chars_of(cause.as_str());
            extend_chars(&mut v, k.as_slice());
            (report, StreamingAction::Abort(string_of(v.as_slice())))
        },
    }
}

// ---------------------------------------------------------------------------
// Where each installer comes from
// ---------------------------------------------------------------------------

/// Where an installer is downloaded from.
#[derive(Debug, Clone, Copy)]
pub enum InstallerSource {
    /// The asset of the latest GitHub release of `owner/repo` whose name
    /// contains `asset`, compared without ASCII case.
    LatestRelease { owner: &'static str, repo: &'static str, asset: &'static str },
    /// A fixed URL.
    Direct(&'static str),
}

/// How one app's installer is fetched and run.
#[derive(Debug, Clone, Copy)]
pub struct InstallerPlan {
    pub source: InstallerSource,
    /// The file name the installer is saved under in the temp folder.
    pub file_name: &'static str,
    /// The installer's command-line argument (NSIS silent mode).
    pub args: &'static str,
    /// Whether the installer is run elevated (it registers a system service).
    pub elevated: bool,
}

/// How the installer of `app` is fetched and run: Sunshine and Moonlight
/// from their latest GitHub releases, Tailscale from its stable `latest`
/// link; Sunshine and Tailscale elevated, Moonlight per-user.
pub fn installer_plan(app: StreamingApp) -> (r: InstallerPlan)
    ensures
        r.args@ == "/S"@,
        r.elevated == (app != StreamingApp::Moonlight),
        app == StreamingApp::Sunshine ==> r.file_name@ == "abyss-Sunshine-installer.exe"@ && (
        r.source matches InstallerSource::LatestRelease { owner, repo, asset } && owner@
            == "LizardByte"@ && repo@ == "Sunshine"@ && asset@ == "windows-amd64-installer.exe"@),
        app == StreamingApp::Moonlight ==> r.file_name@ == "abyss-Moonlight-installer.exe"@ && (
        r.source matches InstallerSource::LatestRelease { owner, repo, asset } && owner@
            == "moonlight-stream"@ && repo@ == "moonlight-qt"@ && asset@ == "MoonlightSetup-"@),
        app == StreamingApp::Tailscale ==> r.file_name@ == "abyss-Tailscale-setup.exe"@ && (
        r.source matches InstallerSource::Direct(url) && url@
            == "https://pkgs.tailscale.com/stable/tailscale-setup-latest.exe"@),
{
    match app {
        StreamingApp::Sunshine => InstallerPlan {
            source: InstallerSource::LatestRelease {
                owner: "LizardByte",
                repo: "Sunshine",
                asset: "windows-amd64-installer.exe",
            },
            file_name: "abyss-Sunshine-installer.exe",
            args: "/S",
            elevated: true,
        },
        StreamingApp::Moonlight => InstallerPlan {
            source: InstallerSource::LatestRelease {
                owner: "moonlight-stream",
                repo: "moonlight-qt",
                asset: "MoonlightSetup-",
            },
            file_name: "abyss-Moonlight-installer.exe",
            args: "/S",
            elevated: false,
        },
        StreamingApp::Tailscale => InstallerPlan {
            source: InstallerSource::Direct("https://pkgs.tailscale.com/stable/tailscale-setup-latest.exe"),
            file_name: "abyss-Tailscale-setup.exe",
            args: "/S",
            elevated: true,
        },
    }
}

/// The index of the release asset to download for a streaming app: the
/// first whose name contains `needle`, both compared ASCII-lower-cased.
pub fn pick_release_asset(names: &Vec<String>, needle: &str) -> (r: Option<usize>)
    ensures
        match asset_pick(names@.map_values(|s: String| s@), ascii_lower_seq(needle@)) {
            Some(i) => r == Some(i as usize),
            None => r is None,
        },
{
    let nc = chars_of(needle);
    let low = string_of(ascii_lower_exec(nc.as_slice()).as_slice());
    pick_asset(names, low.as_str())
}

// ---------------------------------------------------------------------------
// Laws of the flow
// ---------------------------------------------------------------------------

/// The flow never asks to install an app that the report it returns shows
/// installed.
pub proof fn lemma_never_reinstalls(r: ReportView, e: EventView, app: StreamingApp)
    ensures
        install_step(r, e).1 == ActionView::Install(app) ==> !is_installed(install_step(r, e).0, app),
{
}

/// Sunshine's credentials are set only right after a fresh Sunshine
/// install that the re-check confirmed, and on the executable it found.
pub proof fn lemma_credentials_only_after_fresh_sunshine(r: ReportView, e: EventView)
    ensures
        install_step(r, e).1 is SetSunshineCredentials ==> (e matches EventView::Installed {
            app,
            found: Some(p),
        } && app == StreamingApp::Sunshine && install_step(r, e).1->exe == p),
{
}

/// A step keeps what was found installed, keeps the earlier messages as a
/// prefix, and records credentials only from a successful `CredentialsSet`.
pub proof fn lemma_step_monotone(r: ReportView, e: EventView, app: StreamingApp)
    ensures
        is_installed(r, app) ==> is_installed(install_step(r, e).0, app),
        r.messages.len() <= install_step(r, e).0.messages.len(),
        install_step(r, e).0.messages.take(r.messages.len() as int) == r.messages,
        install_step(r, e).0.auto_creds_pass != r.auto_creds_pass ==> (e matches EventView::CredentialsSet {
            pass,
            outcome: Ok(()),
        } && install_step(r, e).0.auto_creds_pass == Some(pass)),
{
    let s = install_step(r, e).0;
    assert(s.messages.take(r.messages.len() as int) =~= r.messages);
}

} // verus!
